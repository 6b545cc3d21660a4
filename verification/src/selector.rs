//! Choosing the physical keyboard to capture.
//!
//! The caller enumerates the input devices and says of each what it is
//! called and which keys it reports. Each device is then rated: left out, or
//! given a score. The choice falls on the first device with the highest
//! score.

use vstd::prelude::*;
use vstd::string::*;
use crate::config::Config;
use crate::error::SwitcherError;
use crate::keys::{KeyCode, KEY_A, KEY_SPACE};
use crate::text::{contains, lowercase, occurs_in, to_lowercase};

verus! {

/// Score of a device whose name says it is a keyboard.
pub const KEYBOARD_SCORE: u32 = 100;

/// One input device as the caller found it.
#[derive(Debug)]
pub struct DeviceCandidate {
    /// Where the device can be opened.
    pub path: String,
    /// The name the device declares; empty when it declares none.
    pub name: String,
    /// The scancodes of the keys the device reports; empty when it reports
    /// no keys at all.
    pub supported_keys: Vec<KeyCode>,
}

/// The lowercase fragment by which the switcher knows its own synthetic
/// keyboard among the devices.
pub open spec fn own_name() -> Seq<char> {
    "rust switcher virtual"@
}

/// The lowercase word by which a device name says it is a keyboard.
pub open spec fn keyboard_word() -> Seq<char> {
    "keyboard"@
}

/// The characters of each text.
pub open spec fn texts(words: Seq<String>) -> Seq<Seq<char>> {
    Seq::new(words.len(), |i: int| words[i]@)
}

/// The lowercase form of each text.
pub open spec fn lowered(words: Seq<String>) -> Seq<Seq<char>> {
    Seq::new(words.len(), |i: int| lowercase(words[i]@))
}

/// The explicit device of the settings: the configured path, unless none is
/// configured or it is empty.
pub open spec fn explicit_path(config: Config) -> Option<String> {
    match config.device_path {
        Some(path) => if path@.len() > 0 {
            Some(path)
        } else {
            None
        },
        None => None,
    }
}

/// Whether a device name is left out: it holds the name of the switcher's
/// own synthetic keyboard, or one of the keywords. Name and keywords are
/// taken as they come; callers pass them in lowercase.
pub open spec fn name_ignored(name: Seq<char>, keywords: Seq<Seq<char>>) -> bool {
    occurs_in(own_name(), name) || exists|k: int|
        0 <= k < keywords.len() && occurs_in(#[trigger] keywords[k], name)
}

/// Whether the keys hold both the reference letter key and the space key,
/// the least a keyboard has.
pub open spec fn keyboard_keys(keys: Seq<KeyCode>) -> bool {
    keys.contains(KEY_A) && keys.contains(KEY_SPACE)
}

/// The score of a device name: 100 when it holds "keyboard", else 0.
pub open spec fn name_score(name: Seq<char>) -> u32 {
    if occurs_in(keyboard_word(), name) {
        KEYBOARD_SCORE
    } else {
        0
    }
}

/// The rating of a device with the given lowercase name and keys under the
/// given lowercase keywords: `None` when the device is left out or is no
/// keyboard, else its score.
pub open spec fn rating(name: Seq<char>, keywords: Seq<Seq<char>>, keys: Seq<KeyCode>) -> Option<
    u32,
> {
    if name_ignored(name, keywords) || !keyboard_keys(keys) {
        None
    } else {
        Some(name_score(name))
    }
}

/// The rating of a candidate under the settings: name and ignored keywords
/// are compared in lowercase.
pub open spec fn candidate_rating(config: Config, c: DeviceCandidate) -> Option<u32> {
    rating(lowercase(c.name@), lowered(config.ignored_keywords@), c.supported_keys@)
}

/// The ratings of the candidates, in enumeration order.
pub open spec fn ratings(config: Config, cands: Seq<DeviceCandidate>) -> Seq<Option<u32>> {
    Seq::new(cands.len(), |i: int| candidate_rating(config, cands[i]))
}

/// Whether index `i` is the choice among the first `n` ratings: it has a
/// score, no score among them is higher, and every score before it is lower.
pub open spec fn is_first_best(rated: Seq<Option<u32>>, n: int, i: int) -> bool {
    &&& 0 <= i < n <= rated.len()
    &&& rated[i] is Some
    &&& forall|j: int|
        0 <= j < n && (#[trigger] rated[j]) is Some ==> rated[j].unwrap() <= rated[i].unwrap()
    &&& forall|j: int|
        0 <= j < i && (#[trigger] rated[j]) is Some ==> rated[j].unwrap() < rated[i].unwrap()
}

/// Whether index `i` is the choice among all ratings: the highest score, and
/// the first of them in enumeration order where several are alike.
pub open spec fn is_choice(rated: Seq<Option<u32>>, i: int) -> bool {
    is_first_best(rated, rated.len() as int, i)
}

/// Whether nothing is rated: every device was left out.
pub open spec fn none_rated(rated: Seq<Option<u32>>) -> bool {
    forall|j: int| 0 <= j < rated.len() ==> (#[trigger] rated[j]) is None
}

/// There is at most one choice.
pub proof fn lemma_choice_is_unique(rated: Seq<Option<u32>>, i: int, j: int)
    requires
        is_choice(rated, i),
        is_choice(rated, j),
    ensures
        i == j,
{
    if i < j {
        assert(rated[i] is Some);
    } else if j < i {
        assert(rated[j] is Some);
    }
}

/// Where there is a choice, something is rated.
pub proof fn lemma_choice_is_rated(rated: Seq<Option<u32>>, i: int)
    requires
        is_choice(rated, i),
    ensures
        !none_rated(rated),
{
    assert(rated[i] is Some);
}

/// Gives the explicit device of the settings, if one is configured.
pub fn explicit_device_path(config: &Config) -> (r: Option<&String>)
    ensures
        match r {
            Some(path) => explicit_path(*config) == Some(*path),
            None => explicit_path(*config) is None,
        },
{
    match &config.device_path {
        Some(path) => {
            if path.as_str().is_empty() {
                None
            } else {
                Some(path)
            }
        },
        None => None,
    }
}

/// Gives the lowercase form of each text.
pub fn lowercase_all(words: &Vec<String>) -> (lower: Vec<String>)
    ensures
        texts(lower@) == lowered(words@),
{
    let mut lower: Vec<String> = Vec::new();
    let mut i: usize = 0;
    while i < words.len()
        invariant
            i <= words@.len(),
            lower@.len() == i,
            forall|j: int| 0 <= j < i ==> (#[trigger] lower@[j])@ == lowercase(words@[j]@),
        decreases words@.len() - i,
    {
        lower.push(to_lowercase(words[i].as_str()));
        i = i + 1;
    }
    assert(texts(lower@) =~= lowered(words@));
    lower
}

/// Tells whether `key` is among `keys`.
pub fn has_key(keys: &Vec<KeyCode>, key: KeyCode) -> (found: bool)
    ensures
        found == keys@.contains(key),
{
    let mut i: usize = 0;
    while i < keys.len()
        invariant
            i <= keys@.len(),
            forall|j: int| 0 <= j < i ==> keys@[j] != key,
        decreases keys@.len() - i,
    {
        if keys[i] == key {
            return true;
        }
        i = i + 1;
    }
    false
}

/// Tells whether a device name is left out under the keywords.
pub fn is_name_ignored(name: &str, keywords: &Vec<String>) -> (b: bool)
    ensures
        b == name_ignored(name@, texts(keywords@)),
{
    if contains(name, "rust switcher virtual") {
        return true;
    }
    let mut k: usize = 0;
    while k < keywords.len()
        invariant
            k <= keywords@.len(),
            !occurs_in(own_name(), name@),
            forall|j: int| 0 <= j < k ==> !occurs_in(#[trigger] texts(keywords@)[j], name@),
        decreases keywords@.len() - k,
    {
        if contains(name, keywords[k].as_str()) {
            assert(occurs_in(texts(keywords@)[k as int], name@));
            return true;
        }
        k = k + 1;
    }
    false
}

/// Scores a device name.
pub fn score_name(name: &str) -> (points: u32)
    ensures
        points == name_score(name@),
{
    if contains(name, "keyboard") {
        KEYBOARD_SCORE
    } else {
        0
    }
}

/// Rates a device by its lowercase name and its keys under the lowercase
/// keywords.
pub fn rate(name: &str, keywords: &Vec<String>, keys: &Vec<KeyCode>) -> (r: Option<u32>)
    ensures
        r == rating(name@, texts(keywords@), keys@),
{
    if is_name_ignored(name, keywords) {
        return None;
    }
    if has_key(keys, KEY_A) && has_key(keys, KEY_SPACE) {
        Some(score_name(name))
    } else {
        None
    }
}

/// Rates every candidate under the settings.
pub fn rate_candidates(config: &Config, candidates: &Vec<DeviceCandidate>) -> (rated: Vec<
    Option<u32>,
>)
    ensures
        rated@ == ratings(*config, candidates@),
{
    let keywords = lowercase_all(&config.ignored_keywords);
    let mut rated: Vec<Option<u32>> = Vec::new();
    let mut n: usize = 0;
    while n < candidates.len()
        invariant
            n <= candidates@.len(),
            texts(keywords@) == lowered(config.ignored_keywords@),
            rated@.len() == n,
            forall|j: int| 0 <= j < n ==> #[trigger] rated@[j] == candidate_rating(
                *config,
                candidates@[j],
            ),
        decreases candidates@.len() - n,
    {
        let name = to_lowercase(candidates[n].name.as_str());
        rated.push(rate(name.as_str(), &keywords, &candidates[n].supported_keys));
        n = n + 1;
    }
    assert(rated@ =~= ratings(*config, candidates@));
    rated
}

/// Picks among the ratings: the index of the highest score, the first of
/// them where several are alike, or `None` when nothing is rated.
pub fn pick_best(rated: &Vec<Option<u32>>) -> (r: Option<usize>)
    ensures
        match r {
            Some(i) => is_choice(rated@, i as int),
            None => none_rated(rated@),
        },
{
    let mut best: Option<usize> = None;
    let mut best_score: u32 = 0;
    let mut n: usize = 0;
    while n < rated.len()
        invariant
            n <= rated@.len(),
            match best {
                Some(i) => is_first_best(rated@, n as int, i as int) && rated@[i as int] == Some(
                    best_score,
                ),
                None => forall|j: int| 0 <= j < n ==> (#[trigger] rated@[j]) is None,
            },
        decreases rated@.len() - n,
    {
        match rated[n] {
            Some(points) => {
                if best.is_none() || points > best_score {
                    best = Some(n);
                    best_score = points;
                }
            },
            None => {},
        }
        n = n + 1;
    }
    best
}

/// Picks the device to capture among the candidates: the index of the first
/// one with the highest rating, or `None` when every candidate is left out.
pub fn select_candidate(config: &Config, candidates: &Vec<DeviceCandidate>) -> (r: Option<usize>)
    ensures
        match r {
            Some(i) => i < candidates@.len() && is_choice(ratings(*config, candidates@), i as int),
            None => none_rated(ratings(*config, candidates@)),
        },
{
    let rated = rate_candidates(config, candidates);
    pick_best(&rated)
}

/// Selects the physical keyboard. An explicit device that exists on disk
/// always wins, unscored; `path_exists` says whether it does. Otherwise the
/// choice falls on the best candidate, and fails when none is rated.
pub fn find_keyboard(config: &Config, path_exists: bool, candidates: &Vec<DeviceCandidate>) -> (r:
    Result<String, SwitcherError>)
    ensures
        match r {
            Ok(path) => if path_exists && explicit_path(*config) is Some {
                path@ == explicit_path(*config).unwrap()@
            } else {
                exists|i: int|
                    #[trigger] is_choice(ratings(*config, candidates@), i) && path@
                        == candidates@[i].path@
            },
            Err(e) => {
                &&& e == SwitcherError::DeviceNotFound
                &&& !(path_exists && explicit_path(*config) is Some)
                &&& none_rated(ratings(*config, candidates@))
            },
        },
{
    if path_exists {
        match explicit_device_path(config) {
            Some(path) => {
                return Ok(path.clone());
            },
            None => {},
        }
    }
    match select_candidate(config, candidates) {
        Some(i) => Ok(candidates[i].path.clone()),
        None => Err(SwitcherError::DeviceNotFound),
    }
}

} // verus!
