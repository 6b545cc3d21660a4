//! Operations on text that the switcher needs.
//!
//! Equality and search are proved here from what the verifier knows of
//! `String` and `str`. Lowercasing and replacing are the standard library's
//! and the key-name formatter is the input library's: their contracts are
//! stated, not proved.

use vstd::prelude::*;
use vstd::string::*;
use crate::keys::KeyCode;

verus! {

/// Tells whether two pieces of text hold the same characters.
pub fn str_equal(a: &str, b: &str) -> (same: bool)
    ensures
        same == (a@ == b@),
{
    let x = String::from_str(a);
    let y = String::from_str(b);
    x == y
}

/// Whether `needle` stands in `haystack` at index `i`.
pub open spec fn occurs_at(needle: Seq<char>, haystack: Seq<char>, i: int) -> bool {
    0 <= i && i + needle.len() <= haystack.len() && haystack.subrange(i, i + needle.len())
        == needle
}

/// Whether `needle` stands somewhere in `haystack`, as a run of consecutive
/// characters. The empty text stands in every text.
pub open spec fn occurs_in(needle: Seq<char>, haystack: Seq<char>) -> bool {
    exists|i: int| occurs_at(needle, haystack, i)
}

/// Gives the characters of a text.
pub fn chars_of(s: &str) -> (chars: Vec<char>)
    ensures
        chars@ == s@,
{
    let n = s.unicode_len();
    let mut chars: Vec<char> = Vec::new();
    let mut i: usize = 0;
    while i < n
        invariant
            i <= n,
            n == s@.len(),
            chars@ == s@.take(i as int),
        decreases n - i,
    {
        chars.push(s.get_char(i));
        i = i + 1;
        assert(chars@ =~= s@.take(i as int));
    }
    assert(s@.take(n as int) =~= s@);
    chars
}

/// Tells whether `needle` stands in `haystack` at index `at`.
pub fn stands_at(needle: &Vec<char>, haystack: &Vec<char>, at: usize) -> (found: bool)
    requires
        at + needle@.len() <= haystack@.len(),
    ensures
        found == occurs_at(needle@, haystack@, at as int),
{
    let mut j: usize = 0;
    while j < needle.len()
        invariant
            j <= needle.len(),
            at + needle.len() <= haystack.len(),
            forall|k: int| 0 <= k < j ==> haystack@[at + k] == needle@[k],
        decreases needle@.len() - j,
    {
        if haystack[at + j] != needle[j] {
            assert(haystack@.subrange(at as int, at + needle@.len())[j as int] != needle@[j as int]);
            return false;
        }
        j = j + 1;
    }
    assert(haystack@.subrange(at as int, at + needle@.len()) =~= needle@);
    true
}

/// Tells whether `needle` stands somewhere in `haystack`.
pub fn occurs(needle: &Vec<char>, haystack: &Vec<char>) -> (found: bool)
    ensures
        found == occurs_in(needle@, haystack@),
{
    if needle.len() > haystack.len() {
        return false;
    }
    let last: usize = haystack.len() - needle.len();
    let mut at: usize = 0;
    loop
        invariant
            at <= last,
            last + needle.len() == haystack.len(),
            forall|i: int| 0 <= i < at ==> !occurs_at(needle@, haystack@, i),
        decreases last - at,
    {
        if stands_at(needle, haystack, at) {
            return true;
        }
        if at == last {
            return false;
        }
        at = at + 1;
    }
}

/// Tells whether the text `needle` stands somewhere in the text `haystack`.
pub fn contains(haystack: &str, needle: &str) -> (found: bool)
    ensures
        found == occurs_in(needle@, haystack@),
{
    let hay = chars_of(haystack);
    let pin = chars_of(needle);
    occurs(&pin, &hay)
}

/// The lowercase form of a text, as `str::to_lowercase` gives it.
pub uninterp spec fn lowercase(s: Seq<char>) -> Seq<char>;

/// What is left of `s` once every occurrence of `from` is replaced by `to`,
/// as `str::replace` gives it.
pub uninterp spec fn replaced(s: Seq<char>, from: Seq<char>, to: Seq<char>) -> Seq<char>;

/// The name under which the input library prints the key with scancode
/// `code`, as the `Debug` form of `evdev::KeyCode` gives it.
pub uninterp spec fn key_debug_name(code: KeyCode) -> Seq<char>;

/// Calls `str::to_lowercase`. The contract only names the result: the
/// lowercase form follows the Unicode tables and depends on nothing but the
/// text.
#[verifier::external_body]
pub(crate) fn to_lowercase(s: &str) -> (lower: String)
    ensures
        lower@ == lowercase(s@),
{
    s.to_lowercase()
}

/// Calls `str::replace`. The contract only names the result, which depends
/// on nothing but the three texts.
#[verifier::external_body]
pub(crate) fn replace(s: &str, from: &str, to: &str) -> (out: String)
    ensures
        out@ == replaced(s@, from@, to@),
{
    s.replace(from, to)
}

/// Formats `evdev::KeyCode` with `Debug`. The contract only names the
/// result: the formatter looks the scancode up in the library's table of key
/// names and depends on nothing else.
#[verifier::external_body]
pub(crate) fn debug_name(code: KeyCode) -> (name: String)
    ensures
        name@ == key_debug_name(code),
{
    format!("{:?}", evdev::KeyCode::new(code))
}

/// The short name of a key in diagnostics: the name the input library
/// prints, without its `KEY_` prefix, in lowercase.
pub open spec fn key_label(code: KeyCode) -> Seq<char> {
    lowercase(replaced(key_debug_name(code), "KEY_"@, ""@))
}

/// The texts of `parts` one after the other, nothing between them.
pub open spec fn joined(parts: Seq<String>) -> Seq<char>
    decreases parts.len(),
{
    if parts.len() == 0 {
        Seq::empty()
    } else {
        joined(parts.drop_last()) + parts.last()@
    }
}

/// Gives the short name of a key.
pub fn key_label_of(code: KeyCode) -> (label: String)
    ensures
        label@ == key_label(code),
{
    let name = debug_name(code);
    let bare = replace(name.as_str(), "KEY_", "");
    to_lowercase(bare.as_str())
}

/// Joins texts into one, nothing between them.
pub fn join(parts: &Vec<String>) -> (text: String)
    ensures
        text@ == joined(parts@),
{
    let mut text = String::new();
    let mut i: usize = 0;
    while i < parts.len()
        invariant
            i <= parts@.len(),
            text@ == joined(parts@.take(i as int)),
        decreases parts@.len() - i,
    {
        proof {
            let next = parts@.take(i + 1);
            assert(next.drop_last() =~= parts@.take(i as int));
            assert(next.last() == parts@[i as int]);
        }
        text.append(parts[i].as_str());
        i = i + 1;
    }
    assert(parts@.take(i as int) =~= parts@);
    text
}

} // verus!
