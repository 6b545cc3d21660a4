use rust_switcher::config::{default_buffer_size, default_retry_delay, Config};
use rust_switcher::error::SwitcherError;
use rust_switcher::keys::{KEY_A, KEY_SPACE};
use rust_switcher::text::contains;
use rust_switcher::selector::{
    explicit_device_path, find_keyboard, has_key, is_name_ignored, lowercase_all, pick_best, rate,
    rate_candidates, score_name, select_candidate, DeviceCandidate, KEYBOARD_SCORE,
};

fn settings(device_path: Option<&str>, ignored: &[&str]) -> Config {
    Config {
        device_path: device_path.map(String::from),
        trigger_key: String::from("KEY_PAUSE"),
        clipboard_timeout_ms: 5000,
        layout_switch_combo: Vec::new(),
        ignored_keywords: ignored.iter().map(|k| String::from(*k)).collect(),
        buffer_size: default_buffer_size(),
        retry_delay_ms: default_retry_delay(),
    }
}

fn keyboard(path: &str, name: &str) -> DeviceCandidate {
    DeviceCandidate {
        path: String::from(path),
        name: String::from(name),
        supported_keys: vec![1, 16, KEY_A, KEY_SPACE, 58],
    }
}

fn words(list: &[&str]) -> Vec<String> {
    list.iter().map(|w| String::from(*w)).collect()
}

fn device(path: &str, name: &str, keys: &[u16]) -> DeviceCandidate {
    DeviceCandidate { path: String::from(path), name: String::from(name), supported_keys: keys.to_vec() }
}

#[test]
fn defaults_are_one_second_and_one_hundred_keystrokes() {
    assert_eq!(default_retry_delay(), 1000);
    assert_eq!(default_buffer_size(), 100);
    assert_eq!(KEYBOARD_SCORE, 100);
}

#[test]
fn an_ignored_keyboard_loses_to_a_generic_one() {
    let config = settings(None, &["bluetooth"]);
    let candidates = vec![
        keyboard("/dev/input/event3", "Ignored Bluetooth Keyboard"),
        keyboard("/dev/input/event4", "Generic Keyboard"),
    ];
    assert_eq!(find_keyboard(&config, false, &candidates), Ok(String::from("/dev/input/event4")));
    assert_eq!(select_candidate(&config, &candidates), Some(1));
}

#[test]
fn keywords_and_names_are_compared_without_regard_to_case() {
    let config = settings(None, &["BlueTooth"]);
    let candidates = vec![keyboard("/dev/input/event3", "IGNORED BLUETOOTH KEYBOARD")];
    assert_eq!(find_keyboard(&config, false, &candidates), Err(SwitcherError::DeviceNotFound));
    assert_eq!(rate_candidates(&config, &candidates), vec![None]);
    let plain = settings(None, &[]);
    assert_eq!(rate_candidates(&plain, &candidates), vec![Some(100)]);
}

#[test]
fn lowercase_of_words() {
    assert_eq!(
        lowercase_all(&words(&["BlueTooth", "MOUSE", "tablet", "", "ÄB"])),
        words(&["bluetooth", "mouse", "tablet", "", "äb"])
    );
    assert_eq!(lowercase_all(&Vec::new()), Vec::<String>::new());
}

#[test]
fn a_keyword_must_stand_in_the_name_to_exclude() {
    let keywords = words(&["mouse", "tablet"]);
    assert!(!is_name_ignored("generic keyboard", &keywords));
    assert!(is_name_ignored("gaming mouse", &keywords));
    assert!(is_name_ignored("a tablet", &keywords));
    assert!(is_name_ignored("tablet", &keywords));
    assert!(!is_name_ignored("mous", &keywords));
    assert!(!is_name_ignored("m o u s e", &keywords));
    assert!(!is_name_ignored("", &keywords));
}

#[test]
fn an_empty_keyword_excludes_every_device() {
    let config = settings(None, &[""]);
    assert!(is_name_ignored("generic keyboard", &words(&[""])));
    assert!(is_name_ignored("", &words(&[""])));
    let candidates = vec![keyboard("/dev/input/event0", "Generic Keyboard")];
    assert_eq!(find_keyboard(&config, false, &candidates), Err(SwitcherError::DeviceNotFound));
}

#[test]
fn the_switcher_never_captures_its_own_synthetic_keyboard() {
    let config = settings(None, &[]);
    let candidates = vec![keyboard("/dev/input/event9", "Rust Switcher Virtual Device")];
    assert_eq!(find_keyboard(&config, false, &candidates), Err(SwitcherError::DeviceNotFound));
    assert!(is_name_ignored("rust switcher virtual device", &Vec::new()));
    assert!(is_name_ignored("my rust switcher virtual", &Vec::new()));
    assert!(!is_name_ignored("rust switcher", &Vec::new()));
}

#[test]
fn a_device_without_the_letter_or_the_space_key_is_no_keyboard() {
    let none = Vec::new();
    assert_eq!(rate("keyboard", &none, &vec![KEY_A]), None);
    assert_eq!(rate("keyboard", &none, &vec![KEY_SPACE]), None);
    assert_eq!(rate("keyboard", &none, &Vec::new()), None);
    assert_eq!(rate("keyboard", &none, &vec![272, 273, 274]), None);
    assert_eq!(rate("keyboard", &none, &vec![KEY_SPACE, KEY_A]), Some(100));
    assert_eq!(rate("", &none, &vec![KEY_SPACE, KEY_A]), Some(0));
}

#[test]
fn an_ignored_name_is_not_rated_whatever_its_keys() {
    let keywords = words(&["blue"]);
    assert_eq!(rate("blue keyboard", &keywords, &vec![KEY_SPACE, KEY_A]), None);
    assert_eq!(rate("red keyboard", &keywords, &vec![KEY_SPACE, KEY_A]), Some(100));
    assert_eq!(rate("red device", &keywords, &vec![KEY_SPACE, KEY_A]), Some(0));
}

#[test]
fn picking_among_ratings() {
    assert_eq!(pick_best(&vec![None, Some(100), Some(0), Some(100)]), Some(1));
    assert_eq!(pick_best(&vec![Some(0), None, Some(0)]), Some(0));
    assert_eq!(pick_best(&vec![Some(0), Some(100)]), Some(1));
    assert_eq!(pick_best(&vec![None, None, Some(0)]), Some(2));
    assert_eq!(pick_best(&vec![Some(7), Some(u32::MAX), Some(u32::MAX)]), Some(1));
    assert_eq!(pick_best(&vec![None, None]), None);
    assert_eq!(pick_best(&Vec::new()), None);
}

#[test]
fn membership_of_a_key() {
    assert!(has_key(&vec![5, 6, 7], 7));
    assert!(has_key(&vec![5, 6, 7], 5));
    assert!(!has_key(&vec![5, 6, 7], 8));
    assert!(!has_key(&Vec::new(), 0));
}

#[test]
fn a_name_with_keyboard_scores_one_hundred() {
    assert_eq!(score_name("generic keyboard"), 100);
    assert_eq!(score_name("keyboard"), 100);
    assert_eq!(score_name("xkeyboardx"), 100);
    assert_eq!(score_name("power button"), 0);
    assert_eq!(score_name("keyboar"), 0);
    assert_eq!(score_name("Keyboard"), 0);
    assert_eq!(score_name(""), 0);
}

#[test]
fn candidates_are_scored_by_their_lowercase_name() {
    let config = settings(None, &[]);
    let candidates = vec![
        keyboard("/a", "USB KEYBOARD"),
        keyboard("/b", "Generic Keyboard"),
        keyboard("/c", "Power Button"),
        device("/d", "Keyboard", &[1]),
    ];
    assert_eq!(rate_candidates(&config, &candidates), vec![Some(100), Some(100), Some(0), None]);
}

#[test]
fn the_highest_score_wins() {
    let config = settings(None, &[]);
    let candidates = vec![
        keyboard("/dev/input/event0", "Power Button"),
        keyboard("/dev/input/event1", "Some Keyboard"),
        keyboard("/dev/input/event2", "Other Device"),
    ];
    assert_eq!(find_keyboard(&config, false, &candidates), Ok(String::from("/dev/input/event1")));
}

#[test]
fn among_equal_scores_the_first_wins() {
    let config = settings(None, &[]);
    let candidates = vec![
        keyboard("/dev/input/event0", "Power Button"),
        keyboard("/dev/input/event1", "First Keyboard"),
        keyboard("/dev/input/event2", "Second Keyboard"),
    ];
    assert_eq!(select_candidate(&config, &candidates), Some(1));
    let unnamed = vec![
        keyboard("/dev/input/event5", "One"),
        keyboard("/dev/input/event6", "Two"),
    ];
    assert_eq!(find_keyboard(&config, false, &unnamed), Ok(String::from("/dev/input/event5")));
}

#[test]
fn devices_that_do_not_survive_do_not_count() {
    let config = settings(None, &["first"]);
    let candidates = vec![
        keyboard("/dev/input/event1", "First Keyboard"),
        device("/dev/input/event2", "Mouse Keyboard", &[272]),
        keyboard("/dev/input/event3", "Plain"),
    ];
    assert_eq!(select_candidate(&config, &candidates), Some(2));
}

#[test]
fn no_candidates_means_no_keyboard() {
    let config = settings(None, &[]);
    assert_eq!(find_keyboard(&config, false, &Vec::new()), Err(SwitcherError::DeviceNotFound));
    assert_eq!(select_candidate(&config, &Vec::new()), None);
}

#[test]
fn an_explicit_path_that_exists_wins_unscored() {
    let config = settings(Some("/dev/input/by-id/mine"), &["mine"]);
    let candidates = vec![keyboard("/dev/input/event4", "Generic Keyboard")];
    assert_eq!(
        find_keyboard(&config, true, &candidates),
        Ok(String::from("/dev/input/by-id/mine"))
    );
    assert_eq!(find_keyboard(&config, true, &Vec::new()), Ok(String::from("/dev/input/by-id/mine")));
}

#[test]
fn an_explicit_path_that_does_not_exist_falls_back_to_scoring() {
    let config = settings(Some("/dev/input/by-id/gone"), &[]);
    let candidates = vec![keyboard("/dev/input/event4", "Generic Keyboard")];
    assert_eq!(find_keyboard(&config, false, &candidates), Ok(String::from("/dev/input/event4")));
    assert_eq!(find_keyboard(&config, false, &Vec::new()), Err(SwitcherError::DeviceNotFound));
}

#[test]
fn an_empty_explicit_path_is_no_explicit_path() {
    let config = settings(Some(""), &[]);
    assert_eq!(explicit_device_path(&config), None);
    let candidates = vec![keyboard("/dev/input/event4", "Generic Keyboard")];
    assert_eq!(find_keyboard(&config, true, &candidates), Ok(String::from("/dev/input/event4")));
    assert_eq!(find_keyboard(&config, true, &Vec::new()), Err(SwitcherError::DeviceNotFound));
}

#[test]
fn the_explicit_path_is_handed_out_as_configured() {
    let config = settings(Some("/dev/input/event7"), &[]);
    assert_eq!(explicit_device_path(&config), Some(&String::from("/dev/input/event7")));
    assert_eq!(explicit_device_path(&settings(None, &[])), None);
}

#[test]
fn failures_describe_themselves() {
    assert_eq!(SwitcherError::DeviceNotFound.message(), "No keyboard found");
}

#[test]
fn a_text_holds_another_when_its_characters_stand_in_it_in_a_row() {
    assert!(contains("generic keyboard", "keyboard"));
    assert!(contains("generic keyboard", "generic"));
    assert!(contains("generic keyboard", "c k"));
    assert!(contains("keyboard", "keyboard"));
    assert!(contains("generic keyboard", ""));
    assert!(contains("", ""));
    assert!(!contains("", "k"));
    assert!(!contains("keyboar", "keyboard"));
    assert!(!contains("generic keyboard", "keyboards"));
    assert!(!contains("generic keyboard", "Keyboard"));
    assert!(!contains("kkeybkeyboar", "keyboard"));
    assert!(contains("kkeybkeyboard", "keyboard"));
    assert!(contains("tastatur f\u{fc}r b\u{fc}ro", "f\u{fc}r"));
    assert!(!contains("tastatur fur buro", "f\u{fc}r"));
}

#[test]
fn searching_agrees_with_the_standard_library() {
    let texts = ["", "a", "ab", "aab", "abab", "keyboard", "usb keyboard", "\u{e4}b", "b\u{e4}b"];
    for haystack in texts {
        for needle in texts {
            assert_eq!(contains(haystack, needle), haystack.contains(needle), "{:?} in {:?}", needle, haystack);
        }
    }
}
