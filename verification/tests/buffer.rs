use rust_switcher::buffer::{push_bounded, word_start_index};
use rust_switcher::keys::{BufferedKeystroke, KEY_A, KEY_B, KEY_C, KEY_SPACE};
use rust_switcher::output::{
    mirror_actions, plan_retype, OutputAction, KEYSTROKE_GAP_MS, SWITCH_HOLD_MS, SWITCH_SETTLE_MS,
};
use rust_switcher::text::{join, key_label_of, str_equal};
use rust_switcher::ui_key::{Key, UiKey};

fn plain(codes: &[u16]) -> Vec<BufferedKeystroke> {
    codes.iter().map(|code| (*code, false)).collect()
}

#[test]
fn the_word_starts_after_the_last_space_before_it() {
    assert_eq!(word_start_index(&plain(&[KEY_A, KEY_B, KEY_SPACE, KEY_C, KEY_A])), 3);
    assert_eq!(word_start_index(&plain(&[KEY_A, KEY_SPACE, KEY_B, KEY_SPACE, KEY_C])), 4);
    assert_eq!(word_start_index(&plain(&[KEY_SPACE, KEY_A])), 1);
}

#[test]
fn trailing_spaces_are_skipped_when_the_word_is_sought() {
    assert_eq!(word_start_index(&plain(&[KEY_A, KEY_SPACE, KEY_B, KEY_C, KEY_SPACE])), 2);
    assert_eq!(
        word_start_index(&plain(&[KEY_A, KEY_SPACE, KEY_B, KEY_SPACE, KEY_SPACE, KEY_SPACE])),
        2
    );
    assert_eq!(word_start_index(&plain(&[KEY_A, KEY_SPACE])), 0);
}

#[test]
fn a_single_word_starts_at_zero() {
    assert_eq!(word_start_index(&plain(&[KEY_A, KEY_B, KEY_C])), 0);
    assert_eq!(word_start_index(&plain(&[KEY_A])), 0);
}

#[test]
fn a_buffer_of_spaces_or_of_nothing_starts_at_zero() {
    assert_eq!(word_start_index(&plain(&[KEY_SPACE, KEY_SPACE, KEY_SPACE])), 0);
    assert_eq!(word_start_index(&plain(&[KEY_SPACE])), 0);
    assert_eq!(word_start_index(&Vec::new()), 0);
}

#[test]
fn the_shift_flag_plays_no_part_in_finding_the_word() {
    let buf = vec![(KEY_A, true), (KEY_SPACE, true), (KEY_B, true)];
    assert_eq!(word_start_index(&buf), 2);
}

#[test]
fn appending_below_capacity_keeps_everything() {
    let mut buf = plain(&[KEY_A]);
    push_bounded(&mut buf, (KEY_B, true), 3);
    push_bounded(&mut buf, (KEY_C, false), 3);
    assert_eq!(buf, vec![(KEY_A, false), (KEY_B, true), (KEY_C, false)]);
}

#[test]
fn appending_at_capacity_evicts_the_oldest() {
    let mut buf = plain(&[KEY_A, KEY_B, KEY_C]);
    push_bounded(&mut buf, (KEY_SPACE, false), 3);
    assert_eq!(buf, plain(&[KEY_B, KEY_C, KEY_SPACE]));
    push_bounded(&mut buf, (KEY_A, false), 3);
    assert_eq!(buf, plain(&[KEY_C, KEY_SPACE, KEY_A]));
}

#[test]
fn many_appends_keep_the_most_recent_in_order() {
    let mut buf: Vec<BufferedKeystroke> = Vec::new();
    for code in 2u16..=53 {
        push_bounded(&mut buf, (code, code % 2 == 0), 10);
        assert!(buf.len() <= 10);
    }
    let expected: Vec<BufferedKeystroke> = (44u16..=53).map(|code| (code, code % 2 == 0)).collect();
    assert_eq!(buf, expected);
}

#[test]
fn the_delays_of_the_protocol() {
    assert_eq!(SWITCH_HOLD_MS, 100);
    assert_eq!(SWITCH_SETTLE_MS, 250);
    assert_eq!(KEYSTROKE_GAP_MS, 10);
}

#[test]
fn the_plan_deletes_switches_and_retypes_in_that_order() {
    let buf = vec![(KEY_C, false), (KEY_SPACE, false), (KEY_A, true), (KEY_B, false)];
    let combo = vec![UiKey::Key(Key::LeftAlt), UiKey::Key(Key::LeftShift)];
    let shift = UiKey::Key(Key::LeftShift);
    assert_eq!(
        plan_retype(&buf, 2, &combo),
        vec![
            OutputAction::Click(UiKey::Key(Key::BackSpace)),
            OutputAction::Click(UiKey::Key(Key::BackSpace)),
            OutputAction::Synchronize,
            OutputAction::Press(UiKey::Key(Key::LeftAlt)),
            OutputAction::Press(UiKey::Key(Key::LeftShift)),
            OutputAction::Synchronize,
            OutputAction::Sleep(100),
            OutputAction::Release(UiKey::Key(Key::LeftAlt)),
            OutputAction::Release(UiKey::Key(Key::LeftShift)),
            OutputAction::Synchronize,
            OutputAction::Sleep(250),
            OutputAction::Press(shift),
            OutputAction::Click(UiKey::Key(Key::A)),
            OutputAction::Release(shift),
            OutputAction::Sleep(10),
            OutputAction::Click(UiKey::Key(Key::B)),
            OutputAction::Sleep(10),
            OutputAction::Synchronize,
        ]
    );
}

#[test]
fn keys_without_a_counterpart_are_deleted_but_not_retyped() {
    let buf = vec![(KEY_A, false), (84, false), (0x2ff, true), (KEY_B, false)];
    let plan = plan_retype(&buf, 0, &Vec::new());
    assert_eq!(
        plan,
        vec![
            OutputAction::Click(UiKey::Key(Key::BackSpace)),
            OutputAction::Click(UiKey::Key(Key::BackSpace)),
            OutputAction::Click(UiKey::Key(Key::BackSpace)),
            OutputAction::Click(UiKey::Key(Key::BackSpace)),
            OutputAction::Synchronize,
            OutputAction::Synchronize,
            OutputAction::Sleep(100),
            OutputAction::Synchronize,
            OutputAction::Sleep(250),
            OutputAction::Click(UiKey::Key(Key::A)),
            OutputAction::Sleep(10),
            OutputAction::Click(UiKey::Key(Key::B)),
            OutputAction::Sleep(10),
            OutputAction::Synchronize,
        ]
    );
}

#[test]
fn the_plan_for_an_empty_span_still_switches() {
    let buf = plain(&[KEY_A]);
    let plan = plan_retype(&buf, 1, &vec![UiKey::Key(Key::Space)]);
    assert_eq!(
        plan,
        vec![
            OutputAction::Synchronize,
            OutputAction::Press(UiKey::Key(Key::Space)),
            OutputAction::Synchronize,
            OutputAction::Sleep(100),
            OutputAction::Release(UiKey::Key(Key::Space)),
            OutputAction::Synchronize,
            OutputAction::Sleep(250),
            OutputAction::Synchronize,
        ]
    );
}

#[test]
fn mirroring_by_value() {
    let a = UiKey::Key(Key::A);
    assert_eq!(mirror_actions(KEY_A, 1), vec![OutputAction::Press(a), OutputAction::Synchronize]);
    assert_eq!(mirror_actions(KEY_A, 2), vec![OutputAction::Press(a), OutputAction::Synchronize]);
    assert_eq!(mirror_actions(KEY_A, 0), vec![OutputAction::Release(a), OutputAction::Synchronize]);
    assert_eq!(mirror_actions(KEY_A, 3), vec![OutputAction::Synchronize]);
    assert_eq!(mirror_actions(KEY_A, -1), vec![OutputAction::Synchronize]);
    assert_eq!(mirror_actions(84, 1), Vec::new());
}

#[test]
fn texts_are_equal_when_their_characters_are() {
    assert!(str_equal("KEY_A", "KEY_A"));
    assert!(str_equal("", ""));
    assert!(!str_equal("KEY_A", "KEY_B"));
    assert!(!str_equal("KEY_A", "KEY_"));
    assert!(!str_equal("key_a", "KEY_A"));
}

#[test]
fn joining_puts_nothing_between_the_parts() {
    assert_eq!(join(&vec![String::from("ab"), String::from(""), String::from("c")]), "abc");
    assert_eq!(join(&Vec::new()), "");
}

#[test]
fn key_labels_drop_the_prefix_and_the_capitals() {
    assert_eq!(key_label_of(KEY_A), "a");
    assert_eq!(key_label_of(KEY_SPACE), "space");
    assert_eq!(key_label_of(28), "enter");
    assert_eq!(key_label_of(2), "1");
    assert_eq!(key_label_of(125), "leftmeta");
}
