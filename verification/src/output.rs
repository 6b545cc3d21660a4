//! What the switcher asks of the synthetic keyboard, and the plan of the
//! retype protocol.
//!
//! The library never touches a device. It hands its caller a list of
//! actions; the caller performs them in order on the synthetic keyboard and
//! may discard the outcome of each: a synthetic event that fails to go out
//! is lost like a dropped keystroke and stops nothing.

use vstd::prelude::*;
use crate::keys::{BufferedKeystroke, KeyCode, VALUE_PRESS, VALUE_RELEASE, VALUE_REPEAT};
use crate::ui_key::{evdev_to_ui_key, translate, Key, UiKey};

verus! {

/// How long the layout-switch combo is held down, in milliseconds.
pub const SWITCH_HOLD_MS: u64 = 100;

/// How long the switcher waits after the combo before it retypes, in
/// milliseconds.
pub const SWITCH_SETTLE_MS: u64 = 250;

/// Pause after each retyped keystroke, in milliseconds.
pub const KEYSTROKE_GAP_MS: u64 = 10;

/// One step for the caller to perform.
#[derive(Clone, Copy, Debug, PartialEq, Eq, Structural)]
pub enum OutputAction {
    /// Send a press of the key.
    Press(UiKey),
    /// Send a release of the key.
    Release(UiKey),
    /// Send a press of the key and then its release.
    Click(UiKey),
    /// Commit the events sent so far as one group.
    Synchronize,
    /// Block for this many milliseconds.
    Sleep(u64),
}

/// The synthetic backspace key.
pub open spec fn backspace() -> UiKey {
    UiKey::Key(Key::BackSpace)
}

/// The synthetic shift key that wraps a shifted keystroke.
pub open spec fn left_shift() -> UiKey {
    UiKey::Key(Key::LeftShift)
}

/// `n` clicks of backspace.
pub open spec fn backspaces(n: nat) -> Seq<OutputAction> {
    Seq::new(n, |i: int| OutputAction::Click(backspace()))
}

/// A press of each key, in the order given.
pub open spec fn presses(keys: Seq<UiKey>) -> Seq<OutputAction> {
    Seq::new(keys.len(), |i: int| OutputAction::Press(keys[i]))
}

/// A release of each key, in the order given.
pub open spec fn releases(keys: Seq<UiKey>) -> Seq<OutputAction> {
    Seq::new(keys.len(), |i: int| OutputAction::Release(keys[i]))
}

/// The actions that retype one keystroke: a click of its synthetic key,
/// wrapped in a press and a release of shift when it was typed shifted, and
/// the pause that follows. A key without a synthetic counterpart yields
/// nothing.
pub open spec fn retyped_key(entry: BufferedKeystroke) -> Seq<OutputAction> {
    match translate(entry.0) {
        Some(key) => if entry.1 {
            seq![
                OutputAction::Press(left_shift()),
                OutputAction::Click(key),
                OutputAction::Release(left_shift()),
                OutputAction::Sleep(KEYSTROKE_GAP_MS),
            ]
        } else {
            seq![OutputAction::Click(key), OutputAction::Sleep(KEYSTROKE_GAP_MS)]
        },
        None => Seq::empty(),
    }
}

/// The actions that retype a span of keystrokes, in the order typed.
pub open spec fn retyped(span: Seq<BufferedKeystroke>) -> Seq<OutputAction>
    decreases span.len(),
{
    if span.len() == 0 {
        Seq::empty()
    } else {
        retyped(span.drop_last()) + retyped_key(span.last())
    }
}

/// The whole retype protocol for a target span: delete it, switch the
/// layout, type it again.
pub open spec fn retype_plan(span: Seq<BufferedKeystroke>, switch_keys: Seq<UiKey>) -> Seq<
    OutputAction,
> {
    backspaces(span.len()) + seq![OutputAction::Synchronize] + presses(switch_keys) + seq![
        OutputAction::Synchronize,
        OutputAction::Sleep(SWITCH_HOLD_MS),
    ] + releases(switch_keys) + seq![
        OutputAction::Synchronize,
        OutputAction::Sleep(SWITCH_SETTLE_MS),
    ] + retyped(span) + seq![OutputAction::Synchronize]
}

/// The actions that mirror one physical key event on the synthetic
/// keyboard. A press or an auto-repeat is mirrored as a press, a release as
/// a release, and either is committed at once. A key without a synthetic
/// counterpart is not mirrored at all.
pub open spec fn mirrored(key: KeyCode, value: i32) -> Seq<OutputAction> {
    match translate(key) {
        Some(ui) => if value == VALUE_PRESS || value == VALUE_REPEAT {
            seq![OutputAction::Press(ui), OutputAction::Synchronize]
        } else if value == VALUE_RELEASE {
            seq![OutputAction::Release(ui), OutputAction::Synchronize]
        } else {
            seq![OutputAction::Synchronize]
        },
        None => Seq::empty(),
    }
}

/// The retype plan starts by deleting exactly the span: one backspace click
/// for each of its keystrokes, then a commit.
pub proof fn lemma_plan_deletes_span(span: Seq<BufferedKeystroke>, switch_keys: Seq<UiKey>)
    ensures
        retype_plan(span, switch_keys).len() >= span.len() + 1,
        forall|i: int|
            0 <= i < span.len() ==> #[trigger] retype_plan(span, switch_keys)[i]
                == OutputAction::Click(backspace()),
        retype_plan(span, switch_keys)[span.len() as int] == OutputAction::Synchronize,
{
}

/// Builds the list of actions that mirror one physical key event.
pub fn mirror_actions(key: KeyCode, value: i32) -> (actions: Vec<OutputAction>)
    ensures
        actions@ == mirrored(key, value),
{
    let mut actions: Vec<OutputAction> = Vec::new();
    match evdev_to_ui_key(key) {
        Some(ui) => {
            if value == VALUE_PRESS || value == VALUE_REPEAT {
                actions.push(OutputAction::Press(ui));
            } else if value == VALUE_RELEASE {
                actions.push(OutputAction::Release(ui));
            }
            actions.push(OutputAction::Synchronize);
        },
        None => {},
    }
    assert(actions@ =~= mirrored(key, value));
    actions
}

/// Builds the retype plan for the keystrokes of `buf` from index `start` on.
pub fn plan_retype(buf: &Vec<BufferedKeystroke>, start: usize, switch_keys: &Vec<UiKey>) -> (plan:
    Vec<OutputAction>)
    requires
        start <= buf@.len(),
    ensures
        plan@ == retype_plan(buf@.skip(start as int), switch_keys@),
{
    let ghost span = buf@.skip(start as int);
    let count: usize = buf.len() - start;
    let mut plan: Vec<OutputAction> = Vec::new();
    let mut i: usize = 0;
    while i < count
        invariant
            i <= count,
            count == span.len(),
            plan@ == backspaces(i as nat),
        decreases count - i,
    {
        plan.push(OutputAction::Click(UiKey::Key(Key::BackSpace)));
        i = i + 1;
        assert(plan@ =~= backspaces(i as nat));
    }
    plan.push(OutputAction::Synchronize);
    let ghost deleted = plan@;
    assert(deleted == backspaces(span.len()) + seq![OutputAction::Synchronize]);

    let mut j: usize = 0;
    while j < switch_keys.len()
        invariant
            j <= switch_keys@.len(),
            plan@ == deleted + presses(switch_keys@.take(j as int)),
        decreases switch_keys@.len() - j,
    {
        plan.push(OutputAction::Press(switch_keys[j]));
        j = j + 1;
        assert(plan@ =~= deleted + presses(switch_keys@.take(j as int)));
    }
    assert(switch_keys@.take(j as int) =~= switch_keys@);
    plan.push(OutputAction::Synchronize);
    plan.push(OutputAction::Sleep(SWITCH_HOLD_MS));
    let ghost pressed = plan@;
    assert(pressed =~= deleted + presses(switch_keys@) + seq![
        OutputAction::Synchronize,
        OutputAction::Sleep(SWITCH_HOLD_MS),
    ]);

    let mut k: usize = 0;
    while k < switch_keys.len()
        invariant
            k <= switch_keys@.len(),
            plan@ == pressed + releases(switch_keys@.take(k as int)),
        decreases switch_keys@.len() - k,
    {
        plan.push(OutputAction::Release(switch_keys[k]));
        k = k + 1;
        assert(plan@ =~= pressed + releases(switch_keys@.take(k as int)));
    }
    assert(switch_keys@.take(k as int) =~= switch_keys@);
    plan.push(OutputAction::Synchronize);
    plan.push(OutputAction::Sleep(SWITCH_SETTLE_MS));
    let ghost switched = plan@;
    assert(switched =~= pressed + releases(switch_keys@) + seq![
        OutputAction::Synchronize,
        OutputAction::Sleep(SWITCH_SETTLE_MS),
    ]);

    let mut n: usize = 0;
    while n < count
        invariant
            n <= count,
            count == span.len(),
            start + count == buf.len(),
            span == buf@.skip(start as int),
            plan@ == switched + retyped(span.take(n as int)),
        decreases count - n,
    {
        let entry = buf[start + n];
        assert(entry == span[n as int]);
        let ghost before = plan@;
        match evdev_to_ui_key(entry.0) {
            Some(key) => {
                if entry.1 {
                    plan.push(OutputAction::Press(UiKey::Key(Key::LeftShift)));
                    plan.push(OutputAction::Click(key));
                    plan.push(OutputAction::Release(UiKey::Key(Key::LeftShift)));
                } else {
                    plan.push(OutputAction::Click(key));
                }
                plan.push(OutputAction::Sleep(KEYSTROKE_GAP_MS));
            },
            None => {},
        }
        assert(plan@ =~= before + retyped_key(entry));
        proof {
            let next = span.take(n + 1);
            assert(next.drop_last() =~= span.take(n as int));
            assert(next.last() == entry);
        }
        n = n + 1;
    }
    assert(span.take(n as int) =~= span);
    plan.push(OutputAction::Synchronize);
    assert(plan@ =~= retype_plan(span, switch_keys@));
    plan
}

} // verus!
