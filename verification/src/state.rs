//! The switcher as a state machine over mathematical values: what one
//! physical event does to the state, and what it asks of the synthetic
//! keyboard.

use vstd::prelude::*;
use crate::buffer::{appended, lemma_word_start_bounds, word_start};
use crate::config::Config;
use crate::event::InputEvent;
use crate::keys::{
    ctrl_key, printable, reset_key, shift_key, trigger_for, trigger_key, BufferedKeystroke,
    KeyCode, KEY_A, KEY_BACKSPACE,
};
use crate::output::{mirrored, retype_plan, OutputAction};
use crate::ui_key::{combo_key, lemma_printable_has_counterpart, translate, UiKey};

verus! {

/// Everything the switcher remembers between two events.
pub struct SwitcherState {
    /// The typed-text buffer, oldest keystroke first.
    pub buffer: Seq<BufferedKeystroke>,
    /// The most keystrokes the buffer may hold.
    pub capacity: nat,
    /// The gap between two events beyond which the buffer is stale.
    pub timeout_ms: nat,
    /// The key that fires the retype protocol.
    pub trigger: KeyCode,
    /// The layout-switch combo, in the order it is pressed.
    pub switch_keys: Seq<UiKey>,
    /// Whether a shift key is held.
    pub shift_pressed: bool,
    /// Whether a control key, the reset-modifier, is held.
    pub ctrl_pressed: bool,
    /// Whether the whole buffer counts as selected.
    pub all_selected: bool,
    /// When the last processed event happened, in microseconds.
    pub last_event_time: Option<u64>,
}

impl SwitcherState {
    /// The buffer holds printable keystrokes only, and no more of them
    /// than the capacity; the trigger is one of the trigger keys.
    pub open spec fn wf(self) -> bool {
        &&& trigger_key(self.trigger)
        &&& self.buffer.len() <= self.capacity
        &&& forall|i: int|
            0 <= i < self.buffer.len() ==> printable((#[trigger] self.buffer[i]).0)
    }

    /// The state with the buffer emptied and the selection dropped.
    pub open spec fn cleared(self) -> SwitcherState {
        SwitcherState { buffer: Seq::empty(), all_selected: false, ..self }
    }
}

/// The synthetic keys that the names of a layout-switch combo stand for, in
/// the order of the names; names that stand for no key are passed over.
pub open spec fn combo_keys(names: Seq<String>) -> Seq<UiKey>
    decreases names.len(),
{
    if names.len() == 0 {
        Seq::empty()
    } else {
        match combo_key(names.last()@) {
            Some(key) => combo_keys(names.drop_last()).push(key),
            None => combo_keys(names.drop_last()),
        }
    }
}

/// The state a switcher starts in under the given settings.
pub open spec fn initial_state(config: Config) -> SwitcherState {
    SwitcherState {
        buffer: Seq::empty(),
        capacity: config.buffer_size as nat,
        timeout_ms: config.clipboard_timeout_ms as nat,
        trigger: trigger_for(config.trigger_key@),
        switch_keys: combo_keys(config.layout_switch_combo@),
        shift_pressed: false,
        ctrl_pressed: false,
        all_selected: false,
        last_event_time: None,
    }
}

/// Whether an event at time `now` comes more than `timeout_ms` milliseconds
/// after the event at time `last`. Without an earlier event, or with a clock
/// that went backwards, nothing is stale.
pub open spec fn stale(last: Option<u64>, now: u64, timeout_ms: nat) -> bool {
    match last {
        Some(then) => now > then && now - then > timeout_ms * 1000,
        None => false,
    }
}

/// The state once the staleness clock has seen an event at time `now`: a
/// stale buffer and selection are gone, and the clock shows `now`.
pub open spec fn refreshed(s: SwitcherState, now: u64) -> SwitcherState {
    let kept = if stale(s.last_event_time, now, s.timeout_ms) {
        s.cleared()
    } else {
        s
    };
    SwitcherState { last_event_time: Some(now), ..kept }
}

/// The state once the modifiers have followed a key event: a shift or a
/// control key is held from its press or repeat until its release.
pub open spec fn with_modifiers(s: SwitcherState, key: KeyCode, value: i32) -> SwitcherState {
    SwitcherState {
        shift_pressed: if shift_key(key) {
            value != 0
        } else {
            s.shift_pressed
        },
        ctrl_pressed: if ctrl_key(key) {
            value != 0
        } else {
            s.ctrl_pressed
        },
        ..s
    }
}

/// Where the target span of a retype begins: at the start of the buffer
/// when all is selected, else at the start of the current word.
pub open spec fn retype_start(s: SwitcherState) -> int {
    if s.all_selected {
        0
    } else {
        word_start(s.buffer)
    }
}

/// The keystrokes a retype deletes and types again.
pub open spec fn retype_span(s: SwitcherState) -> Seq<BufferedKeystroke> {
    s.buffer.skip(retype_start(s))
}

/// What a retype asks of the synthetic keyboard: nothing on an empty
/// buffer, else the retype plan for the target span.
pub open spec fn retype_actions(s: SwitcherState) -> Seq<OutputAction> {
    if s.buffer.len() == 0 {
        Seq::empty()
    } else {
        retype_plan(retype_span(s), s.switch_keys)
    }
}

/// The state after a retype. An empty buffer changes nothing. With all
/// selected the buffer and the selection are cleared; otherwise the retyped
/// word leaves the buffer and what stood before it stays.
pub open spec fn after_retype(s: SwitcherState) -> SwitcherState {
    if s.buffer.len() == 0 {
        s
    } else if s.all_selected {
        s.cleared()
    } else {
        SwitcherState { buffer: s.buffer.take(word_start(s.buffer)), ..s }
    }
}

/// The state after the initial press of a key other than the trigger.
pub open spec fn after_press(s: SwitcherState, key: KeyCode) -> SwitcherState {
    if s.ctrl_pressed && key == KEY_A {
        SwitcherState { all_selected: true, ..s }
    } else if printable(key) {
        SwitcherState {
            all_selected: s.ctrl_pressed && s.all_selected,
            buffer: appended(s.buffer, (key, s.shift_pressed), s.capacity),
            ..s
        }
    } else if reset_key(key) {
        s.cleared()
    } else {
        s
    }
}

/// The state after one physical event. The staleness clock comes first,
/// whatever the event is; a key event then moves the modifiers; an initial
/// press then fires the retype, when the key is the trigger, or is
/// classified.
pub open spec fn after_event(s: SwitcherState, e: InputEvent) -> SwitcherState {
    let fresh = refreshed(s, e.timestamp_us);
    if !e.is_key() {
        fresh
    } else {
        let held = with_modifiers(fresh, e.code, e.value);
        if !e.is_press() {
            held
        } else if e.code == held.trigger {
            after_retype(held)
        } else {
            after_press(held, e.code)
        }
    }
}

/// What one physical event asks of the synthetic keyboard: the retype for
/// an initial press of the trigger, which is itself not mirrored; the
/// mirror image of any other key event; nothing for other events.
pub open spec fn event_actions(s: SwitcherState, e: InputEvent) -> Seq<OutputAction> {
    let fresh = refreshed(s, e.timestamp_us);
    if !e.is_key() {
        Seq::empty()
    } else {
        let held = with_modifiers(fresh, e.code, e.value);
        if e.is_press() && e.code == held.trigger {
            retype_actions(held)
        } else {
            mirrored(e.code, e.value)
        }
    }
}

/// A retype leaves a well-formed state well formed.
pub proof fn lemma_retype_keeps_wf(s: SwitcherState)
    requires
        s.wf(),
    ensures
        after_retype(s).wf(),
{
    lemma_word_start_bounds(s.buffer);
}

/// Every event leaves a well-formed state well formed, and touches neither
/// the capacity, the timeout, the trigger nor the combo.
pub proof fn lemma_event_keeps_wf(s: SwitcherState, e: InputEvent)
    requires
        s.wf(),
    ensures
        after_event(s, e).wf(),
        after_event(s, e).capacity == s.capacity,
        after_event(s, e).timeout_ms == s.timeout_ms,
        after_event(s, e).trigger == s.trigger,
        after_event(s, e).switch_keys == s.switch_keys,
        after_event(s, e).last_event_time == Some(e.timestamp_us),
{
    let fresh = refreshed(s, e.timestamp_us);
    let held = with_modifiers(fresh, e.code, e.value);
    assert(held.wf());
    lemma_retype_keeps_wf(held);
}

/// In a well-formed state a retype types every keystroke of its target span
/// again: none is passed over for want of a synthetic key.
pub proof fn lemma_span_is_retyped_whole(s: SwitcherState)
    requires
        s.wf(),
    ensures
        forall|i: int|
            0 <= i < retype_span(s).len() ==> translate((#[trigger] retype_span(s)[i]).0) is Some,
{
    lemma_word_start_bounds(s.buffer);
    assert forall|i: int| 0 <= i < retype_span(s).len() implies translate(
        (#[trigger] retype_span(s)[i]).0,
    ) is Some by {
        let j = retype_start(s) + i;
        assert(retype_span(s)[i] == s.buffer[j]);
        lemma_printable_has_counterpart(s.buffer[j].0);
    }
}

/// A retype of a buffer that is not empty always has a target: the span is
/// never empty, and it is exactly what leaves the buffer.
pub proof fn lemma_retype_consumes_span(s: SwitcherState)
    requires
        s.buffer.len() > 0,
    ensures
        retype_span(s).len() > 0,
        after_retype(s).buffer + retype_span(s) == s.buffer,
        !s.all_selected ==> after_retype(s).all_selected == s.all_selected,
        s.all_selected ==> after_retype(s).buffer.len() == 0 && !after_retype(s).all_selected,
{
    lemma_word_start_bounds(s.buffer);
    assert(after_retype(s).buffer + retype_span(s) =~= s.buffer);
}

/// A retype on an empty buffer emits nothing and changes nothing.
pub proof fn lemma_retype_of_empty_is_noop(s: SwitcherState)
    requires
        s.buffer.len() == 0,
    ensures
        retype_actions(s) == Seq::<OutputAction>::empty(),
        after_retype(s) == s,
{
}

/// Idempotence: when a retype has left the buffer empty, a second retype
/// right after it emits nothing and changes nothing.
pub proof fn lemma_second_retype_is_noop(s: SwitcherState)
    requires
        after_retype(s).buffer.len() == 0,
    ensures
        retype_actions(after_retype(s)) == Seq::<OutputAction>::empty(),
        after_retype(after_retype(s)) == after_retype(s),
{
}

/// Staleness: an event that comes more than the timeout after the previous
/// one is processed as if the buffer and the selection had been cleared
/// first, whatever the event is; an event that is no key event leaves the
/// buffer empty.
pub proof fn lemma_stale_event_clears_first(s: SwitcherState, e: InputEvent)
    requires
        s.last_event_time matches Some(then) && e.timestamp_us > then && e.timestamp_us - then
            > s.timeout_ms * 1000,
    ensures
        after_event(s, e) == after_event(s.cleared(), e),
        event_actions(s, e) == event_actions(s.cleared(), e),
        !e.is_key() ==> after_event(s, e).buffer.len() == 0 && !after_event(s, e).all_selected,
        !e.is_press() ==> after_event(s, e).buffer.len() == 0,
{
    assert(refreshed(s, e.timestamp_us) == refreshed(s.cleared(), e.timestamp_us));
}

/// An event that comes within the timeout of the previous one, or is the
/// first one, leaves buffer and selection to the classification of the key.
pub proof fn lemma_fresh_event_keeps_buffer(s: SwitcherState, e: InputEvent)
    requires
        !stale(s.last_event_time, e.timestamp_us, s.timeout_ms),
        !e.is_press(),
    ensures
        after_event(s, e).buffer == s.buffer,
        after_event(s, e).all_selected == s.all_selected,
{
}

/// Selection precedence, first half: with all selected, the initial press
/// of a reset key, be it enter, keypad enter, escape or tab, clears the
/// buffer and the selection.
pub proof fn lemma_reset_key_clears_selection(s: SwitcherState, e: InputEvent)
    requires
        s.wf(),
        s.all_selected,
        e.is_press(),
        reset_key(e.code),
    ensures
        after_event(s, e).buffer.len() == 0,
        !after_event(s, e).all_selected,
        event_actions(s, e) == mirrored(e.code, e.value),
{
}

/// Selection precedence, second half: with all selected, the initial press
/// of a printable key with no control key held drops the selection and
/// clears nothing: the key is appended to what the staleness clock left of
/// the buffer, which is all of it when the event is not stale.
pub proof fn lemma_printable_key_drops_selection_only(s: SwitcherState, e: InputEvent)
    requires
        s.wf(),
        s.all_selected,
        e.is_press(),
        printable(e.code),
        !s.ctrl_pressed,
    ensures
        !after_event(s, e).all_selected,
        after_event(s, e).buffer == appended(
            refreshed(s, e.timestamp_us).buffer,
            (e.code, s.shift_pressed),
            s.capacity,
        ),
        !stale(s.last_event_time, e.timestamp_us, s.timeout_ms) ==> after_event(s, e).buffer
            == appended(s.buffer, (e.code, s.shift_pressed), s.capacity),
        !stale(s.last_event_time, e.timestamp_us, s.timeout_ms) && s.buffer.len() < s.capacity
            ==> after_event(s, e).buffer == s.buffer.push((e.code, s.shift_pressed)),
{
}

/// A press of a modifier or of backspace leaves the buffer as the staleness
/// clock left it: the key itself is no buffered keystroke.
pub proof fn lemma_modifier_is_not_buffered(s: SwitcherState, e: InputEvent)
    requires
        s.wf(),
        e.is_press(),
        shift_key(e.code) || ctrl_key(e.code) || e.code == KEY_BACKSPACE,
    ensures
        after_event(s, e).buffer == refreshed(s, e.timestamp_us).buffer,
        after_event(s, e).all_selected == refreshed(s, e.timestamp_us).all_selected,
{
}

/// Selecting all: the initial press of the select-all key with a control
/// key held marks the whole buffer as selected and leaves it as it is.
pub proof fn lemma_select_all(s: SwitcherState, e: InputEvent)
    requires
        s.wf(),
        e.is_press(),
        e.code == KEY_A,
        s.ctrl_pressed,
        !stale(s.last_event_time, e.timestamp_us, s.timeout_ms),
    ensures
        after_event(s, e).all_selected,
        after_event(s, e).buffer == s.buffer,
{
}

} // verus!
