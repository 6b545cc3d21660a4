//! The running switcher: the settings, the typed-text buffer, the
//! modifiers, the selection and the staleness clock, driven one event at a
//! time.

use vstd::prelude::*;
use crate::buffer::{lemma_word_start_bounds, push_bounded, word_start_index};
use crate::config::Config;
use crate::error::SwitcherError;
use crate::event::InputEvent;
use crate::keys::{
    is_ctrl_key, is_printable, is_reset_key, is_shift_key, parse_evdev_key, BufferedKeystroke,
    KeyCode, EV_KEY, KEY_A, KEY_PAUSE, VALUE_PRESS,
};
use crate::output::{mirror_actions, plan_retype, OutputAction};
use crate::state::{
    after_event, after_retype, combo_keys, event_actions, initial_state, lemma_event_keeps_wf,
    lemma_retype_keeps_wf, retype_actions, stale, SwitcherState,
};
use crate::text::{join, joined, key_label, key_label_of};
use crate::ui_key::{parse_ui_key, UiKey};

verus! {

/// The state of the daemon between two physical events.
pub struct Switcher {
    config: Config,
    buffer: Vec<BufferedKeystroke>,
    shift_pressed: bool,
    ctrl_pressed: bool,
    last_event_time: Option<u64>,
    all_selected: bool,
    trigger_keycode: KeyCode,
    switch_keys: Vec<UiKey>,
}

impl View for Switcher {
    type V = SwitcherState;

    closed spec fn view(&self) -> SwitcherState {
        SwitcherState {
            buffer: self.buffer@,
            capacity: self.config.buffer_size as nat,
            timeout_ms: self.config.clipboard_timeout_ms as nat,
            trigger: self.trigger_keycode,
            switch_keys: self.switch_keys@,
            shift_pressed: self.shift_pressed,
            ctrl_pressed: self.ctrl_pressed,
            all_selected: self.all_selected,
            last_event_time: self.last_event_time,
        }
    }
}

/// Reads the names of a layout-switch combo into synthetic keys, passing
/// over the names that stand for no key.
pub fn parse_switch_combo(names: &Vec<String>) -> (keys: Vec<UiKey>)
    ensures
        keys@ == combo_keys(names@),
{
    let mut keys: Vec<UiKey> = Vec::new();
    let mut i: usize = 0;
    while i < names.len()
        invariant
            i <= names@.len(),
            keys@ == combo_keys(names@.take(i as int)),
        decreases names@.len() - i,
    {
        proof {
            let next = names@.take(i + 1);
            assert(next.drop_last() =~= names@.take(i as int));
            assert(next.last() == names@[i as int]);
        }
        match parse_ui_key(names[i].as_str()) {
            Some(key) => {
                keys.push(key);
            },
            None => {},
        }
        i = i + 1;
    }
    assert(names@.take(i as int) =~= names@);
    keys
}

/// The short names of the keys of a run of keystrokes, one after the other.
pub open spec fn debug_text(slice: Seq<BufferedKeystroke>) -> Seq<char>
    decreases slice.len(),
{
    if slice.len() == 0 {
        Seq::empty()
    } else {
        debug_text(slice.drop_last()) + key_label(slice.last().0)
    }
}

/// Gives the short name of each key of a run of keystrokes.
pub fn key_labels(slice: &[BufferedKeystroke]) -> (labels: Vec<String>)
    ensures
        labels@.len() == slice@.len(),
        forall|i: int| 0 <= i < slice@.len() ==> (#[trigger] labels@[i])@ == key_label(slice@[i].0),
{
    let mut labels: Vec<String> = Vec::new();
    let mut i: usize = 0;
    while i < slice.len()
        invariant
            i <= slice@.len(),
            labels@.len() == i,
            forall|j: int| 0 <= j < i ==> (#[trigger] labels@[j])@ == key_label(slice@[j].0),
        decreases slice@.len() - i,
    {
        labels.push(key_label_of(slice[i].0));
        i = i + 1;
    }
    labels
}

/// The short names joined are the text of the run.
pub proof fn lemma_joined_labels(labels: Seq<String>, slice: Seq<BufferedKeystroke>)
    requires
        labels.len() == slice.len(),
        forall|i: int| 0 <= i < slice.len() ==> (#[trigger] labels[i])@ == key_label(slice[i].0),
    ensures
        joined(labels) == debug_text(slice),
    decreases slice.len(),
{
    if slice.len() > 0 {
        lemma_joined_labels(labels.drop_last(), slice.drop_last());
    }
}

impl Switcher {
    /// The buffer holds printable keystrokes only, within the capacity the
    /// settings give it; the trigger is one of the trigger keys.
    pub open spec fn wf(&self) -> bool {
        self@.wf()
    }

    /// The settings the switcher was started with. They never change.
    pub closed spec fn settings(&self) -> Config {
        self.config
    }

    /// Capacity and timeout of the model are those of the settings.
    pub proof fn lemma_view_reads_settings(&self)
        ensures
            self@.capacity == self.settings().buffer_size,
            self@.timeout_ms == self.settings().clipboard_timeout_ms,
    {
    }

    /// Starts a switcher under the given settings: nothing typed, nothing
    /// held, nothing selected, no event seen. Every settings value is
    /// accepted.
    pub fn new(config: Config) -> (r: Result<Switcher, SwitcherError>)
        ensures
            r matches Ok(s) && s.settings() == config && s@ == initial_state(config) && s.wf(),
    {
        let trigger_keycode = match parse_evdev_key(config.trigger_key.as_str()) {
            Some(key) => key,
            None => KEY_PAUSE,
        };
        let switch_keys = parse_switch_combo(&config.layout_switch_combo);
        Ok(
            Switcher {
                config,
                buffer: Vec::new(),
                shift_pressed: false,
                ctrl_pressed: false,
                last_event_time: None,
                all_selected: false,
                trigger_keycode,
                switch_keys,
            },
        )
    }

    /// The settings the switcher was started with.
    pub fn config(&self) -> (config: &Config)
        ensures
            *config == self.settings(),
    {
        &self.config
    }

    /// The keystrokes in the buffer, oldest first.
    pub fn buffer(&self) -> (buf: &Vec<BufferedKeystroke>)
        ensures
            buf@ == self@.buffer,
    {
        &self.buffer
    }

    /// Whether the whole buffer counts as selected.
    pub fn all_selected(&self) -> (b: bool)
        ensures
            b == self@.all_selected,
    {
        self.all_selected
    }

    /// Whether a shift key is held.
    pub fn shift_pressed(&self) -> (b: bool)
        ensures
            b == self@.shift_pressed,
    {
        self.shift_pressed
    }

    /// Whether a control key is held.
    pub fn ctrl_pressed(&self) -> (b: bool)
        ensures
            b == self@.ctrl_pressed,
    {
        self.ctrl_pressed
    }

    /// When the last processed event happened, in microseconds.
    pub fn last_event_time(&self) -> (t: Option<u64>)
        ensures
            t == self@.last_event_time,
    {
        self.last_event_time
    }

    /// The key that fires the retype protocol.
    pub fn trigger_keycode(&self) -> (key: KeyCode)
        ensures
            key == self@.trigger,
    {
        self.trigger_keycode
    }

    /// The layout-switch combo, in the order it is pressed.
    pub fn switch_keys(&self) -> (keys: &Vec<UiKey>)
        ensures
            keys@ == self@.switch_keys,
    {
        &self.switch_keys
    }

    /// Tells whether an event at time `now` finds the buffer stale.
    pub fn is_stale(&self, now: u64) -> (b: bool)
        ensures
            b == stale(self@.last_event_time, now, self@.timeout_ms),
    {
        match self.last_event_time {
            Some(then) => {
                if now > then {
                    let gap: u128 = (now - then) as u128;
                    let limit: u128 = (self.config.clipboard_timeout_ms as u128) * 1000;
                    gap > limit
                } else {
                    false
                }
            },
            None => false,
        }
    }

    /// Renders a run of keystrokes for diagnostics: the short names of its
    /// keys, one after the other.
    pub fn debug_buffer_slice(&self, slice: &[BufferedKeystroke]) -> (text: String)
        ensures
            text@ == debug_text(slice@),
    {
        let labels = key_labels(slice);
        proof {
            lemma_joined_labels(labels@, slice@);
        }
        join(&labels)
    }

    /// Runs the retype protocol on the buffer: works out the target span,
    /// returns the actions that delete it, switch the layout and type it
    /// again, and takes the span out of the buffer. On an empty buffer it
    /// returns no action and changes nothing.
    pub fn fix_text(&mut self) -> (actions: Vec<OutputAction>)
        ensures
            final(self)@ == after_retype(old(self)@),
            actions@ == retype_actions(old(self)@),
            final(self).settings() == old(self).settings(),
            old(self).wf() ==> final(self).wf(),
    {
        if self.buffer.len() == 0 {
            return Vec::new();
        }
        let start: usize = if self.all_selected {
            0
        } else {
            word_start_index(&self.buffer)
        };
        let actions = plan_retype(&self.buffer, start, &self.switch_keys);
        if self.all_selected {
            self.buffer.clear();
            self.all_selected = false;
        } else {
            self.buffer.truncate(start);
        }
        proof {
            lemma_word_start_bounds(old(self)@.buffer);
            assert(self@.buffer =~= after_retype(old(self)@).buffer);
            if old(self).wf() {
                lemma_retype_keeps_wf(old(self)@);
            }
        }
        actions
    }

    /// Processes one physical event: lets the staleness clock see it,
    /// follows the modifiers, fires the retype or classifies the key on an
    /// initial press, and returns what the synthetic keyboard is to do.
    pub fn process_event(&mut self, event: &InputEvent) -> (actions: Vec<OutputAction>)
        requires
            old(self).wf(),
        ensures
            final(self)@ == after_event(old(self)@, *event),
            actions@ == event_actions(old(self)@, *event),
            final(self).settings() == old(self).settings(),
            final(self).wf(),
    {
        proof {
            lemma_event_keeps_wf(old(self)@, *event);
        }
        let now = event.timestamp_us;
        if self.is_stale(now) {
            self.buffer.clear();
            self.all_selected = false;
        }
        self.last_event_time = Some(now);
        if event.event_type != EV_KEY {
            return Vec::new();
        }
        let key = event.code;
        let value = event.value;
        if is_shift_key(key) {
            self.shift_pressed = value != 0;
        }
        if is_ctrl_key(key) {
            self.ctrl_pressed = value != 0;
        }
        if value == VALUE_PRESS {
            if key == self.trigger_keycode {
                return self.fix_text();
            }
            if self.ctrl_pressed && key == KEY_A {
                self.all_selected = true;
            } else if is_printable(key) {
                if !self.ctrl_pressed {
                    self.all_selected = false;
                }
                push_bounded(&mut self.buffer, (key, self.shift_pressed), self.config.buffer_size);
            } else if is_reset_key(key) {
                self.buffer.clear();
                self.all_selected = false;
            }
        }
        mirror_actions(key, value)
    }
}

} // verus!
