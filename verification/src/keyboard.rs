//! Paste detection from global keyboard events.
//!
//! The platform hook reports raw key presses and releases; the monitor
//! tracks the modifier keys and recognises the paste combination. While a
//! programmatic paste of the library's own is in progress, events are
//! ignored, so restoring the clipboard cannot retrigger detection.

use vstd::prelude::*;

verus! {

/// An event the keyboard monitor emits.
#[derive(Debug, Clone)]
pub enum KeyboardEvent {
    /// The paste combination was pressed.
    PasteDetected {
        /// When it was pressed, in milliseconds.
        timestamp_ms: u64,
        /// The combination that triggered it.
        key_combination: String,
    },
    /// Another recognised shortcut was pressed.
    OtherShortcut {
        /// When it was pressed, in milliseconds.
        timestamp_ms: u64,
        /// The keys involved.
        keys: Vec<String>,
    },
}

/// A modifier key the monitor tracks.
#[derive(Debug, Clone, Copy, PartialEq, Eq, Structural)]
pub enum Modifier {
    /// The platform's command key.
    Command,
    /// The control key.
    Control,
    /// The alt key.
    Alt,
    /// The shift key.
    Shift,
}

/// Whether a key went down or up.
#[derive(Debug, Clone, Copy, PartialEq, Eq, Structural)]
pub enum KeyAction {
    /// The key was pressed.
    Press,
    /// The key was released.
    Release,
}

/// A raw key event, as the platform hook reports it: either one of the
/// tracked modifiers, or the paste letter key, or anything else.
#[derive(Debug, Clone, Copy, PartialEq, Eq, Structural)]
pub enum RawKey {
    /// A tracked modifier key.
    ModifierKey(Modifier),
    /// The `V` key.
    VKey,
    /// Any other key.
    OtherKey,
}

/// Which modifiers are held down.
#[derive(Debug, Clone, Copy, PartialEq, Eq, Structural)]
pub struct ModifierState {
    /// The command key is down.
    pub cmd_pressed: bool,
    /// The control key is down.
    pub ctrl_pressed: bool,
    /// The alt key is down.
    pub alt_pressed: bool,
    /// The shift key is down.
    pub shift_pressed: bool,
}

/// A modifier state with the given key set.
pub open spec fn spec_set_modifier(s: ModifierState, m: Modifier, down: bool) -> ModifierState {
    match m {
        Modifier::Command => ModifierState { cmd_pressed: down, ..s },
        Modifier::Control => ModifierState { ctrl_pressed: down, ..s },
        Modifier::Alt => ModifierState { alt_pressed: down, ..s },
        Modifier::Shift => ModifierState { shift_pressed: down, ..s },
    }
}

/// Whether a `V` press under these modifiers is the paste combination:
/// command or control held, without alt.
pub open spec fn is_paste_combination(s: ModifierState) -> bool {
    (s.cmd_pressed || s.ctrl_pressed) && !s.alt_pressed
}

/// The keyboard monitor's state.
pub struct KeyboardMonitor {
    should_stop: bool,
    paste_in_progress: bool,
    modifiers: ModifierState,
}

impl KeyboardMonitor {
    /// Whether the monitor has been asked to stop.
    pub closed spec fn spec_should_stop(&self) -> bool {
        self.should_stop
    }

    /// Whether a programmatic paste of the library's own is under way.
    pub closed spec fn spec_paste_in_progress(&self) -> bool {
        self.paste_in_progress
    }

    /// The modifiers held down.
    pub closed spec fn spec_modifiers(&self) -> ModifierState {
        self.modifiers
    }

    /// A fresh monitor: running, no paste under way, no modifiers down.
    pub fn new() -> (r: KeyboardMonitor)
        ensures
            !r.spec_should_stop(),
            !r.spec_paste_in_progress(),
            r.spec_modifiers() == (ModifierState {
                cmd_pressed: false,
                ctrl_pressed: false,
                alt_pressed: false,
                shift_pressed: false,
            }),
    {
        KeyboardMonitor {
            should_stop: false,
            paste_in_progress: false,
            modifiers: ModifierState {
                cmd_pressed: false,
                ctrl_pressed: false,
                alt_pressed: false,
                shift_pressed: false,
            },
        }
    }

    /// Whether the monitor has been asked to stop.
    pub fn is_stopped(&self) -> (r: bool)
        ensures
            r == self.spec_should_stop(),
    {
        self.should_stop
    }

    /// Ask the monitor to stop; the platform loop observes the flag.
    pub fn stop_monitoring(&mut self)
        ensures
            final(self).spec_should_stop(),
            final(self).spec_paste_in_progress() == old(self).spec_paste_in_progress(),
            final(self).spec_modifiers() == old(self).spec_modifiers(),
    {
        self.should_stop = true;
    }

    /// Clear the stop flag before a new platform loop begins.
    pub fn resume_monitoring(&mut self)
        ensures
            !final(self).spec_should_stop(),
            final(self).spec_paste_in_progress() == old(self).spec_paste_in_progress(),
            final(self).spec_modifiers() == old(self).spec_modifiers(),
    {
        self.should_stop = false;
    }

    /// Mark whether a programmatic paste is under way; while one is, raw key
    /// events are ignored, so the paste cannot retrigger detection.
    pub fn set_paste_in_progress(&mut self, in_progress: bool)
        ensures
            final(self).spec_paste_in_progress() == in_progress,
            final(self).spec_should_stop() == old(self).spec_should_stop(),
            final(self).spec_modifiers() == old(self).spec_modifiers(),
    {
        self.paste_in_progress = in_progress;
    }

    /// Report a paste detection directly, as an external source would.
    pub fn trigger_paste_detection(&self, key_combination: &str, now_ms: u64) -> (r: KeyboardEvent)
        ensures
            r matches KeyboardEvent::PasteDetected { timestamp_ms, key_combination: combo } ==>
                timestamp_ms == now_ms && combo@ == key_combination@,
            r is PasteDetected,
    {
        KeyboardEvent::PasteDetected {
            timestamp_ms: now_ms,
            key_combination: key_combination.to_owned(),
        }
    }

    /// Process one raw key event: track the modifiers, and report a paste
    /// exactly when the `V` key goes down under the paste combination. While
    /// the monitor is stopped or a programmatic paste is under way, nothing
    /// is tracked and nothing is reported.
    pub fn process_key_event(&mut self, key: RawKey, action: KeyAction, now_ms: u64) -> (r: Option<
        KeyboardEvent,
    >)
        ensures
            final(self).spec_should_stop() == old(self).spec_should_stop(),
            final(self).spec_paste_in_progress() == old(self).spec_paste_in_progress(),
            old(self).spec_should_stop() || old(self).spec_paste_in_progress() ==> r is None
                && final(self).spec_modifiers() == old(self).spec_modifiers(),
            !old(self).spec_should_stop() && !old(self).spec_paste_in_progress() ==> {
                &&& (key matches RawKey::ModifierKey(m) ==> final(self).spec_modifiers()
                    == spec_set_modifier(old(self).spec_modifiers(), m, action is Press)
                    && r is None)
                &&& (!(key is ModifierKey) ==> final(self).spec_modifiers() == old(
                    self,
                ).spec_modifiers())
                &&& ((key is VKey && action is Press && is_paste_combination(
                    old(self).spec_modifiers(),
                )) <==> r is Some)
                &&& (r matches Some(e) ==> e matches KeyboardEvent::PasteDetected {
                    timestamp_ms,
                    ..
                } && timestamp_ms == now_ms)
            },
    {
        if self.should_stop || self.paste_in_progress {
            return None;
        }
        match key {
            RawKey::ModifierKey(m) => {
                let down = matches!(action, KeyAction::Press);
                match m {
                    Modifier::Command => {
                        self.modifiers.cmd_pressed = down;
                    },
                    Modifier::Control => {
                        self.modifiers.ctrl_pressed = down;
                    },
                    Modifier::Alt => {
                        self.modifiers.alt_pressed = down;
                    },
                    Modifier::Shift => {
                        self.modifiers.shift_pressed = down;
                    },
                }
                None
            },
            RawKey::VKey => {
                if matches!(action, KeyAction::Press) && (self.modifiers.cmd_pressed
                    || self.modifiers.ctrl_pressed) && !self.modifiers.alt_pressed {
                    let combination = if self.modifiers.cmd_pressed {
                        "Cmd+V"
                    } else {
                        "Ctrl+V"
                    };
                    Some(
                        KeyboardEvent::PasteDetected {
                            timestamp_ms: now_ms,
                            key_combination: combination.to_owned(),
                        },
                    )
                } else {
                    None
                }
            },
            RawKey::OtherKey => None,
        }
    }
}

} // verus!
