//! Recording new key bindings in the Controls and Shortcuts tabs: a click on
//! a cell starts listening, the next key (or mouse click, for the keypad)
//! becomes the binding, and listening stops by itself after 3 seconds.

use vstd::prelude::*;
use crate::keys::{
    KeyCode, PointerButtonCode, binding_label, binding_label_spec, mouse_binding_label,
    mouse_binding_label_spec, format_shortcut, format_shortcut_spec, touches_view,
};
use crate::types::{Raccourcis, shortcut_value_mut, SHORTCUT_COUNT};

verus! {

/// Seconds after which listening for a binding stops.
pub const BINDING_TIMEOUT_SECS: u64 = 3;

/// An input event seen while listening for a keypad binding.
pub enum BindingEvent {
    /// A key was pressed; `debug_name` is the key's debug name (such as
    /// `Num1` or `ArrowUp`).
    Key { debug_name: String },
    /// A mouse button was pressed.
    Pointer { button: PointerButtonCode },
    /// Any other event.
    Other,
}

/// The keypad cell being bound, if any.
pub struct KeyBinding {
    /// The CHIP-8 key whose binding is being recorded.
    pub binding_key: Option<usize>,
    /// The click that started listening is still to be skipped.
    pub skip_first_click: bool,
}

/// What listening for a keypad binding does with one event: the binding
/// (if the event sets it) and whether the next mouse click is still skipped
/// and the cell still listened to.
pub open spec fn key_event_step(
    label: Option<Seq<char>>,
    listening: bool,
    skip: bool,
    e: BindingEvent,
) -> (Option<Seq<char>>, bool, bool) {
    match e {
        BindingEvent::Key { debug_name } => (Some(binding_label_spec(debug_name@)), false, false),
        BindingEvent::Pointer { button } => if skip {
            (label, listening, false)
        } else {
            (Some(mouse_binding_label_spec(button)), false, skip)
        },
        BindingEvent::Other => (label, listening, skip),
    }
}

/// The events of a frame read in order: every key press, and every mouse
/// click but the skipped one, sets the binding (the last one wins).
pub open spec fn key_events_fold(events: Seq<BindingEvent>, skip: bool) -> (Option<Seq<char>>, bool, bool)
    decreases events.len(),
{
    if events.len() == 0 {
        (None, true, skip)
    } else {
        let (label, listening, s) = key_events_fold(events.drop_last(), skip);
        key_event_step(label, listening, s, events.last())
    }
}

impl KeyBinding {
    /// The cell being bound is a keypad key.
    pub open spec fn wf(&self) -> bool {
        self.binding_key matches Some(i) ==> i < 16
    }

    /// Not listening.
    pub fn new() -> (b: Self)
        ensures
            b.wf(),
            b.binding_key is None,
            !b.skip_first_click,
    {
        KeyBinding { binding_key: None, skip_first_click: false }
    }

    /// A click on a keypad cell starts listening for its binding; the click
    /// itself will be skipped.
    pub fn start(&mut self, key: usize)
        requires
            key < 16,
        ensures
            final(self).wf(),
            final(self).binding_key == Some(key),
            final(self).skip_first_click,
    {
        self.binding_key = Some(key);
        self.skip_first_click = true;
    }

    /// One frame of the Controls tab while listening: after the timeout
    /// listening stops; otherwise the frame's events are read in order. The
    /// result is the new label of the bound key, if an event set one.
    pub fn frame(&mut self, elapsed_secs: Option<u64>, events: &Vec<BindingEvent>, touches: &mut [String; 16]) -> (set: Option<usize>)
        requires
            old(self).wf(),
        ensures
            final(self).wf(),
            old(self).binding_key is None ==> *final(self) == *old(self) && touches_view(*final(touches))
                == touches_view(*old(touches)) && set is None,
            (old(self).binding_key is Some && elapsed_secs is Some && elapsed_secs->0 >= 3) ==> final(self).binding_key is None && !final(self).skip_first_click && set is None
                && touches_view(*final(touches)) == touches_view(*old(touches)),
            (old(self).binding_key is Some && !(elapsed_secs is Some && elapsed_secs->0 >= 3)) ==> {
                let idx = old(self).binding_key->0;
                let (label, listening, skip) = key_events_fold(events@, old(self).skip_first_click);
                &&& final(self).skip_first_click == skip
                &&& final(self).binding_key == if listening {
                    Some(idx)
                } else {
                    None
                }
                &&& touches_view(*final(touches)) == match label {
                    Some(l) => touches_view(*old(touches)).update(idx as int, l),
                    None => touches_view(*old(touches)),
                }
                &&& set == match label {
                    Some(l) => Some(idx),
                    None => None,
                }
            },
    {
        let idx = match self.binding_key {
            Some(i) => i,
            None => return None,
        };
        match elapsed_secs {
            Some(e) => {
                if e >= BINDING_TIMEOUT_SECS {
                    self.binding_key = None;
                    self.skip_first_click = false;
                    return None;
                }
            },
            None => {},
        }
        let ghost t0 = touches_view(*touches);
        let ghost skip0 = self.skip_first_click;
        let mut set: Option<usize> = None;
        let mut listening = true;
        let mut k: usize = 0;
        while k < events.len()
            invariant
                idx < 16,
                t0.len() == 16,
                k <= events@.len(),
                ({
                    let (label, l, s) = key_events_fold(events@.take(k as int), skip0);
                    &&& listening == l
                    &&& self.skip_first_click == s
                    &&& touches_view(*touches) == match label {
                        Some(x) => t0.update(idx as int, x),
                        None => t0,
                    }
                    &&& set == match label {
                        Some(x) => Some(idx),
                        None => None,
                    }
                }),
            decreases events@.len() - k,
        {
            assert(events@.take(k + 1).drop_last() =~= events@.take(k as int));
            let ghost before_arr = touches_view(*touches);
            match &events[k] {
                BindingEvent::Key { debug_name } => {
                    let label = binding_label(debug_name.as_str());
                    let ghost lv = label@;
                    touches[idx] = label;
                    assert(touches_view(*touches) =~= before_arr.update(idx as int, lv));
                    listening = false;
                    self.skip_first_click = false;
                    set = Some(idx);
                },
                BindingEvent::Pointer { button } => {
                    if self.skip_first_click {
                        self.skip_first_click = false;
                    } else {
                        let ml = mouse_binding_label(*button).to_string();
                        let ghost lv = ml@;
                        touches[idx] = ml;
                        assert(touches_view(*touches) =~= before_arr.update(idx as int, lv));
                        listening = false;
                        set = Some(idx);
                    }
                },
                BindingEvent::Other => {},
            }
            proof {
                let (label, l, s) = key_events_fold(events@.take(k as int), skip0);
                match label {
                    Some(x) => {
                        assert(touches_view(*touches) =~= match key_events_fold(events@.take(k + 1), skip0).0 {
                            Some(y) => t0.update(idx as int, y),
                            None => t0,
                        });
                    },
                    None => {
                        assert(touches_view(*touches) =~= match key_events_fold(events@.take(k + 1), skip0).0 {
                            Some(y) => t0.update(idx as int, y),
                            None => t0,
                        });
                    },
                }
            }
            k = k + 1;
        }
        assert(events@.take(events@.len() as int) =~= events@);
        self.binding_key = if listening { Some(idx) } else { None };
        set
    }
}

/// A key press seen while listening for a shortcut binding.
pub struct ShortcutKeyEvent {
    pub ctrl: bool,
    pub shift: bool,
    pub alt: bool,
    pub key: KeyCode,
}

/// The shortcut row being bound, if any.
pub struct ShortcutBinding {
    pub binding_shortcut: Option<usize>,
    pub skip_first_click: bool,
}

impl ShortcutBinding {
    /// Not listening.
    pub fn new() -> (b: Self)
        ensures
            b.binding_shortcut is None,
            !b.skip_first_click,
    {
        ShortcutBinding { binding_shortcut: None, skip_first_click: false }
    }

    /// A click on a shortcut row starts listening for its binding, and stops
    /// any keypad binding.
    pub fn start(&mut self, row: usize, keypad: &mut KeyBinding)
        ensures
            final(self).binding_shortcut == Some(row),
            final(self).skip_first_click,
            final(keypad).binding_key is None,
            !final(keypad).skip_first_click,
    {
        keypad.binding_key = None;
        keypad.skip_first_click = false;
        self.binding_shortcut = Some(row);
        self.skip_first_click = true;
    }

    /// One frame of the Shortcuts tab while listening: after the timeout
    /// listening stops; otherwise the first key press of the frame, with its
    /// modifiers, becomes the row's shortcut label and listening stops.
    pub fn frame(&mut self, elapsed_secs: Option<u64>, presses: &Vec<ShortcutKeyEvent>, shortcuts: &mut Raccourcis)
        ensures
            old(self).binding_shortcut is None ==> *final(self) == *old(self) && final(shortcuts)@
                == old(shortcuts)@,
            (old(self).binding_shortcut is Some && elapsed_secs is Some && elapsed_secs->0 >= 3) ==> final(self).binding_shortcut is None && !final(self).skip_first_click
                && final(shortcuts)@ == old(shortcuts)@,
            (old(self).binding_shortcut is Some && !(elapsed_secs is Some && elapsed_secs->0 >= 3)
                && presses@.len() > 0) ==> {
                let row = old(self).binding_shortcut->0;
                let p = presses@[0];
                &&& final(self).binding_shortcut is None
                &&& !final(self).skip_first_click
                &&& final(shortcuts)@ == if row < SHORTCUT_COUNT {
                    old(shortcuts)@.update(row as int, format_shortcut_spec(p.ctrl, p.shift, p.alt, p.key))
                } else {
                    old(shortcuts)@
                }
            },
            (old(self).binding_shortcut is Some && !(elapsed_secs is Some && elapsed_secs->0 >= 3)
                && presses@.len() == 0) ==> *final(self) == *old(self) && final(shortcuts)@
                == old(shortcuts)@,
    {
        let row = match self.binding_shortcut {
            Some(r) => r,
            None => return,
        };
        match elapsed_secs {
            Some(e) => {
                if e >= BINDING_TIMEOUT_SECS {
                    self.binding_shortcut = None;
                    self.skip_first_click = false;
                    return;
                }
            },
            None => {},
        }
        if presses.len() == 0 {
            return;
        }
        let p = &presses[0];
        let label = format_shortcut(p.ctrl, p.shift, p.alt, p.key);
        match shortcut_value_mut(shortcuts, row) {
            Some(target) => {
                *target = label;
            },
            None => {},
        }
        self.binding_shortcut = None;
        self.skip_first_click = false;
    }
}

} // verus!
