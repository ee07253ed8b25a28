//! The keyboard-event dispatcher: a side state machine that tracks
//! began/ended edge transitions per registered binding.
//!
//! The dispatcher is an explicit object owned by the application root.
//! Each binding pairs an edge kind with an optional key filter and
//! remembers whether its key is currently held down. Handlers live with
//! the caller: processing an event returns the indices of the bindings
//! whose handlers fire, in registration order, and the caller invokes
//! them. Key codes are plain numbers, as the windowing layer reports
//! them.

use vstd::prelude::*;
use vstd::pervasive::VecAdditionalExecFns;

verus! {

/// The edge a binding watches: a key going down, a key changing while
/// down, or a key going up.
#[derive(Clone, Copy, Debug, PartialEq, Eq, Structural)]
pub enum InputEvent {
    Began,
    Changed,
    Ended,
}

/// Whether a binding watches a single key or every key.
#[derive(Clone, Copy, Debug, PartialEq, Eq, Structural)]
pub enum Hold {
    OneKey,
    AllKeys,
}

/// The payload handed to a firing handler: the key that caused it.
#[derive(Clone, Copy, Debug, PartialEq, Eq, Structural)]
pub struct Input {
    pub key_code: u32,
}

/// One registered binding: the edge it watches, its key filter (`None`
/// watches every key), and whether its key is currently held down.
#[derive(Clone, Copy, Debug, PartialEq, Eq)]
pub struct InputStruct {
    pub event: InputEvent,
    pub keys: Option<u32>,
    pub state: bool,
}

/// Whether a binding's filter admits `key`: an absent filter admits
/// every key.
pub open spec fn spec_key_matches(filter: Option<u32>, key: u32) -> bool {
    match filter {
        Some(k) => k == key,
        None => true,
    }
}

/// Whether a binding's handler fires on a key event. A press fires
/// `Began` bindings not already holding; a release fires `Ended`
/// bindings. Either way the event must carry a key the filter admits.
pub open spec fn spec_fires(entry: InputStruct, key: Option<u32>, pressed: bool) -> bool {
    &&& key matches Some(k) && spec_key_matches(entry.keys, k)
    &&& if pressed {
        entry.event is Began && !entry.state
    } else {
        entry.event is Ended
    }
}

/// The binding after a key event. A press marks a firing `Began`
/// binding as holding and releases a holding `Ended` binding; a release
/// clears every `Began` binding and marks a firing `Ended` binding.
pub open spec fn spec_after(entry: InputStruct, key: Option<u32>, pressed: bool) -> InputStruct {
    if pressed {
        match entry.event {
            InputEvent::Began => if spec_fires(entry, key, pressed) {
                InputStruct { state: true, ..entry }
            } else {
                entry
            },
            InputEvent::Changed => entry,
            InputEvent::Ended => if entry.state {
                InputStruct { state: false, ..entry }
            } else {
                entry
            },
        }
    } else {
        match entry.event {
            InputEvent::Began => InputStruct { state: false, ..entry },
            InputEvent::Changed => entry,
            InputEvent::Ended => if spec_fires(entry, key, pressed) {
                InputStruct { state: true, ..entry }
            } else {
                entry
            },
        }
    }
}

impl InputStruct {
    /// Whether this binding watches one key or all keys.
    pub open spec fn spec_hold(self) -> Hold {
        if self.keys is Some {
            Hold::OneKey
        } else {
            Hold::AllKeys
        }
    }

    /// Whether this binding watches one key or all keys.
    pub fn hold(&self) -> (h: Hold)
        ensures
            h == self.spec_hold(),
    {
        match self.keys {
            Some(_) => Hold::OneKey,
            None => Hold::AllKeys,
        }
    }
}

/// The dispatcher: the registered bindings, in registration order.
pub struct EventDispatcher {
    pub entries: Vec<InputStruct>,
}

impl EventDispatcher {
    /// A dispatcher with no bindings.
    pub fn new() -> (d: EventDispatcher)
        ensures
            d.entries@ =~= Seq::<InputStruct>::empty(),
    {
        EventDispatcher { entries: Vec::new() }
    }

    /// Register a binding for an edge, optionally filtered to one key.
    /// It starts out not holding.
    pub fn on_input(&mut self, event: InputEvent, keys: Option<u32>)
        ensures
            final(self).entries@ == old(self).entries@.push(
                InputStruct { event, keys, state: false },
            ),
    {
        self.entries.push(InputStruct { event, keys, state: false });
    }

    /// Process one key event: update every binding's held state and
    /// return, in registration order, the indices of the bindings whose
    /// handlers fire.
    pub fn process_event(&mut self, key: Option<u32>, pressed: bool) -> (fired: Vec<usize>)
        ensures
            final(self).entries@.len() == old(self).entries@.len(),
            forall|i: int|
                0 <= i < old(self).entries@.len() ==> final(self).entries@[i] == spec_after(
                    old(self).entries@[i],
                    key,
                    pressed,
                ),
            forall|j: int|
                0 <= j < fired@.len() ==> fired@[j] < old(self).entries@.len() && spec_fires(
                    old(self).entries@[fired@[j] as int],
                    key,
                    pressed,
                ),
            forall|i: int|
                0 <= i < old(self).entries@.len() && spec_fires(old(self).entries@[i], key, pressed)
                    ==> fired@.contains(i as usize),
            forall|j1: int, j2: int| 0 <= j1 < j2 < fired@.len() ==> fired@[j1] < fired@[j2],
    {
        let ghost before = self.entries@;
        let mut fired: Vec<usize> = Vec::new();
        let mut i: usize = 0;
        while i < self.entries.len()
            invariant
                i <= before.len(),
                self.entries@.len() == before.len(),
                forall|k: int| 0 <= k < i ==> self.entries@[k] == spec_after(before[k], key, pressed),
                forall|k: int| i <= k < before.len() ==> self.entries@[k] == before[k],
                forall|j: int|
                    0 <= j < fired@.len() ==> fired@[j] < i && spec_fires(
                        before[fired@[j] as int],
                        key,
                        pressed,
                    ),
                forall|k: int|
                    0 <= k < i && spec_fires(before[k], key, pressed) ==> fired@.contains(
                        k as usize,
                    ),
                forall|j1: int, j2: int| 0 <= j1 < j2 < fired@.len() ==> fired@[j1] < fired@[j2],
            decreases before.len() - i,
        {
            let entry = self.entries[i];
            let admits = match (key, entry.keys) {
                (Some(k), Some(f)) => k == f,
                (Some(_), None) => true,
                (None, _) => false,
            };
            let fires = admits && (if pressed {
                match entry.event {
                    InputEvent::Began => !entry.state,
                    _ => false,
                }
            } else {
                match entry.event {
                    InputEvent::Ended => true,
                    _ => false,
                }
            });
            let ghost fired_pre = fired@;
            if fires {
                fired.push(i);
            }
            proof {
                assert(entry == before[i as int]);
                assert(fires == spec_fires(before[i as int], key, pressed));
                assert forall|k: int|
                    0 <= k < i + 1 && spec_fires(before[k], key, pressed) implies fired@.contains(
                    k as usize,
                ) by {
                    if k == i {
                        assert(fired@[fired@.len() - 1] == i as usize);
                    } else {
                        assert(fired_pre.contains(k as usize));
                        let j = choose|j: int|
                            0 <= j < fired_pre.len() && fired_pre[j] == k as usize;
                        assert(fired@[j] == k as usize);
                    }
                }
            }
            let updated = if pressed {
                match entry.event {
                    InputEvent::Began => if fires {
                        InputStruct { state: true, ..entry }
                    } else {
                        entry
                    },
                    InputEvent::Changed => entry,
                    InputEvent::Ended => if entry.state {
                        InputStruct { state: false, ..entry }
                    } else {
                        entry
                    },
                }
            } else {
                match entry.event {
                    InputEvent::Began => InputStruct { state: false, ..entry },
                    InputEvent::Changed => entry,
                    InputEvent::Ended => if fires {
                        InputStruct { state: true, ..entry }
                    } else {
                        entry
                    },
                }
            };
            self.entries.set(i, updated);
            i = i + 1;
        }
        fired
    }
}

} // verus!
