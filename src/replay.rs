use vstd::prelude::*;
use crate::events::{G930KeyEvent, G930Keys, G930KeyEventTypes};

verus! {

/// The platform key code that each button stands for. These are settings of
/// the deployment, not of the protocol.
#[derive(Debug, Clone, Copy, PartialEq, Eq, Structural)]
pub struct KeyMap {
    pub g1: u32,
    pub g2: u32,
    pub g3: u32,
}

/// Whether a synthetic key goes down or up.
#[derive(Debug, Clone, Copy, PartialEq, Eq, Structural)]
pub enum Polarity {
    Press,
    Release,
}

/// One keystroke for the injection service to deliver to the focused window.
#[derive(Debug, Clone, Copy, PartialEq, Eq, Structural)]
pub struct KeyAction {
    pub code: u32,
    pub polarity: Polarity,
}

/// A replay that the decoder's protocol never asks for.
#[derive(Debug, Clone, Copy, PartialEq, Eq, Structural)]
pub enum ReplayError {
    /// A press that names no button.
    PressWithoutButton,
}

/// The key code of a concrete button; `None` for `UNKNOWN`.
pub open spec fn code_of(map: KeyMap, key: G930Keys) -> Option<u32> {
    match key {
        G930Keys::G1 => Some(map.g1),
        G930Keys::G2 => Some(map.g2),
        G930Keys::G3 => Some(map.g3),
        G930Keys::UNKNOWN => None,
    }
}

pub open spec fn polarity_of(type_: G930KeyEventTypes) -> Polarity {
    match type_ {
        G930KeyEventTypes::KeyDown => Polarity::Press,
        G930KeyEventTypes::KeyUp => Polarity::Release,
    }
}

/// What replaying `event` asks of the injection service, given the key code
/// of the last press: at most one keystroke.
pub open spec fn replay_result(map: KeyMap, last: Option<u32>, event: G930KeyEvent) -> Result<
    Option<KeyAction>,
    ReplayError,
> {
    match code_of(map, event.key) {
        Some(code) => Ok(Some(KeyAction { code, polarity: polarity_of(event.type_) })),
        None => if event.type_ == G930KeyEventTypes::KeyDown {
            Err(ReplayError::PressWithoutButton)
        } else {
            match last {
                Some(code) => Ok(Some(KeyAction { code, polarity: Polarity::Release })),
                None => Ok(None),
            }
        },
    }
}

/// The key code of the last press after replaying `event`: a press of a
/// concrete button replaces it, anything else leaves it.
pub open spec fn next_last(map: KeyMap, last: Option<u32>, event: G930KeyEvent) -> Option<u32> {
    if event.type_ == G930KeyEventTypes::KeyDown && code_of(map, event.key) is Some {
        code_of(map, event.key)
    } else {
        last
    }
}

/// Turns button events into keystrokes. A release does not say which button
/// went up, so the replayer remembers the key code of the last press.
pub struct KeyReplayer {
    pub keymap: KeyMap,
    pub last_keycode: Option<u32>,
}

impl KeyReplayer {
    pub fn new(keymap: KeyMap) -> (r: Self)
        ensures
            r.keymap == keymap,
            r.last_keycode is None,
    {
        KeyReplayer { keymap, last_keycode: None }
    }

    /// The key code of a concrete button.
    pub fn code(&self, key: G930Keys) -> (r: Option<u32>)
        ensures
            r == code_of(self.keymap, key),
    {
        match key {
            G930Keys::G1 => Some(self.keymap.g1),
            G930Keys::G2 => Some(self.keymap.g2),
            G930Keys::G3 => Some(self.keymap.g3),
            G930Keys::UNKNOWN => None,
        }
    }

    /// Replays one event: records a press, and returns the keystroke to
    /// inject, if any. The record is kept whatever becomes of the keystroke.
    pub fn replay(&mut self, event: &G930KeyEvent) -> (r: Result<Option<KeyAction>, ReplayError>)
        ensures
            r == replay_result(old(self).keymap, old(self).last_keycode, *event),
            final(self).keymap == old(self).keymap,
            final(self).last_keycode == next_last(old(self).keymap, old(self).last_keycode, *event),
    {
        let polarity = match event.type_ {
            G930KeyEventTypes::KeyDown => Polarity::Press,
            G930KeyEventTypes::KeyUp => Polarity::Release,
        };
        match self.code(event.key) {
            Some(code) => {
                if polarity == Polarity::Press {
                    self.last_keycode = Some(code);
                }
                Ok(Some(KeyAction { code, polarity }))
            },
            None => {
                if polarity == Polarity::Press {
                    Err(ReplayError::PressWithoutButton)
                } else {
                    match self.last_keycode {
                        Some(code) => Ok(Some(KeyAction { code, polarity: Polarity::Release })),
                        None => Ok(None),
                    }
                }
            },
        }
    }
}

/// An unidentified release with no press before it injects nothing and
/// leaves the state as it was, so replaying it again does nothing either.
pub proof fn lemma_release_without_press_is_noop(map: KeyMap)
    ensures
        replay_result(
            map,
            None,
            G930KeyEvent { key: G930Keys::UNKNOWN, type_: G930KeyEventTypes::KeyUp },
        ) == Ok::<Option<KeyAction>, ReplayError>(None),
        next_last(
            map,
            None,
            G930KeyEvent { key: G930Keys::UNKNOWN, type_: G930KeyEventTypes::KeyUp },
        ) is None,
{
}

/// Pressing G1 and then an unidentified release injects a press and then a
/// release of G1's code, and the record of G1's code stays after the release.
pub proof fn lemma_press_then_release(map: KeyMap, last: Option<u32>)
    ensures
        ({
            let press = G930KeyEvent { key: G930Keys::G1, type_: G930KeyEventTypes::KeyDown };
            let release = G930KeyEvent { key: G930Keys::UNKNOWN, type_: G930KeyEventTypes::KeyUp };
            let after_press = next_last(map, last, press);
            &&& replay_result(map, last, press) == Ok::<Option<KeyAction>, ReplayError>(
                Some(KeyAction { code: map.g1, polarity: Polarity::Press }),
            )
            &&& replay_result(map, after_press, release) == Ok::<Option<KeyAction>, ReplayError>(
                Some(KeyAction { code: map.g1, polarity: Polarity::Release }),
            )
            &&& next_last(map, after_press, release) == Some(map.g1)
        }),
{
}

/// After pressing G2 and then G1, an unidentified release releases G1's
/// code: the most recent press wins.
pub proof fn lemma_last_press_wins(map: KeyMap, last: Option<u32>)
    ensures
        ({
            let after_g2 = next_last(
                map,
                last,
                G930KeyEvent { key: G930Keys::G2, type_: G930KeyEventTypes::KeyDown },
            );
            let after_g1 = next_last(
                map,
                after_g2,
                G930KeyEvent { key: G930Keys::G1, type_: G930KeyEventTypes::KeyDown },
            );
            replay_result(
                map,
                after_g1,
                G930KeyEvent { key: G930Keys::UNKNOWN, type_: G930KeyEventTypes::KeyUp },
            ) == Ok::<Option<KeyAction>, ReplayError>(
                Some(KeyAction { code: map.g1, polarity: Polarity::Release }),
            )
        }),
{
}

} // verus!
