use vstd::prelude::*;
use crate::events::G930KeyEvent;
use crate::packet_parser::{decode, lemma_press_names_button, DecodeError, PacketParser};
use crate::replay::{next_last, replay_result, KeyAction, KeyMap, KeyReplayer, ReplayError};

verus! {

/// What the capture loop does after one pull from the capture source.
#[derive(Debug, Clone, Copy, PartialEq, Eq, Structural)]
pub enum Action {
    /// The capture source ended or failed: leave the loop.
    Stop,
    /// The packet did not decode: report it and go on to the next one.
    Skip(DecodeError),
    /// The packet decoded to an event that injects nothing.
    Idle,
    /// Deliver this keystroke to the focused window, then go on.
    Inject(KeyAction),
    /// The event is one the protocol never sends: report it and go on.
    Fault(ReplayError),
}

/// The action for one captured packet, given the key map and the key code of
/// the last press.
pub open spec fn packet_action(map: KeyMap, last: Option<u32>, packet: Seq<u8>) -> Action {
    match decode(packet) {
        Err(e) => Action::Skip(e),
        Ok(event) => match replay_result(map, last, event) {
            Ok(Some(action)) => Action::Inject(action),
            Ok(None) => Action::Idle,
            Err(e) => Action::Fault(e),
        },
    }
}

/// The key code of the last press after one captured packet.
pub open spec fn last_after(map: KeyMap, last: Option<u32>, packet: Seq<u8>) -> Option<u32> {
    match decode(packet) {
        Err(_) => last,
        Ok(event) => next_last(map, last, event),
    }
}

/// The decoder and the replay state that the capture loop drives.
pub struct Monitor {
    pub parser: PacketParser,
    pub replayer: KeyReplayer,
}

/// Sets up the capture loop's state: nothing pressed yet.
pub fn start(keymap: KeyMap) -> (r: Monitor)
    ensures
        r.replayer.keymap == keymap,
        r.replayer.last_keycode is None,
{
    Monitor { parser: PacketParser::new(), replayer: KeyReplayer::new(keymap) }
}

impl Monitor {
    /// Takes what the capture source gave, `None` when it ended or failed,
    /// and says what to do next. A packet that does not decode leaves the
    /// state as it was.
    pub fn step(&mut self, next: Option<&[u8]>) -> (r: Action)
        ensures
            final(self).replayer.keymap == old(self).replayer.keymap,
            next is None ==> r == Action::Stop && *final(self) == *old(self),
            next matches Some(packet) ==> {
                &&& r == packet_action(old(self).replayer.keymap, old(self).replayer.last_keycode, packet@)
                &&& final(self).replayer.last_keycode == last_after(
                    old(self).replayer.keymap,
                    old(self).replayer.last_keycode,
                    packet@,
                )
            },
    {
        let packet = match next {
            None => return Action::Stop,
            Some(packet) => packet,
        };
        let event: G930KeyEvent = match self.parser.parse(packet) {
            Err(e) => return Action::Skip(e),
            Ok(event) => event,
        };
        match self.replayer.replay(&event) {
            Ok(Some(action)) => Action::Inject(action),
            Ok(None) => Action::Idle,
            Err(e) => Action::Fault(e),
        }
    }
}

/// No captured packet leads to a fault: the decoder only yields presses of
/// concrete buttons.
pub proof fn lemma_packets_never_fault(map: KeyMap, last: Option<u32>, packet: Seq<u8>)
    ensures
        !(packet_action(map, last, packet) is Fault),
{
    if decode(packet) is Ok {
        lemma_press_names_button(packet);
    }
}

} // verus!
