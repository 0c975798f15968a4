use vstd::prelude::*;
use crate::events::{G930KeyEvent, G930Keys, G930KeyEventTypes};

verus! {

/// Shortest captured packet that holds the marker.
pub const MIN_PACKET_LEN: usize = 67;

/// Offset of the marker's high byte; the low byte follows it.
pub const MARKER_OFFSET: usize = 65;

/// Why a captured packet could not be decoded.
#[derive(Debug, Clone, Copy, PartialEq, Eq, Structural)]
pub enum DecodeError {
    /// The packet is shorter than `MIN_PACKET_LEN`.
    TooShort { len: usize },
    /// The marker is none of the four the headset sends.
    UnknownMarker { marker: u16 },
}

/// The big-endian 16-bit marker at `MARKER_OFFSET`.
pub open spec fn marker_of(packet: Seq<u8>) -> u16
    recommends
        packet.len() >= MIN_PACKET_LEN,
{
    (packet[MARKER_OFFSET as int] as int * 256 + packet[MARKER_OFFSET as int + 1] as int) as u16
}

/// The event that a marker stands for, if it is one the headset sends.
pub open spec fn event_of_marker(marker: u16) -> Option<G930KeyEvent> {
    if marker == 0x000C {
        Some(G930KeyEvent { key: G930Keys::UNKNOWN, type_: G930KeyEventTypes::KeyUp })
    } else if marker == 0x400C {
        Some(G930KeyEvent { key: G930Keys::G1, type_: G930KeyEventTypes::KeyDown })
    } else if marker == 0x800C {
        Some(G930KeyEvent { key: G930Keys::G2, type_: G930KeyEventTypes::KeyDown })
    } else if marker == 0x000D {
        Some(G930KeyEvent { key: G930Keys::G3, type_: G930KeyEventTypes::KeyDown })
    } else {
        None
    }
}

/// What a captured packet decodes to.
pub open spec fn decode(packet: Seq<u8>) -> Result<G930KeyEvent, DecodeError> {
    if packet.len() < MIN_PACKET_LEN {
        Err(DecodeError::TooShort { len: packet.len() as usize })
    } else {
        match event_of_marker(marker_of(packet)) {
            Some(event) => Ok(event),
            None => Err(DecodeError::UnknownMarker { marker: marker_of(packet) }),
        }
    }
}

/// Decodes the interrupt packets of the headset. It holds no state.
pub struct PacketParser {}

impl PacketParser {
    pub fn new() -> (r: Self) {
        Self {}
    }

    /// Decodes one captured packet.
    pub fn parse(&mut self, packet: &[u8]) -> (r: Result<G930KeyEvent, DecodeError>)
        ensures
            r == decode(packet@),
            *final(self) == *old(self),
    {
        if packet.len() < MIN_PACKET_LEN {
            return Err(DecodeError::TooShort { len: packet.len() });
        }
        let high = packet[MARKER_OFFSET] as u16;
        let low = packet[MARKER_OFFSET + 1] as u16;
        let marker: u16 = high * 256 + low;
        match marker {
            0x000C => Ok(G930KeyEvent::new(G930Keys::UNKNOWN, G930KeyEventTypes::KeyUp)),
            0x400C => Ok(G930KeyEvent::new(G930Keys::G1, G930KeyEventTypes::KeyDown)),
            0x800C => Ok(G930KeyEvent::new(G930Keys::G2, G930KeyEventTypes::KeyDown)),
            0x000D => Ok(G930KeyEvent::new(G930Keys::G3, G930KeyEventTypes::KeyDown)),
            _ => Err(DecodeError::UnknownMarker { marker }),
        }
    }
}

/// A packet too short to hold the marker is rejected with its length.
pub proof fn lemma_short_packet_rejected(packet: Seq<u8>)
    requires
        packet.len() < MIN_PACKET_LEN,
    ensures
        decode(packet) == Err::<G930KeyEvent, DecodeError>(DecodeError::TooShort { len: packet.len() as usize }),
{
}

/// Decoding depends on the bytes alone: equal packets decode alike.
pub proof fn lemma_decode_deterministic(a: Seq<u8>, b: Seq<u8>)
    requires
        a == b,
    ensures
        decode(a) == decode(b),
{
}

/// The marker table: each of the four markers decodes to its event, and any
/// other marker is an error that carries it.
pub proof fn lemma_marker_table(packet: Seq<u8>)
    requires
        packet.len() >= MIN_PACKET_LEN,
    ensures
        marker_of(packet) as int == packet[MARKER_OFFSET as int] as int * 256
            + packet[MARKER_OFFSET as int + 1] as int,
        marker_of(packet) == 0x000C ==> decode(packet) == Ok::<G930KeyEvent, DecodeError>(
            G930KeyEvent { key: G930Keys::UNKNOWN, type_: G930KeyEventTypes::KeyUp },
        ),
        marker_of(packet) == 0x400C ==> decode(packet) == Ok::<G930KeyEvent, DecodeError>(
            G930KeyEvent { key: G930Keys::G1, type_: G930KeyEventTypes::KeyDown },
        ),
        marker_of(packet) == 0x800C ==> decode(packet) == Ok::<G930KeyEvent, DecodeError>(
            G930KeyEvent { key: G930Keys::G2, type_: G930KeyEventTypes::KeyDown },
        ),
        marker_of(packet) == 0x000D ==> decode(packet) == Ok::<G930KeyEvent, DecodeError>(
            G930KeyEvent { key: G930Keys::G3, type_: G930KeyEventTypes::KeyDown },
        ),
        marker_of(packet) != 0x000C && marker_of(packet) != 0x400C && marker_of(packet) != 0x800C
            && marker_of(packet) != 0x000D ==> decode(packet) == Err::<G930KeyEvent, DecodeError>(
            DecodeError::UnknownMarker { marker: marker_of(packet) },
        ),
{
}

/// A decoded press always names a concrete button.
pub proof fn lemma_press_names_button(packet: Seq<u8>)
    requires
        decode(packet) is Ok,
    ensures
        decode(packet)->Ok_0.type_ == G930KeyEventTypes::KeyDown ==> decode(packet)->Ok_0.key
            != G930Keys::UNKNOWN,
{
}

} // verus!
