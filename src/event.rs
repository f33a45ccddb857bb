//! Decoding of fixed-size input-event records into button transitions.
use vstd::prelude::*;

verus! {

/// Size in bytes of one input-event record.
pub const INPUT_EVENT_SIZE: usize = 16;

/// The event class that identifies key events.
pub const EV_KEY: u16 = 1;

/// A semantic button transition.
#[derive(Debug, Clone, Copy, PartialEq, Eq, Structural)]
pub enum Event {
    KeyDown,
    KeyUp,
}

/// Little-endian 16-bit value of two bytes.
pub open spec fn le_u16(b0: u8, b1: u8) -> int {
    b0 as int + 256 * b1 as int
}

/// Little-endian signed 32-bit value of four bytes.
pub open spec fn le_i32(b0: u8, b1: u8, b2: u8, b3: u8) -> int {
    let u = b0 as int + 256 * b1 as int + 65536 * b2 as int + 16777216 * b3 as int;
    if u >= 0x8000_0000 {
        u - 0x1_0000_0000
    } else {
        u
    }
}

/// The event class field of a record (bytes 8 and 9).
pub open spec fn event_class(r: Seq<u8>) -> int {
    le_u16(r[8], r[9])
}

/// The value field of a record (bytes 12 to 15).
pub open spec fn event_value(r: Seq<u8>) -> int {
    le_i32(r[12], r[13], r[14], r[15])
}

/// The transition a record stands for, if any.
pub open spec fn decode_spec(r: Seq<u8>) -> Option<Event> {
    if r.len() < INPUT_EVENT_SIZE || event_class(r) != EV_KEY as int {
        None
    } else if event_value(r) == 1 {
        Some(Event::KeyDown)
    } else if event_value(r) == 0 {
        Some(Event::KeyUp)
    } else {
        None
    }
}

/// Decodes one input-event record: a key-class record with value 1 is a
/// press, with value 0 a release; anything else, or a short record, is none.
pub fn parse_event(input: &[u8]) -> (r: Option<Event>)
    ensures
        r == decode_spec(input@),
{
    if input.len() < INPUT_EVENT_SIZE {
        return None;
    }
    let class: u16 = input[8] as u16 + 256 * (input[9] as u16);
    let raw: u64 = input[12] as u64 + 256 * (input[13] as u64) + 65536 * (input[14] as u64)
        + 16777216 * (input[15] as u64);
    if class != EV_KEY {
        None
    } else if raw == 1 {
        Some(Event::KeyDown)
    } else if raw == 0 {
        Some(Event::KeyUp)
    } else {
        None
    }
}

} // verus!
