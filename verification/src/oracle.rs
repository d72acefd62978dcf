//! Readings of the authoritative key-state oracle.
//!
//! The event stream gives edges; the oracle gives the level of a key at the
//! time of the call. The query itself is made by the caller. This module
//! decodes what came back.
use vstd::prelude::*;

verus! {

/// Whether a raw key-state word reports the key as down: its most
/// significant bit is set, which for a signed word means it is negative.
pub open spec fn state_reports_down(raw: i16) -> bool {
    raw < 0
}

/// The level that the answer to one query stands for. A query that gave no
/// answer counts as "not pressed".
pub open spec fn level_of(answer: Option<i16>) -> bool {
    match answer {
        Some(raw) => state_reports_down(raw),
        None => false,
    }
}

/// Decodes a raw key-state word by its most significant bit.
pub fn decode_key_state(raw: i16) -> (down: bool)
    ensures
        down == state_reports_down(raw),
{
    assert(((raw as u16) & 0x8000u16 != 0) == (raw < 0)) by (bit_vector);
    ((raw as u16) & 0x8000u16) != 0
}

/// The levels of the left and right modifier keys at one moment.
#[derive(Clone, Copy, Debug, PartialEq, Eq, Structural)]
pub struct OracleReading {
    pub left_down: bool,
    pub right_down: bool,
}

impl OracleReading {
    /// The modifier counts as held when either of its keys is down.
    pub open spec fn held(self) -> bool {
        self.left_down || self.right_down
    }

    /// The reading in which neither key is down.
    pub fn released() -> (reading: OracleReading)
        ensures
            reading == (OracleReading { left_down: false, right_down: false }),
    {
        OracleReading { left_down: false, right_down: false }
    }

    /// Builds a reading from the answers to the two level queries. A failed
    /// query is `None` and degrades to "not pressed".
    pub fn from_queries(left: Option<i16>, right: Option<i16>) -> (reading: OracleReading)
        ensures
            reading.left_down == level_of(left),
            reading.right_down == level_of(right),
    {
        let left_down = match left {
            Some(raw) => decode_key_state(raw),
            None => false,
        };
        let right_down = match right {
            Some(raw) => decode_key_state(raw),
            None => false,
        };
        OracleReading { left_down, right_down }
    }

    /// Whether the reading reports the modifier as held.
    pub fn modifier_held(&self) -> (held: bool)
        ensures
            held == self.held(),
    {
        self.left_down || self.right_down
    }
}

} // verus!
