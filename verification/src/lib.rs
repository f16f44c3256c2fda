//! Hardware-binding and timing layer for a character-LCD controller driven
//! over GPIO pins, modelled as plain register values so that the delay
//! arithmetic, the atomic pin writes and the clock bring-up sequence can be
//! verified.

use vstd::prelude::*;

pub mod bringup;
pub mod hw;
pub mod pins;
pub mod timer;
pub mod util;

verus! {

/// The counter is 24 bits wide: all values are taken modulo 2^24.
pub const COUNTER_MASK: u32 = 0x00ff_ffff;

/// One full period of the 24-bit counter.
pub const COUNTER_PERIOD: u32 = 0x0100_0000;

/// Half the counter's range: the boundary used by the snapshot/compare
/// delay strategy to tell "ahead" from "behind" on a circular counter.
pub const HALF_RANGE: u32 = 0x0080_0000;

} // verus!
