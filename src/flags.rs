//! The option bitmask: one bit per formatting switch.
use vstd::prelude::*;

verus! {

/// Leave the index out of the header.
pub const NO_INDEX: u8 = 0x01;

/// Leave the severity symbol out of the header.
pub const NO_SYMBOL: u8 = 0x02;

/// Emit no colour sequences.
pub const NO_COLOR: u8 = 0x04;

/// Emit no bold sequences.
pub const NO_BOLD: u8 = 0x08;

/// Mirror each line, stripped of colour and bold, to the file sink.
pub const FILE: u8 = 0x10;

/// Write the caller's lines to no standard error; with `FILE` they reach the
/// file sink only.
pub const FILE_ONLY: u8 = 0x20;

/// Annotate the header with the milliseconds elapsed since the timer origin.
pub const TIMER: u8 = 0x40;

/// Whether any bit of `bit` is set in `flags`.
pub open spec fn bit_on(flags: u8, bit: u8) -> bool {
    flags & bit != 0
}

/// Whether lines are meant for the file sink: `FILE` mirrors them there, and
/// `FILE_ONLY` asks that they go nowhere else.
pub open spec fn mirrored(flags: u8) -> bool {
    bit_on(flags, FILE) || bit_on(flags, FILE_ONLY)
}

} // verus!
