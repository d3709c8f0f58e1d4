//! The interrupt request bits of the IF register (0xFF0F) that the devices raise.
use vstd::prelude::*;

verus! {

/// Bit 0: the vertical blank has begun.
pub const VBLANK: u8 = 0x01;

/// Bit 1: an LCD STAT condition selected in 0xFF41 holds.
pub const STAT: u8 = 0x02;

} // verus!
