//! Bit masks of the mode byte in a settings response.
use vstd::prelude::*;

verus! {

pub const USER_FREQUENCY: u8 = 0x01;

pub const PITMODE_ENABLED: u8 = 0x02;

pub const PITMODE_IN_RANGE: u8 = 0x04;

pub const PITMODE_OUT_RANGE: u8 = 0x08;

pub const UNLOCKED: u8 = 0x10;

} // verus!
