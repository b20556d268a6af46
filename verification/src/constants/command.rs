//! Command codes, sent to the transmitter.
use vstd::prelude::*;

verus! {

pub const GET_SETTINGS: u8 = 0x03;

pub const SET_POWER: u8 = 0x05;

pub const SET_CHANNEL: u8 = 0x07;

pub const SET_FREQUENCY: u8 = 0x09;

pub const SET_MODE: u8 = 0x0B;

} // verus!
