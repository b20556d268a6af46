//! Response codes, sent by the transmitter. A settings response has one code
//! for each version of the protocol.
use vstd::prelude::*;

verus! {

pub const GET_SETTINGS_V1_0: u8 = 0x01;

pub const GET_SETTINGS_V2_0: u8 = 0x09;

pub const GET_SETTINGS_V2_1: u8 = 0x11;

pub const SET_POWER: u8 = 0x02;

pub const SET_CHANNEL: u8 = 0x03;

pub const SET_FREQUENCY: u8 = 0x04;

pub const SET_MODE: u8 = 0x05;

} // verus!
