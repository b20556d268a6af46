//! The commands, and how each is written as a frame.
//!
//! A command frame holds the header, the command code, the number of payload
//! bytes, the payload and the checksum over all that comes before it.
use vstd::prelude::*;
use vstd::std_specs::convert::FromSpecImpl;
use crate::constants::command;
use crate::constants::mode_flags;
use crate::parser::frame_payload;
use crate::parser::framed;
use crate::parser::SmartAudioError;

verus! {

/// A command that can be written as a frame.
pub trait SmartAudioCommand {
    /// The command code.
    spec fn code(&self) -> u8;

    /// The payload bytes.
    spec fn payload(&self) -> Seq<u8>;

    /// Writes the command's frame to the start of `buffer` and returns its
    /// size. A buffer that is too small is left as it is, and the error holds
    /// the size that the frame needs.
    fn to_bytes(&self, buffer: &mut [u8]) -> (written: Result<usize, SmartAudioError>)
        ensures
            framed(old(buffer)@, final(buffer)@, written, self.code(), self.payload()),
    ;
}

#[derive(Default, Debug, Clone, Copy, PartialEq, Eq)]
pub struct GetSettingsCommand {}

impl SmartAudioCommand for GetSettingsCommand {
    open spec fn code(&self) -> u8 {
        command::GET_SETTINGS
    }

    open spec fn payload(&self) -> Seq<u8> {
        Seq::empty()
    }

    fn to_bytes(&self, buffer: &mut [u8]) -> (written: Result<usize, SmartAudioError>) {
        let payload: [u8; 0] = [];
        assert(payload@ == Seq::<u8>::empty());
        frame_payload(buffer, command::GET_SETTINGS, payload.as_slice())
    }
}

/// The bit that marks the payload of a set-power command as a value in dBm.
pub const POWER_IN_DBM: u8 = 0b1000_0000;

/// A transmission power: the index of a power level, or a value in dBm.
#[allow(non_camel_case_types)]
#[derive(Debug, Clone, Copy, PartialEq, Eq, Structural)]
pub enum Power {
    Level(u8),
    dBm(u8),
}

impl Default for Power {
    fn default() -> (power: Self)
        ensures
            power == Power::Level(0),
    {
        Self::Level(0)
    }
}

/// The payload byte that stands for `power`: a level as it is, a value in
/// dBm with the top bit set.
pub open spec fn power_byte(power: Power) -> u8 {
    match power {
        Power::dBm(value) => value | POWER_IN_DBM,
        Power::Level(value) => value,
    }
}

impl FromSpecImpl<Power> for u8 {
    open spec fn obeys_from_spec() -> bool {
        true
    }

    open spec fn from_spec(power: Power) -> Self {
        power_byte(power)
    }
}

impl From<Power> for u8 {
    fn from(power: Power) -> (byte: Self) {
        match power {
            Power::dBm(value) => value | POWER_IN_DBM,
            Power::Level(value) => value,
        }
    }
}

pub struct SetPowerCommand {
    pub power: Power,
}

impl SmartAudioCommand for SetPowerCommand {
    open spec fn code(&self) -> u8 {
        command::SET_POWER
    }

    open spec fn payload(&self) -> Seq<u8> {
        seq![power_byte(self.power)]
    }

    fn to_bytes(&self, buffer: &mut [u8]) -> (written: Result<usize, SmartAudioError>) {
        let payload: [u8; 1] = [u8::from(self.power)];
        assert(payload@ == self.payload());
        frame_payload(buffer, command::SET_POWER, payload.as_slice())
    }
}

pub struct SetChannelCommand {
    pub channel: u8,
}

impl SmartAudioCommand for SetChannelCommand {
    open spec fn code(&self) -> u8 {
        command::SET_CHANNEL
    }

    open spec fn payload(&self) -> Seq<u8> {
        seq![self.channel]
    }

    fn to_bytes(&self, buffer: &mut [u8]) -> (written: Result<usize, SmartAudioError>) {
        let payload: [u8; 1] = [self.channel];
        assert(payload@ == self.payload());
        frame_payload(buffer, command::SET_CHANNEL, payload.as_slice())
    }
}

/// The more significant byte of `value`.
pub open spec fn high_byte(value: u16) -> u8 {
    (value / 256) as u8
}

/// The less significant byte of `value`.
pub open spec fn low_byte(value: u16) -> u8 {
    (value % 256) as u8
}

/// The two bytes of `value`, the more significant one first.
pub fn u16_to_be(value: u16) -> (bytes: [u8; 2])
    ensures
        bytes@ == seq![high_byte(value), low_byte(value)],
{
    let bytes: [u8; 2] = [(value / 256) as u8, (value % 256) as u8];
    assert(bytes@ == seq![high_byte(value), low_byte(value)]);
    bytes
}

pub struct SetFrequencyCommand {
    pub frequency: u16,
}

impl SmartAudioCommand for SetFrequencyCommand {
    open spec fn code(&self) -> u8 {
        command::SET_FREQUENCY
    }

    open spec fn payload(&self) -> Seq<u8> {
        seq![high_byte(self.frequency), low_byte(self.frequency)]
    }

    fn to_bytes(&self, buffer: &mut [u8]) -> (written: Result<usize, SmartAudioError>) {
        let payload = u16_to_be(self.frequency);
        frame_payload(buffer, command::SET_FREQUENCY, payload.as_slice())
    }
}

/// `mask` if `set`, else no bit.
pub open spec fn flag_bits(set: bool, mask: u8) -> u8 {
    if set {
        mask
    } else {
        0
    }
}

/// The mode byte of a set-mode command with these four flags.
pub open spec fn mode_byte(
    pitmode_in_range_active: bool,
    pitmode_out_range_active: bool,
    pitmode_enabled: bool,
    unlocked: bool,
) -> u8 {
    flag_bits(pitmode_in_range_active, mode_flags::PITMODE_IN_RANGE) | flag_bits(
        pitmode_out_range_active,
        mode_flags::PITMODE_OUT_RANGE,
    ) | flag_bits(pitmode_enabled, mode_flags::PITMODE_ENABLED) | flag_bits(
        unlocked,
        mode_flags::UNLOCKED,
    )
}

/// `mask` if `set`, else no bit.
fn bits_of(set: bool, mask: u8) -> (bits: u8)
    ensures
        bits == flag_bits(set, mask),
{
    if set {
        mask
    } else {
        0
    }
}

pub struct SetModeCommand {
    pub pitmode_in_range_active: bool,
    pub pitmode_out_range_active: bool,
    pub pitmode_enabled: bool,
    pub unlocked: bool,
}

impl SmartAudioCommand for SetModeCommand {
    open spec fn code(&self) -> u8 {
        command::SET_MODE
    }

    open spec fn payload(&self) -> Seq<u8> {
        seq![
            mode_byte(
                self.pitmode_in_range_active,
                self.pitmode_out_range_active,
                self.pitmode_enabled,
                self.unlocked,
            ),
        ]
    }

    fn to_bytes(&self, buffer: &mut [u8]) -> (written: Result<usize, SmartAudioError>) {
        let mode = bits_of(self.pitmode_in_range_active, mode_flags::PITMODE_IN_RANGE) | bits_of(
            self.pitmode_out_range_active,
            mode_flags::PITMODE_OUT_RANGE,
        ) | bits_of(self.pitmode_enabled, mode_flags::PITMODE_ENABLED) | bits_of(
            self.unlocked,
            mode_flags::UNLOCKED,
        );
        let payload: [u8; 1] = [mode];
        assert(payload@ == self.payload());
        frame_payload(buffer, command::SET_MODE, payload.as_slice())
    }
}

} // verus!
