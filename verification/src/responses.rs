//! The typed responses, and how each is read from a frame.
//!
//! A frame with a command code that belongs to no response is refused with
//! [`SmartAudioError::InvalidHeader`]; [`Response::Unknown`] is never
//! produced by the decoder. A frame whose payload is shorter than the fields
//! of its response is refused with [`SmartAudioError::InvalidPayloadLength`].
use vstd::prelude::*;
use vstd::std_specs::convert::FromSpecImpl;
use crate::constants::get_settings_flags;
use crate::constants::mode_flags;
use crate::constants::response as resp;
use crate::parser::payload_of;
use crate::parser::push_outcome;
use crate::parser::push_rest;
use crate::parser::RawSmartAudioFrame;
use crate::parser::SmartAudioError;
use crate::parser::SmartAudioParser;

verus! {

/// The number that two bytes stand for, the more significant one first.
pub open spec fn be16(high: u8, low: u8) -> u16 {
    (high * 256 + low) as u16
}

/// Reads two bytes as one number, the more significant one first.
pub fn u16_from_be(high: u8, low: u8) -> (value: u16)
    ensures
        value == be16(high, low),
{
    high as u16 * 256 + low as u16
}

/// Whether any bit of `mask` is set in `byte`.
pub open spec fn has_flag(byte: u8, mask: u8) -> bool {
    byte & mask != 0
}

/// The version of the protocol. It is not sent as a field of its own: the
/// command code of a settings response tells it.
#[derive(Debug, Clone, Copy, PartialEq, Eq, Structural)]
pub enum Version {
    V1_0,
    V2_0,
    V2_1,
    Unknown,
}

impl Default for Version {
    fn default() -> (version: Self)
        ensures
            version == Version::V2_0,
    {
        Version::V2_0
    }
}

/// The version that the command code `command` of a settings response
/// stands for.
pub open spec fn version_of(command: u8) -> Version {
    if command == resp::GET_SETTINGS_V1_0 {
        Version::V1_0
    } else if command == resp::GET_SETTINGS_V2_0 {
        Version::V2_0
    } else if command == resp::GET_SETTINGS_V2_1 {
        Version::V2_1
    } else {
        Version::Unknown
    }
}

impl FromSpecImpl<u8> for Version {
    open spec fn obeys_from_spec() -> bool {
        true
    }

    open spec fn from_spec(v: u8) -> Self {
        version_of(v)
    }
}

impl From<u8> for Version {
    /// The version that the command code `v` of a settings response stands
    /// for.
    fn from(v: u8) -> (version: Self) {
        if v == resp::GET_SETTINGS_V1_0 {
            Version::V1_0
        } else if v == resp::GET_SETTINGS_V2_0 {
            Version::V2_0
        } else if v == resp::GET_SETTINGS_V2_1 {
            Version::V2_1
        } else {
            Version::Unknown
        }
    }
}

/// A response that is read from the command code and the payload of a frame.
pub trait SmartAudioReponse: Sized {
    /// The number of payload bytes that a response under the command code
    /// `command` is read from.
    spec fn payload_needed(command: u8) -> nat;

    /// The response that `command` and `payload` stand for.
    spec fn decoded(command: u8, payload: Seq<u8>) -> Self;

    /// Reads the response from a frame whose payload is long enough for it.
    fn from_raw_frame(raw_frame: &RawSmartAudioFrame<'_>) -> (response: Self)
        requires
            payload_of(raw_frame@).len() >= Self::payload_needed(raw_frame@[2]),
        ensures
            response == Self::decoded(raw_frame@[2], payload_of(raw_frame@)),
    ;
}

/// The power table that a settings response of version 2.1 carries.
#[derive(Debug, Clone, Copy, PartialEq, Eq, Structural)]
pub struct PowerSettings {
    pub current_power: u8,
    pub num_power_levels: u8,
    pub dbm_level_1: u8,
    pub dbm_level_2: u8,
    pub dbm_level_3: u8,
    pub dbm_level_4: u8,
}

impl Default for PowerSettings {
    fn default() -> (settings: Self)
        ensures
            settings == (PowerSettings {
                current_power: 0,
                num_power_levels: 0,
                dbm_level_1: 0,
                dbm_level_2: 0,
                dbm_level_3: 0,
                dbm_level_4: 0,
            }),
    {
        PowerSettings {
            current_power: 0,
            num_power_levels: 0,
            dbm_level_1: 0,
            dbm_level_2: 0,
            dbm_level_3: 0,
            dbm_level_4: 0,
        }
    }
}

/// What the transmitter reports of itself.
#[derive(Debug, Clone, Copy, PartialEq, Eq, Structural)]
pub struct Settings {
    pub version: Version,
    pub channel: u8,
    pub power_level: u8,
    pub frequency: u16,
    pub unlocked: bool,
    pub user_frequency_mode: bool,
    pub pitmode_enabled: bool,
    pub pitmode_in_range_active: bool,
    pub pitmode_out_range_active: bool,
    /// Present in version 2.1 only.
    pub power_settings: Option<PowerSettings>,
}

impl Default for Settings {
    fn default() -> (settings: Self)
        ensures
            settings == (Settings {
                version: Version::V2_0,
                channel: 0,
                power_level: 0,
                frequency: 0,
                unlocked: false,
                user_frequency_mode: false,
                pitmode_enabled: false,
                pitmode_in_range_active: false,
                pitmode_out_range_active: false,
                power_settings: None,
            }),
    {
        Settings {
            version: Version::V2_0,
            channel: 0,
            power_level: 0,
            frequency: 0,
            unlocked: false,
            user_frequency_mode: false,
            pitmode_enabled: false,
            pitmode_in_range_active: false,
            pitmode_out_range_active: false,
            power_settings: None,
        }
    }
}

#[derive(Clone, Copy, Debug, PartialEq, Eq, Structural)]
pub struct SetPowerResponse {
    pub power: u8,
}

impl SmartAudioReponse for SetPowerResponse {
    open spec fn payload_needed(command: u8) -> nat {
        1
    }

    open spec fn decoded(command: u8, payload: Seq<u8>) -> Self {
        SetPowerResponse { power: payload[0] }
    }

    fn from_raw_frame(raw_frame: &RawSmartAudioFrame<'_>) -> (response: Self) {
        Self { power: raw_frame.payload()[0] }
    }
}

#[derive(Clone, Copy, Debug, PartialEq, Eq, Structural)]
pub struct SetChannelResponse {
    pub channel: u8,
}

impl SmartAudioReponse for SetChannelResponse {
    open spec fn payload_needed(command: u8) -> nat {
        1
    }

    open spec fn decoded(command: u8, payload: Seq<u8>) -> Self {
        SetChannelResponse { channel: payload[0] }
    }

    fn from_raw_frame(raw_frame: &RawSmartAudioFrame<'_>) -> (response: Self) {
        Self { channel: raw_frame.payload()[0] }
    }
}

#[derive(Clone, Copy, Debug, PartialEq, Eq, Structural)]
pub struct SetFrequencyResponse {
    pub frequency: u16,
}

impl SmartAudioReponse for SetFrequencyResponse {
    open spec fn payload_needed(command: u8) -> nat {
        2
    }

    open spec fn decoded(command: u8, payload: Seq<u8>) -> Self {
        SetFrequencyResponse { frequency: be16(payload[0], payload[1]) }
    }

    fn from_raw_frame(raw_frame: &RawSmartAudioFrame<'_>) -> (response: Self) {
        let buffer = raw_frame.payload();
        Self { frequency: u16_from_be(buffer[0], buffer[1]) }
    }
}

#[derive(Clone, Copy, Debug, PartialEq, Eq, Structural)]
pub struct SetModeResponse {
    pub pitmode_in_range_active: bool,
    pub pitmode_out_range_active: bool,
    pub pitmode_enabled: bool,
    pub unlocked: bool,
}

impl SmartAudioReponse for SetModeResponse {
    open spec fn payload_needed(command: u8) -> nat {
        1
    }

    open spec fn decoded(command: u8, payload: Seq<u8>) -> Self {
        let mode = payload[0];
        SetModeResponse {
            pitmode_in_range_active: has_flag(mode, mode_flags::PITMODE_IN_RANGE),
            pitmode_out_range_active: has_flag(mode, mode_flags::PITMODE_OUT_RANGE),
            pitmode_enabled: has_flag(mode, mode_flags::PITMODE_ENABLED),
            unlocked: has_flag(mode, mode_flags::UNLOCKED),
        }
    }

    fn from_raw_frame(raw_frame: &RawSmartAudioFrame<'_>) -> (response: Self) {
        let mode = raw_frame.payload()[0];
        Self {
            pitmode_in_range_active: mode & mode_flags::PITMODE_IN_RANGE != 0,
            pitmode_out_range_active: mode & mode_flags::PITMODE_OUT_RANGE != 0,
            pitmode_enabled: mode & mode_flags::PITMODE_ENABLED != 0,
            unlocked: mode & mode_flags::UNLOCKED != 0,
        }
    }
}

impl SmartAudioReponse for Settings {
    open spec fn payload_needed(command: u8) -> nat {
        if command == resp::GET_SETTINGS_V2_1 {
            11
        } else {
            5
        }
    }

    open spec fn decoded(command: u8, payload: Seq<u8>) -> Self {
        let mode = payload[2];
        Settings {
            version: version_of(command),
            channel: payload[0],
            power_level: payload[1],
            frequency: be16(payload[3], payload[4]),
            unlocked: has_flag(mode, get_settings_flags::UNLOCKED),
            user_frequency_mode: has_flag(mode, get_settings_flags::USER_FREQUENCY),
            pitmode_enabled: has_flag(mode, get_settings_flags::PITMODE_ENABLED),
            pitmode_in_range_active: has_flag(mode, get_settings_flags::PITMODE_IN_RANGE),
            pitmode_out_range_active: has_flag(mode, get_settings_flags::PITMODE_OUT_RANGE),
            power_settings: if command == resp::GET_SETTINGS_V2_1 {
                Some(
                    PowerSettings {
                        current_power: payload[5],
                        num_power_levels: payload[6],
                        dbm_level_1: payload[7],
                        dbm_level_2: payload[8],
                        dbm_level_3: payload[9],
                        dbm_level_4: payload[10],
                    },
                )
            } else {
                None
            },
        }
    }

    fn from_raw_frame(raw_frame: &RawSmartAudioFrame<'_>) -> (response: Self) {
        let b = raw_frame.payload();

        let version = Version::from(raw_frame.commnand());
        let channel = b[0];
        let power_level = b[1];

        let mode = b[2];
        let pitmode_enabled = mode & get_settings_flags::PITMODE_ENABLED != 0;
        let pitmode_in_range_active = mode & get_settings_flags::PITMODE_IN_RANGE != 0;
        let pitmode_out_range_active = mode & get_settings_flags::PITMODE_OUT_RANGE != 0;
        let unlocked = mode & get_settings_flags::UNLOCKED != 0;
        let user_frequency_mode = mode & get_settings_flags::USER_FREQUENCY != 0;

        let frequency = u16_from_be(b[3], b[4]);

        let power_settings = if version == Version::V2_1 {
            Some(
                PowerSettings {
                    current_power: b[5],
                    num_power_levels: b[6],
                    dbm_level_1: b[7],
                    dbm_level_2: b[8],
                    dbm_level_3: b[9],
                    dbm_level_4: b[10],
                },
            )
        } else {
            None
        };

        Self {
            version,
            channel,
            power_level,
            frequency,
            pitmode_enabled,
            pitmode_in_range_active,
            pitmode_out_range_active,
            unlocked,
            user_frequency_mode,
            power_settings,
        }
    }
}

/// One decoded frame.
#[derive(Debug, Clone, Copy)]
pub enum Response {
    GetSettings(Settings),
    SetPower(SetPowerResponse),
    SetChannel(SetChannelResponse),
    SetFrequency(SetFrequencyResponse),
    SetMode(SetModeResponse),
    /// A frame under a command code without a decoding. The decoder does not
    /// produce it.
    Unknown(u8),
}

/// Whether `command` is one of the three codes of a settings response.
pub open spec fn is_settings_code(command: u8) -> bool {
    command == resp::GET_SETTINGS_V1_0 || command == resp::GET_SETTINGS_V2_0 || command
        == resp::GET_SETTINGS_V2_1
}

/// The number of payload bytes that a response under `command` is read
/// from, where `command` is the code of a response.
pub open spec fn payload_needed(command: u8) -> Option<nat> {
    if is_settings_code(command) {
        Some(Settings::payload_needed(command))
    } else if command == resp::SET_POWER {
        Some(SetPowerResponse::payload_needed(command))
    } else if command == resp::SET_CHANNEL {
        Some(SetChannelResponse::payload_needed(command))
    } else if command == resp::SET_FREQUENCY {
        Some(SetFrequencyResponse::payload_needed(command))
    } else if command == resp::SET_MODE {
        Some(SetModeResponse::payload_needed(command))
    } else {
        None
    }
}

/// The response that a frame with the command code `command` and the payload
/// `payload` stands for.
pub open spec fn decode(command: u8, payload: Seq<u8>) -> Result<Response, SmartAudioError> {
    match payload_needed(command) {
        None => Err(SmartAudioError::InvalidHeader),
        Some(needed) => if payload.len() < needed {
            Err(SmartAudioError::InvalidPayloadLength)
        } else if is_settings_code(command) {
            Ok(Response::GetSettings(Settings::decoded(command, payload)))
        } else if command == resp::SET_POWER {
            Ok(Response::SetPower(SetPowerResponse::decoded(command, payload)))
        } else if command == resp::SET_CHANNEL {
            Ok(Response::SetChannel(SetChannelResponse::decoded(command, payload)))
        } else if command == resp::SET_FREQUENCY {
            Ok(Response::SetFrequency(SetFrequencyResponse::decoded(command, payload)))
        } else {
            Ok(Response::SetMode(SetModeResponse::decoded(command, payload)))
        },
    }
}

/// The response that the bytes of a frame stand for.
pub open spec fn parsed(frame: Seq<u8>) -> Result<Response, SmartAudioError> {
    decode(frame[2], payload_of(frame))
}

impl Response {
    /// Classifies a frame by its command code and reads the response from
    /// its payload. Header and checksum are not looked at.
    pub fn parse(raw_frame: &RawSmartAudioFrame<'_>) -> (response: Result<Self, SmartAudioError>)
        ensures
            response == parsed(raw_frame@),
    {
        let cmd = raw_frame.commnand();
        let available = raw_frame.payload().len();
        if cmd == resp::GET_SETTINGS_V1_0 || cmd == resp::GET_SETTINGS_V2_0 {
            if available < 5 {
                return Err(SmartAudioError::InvalidPayloadLength);
            }
            Ok(Self::GetSettings(Settings::from_raw_frame(raw_frame)))
        } else if cmd == resp::GET_SETTINGS_V2_1 {
            if available < 11 {
                return Err(SmartAudioError::InvalidPayloadLength);
            }
            Ok(Self::GetSettings(Settings::from_raw_frame(raw_frame)))
        } else if cmd == resp::SET_POWER {
            if available < 1 {
                return Err(SmartAudioError::InvalidPayloadLength);
            }
            Ok(Self::SetPower(SetPowerResponse::from_raw_frame(raw_frame)))
        } else if cmd == resp::SET_CHANNEL {
            if available < 1 {
                return Err(SmartAudioError::InvalidPayloadLength);
            }
            Ok(Self::SetChannel(SetChannelResponse::from_raw_frame(raw_frame)))
        } else if cmd == resp::SET_FREQUENCY {
            if available < 2 {
                return Err(SmartAudioError::InvalidPayloadLength);
            }
            Ok(Self::SetFrequency(SetFrequencyResponse::from_raw_frame(raw_frame)))
        } else if cmd == resp::SET_MODE {
            if available < 1 {
                return Err(SmartAudioError::InvalidPayloadLength);
            }
            Ok(Self::SetMode(SetModeResponse::from_raw_frame(raw_frame)))
        } else {
            Err(SmartAudioError::InvalidHeader)
        }
    }
}

/// What a push yields once a completed frame has been decoded.
pub open spec fn decoded_outcome(raw: Result<Option<Seq<u8>>, SmartAudioError>) -> Result<
    Option<Response>,
    SmartAudioError,
> {
    match raw {
        Err(e) => Err(e),
        Ok(None) => Ok(None),
        Ok(Some(frame)) => match parsed(frame) {
            Ok(response) => Ok(Some(response)),
            Err(e) => Err(e),
        },
    }
}

impl SmartAudioParser {
    /// Takes one byte. Returns nothing while the frame goes on, the decoded
    /// response when `byte` completes a frame, and an error when the
    /// assembler refuses the byte or the frame cannot be decoded.
    pub fn push_byte(&mut self, byte: u8) -> (pushed: Result<Option<Response>, SmartAudioError>)
        requires
            old(self).wf(),
        ensures
            final(self).wf(),
            final(self)@ == push_rest(old(self)@, byte),
            pushed == decoded_outcome(push_outcome(old(self)@, byte)),
    {
        match self.push_byte_raw(byte) {
            Err(e) => Err(e),
            Ok(None) => Ok(None),
            Ok(Some(raw_packet)) => match Response::parse(&raw_packet) {
                Ok(response) => Ok(Some(response)),
                Err(e) => Err(e),
            },
        }
    }
}

} // verus!

verus! {

/// What scanning a run of bytes comes to: how many bytes were taken, what
/// the assembler holds afterwards, and the response or error that stopped the
/// scan, if one did.
pub struct Scan {
    pub consumed: nat,
    pub received: Seq<u8>,
    pub item: Option<Result<Response, SmartAudioError>>,
}

/// Pushes the bytes of `input` one after the other on top of `received`,
/// up to and including the first that yields a response or an error.
pub open spec fn scan(received: Seq<u8>, input: Seq<u8>) -> Scan
    decreases input.len(),
{
    if input.len() == 0 {
        Scan { consumed: 0, received, item: None }
    } else {
        let rest = push_rest(received, input[0]);
        match decoded_outcome(push_outcome(received, input[0])) {
            Ok(None) => {
                let tail = scan(rest, input.skip(1));
                Scan { consumed: tail.consumed + 1, received: tail.received, item: tail.item }
            },
            Ok(Some(response)) => Scan { consumed: 1, received: rest, item: Some(Ok(response)) },
            Err(e) => Scan { consumed: 1, received: rest, item: Some(Err(e)) },
        }
    }
}

/// The responses and errors that a run of bytes yields, in order. It pushes
/// the bytes of `buffer` from `position` on into `parser`.
pub struct ResponseIterator<'a, 'b> {
    pub parser: &'a mut SmartAudioParser,
    pub buffer: &'b [u8],
    pub position: usize,
}

impl<'a, 'b> ResponseIterator<'a, 'b> {
    /// The bytes that have not been pushed yet.
    pub open spec fn remaining(&self) -> Seq<u8> {
        self.buffer@.skip(self.position as int)
    }

    pub open spec fn wf(&self) -> bool {
        self.parser.wf() && self.position <= self.buffer@.len()
    }

    /// Pushes the bytes that remain up to and including the first that
    /// yields a response or an error, and returns that; nothing when the
    /// bytes run out before.
    pub fn next(&mut self) -> (item: Option<Result<Response, SmartAudioError>>)
        requires
            old(self).wf(),
        ensures
            final(self).wf(),
            final(self).buffer == old(self).buffer,
            *final(final(self).parser) == *final(old(self).parser),
            final(self).position == old(self).position + scan(
                old(self).parser@,
                old(self).remaining(),
            ).consumed,
            final(self).parser@ == scan(old(self).parser@, old(self).remaining()).received,
            item == scan(old(self).parser@, old(self).remaining()).item,
    {
        let ghost goal = scan(self.parser@, self.remaining());
        let ghost start = self.position;
        while self.position < self.buffer.len()
            invariant
                self.wf(),
                self.buffer == old(self).buffer,
                *final(self.parser) == *final(old(self).parser),
                start == old(self).position,
                start <= self.position,
                goal == scan(old(self).parser@, old(self).remaining()),
                goal.consumed == scan(self.parser@, self.remaining()).consumed + (self.position
                    - start),
                goal.received == scan(self.parser@, self.remaining()).received,
                goal.item == scan(self.parser@, self.remaining()).item,
            decreases self.buffer@.len() - self.position,
        {
            let byte = self.buffer[self.position];
            let ghost received = self.parser@;
            let ghost input = self.remaining();
            proof {
                assert(input.len() > 0 && input[0] == byte);
                assert(input.skip(1) == self.buffer@.skip(self.position + 1));
            }
            self.position += 1;
            let pushed = self.parser.push_byte(byte);
            proof {
                assert(pushed == decoded_outcome(push_outcome(received, input[0])));
                assert(self.parser@ == push_rest(received, input[0]));
                assert(self.remaining() == input.skip(1));
            }
            match pushed {
                Ok(Some(response)) => {
                    return Some(Ok(response));
                },
                Ok(None) => {},
                Err(e) => {
                    return Some(Err(e));
                },
            }
        }
        None
    }
}

impl SmartAudioParser {
    /// The responses and errors that the bytes of `buffer` yield when they
    /// are pushed into this assembler, in order. What the assembler holds
    /// when the scan is given up stays with it.
    pub fn iter_frames<'a, 'b>(&'a mut self, buffer: &'b [u8]) -> (frames: ResponseIterator<'a, 'b>)
        requires
            old(self).wf(),
        ensures
            frames.wf(),
            *frames.parser == *old(self),
            *final(frames.parser) == *final(self),
            frames.buffer == buffer,
            frames.position == 0,
    {
        ResponseIterator { parser: self, buffer, position: 0 }
    }
}

fn trial() {
    let mut parser = SmartAudioParser::new();
    let buf: [u8; 1] = [0xAA];
    let mut it = parser.iter_frames(buf.as_slice());
    let x = it.next();
    assert(parser.wf());
}

} // verus!
