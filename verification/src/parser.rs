//! The frame assembler: a byte-driven state machine over a fixed buffer, and
//! the read-only view of a frame that it hands out.
//!
//! A frame on the wire is
//!
//! | offset | field                                            |
//! |--------|--------------------------------------------------|
//! | 0      | first header byte, `0xAA`                        |
//! | 1      | second header byte, `0x55`                       |
//! | 2      | command code                                     |
//! | 3      | length `n`, with `3 <= n < 28`                   |
//! | 4..    | `n - 1` payload bytes                            |
//! | last   | checksum over everything from offset 2 up to it  |
//!
//! so a frame with length field `n` has `n + 4` bytes in all. This is the
//! layout of what the transmitter sends. In what is sent to it, the length
//! field counts the payload bytes alone and the checksum covers the header
//! too: see [`command_frame`].
//!
//! Two policies are fixed here. A byte that the active state does not expect
//! is always an error that names the state and the byte, also while the
//! assembler is still waiting for the first header byte and also for a length
//! outside the accepted range. And every error, a checksum mismatch included,
//! leaves the assembler waiting for a first header byte.
use vstd::prelude::*;
use vstd::slice::slice_subrange;
use crate::checksum::crc8;
use crate::checksum::crc8_dvb_s2;

verus! {

pub const HEADER_BYTE_1: u8 = 0xAA;

pub const HEADER_BYTE_2: u8 = 0x55;

/// Capacity of the assembler's buffer.
pub const MAX_FRAME_SIZE: usize = 32;

/// Exclusive upper bound of the length field.
pub const MAX_PAYLOAD_SIZE: usize = 28;

/// Inclusive lower bound of the length field.
pub const MIN_PAYLOAD_SIZE: usize = 3;

/// What the assembler waits for.
#[derive(Debug, Default, Eq, PartialEq, Copy, Clone, Structural)]
pub enum State {
    #[default]
    AwaitingHeader1,
    AwaitingHeader2,
    AwaitingCommand,
    AwaitingLength,
    /// The bytes after the length field are being collected; the value is
    /// the length field.
    Reading(usize),
}

#[derive(Debug, Clone, Copy, PartialEq, Eq, Structural)]
pub enum SmartAudioError {
    /// The target buffer of an encoder cannot hold the frame; the value is
    /// the size that the frame needs.
    BufferTooSmall(usize),
    /// The checksum computed over a complete frame differs from the one it
    /// carries.
    InvalidCrc { calculated_crc: u8, frame_crc: u8 },
    /// The command code of a frame is not that of any known response.
    InvalidHeader,
    /// A command code without a decoding. Nothing here produces it: the
    /// decoder reports such a code as [`SmartAudioError::InvalidHeader`].
    UnknownCommand(u8),
    /// A frame's payload is shorter than the fields that its command code
    /// announces, or a payload does not fit the length field.
    InvalidPayloadLength,
    /// The byte is not one that the state accepts.
    UnexpetedDataForState(State, u8),
}

/// The state that the assembler is in after it has accepted `received` as
/// the beginning of a frame.
pub open spec fn state_after(received: Seq<u8>) -> State {
    if received.len() == 0 {
        State::AwaitingHeader1
    } else if received.len() == 1 {
        State::AwaitingHeader2
    } else if received.len() == 2 {
        State::AwaitingCommand
    } else if received.len() == 3 {
        State::AwaitingLength
    } else {
        State::Reading(received[3] as usize)
    }
}

/// Whether `byte` may follow `received`.
pub open spec fn accepts(received: Seq<u8>, byte: u8) -> bool {
    match state_after(received) {
        State::AwaitingHeader1 => byte == HEADER_BYTE_1,
        State::AwaitingHeader2 => byte == HEADER_BYTE_2,
        State::AwaitingCommand => true,
        State::AwaitingLength => MIN_PAYLOAD_SIZE <= byte < MAX_PAYLOAD_SIZE,
        State::Reading(_) => true,
    }
}

/// Whether one more byte after `received` is the frame's last.
pub open spec fn completes(received: Seq<u8>) -> bool {
    received.len() >= 4 && received.len() == received[3] + 3
}

/// The checksum that a frame of these bytes has to carry as its last byte,
/// where `body` is the frame without that byte.
pub open spec fn frame_crc(body: Seq<u8>) -> u8 {
    crc8(body.skip(2))
}

/// The beginning of a frame that the assembler holds after `byte` has been
/// pushed on top of `received`: one byte longer while the frame goes on,
/// empty once it is complete or has been given up.
pub open spec fn push_rest(received: Seq<u8>, byte: u8) -> Seq<u8> {
    if accepts(received, byte) && !completes(received) {
        received.push(byte)
    } else {
        Seq::empty()
    }
}

/// What pushing `byte` on top of `received` yields: nothing yet, the bytes of
/// a complete frame, or an error.
pub open spec fn push_outcome(received: Seq<u8>, byte: u8) -> Result<
    Option<Seq<u8>>,
    SmartAudioError,
> {
    if !accepts(received, byte) {
        Err(SmartAudioError::UnexpetedDataForState(state_after(received), byte))
    } else if !completes(received) {
        Ok(None)
    } else if frame_crc(received) == byte {
        Ok(Some(received.push(byte)))
    } else {
        Err(SmartAudioError::InvalidCrc { calculated_crc: frame_crc(received), frame_crc: byte })
    }
}

/// What the assembler holds after the bytes of `bytes` have been pushed one
/// after the other on top of `received`.
pub open spec fn push_all(received: Seq<u8>, bytes: Seq<u8>) -> Seq<u8>
    decreases bytes.len(),
{
    if bytes.len() == 0 {
        received
    } else {
        push_rest(push_all(received, bytes.drop_last()), bytes.last())
    }
}

/// Whether `received` is the beginning of a frame that is not yet complete:
/// what an assembler can hold between two pushes.
pub open spec fn is_partial_frame(received: Seq<u8>) -> bool {
    &&& received.len() >= 1 ==> received[0] == HEADER_BYTE_1
    &&& received.len() >= 2 ==> received[1] == HEADER_BYTE_2
    &&& received.len() >= 4 ==> {
        &&& MIN_PAYLOAD_SIZE <= received[3] < MAX_PAYLOAD_SIZE
        &&& received.len() <= received[3] + 3
    }
}

/// Whether `frame` is a complete frame: header, a length field in range that
/// agrees with the number of bytes, and the right checksum.
pub open spec fn is_valid_frame(frame: Seq<u8>) -> bool {
    &&& frame.len() >= 5
    &&& frame[0] == HEADER_BYTE_1
    &&& frame[1] == HEADER_BYTE_2
    &&& MIN_PAYLOAD_SIZE <= frame[3] < MAX_PAYLOAD_SIZE
    &&& frame.len() == frame[3] + 4
    &&& frame.last() == frame_crc(frame.drop_last())
}

/// The payload of a frame: what lies between the length field and the
/// checksum.
pub open spec fn payload_of(frame: Seq<u8>) -> Seq<u8> {
    if frame.len() >= 5 {
        frame.subrange(4, frame.len() - 1)
    } else {
        Seq::empty()
    }
}

/// The frame that carries `payload` under the command code `command`: the
/// header, the code, the number of payload bytes, the payload, and the
/// checksum over all that comes before it, the header included.
pub open spec fn command_frame(command: u8, payload: Seq<u8>) -> Seq<u8> {
    let body = seq![HEADER_BYTE_1, HEADER_BYTE_2, command, payload.len() as u8] + payload;
    body.push(crc8(body))
}

/// The largest payload whose size the length field can hold.
pub const MAX_COMMAND_PAYLOAD: usize = 255;

/// Whether a call that frames `payload` under `command` into a buffer that
/// held `before` has returned `written` and left `after` in the buffer.
///
/// With room for the frame, the frame stands at the start of the buffer, the
/// bytes behind it are untouched and the frame's size is returned. Without,
/// nothing is written and the error holds the size that the frame needs. A
/// payload of more than 255 bytes is refused, nothing written.
pub open spec fn framed(
    before: Seq<u8>,
    after: Seq<u8>,
    written: Result<usize, SmartAudioError>,
    command: u8,
    payload: Seq<u8>,
) -> bool {
    let frame = command_frame(command, payload);
    if payload.len() > MAX_COMMAND_PAYLOAD {
        after == before && written == Err::<usize, SmartAudioError>(
            SmartAudioError::InvalidPayloadLength,
        )
    } else if before.len() < frame.len() {
        after == before && written == Err::<usize, SmartAudioError>(
            SmartAudioError::BufferTooSmall(frame.len() as usize),
        )
    } else {
        after == frame + before.skip(frame.len() as int) && written == Ok::<
            usize,
            SmartAudioError,
        >(frame.len() as usize)
    }
}

/// Writes the frame that carries `payload` under the command code `command`
/// to the start of `buffer`.
pub fn frame_payload(buffer: &mut [u8], command: u8, payload: &[u8]) -> (written: Result<
    usize,
    SmartAudioError,
>)
    ensures
        framed(old(buffer)@, final(buffer)@, written, command, payload@),
{
    let count: usize = payload.len();
    if count > MAX_COMMAND_PAYLOAD {
        return Err(SmartAudioError::InvalidPayloadLength);
    }
    let required: usize = count + 5;
    if buffer.len() < required {
        return Err(SmartAudioError::BufferTooSmall(required));
    }
    let ghost before = buffer@;
    let ghost body = seq![HEADER_BYTE_1, HEADER_BYTE_2, command, count as u8] + payload@;
    buffer[0] = HEADER_BYTE_1;
    buffer[1] = HEADER_BYTE_2;
    buffer[2] = command;
    buffer[3] = count as u8;
    let mut i: usize = 0;
    while i < count
        invariant
            i <= count,
            count == payload@.len(),
            required == count + 5,
            buffer@.len() == before.len(),
            before.len() >= required,
            buffer@.take(4) == body.take(4),
            forall|k: int| 0 <= k < i ==> buffer@[4 + k] == payload@[k],
            forall|k: int| 4 + i <= k < before.len() ==> buffer@[k] == before[k],
        decreases count - i,
    {
        buffer[4 + i] = payload[i];
        assert(buffer@.take(4) == body.take(4));
        i = i + 1;
    }
    assert(buffer@.take(required - 1) == body);
    let crc = crc8_dvb_s2(slice_subrange(buffer, 0, required - 1));
    buffer[required - 1] = crc;
    assert(buffer@ == command_frame(command, payload@) + before.skip(required as int));
    Ok(required)
}

/// A read-only view of the bytes of one frame. It always has at least four
/// bytes.
#[derive(Debug)]
pub struct RawSmartAudioFrame<'a> {
    bytes: &'a [u8],
}

impl<'a> Clone for RawSmartAudioFrame<'a> {
    fn clone(&self) -> (copy: Self)
        ensures
            copy@ == self@,
    {
        proof {
            use_type_invariant(self);
        }
        Self { bytes: self.bytes }
    }
}

impl<'a> View for RawSmartAudioFrame<'a> {
    type V = Seq<u8>;

    closed spec fn view(&self) -> Seq<u8> {
        self.bytes@
    }
}

impl<'a> RawSmartAudioFrame<'a> {
    #[verifier::type_invariant]
    spec fn long_enough(self) -> bool {
        self.bytes@.len() >= 4
    }

    /// A view of `bytes` as a frame, which takes at least four bytes. Neither
    /// header nor checksum is looked at.
    pub fn new(bytes: &'a [u8]) -> (frame: Option<Self>)
        ensures
            frame is Some <==> bytes@.len() >= 4,
            frame matches Some(f) ==> f@ == bytes@,
    {
        if bytes.len() >= 4 {
            Some(Self { bytes })
        } else {
            None
        }
    }

    /// The command code.
    pub fn commnand(&self) -> (code: u8)
        ensures
            self@.len() >= 4,
            code == self@[2],
    {
        proof {
            use_type_invariant(self);
        }
        self.bytes[2]
    }

    /// The payload; empty in a frame of four bytes.
    pub fn payload(&self) -> (payload: &[u8])
        ensures
            self@.len() >= 4,
            payload@ == payload_of(self@),
    {
        proof {
            use_type_invariant(self);
        }
        let len: usize = self.bytes.len();
        let end: usize = if len > 4 {
            len - 1
        } else {
            4
        };
        slice_subrange(self.bytes, 4, end)
    }

    /// The number of bytes in the frame, header and checksum included.
    pub fn len(&self) -> (len: usize)
        ensures
            len == self@.len(),
            len >= 4,
    {
        proof {
            use_type_invariant(self);
        }
        self.bytes.len()
    }

    /// Whether the frame has no bytes, which is never the case.
    pub fn is_empty(&self) -> (empty: bool)
        ensures
            empty == (self@.len() == 0),
            !empty,
    {
        proof {
            use_type_invariant(self);
        }
        self.bytes.is_empty()
    }

    /// The checksum byte that the frame carries: its last byte.
    pub fn crc(&self) -> (crc: u8)
        ensures
            self@.len() >= 4,
            crc == self@.last(),
    {
        proof {
            use_type_invariant(self);
        }
        self.bytes[self.bytes.len() - 1]
    }
}

/// The bytes of the frame that a raw push handed out, if it did.
pub open spec fn raw_outcome(
    pushed: Result<Option<RawSmartAudioFrame<'_>>, SmartAudioError>,
) -> Result<Option<Seq<u8>>, SmartAudioError> {
    match pushed {
        Ok(Some(frame)) => Ok(Some(frame@)),
        Ok(None) => Ok(None),
        Err(e) => Err(e),
    }
}

/// The incremental frame assembler.
#[derive(Debug)]
pub struct SmartAudioParser {
    buffer: [u8; MAX_FRAME_SIZE],
    state: State,
    position: usize,
}

impl View for SmartAudioParser {
    type V = Seq<u8>;

    /// The bytes of the frame in progress.
    closed spec fn view(&self) -> Seq<u8> {
        if self.state is AwaitingHeader1 {
            Seq::empty()
        } else {
            self.buffer@.take(self.position + 1)
        }
    }
}

impl SmartAudioParser {
    /// The fields agree with each other: the state is the one that belongs to
    /// the bytes held, and these are the beginning of a frame.
    pub closed spec fn wf(&self) -> bool {
        &&& self.state is AwaitingHeader1 ==> self.position == 0
        &&& !(self.state is AwaitingHeader1) ==> self.position < MAX_FRAME_SIZE - 1
        &&& self.state == state_after(self@)
        &&& is_partial_frame(self@)
    }

    /// The state that the assembler is in.
    pub closed spec fn state(&self) -> State {
        self.state
    }

    /// What a well-formed assembler holds is the beginning of a frame, and
    /// its state is the one that belongs to these bytes.
    pub proof fn lemma_holds_partial_frame(&self)
        requires
            self.wf(),
        ensures
            is_partial_frame(self@),
            self@.len() < MAX_FRAME_SIZE,
            self.state() == state_after(self@),
    {
    }

    /// An assembler that waits for the first header byte.
    pub fn new() -> (parser: Self)
        ensures
            parser.wf(),
            parser@ == Seq::<u8>::empty(),
    {
        Self { buffer: [0;MAX_FRAME_SIZE], state: State::AwaitingHeader1, position: 0 }
    }

    /// Gives up the frame in progress.
    pub fn reset(&mut self)
        ensures
            final(self).wf(),
            final(self)@ == Seq::<u8>::empty(),
    {
        self.rewind();
    }

    /// Back to the first state; the buffer keeps its bytes.
    fn rewind(&mut self)
        ensures
            final(self).buffer == old(self).buffer,
            final(self).position == 0,
            final(self).state == State::AwaitingHeader1,
    {
        self.position = 0;
        self.state = State::AwaitingHeader1;
    }

    /// Takes one byte. Returns nothing while the frame goes on, the frame
    /// when `byte` completes it with the right checksum, and an error when
    /// the state does not accept `byte` or the checksum is wrong. After a
    /// frame or an error the assembler waits for a first header byte again.
    pub fn push_byte_raw(&mut self, byte: u8) -> (pushed: Result<
        Option<RawSmartAudioFrame<'_>>,
        SmartAudioError,
    >)
        requires
            old(self).wf(),
        ensures
            final(self).wf(),
            final(self)@ == push_rest(old(self)@, byte),
            raw_outcome(pushed) == push_outcome(old(self)@, byte),
    {
        let ghost received = self@;
        match self.state {
            State::AwaitingHeader1 if byte == HEADER_BYTE_1 => {
                self.position = 0;
                self.buffer[self.position] = byte;
                self.state = State::AwaitingHeader2;
                assert(self@ == received.push(byte));
                Ok(None)
            },
            State::AwaitingHeader2 if byte == HEADER_BYTE_2 => {
                self.position += 1;
                self.buffer[self.position] = byte;
                self.state = State::AwaitingCommand;
                assert(self@ == received.push(byte));
                Ok(None)
            },
            State::AwaitingCommand => {
                self.position += 1;
                self.buffer[self.position] = byte;
                self.state = State::AwaitingLength;
                assert(self@ == received.push(byte));
                Ok(None)
            },
            State::AwaitingLength if MIN_PAYLOAD_SIZE <= byte as usize && (byte as usize)
                < MAX_PAYLOAD_SIZE => {
                self.position += 1;
                self.buffer[self.position] = byte;
                self.state = State::Reading(byte as usize);
                assert(self@ == received.push(byte));
                Ok(None)
            },
            State::Reading(n) => {
                self.position += 1;
                self.buffer[self.position] = byte;
                assert(self@ == received.push(byte));
                if self.position == n + 3 {
                    let end: usize = self.position + 1;
                    let calculated_crc = crc8_dvb_s2(
                        slice_subrange(self.buffer.as_slice(), 2, end - 1),
                    );
                    assert(self.buffer@.subrange(2, end - 1) == received.skip(2));
                    self.rewind();
                    if byte != calculated_crc {
                        return Err(
                            SmartAudioError::InvalidCrc { frame_crc: byte, calculated_crc },
                        );
                    }
                    let bytes = slice_subrange(self.buffer.as_slice(), 0, end);
                    assert(bytes@ == received.push(byte));
                    Ok(RawSmartAudioFrame::new(bytes))
                } else {
                    Ok(None)
                }
            },
            _ => {
                let current_state = self.state;
                self.rewind();
                Err(SmartAudioError::UnexpetedDataForState(current_state, byte))
            },
        }
    }
}

impl Default for SmartAudioParser {
    fn default() -> (parser: Self)
        ensures
            parser.wf(),
            parser@ == Seq::<u8>::empty(),
    {
        Self::new()
    }
}

} // verus!
