//! What holds of the assembler, the decoder and the encoder together.
use vstd::prelude::*;
use crate::checksum::crc8;
use crate::checksum::crc8_absorb;
use crate::checksum::crc8_shift;
use crate::checksum::crc8_shifts;
use crate::commands::flag_bits;
use crate::commands::mode_byte;
use crate::commands::power_byte;
use crate::commands::Power;
use crate::commands::SetChannelCommand;
use crate::commands::SetFrequencyCommand;
use crate::commands::SetModeCommand;
use crate::commands::SetPowerCommand;
use crate::commands::SmartAudioCommand;
use crate::commands::POWER_IN_DBM;
use crate::constants::mode_flags;
use crate::parser::accepts;
use crate::parser::command_frame;
use crate::parser::frame_crc;
use crate::parser::is_partial_frame;
use crate::parser::is_valid_frame;
use crate::parser::payload_of;
use crate::parser::push_all;
use crate::parser::push_outcome;
use crate::parser::push_rest;
use crate::parser::state_after;
use crate::parser::HEADER_BYTE_1;
use crate::parser::HEADER_BYTE_2;
use crate::parser::SmartAudioError;
use crate::responses::decoded_outcome;
use crate::responses::has_flag;
use crate::responses::parsed;
use crate::responses::scan;
use crate::responses::Response;
use crate::responses::Scan;
use crate::responses::SetChannelResponse;
use crate::responses::SetFrequencyResponse;
use crate::responses::SetModeResponse;
use crate::responses::SetPowerResponse;
use crate::responses::SmartAudioReponse;

verus! {

/// One shift of the checksum register loses nothing: two registers that
/// differ still differ after it.
pub proof fn lemma_shift_keeps_difference(a: u8, b: u8)
    requires
        a != b,
    ensures
        crc8_shift(a) != crc8_shift(b),
{
    assert(crc8_shift(a) != crc8_shift(b)) by (bit_vector)
        requires
            a != b,
    ;
}

/// Any number of shifts of the checksum register loses nothing.
pub proof fn lemma_shifts_keep_difference(a: u8, b: u8, rounds: nat)
    requires
        a != b,
    ensures
        crc8_shifts(a, rounds) != crc8_shifts(b, rounds),
    decreases rounds,
{
    if rounds > 0 {
        lemma_shifts_keep_difference(a, b, (rounds - 1) as nat);
        lemma_shift_keeps_difference(
            crc8_shifts(a, (rounds - 1) as nat),
            crc8_shifts(b, (rounds - 1) as nat),
        );
    }
}

/// Absorbing a byte gives different registers where either the registers
/// before or the bytes differ, but not both.
pub proof fn lemma_absorb_keeps_difference(crc_a: u8, byte_a: u8, crc_b: u8, byte_b: u8)
    requires
        (crc_a != crc_b) != (byte_a != byte_b),
    ensures
        crc8_absorb(crc_a, byte_a) != crc8_absorb(crc_b, byte_b),
{
    assert(crc_a ^ byte_a != crc_b ^ byte_b) by (bit_vector)
        requires
            (crc_a != crc_b) != (byte_a != byte_b),
    ;
    lemma_shifts_keep_difference(crc_a ^ byte_a, crc_b ^ byte_b, 8);
}

/// The checksum tells apart two byte sequences that differ in exactly one
/// byte.
pub proof fn lemma_crc8_detects_one_changed_byte(data: Seq<u8>, at: int, byte: u8)
    requires
        0 <= at < data.len(),
        byte != data[at],
    ensures
        crc8(data.update(at, byte)) != crc8(data),
    decreases data.len(),
{
    let changed = data.update(at, byte);
    if at == data.len() - 1 {
        assert(changed.drop_last() == data.drop_last());
    } else {
        assert(changed.drop_last() == data.drop_last().update(at, byte));
        lemma_crc8_detects_one_changed_byte(data.drop_last(), at, byte);
    }
    lemma_absorb_keeps_difference(
        crc8(changed.drop_last()),
        changed.last(),
        crc8(data.drop_last()),
        data.last(),
    );
}

/// The checksum of data followed by its own checksum is zero.
pub proof fn lemma_crc8_of_checked_data_is_zero(data: Seq<u8>)
    ensures
        crc8(data.push(crc8(data))) == 0,
{
    let crc = crc8(data);
    assert(data.push(crc).drop_last() == data);
    assert(crc ^ crc == 0) by (bit_vector);
    assert(crc8_shift(0) == 0) by (bit_vector);
    assert(crc8_shifts(0, 8) == 0) by {
        reveal_with_fuel(crc8_shifts, 9);
    }
}

/// Every proper beginning of a valid frame is accepted byte by byte: after
/// the first `k` bytes of the frame have been pushed into an assembler that
/// held nothing, it holds exactly these bytes.
pub proof fn lemma_frame_prefix_is_held(frame: Seq<u8>, k: int)
    requires
        is_valid_frame(frame),
        0 <= k < frame.len(),
    ensures
        push_all(Seq::empty(), frame.take(k)) == frame.take(k),
        is_partial_frame(frame.take(k)),
    decreases k,
{
    if k > 0 {
        lemma_frame_prefix_is_held(frame, k - 1);
        assert(frame.take(k).drop_last() == frame.take(k - 1));
        assert(frame.take(k - 1).push(frame[k - 1]) == frame.take(k));
    }
}

/// Pushing a valid frame one byte at a time into an assembler that holds
/// nothing yields nothing for every byte but the last, and the whole frame
/// for the last, after which the assembler holds nothing again.
pub proof fn lemma_valid_frame_is_assembled(frame: Seq<u8>, k: int)
    requires
        is_valid_frame(frame),
        0 <= k < frame.len(),
    ensures
        push_all(Seq::empty(), frame.take(k)) == frame.take(k),
        k < frame.len() - 1 ==> push_outcome(frame.take(k), frame[k]) == Ok::<
            Option<Seq<u8>>,
            SmartAudioError,
        >(None),
        k < frame.len() - 1 ==> push_rest(frame.take(k), frame[k]) == frame.take(k + 1),
        k == frame.len() - 1 ==> push_outcome(frame.take(k), frame[k]) == Ok::<
            Option<Seq<u8>>,
            SmartAudioError,
        >(Some(frame)),
        k == frame.len() - 1 ==> push_rest(frame.take(k), frame[k]) == Seq::<u8>::empty(),
{
    lemma_frame_prefix_is_held(frame, k);
    assert(frame.take(k).push(frame[k]) == frame.take(k + 1));
    if k == frame.len() - 1 {
        assert(frame.take(k) == frame.drop_last());
        assert(frame.take(k + 1) == frame);
    }
}

/// A valid frame whose checksum byte is replaced by any other value is
/// refused at that byte with both checksums, the one computed and the one
/// received, and the assembler holds nothing afterwards.
pub proof fn lemma_wrong_checksum_is_refused(frame: Seq<u8>, byte: u8)
    requires
        is_valid_frame(frame),
        byte != frame.last(),
    ensures
        push_all(Seq::empty(), frame.drop_last()) == frame.drop_last(),
        push_outcome(frame.drop_last(), byte) == Err::<Option<Seq<u8>>, SmartAudioError>(
            SmartAudioError::InvalidCrc { calculated_crc: frame.last(), frame_crc: byte },
        ),
        decoded_outcome(push_outcome(frame.drop_last(), byte)) == Err::<
            Option<Response>,
            SmartAudioError,
        >(SmartAudioError::InvalidCrc { calculated_crc: frame.last(), frame_crc: byte }),
        push_rest(frame.drop_last(), byte) == Seq::<u8>::empty(),
{
    lemma_frame_prefix_is_held(frame, frame.len() - 1);
    assert(frame.take(frame.len() - 1) == frame.drop_last());
}

/// A valid frame in which the command code or one payload byte is replaced
/// by any other value is taken up to its last byte and refused there for its
/// checksum.
pub proof fn lemma_one_changed_byte_is_refused(frame: Seq<u8>, at: int, byte: u8)
    requires
        is_valid_frame(frame),
        at == 2 || 4 <= at < frame.len() - 1,
        byte != frame[at],
    ensures
        ({
            let damaged = frame.update(at, byte);
            &&& push_all(Seq::empty(), damaged.drop_last()) == damaged.drop_last()
            &&& frame_crc(damaged.drop_last()) != frame.last()
            &&& push_outcome(damaged.drop_last(), damaged.last()) == Err::<
                Option<Seq<u8>>,
                SmartAudioError,
            >(
                SmartAudioError::InvalidCrc {
                    calculated_crc: frame_crc(damaged.drop_last()),
                    frame_crc: frame.last(),
                },
            )
            &&& push_rest(damaged.drop_last(), damaged.last()) == Seq::<u8>::empty()
        }),
{
    let damaged = frame.update(at, byte);
    let right = damaged.update(damaged.len() - 1, frame_crc(damaged.drop_last()));
    assert(right.drop_last() == damaged.drop_last());
    assert(is_valid_frame(right));
    lemma_frame_prefix_is_held(right, right.len() - 1);
    assert(right.take(right.len() - 1) == right.drop_last());
    assert(damaged.drop_last().skip(2) == frame.drop_last().skip(2).update(at - 2, byte));
    lemma_crc8_detects_one_changed_byte(frame.drop_last().skip(2), at - 2, byte);
}

/// A byte that the state does not accept is refused with an error that
/// holds the state and the byte, and the assembler holds nothing afterwards.
pub proof fn lemma_unexpected_byte_is_refused(received: Seq<u8>, byte: u8)
    requires
        is_partial_frame(received),
        !accepts(received, byte),
    ensures
        push_outcome(received, byte) == Err::<Option<Seq<u8>>, SmartAudioError>(
            SmartAudioError::UnexpetedDataForState(state_after(received), byte),
        ),
        decoded_outcome(push_outcome(received, byte)) == Err::<Option<Response>, SmartAudioError>(
            SmartAudioError::UnexpetedDataForState(state_after(received), byte),
        ),
        push_rest(received, byte) == Seq::<u8>::empty(),
{
}

/// Whatever a push ends with, a frame or an error, the assembler holds
/// nothing afterwards; and while it ends with neither, the assembler holds
/// the beginning of a frame.
pub proof fn lemma_push_keeps_partial_frame(received: Seq<u8>, byte: u8)
    requires
        is_partial_frame(received),
    ensures
        is_partial_frame(push_rest(received, byte)),
        push_outcome(received, byte) != Ok::<Option<Seq<u8>>, SmartAudioError>(None)
            ==> push_rest(received, byte) == Seq::<u8>::empty(),
{
}

/// A scan that begins with the last `frame.len() - k` bytes of a valid
/// frame, in an assembler that holds the first `k`, stops at the end of the
/// frame with the frame's response.
proof fn lemma_scan_rest_of_frame(frame: Seq<u8>, input: Seq<u8>, k: int)
    requires
        is_valid_frame(frame),
        0 <= k < frame.len(),
        frame.skip(k).is_prefix_of(input),
    ensures
        scan(frame.take(k), input) == (Scan {
            consumed: (frame.len() - k) as nat,
            received: Seq::empty(),
            item: Some(parsed(frame)),
        }),
    decreases frame.len() - k,
{
    lemma_valid_frame_is_assembled(frame, k);
    assert(input[0] == frame.skip(k)[0]);
    if k < frame.len() - 1 {
        assert(frame.skip(k + 1).is_prefix_of(input.skip(1))) by {
            assert forall|i: int| 0 <= i < frame.skip(k + 1).len() implies frame.skip(k + 1)[i]
                == input.skip(1)[i] by {
                assert(frame.skip(k)[i + 1] == input[i + 1]);
            }
        }
        lemma_scan_rest_of_frame(frame, input.skip(1), k + 1);
    }
}

/// A scan of bytes that begin with a valid frame, in an assembler that holds
/// nothing, takes exactly the frame, yields its response and leaves the
/// assembler holding nothing: frames that follow one another come out one by
/// one, in their order.
pub proof fn lemma_scan_takes_one_frame(frame: Seq<u8>, input: Seq<u8>)
    requires
        is_valid_frame(frame),
        frame.is_prefix_of(input),
    ensures
        scan(Seq::empty(), input) == (Scan {
            consumed: frame.len(),
            received: Seq::empty(),
            item: Some(parsed(frame)),
        }),
{
    assert(frame.skip(0) == frame);
    assert(frame.take(0) == Seq::<u8>::empty());
    lemma_scan_rest_of_frame(frame, input, 0);
}

/// After a refused byte the assembler takes a valid frame as one that has
/// seen no byte before does.
pub proof fn lemma_recovers_after_unexpected_byte(received: Seq<u8>, byte: u8, frame: Seq<u8>)
    requires
        is_partial_frame(received),
        !accepts(received, byte),
        is_valid_frame(frame),
    ensures
        scan(push_rest(received, byte), frame) == (Scan {
            consumed: frame.len(),
            received: Seq::empty(),
            item: Some(parsed(frame)),
        }),
{
    lemma_scan_takes_one_frame(frame, frame);
}

/// After a wrong checksum the assembler takes a valid frame as one that has
/// seen no byte before does.
pub proof fn lemma_recovers_after_wrong_checksum(damaged: Seq<u8>, byte: u8, frame: Seq<u8>)
    requires
        is_valid_frame(damaged),
        byte != damaged.last(),
        is_valid_frame(frame),
    ensures
        scan(push_rest(damaged.drop_last(), byte), frame) == (Scan {
            consumed: frame.len(),
            received: Seq::empty(),
            item: Some(parsed(frame)),
        }),
{
    lemma_wrong_checksum_is_refused(damaged, byte);
    lemma_scan_takes_one_frame(frame, frame);
}

/// A scan takes no more bytes than there are. One that stops with a
/// response or an error has taken at least one byte and leaves the assembler
/// holding nothing; one that stops with neither has taken all bytes.
pub proof fn lemma_scan_bounds(received: Seq<u8>, input: Seq<u8>)
    ensures
        scan(received, input).consumed <= input.len(),
        scan(received, input).item is Some ==> scan(received, input).consumed >= 1 && scan(
            received,
            input,
        ).received == Seq::<u8>::empty(),
        scan(received, input).item is None ==> scan(received, input).consumed == input.len()
            && scan(received, input).received == push_all(received, input),
    decreases input.len(),
{
    if input.len() > 0 {
        let rest = push_rest(received, input[0]);
        lemma_scan_bounds(rest, input.skip(1));
        if scan(received, input).item is None {
            lemma_push_all_from_front(received, input);
        }
    }
}

/// Pushing a run of bytes is pushing its first byte and then the others.
pub proof fn lemma_push_all_from_front(received: Seq<u8>, bytes: Seq<u8>)
    requires
        bytes.len() > 0,
    ensures
        push_all(received, bytes) == push_all(push_rest(received, bytes[0]), bytes.skip(1)),
    decreases bytes.len(),
{
    if bytes.len() == 1 {
        assert(bytes.drop_last() == Seq::<u8>::empty());
        assert(bytes.skip(1) == Seq::<u8>::empty());
        assert(push_all(received, bytes.drop_last()) == received);
    } else {
        lemma_push_all_from_front(received, bytes.drop_last());
        assert(bytes.drop_last().skip(1) == bytes.skip(1).drop_last());
        assert(bytes.drop_last()[0] == bytes[0]);
        assert(bytes.skip(1).last() == bytes.last());
    }
}

/// The frame of a command begins with the header, names the command and
/// the size of the payload, holds the payload and ends with the checksum over
/// all that comes before it.
pub proof fn lemma_command_frame_layout(command: u8, payload: Seq<u8>)
    requires
        payload.len() <= 255,
    ensures
        ({
            let frame = command_frame(command, payload);
            &&& frame.len() == payload.len() + 5
            &&& frame[0] == HEADER_BYTE_1
            &&& frame[1] == HEADER_BYTE_2
            &&& frame[2] == command
            &&& frame[3] == payload.len()
            &&& frame.subrange(4, frame.len() - 1) == payload
            &&& payload_of(frame) == payload
            &&& frame.last() == crc8(frame.drop_last())
        }),
{
    let head = seq![HEADER_BYTE_1, HEADER_BYTE_2, command, payload.len() as u8];
    let frame = command_frame(command, payload);
    assert(frame.drop_last() == head + payload);
    assert(frame.subrange(4, frame.len() - 1) == payload);
}

/// Each flag of a mode byte is the flag that the byte was made of.
pub proof fn lemma_mode_byte_holds_flags(
    pitmode_in_range_active: bool,
    pitmode_out_range_active: bool,
    pitmode_enabled: bool,
    unlocked: bool,
)
    ensures
        ({
            let mode = mode_byte(
                pitmode_in_range_active,
                pitmode_out_range_active,
                pitmode_enabled,
                unlocked,
            );
            &&& has_flag(mode, mode_flags::PITMODE_IN_RANGE) == pitmode_in_range_active
            &&& has_flag(mode, mode_flags::PITMODE_OUT_RANGE) == pitmode_out_range_active
            &&& has_flag(mode, mode_flags::PITMODE_ENABLED) == pitmode_enabled
            &&& has_flag(mode, mode_flags::UNLOCKED) == unlocked
        }),
{
    let a: u8 = flag_bits(pitmode_in_range_active, mode_flags::PITMODE_IN_RANGE);
    let b: u8 = flag_bits(pitmode_out_range_active, mode_flags::PITMODE_OUT_RANGE);
    let c: u8 = flag_bits(pitmode_enabled, mode_flags::PITMODE_ENABLED);
    let d: u8 = flag_bits(unlocked, mode_flags::UNLOCKED);
    assert({
        &&& ((a | b | c | d) & 0x01 != 0) == (a != 0)
        &&& ((a | b | c | d) & 0x02 != 0) == (b != 0)
        &&& ((a | b | c | d) & 0x04 != 0) == (c != 0)
        &&& ((a | b | c | d) & 0x08 != 0) == (d != 0)
    }) by (bit_vector)
        requires
            a == 0 || a == 0x01,
            b == 0 || b == 0x02,
            c == 0 || c == 0x04,
            d == 0 || d == 0x08,
    ;
}

/// The flags that a set-mode response reads from the frame of a set-mode
/// command are the flags of the command.
pub proof fn lemma_set_mode_round_trip(command: SetModeCommand)
    ensures
        ({
            let frame = command_frame(command.code(), command.payload());
            SetModeResponse::decoded(frame[2], payload_of(frame)) == (SetModeResponse {
                pitmode_in_range_active: command.pitmode_in_range_active,
                pitmode_out_range_active: command.pitmode_out_range_active,
                pitmode_enabled: command.pitmode_enabled,
                unlocked: command.unlocked,
            })
        }),
{
    lemma_command_frame_layout(command.code(), command.payload());
    lemma_mode_byte_holds_flags(
        command.pitmode_in_range_active,
        command.pitmode_out_range_active,
        command.pitmode_enabled,
        command.unlocked,
    );
}

/// The channel that a set-channel response reads from the frame of a
/// set-channel command is the channel of the command.
pub proof fn lemma_set_channel_round_trip(command: SetChannelCommand)
    ensures
        ({
            let frame = command_frame(command.code(), command.payload());
            SetChannelResponse::decoded(frame[2], payload_of(frame)) == (SetChannelResponse {
                channel: command.channel,
            })
        }),
{
    lemma_command_frame_layout(command.code(), command.payload());
}

/// The frequency that a set-frequency response reads from the frame of a
/// set-frequency command is the frequency of the command.
pub proof fn lemma_set_frequency_round_trip(command: SetFrequencyCommand)
    ensures
        ({
            let frame = command_frame(command.code(), command.payload());
            SetFrequencyResponse::decoded(frame[2], payload_of(frame)) == (SetFrequencyResponse {
                frequency: command.frequency,
            })
        }),
{
    lemma_command_frame_layout(command.code(), command.payload());
}

/// The power that a set-power response reads from the frame of a set-power
/// command is the payload byte of the command: a level as it is, and a value
/// in dBm below 128 with the top bit on top of it.
pub proof fn lemma_set_power_round_trip(command: SetPowerCommand)
    ensures
        ({
            let frame = command_frame(command.code(), command.payload());
            let response = SetPowerResponse::decoded(frame[2], payload_of(frame));
            &&& response.power == power_byte(command.power)
            &&& command.power matches Power::Level(level) ==> response.power == level
            &&& command.power matches Power::dBm(dbm) ==> {
                &&& response.power & POWER_IN_DBM != 0
                &&& dbm < 128 ==> response.power - POWER_IN_DBM == dbm
            }
        }),
{
    lemma_command_frame_layout(command.code(), command.payload());
    match command.power {
        Power::Level(_) => {},
        Power::dBm(dbm) => {
            assert((dbm | 0x80) & 0x80 != 0) by (bit_vector);
            assert(dbm < 128 ==> (dbm | 0x80) - 0x80 == dbm) by (bit_vector);
        },
    }
}

} // verus!
