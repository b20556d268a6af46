//! CRC-8/DVB-S2: polynomial 0xD5, most significant bit first, no reflection,
//! initial value 0.
use vstd::prelude::*;

verus! {

/// The generator polynomial, without its leading term.
pub const POLYNOMIAL: u8 = 0xD5;

/// One shift of the checksum register: the register moves left by one bit and
/// the polynomial is folded in when the bit shifted out was set.
pub open spec fn crc8_shift(crc: u8) -> u8 {
    if crc & 0x80 != 0 {
        (crc << 1) ^ POLYNOMIAL
    } else {
        crc << 1
    }
}

/// The register after `rounds` shifts.
pub open spec fn crc8_shifts(crc: u8, rounds: nat) -> u8
    decreases rounds,
{
    if rounds == 0 {
        crc
    } else {
        crc8_shift(crc8_shifts(crc, (rounds - 1) as nat))
    }
}

/// The register after one input byte has been absorbed.
pub open spec fn crc8_absorb(crc: u8, byte: u8) -> u8 {
    crc8_shifts(crc ^ byte, 8)
}

/// The checksum of a byte sequence.
pub open spec fn crc8(data: Seq<u8>) -> u8
    decreases data.len(),
{
    if data.len() == 0 {
        0
    } else {
        crc8_absorb(crc8(data.drop_last()), data.last())
    }
}

/// Computes the checksum of `data`.
pub fn crc8_dvb_s2(data: &[u8]) -> (crc: u8)
    ensures
        crc == crc8(data@),
{
    let mut crc: u8 = 0;
    let mut i: usize = 0;
    while i < data.len()
        invariant
            i <= data.len(),
            crc == crc8(data@.take(i as int)),
        decreases data.len() - i,
    {
        let ghost before = crc;
        crc = crc ^ data[i];
        let mut round: u8 = 0;
        while round < 8
            invariant
                round <= 8,
                crc == crc8_shifts(before ^ data@[i as int], round as nat),
            decreases 8 - round,
        {
            if crc & 0x80 != 0 {
                crc = (crc << 1) ^ POLYNOMIAL;
            } else {
                crc = crc << 1;
            }
            round = round + 1;
        }
        proof {
            assert(data@.take(i + 1).drop_last() == data@.take(i as int));
        }
        i = i + 1;
    }
    proof {
        assert(data@.take(i as int) == data@);
    }
    crc
}

} // verus!
