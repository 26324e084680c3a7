//! CRC-16-CCITT checksums (polynomial 0x1021, initial register 0xFFFF,
//! MSB-first, no final XOR), used for packet integrity.

use vstd::prelude::*;

verus! {

/// One shift of the CRC register: multiply by x and reduce by the
/// polynomial when the high bit falls out.
pub open spec fn crc_shift(crc: u16) -> u16 {
    if crc & 0x8000 != 0 {
        (crc << 1) ^ 0x1021
    } else {
        crc << 1
    }
}

/// `n` successive shifts of the CRC register.
pub open spec fn crc_shift_n(crc: u16, n: nat) -> u16
    decreases n,
{
    if n == 0 {
        crc
    } else {
        crc_shift_n(crc_shift(crc), (n - 1) as nat)
    }
}

/// Folding one input byte into the CRC register.
pub open spec fn crc_byte(crc: u16, byte: u8) -> u16 {
    crc_shift_n(crc ^ ((byte as u16) << 8), 8)
}

/// The CRC register after folding all of `data` into `crc`.
pub open spec fn crc16_from(crc: u16, data: Seq<u8>) -> u16
    decreases data.len(),
{
    if data.len() == 0 {
        crc
    } else {
        crc16_from(crc_byte(crc, data[0]), data.skip(1))
    }
}

/// The CRC-16-CCITT checksum of `data`.
pub open spec fn crc16(data: Seq<u8>) -> u16 {
    crc16_from(0xFFFF, data)
}

/// Computes the CRC-16-CCITT checksum of `data`.
pub fn calculate_checksum(data: &[u8]) -> (r: u16)
    ensures
        r == crc16(data@),
{
    let mut crc: u16 = 0xFFFF;
    let mut i: usize = 0;
    proof {
        assert(data@.skip(0) =~= data@);
    }
    while i < data.len()
        invariant
            i <= data@.len(),
            crc16_from(crc, data@.skip(i as int)) == crc16(data@),
        decreases data@.len() - i,
    {
        proof {
            assert(data@.skip(i as int)[0] == data@[i as int]);
            assert(data@.skip(i as int).skip(1) =~= data@.skip(i as int + 1));
        }
        crc = crc ^ ((data[i] as u16) << 8u16);
        let ghost target = crc_shift_n(crc, 8);
        let mut j: usize = 0;
        while j < 8
            invariant
                j <= 8,
                crc_shift_n(crc, (8 - j) as nat) == target,
            decreases 8 - j,
        {
            if (crc & 0x8000) != 0 {
                crc = (crc << 1u16) ^ 0x1021;
            } else {
                crc = crc << 1u16;
            }
            j = j + 1;
        }
        i = i + 1;
    }
    crc
}

/// Checks `data` against an expected CRC-16-CCITT checksum.
pub fn verify_checksum(data: &[u8], checksum: u16) -> (r: bool)
    ensures
        r == (crc16(data@) == checksum),
{
    calculate_checksum(data) == checksum
}

} // verus!
