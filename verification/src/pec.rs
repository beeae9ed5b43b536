//! The packet-error-code engine: the CRC-8 checksum that every bus
//! transaction carries, computed over the address-framed bytes.

use vstd::prelude::*;

verus! {

/// One step of the CRC-8 long division: shift the remainder left by one bit
/// and fold in the polynomial x^8 + x^2 + x + 1 (0x07) when a one bit falls
/// out at the top.
pub open spec fn crc8_step(crc: u8) -> u8 {
    if crc & 0x80 != 0 {
        (crc << 1) ^ 0x07
    } else {
        crc << 1
    }
}

/// `crc8_step` applied `n` times.
pub open spec fn crc8_steps(crc: u8, n: nat) -> u8
    decreases n,
{
    if n == 0 {
        crc
    } else {
        crc8_step(crc8_steps(crc, (n - 1) as nat))
    }
}

/// The CRC-8 remainder of a byte sequence: polynomial 0x07, initial
/// remainder 0, bytes processed in order and most-significant bit first,
/// no reflection. This is the SMBus packet error code.
pub open spec fn crc8_spec(bytes: Seq<u8>) -> u8
    decreases bytes.len(),
{
    if bytes.len() == 0 {
        0
    } else {
        crc8_steps(crc8_spec(bytes.drop_last()) ^ bytes.last(), 8)
    }
}

/// Compute the SMBus packet error code of `data`.
pub fn crc8(data: &[u8]) -> (crc: u8)
    ensures
        crc == crc8_spec(data@),
{
    let mut crc: u8 = 0;
    let n: usize = data.len();
    let mut i: usize = 0;
    while i < n
        invariant
            i <= n,
            n == data@.len(),
            crc == crc8_spec(data@.take(i as int)),
        decreases n - i,
    {
        let mut rem: u8 = crc ^ data[i];
        let ghost rem_in = rem;
        let mut round: usize = 0;
        while round < 8
            invariant
                round <= 8,
                rem == crc8_steps(rem_in, round as nat),
            decreases 8 - round,
        {
            rem = if rem & 0x80 != 0 { (rem << 1) ^ 0x07 } else { rem << 1 };
            round += 1;
        }
        proof {
            assert(data@.take(i + 1).drop_last() =~= data@.take(i as int));
        }
        crc = rem;
        i += 1;
    }
    proof {
        assert(data@.take(n as int) =~= data@);
    }
    crc
}

} // verus!
