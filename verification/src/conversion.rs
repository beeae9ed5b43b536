//! The unit converter: pure functions from raw 16-bit register words to
//! integer temperatures and multi-word device identifiers, and the
//! rounding model of the emissivity encoding.

use vstd::prelude::*;

use vstd::arithmetic::div_mod::lemma_fundamental_div_mod;

verus! {

/// The integer degrees-Celsius approximation of a raw temperature word.
///
/// The exact conversion is `raw * 0.02 - 273.15` degrees; this integer
/// approximation computes `raw * 2 / 100 - 273` in 16-bit arithmetic,
/// which wraps at 2^16 on both the doubling and the subtraction, exactly
/// as the fixed-width operations do. For every physically meaningful
/// reading (`13650 <= raw <= 32767`) no wrap occurs and the result is
/// plainly `raw / 50 - 273`.
pub open spec fn celsius_as_int(raw: u16) -> int {
    let scaled = (raw * 2) % 0x10000 / 100;
    if scaled >= 273 {
        scaled - 273
    } else {
        scaled - 273 + 0x10000
    }
}

/// Convert a raw temperature word to whole degrees Celsius.
///
/// This loses precision against the exact `raw * 0.02 - 273.15`
/// conversion; it exists to avoid floating-point operations.
pub fn celsius_from_raw_as_int(raw: u16) -> (t: u16)
    ensures
        t == celsius_as_int(raw),
{
    let doubled32: u32 = (raw as u32) * 2 % 0x10000;
    let doubled: u16 = doubled32 as u16;
    let scaled: u16 = doubled / 100;
    if scaled >= 273 {
        scaled - 273
    } else {
        scaled + 65263
    }
}

/// Assemble the 16-bit word received as a little-endian byte pair.
pub fn u16_from_le_bytes(low: u8, high: u8) -> (word: u16)
    ensures
        word == low + 256 * high,
{
    let word: u16 = low as u16 | ((high as u16) << 8);
    proof {
        assert((low as u16 | ((high as u16) << 8)) == low + 256 * high) by (bit_vector);
    }
    word
}

/// Concatenate four 16-bit device-identifier words read from consecutive
/// registers, most-significant word first, into the 64-bit identifier.
pub fn device_id_from_four_words(w0: u16, w1: u16, w2: u16, w3: u16) -> (id: u64)
    ensures
        id == w0 * 0x1_0000_0000_0000 + w1 * 0x1_0000_0000 + w2 * 0x1_0000 + w3,
{
    let id: u64 = ((w0 as u64) << 48) | ((w1 as u64) << 32) | ((w2 as u64) << 16) | (w3 as u64);
    proof {
        assert(((w0 as u64) << 48) | ((w1 as u64) << 32) | ((w2 as u64) << 16) | (w3 as u64)
            == w0 * 0x1_0000_0000_0000 + w1 * 0x1_0000_0000 + w2 * 0x1_0000 + w3) by (bit_vector);
    }
    id
}

/// Concatenate two 16-bit device-identifier words read from consecutive
/// registers, most-significant word first, into the 32-bit identifier.
pub fn device_id_from_two_words(w0: u16, w1: u16) -> (id: u32)
    ensures
        id == w0 * 0x1_0000 + w1,
{
    let id: u32 = ((w0 as u32) << 16) | (w1 as u32);
    proof {
        assert(((w0 as u32) << 16) | (w1 as u32) == w0 * 0x1_0000 + w1) by (bit_vector);
    }
    id
}

/// The raw word that an emissivity ratio `num / den` encodes to on a
/// device whose full-scale word is `full_scale`: the ratio scaled by the
/// full scale and rounded to the nearest integer, halves rounding up.
pub open spec fn encode_ratio(num: int, den: int, full_scale: int) -> int
    recommends
        0 < den,
{
    (2 * num * full_scale + den) / (2 * den)
}

/// Round-trip accuracy of the emissivity encoding: encoding a ratio
/// `num / den` in `[0, 1]` and reading the encoded word straight back
/// yields a ratio within the encoding's own rounding error of the
/// original — the decoded ratio `encode_ratio(..) / full_scale` differs
/// from `num / den` by at most `1 / (2 * full_scale)`, so certainly by at
/// most `1 / full_scale`. Stated over integers: the cross products differ
/// by at most `den / 2`. The encoded word also always lies in
/// `[0, full_scale]`.
pub proof fn lemma_encode_ratio_round_trip(num: int, den: int, full_scale: int)
    requires
        0 <= num <= den,
        0 < den,
        0 < full_scale,
    ensures
        0 <= encode_ratio(num, den, full_scale) <= full_scale,
        -den < 2 * (encode_ratio(num, den, full_scale) * den - num * full_scale) <= den,
{
    let t = 2 * num * full_scale + den;
    let m = 2 * den;
    lemma_fundamental_div_mod(t, m);
    let q = t / m;
    let r = t % m;
    assert(t == m * q + r);
    assert(0 <= r < m);
    assert(2 * (q * den - num * full_scale) == den - r) by (nonlinear_arith)
        requires
            t == m * q + r,
            t == 2 * num * full_scale + den,
            m == 2 * den,
    ;
    assert(0 <= q) by (nonlinear_arith)
        requires
            t == m * q + r,
            0 <= r < m,
            m == 2 * den,
            0 < den,
            t == 2 * num * full_scale + den,
            0 <= num,
            0 < full_scale,
    ;
    assert(q <= full_scale) by (nonlinear_arith)
        requires
            t == m * q + r,
            0 <= r,
            m == 2 * den,
            0 < den,
            num <= den,
            t == 2 * num * full_scale + den,
            0 < full_scale,
    ;
}

} // verus!
