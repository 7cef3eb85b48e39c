//! Conversion of 32-bit floating-point samples, given by their bit
//! patterns, to 16-bit PCM: the value is held to [-1, 1], multiplied by
//! 32767 and rounded to the nearest integer, halves away from zero. The
//! arithmetic is exact: it is done on the fields of the bit pattern.

use vstd::prelude::*;
use vstd::arithmetic::power2::{lemma_pow2_pos, lemma_pow2_strictly_increases, lemma_pow2_unfold, pow2};
use crate::gain::{lemma_round_div_bound, lemma_round_div_nearest, round_div};

verus! {

/// The sign field of a bit pattern: 1 for a negative value.
pub open spec fn sign_field(bits: u32) -> int {
    bits as int / 0x8000_0000
}

/// The exponent field of a bit pattern.
pub open spec fn exponent_field(bits: u32) -> int {
    (bits as int / 0x80_0000) % 256
}

/// The fraction field of a bit pattern.
pub open spec fn fraction_field(bits: u32) -> int {
    bits as int % 0x80_0000
}

/// The pattern is not a number.
pub open spec fn is_nan(bits: u32) -> bool {
    exponent_field(bits) == 255 && fraction_field(bits) != 0
}

/// The significand of a pattern whose magnitude is below one: the value's
/// magnitude is `significand / 2^scale_exponent`.
pub open spec fn significand(bits: u32) -> int {
    if exponent_field(bits) == 0 {
        fraction_field(bits)
    } else {
        fraction_field(bits) + 0x80_0000
    }
}

/// The power of two that divides the significand.
pub open spec fn scale_exponent(bits: u32) -> nat {
    if exponent_field(bits) == 0 {
        149
    } else {
        (150 - exponent_field(bits)) as nat
    }
}

/// The magnitude of the sample that a pattern converts to.
pub open spec fn pcm_magnitude(bits: u32) -> int {
    if exponent_field(bits) >= 127 {
        32767
    } else {
        round_div(significand(bits) * 32767, pow2(scale_exponent(bits)) as int)
    }
}

/// The sample that a pattern converts to. A pattern that is not a number
/// converts as -1 does.
pub open spec fn float_to_pcm(bits: u32) -> i16 {
    if is_nan(bits) {
        -32767i16
    } else if sign_field(bits) == 1 {
        (-pcm_magnitude(bits)) as i16
    } else {
        pcm_magnitude(bits) as i16
    }
}

/// The converted magnitude is the integer nearest to the value's
/// magnitude times 32767, and never exceeds 32767.
pub proof fn lemma_float_conversion_nearest(bits: u32)
    requires
        exponent_field(bits) < 127,
    ensures
        ({
            let d = pow2(scale_exponent(bits)) as int;
            let n = significand(bits) * 32767;
            &&& d > 0
            &&& 0 <= pcm_magnitude(bits) <= 32767
            &&& -d <= 2 * (pcm_magnitude(bits) * d - n) <= d
        }),
{
    let k = scale_exponent(bits);
    let d = pow2(k) as int;
    let m = significand(bits);
    lemma_pow2_pos(k);
    assert(0 <= m < 0x100_0000);
    assert(k >= 24);
    if k > 24 {
        lemma_pow2_strictly_increases(24, k);
    }
    assert(pow2(24) == 0x100_0000) by {
        vstd::arithmetic::power2::lemma2_to64();
    }
    assert(m <= d);
    assert(-32767 * d <= m * 32767 <= 32767 * d) by (nonlinear_arith)
        requires
            0 <= m <= d,
    ;
    lemma_round_div_bound(m * 32767, d, 32767);
    lemma_round_div_nearest(m * 32767, d);
    assert(m * 32767 >= 0) by (nonlinear_arith)
        requires
            m >= 0,
    ;
}

/// Conversion keeps the sign: a pattern with the sign bit set never gives
/// a positive sample, one without it never a negative one.
pub proof fn lemma_float_conversion_sign(bits: u32)
    requires
        !is_nan(bits),
    ensures
        sign_field(bits) == 1 ==> float_to_pcm(bits) <= 0,
        sign_field(bits) == 0 ==> float_to_pcm(bits) >= 0,
        -32767 <= float_to_pcm(bits) <= 32767,
{
    if exponent_field(bits) < 127 {
        lemma_float_conversion_nearest(bits);
    }
}

/// Two to the power `k`, for `k` up to 40.
fn power_of_two(k: u32) -> (d: u64)
    requires
        k <= 40,
    ensures
        d as nat == pow2(k as nat),
        0 < d <= 0x100_0000_0000,
{
    let mut d: u64 = 1;
    let mut i: u32 = 0;
    proof {
        vstd::arithmetic::power2::lemma2_to64();
        vstd::arithmetic::power2::lemma2_to64_rest();
    }
    while i < k
        invariant
            i <= k <= 40,
            d as nat == pow2(i as nat),
            0 < d,
            pow2(40) == 0x100_0000_0000,
        decreases k - i,
    {
        proof {
            lemma_pow2_unfold((i + 1) as nat);
            if i + 1 < 40 {
                lemma_pow2_strictly_increases((i + 1) as nat, 40);
            }
        }
        d = d * 2;
        i += 1;
    }
    proof {
        if k < 40 {
            lemma_pow2_strictly_increases(k as nat, 40);
        }
    }
    d
}

/// Converts one 32-bit floating-point sample, given by its bit pattern.
pub fn pcm_from_f32_bits(bits: u32) -> (r: i16)
    ensures
        r == float_to_pcm(bits),
{
    let sign: u32 = bits / 0x8000_0000;
    let exponent: u32 = (bits / 0x80_0000) % 256;
    let fraction: u32 = bits % 0x80_0000;
    if exponent == 255 && fraction != 0 {
        return -32767;
    }
    let magnitude: i32 = if exponent >= 127 {
        32767
    } else {
        let m: u64 = if exponent == 0 {
            fraction as u64
        } else {
            fraction as u64 + 0x80_0000
        };
        let k: u32 = if exponent == 0 {
            149
        } else {
            150 - exponent
        };
        let n: u64 = m * 32767;
        proof {
            lemma_float_conversion_nearest(bits);
        }
        if k > 40 {
            proof {
                lemma_pow2_strictly_increases(40, k as nat);
                vstd::arithmetic::power2::lemma2_to64_rest();
                let d = pow2(k as nat) as int;
                assert(pow2(40) == 0x100_0000_0000);
                assert((2 * (n as int) + d) / (2 * d) == 0) by (nonlinear_arith)
                    requires
                        0 <= n as int,
                        2 * (n as int) < d,
                ;
            }
            0
        } else {
            let d: u64 = power_of_two(k);
            let q: u64 = (2 * n + d) / (2 * d);
            q as i32
        }
    };
    assert(sign == 0 || sign == 1);
    if sign == 1 {
        (-magnitude) as i16
    } else {
        magnitude as i16
    }
}

/// Converts a delivery of 32-bit floating-point samples, one for one.
pub fn convert_f32_buffer(data: &Vec<u32>) -> (out: Vec<i16>)
    ensures
        out@.len() == data@.len(),
        forall|i: int| 0 <= i < data@.len() ==> out@[i] == float_to_pcm(#[trigger] data@[i]),
{
    let mut out: Vec<i16> = Vec::with_capacity(data.len());
    let mut i: usize = 0;
    while i < data.len()
        invariant
            i <= data@.len(),
            out@.len() == i,
            forall|k: int| 0 <= k < i ==> out@[k] == float_to_pcm(#[trigger] data@[k]),
        decreases data@.len() - i,
    {
        out.push(pcm_from_f32_bits(data[i]));
        i += 1;
    }
    out
}

} // verus!
