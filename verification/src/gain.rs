//! Scaling of samples by a rational gain, with rounding to the nearest
//! sample value.

use vstd::prelude::*;
use crate::sample::{magnitude, saturate, sign_of};

verus! {

/// A gain as a ratio of two whole numbers.
#[derive(Clone, Copy, Debug)]
pub struct Gain {
    pub numerator: u32,
    pub denominator: u32,
}

/// Numerator of the gain applied to every source but the primary one.
pub const SECONDARY_GAIN_NUMERATOR: u32 = 1;

/// Denominator of the gain applied to every source but the primary one.
pub const SECONDARY_GAIN_DENOMINATOR: u32 = 10;

impl Gain {
    /// A gain is usable when its denominator is not zero.
    pub open spec fn wf(&self) -> bool {
        self.denominator > 0
    }

    /// One tenth of the amplitude.
    pub open spec fn secondary_default_spec() -> Gain {
        Gain { numerator: 1, denominator: 10 }
    }

    /// The gain that secondary sources get unless another is chosen: one
    /// tenth of the amplitude.
    pub fn secondary_default() -> (g: Gain)
        ensures
            g == Gain::secondary_default_spec(),
            g.wf(),
    {
        Gain { numerator: SECONDARY_GAIN_NUMERATOR, denominator: SECONDARY_GAIN_DENOMINATOR }
    }
}

/// The integer nearest to `n / d`, halves rounded away from zero.
pub open spec fn round_div(n: int, d: int) -> int
    recommends
        d > 0,
{
    if n >= 0 {
        (2 * n + d) / (2 * d)
    } else {
        -((2 * (-n) + d) / (2 * d))
    }
}

/// A sample multiplied by `num / den`, rounded to the nearest integer and
/// held to the 16-bit range.
pub open spec fn scaled(s: i16, num: int, den: int) -> i16
    recommends
        den > 0,
{
    saturate(round_div(s as int * num, den))
}

/// A buffer with every sample multiplied by the gain.
pub open spec fn attenuated(buf: Seq<i16>, gain: Gain) -> Seq<i16> {
    Seq::new(buf.len(), |i: int| scaled(buf[i], gain.numerator as int, gain.denominator as int))
}

/// Rounding moves a quotient by at most one half, and keeps its sign.
pub proof fn lemma_round_div_nearest(n: int, d: int)
    requires
        d > 0,
    ensures
        -d <= 2 * (round_div(n, d) * d - n) <= d,
        n >= 0 ==> round_div(n, d) >= 0,
        n <= 0 ==> round_div(n, d) <= 0,
{
    let m = if n >= 0 {
        n
    } else {
        -n
    };
    let q = (2 * m + d) / (2 * d);
    vstd::arithmetic::div_mod::lemma_fundamental_div_mod(2 * m + d, 2 * d);
    vstd::arithmetic::div_mod::lemma_mod_bound(2 * m + d, 2 * d);
    let r = (2 * m + d) % (2 * d);
    assert(2 * m + d == (2 * d) * q + r);
    assert((2 * d) * q == 2 * (q * d)) by (nonlinear_arith);
    assert(q >= 0) by (nonlinear_arith)
        requires
            (2 * d) * q + r == 2 * m + d,
            0 <= r < 2 * d,
            m >= 0,
            d > 0,
    ;
    if n < 0 {
        assert((-q) * d == -(q * d)) by (nonlinear_arith);
    }
    if n == 0 {
        assert(q == 0) by (nonlinear_arith)
            requires
                (2 * d) * q + r == d,
                0 <= r < 2 * d,
                q >= 0,
                d > 0,
        ;
    }
}

/// A scaled value stays within `bound` when the exact quotient does.
pub proof fn lemma_round_div_bound(n: int, d: int, bound: int)
    requires
        d > 0,
        bound >= 0,
        -bound * d <= n <= bound * d,
    ensures
        -bound <= round_div(n, d) <= bound,
{
    let m = if n >= 0 {
        n
    } else {
        -n
    };
    let q = (2 * m + d) / (2 * d);
    vstd::arithmetic::div_mod::lemma_fundamental_div_mod(2 * m + d, 2 * d);
    vstd::arithmetic::div_mod::lemma_mod_bound(2 * m + d, 2 * d);
    let r = (2 * m + d) % (2 * d);
    assert((-bound) * d == -(bound * d)) by (nonlinear_arith);
    assert(0 <= q <= bound) by (nonlinear_arith)
        requires
            (2 * d) * q + r == 2 * m + d,
            0 <= r < 2 * d,
            0 <= m <= bound * d,
            d > 0,
            bound >= 0,
    ;
}

/// Scaling by a gain of at most one never raises a sample's magnitude, and
/// never changes its sign to the opposite one.
pub proof fn lemma_attenuation_shrinks(s: i16, num: int, den: int)
    requires
        den > 0,
        0 <= num <= den,
    ensures
        magnitude(scaled(s, num, den)) <= magnitude(s),
        sign_of(scaled(s, num, den) as int) == 0 || sign_of(scaled(s, num, den) as int) == sign_of(
            s as int,
        ),
{
    let n = s as int * num;
    let b = magnitude(s);
    assert(-b * den <= n <= b * den) by (nonlinear_arith)
        requires
            n == s as int * num,
            b == magnitude(s),
            -b <= s as int <= b,
            0 <= num <= den,
    ;
    lemma_round_div_bound(n, den, b);
    lemma_round_div_nearest(n, den);
    if s >= 0 {
        assert(n >= 0) by (nonlinear_arith)
            requires
                n == s as int * num,
                s >= 0,
                num >= 0,
        ;
    } else {
        assert(n <= 0) by (nonlinear_arith)
            requires
                n == s as int * num,
                s < 0,
                num >= 0,
        ;
    }
}

/// Multiplies one sample by `num / den`, rounding to the nearest integer
/// (halves away from zero) and holding the result to the 16-bit range.
pub fn scale_sample(s: i16, num: u32, den: u32) -> (r: i16)
    requires
        den > 0,
    ensures
        r == scaled(s, num as int, den as int),
{
    let wide: i64 = s as i64;
    let factor: i64 = num as i64;
    assert(-140737488355328 <= wide * factor <= 140737488355328) by (nonlinear_arith)
        requires
            -32768 <= wide <= 32767,
            0 <= factor <= 4294967295,
    ;
    let n: i64 = wide * factor;
    let d: i64 = den as i64;
    let q: i64 = if n >= 0 {
        (2 * n + d) / (2 * d)
    } else {
        -((2 * (-n) + d) / (2 * d))
    };
    proof {
        let m: int = if n >= 0 {
            n as int
        } else {
            -(n as int)
        };
        assert(0 <= (2 * m + d) / (2 * d) <= 2 * m + d) by (nonlinear_arith)
            requires
                m >= 0,
                d > 0,
        ;
    }
    if q > 32767 {
        32767
    } else if q < -32768 {
        -32768
    } else {
        q as i16
    }
}

/// Multiplies every sample of a buffer by the gain.
pub fn attenuate(buf: &Vec<i16>, gain: Gain) -> (out: Vec<i16>)
    requires
        gain.wf(),
    ensures
        out@ == attenuated(buf@, gain),
{
    let mut out: Vec<i16> = Vec::with_capacity(buf.len());
    let mut i: usize = 0;
    while i < buf.len()
        invariant
            gain.wf(),
            i <= buf@.len(),
            out@.len() == i,
            forall|k: int|
                0 <= k < i ==> #[trigger] out@[k] == scaled(
                    buf@[k],
                    gain.numerator as int,
                    gain.denominator as int,
                ),
        decreases buf@.len() - i,
    {
        out.push(scale_sample(buf[i], gain.numerator, gain.denominator));
        i += 1;
    }
    assert(out@ =~= attenuated(buf@, gain));
    out
}

} // verus!
