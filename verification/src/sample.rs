//! The common sample representation: signed 16-bit PCM, and the integer
//! conversions into and out of it.

use vstd::prelude::*;

verus! {

/// Largest magnitude that a sample may carry without clipping.
pub const SAMPLE_MAX: i16 = 32767;

/// Midpoint of the unsigned 16-bit representation: the unsigned value that
/// stands for silence.
pub const U16_MIDPOINT: u16 = 32768;

/// The 16-bit sample nearest to `v`.
pub open spec fn saturate(v: int) -> i16 {
    if v > 32767 {
        32767i16
    } else if v < -32768 {
        -32768i16
    } else {
        v as i16
    }
}

/// Magnitude of a sample, as a mathematical integer (so that the most
/// negative sample has magnitude 32768).
pub open spec fn magnitude(s: i16) -> int {
    if s < 0 {
        -(s as int)
    } else {
        s as int
    }
}

/// Sign of an integer: -1, 0 or 1.
pub open spec fn sign_of(v: int) -> int {
    if v < 0 {
        -1
    } else if v == 0 {
        0
    } else {
        1
    }
}

/// The signed sample that an unsigned 16-bit sample stands for.
pub open spec fn unsigned_to_signed(s: u16) -> i16 {
    (s as int - 32768) as i16
}

/// The unsigned 16-bit sample that stands for a signed one.
pub open spec fn signed_to_unsigned(s: i16) -> u16 {
    (s as int + 32768) as u16
}

/// Sum of two samples, held to the 16-bit range instead of wrapping.
pub fn saturating_sum(a: i16, b: i16) -> (r: i16)
    ensures
        r == saturate(a as int + b as int),
{
    let wide: i32 = a as i32 + b as i32;
    if wide > 32767 {
        32767
    } else if wide < -32768 {
        -32768
    } else {
        wide as i16
    }
}

/// Magnitude of a sample, computed without overflow.
pub fn sample_magnitude(s: i16) -> (m: u32)
    ensures
        m as int == magnitude(s),
        m <= 32768,
{
    let wide: i32 = s as i32;
    if wide < 0 {
        (-wide) as u32
    } else {
        wide as u32
    }
}

/// Converts one unsigned 16-bit sample by subtracting the midpoint.
pub fn pcm_from_u16(s: u16) -> (r: i16)
    ensures
        r == unsigned_to_signed(s),
        r as int == s as int - 32768,
{
    let wide: i32 = s as i32 - 32768;
    wide as i16
}

/// Converts one signed sample back to the unsigned 16-bit representation.
pub fn pcm_to_u16(s: i16) -> (r: u16)
    ensures
        r == signed_to_unsigned(s),
        r as int == s as int + 32768,
{
    let wide: i32 = s as i32 + 32768;
    wide as u16
}

/// Converts a delivery of unsigned 16-bit samples, one for one.
pub fn convert_u16_buffer(data: &Vec<u16>) -> (out: Vec<i16>)
    ensures
        out@.len() == data@.len(),
        forall|i: int| 0 <= i < data@.len() ==> out@[i] == unsigned_to_signed(#[trigger] data@[i]),
{
    let mut out: Vec<i16> = Vec::with_capacity(data.len());
    let mut i: usize = 0;
    while i < data.len()
        invariant
            i <= data@.len(),
            out@.len() == i,
            forall|k: int| 0 <= k < i ==> out@[k] == unsigned_to_signed(#[trigger] data@[k]),
        decreases data@.len() - i,
    {
        out.push(pcm_from_u16(data[i]));
        i += 1;
    }
    out
}

/// Converting an unsigned sample and converting it back gives the sample
/// again, and the signed sample is non-negative exactly when the unsigned
/// one is at or above the midpoint.
pub proof fn lemma_u16_round_trip(s: u16)
    ensures
        signed_to_unsigned(unsigned_to_signed(s)) == s,
        unsigned_to_signed(s) >= 0 <==> s >= 32768,
        sign_of(unsigned_to_signed(s) as int) == sign_of(s as int - 32768),
{
}

/// Converting a signed sample to the unsigned representation and back
/// gives the sample again.
pub proof fn lemma_i16_round_trip(s: i16)
    ensures
        unsigned_to_signed(signed_to_unsigned(s)) == s,
{
}

} // verus!
