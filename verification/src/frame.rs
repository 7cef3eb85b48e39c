//! A delivery of native samples, and its conversion to 16-bit PCM.

use vstd::prelude::*;
use crate::float32::{convert_f32_buffer, float_to_pcm};
use crate::sample::{convert_u16_buffer, unsigned_to_signed};

verus! {

/// Samples as a device delivers them.
pub enum NativeSamples {
    /// Signed 16-bit integers.
    I16(Vec<i16>),
    /// Unsigned 16-bit integers.
    U16(Vec<u16>),
    /// 32-bit floats, each given by its bit pattern.
    F32(Vec<u32>),
}

/// One delivery of a producer: the samples with the channel count and the
/// sample rate they were captured at.
pub struct RawFrame {
    pub samples: NativeSamples,
    pub channels: u16,
    pub sample_rate: u32,
}

/// The 16-bit samples that a delivery converts to: signed samples as they
/// are, unsigned ones less the midpoint, floats held to [-1, 1] and scaled
/// by 32767.
pub open spec fn pcm_of(samples: NativeSamples) -> Seq<i16> {
    match samples {
        NativeSamples::I16(data) => data@,
        NativeSamples::U16(data) => Seq::new(data@.len(), |i: int| unsigned_to_signed(data@[i])),
        NativeSamples::F32(data) => Seq::new(data@.len(), |i: int| float_to_pcm(data@[i])),
    }
}

/// Converts a delivery to 16-bit PCM, one sample for one.
pub fn normalize_frame(frame: RawFrame) -> (out: Vec<i16>)
    ensures
        out@ == pcm_of(frame.samples),
{
    match frame.samples {
        NativeSamples::I16(data) => data,
        NativeSamples::U16(data) => {
            let out: Vec<i16> = convert_u16_buffer(&data);
            assert(out@ =~= Seq::new(data@.len(), |i: int| unsigned_to_signed(data@[i])));
            out
        },
        NativeSamples::F32(data) => {
            let out: Vec<i16> = convert_f32_buffer(&data);
            assert(out@ =~= Seq::new(data@.len(), |i: int| float_to_pcm(data@[i])));
            out
        },
    }
}

} // verus!
