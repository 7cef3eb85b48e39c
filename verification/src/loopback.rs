//! The native loopback backend's decisions: which sample encoding the
//! system's mix format carries, and what each turn of the capture loop does.

use vstd::prelude::*;

verus! {

/// Format tag of an extensible wave format descriptor.
pub const WAVE_FORMAT_EXTENSIBLE: u16 = 0xFFFE;

/// Least size of the extension that an extensible descriptor carries.
pub const EXTENSIBLE_EXTRA_SIZE: u16 = 22;

/// Bit depth assumed where the descriptor gives none that can be trusted.
pub const FALLBACK_BITS: u16 = 16;

/// Pause of the capture loop when no frames are at hand, in milliseconds.
pub const IDLE_SLEEP_MS: u64 = 10;

/// The system's mix format, as its descriptor gives it.
#[derive(Clone, Copy, Debug, PartialEq, Eq, Structural)]
pub struct MixFormat {
    pub format_tag: u16,
    pub extra_size: u16,
    pub sample_rate: u32,
    pub channels: u16,
    /// The bit depth field of the plain descriptor.
    pub bits_per_sample: u16,
    /// The valid-bits field of the extension; read only where the
    /// descriptor is extensible.
    pub valid_bits: u16,
}

/// How the backend's samples are encoded.
#[derive(Clone, Copy, Debug, PartialEq, Eq, Structural)]
pub enum LoopbackEncoding {
    /// Signed 16-bit integers: passed through.
    Int16,
    /// 32-bit floats: clamped to [-1, 1] and scaled by 32767.
    Float32,
    /// Anything else: the buffer is dropped.
    Unsupported,
}

/// What one turn of the capture loop does.
#[derive(Clone, Copy, Debug, PartialEq, Eq, Structural)]
pub enum LoopbackStep {
    /// Cancellation was observed: stop the stream and leave the loop.
    Exit,
    /// Nothing to read: sleep, then poll again.
    Sleep,
    /// The buffer cannot be converted: release it, sleep, poll again.
    Discard,
    /// Convert this many samples of this encoding, release the buffer and
    /// deliver the chunk.
    Deliver { encoding: LoopbackEncoding, samples: u64 },
}

/// A bit depth that can be trusted: between 1 and 32.
pub open spec fn plausible_bits(bits: u16) -> bool {
    0 < bits <= 32
}

/// The bit depth that the mix format is taken to have. The plain field
/// is used where it is plausible; an extensible descriptor falls back on
/// its valid-bits field; where neither can be trusted the depth is 16.
pub open spec fn effective_bits(format: MixFormat) -> u16 {
    if plausible_bits(format.bits_per_sample) {
        format.bits_per_sample
    } else if format.format_tag == WAVE_FORMAT_EXTENSIBLE && format.extra_size
        >= EXTENSIBLE_EXTRA_SIZE && plausible_bits(format.valid_bits) {
        format.valid_bits
    } else {
        FALLBACK_BITS
    }
}

/// The encoding that goes with a bit depth.
pub open spec fn encoding_of(bits: u16) -> LoopbackEncoding {
    if bits == 16 {
        LoopbackEncoding::Int16
    } else if bits == 32 {
        LoopbackEncoding::Float32
    } else {
        LoopbackEncoding::Unsupported
    }
}

/// What a turn of the loop does, from the cancellation flag, whether a
/// buffer was handed out, the frames in it and the mix format.
pub open spec fn loopback_step_of(
    cancelled: bool,
    buffer_present: bool,
    frames: u32,
    format: MixFormat,
) -> LoopbackStep {
    if cancelled {
        LoopbackStep::Exit
    } else if !buffer_present || frames == 0 {
        LoopbackStep::Sleep
    } else if encoding_of(effective_bits(format)) == LoopbackEncoding::Unsupported {
        LoopbackStep::Discard
    } else if format.channels == 0 {
        LoopbackStep::Sleep
    } else {
        LoopbackStep::Deliver {
            encoding: encoding_of(effective_bits(format)),
            samples: (frames as int * format.channels as int) as u64,
        }
    }
}

/// The 16-bit sample that two bytes hold, low byte first.
pub open spec fn sample_from_bytes(low: u8, high: u8) -> i16 {
    let raw = low as int + 256 * high as int;
    if raw >= 32768 {
        (raw - 65536) as i16
    } else {
        raw as i16
    }
}

/// The samples that a little-endian byte buffer holds; an odd byte at the
/// end is left out.
pub open spec fn decoded_pcm16(bytes: Seq<u8>) -> Seq<i16> {
    Seq::new(
        (bytes.len() / 2) as nat,
        |i: int| sample_from_bytes(bytes[2 * i], bytes[2 * i + 1]),
    )
}

/// The bit depth that the mix format is taken to have.
pub fn effective_bits_per_sample(format: &MixFormat) -> (bits: u16)
    ensures
        bits == effective_bits(*format),
        plausible_bits(bits),
{
    let plain: u16 = format.bits_per_sample;
    if plain > 0 && plain <= 32 {
        plain
    } else if format.format_tag == WAVE_FORMAT_EXTENSIBLE && format.extra_size
        >= EXTENSIBLE_EXTRA_SIZE {
        let valid: u16 = format.valid_bits;
        if valid > 0 && valid <= 32 {
            valid
        } else {
            FALLBACK_BITS
        }
    } else {
        FALLBACK_BITS
    }
}

/// The encoding of the backend's samples under a mix format.
pub fn loopback_encoding(format: &MixFormat) -> (encoding: LoopbackEncoding)
    ensures
        encoding == encoding_of(effective_bits(*format)),
{
    let bits: u16 = effective_bits_per_sample(format);
    if bits == 16 {
        LoopbackEncoding::Int16
    } else if bits == 32 {
        LoopbackEncoding::Float32
    } else {
        LoopbackEncoding::Unsupported
    }
}

/// Decides one turn of the capture loop. The cancellation flag is looked
/// at first, once per turn.
pub fn loopback_step(cancelled: bool, buffer_present: bool, frames: u32, format: &MixFormat) -> (step:
    LoopbackStep)
    ensures
        step == loopback_step_of(cancelled, buffer_present, frames, *format),
{
    if cancelled {
        return LoopbackStep::Exit;
    }
    if !buffer_present || frames == 0 {
        return LoopbackStep::Sleep;
    }
    let encoding: LoopbackEncoding = loopback_encoding(format);
    match encoding {
        LoopbackEncoding::Unsupported => LoopbackStep::Discard,
        _ => {
            if format.channels == 0 {
                LoopbackStep::Sleep
            } else {
                assert(frames as int * format.channels as int <= 0xFFFF_FFFF * 0xFFFF)
                    by (nonlinear_arith)
                    requires
                        0 <= frames as int <= 0xFFFF_FFFF,
                        0 <= format.channels as int <= 0xFFFF,
                ;
                let samples: u64 = frames as u64 * format.channels as u64;
                LoopbackStep::Deliver { encoding, samples }
            }
        },
    }
}

/// Reads 16-bit samples from a little-endian byte buffer.
pub fn decode_pcm16(bytes: &Vec<u8>) -> (out: Vec<i16>)
    ensures
        out@ == decoded_pcm16(bytes@),
        out@.len() == bytes@.len() / 2,
{
    let count: usize = bytes.len() / 2;
    let mut out: Vec<i16> = Vec::with_capacity(count);
    let mut i: usize = 0;
    while i < count
        invariant
            count == bytes@.len() / 2,
            bytes@.len() <= usize::MAX,
            i <= count,
            out@.len() == i,
            forall|k: int|
                0 <= k < i ==> #[trigger] out@[k] == sample_from_bytes(
                    bytes@[2 * k],
                    bytes@[2 * k + 1],
                ),
        decreases count - i,
    {
        let low: i32 = bytes[2 * i] as i32;
        let high: i32 = bytes[2 * i + 1] as i32;
        let raw: i32 = low + 256 * high;
        let sample: i16 = if raw >= 32768 {
            (raw - 65536) as i16
        } else {
            raw as i16
        };
        out.push(sample);
        i += 1;
    }
    assert(out@ =~= decoded_pcm16(bytes@));
    out
}

/// Reading samples from the bytes that they were written as, low byte
/// first, gives the samples again.
pub proof fn lemma_decode_inverts_encode(samples: Seq<i16>)
    ensures
        decoded_pcm16(crate::payload::little_endian_bytes(samples)) == samples,
{
    let bytes = crate::payload::little_endian_bytes(samples);
    assert(bytes.len() == 2 * samples.len());
    assert forall|i: int| 0 <= i < samples.len() implies #[trigger] decoded_pcm16(bytes)[i]
        == samples[i] by {
        assert((2 * i) % 2 == 0 && (2 * i) / 2 == i);
        assert((2 * i + 1) % 2 == 1 && (2 * i + 1) / 2 == i);
        let s = samples[i];
        assert(bytes[2 * i] == crate::payload::low_byte(s));
        assert(bytes[2 * i + 1] == crate::payload::high_byte(s));
    }
    assert(decoded_pcm16(bytes) =~= samples);
}

} // verus!
