//! The unit that leaves the engine: a chunk's samples as bytes in the
//! host's byte order, carried as base64 text.

use vstd::prelude::*;
use base64::Engine;
use crate::mixer::PcmChunk;

verus! {

/// Low byte of a sample's two's-complement form.
pub open spec fn low_byte(s: i16) -> u8 {
    ((s as int + 65536) % 256) as u8
}

/// High byte of a sample's two's-complement form.
pub open spec fn high_byte(s: i16) -> u8 {
    (((s as int + 65536) / 256) % 256) as u8
}

/// The samples as bytes, low byte first.
pub open spec fn little_endian_bytes(samples: Seq<i16>) -> Seq<u8> {
    Seq::new(
        2 * samples.len(),
        |i: int|
            if i % 2 == 0 {
                low_byte(samples[i / 2])
            } else {
                high_byte(samples[i / 2])
            },
    )
}

/// The samples as bytes, high byte first.
pub open spec fn big_endian_bytes(samples: Seq<i16>) -> Seq<u8> {
    Seq::new(
        2 * samples.len(),
        |i: int|
            if i % 2 == 0 {
                high_byte(samples[i / 2])
            } else {
                low_byte(samples[i / 2])
            },
    )
}

/// The standard base64 text of a byte string: the alphabet of RFC 4648
/// with `=` padding.
pub uninterp spec fn base64_standard(bytes: Seq<u8>) -> Seq<char>;

/// `bytes` holds the samples in one of the two byte orders: that of the
/// host.
pub open spec fn in_host_order(samples: Seq<i16>, bytes: Seq<u8>) -> bool {
    bytes == little_endian_bytes(samples) || bytes == big_endian_bytes(samples)
}

/// A chunk as it is handed to the outside.
pub struct AudioChunkPayload {
    pub sample_rate: u32,
    pub channels: u16,
    pub data_base64: String,
}

/// Most samples that a chunk may hold for its payload to be built: the
/// text of more would not fit the address space.
pub const MAX_PAYLOAD_SAMPLES: usize = usize::MAX / 4;

/// Calls `bytemuck::cast_slice` from `i16` to `u8`. Trusted: the result is
/// the memory of the samples, two bytes for each, in the byte order of the
/// host. The cast cannot fail, since bytes have no alignment.
#[verifier::external_body]
fn sample_bytes(samples: &[i16]) -> (bytes: &[u8])
    ensures
        in_host_order(samples@, bytes@),
        bytes@.len() == 2 * samples@.len(),
{
    bytemuck::cast_slice::<i16, u8>(samples)
}

/// Calls `Engine::encode` on `base64::engine::general_purpose::STANDARD`.
/// Trusted: the result is the standard base64 text of the bytes. The call
/// panics where the length of the text overflows, which the precondition
/// leaves out.
#[verifier::external_body]
fn encode_base64(bytes: &[u8]) -> (text: String)
    requires
        bytes@.len() <= usize::MAX / 2,
    ensures
        text@ == base64_standard(bytes@),
{
    base64::engine::general_purpose::STANDARD.encode(bytes)
}

/// Builds the payload of a chunk: its sample rate and channel count, and
/// its samples as base64 text of their bytes in host order.
pub fn encode_chunk(chunk: &PcmChunk) -> (payload: AudioChunkPayload)
    requires
        chunk.samples@.len() <= MAX_PAYLOAD_SAMPLES,
    ensures
        payload.sample_rate == chunk.sample_rate,
        payload.channels == chunk.channels,
        payload.data_base64@ == base64_standard(little_endian_bytes(chunk.samples@))
            || payload.data_base64@ == base64_standard(big_endian_bytes(chunk.samples@)),
{
    let bytes: &[u8] = sample_bytes(chunk.samples.as_slice());
    let text: String = encode_base64(bytes);
    AudioChunkPayload {
        sample_rate: chunk.sample_rate,
        channels: chunk.channels,
        data_base64: text,
    }
}

} // verus!
