//! Stream negotiation: which configuration a capture stream is opened
//! with, and whether its native sample format can be converted.

use vstd::prelude::*;

verus! {

/// Native sample representation of a device.
#[derive(Clone, Copy, Debug, PartialEq, Eq, Structural)]
pub enum SampleFormat {
    /// Signed 16-bit integers: passed through.
    I16,
    /// Unsigned 16-bit integers: converted by subtracting the midpoint.
    U16,
    /// 32-bit floats: clamped to [-1, 1] and scaled by 32767.
    F32,
    /// Any other representation: not supported.
    Other,
}

/// One concrete configuration that a device offers.
#[derive(Clone, Copy, Debug, PartialEq, Eq, Structural)]
pub struct StreamOffer {
    pub channels: u16,
    pub sample_rate: u32,
    pub format: SampleFormat,
}

/// A configuration that a device supports over a range of sample rates.
#[derive(Clone, Copy, Debug, PartialEq, Eq, Structural)]
pub struct StreamRange {
    pub channels: u16,
    pub min_sample_rate: u32,
    pub max_sample_rate: u32,
    pub format: SampleFormat,
}

/// What a stream was opened with.
#[derive(Clone, Copy, Debug, PartialEq, Eq, Structural)]
pub struct StreamSettings {
    pub channels: u16,
    pub sample_rate: u32,
}

/// Why no stream could be opened on a device.
#[derive(Clone, Copy, Debug, PartialEq, Eq, Structural)]
pub enum NegotiationError {
    /// The device offers no input configuration at all.
    NoSupportedConfig,
    /// The chosen configuration has a sample format that cannot be
    /// converted.
    UnsupportedSampleFormat,
}

/// Sample rate used when a device reports a rate of zero.
pub const FALLBACK_SAMPLE_RATE: u32 = 48000;

/// The range taken at its highest sample rate.
pub open spec fn at_max_rate(range: StreamRange) -> StreamOffer {
    StreamOffer {
        channels: range.channels,
        sample_rate: range.max_sample_rate,
        format: range.format,
    }
}

/// The configuration that negotiation settles on: the default input
/// configuration where there is one, else the first supported range at its
/// highest sample rate, else nothing.
pub open spec fn chosen_config(
    default_input: Option<StreamOffer>,
    supported: Option<Vec<StreamRange>>,
) -> Option<StreamOffer> {
    match default_input {
        Some(offer) => Some(offer),
        None => match supported {
            Some(ranges) => if ranges@.len() > 0 {
                Some(at_max_rate(ranges@[0]))
            } else {
                None
            },
            None => None,
        },
    }
}

/// Whether samples of this format can be brought to 16-bit PCM.
pub open spec fn convertible(format: SampleFormat) -> bool {
    format != SampleFormat::Other
}

/// The settings a stream is opened with for an offer: its channel count,
/// and its sample rate unless that is zero.
pub open spec fn settings_for(offer: StreamOffer) -> StreamSettings {
    StreamSettings {
        channels: offer.channels,
        sample_rate: if offer.sample_rate == 0 {
            FALLBACK_SAMPLE_RATE
        } else {
            offer.sample_rate
        },
    }
}

/// Picks the configuration to open a device with.
pub fn choose_config(
    default_input: &Option<StreamOffer>,
    supported: &Option<Vec<StreamRange>>,
) -> (r: Result<StreamOffer, NegotiationError>)
    ensures
        match chosen_config(*default_input, *supported) {
            Some(offer) => r == Ok::<StreamOffer, NegotiationError>(offer),
            None => r == Err::<StreamOffer, NegotiationError>(NegotiationError::NoSupportedConfig),
        },
{
    match default_input {
        Some(offer) => Ok(*offer),
        None => match supported {
            Some(ranges) => {
                if ranges.len() > 0 {
                    let first: StreamRange = ranges[0];
                    Ok(
                        StreamOffer {
                            channels: first.channels,
                            sample_rate: first.max_sample_rate,
                            format: first.format,
                        },
                    )
                } else {
                    Err(NegotiationError::NoSupportedConfig)
                }
            },
            None => Err(NegotiationError::NoSupportedConfig),
        },
    }
}

/// Decides how a stream is opened on a device: the settings and the
/// native format to convert from, or the reason why it cannot be opened.
pub fn plan_input_stream(
    default_input: &Option<StreamOffer>,
    supported: &Option<Vec<StreamRange>>,
) -> (r: Result<(StreamSettings, SampleFormat), NegotiationError>)
    ensures
        match chosen_config(*default_input, *supported) {
            None => r == Err::<(StreamSettings, SampleFormat), NegotiationError>(
                NegotiationError::NoSupportedConfig,
            ),
            Some(offer) => if convertible(offer.format) {
                r == Ok::<(StreamSettings, SampleFormat), NegotiationError>(
                    (settings_for(offer), offer.format),
                )
            } else {
                r == Err::<(StreamSettings, SampleFormat), NegotiationError>(
                    NegotiationError::UnsupportedSampleFormat,
                )
            },
        },
{
    match choose_config(default_input, supported) {
        Err(e) => Err(e),
        Ok(offer) => {
            let rate: u32 = if offer.sample_rate == 0 {
                FALLBACK_SAMPLE_RATE
            } else {
                offer.sample_rate
            };
            match offer.format {
                SampleFormat::Other => Err(NegotiationError::UnsupportedSampleFormat),
                _ => Ok((StreamSettings { channels: offer.channels, sample_rate: rate }, offer.format)),
            }
        },
    }
}

} // verus!
