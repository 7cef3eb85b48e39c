//! The device catalog: what is reported of each audio endpoint, how an
//! endpoint is classified by its name, and which endpoint a capture request
//! resolves to.

use vstd::prelude::*;
use crate::stream::{choose_config, chosen_config, StreamOffer, StreamRange};
use crate::text::{contains, has_substring, lowercase, lowercase_of};

verus! {

/// What an endpoint is taken to be. The classification goes by the name
/// alone and may be wrong.
#[derive(Clone, Copy, Debug, PartialEq, Eq, Structural)]
pub enum DeviceKind {
    Microphone,
    SystemLoopback,
    Other,
}

/// One entry of the catalog.
#[derive(Clone, Debug)]
pub struct AudioDeviceInfo {
    pub id: String,
    pub name: String,
    pub kind: DeviceKind,
    pub channels: u16,
    pub sample_rate: u32,
}

/// What the operating system reports of one endpoint.
#[derive(Clone, Debug)]
pub struct DeviceProbe {
    /// The endpoint's name, where it could be read.
    pub name: Option<String>,
    /// The default input configuration, where there is one.
    pub default_input: Option<StreamOffer>,
    /// The supported input configurations, where they could be listed.
    pub supported_inputs: Option<Vec<StreamRange>>,
    /// Whether the endpoint has a default output configuration.
    pub has_default_output: bool,
    /// Whether the endpoint lists at least one output configuration.
    pub lists_output: bool,
}

/// The family of rules by which a system-audio endpoint is searched for.
#[derive(Clone, Copy, Debug, PartialEq, Eq, Structural)]
pub enum Platform {
    /// Endpoints of render devices may show up as inputs; names of output
    /// devices and output capability count as hints.
    Windows,
    /// Only names of loopback, monitor and virtual-cable devices count.
    Other,
}

/// The endpoint that a microphone request resolves to.
#[derive(Clone, Copy, Debug, PartialEq, Eq, Structural)]
pub enum MicrophoneChoice {
    /// The endpoint at this position of the list.
    Listed(usize),
    /// The operating system's default input endpoint.
    DefaultInput,
}

/// The endpoint that a system-audio request resolves to.
#[derive(Clone, Copy, Debug, PartialEq, Eq, Structural)]
pub enum SystemChoice {
    /// The endpoint at this position of the list.
    Listed(usize),
    /// The operating system's default output endpoint, used as an input.
    DefaultOutput,
}

/// A lower-cased name that points to a loopback source: a loopback or
/// monitor device, a stereo mix, or a known virtual cable.
pub open spec fn names_loopback(lower: Seq<char>) -> bool {
    has_substring(lower, "loopback"@) || has_substring(lower, "monitor"@) || has_substring(
        lower,
        "stereo mix"@,
    ) || has_substring(lower, "blackhole"@) || has_substring(lower, "soundflower"@)
}

/// The classification of a lower-cased name.
pub open spec fn kind_of(lower: Seq<char>) -> DeviceKind {
    if names_loopback(lower) {
        DeviceKind::SystemLoopback
    } else {
        DeviceKind::Microphone
    }
}

/// The name an endpoint is listed under: its own, or "Unknown" where that
/// could not be read.
pub open spec fn display_name(probe: DeviceProbe) -> Seq<char> {
    match probe.name {
        Some(name) => name@,
        None => "Unknown"@,
    }
}

/// The endpoint can be listed: it has some input configuration.
pub open spec fn describable(probe: DeviceProbe) -> bool {
    chosen_config(probe.default_input, probe.supported_inputs) is Some
}

/// `info` is the catalog entry of `probe`.
pub open spec fn describes(probe: DeviceProbe, info: AudioDeviceInfo) -> bool {
    &&& describable(probe)
    &&& info.id@ == display_name(probe)
    &&& info.name@ == display_name(probe)
    &&& info.kind == kind_of(lowercase_of(display_name(probe)))
    &&& info.channels == chosen_config(probe.default_input, probe.supported_inputs).unwrap().channels
    &&& info.sample_rate == chosen_config(
        probe.default_input,
        probe.supported_inputs,
    ).unwrap().sample_rate
}

/// Positions of the first `n` endpoints that can be listed, in order.
pub open spec fn listed(probes: Seq<DeviceProbe>, n: int) -> Seq<int>
    decreases n,
{
    if n <= 0 {
        Seq::empty()
    } else if describable(probes[n - 1]) {
        listed(probes, n - 1).push(n - 1)
    } else {
        listed(probes, n - 1)
    }
}

/// Whether a lower-cased name points to a loopback source.
pub fn is_loopback_name(lower: &str) -> (r: bool)
    ensures
        r == names_loopback(lower@),
{
    contains(lower, "loopback") || contains(lower, "monitor") || contains(lower, "stereo mix")
        || contains(lower, "blackhole") || contains(lower, "soundflower")
}

/// Classifies a name that is already lower-cased.
pub fn classify_lowered(lower: &str) -> (kind: DeviceKind)
    ensures
        kind == kind_of(lower@),
{
    if is_loopback_name(lower) {
        DeviceKind::SystemLoopback
    } else {
        DeviceKind::Microphone
    }
}

/// Classifies an endpoint by its name: the name is lower-cased and
/// searched for the marks of a loopback source.
pub fn classify(name: &str) -> (kind: DeviceKind)
    ensures
        kind == kind_of(lowercase_of(name@)),
{
    let lower: String = lowercase(name);
    classify_lowered(lower.as_str())
}

/// The label under which a kind is reported.
pub fn kind_label(kind: DeviceKind) -> (label: &'static str)
    ensures
        label@ == (match kind {
            DeviceKind::Microphone => "mic"@,
            DeviceKind::SystemLoopback => "system"@,
            DeviceKind::Other => "other"@,
        }),
{
    match kind {
        DeviceKind::Microphone => "mic",
        DeviceKind::SystemLoopback => "system",
        DeviceKind::Other => "other",
    }
}

/// The catalog entry of an endpoint, or nothing where the endpoint has no
/// input configuration.
pub fn build_device_info(probe: &DeviceProbe) -> (r: Option<AudioDeviceInfo>)
    ensures
        r is Some <==> describable(*probe),
        r is Some ==> describes(*probe, r.unwrap()),
{
    let name: String = match &probe.name {
        Some(n) => n.clone(),
        None => String::from_str("Unknown"),
    };
    match choose_config(&probe.default_input, &probe.supported_inputs) {
        Err(_) => None,
        Ok(offer) => {
            let kind: DeviceKind = classify(name.as_str());
            Some(
                AudioDeviceInfo {
                    id: name.clone(),
                    name,
                    kind,
                    channels: offer.channels,
                    sample_rate: offer.sample_rate,
                },
            )
        },
    }
}

/// The catalog: one entry for each endpoint that has an input
/// configuration, in the order reported.
pub fn list_devices(probes: &Vec<DeviceProbe>) -> (out: Vec<AudioDeviceInfo>)
    ensures
        out@.len() == listed(probes@, probes@.len() as int).len(),
        forall|k: int|
            0 <= k < out@.len() ==> {
                let at = #[trigger] listed(probes@, probes@.len() as int)[k];
                0 <= at < probes@.len() && describes(probes@[at], out@[k])
            },
{
    let mut out: Vec<AudioDeviceInfo> = Vec::new();
    let mut i: usize = 0;
    while i < probes.len()
        invariant
            i <= probes@.len(),
            out@.len() == listed(probes@, i as int).len(),
            forall|k: int|
                0 <= k < out@.len() ==> {
                    let at = #[trigger] listed(probes@, i as int)[k];
                    0 <= at < i && describes(probes@[at], out@[k])
                },
        decreases probes@.len() - i,
    {
        match build_device_info(&probes[i]) {
            Some(info) => {
                out.push(info);
            },
            None => {},
        }
        i += 1;
    }
    out
}

} // verus!
