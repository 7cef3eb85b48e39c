//! Resolving a capture request to an endpoint: the microphone by its
//! name, the system-audio source by a fixed order of name and capability
//! tiers.

use vstd::prelude::*;
use crate::device::{
    is_loopback_name, names_loopback, DeviceProbe, MicrophoneChoice, Platform, SystemChoice,
};
use crate::text::{contains, has_substring, lowercase, lowercase_of};

verus! {

/// The endpoint carries exactly this name.
pub open spec fn is_named(probe: DeviceProbe, target: Seq<char>) -> bool {
    probe.name is Some && probe.name.unwrap()@ == target
}

/// The endpoint has an input configuration to capture with.
pub open spec fn has_input(probe: DeviceProbe) -> bool {
    probe.default_input is Some || (probe.supported_inputs is Some
        && probe.supported_inputs.unwrap()@.len() > 0)
}

/// The endpoint answered a query for input configurations, even if with
/// an empty list.
pub open spec fn answers_input_query(probe: DeviceProbe) -> bool {
    probe.default_input is Some || probe.supported_inputs is Some
}

/// The endpoint has an output configuration.
pub open spec fn has_output(probe: DeviceProbe) -> bool {
    probe.has_default_output || probe.lists_output
}

/// Tier of a lower-cased name where only names count: 0 for a loopback
/// device, 1 for a monitor, 2 for a stereo mix, 3 for a known virtual
/// cable.
pub open spec fn portable_tier(lower: Seq<char>) -> Option<u8> {
    if has_substring(lower, "loopback"@) {
        Some(0u8)
    } else if has_substring(lower, "monitor"@) {
        Some(1u8)
    } else if has_substring(lower, "stereo mix"@) {
        Some(2u8)
    } else if has_substring(lower, "blackhole"@) || has_substring(lower, "soundflower"@) {
        Some(3u8)
    } else {
        None
    }
}

/// A lower-cased name that points to a microphone.
pub open spec fn names_microphone(lower: Seq<char>) -> bool {
    has_substring(lower, "mic"@) || has_substring(lower, "microphone"@) || has_substring(
        lower,
        "headset"@,
    ) || has_substring(lower, "микрофон"@) || has_substring(lower, "микро"@)
}

/// A lower-cased name that points to speakers or headphones.
pub open spec fn names_speakers(lower: Seq<char>) -> bool {
    has_substring(lower, "speakers"@) || has_substring(lower, "динамики"@) || has_substring(
        lower,
        "headphones"@,
    ) || has_substring(lower, "наушники"@)
}

/// A lower-cased name of the kind that output devices carry.
pub open spec fn names_output_device(lower: Seq<char>) -> bool {
    has_substring(lower, "speakers"@) || has_substring(lower, "headphones"@) || has_substring(
        lower,
        "headphone"@,
    ) || has_substring(lower, "динамики"@) || has_substring(lower, "наушники"@) || has_substring(
        lower,
        "audio"@,
    ) || has_substring(lower, "sound"@) || has_substring(lower, "analogue"@) || has_substring(
        lower,
        "focusrite"@,
    )
}

/// The lower-cased name and that of the default output device contain
/// one another, either way round.
pub open spec fn matches_default_output(lower: Seq<char>, default_lower: Option<Seq<char>>) -> bool {
    match default_lower {
        Some(d) => has_substring(lower, d) || has_substring(d, lower),
        None => false,
    }
}

/// Tier of an endpoint where output devices may serve as loopback
/// sources. Microphones and endpoints with neither input nor output are
/// no candidates. Of the rest: 0 for a loopback name, 1 for speakers or
/// headphones marked "(wasapi)", 2 for a monitor, 3 for a stereo mix, 4
/// for an endpoint with input and output, 5 for one with output only, 6
/// for one whose name is that of an output device or matches the default
/// output device.
pub open spec fn windows_tier(
    lower: Seq<char>,
    input: bool,
    output: bool,
    default_lower: Option<Seq<char>>,
) -> Option<u8> {
    if names_microphone(lower) {
        None
    } else if !input && !output {
        None
    } else if has_substring(lower, "loopback"@) {
        Some(0u8)
    } else if has_substring(lower, "(wasapi)"@) && names_speakers(lower) {
        Some(1u8)
    } else if has_substring(lower, "monitor"@) {
        Some(2u8)
    } else if has_substring(lower, "stereo mix"@) || has_substring(lower, "стерео микшер"@) {
        Some(3u8)
    } else if output && input {
        Some(4u8)
    } else if output {
        Some(5u8)
    } else if names_output_device(lower) || matches_default_output(lower, default_lower) {
        Some(6u8)
    } else {
        None
    }
}

/// The lower-cased name of the default output device, where it has one.
pub open spec fn default_output_lower(default_output: Option<DeviceProbe>) -> Option<Seq<char>> {
    match default_output {
        Some(probe) => match probe.name {
            Some(name) => Some(lowercase_of(name@)),
            None => None,
        },
        None => None,
    }
}

/// Tier of an endpoint as a system-audio source, or nothing where it is
/// no candidate. An endpoint without a readable name never is.
pub open spec fn candidate_tier(
    probe: DeviceProbe,
    platform: Platform,
    default_output: Option<DeviceProbe>,
) -> Option<u8> {
    match probe.name {
        None => None,
        Some(name) => {
            let lower = lowercase_of(name@);
            match platform {
                Platform::Other => if has_input(probe) {
                    portable_tier(lower)
                } else {
                    None
                },
                Platform::Windows => windows_tier(
                    lower,
                    has_input(probe),
                    has_output(probe),
                    default_output_lower(default_output),
                ),
            }
        },
    }
}

/// Tier of every endpoint of a list, position by position.
pub open spec fn candidate_tiers(
    probes: Seq<DeviceProbe>,
    platform: Platform,
    default_output: Option<DeviceProbe>,
) -> Seq<Option<u8>> {
    Seq::new(probes.len(), |j: int| candidate_tier(probes[j], platform, default_output))
}

/// Position `at` holds the tier to take: no position holds a lower tier,
/// and none before it holds the same.
pub open spec fn is_lowest_first(tiers: Seq<Option<u8>>, at: int) -> bool {
    &&& 0 <= at < tiers.len()
    &&& tiers[at] is Some
    &&& forall|j: int|
        0 <= j < tiers.len() && (#[trigger] tiers[j]) is Some ==> (tiers[j].unwrap()
            > tiers[at].unwrap() || (tiers[j].unwrap() == tiers[at].unwrap() && j >= at))
}

/// No position holds a tier.
pub open spec fn no_tier(tiers: Seq<Option<u8>>) -> bool {
    forall|j: int| 0 <= j < tiers.len() ==> (#[trigger] tiers[j]) is None
}

/// The endpoint carries the requested name, the name is fit for a
/// system-audio source, and the endpoint answered the query for input
/// configurations.
pub open spec fn serves_request(probe: DeviceProbe, target: Seq<char>, name_fits: bool) -> bool {
    is_named(probe, target) && name_fits && answers_input_query(probe)
}

/// Position `at` is the first endpoint that serves the request.
pub open spec fn is_first_serving(
    probes: Seq<DeviceProbe>,
    target: Seq<char>,
    name_fits: bool,
    at: int,
) -> bool {
    &&& 0 <= at < probes.len()
    &&& serves_request(probes[at], target, name_fits)
    &&& forall|j: int| 0 <= j < at ==> !serves_request(#[trigger] probes[j], target, name_fits)
}

/// No endpoint serves the request.
pub open spec fn none_serving(probes: Seq<DeviceProbe>, target: Seq<char>, name_fits: bool) -> bool {
    forall|j: int| 0 <= j < probes.len() ==> !serves_request(#[trigger] probes[j], target, name_fits)
}

/// Endpoint `at` is the first one that is asked for by name and may serve.
pub open spec fn is_first_requested(probes: Seq<DeviceProbe>, id: Option<String>, at: int) -> bool {
    id is Some && is_first_serving(
        probes,
        id.unwrap()@,
        names_loopback(lowercase_of(id.unwrap()@)),
        at,
    )
}

/// No endpoint is asked for by name and may serve.
pub open spec fn none_requested(probes: Seq<DeviceProbe>, id: Option<String>) -> bool {
    id is Some ==> none_serving(probes, id.unwrap()@, names_loopback(lowercase_of(id.unwrap()@)))
}

/// Endpoint `at` is the candidate to take: no candidate has a lower tier,
/// and none of the same tier stands before it.
pub open spec fn is_best_candidate(
    probes: Seq<DeviceProbe>,
    platform: Platform,
    default_output: Option<DeviceProbe>,
    at: int,
) -> bool {
    is_lowest_first(candidate_tiers(probes, platform, default_output), at)
}

/// No endpoint is a candidate.
pub open spec fn no_candidate(
    probes: Seq<DeviceProbe>,
    platform: Platform,
    default_output: Option<DeviceProbe>,
) -> bool {
    no_tier(candidate_tiers(probes, platform, default_output))
}

/// The default output device may serve as a last resort: its name could
/// be read and it answered the query for input configurations.
pub open spec fn default_output_serves(
    platform: Platform,
    default_output: Option<DeviceProbe>,
) -> bool {
    platform == Platform::Windows && default_output is Some && default_output.unwrap().name is Some
        && answers_input_query(default_output.unwrap())
}

/// `choice` is what a microphone request resolves to: the first endpoint
/// that carries the requested name, else the default input endpoint.
pub open spec fn resolves_microphone(
    probes: Seq<DeviceProbe>,
    id: Option<String>,
    choice: MicrophoneChoice,
) -> bool {
    match choice {
        MicrophoneChoice::Listed(at) => {
            &&& id is Some
            &&& at < probes.len()
            &&& is_named(probes[at as int], id.unwrap()@)
            &&& forall|j: int| 0 <= j < at ==> !is_named(#[trigger] probes[j], id.unwrap()@)
        },
        MicrophoneChoice::DefaultInput => id is Some ==> forall|j: int|
            0 <= j < probes.len() ==> !is_named(#[trigger] probes[j], id.unwrap()@),
    }
}

/// `choice` is what a system-audio request resolves to: the endpoint asked
/// for by name where it may serve; else the best candidate; else the
/// default output device as a last resort; else nothing.
pub open spec fn resolves_system(
    probes: Seq<DeviceProbe>,
    id: Option<String>,
    default_output: Option<DeviceProbe>,
    platform: Platform,
    choice: Option<SystemChoice>,
) -> bool {
    match choice {
        Some(SystemChoice::Listed(at)) => is_first_requested(probes, id, at as int) || (
        none_requested(probes, id) && is_best_candidate(probes, platform, default_output, at as int)),
        Some(SystemChoice::DefaultOutput) => none_requested(probes, id) && no_candidate(
            probes,
            platform,
            default_output,
        ) && default_output_serves(platform, default_output),
        None => none_requested(probes, id) && no_candidate(probes, platform, default_output)
            && !default_output_serves(platform, default_output),
    }
}

/// The name under which the system-audio source is asked for: the
/// requested device names the microphone where one is captured too, and
/// the system-audio source only where it is captured alone.
pub open spec fn system_request_id(device_id: Option<String>, microphone: bool) -> Option<String> {
    if microphone {
        None
    } else {
        device_id
    }
}

/// The endpoints that a capture opens.
#[derive(Clone, Copy, Debug, PartialEq, Eq, Structural)]
pub struct Resolution {
    pub microphone: Option<MicrophoneChoice>,
    pub system: Option<SystemChoice>,
}

/// Resolves a microphone request: the first endpoint that carries the
/// requested name, else the default input endpoint.
pub fn find_device_by_id(probes: &Vec<DeviceProbe>, id: &Option<String>) -> (r: MicrophoneChoice)
    ensures
        resolves_microphone(probes@, *id, r),
{
    match id {
        Some(target) => {
            let mut i: usize = 0;
            while i < probes.len()
                invariant
                    i <= probes@.len(),
                    *id == Some(*target),
                    forall|j: int| 0 <= j < i ==> !is_named(#[trigger] probes@[j], target@),
                decreases probes@.len() - i,
            {
                match &probes[i].name {
                    Some(name) => {
                        if *name == *target {
                            return MicrophoneChoice::Listed(i);
                        }
                    },
                    None => {},
                }
                i += 1;
            }
            MicrophoneChoice::DefaultInput
        },
        None => MicrophoneChoice::DefaultInput,
    }
}

/// Tier of a lower-cased name where only names count.
pub fn portable_priority(lower: &str) -> (tier: Option<u8>)
    ensures
        tier == portable_tier(lower@),
{
    if contains(lower, "loopback") {
        Some(0)
    } else if contains(lower, "monitor") {
        Some(1)
    } else if contains(lower, "stereo mix") {
        Some(2)
    } else if contains(lower, "blackhole") || contains(lower, "soundflower") {
        Some(3)
    } else {
        None
    }
}

/// Tier of an endpoint where output devices may serve as loopback
/// sources, from its lower-cased name, its capabilities and the
/// lower-cased name of the default output device.
pub fn windows_priority(
    lower: &str,
    input: bool,
    output: bool,
    default_lower: &Option<String>,
) -> (tier: Option<u8>)
    ensures
        tier == windows_tier(
            lower@,
            input,
            output,
            match *default_lower {
                Some(d) => Some(d@),
                None => None,
            },
        ),
{
    let is_mic: bool = contains(lower, "mic") || contains(lower, "microphone") || contains(
        lower,
        "headset",
    ) || contains(lower, "микрофон") || contains(lower, "микро");
    if is_mic {
        return None;
    }
    if !input && !output {
        return None;
    }
    if contains(lower, "loopback") {
        return Some(0);
    }
    let speakers: bool = contains(lower, "speakers") || contains(lower, "динамики") || contains(
        lower,
        "headphones",
    ) || contains(lower, "наушники");
    if contains(lower, "(wasapi)") && speakers {
        return Some(1);
    }
    if contains(lower, "monitor") {
        return Some(2);
    }
    if contains(lower, "stereo mix") || contains(lower, "стерео микшер") {
        return Some(3);
    }
    if output && input {
        return Some(4);
    }
    if output {
        return Some(5);
    }
    let output_name: bool = contains(lower, "speakers") || contains(lower, "headphones")
        || contains(lower, "headphone") || contains(lower, "динамики") || contains(
        lower,
        "наушники",
    ) || contains(lower, "audio") || contains(lower, "sound") || contains(lower, "analogue")
        || contains(lower, "focusrite");
    let matches_default: bool = match default_lower {
        Some(d) => contains(lower, d.as_str()) || contains(d.as_str(), lower),
        None => false,
    };
    if output_name || matches_default {
        Some(6)
    } else {
        None
    }
}

/// Whether an endpoint has an input configuration to capture with.
pub fn probe_has_input(probe: &DeviceProbe) -> (r: bool)
    ensures
        r == has_input(*probe),
{
    if probe.default_input.is_some() {
        true
    } else {
        match &probe.supported_inputs {
            Some(ranges) => ranges.len() > 0,
            None => false,
        }
    }
}

/// Tier of an endpoint as a system-audio source under the platform's
/// rules. `default_lower` is the lower-cased name of `default_output`.
fn candidate_priority(
    probe: &DeviceProbe,
    platform: Platform,
    default_lower: &Option<String>,
    default_output: &Option<DeviceProbe>,
) -> (tier: Option<u8>)
    requires
        match *default_lower {
            Some(d) => default_output_lower(*default_output) == Some(d@),
            None => default_output_lower(*default_output) is None,
        },
    ensures
        tier == candidate_tier(*probe, platform, *default_output),
{
    match &probe.name {
        None => None,
        Some(name) => {
            let lower: String = lowercase(name.as_str());
            let input: bool = probe_has_input(probe);
            match platform {
                Platform::Other => {
                    if input {
                        portable_priority(lower.as_str())
                    } else {
                        None
                    }
                },
                Platform::Windows => {
                    let output: bool = probe.has_default_output || probe.lists_output;
                    windows_priority(lower.as_str(), input, output, default_lower)
                },
            }
        },
    }
}

/// The first endpoint that carries the requested name and answered the
/// query for input configurations, where the name is fit for a
/// system-audio source; nothing where it is not fit or no endpoint serves.
pub fn requested_position(probes: &Vec<DeviceProbe>, target: &String, name_fits: bool) -> (r:
    Option<usize>)
    ensures
        match r {
            Some(at) => is_first_serving(probes@, target@, name_fits, at as int),
            None => none_serving(probes@, target@, name_fits),
        },
{
    let mut i: usize = 0;
    while i < probes.len()
        invariant
            i <= probes@.len(),
            forall|j: int|
                0 <= j < i ==> !serves_request(#[trigger] probes@[j], target@, name_fits),
        decreases probes@.len() - i,
    {
        let probe: &DeviceProbe = &probes[i];
        let named: bool = match &probe.name {
            Some(name) => *name == *target,
            None => false,
        };
        if named && name_fits && (probe.default_input.is_some()
            || probe.supported_inputs.is_some()) {
            return Some(i);
        }
        i += 1;
    }
    None
}

/// The position of the lowest tier, the first of them where several
/// positions hold it; nothing where no position holds a tier.
pub fn lowest_tier_first(tiers: &Vec<Option<u8>>) -> (r: Option<usize>)
    ensures
        match r {
            Some(at) => is_lowest_first(tiers@, at as int),
            None => no_tier(tiers@),
        },
{
    let mut best: Option<(usize, u8)> = None;
    let mut k: usize = 0;
    while k < tiers.len()
        invariant
            k <= tiers@.len(),
            match best {
                None => forall|j: int| 0 <= j < k ==> (#[trigger] tiers@[j]) is None,
                Some((at, tier)) => {
                    &&& at < k
                    &&& tiers@[at as int] == Some(tier)
                    &&& forall|j: int|
                        0 <= j < k && (#[trigger] tiers@[j]) is Some ==> (tiers@[j].unwrap() > tier
                            || (tiers@[j].unwrap() == tier && j >= at))
                },
            },
        decreases tiers@.len() - k,
    {
        match tiers[k] {
            Some(t) => {
                let better: bool = match best {
                    None => true,
                    Some((_, held)) => t < held,
                };
                if better {
                    best = Some((k, t));
                }
            },
            None => {},
        }
        k += 1;
    }
    match best {
        Some((at, _)) => Some(at),
        None => None,
    }
}

/// Whether the default output device may serve as a last resort.
pub fn last_resort_serves(platform: Platform, default_output: &Option<DeviceProbe>) -> (r: bool)
    ensures
        r == default_output_serves(platform, *default_output),
{
    match platform {
        Platform::Windows => match default_output {
            Some(probe) => probe.name.is_some() && (probe.default_input.is_some()
                || probe.supported_inputs.is_some()),
            None => false,
        },
        Platform::Other => false,
    }
}

/// Tier of every endpoint of a list under the platform's rules.
fn rank_candidates(
    probes: &Vec<DeviceProbe>,
    platform: Platform,
    default_output: &Option<DeviceProbe>,
) -> (tiers: Vec<Option<u8>>)
    ensures
        tiers@ == candidate_tiers(probes@, platform, *default_output),
{
    let default_lower: Option<String> = match default_output {
        Some(probe) => match &probe.name {
            Some(name) => Some(lowercase(name.as_str())),
            None => None,
        },
        None => None,
    };
    let mut tiers: Vec<Option<u8>> = Vec::with_capacity(probes.len());
    let mut k: usize = 0;
    while k < probes.len()
        invariant
            k <= probes@.len(),
            tiers@.len() == k,
            match default_lower {
                Some(d) => default_output_lower(*default_output) == Some(d@),
                None => default_output_lower(*default_output) is None,
            },
            forall|j: int|
                0 <= j < k ==> #[trigger] tiers@[j] == candidate_tier(
                    probes@[j],
                    platform,
                    *default_output,
                ),
        decreases probes@.len() - k,
    {
        tiers.push(candidate_priority(&probes[k], platform, &default_lower, default_output));
        k += 1;
    }
    assert(tiers@ =~= candidate_tiers(probes@, platform, *default_output));
    tiers
}

/// Resolves a system-audio request.
///
/// An endpoint asked for by name is taken if its name points to a
/// loopback source and it answered the query for input configurations.
/// Otherwise the candidate of the lowest tier is taken, the first of
/// them where several share it. Where there is no candidate, the default
/// output device is the last resort under the Windows rules.
pub fn find_system_device(
    probes: &Vec<DeviceProbe>,
    id: &Option<String>,
    default_output: &Option<DeviceProbe>,
    platform: Platform,
) -> (r: Option<SystemChoice>)
    ensures
        resolves_system(probes@, *id, *default_output, platform, r),
{
    match id {
        Some(target) => {
            let target_lower: String = lowercase(target.as_str());
            let name_fits: bool = is_loopback_name(target_lower.as_str());
            match requested_position(probes, target, name_fits) {
                Some(at) => {
                    return Some(SystemChoice::Listed(at));
                },
                None => {},
            }
        },
        None => {},
    }
    let tiers: Vec<Option<u8>> = rank_candidates(probes, platform, default_output);
    match lowest_tier_first(&tiers) {
        Some(at) => Some(SystemChoice::Listed(at)),
        None => {
            if last_resort_serves(platform, default_output) {
                Some(SystemChoice::DefaultOutput)
            } else {
                None
            }
        },
    }
}

/// Resolves the endpoints that a capture opens on the portable capture
/// layer: the microphone, the system-audio source, or both.
///
/// The requested device names the microphone where one is captured; the
/// system-audio source is then searched for without a name.
pub fn resolve_devices(
    probes: &Vec<DeviceProbe>,
    device_id: &Option<String>,
    default_output: &Option<DeviceProbe>,
    platform: Platform,
    microphone: bool,
    portable_system: bool,
) -> (r: Resolution)
    ensures
        microphone ==> r.microphone is Some && resolves_microphone(
            probes@,
            *device_id,
            r.microphone.unwrap(),
        ),
        !microphone ==> r.microphone is None,
        portable_system ==> resolves_system(
            probes@,
            system_request_id(*device_id, microphone),
            *default_output,
            platform,
            r.system,
        ),
        !portable_system ==> r.system is None,
{
    let chosen_microphone: Option<MicrophoneChoice> = if microphone {
        Some(find_device_by_id(probes, device_id))
    } else {
        None
    };
    let chosen_system: Option<SystemChoice> = if portable_system {
        if microphone {
            let unnamed: Option<String> = None;
            find_system_device(probes, &unnamed, default_output, platform)
        } else {
            find_system_device(probes, device_id, default_output, platform)
        }
    } else {
        None
    };
    Resolution { microphone: chosen_microphone, system: chosen_system }
}

} // verus!
