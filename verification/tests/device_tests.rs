use xexamai::device::{
    build_device_info, classify, classify_lowered, is_loopback_name, kind_label, list_devices,
    DeviceKind, DeviceProbe, MicrophoneChoice, Platform, SystemChoice,
};
use xexamai::resolve::{
    find_device_by_id, find_system_device, last_resort_serves, lowest_tier_first,
    portable_priority, probe_has_input, requested_position, windows_priority,
};
use xexamai::stream::{SampleFormat, StreamOffer, StreamRange};

fn offer() -> StreamOffer {
    StreamOffer { channels: 2, sample_rate: 48000, format: SampleFormat::F32 }
}

fn input(name: &str) -> DeviceProbe {
    DeviceProbe {
        name: Some(name.to_string()),
        default_input: Some(offer()),
        supported_inputs: None,
        has_default_output: false,
        lists_output: false,
    }
}

fn output_only(name: &str) -> DeviceProbe {
    DeviceProbe {
        name: Some(name.to_string()),
        default_input: None,
        supported_inputs: None,
        has_default_output: true,
        lists_output: true,
    }
}

fn bare(name: &str) -> DeviceProbe {
    DeviceProbe {
        name: Some(name.to_string()),
        default_input: None,
        supported_inputs: None,
        has_default_output: false,
        lists_output: false,
    }
}

#[test]
fn stereo_mix_is_a_system_loopback() {
    assert_eq!(classify("Stereo Mix (Realtek)"), DeviceKind::SystemLoopback);
}

#[test]
fn usb_microphone_is_a_microphone() {
    assert_eq!(classify("USB Microphone"), DeviceKind::Microphone);
}

#[test]
fn classification_goes_by_lower_cased_substrings() {
    assert_eq!(classify("Monitor of Built-in Audio"), DeviceKind::SystemLoopback);
    assert_eq!(classify("LOOPBACK"), DeviceKind::SystemLoopback);
    assert_eq!(classify("BlackHole 2ch"), DeviceKind::SystemLoopback);
    assert_eq!(classify("Soundflower (64ch)"), DeviceKind::SystemLoopback);
    assert_eq!(classify(""), DeviceKind::Microphone);
    assert_eq!(classify("Speakers"), DeviceKind::Microphone);
    assert_eq!(classify("stereomix"), DeviceKind::Microphone);
    assert_eq!(classify_lowered("Stereo Mix"), DeviceKind::Microphone);
    assert_eq!(classify_lowered("stereo mix"), DeviceKind::SystemLoopback);
    assert!(is_loopback_name("my monitor"));
    assert!(!is_loopback_name("my microphone"));
}

#[test]
fn kinds_have_their_labels() {
    assert_eq!(kind_label(DeviceKind::Microphone), "mic");
    assert_eq!(kind_label(DeviceKind::SystemLoopback), "system");
    assert_eq!(kind_label(DeviceKind::Other), "other");
}

#[test]
fn device_info_prefers_the_default_input_config() {
    let mut probe = input("Stereo Mix (Realtek)");
    probe.supported_inputs = Some(vec![StreamRange {
        channels: 1,
        min_sample_rate: 8000,
        max_sample_rate: 16000,
        format: SampleFormat::I16,
    }]);
    let info = build_device_info(&probe).unwrap();
    assert_eq!(info.id, "Stereo Mix (Realtek)");
    assert_eq!(info.name, "Stereo Mix (Realtek)");
    assert_eq!(info.kind, DeviceKind::SystemLoopback);
    assert_eq!(info.channels, 2);
    assert_eq!(info.sample_rate, 48000);
}

#[test]
fn device_info_falls_back_on_the_first_range_at_its_highest_rate() {
    let probe = DeviceProbe {
        name: None,
        default_input: None,
        supported_inputs: Some(vec![
            StreamRange { channels: 1, min_sample_rate: 8000, max_sample_rate: 44100, format: SampleFormat::I16 },
            StreamRange { channels: 2, min_sample_rate: 8000, max_sample_rate: 96000, format: SampleFormat::F32 },
        ]),
        has_default_output: false,
        lists_output: false,
    };
    let info = build_device_info(&probe).unwrap();
    assert_eq!(info.name, "Unknown");
    assert_eq!(info.id, "Unknown");
    assert_eq!(info.kind, DeviceKind::Microphone);
    assert_eq!(info.channels, 1);
    assert_eq!(info.sample_rate, 44100);
}

#[test]
fn devices_without_any_config_are_left_out() {
    assert!(build_device_info(&bare("Ghost")).is_none());
    let mut empty = bare("Empty");
    empty.supported_inputs = Some(Vec::new());
    assert!(build_device_info(&empty).is_none());
    let listed = list_devices(&vec![input("A"), bare("B"), input("Loopback C"), empty]);
    assert_eq!(listed.len(), 2);
    assert_eq!(listed[0].name, "A");
    assert_eq!(listed[0].kind, DeviceKind::Microphone);
    assert_eq!(listed[1].name, "Loopback C");
    assert_eq!(listed[1].kind, DeviceKind::SystemLoopback);
    assert!(list_devices(&Vec::new()).is_empty());
}

#[test]
fn microphone_resolves_by_exact_name_else_default() {
    let probes = vec![input("Mic A"), input("Mic B"), input("Mic B")];
    assert_eq!(find_device_by_id(&probes, &Some("Mic B".to_string())), MicrophoneChoice::Listed(1));
    assert_eq!(find_device_by_id(&probes, &Some("mic b".to_string())), MicrophoneChoice::DefaultInput);
    assert_eq!(find_device_by_id(&probes, &None), MicrophoneChoice::DefaultInput);
    assert_eq!(find_device_by_id(&Vec::new(), &Some("x".to_string())), MicrophoneChoice::DefaultInput);
}

#[test]
fn portable_tiers_follow_the_fixed_order() {
    assert_eq!(portable_priority("loopback monitor"), Some(0));
    assert_eq!(portable_priority("monitor of stereo mix"), Some(1));
    assert_eq!(portable_priority("stereo mix blackhole"), Some(2));
    assert_eq!(portable_priority("blackhole"), Some(3));
    assert_eq!(portable_priority("soundflower"), Some(3));
    assert_eq!(portable_priority("usb microphone"), None);
}

#[test]
fn system_device_takes_the_lowest_tier_and_the_first_of_equals() {
    let probes = vec![
        input("BlackHole 2ch"),
        input("Stereo Mix (Realtek)"),
        input("Monitor A"),
        input("Monitor B"),
        input("USB Microphone"),
    ];
    assert_eq!(
        find_system_device(&probes, &None, &None, Platform::Other),
        Some(SystemChoice::Listed(2))
    );
    let with_loopback = vec![input("Monitor A"), input("Loopback"), input("Loopback 2")];
    assert_eq!(
        find_system_device(&with_loopback, &None, &None, Platform::Other),
        Some(SystemChoice::Listed(1))
    );
}

#[test]
fn system_device_needs_an_input_config_under_portable_rules() {
    let probes = vec![bare("Loopback"), input("USB Microphone")];
    assert_eq!(find_system_device(&probes, &None, &None, Platform::Other), None);
    let mut listed = bare("Monitor");
    listed.supported_inputs = Some(Vec::new());
    assert!(!probe_has_input(&listed));
    assert_eq!(find_system_device(&vec![listed], &None, &None, Platform::Other), None);
    assert_eq!(find_system_device(&Vec::new(), &None, &None, Platform::Other), None);
}

#[test]
fn requested_system_device_wins_when_its_name_fits() {
    let probes = vec![input("Loopback"), input("Stereo Mix (Realtek)"), input("USB Microphone")];
    assert_eq!(
        find_system_device(&probes, &Some("Stereo Mix (Realtek)".to_string()), &None, Platform::Other),
        Some(SystemChoice::Listed(1))
    );
    // a requested microphone is not taken as a system device: the search goes on by tier
    assert_eq!(
        find_system_device(&probes, &Some("USB Microphone".to_string()), &None, Platform::Other),
        Some(SystemChoice::Listed(0))
    );
    // a requested loopback device that only answered with an empty list is still taken
    let mut empty = bare("Monitor X");
    empty.supported_inputs = Some(Vec::new());
    assert_eq!(
        find_system_device(&vec![input("Loopback"), empty], &Some("Monitor X".to_string()), &None, Platform::Other),
        Some(SystemChoice::Listed(1))
    );
}

#[test]
fn windows_tiers_follow_the_fixed_order() {
    assert_eq!(windows_priority("loopback (wasapi) speakers", true, true, &None), Some(0));
    assert_eq!(windows_priority("speakers (wasapi)", true, true, &None), Some(1));
    assert_eq!(windows_priority("динамики (wasapi)", false, true, &None), Some(1));
    assert_eq!(windows_priority("monitor", true, false, &None), Some(2));
    assert_eq!(windows_priority("stereo mix", true, false, &None), Some(3));
    assert_eq!(windows_priority("стерео микшер", true, false, &None), Some(3));
    assert_eq!(windows_priority("line in", true, true, &None), Some(4));
    assert_eq!(windows_priority("line out", false, true, &None), Some(5));
    assert_eq!(windows_priority("usb audio", true, false, &None), Some(6));
    assert_eq!(windows_priority("focusrite", true, false, &None), Some(6));
    assert_eq!(windows_priority("line in", true, false, &None), None);
    assert_eq!(windows_priority("line in", true, false, &Some("line in (2)".to_string())), Some(6));
    assert_eq!(windows_priority("my line in", true, false, &Some("line in".to_string())), Some(6));
    assert_eq!(windows_priority("loopback", false, false, &None), None);
    assert_eq!(windows_priority("microphone loopback", true, true, &None), None);
    assert_eq!(windows_priority("headset", true, true, &None), None);
    assert_eq!(windows_priority("микрофон", true, true, &None), None);
}

#[test]
fn windows_search_skips_microphones_and_ranks_the_rest() {
    let probes = vec![
        input("USB Microphone"),
        output_only("Speakers (Realtek)"),
        input("Stereo Mix (Realtek)"),
        input("Line In"),
    ];
    assert_eq!(
        find_system_device(&probes, &None, &None, Platform::Windows),
        Some(SystemChoice::Listed(2))
    );
    let plain = vec![input("USB Microphone"), output_only("Speakers (Realtek)"), output_only("HDMI")];
    assert_eq!(
        find_system_device(&plain, &None, &None, Platform::Windows),
        Some(SystemChoice::Listed(1))
    );
}

#[test]
fn windows_last_resort_is_the_default_output_device() {
    let probes = vec![input("USB Microphone"), bare("Line")];
    let default_output = input("Realtek Out");
    assert_eq!(
        find_system_device(&probes, &None, &Some(default_output.clone()), Platform::Windows),
        Some(SystemChoice::DefaultOutput)
    );
    assert_eq!(
        find_system_device(&probes, &None, &Some(default_output), Platform::Other),
        None
    );
    assert_eq!(
        find_system_device(&probes, &None, &Some(bare("Realtek Out")), Platform::Windows),
        None
    );
    assert_eq!(find_system_device(&probes, &None, &None, Platform::Windows), None);
    // a device whose name matches the default output device is a candidate of the last tier
    let named = vec![input("Line (Realtek Out)")];
    assert_eq!(
        find_system_device(&named, &None, &Some(output_only("Realtek Out")), Platform::Windows),
        Some(SystemChoice::Listed(0))
    );
}

#[test]
fn lowest_tier_wins_and_the_first_of_equals() {
    assert_eq!(lowest_tier_first(&vec![Some(3), None, Some(1), Some(1)]), Some(2));
    assert_eq!(lowest_tier_first(&vec![Some(0), Some(0)]), Some(0));
    assert_eq!(lowest_tier_first(&vec![None, Some(6)]), Some(1));
    assert_eq!(lowest_tier_first(&vec![None, None]), None);
    assert_eq!(lowest_tier_first(&Vec::new()), None);
}

#[test]
fn requested_position_needs_a_fit_name_and_an_answer() {
    let probes = vec![bare("Monitor"), input("Monitor"), input("Monitor")];
    assert_eq!(requested_position(&probes, &"Monitor".to_string(), true), Some(1));
    assert_eq!(requested_position(&probes, &"Monitor".to_string(), false), None);
    assert_eq!(requested_position(&probes, &"monitor".to_string(), true), None);
    assert_eq!(requested_position(&Vec::new(), &"Monitor".to_string(), true), None);
}

#[test]
fn last_resort_is_for_windows_rules_only() {
    assert!(last_resort_serves(Platform::Windows, &Some(input("Out"))));
    assert!(!last_resort_serves(Platform::Other, &Some(input("Out"))));
    assert!(!last_resort_serves(Platform::Windows, &Some(bare("Out"))));
    assert!(!last_resort_serves(Platform::Windows, &None));
    let mut unnamed = input("Out");
    unnamed.name = None;
    assert!(!last_resort_serves(Platform::Windows, &Some(unnamed)));
    let mut listing = bare("Out");
    listing.supported_inputs = Some(Vec::new());
    assert!(last_resort_serves(Platform::Windows, &Some(listing)));
}

#[test]
fn mixed_capture_names_the_microphone_and_searches_the_system_source() {
    let probes = vec![input("Monitor A"), input("USB Microphone"), input("Loopback")];
    let r = xexamai::resolve::resolve_devices(
        &probes,
        &Some("USB Microphone".to_string()),
        &None,
        Platform::Other,
        true,
        true,
    );
    assert_eq!(r.microphone, Some(MicrophoneChoice::Listed(1)));
    assert_eq!(r.system, Some(SystemChoice::Listed(2)));
    // the requested name is not used for the system source when a microphone is captured too
    let named = xexamai::resolve::resolve_devices(
        &probes,
        &Some("Monitor A".to_string()),
        &None,
        Platform::Other,
        true,
        true,
    );
    assert_eq!(named.microphone, Some(MicrophoneChoice::Listed(0)));
    assert_eq!(named.system, Some(SystemChoice::Listed(2)));
}

#[test]
fn single_source_captures_resolve_one_endpoint() {
    let probes = vec![input("Monitor A"), input("USB Microphone"), input("Loopback")];
    let mic = xexamai::resolve::resolve_devices(&probes, &None, &None, Platform::Other, true, false);
    assert_eq!(mic.microphone, Some(MicrophoneChoice::DefaultInput));
    assert_eq!(mic.system, None);
    let system = xexamai::resolve::resolve_devices(
        &probes,
        &Some("Monitor A".to_string()),
        &None,
        Platform::Other,
        false,
        true,
    );
    assert_eq!(system.microphone, None);
    assert_eq!(system.system, Some(SystemChoice::Listed(0)));
    let none = xexamai::resolve::resolve_devices(&probes, &None, &None, Platform::Other, false, false);
    assert_eq!(none.microphone, None);
    assert_eq!(none.system, None);
}
