use xexamai::gain::{attenuate, scale_sample, Gain, SECONDARY_GAIN_DENOMINATOR, SECONDARY_GAIN_NUMERATOR};
use xexamai::mixer::{
    frames_in, mix_cycle, normalize, peak_amplitude, producer_channels, silence, Mixer, MixerAction,
    MixerEvent, DEFAULT_SAMPLE_RATE, OUTPUT_CHANNELS,
};
use xexamai::stream::StreamSettings;

fn tenth() -> Gain {
    Gain::secondary_default()
}

#[test]
fn default_gain_is_one_tenth() {
    let g = tenth();
    assert_eq!(g.numerator, 1);
    assert_eq!(g.denominator, 10);
    assert_eq!(SECONDARY_GAIN_NUMERATOR, 1);
    assert_eq!(SECONDARY_GAIN_DENOMINATOR, 10);
}

#[test]
fn scaling_rounds_halves_away_from_zero() {
    assert_eq!(scale_sample(5, 1, 10), 1);
    assert_eq!(scale_sample(-5, 1, 10), -1);
    assert_eq!(scale_sample(4, 1, 10), 0);
    assert_eq!(scale_sample(-4, 1, 10), 0);
    assert_eq!(scale_sample(15, 1, 10), 2);
    assert_eq!(scale_sample(14, 1, 10), 1);
    assert_eq!(scale_sample(32767, 1, 10), 3277);
    assert_eq!(scale_sample(-32768, 1, 10), -3277);
    assert_eq!(scale_sample(0, 1, 10), 0);
}

#[test]
fn scaling_up_saturates() {
    assert_eq!(scale_sample(20000, 2, 1), 32767);
    assert_eq!(scale_sample(-20000, 2, 1), -32768);
    assert_eq!(scale_sample(100, 3, 2), 150);
    assert_eq!(scale_sample(1, 4_294_967_295, 1), 32767);
}

#[test]
fn attenuation_matches_the_float_rule_for_every_sample() {
    let mut s: i32 = -32768;
    while s <= 32767 {
        let expected = ((s as f32) * 0.1f32).round().clamp(-32768.0, 32767.0) as i16;
        assert_eq!(scale_sample(s as i16, 1, 10), expected, "sample {}", s);
        s += 1;
    }
}

#[test]
fn attenuate_scales_every_sample() {
    assert_eq!(attenuate(&vec![100, -100, 32767, 5], tenth()), vec![10, -10, 3277, 1]);
    assert_eq!(attenuate(&Vec::new(), tenth()), Vec::<i16>::new());
}

#[test]
fn peak_is_the_largest_magnitude() {
    assert_eq!(peak_amplitude(&Vec::new()), 0);
    assert_eq!(peak_amplitude(&vec![3, -7, 5]), 7);
    assert_eq!(peak_amplitude(&vec![-32768, 32767]), 32768);
    assert_eq!(peak_amplitude(&vec![0, 0]), 0);
}

#[test]
fn normalize_leaves_a_representable_buffer_alone() {
    let mut buf: Vec<i16> = vec![32767, -32767, 100, 0];
    normalize(&mut buf);
    assert_eq!(buf, vec![32767, -32767, 100, 0]);
}

#[test]
fn normalize_scales_linearly_when_the_peak_is_too_high() {
    let mut buf: Vec<i16> = vec![-32768, 32767, 16384, -16384, 16385, 100, 0];
    normalize(&mut buf);
    // every sample times 32767 / 32768, rounded to the nearest integer
    assert_eq!(buf, vec![-32767, 32766, 16384, -16384, 16384, 100, 0]);
    assert!(peak_amplitude(&buf) <= 32767);
}

#[test]
fn two_full_scale_sources_never_exceed_the_maximum() {
    let primary: Vec<i16> = vec![32767, -32768, 32767, -32768];
    let other: Vec<i16> = vec![32767, -32768, 32767, -32768];
    let out = mix_cycle(&primary, &vec![Some(other)], &vec![2, 2], Gain { numerator: 1, denominator: 1 });
    assert_eq!(out.len(), 4);
    assert!(peak_amplitude(&out) <= 32767);
    // sums saturate to 32767 and -32768; the peak of 32768 scales both by 32767/32768
    assert_eq!(out, vec![32766, -32767, 32766, -32767]);
}

#[test]
fn mixed_scenario_mono_microphone_and_stereo_system() {
    let mic: Vec<i16> = vec![32767; 480];
    let system: Vec<i16> = vec![32767; 960];
    let mixer = Mixer::new(&vec![
        StreamSettings { channels: 1, sample_rate: 48000 },
        StreamSettings { channels: 2, sample_rate: 48000 },
    ]);
    assert!(mixer.has_producers());
    match mixer.on_event(MixerEvent::Primary { chunk: mic, others: vec![Some(system)] }) {
        MixerAction::Emit(chunk) => {
            assert_eq!(chunk.sample_rate, 48000);
            assert_eq!(chunk.channels, 2);
            assert_eq!(chunk.samples.len(), 960);
            for frame in 0..480 {
                let left = chunk.samples[2 * frame];
                let right = chunk.samples[2 * frame + 1];
                assert!((left as i32).abs() <= 32767);
                assert_eq!(left, right);
                assert_eq!(left, 32767);
            }
        }
        MixerAction::Exit => panic!("a primary chunk must be emitted"),
    }
}

#[test]
fn secondary_is_attenuated_and_cut_to_the_primary() {
    let primary: Vec<i16> = vec![100, 200];
    let other: Vec<i16> = vec![1000, 2000, 3000, 4000, 5000, 6000];
    let out = mix_cycle(&primary, &vec![Some(other)], &vec![1, 2], tenth());
    // primary duplicated: [100,100,200,200]; secondary frames cut to 2: [100,200,300,400]
    assert_eq!(out, vec![200, 300, 500, 600]);
}

#[test]
fn absent_secondary_and_missing_layout_entries() {
    let primary: Vec<i16> = vec![1, 2, 3, 4];
    let out = mix_cycle(&primary, &vec![None, Some(vec![100, 200])], &vec![2], tenth());
    // the third producer has no layout entry: it counts as mono
    assert_eq!(out, vec![11, 12, 23, 24]);
    let alone = mix_cycle(&primary, &Vec::new(), &vec![2], tenth());
    assert_eq!(alone, vec![1, 2, 3, 4]);
}

#[test]
fn stereo_primary_with_odd_sample_count_drops_the_tail() {
    let out = mix_cycle(&vec![1, 2, 3], &Vec::new(), &vec![2], tenth());
    assert_eq!(out, vec![1, 2]);
    let empty = mix_cycle(&Vec::new(), &vec![Some(vec![5, 5])], &vec![1, 1], tenth());
    assert!(empty.is_empty());
}

#[test]
fn zero_channel_primary_gives_silence_of_its_length() {
    let out = mix_cycle(&vec![9, 9], &Vec::new(), &vec![0], tenth());
    assert_eq!(out, vec![0, 0, 0, 0]);
}

#[test]
fn mixer_takes_rate_and_layout_from_the_settings() {
    let mixer = Mixer::new(&vec![
        StreamSettings { channels: 1, sample_rate: 44100 },
        StreamSettings { channels: 6, sample_rate: 48000 },
    ]);
    assert_eq!(mixer.layout, vec![1, 6]);
    assert_eq!(mixer.sample_rate, 44100);
    assert_eq!(mixer.gain.numerator, 1);
    assert_eq!(mixer.gain.denominator, 10);
    let none = Mixer::new(&Vec::new());
    assert!(!none.has_producers());
    assert_eq!(none.sample_rate, DEFAULT_SAMPLE_RATE);
    assert_eq!(OUTPUT_CHANNELS, 2);
}

#[test]
fn stop_and_closed_queue_end_the_loop() {
    let mixer = Mixer::new(&vec![StreamSettings { channels: 2, sample_rate: 48000 }]);
    assert!(matches!(mixer.on_event(MixerEvent::Stop), MixerAction::Exit));
    assert!(matches!(mixer.on_event(MixerEvent::PrimaryClosed), MixerAction::Exit));
}

#[test]
fn chunks_are_emitted_in_the_order_received() {
    let mixer = Mixer::new(&vec![StreamSettings { channels: 2, sample_rate: 16000 }]);
    let mut seen: Vec<i16> = Vec::new();
    for k in 0..5i16 {
        match mixer.on_event(MixerEvent::Primary { chunk: vec![k, k], others: Vec::new() }) {
            MixerAction::Emit(chunk) => seen.push(chunk.samples[0]),
            MixerAction::Exit => panic!("a primary chunk must be emitted"),
        }
    }
    assert_eq!(seen, vec![0, 1, 2, 3, 4]);
}

#[test]
fn small_helpers() {
    assert_eq!(silence(3), vec![0, 0, 0]);
    assert_eq!(silence(0), Vec::<i16>::new());
    assert_eq!(frames_in(10, 2), 5);
    assert_eq!(frames_in(10, 0), 10);
    assert_eq!(frames_in(10, 1), 10);
    assert_eq!(frames_in(7, 3), 2);
    assert_eq!(producer_channels(&vec![2, 6], 1), 6);
    assert_eq!(producer_channels(&vec![2, 6], 2), 1);
}
