use xexamai::float32::{convert_f32_buffer, pcm_from_f32_bits};
use xexamai::frame::{normalize_frame, NativeSamples, RawFrame};
use xexamai::sample::{
    convert_u16_buffer, pcm_from_u16, pcm_to_u16, sample_magnitude, saturating_sum, SAMPLE_MAX,
    U16_MIDPOINT,
};

fn exact_reference(x: f32) -> i16 {
    let held: f64 = if x.is_nan() {
        -1.0
    } else {
        (x as f64).max(-1.0).min(1.0)
    };
    (held * 32767.0).round() as i16
}

#[test]
fn unsigned_samples_lose_the_midpoint() {
    assert_eq!(pcm_from_u16(0), -32768);
    assert_eq!(pcm_from_u16(32768), 0);
    assert_eq!(pcm_from_u16(65535), 32767);
    assert_eq!(pcm_from_u16(U16_MIDPOINT), 0);
    assert_eq!(pcm_from_u16(32769), 1);
    assert_eq!(pcm_from_u16(32767), -1);
}

#[test]
fn unsigned_round_trip_is_identity_for_every_sample() {
    let mut s: u32 = 0;
    while s <= 65535 {
        let signed = pcm_from_u16(s as u16);
        assert_eq!(pcm_to_u16(signed), s as u16);
        assert_eq!(signed >= 0, s >= 32768);
        s += 1;
    }
}

#[test]
fn unsigned_buffer_converts_one_for_one() {
    let out = convert_u16_buffer(&vec![0, 1, 32768, 40000, 65535]);
    assert_eq!(out, vec![-32768, -32767, 0, 7232, 32767]);
    assert_eq!(convert_u16_buffer(&Vec::new()), Vec::<i16>::new());
}

#[test]
fn sums_saturate_instead_of_wrapping() {
    assert_eq!(saturating_sum(32767, 1), 32767);
    assert_eq!(saturating_sum(-32768, -1), -32768);
    assert_eq!(saturating_sum(32767, 32767), SAMPLE_MAX);
    assert_eq!(saturating_sum(-32768, -32768), -32768);
    assert_eq!(saturating_sum(100, -30), 70);
    assert_eq!(saturating_sum(-32768, 32767), -1);
}

#[test]
fn magnitude_of_the_most_negative_sample_is_32768() {
    assert_eq!(sample_magnitude(-32768), 32768);
    assert_eq!(sample_magnitude(32767), 32767);
    assert_eq!(sample_magnitude(0), 0);
    assert_eq!(sample_magnitude(-5), 5);
}

#[test]
fn float_half_rounds_up_to_16384() {
    assert_eq!(pcm_from_f32_bits(0.5f32.to_bits()), 16384);
    assert_eq!(pcm_from_f32_bits((-0.5f32).to_bits()), -16384);
}

#[test]
fn float_full_scale_and_beyond_is_clamped() {
    assert_eq!(pcm_from_f32_bits(1.0f32.to_bits()), 32767);
    assert_eq!(pcm_from_f32_bits((-1.0f32).to_bits()), -32767);
    assert_eq!(pcm_from_f32_bits(2.5f32.to_bits()), 32767);
    assert_eq!(pcm_from_f32_bits((-7.0f32).to_bits()), -32767);
    assert_eq!(pcm_from_f32_bits(f32::INFINITY.to_bits()), 32767);
    assert_eq!(pcm_from_f32_bits(f32::NEG_INFINITY.to_bits()), -32767);
    assert_eq!(pcm_from_f32_bits(f32::MAX.to_bits()), 32767);
}

#[test]
fn float_zero_and_tiny_values_are_silence() {
    assert_eq!(pcm_from_f32_bits(0.0f32.to_bits()), 0);
    assert_eq!(pcm_from_f32_bits((-0.0f32).to_bits()), 0);
    assert_eq!(pcm_from_f32_bits(f32::MIN_POSITIVE.to_bits()), 0);
    assert_eq!(pcm_from_f32_bits(1u32), 0);
    assert_eq!(pcm_from_f32_bits(1.0e-6f32.to_bits()), 0);
    assert_eq!(pcm_from_f32_bits((0.4f32 / 32767.0).to_bits()), 0);
    assert_eq!(pcm_from_f32_bits((0.6f32 / 32767.0).to_bits()), 1);
}

#[test]
fn float_not_a_number_converts_as_minus_one() {
    assert_eq!(pcm_from_f32_bits(f32::NAN.to_bits()), -32767);
    assert_eq!(pcm_from_f32_bits(0x7fc0_0001), -32767);
    assert_eq!(pcm_from_f32_bits(0xffc0_0000), -32767);
}

#[test]
fn float_conversion_is_the_nearest_integer_over_a_sweep() {
    let mut bits: u32 = 0;
    let mut checked: u32 = 0;
    loop {
        let x = f32::from_bits(bits);
        assert_eq!(pcm_from_f32_bits(bits), exact_reference(x), "bits {:#x}", bits);
        let negative = bits | 0x8000_0000;
        assert_eq!(
            pcm_from_f32_bits(negative),
            exact_reference(f32::from_bits(negative)),
            "bits {:#x}",
            negative
        );
        checked += 1;
        match bits.checked_add(104_729) {
            Some(next) if next < 0x8000_0000 => bits = next,
            _ => break,
        }
    }
    assert!(checked > 20_000);
}

#[test]
fn float_conversion_keeps_the_sign() {
    let values: [f32; 8] = [0.25, -0.25, 0.999, -0.999, 0.0001, -0.0001, 0.75, -0.75];
    for v in values.iter() {
        let s = pcm_from_f32_bits(v.to_bits());
        if *v > 0.0 {
            assert!(s > 0);
        } else {
            assert!(s < 0);
        }
    }
    assert_eq!(pcm_from_f32_bits(0.25f32.to_bits()), 8192);
    assert_eq!(pcm_from_f32_bits((-0.25f32).to_bits()), -8192);
    assert_eq!(pcm_from_f32_bits(0.75f32.to_bits()), 24575);
}

#[test]
fn float_buffer_converts_one_for_one() {
    let data: Vec<u32> = vec![0.0f32.to_bits(), 0.5f32.to_bits(), (-1.0f32).to_bits(), 3.0f32.to_bits()];
    assert_eq!(convert_f32_buffer(&data), vec![0, 16384, -32767, 32767]);
    assert_eq!(convert_f32_buffer(&Vec::new()), Vec::<i16>::new());
}

#[test]
fn frames_convert_by_their_native_format() {
    let signed = RawFrame { samples: NativeSamples::I16(vec![-3, 0, 7]), channels: 1, sample_rate: 48000 };
    assert_eq!(normalize_frame(signed), vec![-3, 0, 7]);
    let unsigned = RawFrame { samples: NativeSamples::U16(vec![0, 32768, 65535]), channels: 1, sample_rate: 48000 };
    assert_eq!(normalize_frame(unsigned), vec![-32768, 0, 32767]);
    let floats = RawFrame {
        samples: NativeSamples::F32(vec![0.5f32.to_bits(), (-1.5f32).to_bits(), 0.0f32.to_bits()]),
        channels: 2,
        sample_rate: 44100,
    };
    assert_eq!(normalize_frame(floats), vec![16384, -32767, 0]);
    let empty = RawFrame { samples: NativeSamples::F32(Vec::new()), channels: 2, sample_rate: 44100 };
    assert!(normalize_frame(empty).is_empty());
}
