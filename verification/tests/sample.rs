use splitstream::sample::{all_finite, is_finite, quantize, quantize_frame, sample_of, samples_of, silence};

fn pcm(x: f32) -> i16 {
    (x * 32767.0).clamp(-32768.0, 32767.0) as i16
}

#[test]
fn quantize_agrees_with_float_arithmetic() {
    // Every exponent and both signs, with fractions spread over their range.
    for head in 0u32..512 {
        if head % 256 == 255 {
            continue;
        }
        for step in 0u32..600 {
            let fraction = step.wrapping_mul(0x3_6ef1) & 0x7f_ffff;
            let bits = head << 23 | fraction;
            assert_eq!(quantize(bits), pcm(f32::from_bits(bits)), "{bits:#x}");
        }
    }
}

#[test]
fn quantize_agrees_with_float_arithmetic_near_pcm_steps() {
    for n in 0u32..=32768 {
        let middle = (n as f32 / 32767.0).to_bits();
        for bits in middle.saturating_sub(3)..middle + 4 {
            let positive = f32::from_bits(bits);
            assert_eq!(quantize(bits), pcm(positive));
            let negative = -positive;
            assert_eq!(quantize(negative.to_bits()), pcm(negative));
        }
    }
}

#[test]
fn quantize_exact_values() {
    assert_eq!(quantize(0.0f32.to_bits()), 0);
    assert_eq!(quantize((-0.0f32).to_bits()), 0);
    assert_eq!(quantize(1.0f32.to_bits()), 32767);
    assert_eq!(quantize((-1.0f32).to_bits()), -32767);
    assert_eq!(quantize(f32::MAX.to_bits()), 32767);
    assert_eq!(quantize(f32::MIN.to_bits()), -32768);
    assert_eq!(quantize(1), 0);
    assert_eq!(
        quantize_frame(&[0.5f32.to_bits(), (-0.25f32).to_bits()]),
        vec![16383, -8191]
    );
}

#[test]
fn samples_are_exact_quotients() {
    for value in i16::MIN..=i16::MAX {
        assert_eq!(f32::from_bits(sample_of(value)), value as f32 / 32768.0);
        assert_eq!(sample_of(value), (value as f32 / 32768.0).to_bits());
    }
    assert_eq!(
        samples_of(&[0, 16384, -32768]),
        vec![0.0f32.to_bits(), 0.5f32.to_bits(), (-1.0f32).to_bits()]
    );
}

#[test]
fn finite_agrees_with_the_standard_library() {
    for head in 0u32..512 {
        for fraction in [0u32, 1, 0x40_0000, 0x7f_ffff] {
            let bits = head << 23 | fraction;
            assert_eq!(is_finite(bits), f32::from_bits(bits).is_finite());
        }
    }
    assert!(all_finite(&[0, 1.0f32.to_bits()]));
    assert!(!all_finite(&[0, f32::NEG_INFINITY.to_bits()]));
}

#[test]
fn silence_is_zero() {
    assert_eq!(silence(3), vec![0.0f32.to_bits(); 3]);
}
