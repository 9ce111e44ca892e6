//! Tests for the audio-format conversions.

use whisper_rs::{convert_integer_to_float_audio, convert_stereo_to_mono_check, WhisperError};

#[test]
fn integer_to_float_zero_samples_give_zero_floats() {
    let samples = [0i16; 1024];
    let mut output = vec![0u32; 1024];
    let result = convert_integer_to_float_audio(&samples, &mut output);
    assert!(result.is_ok());
    assert_eq!(output.len(), 1024);
    for bits in output {
        assert_eq!(f32::from_bits(bits), 0.0f32);
    }
}

#[test]
fn integer_to_float_matches_float_division_for_every_sample() {
    let samples: Vec<i16> = (i16::MIN..=i16::MAX).collect();
    let mut output = vec![0u32; samples.len()];
    convert_integer_to_float_audio(&samples, &mut output).unwrap();
    for (sample, bits) in samples.iter().zip(output.iter()) {
        let expected = *sample as f32 / 32768.0f32;
        assert_eq!(
            *bits,
            expected.to_bits(),
            "sample {} converted to {:#010x}, hardware gives {:#010x}",
            sample,
            bits,
            expected.to_bits()
        );
    }
}

#[test]
fn integer_to_float_rejects_mismatched_lengths_and_leaves_output() {
    let samples = [100i16; 8];
    let mut output = vec![7u32; 6];
    let result = convert_integer_to_float_audio(&samples, &mut output);
    assert_eq!(
        result,
        Err(WhisperError::InputOutputLengthMismatch {
            input_len: 8,
            output_len: 6,
        })
    );
    assert_eq!(output, vec![7u32; 6]);
}

#[test]
fn integer_to_float_converts_known_values() {
    let samples = [16384i16, -16384, 32767, -32768, 1];
    let mut output = vec![0u32; 5];
    convert_integer_to_float_audio(&samples, &mut output).unwrap();
    assert_eq!(f32::from_bits(output[0]), 0.5f32);
    assert_eq!(f32::from_bits(output[1]), -0.5f32);
    assert_eq!(f32::from_bits(output[2]), 32767.0f32 / 32768.0f32);
    assert_eq!(f32::from_bits(output[3]), -1.0f32);
    assert_eq!(f32::from_bits(output[4]), 1.0f32 / 32768.0f32);
}

#[test]
fn stereo_to_mono_accepts_matching_lengths() {
    let result = convert_stereo_to_mono_check(1024, 512);
    assert_eq!(result, Ok(512));
}

#[test]
fn stereo_to_mono_rejects_odd_input() {
    let result = convert_stereo_to_mono_check(1023, 512);
    assert_eq!(result, Err(WhisperError::HalfSampleMissing(1023)));
}

#[test]
fn stereo_to_mono_reports_pair_count_on_mismatch() {
    let input_len: usize = 1_048_576;
    let output_len = input_len / 2 - 1;
    let result = convert_stereo_to_mono_check(input_len, output_len);
    match result {
        Err(WhisperError::InputOutputLengthMismatch {
            input_len: reported_input,
            output_len: reported_output,
        }) => {
            assert_eq!(
                reported_input,
                input_len / 2,
                "resulting input length is not half of num samples"
            );
            assert_eq!(
                reported_output, output_len,
                "resulting output length is not the same as the output array"
            );
        }
        other => panic!("result was not a length mismatch: got {:?}", other),
    }
}

#[test]
fn integer_to_float_accepts_empty_buffers() {
    let samples: [i16; 0] = [];
    let mut output: Vec<u32> = Vec::new();
    assert!(convert_integer_to_float_audio(&samples, &mut output).is_ok());
    assert!(output.is_empty());
    assert_eq!(convert_stereo_to_mono_check(0, 0), Ok(0));
}
