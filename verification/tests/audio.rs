use m5a_core::audio::{
    decode_ulaw, decode_ulaw_block, encode_ulaw, encode_ulaw_block, measure_level, pcm16_bytes,
    pcm16_samples, resampled_length, wire_bytes, wire_samples,
};
use m5a_core::config::AudioFormat;

/// The two codes of zero in G.711.
const NEGATIVE_ZERO: u8 = 0x7F;
const POSITIVE_ZERO: u8 = 0xFF;


#[test]
fn silence_maps_to_the_standard_ulaw_byte() {
    assert_eq!(encode_ulaw(0), 0xFF);
    assert_eq!(decode_ulaw(0xFF), 0);
}

#[test]
fn every_ulaw_byte_survives_a_round_trip() {
    // G.711 は 0 に正負ふたつの符号を持つ。負のゼロ 0x7F を復号すると 0 になり、
    // 再び符号化すると正のゼロ 0xFF になるため、そこだけは別扱いにする。
    for encoded in 0..=u8::MAX {
        let decoded = decode_ulaw(encoded);
        let expected = if encoded == NEGATIVE_ZERO {
            POSITIVE_ZERO
        } else {
            encoded
        };

        assert_eq!(
            encode_ulaw(decoded),
            expected,
            "μ-law {encoded:#04x} が往復で変わった"
        );
    }
}

#[test]
fn both_signed_zeros_decode_to_silence() {
    assert_eq!(decode_ulaw(0x7F), 0);
    assert_eq!(decode_ulaw(0xFF), 0);
}

#[test]
fn keeps_quantisation_error_within_the_ulaw_budget() {
    // μ-law の誤差は振幅に比例する。振幅の 12% 以内なら聴感上問題ない。
    for sample in (-32_000..32_000).step_by(97) {
        let restored = decode_ulaw(encode_ulaw(sample));
        let error = (i32::from(restored) - i32::from(sample)).abs();
        let budget = (i32::from(sample).abs() / 8).max(180);

        assert!(
            error <= budget,
            "{sample} → {restored} の誤差 {error} が許容 {budget} を超えた"
        );
    }
}

#[test]
fn preserves_the_sign_of_the_sample() {
    assert!(decode_ulaw(encode_ulaw(5_000)) > 0);
    assert!(decode_ulaw(encode_ulaw(-5_000)) < 0);
}

#[test]
fn converts_blocks_in_both_directions() {
    let samples = [0, 1_000, -1_000, 20_000, -20_000];

    let restored = decode_ulaw_block(&encode_ulaw_block(&samples));

    assert_eq!(restored.len(), samples.len());
    assert_eq!(restored[0], 0);
}

#[test]
fn level_rises_with_amplitude() {
    let silence = measure_level(&[0; 100]);
    let quiet = measure_level(&[500; 100]);
    let loud = measure_level(&[20_000; 100]);

    assert_eq!(silence, 0);
    assert!(quiet < loud);
    assert_eq!(loud, 100);
}

#[test]
fn level_of_an_empty_block_is_zero() {
    assert_eq!(measure_level(&[]), 0);
}

#[test]
fn resampled_lengths_follow_the_ratio_of_the_rates() {

    assert_eq!(resampled_length(0, 16_000, 8_000), 0);
    assert_eq!(resampled_length(5, 0, 8_000), 0);
    assert_eq!(resampled_length(5, 8_000, 0), 0);
    assert_eq!(resampled_length(4, 16_000, 16_000), 4);
    assert_eq!(resampled_length(160, 16_000, 8_000), 80);
    assert_eq!(resampled_length(10, 8_000, 24_000), 30);
    assert_eq!(resampled_length(7, 24_000, 8_000), 2);
}

#[test]
fn the_extremes_encode_to_the_ends_of_the_scale() {
    assert_eq!(encode_ulaw(i16::MAX), 0x80);
    assert_eq!(encode_ulaw(i16::MIN), 0x00);
    assert_eq!(decode_ulaw(0x80), 32_124);
    assert_eq!(decode_ulaw(0x00), -32_124);
}

#[test]
fn a_steady_tone_has_a_level_of_its_amplitude_over_sixty() {
    assert_eq!(measure_level(&[600; 10]), 10);
    assert_eq!(measure_level(&[-600; 10]), 10);
    assert_eq!(measure_level(&[59; 3]), 0);
}

#[test]
fn pcm16_is_sent_low_byte_first() {
    assert_eq!(pcm16_bytes(&[0x1234, -2, 0]), vec![0x34, 0x12, 0xFE, 0xFF, 0x00, 0x00]);
}

#[test]
fn pcm16_bytes_read_back_as_the_same_samples() {
    let samples = [0_i16, 1, -1, i16::MAX, i16::MIN, 0x1234];
    assert_eq!(pcm16_samples(&pcm16_bytes(&samples)), samples.to_vec());
}

#[test]
fn a_last_odd_byte_is_not_a_sample() {
    assert_eq!(pcm16_samples(&[0x34, 0x12, 0x7F]), vec![0x1234]);
    assert_eq!(pcm16_samples(&[0x01]), Vec::<i16>::new());
}

#[test]
fn wire_format_decides_the_encoding() {
    let samples = [0_i16, 1000, -1000];
    assert_eq!(wire_bytes(&samples, AudioFormat::Ulaw), encode_ulaw_block(&samples));
    assert_eq!(wire_bytes(&samples, AudioFormat::Pcm16), pcm16_bytes(&samples));
    assert_eq!(wire_bytes(&samples, AudioFormat::Pcm16).len(), 6);

    let received = [0xFF_u8, 0x00, 0x80];
    assert_eq!(wire_samples(&received, AudioFormat::Ulaw), decode_ulaw_block(&received));
    assert_eq!(wire_samples(&received, AudioFormat::Pcm16), vec![0x00FF]);
}
