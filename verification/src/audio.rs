//! Conversion of audio samples.
//!
//! The conversation service is spoken to in G.711 μ-law: PCM16 in base64
//! would need close to 500 kbps each way, which the device's wireless link
//! cannot hold steadily, while 8 kHz μ-law needs about 85 kbps.

use vstd::prelude::*;

use crate::config::AudioFormat;

verus! {

/// Bias added before μ-law encoding (ITU-T G.711).
pub const BIAS: i32 = 0x84;
/// Largest magnitude μ-law can express (14-bit scale).
pub const CLIP: i32 = 8_159;
/// The RMS level at which the mouth opens fully; speech rarely reaches full
/// scale, so the mouth moves visibly at conversational loudness.
pub const MOUTH_FULL_SCALE_RMS: i64 = 6_000;

/// The segment (exponent) of a biased magnitude: the first segment whose
/// upper end is at least the magnitude, or 8 when none is.
pub open spec fn segment_of(magnitude: i32) -> i32 {
    if magnitude <= 0x3F {
        0
    } else if magnitude <= 0x7F {
        1
    } else if magnitude <= 0xFF {
        2
    } else if magnitude <= 0x1FF {
        3
    } else if magnitude <= 0x3FF {
        4
    } else if magnitude <= 0x7FF {
        5
    } else if magnitude <= 0xFFF {
        6
    } else if magnitude <= 0x1FFF {
        7
    } else {
        8
    }
}

/// The G.711 μ-law byte of one PCM16 sample: the magnitude (a quarter of
/// the sample, clipped and biased) is split into a 3-bit segment and a 4-bit
/// mantissa, the sign goes to the top bit, and all bits are inverted.
pub open spec fn ulaw_of(sample: i16) -> u8 {
    let quarter: i32 = (sample as i32) >> 2u32;
    let negative = quarter < 0;
    let mask: i32 = if negative { 0x7F } else { 0xFF };
    let magnitude0: i32 = if negative { (-quarter) as i32 } else { quarter };
    let clipped: i32 = if magnitude0 > CLIP { CLIP } else { magnitude0 };
    let magnitude: i32 = (clipped + (BIAS >> 2u32)) as i32;
    let segment = segment_of(magnitude);
    if segment >= 8 {
        (0x7F ^ mask) as u8
    } else {
        let mantissa: i32 = (magnitude >> ((segment + 1) as u32)) & 0x0F;
        (((segment << 4u32) | mantissa) as u8) ^ (mask as u8)
    }
}

/// The PCM16 sample a μ-law byte stands for.
pub open spec fn linear_of(encoded: u8) -> i16 {
    let value: u8 = !encoded;
    let mantissa: i32 = (value & 0x0F) as i32;
    let exponent: u32 = ((value & 0x70) >> 4u8) as u32;
    let magnitude: i32 = (((mantissa << 3u32) + BIAS) as i32) << exponent;
    let sample: i32 = if value & 0x80 != 0 { (BIAS - magnitude) as i32 } else { (magnitude - BIAS) as i32 };
    if sample < i16::MIN {
        i16::MIN
    } else if sample > i16::MAX {
        i16::MAX
    } else {
        sample as i16
    }
}

/// Encodes one PCM16 sample as one μ-law byte.
pub fn encode_ulaw(sample: i16) -> (encoded: u8)
    ensures
        encoded == ulaw_of(sample),
{
    let quarter: i32 = (sample as i32) >> 2u32;
    proof {
        assert(-8192 <= quarter <= 8191) by (bit_vector)
            requires
                quarter == (sample as i32) >> 2u32,
        ;
    }
    let mut magnitude = quarter;
    let mask: i32 = if magnitude < 0 {
        magnitude = -magnitude;
        0x7F
    } else {
        0xFF
    };
    if magnitude > CLIP {
        magnitude = CLIP;
    }
    proof {
        assert(BIAS >> 2u32 == 33) by (bit_vector);
    }
    magnitude = magnitude + (BIAS >> 2u32);
    let segment = find_segment(magnitude);
    if segment >= 8 {
        return (0x7F ^ mask) as u8;
    }
    let mantissa = (magnitude >> ((segment + 1) as u32)) & 0x0F;
    (((segment << 4u32) | mantissa) as u8) ^ (mask as u8)
}

/// Decodes one μ-law byte to a PCM16 sample.
pub fn decode_ulaw(encoded: u8) -> (sample: i16)
    ensures
        sample == linear_of(encoded),
{
    let value: u8 = !encoded;
    let mantissa: i32 = (value & 0x0F) as i32;
    let exponent: u32 = ((value & 0x70) >> 4u8) as u32;
    proof {
        assert(value & 0x0F <= 15) by (bit_vector);
        assert((value & 0x70) >> 4u8 <= 7) by (bit_vector);
    }
    let shifted: i32 = mantissa << 3u32;
    proof {
        assert(0 <= shifted <= 120) by (bit_vector)
            requires
                shifted == mantissa << 3u32,
                0 <= mantissa <= 15,
        ;
    }
    let base: i32 = shifted + BIAS;
    let magnitude: i32 = base << exponent;
    proof {
        assert(0 <= magnitude <= 32256) by (bit_vector)
            requires
                magnitude == base << exponent,
                132 <= base <= 252,
                exponent <= 7,
        ;
    }
    let sample: i32 = if value & 0x80 != 0 {
        BIAS - magnitude
    } else {
        magnitude - BIAS
    };
    if sample < i16::MIN as i32 {
        i16::MIN
    } else if sample > i16::MAX as i32 {
        i16::MAX
    } else {
        sample as i16
    }
}

/// The first segment whose upper end reaches `magnitude`.
fn find_segment(magnitude: i32) -> (segment: i32)
    ensures
        segment == segment_of(magnitude),
        0 <= segment <= 8,
{
    let ends: [i32; 8] = [0x3F, 0x7F, 0xFF, 0x1FF, 0x3FF, 0x7FF, 0xFFF, 0x1FFF];
    let mut index: usize = 0;
    while index < 8
        invariant
            0 <= index <= 8,
            ends@ == seq![0x3Fi32, 0x7F, 0xFF, 0x1FF, 0x3FF, 0x7FF, 0xFFF, 0x1FFF],
            forall|k: int| 0 <= k < index ==> magnitude > #[trigger] ends@[k],
        decreases 8 - index,
    {
        if magnitude <= ends[index] {
            proof {
                assert(magnitude > ends@[0] || index == 0);
            }
            return index as i32;
        }
        index = index + 1;
    }
    8
}

/// Encodes a block of PCM16 samples.
pub fn encode_ulaw_block(samples: &[i16]) -> (encoded: Vec<u8>)
    ensures
        encoded@.len() == samples@.len(),
        forall|i: int| 0 <= i < samples@.len() ==> encoded@[i] == ulaw_of(#[trigger] samples@[i]),
{
    let mut encoded: Vec<u8> = Vec::with_capacity(samples.len());
    let mut i: usize = 0;
    while i < samples.len()
        invariant
            i <= samples@.len(),
            encoded@.len() == i,
            forall|k: int| 0 <= k < i ==> encoded@[k] == ulaw_of(#[trigger] samples@[k]),
        decreases samples.len() - i,
    {
        encoded.push(encode_ulaw(samples[i]));
        i = i + 1;
    }
    encoded
}

/// Decodes a block of μ-law bytes.
pub fn decode_ulaw_block(encoded: &[u8]) -> (samples: Vec<i16>)
    ensures
        samples@.len() == encoded@.len(),
        forall|i: int| 0 <= i < encoded@.len() ==> samples@[i] == linear_of(#[trigger] encoded@[i]),
{
    let mut samples: Vec<i16> = Vec::with_capacity(encoded.len());
    let mut i: usize = 0;
    while i < encoded.len()
        invariant
            i <= encoded@.len(),
            samples@.len() == i,
            forall|k: int| 0 <= k < i ==> samples@[k] == linear_of(#[trigger] encoded@[k]),
        decreases encoded.len() - i,
    {
        samples.push(decode_ulaw(encoded[i]));
        i = i + 1;
    }
    samples
}

/// Every μ-law byte survives decoding and encoding again, except the
/// negative zero 0x7F, which comes back as the positive zero 0xFF.
pub proof fn law_ulaw_round_trip(encoded: u8)
    by (bit_vector)
    ensures
        encoded != 0x7F ==> ulaw_of(linear_of(encoded)) == encoded,
        encoded == 0x7F ==> ulaw_of(linear_of(encoded)) == 0xFF,
{
}

/// Both zeros of μ-law decode to silence, and silence encodes to 0xFF.
pub proof fn law_signed_zeros_are_silence()
    by (bit_vector)
    ensures
        linear_of(0x7F) == 0,
        linear_of(0xFF) == 0,
        ulaw_of(0) == 0xFF,
{
}

/// Encoding keeps the sign of a sample.
pub proof fn law_ulaw_keeps_the_sign(sample: i16)
    by (bit_vector)
    ensures
        sample > 0 ==> linear_of(ulaw_of(sample)) >= 0,
        sample < 0 ==> linear_of(ulaw_of(sample)) <= 0,
{
}

/// The error of encoding and decoding grows with the amplitude and stays
/// within an eighth of it (and never above 180 for small samples), across
/// the range of speech levels up to ±32,000.
pub proof fn law_ulaw_error_budget(sample: i16)
    by (bit_vector)
    requires
        -32000 <= sample < 32000,
    ensures
        ({
            let restored = linear_of(ulaw_of(sample));
            let error = if restored >= sample { restored - sample } else { sample - restored };
            let size = if sample >= 0 { sample as int } else { -sample };
            let budget = if size / 8 > 180 { size / 8 } else { 180 };
            error <= budget
        }),
{
}

/// The sum of the squares of the samples.
pub open spec fn sum_of_squares(samples: Seq<i16>) -> int
    decreases samples.len(),
{
    if samples.len() == 0 {
        0
    } else {
        sum_of_squares(samples.drop_last()) + samples.last() * samples.last()
    }
}

/// `root` is the integer square root of `n`, rounded down.
pub open spec fn is_floor_sqrt(root: int, n: int) -> bool {
    0 <= root && root * root <= n < (root + 1) * (root + 1)
}

pub open spec fn floor_sqrt(n: int) -> int {
    choose|root: int| is_floor_sqrt(root, n)
}

/// The loudness (0 to 100) of a block: its RMS, rounded down, scaled so
/// that an RMS of 6,000 opens the mouth fully.
pub open spec fn level_of(samples: Seq<i16>) -> u8 {
    if samples.len() == 0 {
        0
    } else {
        let rms = floor_sqrt(sum_of_squares(samples) / (samples.len() as int));
        let level = rms * 100 / (MOUTH_FULL_SCALE_RMS as int);
        if level > 100 {
            100
        } else {
            level as u8
        }
    }
}

proof fn lemma_floor_sqrt_unique(a: int, b: int, n: int)
    requires
        is_floor_sqrt(a, n),
        is_floor_sqrt(b, n),
    ensures
        a == b,
{
    if a < b {
        assert((a + 1) * (a + 1) <= b * b) by (nonlinear_arith)
            requires
                0 <= a,
                a + 1 <= b,
        ;
    }
    if b < a {
        assert((b + 1) * (b + 1) <= a * a) by (nonlinear_arith)
            requires
                0 <= b,
                b + 1 <= a,
        ;
    }
}

proof fn lemma_floor_sqrt_is(root: int, n: int)
    requires
        is_floor_sqrt(root, n),
    ensures
        floor_sqrt(n) == root,
{
    assert(is_floor_sqrt(floor_sqrt(n), n));
    lemma_floor_sqrt_unique(floor_sqrt(n), root, n);
}

/// The integer square root of `n`, rounded down.
fn floor_sqrt_of(n: u64) -> (root: u64)
    requires
        n <= 0x4000_0000,
    ensures
        is_floor_sqrt(root as int, n as int),
        root == floor_sqrt(n as int),
        root <= 32_768,
{
    let mut low: u64 = 0;
    let mut high: u64 = 32_769;
    while high - low > 1
        invariant
            low < high <= 32_769,
            low * low <= n,
            n < high * high,
        decreases high - low,
    {
        let middle = low + (high - low) / 2;
        assert(middle * middle <= 32_769 * 32_769) by (nonlinear_arith)
            requires
                middle <= 32_769,
        ;
        if middle * middle <= n {
            low = middle;
        } else {
            high = middle;
        }
    }
    proof {
        lemma_floor_sqrt_is(low as int, n as int);
    }
    low
}

/// The loudness of a block, 0 to 100; it sets how far the mouth opens.
pub fn measure_level(samples: &[i16]) -> (level: u8)
    requires
        samples@.len() <= 0x1_0000_0000,
    ensures
        level == level_of(samples@),
{
    if samples.len() == 0 {
        return 0;
    }
    let mut sum: i64 = 0;
    let mut i: usize = 0;
    while i < samples.len()
        invariant
            i <= samples@.len(),
            samples@.len() <= 0x1_0000_0000,
            sum == sum_of_squares(samples@.take(i as int)),
            0 <= sum <= i * 0x4000_0000,
        decreases samples.len() - i,
    {
        let value = samples[i] as i64;
        assert(0 <= value * value <= 0x4000_0000) by (nonlinear_arith)
            requires
                -32768 <= value <= 32767,
        ;
        assert(samples@.take(i + 1).drop_last() == samples@.take(i as int));
        sum = sum + value * value;
        i = i + 1;
    }
    assert(samples@.take(samples@.len() as int) == samples@);
    let count = samples.len() as i64;
    let mean = sum / count;
    assert(mean <= 0x4000_0000) by (nonlinear_arith)
        requires
            0 <= sum <= count * 0x4000_0000,
            count > 0,
            mean == sum / count,
    ;
    let rms = floor_sqrt_of(mean as u64) as i64;
    let scaled = rms * 100 / MOUTH_FULL_SCALE_RMS;
    if scaled > 100 {
        100
    } else {
        scaled as u8
    }
}

/// A block of `n` samples that all equal `amplitude`.
pub open spec fn steady(n: nat, amplitude: i16) -> Seq<i16> {
    Seq::new(n, |_i: int| amplitude)
}

proof fn lemma_steady_sum(n: nat, amplitude: i16)
    ensures
        sum_of_squares(steady(n, amplitude)) == n * (amplitude * amplitude),
    decreases n,
{
    let s = steady(n, amplitude);
    if n > 0 {
        assert(s.drop_last() =~= steady((n - 1) as nat, amplitude));
        assert(s.last() == amplitude);
        lemma_steady_sum((n - 1) as nat, amplitude);
        let square: int = amplitude * amplitude;
        let m: int = n - 1;
        assert(n * square == m * square + square) by (nonlinear_arith)
            requires
                m == n - 1,
        ;
        assert(sum_of_squares(s) == sum_of_squares(s.drop_last()) + s.last() * s.last());
    } else {
        assert(n * (amplitude * amplitude) == 0) by (nonlinear_arith)
            requires
                n == 0,
        ;
    }
}

/// A steady tone of amplitude `a` has the level |a| / 60, capped at 100:
/// silence is 0 and louder tones are never quieter.
pub proof fn law_level_of_a_steady_tone(n: nat, amplitude: i16)
    requires
        n > 0,
    ensures
        ({
            let size = if amplitude >= 0 { amplitude as int } else { -amplitude };
            let expected = size * 100 / 6_000;
            level_of(steady(n, amplitude)) == if expected > 100 {
                100
            } else {
                expected
            }
        }),
{
    let size = if amplitude >= 0 { amplitude as int } else { -amplitude };
    lemma_steady_sum(n, amplitude);
    let square = amplitude * amplitude;
    assert(n * square / (n as int) == square) by (nonlinear_arith)
        requires
            n > 0,
    ;
    assert(steady(n, amplitude).len() == n);
    assert(size * size == square) by (nonlinear_arith)
        requires
            size == amplitude || size == -amplitude,
            square == amplitude * amplitude,
    ;
    assert(square < (size + 1) * (size + 1)) by (nonlinear_arith)
        requires
            size * size == square,
            size >= 0,
    ;
    lemma_floor_sqrt_is(size, square);
}

/// How many samples a block of `sample_count` samples has once converted
/// from `from_hz` to `to_hz`: none for an empty block or a zero rate, the
/// same count for the same rate, and otherwise the count scaled by the ratio
/// of the rates, rounded down.
pub open spec fn resampled_count(sample_count: nat, from_hz: nat, to_hz: nat) -> nat {
    if sample_count == 0 || from_hz == 0 || to_hz == 0 {
        0
    } else if from_hz == to_hz {
        sample_count
    } else {
        sample_count * to_hz / from_hz
    }
}

/// The length of a block after rate conversion; the interpolation itself is
/// the device's, in floating point.
pub fn resampled_length(sample_count: usize, from_hz: u32, to_hz: u32) -> (length: usize)
    requires
        sample_count * to_hz <= u64::MAX,
        from_hz > 0 ==> sample_count * to_hz / (from_hz as int) <= usize::MAX,
    ensures
        length == resampled_count(sample_count as nat, from_hz as nat, to_hz as nat),
{
    if sample_count == 0 || from_hz == 0 || to_hz == 0 {
        return 0;
    }
    if from_hz == to_hz {
        return sample_count;
    }
    let scaled: u64 = sample_count as u64 * to_hz as u64;
    (scaled / from_hz as u64) as usize
}

/// The byte of a PCM16 sample sent first: little-endian, low byte first.
pub open spec fn low_byte(sample: i16) -> u8 {
    ((sample as u16) & 0xFF) as u8
}

/// The byte of a PCM16 sample sent second.
pub open spec fn high_byte(sample: i16) -> u8 {
    ((sample as u16) >> 8u16) as u8
}

/// The PCM16 sample made of a low and a high byte.
pub open spec fn sample_from(low: u8, high: u8) -> i16 {
    (((high as u16) << 8u16) | (low as u16)) as i16
}

/// PCM16 samples as little-endian bytes, two per sample.
pub open spec fn pcm16_bytes_of(samples: Seq<i16>) -> Seq<u8> {
    Seq::new(
        2 * samples.len(),
        |i: int|
            if i % 2 == 0 {
                low_byte(samples[i / 2])
            } else {
                high_byte(samples[i / 2])
            },
    )
}

/// The PCM16 samples in little-endian bytes; a last odd byte is not a sample.
pub open spec fn pcm16_samples_of(bytes: Seq<u8>) -> Seq<i16> {
    Seq::new(bytes.len() / 2, |k: int| sample_from(bytes[2 * k], bytes[2 * k + 1]))
}

/// The bytes sent for recorded samples, already at the format's rate.
pub open spec fn wire_bytes_of(samples: Seq<i16>, format: AudioFormat) -> Seq<u8> {
    match format {
        AudioFormat::Ulaw => samples.map_values(|sample: i16| ulaw_of(sample)),
        AudioFormat::Pcm16 => pcm16_bytes_of(samples),
    }
}

/// The samples in received audio, still at the format's rate.
pub open spec fn wire_samples_of(audio: Seq<u8>, format: AudioFormat) -> Seq<i16> {
    match format {
        AudioFormat::Ulaw => audio.map_values(|encoded: u8| linear_of(encoded)),
        AudioFormat::Pcm16 => pcm16_samples_of(audio),
    }
}

/// Packs PCM16 samples into little-endian bytes.
pub fn pcm16_bytes(samples: &[i16]) -> (bytes: Vec<u8>)
    requires
        samples@.len() <= usize::MAX / 2,
    ensures
        bytes@ == pcm16_bytes_of(samples@),
{
    let mut bytes: Vec<u8> = Vec::with_capacity(samples.len() * 2);
    let mut i: usize = 0;
    while i < samples.len()
        invariant
            i <= samples@.len(),
            samples@.len() <= usize::MAX / 2,
            bytes@.len() == 2 * i,
            forall|k: int| 0 <= k < 2 * i ==> #[trigger] bytes@[k] == pcm16_bytes_of(samples@)[k],
        decreases samples.len() - i,
    {
        let bits = samples[i] as u16;
        bytes.push((bits & 0xFF) as u8);
        bytes.push((bits >> 8u16) as u8);
        i = i + 1;
    }
    assert(bytes@ =~= pcm16_bytes_of(samples@));
    bytes
}

/// Reads little-endian PCM16 samples; a last odd byte is left over.
pub fn pcm16_samples(bytes: &[u8]) -> (samples: Vec<i16>)
    ensures
        samples@ == pcm16_samples_of(bytes@),
{
    let length = bytes.len();
    let count = length / 2;
    let mut samples: Vec<i16> = Vec::with_capacity(count);
    let mut k: usize = 0;
    while k < count
        invariant
            length == bytes@.len(),
            count == length / 2,
            k <= count,
            samples@.len() == k,
            forall|j: int| 0 <= j < k ==> #[trigger] samples@[j] == pcm16_samples_of(bytes@)[j],
        decreases count - k,
    {
        assert(2 * k + 1 < bytes@.len());
        let at = k + k;
        let low = bytes[at];
        let high = bytes[at + 1];
        samples.push(#[verifier::truncate] ((((high as u16) << 8u16) | (low as u16)) as i16));
        k = k + 1;
    }
    assert(samples@ =~= pcm16_samples_of(bytes@));
    samples
}

/// Turns recorded samples, already at the format's rate, into the bytes
/// sent to the conversation service.
pub fn wire_bytes(samples: &[i16], format: AudioFormat) -> (bytes: Vec<u8>)
    requires
        samples@.len() <= usize::MAX / 2,
    ensures
        bytes@ == wire_bytes_of(samples@, format),
{
    match format {
        AudioFormat::Ulaw => {
            let bytes = encode_ulaw_block(samples);
            assert(bytes@ =~= wire_bytes_of(samples@, format));
            bytes
        },
        AudioFormat::Pcm16 => pcm16_bytes(samples),
    }
}

/// Turns received audio into samples at the format's rate.
pub fn wire_samples(audio: &[u8], format: AudioFormat) -> (samples: Vec<i16>)
    ensures
        samples@ == wire_samples_of(audio@, format),
{
    match format {
        AudioFormat::Ulaw => {
            let samples = decode_ulaw_block(audio);
            assert(samples@ =~= wire_samples_of(audio@, format));
            samples
        },
        AudioFormat::Pcm16 => pcm16_samples(audio),
    }
}

/// A PCM16 sample comes back whole from its two bytes.
pub proof fn law_pcm16_sample_round_trip(sample: i16)
    by (bit_vector)
    ensures
        sample_from(low_byte(sample), high_byte(sample)) == sample,
{
}

/// Packing PCM16 samples and reading them back gives the same samples.
pub proof fn law_pcm16_round_trip(samples: Seq<i16>)
    ensures
        pcm16_samples_of(pcm16_bytes_of(samples)) == samples,
{
    let bytes = pcm16_bytes_of(samples);
    assert forall|k: int| 0 <= k < samples.len() implies #[trigger] pcm16_samples_of(bytes)[k]
        == samples[k] by {
        assert((2 * k) % 2 == 0 && (2 * k) / 2 == k);
        assert((2 * k + 1) % 2 == 1 && (2 * k + 1) / 2 == k);
        law_pcm16_sample_round_trip(samples[k]);
    }
    assert(pcm16_samples_of(bytes) =~= samples);
}

} // verus!
