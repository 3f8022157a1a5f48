use utterance_segmenter::audio_segment::{AudioSegment, Sample};
use utterance_segmenter::scorer::{
    probability_of_score, scored_segment, SCORER_CHUNK_LEN, SCORE_MINUS_ZERO_BITS, SCORE_ONE_BITS,
};
use utterance_segmenter::segment_window::{SegmentWindow, WindowConfig};

fn millionths(score: f32) -> Option<u32> {
    probability_of_score(score.to_bits()).map(|p| p.millionths())
}

#[test]
fn score_bit_patterns_of_one_and_minus_zero() {
    assert_eq!(SCORE_ONE_BITS, 1.0f32.to_bits());
    assert_eq!(SCORE_MINUS_ZERO_BITS, (-0.0f32).to_bits());
}

#[test]
fn score_is_rounded_to_millionths() {
    assert_eq!(millionths(0.9), Some(900_000));
    assert_eq!(millionths(0.1), Some(100_000));
    assert_eq!(millionths(0.75), Some(750_000));
    assert_eq!(millionths(0.5), Some(500_000));
    assert_eq!(millionths(0.333333), Some(333_333));
    assert_eq!(millionths(0.123456789), Some(123_457));
    assert_eq!(millionths(0.999999), Some(999_999));
}

#[test]
fn score_bits_are_read_as_sign_exponent_and_fraction() {
    assert_eq!(probability_of_score(0x3f66_6666).unwrap().millionths(), 900_000);
    assert_eq!(probability_of_score(0x3dcc_cccd).unwrap().millionths(), 100_000);
    assert_eq!(probability_of_score(0x3c00_0000).unwrap().millionths(), 7_813);
}

#[test]
fn score_in_the_middle_between_two_millionths_goes_up() {
    // 2^-7 is 7812.5 millionths.
    assert_eq!(millionths(0.0078125), Some(7_813));
}

#[test]
fn scores_at_the_ends_of_the_range() {
    assert_eq!(millionths(0.0), Some(0));
    assert_eq!(millionths(-0.0), Some(0));
    assert_eq!(millionths(1.0), Some(1_000_000));
    // The largest number below one.
    assert_eq!(millionths(f32::from_bits(0x3f7f_ffff)), Some(1_000_000));
}

#[test]
fn scores_too_small_for_a_millionth_are_zero() {
    assert_eq!(millionths(1e-7), Some(0));
    assert_eq!(millionths(4.9e-7), Some(0));
    assert_eq!(millionths(5.1e-7), Some(1));
    assert_eq!(millionths(f32::MIN_POSITIVE), Some(0));
    // The smallest subnormal number and the largest.
    assert_eq!(millionths(f32::from_bits(1)), Some(0));
    assert_eq!(millionths(f32::from_bits(0x007f_ffff)), Some(0));
}

#[test]
fn scores_outside_zero_to_one_are_no_probability() {
    assert_eq!(millionths(f32::from_bits(0x3f80_0001)), None);
    assert_eq!(millionths(1.5), None);
    assert_eq!(millionths(f32::MAX), None);
    assert_eq!(millionths(-0.5), None);
    assert_eq!(millionths(-1e-30), None);
    assert_eq!(millionths(-f32::from_bits(1)), None);
    assert_eq!(millionths(-1.0), None);
}

#[test]
fn scores_that_are_no_number_are_no_probability() {
    assert_eq!(millionths(f32::NAN), None);
    assert_eq!(millionths(-f32::NAN), None);
    assert_eq!(millionths(f32::INFINITY), None);
    assert_eq!(millionths(f32::NEG_INFINITY), None);
    assert_eq!(probability_of_score(0x7fc0_0001), None);
    assert_eq!(probability_of_score(0xffff_ffff), None);
}

#[test]
fn drop_to_a_tenth_after_five_segments_of_speech_ends_the_utterance() {
    let gate = probability_of_score(0.75f32.to_bits()).unwrap();
    let mut window = SegmentWindow::new(WindowConfig::new(4, 1, gate).unwrap());
    let scores: [f32; 6] = [0.9, 0.9, 0.9, 0.9, 0.9, 0.1];
    let mut expected: Vec<Sample> = Vec::new();
    for (k, score) in scores.iter().enumerate() {
        let samples: Vec<Sample> = vec![(k as f32).to_bits(), (k as f32 + 0.5).to_bits()];
        expected.extend(samples.iter());
        let probability = probability_of_score(score.to_bits()).unwrap();
        let emitted = window.accept(AudioSegment::new(samples, probability));
        if k < 5 {
            assert_eq!(emitted, None, "segment {}", k + 1);
        } else {
            assert_eq!(emitted, Some(expected.clone()));
        }
    }
    assert_eq!(window.len(), 0);
}

#[test]
fn scored_chunk_carries_the_rounded_probability() {
    let chunk: Vec<Sample> = vec![0.25f32.to_bits(); SCORER_CHUNK_LEN];
    let segment = scored_segment(chunk.clone(), 0.9f32.to_bits()).unwrap();
    assert_eq!(segment.audio_data, chunk);
    assert_eq!(segment.speech_probability.millionths(), 900_000);
    assert_eq!(
        scored_segment(vec![1, 2], 0.5f32.to_bits()),
        Some(AudioSegment::new(vec![1, 2], probability_of_score(0.5f32.to_bits()).unwrap()))
    );
}

#[test]
fn chunk_with_a_score_that_is_no_probability_is_no_segment() {
    assert_eq!(scored_segment(vec![1, 2, 3], f32::NAN.to_bits()), None);
    assert_eq!(scored_segment(vec![1, 2, 3], 1.5f32.to_bits()), None);
    assert_eq!(scored_segment(vec![], (-0.25f32).to_bits()), None);
}
