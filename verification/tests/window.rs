use utterance_segmenter::audio_segment::{
    AudioSegment, Probability, Sample, DEFAULT_SPEECH_GATE, PROBABILITY_ONE,
};
use utterance_segmenter::error::ConfigurationError;
use utterance_segmenter::segment_window::{
    SegmentWindow, WindowConfig, DEFAULT_LEAD_FRAMES, DEFAULT_WINDOW_SIZE,
};

fn probability(millionths: u32) -> Probability {
    Probability::new(millionths).unwrap()
}

fn probabilities(millionths: &[u32]) -> Vec<Probability> {
    millionths.iter().map(|m| probability(*m)).collect()
}

fn window(window_size: usize, lead_frames: usize, gate: u32) -> SegmentWindow {
    SegmentWindow::new(WindowConfig::new(window_size, lead_frames, probability(gate)).unwrap())
}

/// The segment that arrives as number `k`: two samples that tell it apart.
fn segment(k: u32, millionths: u32) -> AudioSegment {
    AudioSegment::new(vec![10 * k, 10 * k + 1], probability(millionths))
}

#[test]
fn probability_holds_millionths_up_to_one() {
    assert_eq!(probability(0).millionths(), 0);
    assert_eq!(probability(750_000).millionths(), 750_000);
    assert_eq!(probability(PROBABILITY_ONE).millionths(), 1_000_000);
    assert_eq!(Probability::default_gate().millionths(), DEFAULT_SPEECH_GATE);
}

#[test]
fn probability_above_one_is_refused() {
    assert!(Probability::new(PROBABILITY_ONE + 1).is_none());
    assert!(Probability::new(u32::MAX).is_none());
}

#[test]
fn segment_keeps_what_it_was_made_of() {
    let made = AudioSegment::new(vec![7, 8, 9], probability(123_456));
    assert_eq!(made.audio_data, vec![7, 8, 9]);
    assert_eq!(made.speech_probability, probability(123_456));
}

#[test]
fn pause_when_lead_is_exactly_three_quarters_of_the_tail_average() {
    // The tail averages 0.8; three quarters of that are 0.6.
    let at_the_line = probabilities(&[600_000, 800_000, 800_000]);
    assert!(AudioSegment::is_pause(&at_the_line, 1));
    let just_above = probabilities(&[600_001, 800_000, 800_000]);
    assert!(!AudioSegment::is_pause(&just_above, 1));
}

#[test]
fn pause_needs_every_lead_frame_to_drop() {
    // The tail [0.9, 0.7, 0.8] averages 0.8: the line is at 0.6.
    let all_low = probabilities(&[100_000, 600_000, 0, 900_000, 700_000, 800_000]);
    assert!(AudioSegment::is_pause(&all_low, 3));
    let one_high = probabilities(&[100_000, 650_000, 0, 900_000, 700_000, 800_000]);
    assert!(!AudioSegment::is_pause(&one_high, 3));
}

#[test]
fn pause_compares_exactly_where_the_average_is_no_whole_number() {
    // The tail [1, 0, 0] averages a third of a millionth; three quarters of
    // it are a quarter of a millionth, which only zero stays under.
    assert!(AudioSegment::is_pause(&probabilities(&[0, 1, 0, 0]), 1));
    assert!(!AudioSegment::is_pause(&probabilities(&[1, 1, 0, 0]), 1));
}

#[test]
fn pause_without_lead_frames_is_always_declared() {
    assert!(AudioSegment::is_pause(&probabilities(&[900_000, 900_000]), 0));
}

#[test]
fn silence_against_silence_is_a_pause() {
    assert!(AudioSegment::is_pause(&probabilities(&[0, 0, 0, 0]), 1));
}

#[test]
fn window_config_refuses_lead_frames_that_fill_the_window() {
    let gate = probability(750_000);
    assert_eq!(
        WindowConfig::new(3, 3, gate),
        Err(ConfigurationError::LeadFramesNotBelowWindow)
    );
    assert_eq!(
        WindowConfig::new(0, 0, gate),
        Err(ConfigurationError::LeadFramesNotBelowWindow)
    );
    assert_eq!(
        WindowConfig::new(2, 5, gate),
        Err(ConfigurationError::LeadFramesNotBelowWindow)
    );
}

#[test]
fn window_config_keeps_its_parameters() {
    let cfg = WindowConfig::new(16, 3, probability(750_000)).unwrap();
    assert_eq!(cfg.window_size(), 16);
    assert_eq!(cfg.lead_frames(), 3);
    assert_eq!(cfg.speech_gate(), probability(750_000));
}

#[test]
fn default_window_config_is_sixteen_three_and_three_quarters() {
    let cfg = WindowConfig::default();
    assert_eq!(cfg.window_size(), DEFAULT_WINDOW_SIZE);
    assert_eq!(cfg.lead_frames(), DEFAULT_LEAD_FRAMES);
    assert_eq!(cfg.speech_gate().millionths(), DEFAULT_SPEECH_GATE);
    assert_eq!((cfg.window_size(), cfg.lead_frames()), (16, 3));
    assert_eq!(cfg, WindowConfig::new(16, 3, probability(750_000)).unwrap());
}

#[test]
fn new_window_is_empty_and_keeps_its_parameters() {
    let cfg = WindowConfig::new(4, 1, probability(750_000)).unwrap();
    let w = SegmentWindow::new(cfg);
    assert_eq!(w.len(), 0);
    assert_eq!(w.config(), cfg);
}

#[test]
fn window_keeps_its_parameters_over_an_utterance() {
    let mut w = window(2, 1, 500_000);
    let cfg = w.config();
    for k in 1..=2 {
        assert_eq!(w.accept(segment(k, 900_000)), None);
    }
    assert!(w.accept(segment(3, 0)).is_some());
    assert_eq!(w.config(), cfg);
}

#[test]
fn pause_fires_on_the_sixth_segment_and_emits_all_six() {
    let mut w = window(4, 1, 750_000);
    for k in 1..=5 {
        assert_eq!(w.accept(segment(k, 900_000)), None);
        assert_eq!(w.len(), k as usize);
    }
    let emitted = w.accept(segment(6, 100_000));
    let expected: Vec<Sample> = vec![10, 11, 20, 21, 30, 31, 40, 41, 50, 51, 60, 61];
    assert_eq!(emitted, Some(expected));
    assert_eq!(w.len(), 0);
}

#[test]
fn utterance_has_every_sample_of_every_segment() {
    let mut w = window(2, 1, 500_000);
    assert_eq!(
        w.accept(AudioSegment::new(vec![1, 2, 3], probability(900_000))),
        None
    );
    assert_eq!(
        w.accept(AudioSegment::new(vec![], probability(900_000))),
        None
    );
    let emitted = w
        .accept(AudioSegment::new(vec![4], probability(0)))
        .unwrap();
    assert_eq!(emitted.len(), 3 + 0 + 1);
    assert_eq!(emitted, vec![1, 2, 3, 4]);
    assert_eq!(w.len(), 0);
}

#[test]
fn no_utterance_while_the_window_holds_window_size_or_fewer() {
    // Without lead frames the pause rule holds of any window, so only the
    // size of the window keeps the utterance back.
    let mut w = window(3, 0, 0);
    assert_eq!(w.accept(segment(1, 900_000)), None);
    assert_eq!(w.accept(segment(2, 900_000)), None);
    assert_eq!(w.accept(segment(3, 900_000)), None);
    assert_eq!(w.len(), 3);
    assert_eq!(
        w.accept(segment(4, 900_000)),
        Some(vec![10, 11, 20, 21, 30, 31, 40, 41])
    );
}

#[test]
fn stale_tail_is_evicted_until_the_rule_fails() {
    let low = 100_000;
    let high = 900_000;
    let mut w = window(4, 1, 750_000);
    for k in 1..=3 {
        assert_eq!(w.accept(segment(k, low)), None);
    }
    assert_eq!(w.len(), 3);
    // A fourth low segment fills the window; all four are below the speech gate, so
    // the oldest leaves.
    assert_eq!(w.accept(segment(4, low)), None);
    assert_eq!(w.len(), 3);
    // Three of four below the speech gate: one leaves.
    assert_eq!(w.accept(segment(5, high)), None);
    assert_eq!(w.len(), 3);
    // Two of four below the speech gate is still half: one leaves.
    assert_eq!(w.accept(segment(6, high)), None);
    assert_eq!(w.len(), 3);
    // One of four is under half: nothing leaves.
    assert_eq!(w.accept(segment(7, high)), None);
    assert_eq!(w.len(), 4);
    assert_eq!(w.accept(segment(8, high)), None);
    assert_eq!(w.len(), 5);
}

#[test]
fn full_window_below_the_speech_gate_is_cut_back() {
    // With a speech gate above every probability a full window is stale,
    // so its oldest segment leaves as soon as it fills.
    let mut w = window(2, 1, 1_000_000);
    assert_eq!(w.accept(segment(1, 900_000)), None);
    assert_eq!(w.len(), 1);
    assert_eq!(w.accept(segment(2, 900_000)), None);
    assert_eq!(w.len(), 1);
}

#[test]
fn window_keeps_the_latest_arrivals_in_order() {
    let low = 100_000;
    let high = 900_000;
    let mut w = window(4, 1, 750_000);
    // Segments 1 to 3 are evicted one by one as in the test above; 4 to 8
    // stay, and the drop of segment 9 ends the utterance.
    for k in 1..=4 {
        assert_eq!(w.accept(segment(k, low)), None);
    }
    for k in 5..=8 {
        assert_eq!(w.accept(segment(k, high)), None);
    }
    assert_eq!(w.len(), 5);
    let emitted = w.accept(segment(9, 0));
    assert_eq!(
        emitted,
        Some(vec![40, 41, 50, 51, 60, 61, 70, 71, 80, 81, 90, 91])
    );
}

#[test]
fn silence_from_an_empty_window_never_ends_an_utterance() {
    let mut w = window(4, 1, 750_000);
    for k in 0..100 {
        assert_eq!(w.accept(segment(k, 0)), None);
        assert!(w.len() < 4);
    }
}

#[test]
fn silence_is_an_utterance_where_the_gate_is_zero() {
    // Nothing is below a gate of zero, so nothing is evicted, and silence
    // held against silence is a pause.
    let mut w = window(2, 1, 0);
    assert_eq!(w.accept(segment(1, 0)), None);
    assert_eq!(w.accept(segment(2, 0)), None);
    assert_eq!(w.accept(segment(3, 0)), Some(vec![10, 11, 20, 21, 30, 31]));
}

#[test]
fn window_of_one_segment_is_always_emptied() {
    let mut w = window(1, 0, 0);
    for k in 0..10 {
        assert_eq!(w.accept(segment(k, 0)), None);
        assert_eq!(w.len(), 0);
    }
}

#[test]
fn window_starts_afresh_after_an_utterance() {
    let mut w = window(2, 1, 500_000);
    for round in 0..3 {
        assert_eq!(w.accept(segment(1, 900_000)), None);
        assert_eq!(w.accept(segment(2, 900_000)), None);
        assert_eq!(
            w.accept(segment(3, 0)),
            Some(vec![10, 11, 20, 21, 30, 31]),
            "round {}",
            round
        );
        assert_eq!(w.len(), 0);
    }
}
