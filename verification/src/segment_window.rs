use crate::audio_segment::{
    pause_declared, AudioSegment, Probability, Sample, DEFAULT_SPEECH_GATE,
};
use crate::error::ConfigurationError;
use crate::window_laws::{
    lemma_eviction_runs_until_rule_fails, lemma_pause_emits_whole_window,
    lemma_settle_keeps_newest,
};
use std::collections::VecDeque;
use vstd::prelude::*;

verus! {

/// How many segments the rules look at unless told otherwise.
pub const DEFAULT_WINDOW_SIZE: usize = 16;

/// How many lead frames the pause rule takes unless told otherwise.
pub const DEFAULT_LEAD_FRAMES: usize = 3;

/// The parameters of a segment window. Every value of this type is a valid
/// combination: the lead frames are fewer than the window holds.
#[derive(Clone, Copy, Debug, PartialEq, Eq)]
pub struct WindowConfig {
    window_size: usize,
    lead_frames: usize,
    speech_gate: Probability,
}

impl WindowConfig {
    /// The pause rule averages `window_size - lead_frames` segments, so that
    /// number is not zero.
    #[verifier::type_invariant]
    pub open spec fn valid(&self) -> bool {
        self.lead_frames() < self.window_size()
    }

    pub closed spec fn spec_window_size(&self) -> usize {
        self.window_size
    }

    pub closed spec fn spec_lead_frames(&self) -> usize {
        self.lead_frames
    }

    pub closed spec fn spec_speech_gate(&self) -> Probability {
        self.speech_gate
    }

    /// Half the window, rounded down: so many segments below the speech
    /// gate among the oldest `window_size` make the oldest one stale.
    pub open spec fn half_window(&self) -> int {
        self.window_size() as int / 2
    }

    /// The parameters `window_size`, `lead_frames` and `speech_gate`, unless
    /// the lead frames are not fewer than the window holds.
    pub fn new(window_size: usize, lead_frames: usize, speech_gate: Probability) -> (made: Result<
        WindowConfig,
        ConfigurationError,
    >)
        ensures
            made is Ok <==> lead_frames < window_size,
            made matches Ok(cfg) ==> {
                &&& cfg.valid()
                &&& cfg.window_size() == window_size
                &&& cfg.lead_frames() == lead_frames
                &&& cfg.speech_gate() == speech_gate
            },
            made matches Err(e) ==> e == ConfigurationError::LeadFramesNotBelowWindow,
    {
        if lead_frames < window_size {
            Ok(WindowConfig { window_size, lead_frames, speech_gate })
        } else {
            Err(ConfigurationError::LeadFramesNotBelowWindow)
        }
    }

    /// How many segments the eviction and pause rules look at.
    #[verifier::when_used_as_spec(spec_window_size)]
    pub fn window_size(&self) -> (n: usize)
        ensures
            n == self.window_size(),
            n > self.lead_frames(),
    {
        proof {
            use_type_invariant(self);
        }
        self.window_size
    }

    /// How many of the newest segments the pause rule holds against the rest.
    #[verifier::when_used_as_spec(spec_lead_frames)]
    pub fn lead_frames(&self) -> (n: usize)
        ensures
            n == self.lead_frames(),
            n < self.window_size(),
    {
        proof {
            use_type_invariant(self);
        }
        self.lead_frames
    }

    /// Below this probability a segment counts as not speech.
    #[verifier::when_used_as_spec(spec_speech_gate)]
    pub fn speech_gate(&self) -> (gate: Probability)
        ensures
            gate == self.speech_gate(),
    {
        self.speech_gate
    }
}

impl Default for WindowConfig {
    /// A window of `DEFAULT_WINDOW_SIZE` segments with `DEFAULT_LEAD_FRAMES`
    /// lead frames and a speech gate of `DEFAULT_SPEECH_GATE`.
    fn default() -> (cfg: WindowConfig)
        ensures
            cfg.valid(),
            cfg.window_size() == DEFAULT_WINDOW_SIZE,
            cfg.lead_frames() == DEFAULT_LEAD_FRAMES,
            cfg.speech_gate()@ == DEFAULT_SPEECH_GATE,
    {
        WindowConfig {
            window_size: DEFAULT_WINDOW_SIZE,
            lead_frames: DEFAULT_LEAD_FRAMES,
            speech_gate: Probability::default_gate(),
        }
    }
}

/// The probabilities of the segments of `w`, in the same order.
pub open spec fn probabilities(w: Seq<AudioSegment>) -> Seq<Probability> {
    w.map_values(|s: AudioSegment| s.speech_probability)
}

/// How many segments of `w` have a probability below `gate`.
pub open spec fn low_count(w: Seq<AudioSegment>, gate: Probability) -> nat
    decreases w.len(),
{
    if w.len() == 0 {
        0
    } else {
        low_count(w.drop_last(), gate) + if w.last().speech_probability@ < gate@ {
            1nat
        } else {
            0nat
        }
    }
}

/// The eviction rule on a window `w`, newest first: it holds at least
/// `window_size` segments, and of its oldest `window_size` at least half are
/// below the speech gate.
pub open spec fn evictable(cfg: WindowConfig, w: Seq<AudioSegment>) -> bool {
    &&& w.len() >= cfg.window_size()
    &&& low_count(w.skip(w.len() - cfg.window_size()), cfg.speech_gate()) >= cfg.half_window()
}

/// The window `w` after eviction has run: its oldest segment is dropped for
/// as long as the eviction rule holds.
pub open spec fn settle(cfg: WindowConfig, w: Seq<AudioSegment>) -> Seq<AudioSegment>
    decreases w.len(),
{
    if w.len() > 0 && evictable(cfg, w) {
        settle(cfg, w.drop_last())
    } else {
        w
    }
}

/// The pause decision on a settled window `w`, newest first: it holds more
/// than `window_size` segments, and the probabilities of its newest
/// `window_size` show a pause.
pub open spec fn pause_due(cfg: WindowConfig, w: Seq<AudioSegment>) -> bool {
    &&& w.len() > cfg.window_size()
    &&& pause_declared(probabilities(w.take(cfg.window_size() as int)), cfg.lead_frames() as int)
}

/// The samples of every segment of the window `w`, oldest segment first.
pub open spec fn utterance(w: Seq<AudioSegment>) -> Seq<Sample>
    decreases w.len(),
{
    if w.len() == 0 {
        Seq::empty()
    } else {
        w.last().audio_data@ + utterance(w.drop_last())
    }
}

/// How many samples the segments of `w` hold together.
pub open spec fn sample_count(w: Seq<AudioSegment>) -> nat
    decreases w.len(),
{
    if w.len() == 0 {
        0
    } else {
        sample_count(w.drop_last()) + w.last().audio_data@.len()
    }
}

/// The window that `w` becomes when `segment` arrives.
pub open spec fn window_after(
    cfg: WindowConfig,
    w: Seq<AudioSegment>,
    segment: AudioSegment,
) -> Seq<AudioSegment> {
    let kept = settle(cfg, seq![segment] + w);
    if pause_due(cfg, kept) {
        Seq::empty()
    } else {
        kept
    }
}

/// The utterance that leaves the window `w` when `segment` arrives, if one
/// does.
pub open spec fn utterance_after(
    cfg: WindowConfig,
    w: Seq<AudioSegment>,
    segment: AudioSegment,
) -> Option<Seq<Sample>> {
    let kept = settle(cfg, seq![segment] + w);
    if pause_due(cfg, kept) {
        Some(utterance(kept))
    } else {
        None
    }
}

/// A bounded look-back buffer of scored segments, newest first, which cuts
/// the stream into utterances.
pub struct SegmentWindow {
    config: WindowConfig,
    segments: VecDeque<AudioSegment>,
}

impl View for SegmentWindow {
    type V = Seq<AudioSegment>;

    closed spec fn view(&self) -> Seq<AudioSegment> {
        self.segments@
    }
}

impl SegmentWindow {
    pub closed spec fn spec_config(&self) -> WindowConfig {
        self.config
    }

    /// The parameters this window was made with.
    #[verifier::when_used_as_spec(spec_config)]
    pub fn config(&self) -> (config: WindowConfig)
        ensures
            config == self.config(),
    {
        self.config
    }

    /// An empty window with the parameters `config`.
    pub fn new(config: WindowConfig) -> (window: SegmentWindow)
        ensures
            window.config() == config,
            window@.len() == 0,
    {
        SegmentWindow { config, segments: VecDeque::new() }
    }

    /// How many segments the window holds.
    pub fn len(&self) -> (n: usize)
        ensures
            n == self@.len(),
    {
        self.segments.len()
    }

    fn low_among_oldest(&self) -> (count: usize)
        requires
            self@.len() >= self.config().window_size(),
        ensures
            count == low_count(
                self@.skip(self@.len() - self.config().window_size()),
                self.config().speech_gate(),
            ),
    {
        let len = self.segments.len();
        let first = len - self.config.window_size();
        let gate = self.config.speech_gate().millionths();
        let mut count: usize = 0;
        let mut i: usize = first;
        while i < len
            invariant
                first <= i <= len,
                len == self.segments@.len(),
                gate == self.config.speech_gate()@,
                count <= i - first,
                count == low_count(
                    self.segments@.subrange(first as int, i as int),
                    self.config.speech_gate(),
                ),
            decreases len - i,
        {
            proof {
                let next = self.segments@.subrange(first as int, i as int + 1);
                assert(next.drop_last() =~= self.segments@.subrange(first as int, i as int));
                assert(next.last() == self.segments@[i as int]);
            }
            if self.segments[i].speech_probability.millionths() < gate {
                count = count + 1;
            }
            i = i + 1;
        }
        assert(self.segments@.subrange(first as int, len as int) =~= self.segments@.skip(
            first as int,
        ));
        count
    }

    fn is_evictable(&self) -> (stale: bool)
        ensures
            stale == evictable(self.config(), self@),
    {
        self.segments.len() >= self.config.window_size() && self.low_among_oldest()
            >= self.config.window_size() / 2
    }

    fn newest_probabilities(&self) -> (newest: Vec<Probability>)
        requires
            self@.len() >= self.config().window_size(),
        ensures
            newest@ == probabilities(self@.take(self.config().window_size() as int)),
    {
        let size = self.config.window_size();
        let mut newest: Vec<Probability> = Vec::new();
        let mut i: usize = 0;
        while i < size
            invariant
                i <= size <= self.segments@.len(),
                newest@.len() == i,
                forall|j: int| 0 <= j < i ==> newest@[j] == self.segments@[j].speech_probability,
            decreases size - i,
        {
            newest.push(self.segments[i].speech_probability);
            i = i + 1;
        }
        assert(newest@ =~= probabilities(self.segments@.take(size as int)));
        newest
    }

    fn drain(&mut self) -> (samples: Vec<Sample>)
        ensures
            samples@ == utterance(old(self)@),
            final(self)@.len() == 0,
            final(self).config() == old(self).config(),
    {
        let mut samples: Vec<Sample> = Vec::new();
        while self.segments.len() > 0
            invariant
                self.config == old(self).config,
                samples@ + utterance(self.segments@) == utterance(old(self).segments@),
            decreases self.segments@.len(),
        {
            let ghost before = self.segments@;
            let oldest = self.segments.pop_back().unwrap();
            let mut data = oldest.audio_data;
            proof {
                assert(self.segments@ =~= before.drop_last());
                assert(samples@ + (data@ + utterance(self.segments@)) =~= (samples@ + data@)
                    + utterance(self.segments@));
            }
            samples.append(&mut data);
        }
        samples
    }

    /// Takes in the next scored segment: it becomes the newest, stale
    /// segments leave from the old end, and if the window then shows a pause,
    /// everything in it leaves as one utterance, oldest sample first.
    pub fn accept(&mut self, segment: AudioSegment) -> (emitted: Option<Vec<Sample>>)
        ensures
            final(self).config() == old(self).config(),
            final(self)@ == window_after(old(self).config(), old(self)@, segment),
            emitted is Some <==> utterance_after(old(self).config(), old(self)@, segment) is Some,
            emitted matches Some(samples) ==> utterance_after(
                old(self).config(),
                old(self)@,
                segment,
            ) == Some(samples@),
            // The window stays the newest part of what has arrived.
            final(self)@.len() <= old(self)@.len() + 1,
            final(self)@ == (seq![segment] + old(self)@).take(final(self)@.len() as int),
            // Eviction has run until its rule failed.
            !evictable(old(self).config(), final(self)@),
            // An utterance takes every sample of the window and leaves it empty.
            emitted matches Some(samples) ==> {
                &&& samples@.len() == sample_count(
                    settle(old(self).config(), seq![segment] + old(self)@),
                )
                &&& final(self)@.len() == 0
            },
            // No utterance leaves a window of `window_size` segments or fewer.
            emitted is Some ==> old(self)@.len() >= old(self).config().window_size(),
    {
        proof {
            use_type_invariant(&self.config);
            lemma_settle_keeps_newest(self.config, seq![segment] + self.segments@);
            lemma_eviction_runs_until_rule_fails(self.config, seq![segment] + self.segments@);
            lemma_pause_emits_whole_window(self.config, self.segments@, segment);
            assert((seq![segment] + self.segments@).take(0) =~= Seq::<AudioSegment>::empty());
        }
        let ghost arrived = seq![segment] + self.segments@;
        self.segments.push_front(segment);
        while self.is_evictable()
            invariant
                self.config == old(self).config,
                self.config.valid(),
                settle(self.config, self.segments@) == settle(self.config, arrived),
            decreases self.segments@.len(),
        {
            let ghost before = self.segments@;
            self.segments.pop_back();
            assert(self.segments@ =~= before.drop_last());
        }
        if self.segments.len() > self.config.window_size() {
            let newest = self.newest_probabilities();
            if AudioSegment::is_pause(&newest, self.config.lead_frames()) {
                return Some(self.drain());
            }
        }
        None
    }
}

} // verus!
