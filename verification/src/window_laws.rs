use crate::audio_segment::AudioSegment;
use crate::segment_window::{
    evictable, low_count, sample_count, settle, utterance, utterance_after, window_after,
    WindowConfig,
};
use vstd::prelude::*;

verus! {

/// The window that `w` becomes when the segments of `arrivals` arrive one
/// after the other, `arrivals[0]` first.
pub open spec fn window_after_all(
    cfg: WindowConfig,
    w: Seq<AudioSegment>,
    arrivals: Seq<AudioSegment>,
) -> Seq<AudioSegment>
    decreases arrivals.len(),
{
    if arrivals.len() == 0 {
        w
    } else {
        window_after(cfg, window_after_all(cfg, w, arrivals.drop_last()), arrivals.last())
    }
}

/// Whether every segment of `w` has probability zero.
pub open spec fn all_silent(w: Seq<AudioSegment>) -> bool {
    forall|i: int| 0 <= i < w.len() ==> (#[trigger] w[i]).speech_probability@ == 0
}

/// Eviction only ever drops segments from the old end: what it leaves is the
/// newest part of the window it ran on, in the same order.
pub proof fn lemma_settle_keeps_newest(cfg: WindowConfig, w: Seq<AudioSegment>)
    ensures
        settle(cfg, w).len() <= w.len(),
        settle(cfg, w) == w.take(settle(cfg, w).len() as int),
    decreases w.len(),
{
    if w.len() > 0 && evictable(cfg, w) {
        lemma_settle_keeps_newest(cfg, w.drop_last());
        let kept = settle(cfg, w.drop_last());
        assert(w.drop_last().take(kept.len() as int) =~= w.take(kept.len() as int));
    } else {
        assert(w.take(w.len() as int) =~= w);
    }
}

/// Eviction shrinks the window by one segment at a time, each time because
/// the eviction rule held of the window as it then was, and it ends on a
/// window of which the rule does not hold.
pub proof fn lemma_eviction_runs_until_rule_fails(cfg: WindowConfig, w: Seq<AudioSegment>)
    requires
        cfg.valid(),
    ensures
        !evictable(cfg, settle(cfg, w)),
        forall|k: int|
            settle(cfg, w).len() < k <= w.len() ==> evictable(cfg, #[trigger] w.take(k)),
    decreases w.len(),
{
    if w.len() > 0 && evictable(cfg, w) {
        lemma_eviction_runs_until_rule_fails(cfg, w.drop_last());
        assert forall|k: int| settle(cfg, w).len() < k <= w.len() implies evictable(
            cfg,
            #[trigger] w.take(k),
        ) by {
            if k == w.len() {
                assert(w.take(k) =~= w);
            } else {
                assert(w.drop_last().take(k) =~= w.take(k));
            }
        }
    }
}

/// However many segments have arrived, the window holds the most recent of
/// them (and, when fewer than it holds have arrived, the newest of those it
/// started with), newest first, none left out and none out of place.
pub proof fn lemma_window_holds_latest_arrivals(
    cfg: WindowConfig,
    w: Seq<AudioSegment>,
    arrivals: Seq<AudioSegment>,
)
    ensures
        window_after_all(cfg, w, arrivals).len() <= arrivals.len() + w.len(),
        forall|i: int|
            0 <= i < window_after_all(cfg, w, arrivals).len() ==> #[trigger] window_after_all(
                cfg,
                w,
                arrivals,
            )[i] == if i < arrivals.len() {
                arrivals[arrivals.len() - 1 - i]
            } else {
                w[i - arrivals.len()]
            },
    decreases arrivals.len(),
{
    if arrivals.len() > 0 {
        let earlier = arrivals.drop_last();
        let before = window_after_all(cfg, w, earlier);
        lemma_window_holds_latest_arrivals(cfg, w, earlier);
        let arrived = seq![arrivals.last()] + before;
        lemma_settle_keeps_newest(cfg, arrived);
        let now = window_after_all(cfg, w, arrivals);
        assert forall|i: int| 0 <= i < now.len() implies #[trigger] now[i] == if i
            < arrivals.len() {
            arrivals[arrivals.len() - 1 - i]
        } else {
            w[i - arrivals.len()]
        } by {
            assert(now[i] == arrived[i]);
            if i > 0 {
                assert(arrived[i] == before[i - 1]);
            }
        }
    }
}

/// An utterance has as many samples as the segments it was made of hold
/// together.
pub proof fn lemma_utterance_holds_every_sample(w: Seq<AudioSegment>)
    ensures
        utterance(w).len() == sample_count(w),
    decreases w.len(),
{
    if w.len() > 0 {
        lemma_utterance_holds_every_sample(w.drop_last());
    }
}

/// When an utterance leaves, it holds every sample of every segment that was
/// in the window after eviction, and the window is empty afterwards.
pub proof fn lemma_pause_emits_whole_window(
    cfg: WindowConfig,
    w: Seq<AudioSegment>,
    segment: AudioSegment,
)
    ensures
        utterance_after(cfg, w, segment) matches Some(samples) ==> {
            &&& samples.len() == sample_count(settle(cfg, seq![segment] + w))
            &&& window_after(cfg, w, segment).len() == 0
        },
{
    lemma_utterance_holds_every_sample(settle(cfg, seq![segment] + w));
}

/// No utterance leaves while the window, after eviction, holds no more than
/// `window_size` segments; so none leaves a window that held fewer than
/// `window_size` before the segment arrived.
pub proof fn lemma_no_pause_within_window(
    cfg: WindowConfig,
    w: Seq<AudioSegment>,
    segment: AudioSegment,
)
    ensures
        settle(cfg, seq![segment] + w).len() <= cfg.window_size() ==> utterance_after(
            cfg,
            w,
            segment,
        ) is None,
        w.len() < cfg.window_size() ==> utterance_after(cfg, w, segment) is None,
{
    lemma_settle_keeps_newest(cfg, seq![segment] + w);
}

proof fn lemma_low_count_of_silence(w: Seq<AudioSegment>, cfg: WindowConfig)
    requires
        all_silent(w),
        cfg.speech_gate()@ > 0,
    ensures
        low_count(w, cfg.speech_gate()) == w.len(),
    decreases w.len(),
{
    if w.len() > 0 {
        assert(all_silent(w.drop_last())) by {
            assert forall|i: int| 0 <= i < w.drop_last().len() implies (
            #[trigger] w.drop_last()[i]).speech_probability@ == 0 by {
                assert(w.drop_last()[i] == w[i]);
            }
        }
        lemma_low_count_of_silence(w.drop_last(), cfg);
        assert(w.last() == w[w.len() - 1]);
    }
}

proof fn lemma_silence_settles_below_window(cfg: WindowConfig, w: Seq<AudioSegment>)
    requires
        cfg.valid(),
        cfg.speech_gate()@ > 0 || cfg.window_size() == 1,
        all_silent(w),
    ensures
        all_silent(settle(cfg, w)),
        settle(cfg, w).len() < cfg.window_size(),
{
    let kept = settle(cfg, w);
    lemma_settle_keeps_newest(cfg, w);
    lemma_eviction_runs_until_rule_fails(cfg, w);
    assert(all_silent(kept)) by {
        assert forall|i: int| 0 <= i < kept.len() implies (#[trigger] kept[i]).speech_probability@
            == 0 by {
            assert(kept[i] == w[i]);
        }
    }
    if kept.len() >= cfg.window_size() {
        let oldest = kept.skip(kept.len() - cfg.window_size());
        if cfg.speech_gate()@ > 0 {
            assert(all_silent(oldest)) by {
                assert forall|i: int| 0 <= i < oldest.len() implies (
                #[trigger] oldest[i]).speech_probability@ == 0 by {
                    assert(oldest[i] == kept[i + kept.len() - cfg.window_size()]);
                }
            }
            lemma_low_count_of_silence(oldest, cfg);
        }
        assert(evictable(cfg, kept));
    }
}

proof fn lemma_silence_keeps_window_small(cfg: WindowConfig, arrivals: Seq<AudioSegment>)
    requires
        cfg.valid(),
        cfg.speech_gate()@ > 0 || cfg.window_size() == 1,
        all_silent(arrivals),
    ensures
        all_silent(window_after_all(cfg, Seq::empty(), arrivals)),
        window_after_all(cfg, Seq::empty(), arrivals).len() < cfg.window_size(),
    decreases arrivals.len(),
{
    if arrivals.len() > 0 {
        let earlier = arrivals.drop_last();
        assert(all_silent(earlier)) by {
            assert forall|i: int| 0 <= i < earlier.len() implies (
            #[trigger] earlier[i]).speech_probability@ == 0 by {
                assert(earlier[i] == arrivals[i]);
            }
        }
        lemma_silence_keeps_window_small(cfg, earlier);
        let before = window_after_all(cfg, Seq::empty(), earlier);
        let arrived = seq![arrivals.last()] + before;
        assert(all_silent(arrived)) by {
            assert forall|i: int| 0 <= i < arrived.len() implies (
            #[trigger] arrived[i]).speech_probability@ == 0 by {
                if i == 0 {
                    assert(arrived[0] == arrivals[arrivals.len() - 1]);
                } else {
                    assert(arrived[i] == before[i - 1]);
                }
            }
        }
        lemma_silence_settles_below_window(cfg, arrived);
    }
}

/// Starting from an empty window, silence never ends in an utterance: when
/// only segments of probability zero have arrived, one more of them makes no
/// utterance leave. This needs a gate above zero, below which silence falls,
/// or a window of one segment, which eviction always empties.
pub proof fn lemma_silence_never_pauses(
    cfg: WindowConfig,
    arrivals: Seq<AudioSegment>,
    segment: AudioSegment,
)
    requires
        cfg.valid(),
        cfg.speech_gate()@ > 0 || cfg.window_size() == 1,
        all_silent(arrivals),
        segment.speech_probability@ == 0,
    ensures
        utterance_after(cfg, window_after_all(cfg, Seq::empty(), arrivals), segment) is None,
        all_silent(window_after(cfg, window_after_all(cfg, Seq::empty(), arrivals), segment)),
{
    let all = arrivals.push(segment);
    assert(all.drop_last() =~= arrivals);
    assert(all_silent(all)) by {
        assert forall|i: int| 0 <= i < all.len() implies (#[trigger] all[i]).speech_probability@
            == 0 by {
            if i < arrivals.len() {
                assert(all[i] == arrivals[i]);
            }
        }
    }
    lemma_silence_keeps_window_small(cfg, arrivals);
    lemma_silence_keeps_window_small(cfg, all);
    let before = window_after_all(cfg, Seq::empty(), arrivals);
    let arrived = seq![segment] + before;
    assert(all_silent(arrived)) by {
        assert forall|i: int| 0 <= i < arrived.len() implies (
        #[trigger] arrived[i]).speech_probability@ == 0 by {
            if i > 0 {
                assert(arrived[i] == before[i - 1]);
            }
        }
    }
    lemma_silence_settles_below_window(cfg, arrived);
}

} // verus!
