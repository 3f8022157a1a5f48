use vstd::prelude::*;

verus! {

/// One amplitude sample, carried as the bit pattern of a 32-bit IEEE-754
/// value. The library moves samples and never computes on them.
pub type Sample = u32;

/// The fixed-point scale of a [`Probability`]: this many millionths are
/// certainty.
pub const PROBABILITY_ONE: u32 = 1_000_000;

/// The speech gate below which a segment counts as not speech unless told
/// otherwise: three quarters, in millionths.
pub const DEFAULT_SPEECH_GATE: u32 = 750_000;

/// A speech probability in `[0, 1]`, held exactly as a count of millionths.
#[derive(Clone, Copy, Debug, PartialEq, Eq, Structural)]
pub struct Probability {
    millionths: u32,
}

impl View for Probability {
    type V = int;

    closed spec fn view(&self) -> int {
        self.millionths as int
    }
}

impl Probability {
    #[verifier::type_invariant]
    spec fn in_range(&self) -> bool {
        self.millionths <= PROBABILITY_ONE
    }

    /// The probability of `millionths` parts in a million, if that is at most
    /// one.
    pub fn new(millionths: u32) -> (p: Option<Probability>)
        ensures
            p is Some <==> millionths <= PROBABILITY_ONE,
            p matches Some(q) ==> q@ == millionths,
    {
        if millionths <= PROBABILITY_ONE {
            Some(Probability { millionths })
        } else {
            None
        }
    }

    /// The probability `DEFAULT_SPEECH_GATE`.
    pub fn default_gate() -> (p: Probability)
        ensures
            p@ == DEFAULT_SPEECH_GATE,
    {
        Probability { millionths: DEFAULT_SPEECH_GATE }
    }

    /// This probability in millionths.
    pub fn millionths(&self) -> (m: u32)
        ensures
            m == self@,
            m <= PROBABILITY_ONE,
    {
        proof {
            use_type_invariant(self);
        }
        self.millionths
    }
}

/// Two probabilities of as many millionths are one and the same.
pub proof fn lemma_probability_is_its_millionths(p: Probability, q: Probability)
    requires
        p@ == q@,
    ensures
        p == q,
{
}

/// The sum of the probabilities in `p`, in millionths.
pub open spec fn probability_sum(p: Seq<Probability>) -> int
    decreases p.len(),
{
    if p.len() == 0 {
        0
    } else {
        probability_sum(p.drop_last()) + p.last()@
    }
}

/// The pause rule on the probabilities `p` of a window, newest first: each of
/// the first `lead` entries is at most three quarters of the average of the
/// entries after them. The comparison is exact: both sides are multiplied by
/// four and by the number of entries averaged.
pub open spec fn pause_declared(p: Seq<Probability>, lead: int) -> bool {
    forall|i: int|
        0 <= i < lead ==> 4 * (#[trigger] p[i])@ * (p.len() - lead) <= 3 * probability_sum(
            p.skip(lead),
        )
}

/// A conditioned chunk of mono samples with the speech probability that the
/// scorer gave it.
#[derive(Clone, Debug, PartialEq, Eq)]
pub struct AudioSegment {
    pub audio_data: Vec<Sample>,
    pub speech_probability: Probability,
}

impl AudioSegment {
    /// The segment of the samples `audio_data` with the probability
    /// `speech_probability`.
    pub fn new(audio_data: Vec<Sample>, speech_probability: Probability) -> (segment: Self)
        ensures
            segment.audio_data == audio_data,
            segment.speech_probability == speech_probability,
    {
        AudioSegment { audio_data, speech_probability }
    }

    /// Whether the probabilities of a window, newest first, show a pause: a
    /// drop of each of the `lead_frames` newest against the average of the
    /// rest.
    pub fn is_pause(probabilities: &Vec<Probability>, lead_frames: usize) -> (pause: bool)
        requires
            lead_frames < probabilities.len(),
        ensures
            pause == pause_declared(probabilities@, lead_frames as int),
    {
        let len = probabilities.len();
        let mut sum: u128 = 0;
        let mut k: usize = lead_frames;
        while k < len
            invariant
                lead_frames <= k <= len,
                len == probabilities.len(),
                sum == probability_sum(probabilities@.subrange(lead_frames as int, k as int)),
                sum <= (k - lead_frames) * PROBABILITY_ONE,
            decreases len - k,
        {
            let m = probabilities[k].millionths();
            proof {
                let next = probabilities@.subrange(lead_frames as int, k as int + 1);
                assert(next.drop_last() =~= probabilities@.subrange(
                    lead_frames as int,
                    k as int,
                ));
                assert(next.last() == probabilities@[k as int]);
            }
            sum = sum + m as u128;
            k = k + 1;
        }
        assert(probabilities@.subrange(lead_frames as int, len as int) =~= probabilities@.skip(
            lead_frames as int,
        ));
        let averaged: u128 = (len - lead_frames) as u128;
        let mut i: usize = 0;
        while i < lead_frames
            invariant
                i <= lead_frames < len,
                len == probabilities.len(),
                averaged == len - lead_frames,
                sum == probability_sum(probabilities@.skip(lead_frames as int)),
                sum <= averaged * PROBABILITY_ONE,
                forall|j: int|
                    0 <= j < i ==> 4 * (#[trigger] probabilities@[j])@ * (len - lead_frames) <= 3
                        * sum,
            decreases lead_frames - i,
        {
            let m = probabilities[i].millionths();
            assert(4 * m * averaged <= 4 * PROBABILITY_ONE * 0xffff_ffff_ffff_ffff) by (nonlinear_arith)
                requires
                    m <= PROBABILITY_ONE,
                    averaged <= 0xffff_ffff_ffff_ffff,
            ;
            if 4 * (m as u128) * averaged > 3 * sum {
                return false;
            }
            i = i + 1;
        }
        true
    }
}

} // verus!
