use crate::audio_segment::Sample;
use vstd::prelude::*;

verus! {

/// The rate, in samples per second, at which chunks are scored and
/// utterances are written.
pub const TARGET_SAMPLE_RATE: u32 = 16000;

/// How many mono samples are gathered before a batch is conditioned.
pub const CAPTURE_BATCH_LEN: usize = 3072;

/// The lower edge of the voice band, in hertz.
pub const VOICE_BAND_LOW_HZ: u32 = 300;

/// The upper edge of the voice band, in hertz.
pub const VOICE_BAND_HIGH_HZ: u32 = 3000;

/// How many frames `len` interleaved samples of `channels` channels make:
/// every `channels` samples are one frame, and samples left over at the end
/// are a frame of their own.
pub open spec fn frame_count(len: int, channels: int) -> int {
    if len % channels == 0 {
        len / channels
    } else {
        len / channels + 1
    }
}

/// How many samples down-mixing to mono leaves of `len` interleaved samples.
pub fn mono_frame_count(len: usize, channels: u16) -> (frames: usize)
    requires
        channels > 0,
    ensures
        frames == frame_count(len as int, channels as int),
{
    let per_frame = channels as usize;
    let whole = len / per_frame;
    if len % per_frame == 0 {
        whole
    } else {
        assert(whole < len) by (nonlinear_arith)
            requires
                whole == len as int / per_frame as int,
                len as int % per_frame as int != 0,
                per_frame > 0,
        ;
        whole + 1
    }
}

/// The length to which `len` samples at `source_rate` are resampled for
/// `target_rate`: `len * target_rate / source_rate`, rounded down.
pub open spec fn resampled_len_of(len: int, source_rate: int, target_rate: int) -> int {
    len * target_rate / source_rate
}

/// How many samples resampling from `source_rate` to `target_rate` makes of
/// `len` samples.
pub fn resampled_len(len: usize, source_rate: u32, target_rate: u32) -> (n: usize)
    requires
        source_rate > 0,
        resampled_len_of(len as int, source_rate as int, target_rate as int) <= usize::MAX,
    ensures
        n == resampled_len_of(len as int, source_rate as int, target_rate as int),
        source_rate == target_rate ==> n == len,
{
    assert(len * target_rate <= 0xffff_ffff_ffff_ffff * 0xffff_ffff) by (nonlinear_arith)
        requires
            len <= 0xffff_ffff_ffff_ffff,
            target_rate <= 0xffff_ffff,
    ;
    assert(source_rate == target_rate ==> len * target_rate / (source_rate as int) == len)
        by (nonlinear_arith)
        requires
            source_rate > 0,
    ;
    let scaled: u128 = len as u128 * target_rate as u128;
    (scaled / source_rate as u128) as usize
}

/// What is to be done to a batch so that it is at the target rate.
#[derive(Clone, Copy, Debug, PartialEq, Eq, Structural)]
pub enum Resampling {
    /// The batch is at the target rate already and stays as it is.
    PassThrough,
    /// The batch is interpolated to `output_len` samples.
    Interpolate { output_len: usize },
}

impl Resampling {
    /// How long a batch of `len` samples is after this step.
    pub open spec fn output_len(&self, len: int) -> int {
        match *self {
            Resampling::PassThrough => len,
            Resampling::Interpolate { output_len } => output_len as int,
        }
    }
}

/// Decides how a batch of `len` samples at `source_rate` gets to
/// `target_rate`: untouched where the rates are equal, else interpolated to
/// the resampled length.
pub fn plan_resampling(len: usize, source_rate: u32, target_rate: u32) -> (plan: Resampling)
    requires
        source_rate > 0,
        resampled_len_of(len as int, source_rate as int, target_rate as int) <= usize::MAX,
    ensures
        source_rate == target_rate ==> plan == Resampling::PassThrough,
        source_rate != target_rate ==> plan == (Resampling::Interpolate {
            output_len: resampled_len_of(
                len as int,
                source_rate as int,
                target_rate as int,
            ) as usize,
        }),
        plan.output_len(len as int) == resampled_len_of(
            len as int,
            source_rate as int,
            target_rate as int,
        ),
{
    let output_len = resampled_len(len, source_rate, target_rate);
    if source_rate != target_rate {
        Resampling::Interpolate { output_len }
    } else {
        Resampling::PassThrough
    }
}

/// What a buffer that hands on batches of `batch_len`, and holds `pending`,
/// holds after the delivery `mono`.
pub open spec fn pending_after(batch_len: usize, pending: Seq<Sample>, mono: Seq<Sample>) -> Seq<
    Sample,
> {
    if pending.len() + mono.len() >= batch_len {
        Seq::empty()
    } else {
        pending + mono
    }
}

/// The batch that such a buffer hands on at the delivery `mono`, if it does.
pub open spec fn batch_after(batch_len: usize, pending: Seq<Sample>, mono: Seq<Sample>) -> Option<
    Seq<Sample>,
> {
    if pending.len() + mono.len() >= batch_len {
        Some(pending + mono)
    } else {
        None
    }
}

/// What a buffer that hands on batches of `batch_len` holds after the
/// deliveries `deliveries`, `deliveries[0]` first, when it was empty before.
pub open spec fn pending_after_all(batch_len: usize, deliveries: Seq<Seq<Sample>>) -> Seq<Sample>
    decreases deliveries.len(),
{
    if deliveries.len() == 0 {
        Seq::empty()
    } else {
        pending_after(
            batch_len,
            pending_after_all(batch_len, deliveries.drop_last()),
            deliveries.last(),
        )
    }
}

/// The samples of all the batches that such a buffer has handed on over the
/// deliveries `deliveries`, in the order in which they left.
pub open spec fn handed_on(batch_len: usize, deliveries: Seq<Seq<Sample>>) -> Seq<Sample>
    decreases deliveries.len(),
{
    if deliveries.len() == 0 {
        Seq::empty()
    } else {
        let before = handed_on(batch_len, deliveries.drop_last());
        match batch_after(
            batch_len,
            pending_after_all(batch_len, deliveries.drop_last()),
            deliveries.last(),
        ) {
            Some(batch) => before + batch,
            None => before,
        }
    }
}

/// The samples of `deliveries`, one delivery after the other.
pub open spec fn delivered(deliveries: Seq<Seq<Sample>>) -> Seq<Sample>
    decreases deliveries.len(),
{
    if deliveries.len() == 0 {
        Seq::empty()
    } else {
        delivered(deliveries.drop_last()) + deliveries.last()
    }
}

/// The buffer neither loses a sample nor adds one nor changes their order:
/// what it has handed on, followed by what it still holds, is what was
/// delivered.
pub proof fn lemma_buffer_keeps_every_sample_in_order(
    batch_len: usize,
    deliveries: Seq<Seq<Sample>>,
)
    ensures
        handed_on(batch_len, deliveries) + pending_after_all(batch_len, deliveries) == delivered(
            deliveries,
        ),
    decreases deliveries.len(),
{
    if deliveries.len() > 0 {
        let earlier = deliveries.drop_last();
        lemma_buffer_keeps_every_sample_in_order(batch_len, earlier);
        let before = handed_on(batch_len, earlier);
        let pending = pending_after_all(batch_len, earlier);
        let mono = deliveries.last();
        assert(before + (pending + mono) =~= (before + pending) + mono);
    }
}

/// Gathers mono samples as the capture source delivers them and hands them
/// on in batches.
pub struct CaptureBuffer {
    batch_len: usize,
    pending: Vec<Sample>,
}

impl View for CaptureBuffer {
    type V = Seq<Sample>;

    /// The samples gathered and not yet handed on, oldest first.
    closed spec fn view(&self) -> Seq<Sample> {
        self.pending@
    }
}

impl CaptureBuffer {
    pub closed spec fn spec_batch_len(&self) -> usize {
        self.batch_len
    }

    /// An empty buffer that hands on a batch once it holds `batch_len`
    /// samples.
    pub fn new(batch_len: usize) -> (buffer: CaptureBuffer)
        ensures
            buffer.batch_len() == batch_len,
            buffer@.len() == 0,
    {
        CaptureBuffer { batch_len, pending: Vec::new() }
    }

    /// How many samples make a batch.
    #[verifier::when_used_as_spec(spec_batch_len)]
    pub fn batch_len(&self) -> (n: usize)
        ensures
            n == self.batch_len(),
    {
        self.batch_len
    }

    /// How many samples are waiting for their batch to fill.
    pub fn pending_len(&self) -> (n: usize)
        ensures
            n == self@.len(),
    {
        self.pending.len()
    }

    /// Takes in the mono samples of one delivery. Once the buffer holds at
    /// least `batch_len` samples, all of them leave as one batch, in the
    /// order in which they came, and the buffer is empty again.
    pub fn push(&mut self, mono: Vec<Sample>) -> (batch: Option<Vec<Sample>>)
        ensures
            final(self).batch_len() == old(self).batch_len(),
            final(self)@ == pending_after(old(self).batch_len(), old(self)@, mono@),
            match batch {
                Some(samples) => batch_after(old(self).batch_len(), old(self)@, mono@) == Some(
                    samples@,
                ),
                None => batch_after(old(self).batch_len(), old(self)@, mono@) is None,
            },
    {
        let mut mono = mono;
        self.pending.append(&mut mono);
        if self.pending.len() >= self.batch_len {
            let mut samples: Vec<Sample> = Vec::new();
            samples.append(&mut self.pending);
            Some(samples)
        } else {
            None
        }
    }
}

} // verus!
