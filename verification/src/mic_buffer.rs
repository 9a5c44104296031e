//! The buffer between microphone capture and the mixer.
//!
//! Samples are the bit patterns of IEEE 754 binary32 numbers; the buffer only
//! passes them on. The bits of `0.0`, silence, are zero.
use std::collections::VecDeque;
use vstd::prelude::*;

verus! {

/// The most samples the buffer keeps: about a second of stereo at 48 kHz.
pub const MAX_BUFFERED_SAMPLES: usize = 96_000;

/// The bits of the sample `0.0`.
pub const SILENCE: u32 = 0;

/// The last `limit` samples of a sequence, or all of them where there are fewer.
pub open spec fn newest(samples: Seq<u32>, limit: int) -> Seq<u32> {
    if samples.len() <= limit {
        samples
    } else {
        samples.skip(samples.len() - limit)
    }
}

/// The sample that leaves next: the oldest, or silence where there is none.
pub open spec fn next_sample(held: Seq<u32>) -> u32 {
    if held.len() == 0 {
        SILENCE
    } else {
        held[0]
    }
}

/// What is held once the next sample has left.
pub open spec fn without_next(held: Seq<u32>) -> Seq<u32> {
    if held.len() == 0 {
        held
    } else {
        held.drop_first()
    }
}

/// What is held once `n` samples have left.
pub open spec fn without_first(held: Seq<u32>, n: nat) -> Seq<u32>
    decreases n,
{
    if n == 0 {
        held
    } else {
        without_next(without_first(held, (n - 1) as nat))
    }
}

/// Microphone samples that were captured and not yet played. Bounded, so that it
/// does not grow without end while the output lags; the oldest samples give way.
#[derive(Debug)]
pub struct MicRingBuffer {
    queue: VecDeque<u32>,
}

impl View for MicRingBuffer {
    type V = Seq<u32>;

    closed spec fn view(&self) -> Seq<u32> {
        self.queue@
    }
}

impl MicRingBuffer {
    /// The bound on the buffer.
    pub open spec fn wf(&self) -> bool {
        self@.len() <= MAX_BUFFERED_SAMPLES
    }

    /// An empty buffer.
    pub fn new() -> (buffer: MicRingBuffer)
        ensures
            buffer.wf(),
            buffer@ == Seq::<u32>::empty(),
    {
        MicRingBuffer { queue: VecDeque::new() }
    }

    /// Adds samples at the end and drops the oldest beyond the bound.
    pub fn push_samples(&mut self, samples: &[u32])
        requires
            old(self).wf(),
        ensures
            final(self).wf(),
            final(self)@ == newest(old(self)@ + samples@, MAX_BUFFERED_SAMPLES as int),
    {
        let ghost all: Seq<u32> = self@ + samples@;
        let mut i: usize = 0;
        while i < samples.len()
            invariant
                i <= samples.len(),
                self.queue@ == old(self)@ + samples@.take(i as int),
            decreases samples.len() - i,
        {
            self.queue.push_back(samples[i]);
            assert(samples@.take(i + 1) =~= samples@.take(i as int).push(samples@[i as int]));
            i += 1;
        }
        assert(self.queue@ =~= all);
        let ghost mut dropped: int = 0;
        while self.queue.len() > MAX_BUFFERED_SAMPLES
            invariant
                0 <= dropped <= all.len(),
                self.queue@ == all.skip(dropped),
                all.len() <= MAX_BUFFERED_SAMPLES ==> dropped == 0,
                all.len() > MAX_BUFFERED_SAMPLES ==> dropped <= all.len() - MAX_BUFFERED_SAMPLES,
            decreases self.queue.len(),
        {
            let _ = self.queue.pop_front();
            proof {
                dropped = dropped + 1;
                assert(self.queue@ =~= all.skip(dropped));
            }
        }
        assert(self@ =~= newest(all, MAX_BUFFERED_SAMPLES as int));
    }

    /// Takes the oldest sample; an empty buffer gives silence.
    pub fn pop_sample(&mut self) -> (sample: u32)
        requires
            old(self).wf(),
        ensures
            final(self).wf(),
            sample == next_sample(old(self)@),
            final(self)@ == without_next(old(self)@),
    {
        match self.queue.pop_front() {
            Some(sample) => {
                assert(self@ =~= old(self)@.drop_first());
                sample
            },
            None => SILENCE,
        }
    }
}

/// The microphone as a source of the mixer: an endless stream over the buffer.
#[derive(Clone, Copy, Debug, PartialEq, Eq)]
pub struct MicPassthroughSource {
    channels: u16,
    sample_rate: u32,
}

impl MicPassthroughSource {
    /// The number of channels.
    pub closed spec fn channel_count(&self) -> u16 {
        self.channels
    }

    /// The number of samples per second and channel.
    pub closed spec fn rate(&self) -> u32 {
        self.sample_rate
    }

    /// A source in the format that a device reports. A format with no channels, or
    /// no samples a second, is taken as one.
    pub fn new(device_channels: u16, device_rate: u32) -> (source: MicPassthroughSource)
        ensures
            source.channel_count() == if device_channels == 0 {
                1
            } else {
                device_channels
            },
            source.rate() == if device_rate == 0 {
                1
            } else {
                device_rate
            },
    {
        MicPassthroughSource {
            channels: if device_channels == 0 {
                1
            } else {
                device_channels
            },
            sample_rate: if device_rate == 0 {
                1
            } else {
                device_rate
            },
        }
    }

    /// The next sample. The stream never ends, so the mixer never drops it.
    pub fn next(&self, buffer: &mut MicRingBuffer) -> (sample: Option<u32>)
        requires
            old(buffer).wf(),
        ensures
            final(buffer).wf(),
            sample == Some(next_sample(old(buffer)@)),
            final(buffer)@ == without_next(old(buffer)@),
    {
        Some(buffer.pop_sample())
    }

    /// The samples left in the present format: without end.
    pub fn current_span_len(&self) -> (len: Option<usize>)
        ensures
            len is None,
    {
        None
    }

    /// The number of channels.
    pub fn channels(&self) -> (channels: u16)
        ensures
            channels == self.channel_count(),
    {
        self.channels
    }

    /// The number of samples per second and channel.
    pub fn sample_rate(&self) -> (rate: u32)
        ensures
            rate == self.rate(),
    {
        self.sample_rate
    }

    /// The length of the stream in milliseconds: without end.
    pub fn total_duration(&self) -> (millis: Option<u64>)
        ensures
            millis is None,
    {
        None
    }
}

/// Handing samples over in pieces leaves the same buffer as handing them over at
/// once.
pub proof fn law_pushing_in_pieces(held: Seq<u32>, first: Seq<u32>, second: Seq<u32>, limit: int)
    requires
        limit >= 0,
    ensures
        newest(newest(held + first, limit) + second, limit) == newest(
            held + (first + second),
            limit,
        ),
{
    assert(held + (first + second) =~= (held + first) + second);
    assert(newest(newest(held + first, limit) + second, limit) =~= newest(
        (held + first) + second,
        limit,
    ));
}

/// The stream is first in, first out, and never ends: the samples held leave in
/// order, and silence follows without end.
pub proof fn law_first_in_first_out(held: Seq<u32>, n: nat)
    ensures
        next_sample(without_first(held, n)) == if n < held.len() {
            held[n as int]
        } else {
            SILENCE
        },
        without_first(held, n) == held.skip(
            if n < held.len() {
                n as int
            } else {
                held.len() as int
            },
        ),
    decreases n,
{
    if n == 0 {
        assert(held.skip(0) =~= held);
    } else {
        law_first_in_first_out(held, (n - 1) as nat);
        if n <= held.len() {
            assert(held.skip(n - 1).drop_first() =~= held.skip(n as int));
        }
    }
}

/// Nothing is reordered or lost on the way in, but for the oldest samples: what the buffer keeps is the end
/// of all that was handed over, unchanged, and at most the bound of it.
pub proof fn law_kept_in_order(held: Seq<u32>, samples: Seq<u32>, limit: int)
    requires
        limit >= 0,
    ensures
        newest(held + samples, limit).is_suffix_of(held + samples),
        newest(held + samples, limit).len() <= limit,
        samples.len() <= limit ==> samples.is_suffix_of(newest(held + samples, limit)),
{
    let kept = newest(held + samples, limit);
    let all = held + samples;
    assert(kept =~= all.subrange(all.len() - kept.len(), all.len() as int));
    if samples.len() <= limit {
        assert(samples =~= kept.subrange(kept.len() - samples.len(), kept.len() as int));
    }
}

/// Pushing adds all samples after those held, unchanged and in order, and then drops the
/// oldest, only as many as go beyond 96000.
pub proof fn law_pushing_keeps_the_newest(buffer: &mut MicRingBuffer, samples: &[u32])
    requires
        call_ensures(MicRingBuffer::push_samples, (buffer, samples), ()),
    ensures
        ({
            let all = old(buffer)@ + samples@;
            let kept = final(buffer)@;
            &&& kept.len() == if all.len() <= 96_000 {
                all.len() as int
            } else {
                96_000
            }
            &&& forall|i: int|
                0 <= i < kept.len() ==> #[trigger] kept[i] == all[all.len() - kept.len() + i]
        }),
{
}

/// A sample that is taken is the oldest that is held, which leaves; an empty buffer gives
/// silence and stays empty. The source of the mixer gives the same, and never ends.
pub proof fn law_oldest_sample_leaves_first(
    buffer: &mut MicRingBuffer,
    sample: u32,
    source: &MicPassthroughSource,
    played: &mut MicRingBuffer,
    next: Option<u32>,
)
    requires
        call_ensures(MicRingBuffer::pop_sample, (buffer,), sample),
        call_ensures(MicPassthroughSource::next, (source, played), next),
    ensures
        old(buffer)@.len() == 0 ==> sample == 0 && final(buffer)@.len() == 0,
        old(buffer)@.len() > 0 ==> old(buffer)@ == seq![sample] + final(buffer)@,
        next is Some,
        old(played)@.len() == 0 ==> next == Some(0u32) && final(played)@.len() == 0,
        old(played)@.len() > 0 ==> old(played)@ == seq![next->0] + final(played)@,
{
    if old(buffer)@.len() > 0 {
        assert(old(buffer)@ =~= seq![sample] + final(buffer)@);
    }
    if old(played)@.len() > 0 {
        assert(old(played)@ =~= seq![next->0] + final(played)@);
    }
}

/// A buffer begins empty.
pub proof fn law_buffer_begins_empty(buffer: MicRingBuffer)
    requires
        call_ensures(MicRingBuffer::new, (), buffer),
    ensures
        buffer@.len() == 0,
{
}

/// A source has the format of its device, but never less than one channel and one sample
/// a second, and tells no end.
pub proof fn law_source_has_the_format_of_its_device(
    device_channels: u16,
    device_rate: u32,
    source: MicPassthroughSource,
    channels: u16,
    rate: u32,
    span: Option<usize>,
    duration: Option<u64>,
)
    requires
        call_ensures(MicPassthroughSource::new, (device_channels, device_rate), source),
        call_ensures(MicPassthroughSource::channels, (&source,), channels),
        call_ensures(MicPassthroughSource::sample_rate, (&source,), rate),
        call_ensures(MicPassthroughSource::current_span_len, (&source,), span),
        call_ensures(MicPassthroughSource::total_duration, (&source,), duration),
    ensures
        device_channels > 0 ==> channels == device_channels,
        device_channels == 0 ==> channels == 1,
        device_rate > 0 ==> rate == device_rate,
        device_rate == 0 ==> rate == 1,
        span is None,
        duration is None,
{
}

/// Samples can be pushed and taken wherever the buffer holds no more than 96000, and it
/// never holds more.
pub proof fn law_buffer_stays_bounded(
    buffer: &mut MicRingBuffer,
    samples: &[u32],
    taken: &mut MicRingBuffer,
    sample: u32,
)
    requires
        old(buffer)@.len() <= 96_000,
        call_ensures(MicRingBuffer::push_samples, (buffer, samples), ()),
        old(taken)@.len() <= 96_000,
        call_ensures(MicRingBuffer::pop_sample, (taken,), sample),
    ensures
        call_requires(MicRingBuffer::push_samples, (buffer, samples)),
        final(buffer)@.len() <= 96_000,
        call_requires(MicRingBuffer::pop_sample, (taken,)),
        final(taken)@.len() <= 96_000,
{
}

} // verus!
