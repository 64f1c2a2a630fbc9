//! The playback jitter buffer: received samples wait here until the output
//! pulls them, one at a time and at its own pace.
//!
//! Pulling never waits. Where nothing is buffered the output gets silence,
//! the zero sample: a gap can be heard, a stalled audio callback cannot be
//! afforded. The buffer holds no more than its limit; what comes in beyond
//! it pushes the oldest samples out.

use std::collections::VecDeque;
use vstd::prelude::*;

verus! {

/// The sample that stands for silence.
pub const SILENCE: i16 = 0;

/// The newest `limit` samples of a run, or all of it where it is no longer.
pub open spec fn newest(samples: Seq<i16>, limit: nat) -> Seq<i16> {
    if samples.len() <= limit {
        samples
    } else {
        samples.skip(samples.len() - limit)
    }
}

/// What `count` pulls give from a buffer that holds `buffered`: its samples
/// from the front, then silence.
pub open spec fn pulled(buffered: Seq<i16>, count: nat) -> Seq<i16> {
    Seq::new(
        count,
        |i: int|
            if i < buffered.len() {
                buffered[i]
            } else {
                SILENCE
            },
    )
}

/// What is left in a buffer that held `buffered` after `count` pulls.
pub open spec fn left(buffered: Seq<i16>, count: nat) -> Seq<i16> {
    if count <= buffered.len() {
        buffered.skip(count as int)
    } else {
        Seq::empty()
    }
}

/// The buffer between the arrival of audio and its playback.
#[derive(Debug, Clone, PartialEq)]
pub struct JitterBuffer {
    samples: VecDeque<i16>,
    limit: usize,
}

impl JitterBuffer {
    /// The samples that wait, the next one to play first.
    pub closed spec fn buffered(&self) -> Seq<i16> {
        self.samples@
    }

    /// The most samples that may wait at a time.
    pub closed spec fn limit(&self) -> nat {
        self.limit as nat
    }

    /// An empty buffer that holds at most `limit` samples.
    pub fn new(limit: usize) -> (r: Self)
        ensures
            r.buffered() == Seq::<i16>::empty(),
            r.limit() == limit,
    {
        JitterBuffer { samples: VecDeque::new(), limit }
    }

    /// An empty buffer for `seconds` of audio at the given rate and number of
    /// channels, or for as much as can be counted where that is less.
    pub fn for_duration(sample_rate: u32, channels: u16, seconds: u32) -> (r: Self)
        ensures
            r.buffered() == Seq::<i16>::empty(),
            r.limit() == (if sample_rate * channels * seconds <= usize::MAX {
                (sample_rate * channels * seconds) as nat
            } else {
                usize::MAX as nat
            }),
    {
        assert(sample_rate * channels * seconds <= 0xffff_ffff * 0xffff * 0xffff_ffff)
            by (nonlinear_arith);
        assert(sample_rate * channels <= 0xffff_ffff * 0xffff) by (nonlinear_arith);
        let per_second: u128 = (sample_rate as u128) * (channels as u128);
        let total: u128 = per_second * (seconds as u128);
        let limit: usize = if total <= usize::MAX as u128 {
            total as usize
        } else {
            usize::MAX
        };
        JitterBuffer { samples: VecDeque::new(), limit }
    }

    /// The number of samples that wait.
    pub fn len(&self) -> (r: usize)
        ensures
            r == self.buffered().len(),
    {
        self.samples.len()
    }

    /// Whether nothing waits.
    pub fn is_empty(&self) -> (r: bool)
        ensures
            r == (self.buffered().len() == 0),
    {
        self.samples.len() == 0
    }

    /// Appends samples at the back. Of what the buffer then holds, only the
    /// newest samples up to its limit stay: the oldest are dropped.
    pub fn push(&mut self, samples: &[i16])
        ensures
            final(self).limit() == old(self).limit(),
            final(self).buffered() == newest(old(self).buffered() + samples@, old(self).limit()),
            final(self).buffered().len() <= final(self).limit(),
    {
        let ghost start = self.samples@;
        let ghost limit = self.limit as nat;
        if self.samples.len() > self.limit {
            let mut extra: usize = self.samples.len() - self.limit;
            assert(start.skip(0) =~= start);
            while extra > 0
                invariant
                    self.limit == limit,
                    start.len() >= limit + extra,
                    self.samples@ == start.skip(start.len() - limit - extra),
                decreases extra,
            {
                let ghost at = start.len() - limit - extra;
                self.samples.pop_front();
                extra -= 1;
                assert(self.samples@ =~= start.skip(at).drop_first());
                assert(start.skip(at).drop_first() =~= start.skip(at + 1));
            }
        }
        assert(self.samples@ =~= newest(start, limit));
        assert(start + samples@.take(0) =~= start);
        let mut i: usize = 0;
        while i < samples.len()
            invariant
                i <= samples.len(),
                self.limit == limit,
                self.samples@ == newest(start + samples@.take(i as int), limit),
            decreases samples.len() - i,
        {
            let ghost run = start + samples@.take(i as int);
            let ghost next = start + samples@.take(i + 1);
            assert(next =~= run.push(samples@[i as int]));
            self.samples.push_back(samples[i]);
            if self.samples.len() > self.limit {
                self.samples.pop_front();
            }
            assert(self.samples@ =~= newest(next, limit));
            i += 1;
        }
        assert(samples@.take(i as int) =~= samples@);
    }

    /// Hands out the next sample to play: the one at the front, which leaves
    /// the buffer, or silence where nothing waits.
    pub fn pull(&mut self) -> (r: i16)
        ensures
            final(self).limit() == old(self).limit(),
            old(self).buffered().len() == 0 ==> {
                &&& r == SILENCE
                &&& final(self).buffered() == old(self).buffered()
            },
            old(self).buffered().len() > 0 ==> {
                &&& r == old(self).buffered().first()
                &&& final(self).buffered() == old(self).buffered().drop_first()
            },
    {
        match self.samples.pop_front() {
            Some(sample) => {
                assert(self.samples@ =~= old(self).samples@.drop_first());
                sample
            },
            None => {
                assert(self.samples@ =~= old(self).samples@);
                SILENCE
            },
        }
    }

    /// Hands out the next `count` samples to play: what waits, from the
    /// front, then silence.
    pub fn pull_many(&mut self, count: usize) -> (r: Vec<i16>)
        ensures
            final(self).limit() == old(self).limit(),
            r@ == pulled(old(self).buffered(), count as nat),
            final(self).buffered() == left(old(self).buffered(), count as nat),
    {
        let ghost start = self.samples@;
        let mut out: Vec<i16> = Vec::new();
        assert(start.skip(0) =~= start);
        let mut i: usize = 0;
        while i < count
            invariant
                i <= count,
                self.limit == old(self).limit,
                out@ == pulled(start, i as nat),
                self.samples@ == left(start, i as nat),
            decreases count - i,
        {
            let sample = self.pull();
            out.push(sample);
            assert(out@ =~= pulled(start, (i + 1) as nat));
            assert(self.samples@ =~= left(start, (i + 1) as nat));
            i += 1;
        }
        out
    }

    /// Drops everything that waits.
    pub fn clear(&mut self)
        ensures
            final(self).limit() == old(self).limit(),
            final(self).buffered() == Seq::<i16>::empty(),
    {
        self.samples.clear();
    }
}

/// The sample for an output that asks while the buffer may be in use: the
/// next sample where the buffer could be had, silence where it could not.
pub fn pull_or_silence(buffer: Option<&mut JitterBuffer>) -> (r: i16)
    ensures
        buffer is None ==> r == SILENCE,
        buffer matches Some(b) ==> {
            &&& r == pulled(b.buffered(), 1)[0]
            &&& final(b).buffered() == left(b.buffered(), 1)
            &&& final(b).limit() == b.limit()
        },
{
    match buffer {
        Some(buffer) => buffer.pull(),
        None => SILENCE,
    }
}

/// A bounded buffer stays bounded: whatever is pushed, it holds no more than
/// its limit, and what it holds is the end of what came in.
pub proof fn lemma_newest_is_bounded(samples: Seq<i16>, limit: nat)
    ensures
        newest(samples, limit).len() <= limit,
        newest(samples, limit).len() <= samples.len(),
        forall|i: int|
            0 <= i < newest(samples, limit).len() ==> #[trigger] newest(samples, limit)[i]
                == samples[samples.len() - newest(samples, limit).len() + i],
{
}

} // verus!
