//! The handoff from the audio capture callback to the worker that encodes.
//!
//! The callback runs in real time: it must return at once, whatever the
//! worker is doing. So the handoff has a fixed number of places, and a chunk
//! that finds them all taken is dropped and counted. Under overload the
//! newest audio is lost; the callback is never held up and the memory in use
//! never grows.

use std::collections::VecDeque;
use vstd::prelude::*;

verus! {

/// A bounded queue of captured chunks that drops what does not fit.
pub struct Handoff<T> {
    slots: VecDeque<T>,
    capacity: usize,
    dropped: u64,
}

impl<T> Handoff<T> {
    /// The chunks that wait for the worker, the oldest first.
    pub closed spec fn queued(&self) -> Seq<T> {
        self.slots@
    }

    /// The number of places.
    pub closed spec fn capacity(&self) -> nat {
        self.capacity as nat
    }

    /// The number of chunks dropped so far; it stops counting at the largest
    /// number it can hold.
    pub closed spec fn dropped(&self) -> nat {
        self.dropped as nat
    }

    /// No more chunks wait than there are places.
    pub open spec fn wf(&self) -> bool {
        self.queued().len() <= self.capacity()
    }

    /// An empty handoff with `capacity` places.
    pub fn new(capacity: usize) -> (r: Self)
        ensures
            r.wf(),
            r.queued() == Seq::<T>::empty(),
            r.capacity() == capacity,
            r.dropped() == 0,
    {
        Handoff { slots: VecDeque::new(), capacity, dropped: 0 }
    }

    /// The number of chunks that wait.
    pub fn len(&self) -> (r: usize)
        ensures
            r == self.queued().len(),
    {
        self.slots.len()
    }

    /// The number of chunks dropped so far.
    pub fn dropped_count(&self) -> (r: u64)
        ensures
            r == self.dropped(),
    {
        self.dropped
    }

    /// Offers a chunk. With a place free it joins the queue at the back;
    /// with none free it is dropped, the drop is counted, and what waits is
    /// left as it is. The answer says whether the chunk was taken.
    pub fn offer(&mut self, chunk: T) -> (taken: bool)
        requires
            old(self).wf(),
        ensures
            final(self).wf(),
            final(self).capacity() == old(self).capacity(),
            taken == (old(self).queued().len() < old(self).capacity()),
            taken ==> {
                &&& final(self).queued() == old(self).queued().push(chunk)
                &&& final(self).dropped() == old(self).dropped()
            },
            !taken ==> {
                &&& final(self).queued() == old(self).queued()
                &&& final(self).dropped() == (if old(self).dropped() < u64::MAX {
                    old(self).dropped() + 1
                } else {
                    old(self).dropped()
                })
            },
    {
        if self.slots.len() < self.capacity {
            self.slots.push_back(chunk);
            true
        } else {
            if self.dropped < u64::MAX {
                self.dropped = self.dropped + 1;
            }
            false
        }
    }

    /// Hands the oldest chunk to the worker, if one waits.
    pub fn take(&mut self) -> (r: Option<T>)
        requires
            old(self).wf(),
        ensures
            final(self).wf(),
            final(self).capacity() == old(self).capacity(),
            final(self).dropped() == old(self).dropped(),
            match r {
                Some(chunk) => {
                    &&& old(self).queued().len() > 0
                    &&& chunk == old(self).queued().first()
                    &&& final(self).queued() == old(self).queued().drop_first()
                },
                None => {
                    &&& old(self).queued().len() == 0
                    &&& final(self).queued() == old(self).queued()
                },
            },
    {
        let r = self.slots.pop_front();
        proof {
            if r is Some {
                assert(self.slots@ =~= old(self).slots@.drop_first());
            } else {
                assert(self.slots@ =~= old(self).slots@);
            }
        }
        r
    }
}

/// What a handoff with `capacity` places and `queued` chunks waiting holds
/// after a run of chunks was offered to it with no chunk taken in between:
/// as many of them as found a place, in the order offered.
pub open spec fn after_flood<T>(queued: Seq<T>, capacity: nat, offered: Seq<T>) -> Seq<T> {
    if queued.len() + offered.len() <= capacity {
        queued + offered
    } else if queued.len() <= capacity {
        queued + offered.take(capacity - queued.len())
    } else {
        queued
    }
}

/// Offers a run of chunks one after the other, as a burst of capture
/// callbacks would with the worker standing still. The answer is the number
/// of chunks that were dropped.
pub fn flood<T>(handoff: &mut Handoff<T>, chunks: Vec<T>) -> (lost: usize)
    requires
        old(handoff).wf(),
    ensures
        final(handoff).wf(),
        final(handoff).capacity() == old(handoff).capacity(),
        final(handoff).queued() == after_flood(
            old(handoff).queued(),
            old(handoff).capacity(),
            chunks@,
        ),
        lost == old(handoff).queued().len() + chunks@.len() - final(handoff).queued().len(),
{
    let ghost start = handoff.queued();
    let ghost capacity = handoff.capacity();
    let ghost all = chunks@;
    let mut chunks = chunks;
    let mut lost: usize = 0;
    let mut i: usize = 0;
    let total = chunks.len();
    assert(all.take(0) =~= Seq::<T>::empty());
    assert(start + all.take(0) =~= start);
    while chunks.len() > 0
        invariant
            handoff.wf(),
            handoff.capacity() == capacity,
            start.len() <= capacity,
            i + chunks@.len() == total,
            total == all.len(),
            chunks@ == all.skip(i as int),
            handoff.queued() == after_flood(start, capacity, all.take(i as int)),
            lost == start.len() + i - handoff.queued().len(),
        decreases chunks@.len(),
    {
        let chunk = chunks.remove(0);
        assert(chunk == all[i as int]);
        assert(chunks@ =~= all.skip(i + 1));
        let ghost done = all.take(i as int);
        let ghost next = all.take(i + 1);
        assert(next =~= done.push(chunk));
        let taken = handoff.offer(chunk);
        proof {
            if start.len() + done.len() <= capacity {
                if taken {
                    assert(handoff.queued() =~= start + next);
                } else {
                    assert(next.take(capacity - start.len()) =~= done);
                }
            } else {
                assert(next.take(capacity - start.len()) =~= done.take(capacity - start.len()));
            }
        }
        if !taken {
            lost += 1;
        }
        i += 1;
    }
    assert(all.take(i as int) =~= all);
    lost
}

/// Under any flood the handoff stays within its places, keeps what waited,
/// and loses exactly the chunks that found no place.
pub proof fn lemma_flood_is_bounded<T>(queued: Seq<T>, capacity: nat, offered: Seq<T>)
    requires
        queued.len() <= capacity,
    ensures
        after_flood(queued, capacity, offered).len() <= capacity,
        after_flood(queued, capacity, offered).len() >= queued.len(),
        after_flood(queued, capacity, offered).take(queued.len() as int) == queued,
        queued.len() + offered.len() > capacity ==> after_flood(queued, capacity, offered).len()
            == capacity,
{
    assert(after_flood(queued, capacity, offered).take(queued.len() as int) =~= queued);
}

} // verus!
