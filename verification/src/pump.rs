//! The outbound side: one ordered, bounded queue of input events, drained one
//! event at a time into text frames.
//!
//! Any number of producers may enqueue; a single pump takes the events out in
//! the order in which they came in and hands their frames to the connection.
//! A full queue refuses the event and gives it back, so that the producer can
//! wait and try again: nothing is ever dropped.

use crate::event::{input_event_text, InputEvent, InputEventModel};
use std::collections::VecDeque;
use vstd::prelude::*;

verus! {

/// The number of events that the queue of a session holds at most.
pub const DEFAULT_CAPACITY: usize = 9999;

/// The text frames of a run of events, one for one.
pub open spec fn frames_of(events: Seq<InputEventModel>) -> Seq<Seq<char>> {
    events.map_values(|e: InputEventModel| input_event_text(e))
}

/// Where the pump stands.
#[derive(Debug, Clone, Copy, PartialEq, Eq, Structural)]
pub enum PumpState {
    /// Events are taken in and sent.
    Open,
    /// No more events are taken in; those still queued are sent.
    Closed,
    /// The connection has failed; nothing more is sent.
    Failed,
}

/// Why an event was not taken in. The event comes back with the reason.
#[derive(Debug, Clone, PartialEq)]
pub enum Refused {
    /// The queue is full: the producer waits for room.
    Full(InputEvent),
    /// The queue takes nothing in any more.
    Ended(InputEvent),
}

/// A mid-session failure of the connection. It is fatal: the pump and the
/// reader both stop.
#[derive(Debug, Clone, Copy, PartialEq, Eq, Structural)]
pub struct TransportError;

/// What the pump does next.
#[derive(Debug, Clone, PartialEq)]
pub enum PumpStep {
    /// Send this text frame.
    Send(String),
    /// Nothing is queued: wait for an event.
    Idle,
    /// Everything was sent and nothing more will come: stop.
    Finished,
    /// The connection has failed: stop, and report it.
    Failed(TransportError),
}

/// The queue between the producers of input events and the connection.
pub struct OutboundQueue {
    pending: VecDeque<InputEvent>,
    capacity: usize,
    state: PumpState,
    accepted: Ghost<Seq<InputEventModel>>,
    written: Ghost<Seq<Seq<char>>>,
}

impl OutboundQueue {
    /// The events that wait to be sent, the next one first.
    pub closed spec fn pending(&self) -> Seq<InputEventModel> {
        self.pending@.map_values(|e: InputEvent| e@)
    }

    /// The most events that may wait at a time.
    pub closed spec fn capacity(&self) -> nat {
        self.capacity as nat
    }

    /// Where the pump stands.
    pub closed spec fn state(&self) -> PumpState {
        self.state
    }

    /// Every event that was ever taken in, in the order of arrival.
    pub closed spec fn accepted(&self) -> Seq<InputEventModel> {
        self.accepted@
    }

    /// Every frame that was ever handed out for sending, in that order.
    pub closed spec fn written(&self) -> Seq<Seq<char>> {
        self.written@
    }

    /// The queue is in order: it holds no more than its capacity, and what
    /// was handed out, followed by the frames of what still waits, is the run
    /// of frames of everything taken in.
    pub open spec fn wf(&self) -> bool {
        &&& self.pending().len() <= self.capacity()
        &&& self.written() + frames_of(self.pending()) == frames_of(self.accepted())
    }

    /// An empty queue for at most `capacity` events.
    pub fn new(capacity: usize) -> (r: Self)
        ensures
            r.wf(),
            r.capacity() == capacity,
            r.state() == PumpState::Open,
            r.pending() == Seq::<InputEventModel>::empty(),
            r.accepted() == Seq::<InputEventModel>::empty(),
            r.written() == Seq::<Seq<char>>::empty(),
    {
        let r = OutboundQueue {
            pending: VecDeque::new(),
            capacity,
            state: PumpState::Open,
            accepted: Ghost(Seq::empty()),
            written: Ghost(Seq::empty()),
        };
        assert(r.pending() =~= Seq::<InputEventModel>::empty());
        assert(r.written() + frames_of(r.pending()) =~= frames_of(r.accepted()));
        r
    }

    /// The number of events that wait to be sent.
    pub fn len(&self) -> (r: usize)
        ensures
            r == self.pending().len(),
    {
        self.pending.len()
    }

    /// Where the pump stands.
    pub fn current_state(&self) -> (r: PumpState)
        ensures
            r == self.state(),
    {
        self.state
    }

    /// Takes an event in at the back of the queue. An open queue with room
    /// takes it; a full one and one that has ended give it back unchanged.
    pub fn enqueue(&mut self, event: InputEvent) -> (r: Result<(), Refused>)
        requires
            old(self).wf(),
        ensures
            final(self).wf(),
            final(self).capacity() == old(self).capacity(),
            final(self).state() == old(self).state(),
            final(self).written() == old(self).written(),
            match r {
                Ok(()) => {
                    &&& old(self).state() == PumpState::Open
                    &&& old(self).pending().len() < old(self).capacity()
                    &&& final(self).pending() == old(self).pending().push(event@)
                    &&& final(self).accepted() == old(self).accepted().push(event@)
                },
                Err(Refused::Ended(back)) => {
                    &&& old(self).state() != PumpState::Open
                    &&& back@ == event@
                    &&& final(self).pending() == old(self).pending()
                    &&& final(self).accepted() == old(self).accepted()
                },
                Err(Refused::Full(back)) => {
                    &&& old(self).state() == PumpState::Open
                    &&& old(self).pending().len() >= old(self).capacity()
                    &&& back@ == event@
                    &&& final(self).pending() == old(self).pending()
                    &&& final(self).accepted() == old(self).accepted()
                },
            },
    {
        match self.state {
            PumpState::Open => {},
            _ => {
                return Err(Refused::Ended(event));
            },
        }
        if self.pending.len() >= self.capacity {
            return Err(Refused::Full(event));
        }
        let ghost model = event@;
        self.pending.push_back(event);
        proof {
            self.accepted@ = self.accepted@.push(model);
            assert(self.pending() =~= old(self).pending().push(model));
            assert(frames_of(self.pending()) =~= frames_of(old(self).pending()).push(
                input_event_text(model),
            ));
            assert(frames_of(self.accepted()) =~= frames_of(old(self).accepted()).push(
                input_event_text(model),
            ));
            assert(self.written() + frames_of(self.pending()) =~= (old(self).written() + frames_of(
                old(self).pending(),
            )).push(input_event_text(model)));
        }
        Ok(())
    }

    /// Ends the intake: every producer is gone. What still waits is sent.
    pub fn close(&mut self)
        requires
            old(self).wf(),
        ensures
            final(self).wf(),
            final(self).capacity() == old(self).capacity(),
            final(self).pending() == old(self).pending(),
            final(self).accepted() == old(self).accepted(),
            final(self).written() == old(self).written(),
            final(self).state() == (if old(self).state() == PumpState::Open {
                PumpState::Closed
            } else {
                old(self).state()
            }),
    {
        match self.state {
            PumpState::Open => {
                self.state = PumpState::Closed;
            },
            _ => {},
        }
    }

    /// Records that the connection refused a frame. The pump has failed for
    /// good, whatever state it was in.
    pub fn fail(&mut self) -> (r: TransportError)
        requires
            old(self).wf(),
        ensures
            final(self).wf(),
            final(self).capacity() == old(self).capacity(),
            final(self).pending() == old(self).pending(),
            final(self).accepted() == old(self).accepted(),
            final(self).written() == old(self).written(),
            final(self).state() == PumpState::Failed,
    {
        self.state = PumpState::Failed;
        TransportError
    }

    /// What the pump does next. While the connection stands, the event at
    /// the front leaves the queue and its frame is to be sent; with nothing
    /// queued the pump waits, or stops where the intake has ended.
    pub fn step(&mut self) -> (r: PumpStep)
        requires
            old(self).wf(),
        ensures
            final(self).wf(),
            final(self).capacity() == old(self).capacity(),
            final(self).state() == old(self).state(),
            final(self).accepted() == old(self).accepted(),
            match r {
                PumpStep::Failed(_) => {
                    &&& old(self).state() == PumpState::Failed
                    &&& final(self).pending() == old(self).pending()
                    &&& final(self).written() == old(self).written()
                },
                PumpStep::Send(frame) => {
                    &&& old(self).state() != PumpState::Failed
                    &&& old(self).pending().len() > 0
                    &&& frame@ == input_event_text(old(self).pending().first())
                    &&& final(self).pending() == old(self).pending().drop_first()
                    &&& final(self).written() == old(self).written().push(frame@)
                },
                PumpStep::Idle => {
                    &&& old(self).state() == PumpState::Open
                    &&& old(self).pending().len() == 0
                    &&& final(self).pending() == old(self).pending()
                    &&& final(self).written() == old(self).written()
                },
                PumpStep::Finished => {
                    &&& old(self).state() == PumpState::Closed
                    &&& old(self).pending().len() == 0
                    &&& final(self).pending() == old(self).pending()
                    &&& final(self).written() == old(self).written()
                },
            },
    {
        match self.state {
            PumpState::Failed => {
                return PumpStep::Failed(TransportError);
            },
            _ => {},
        }
        match self.pending.pop_front() {
            Some(event) => {
                let frame = event.encode();
                proof {
                    self.written@ = self.written@.push(frame@);
                    let before = old(self).pending();
                    assert(self.pending() =~= before.drop_first());
                    assert(frames_of(before) =~= seq![frame@] + frames_of(before.drop_first()));
                    assert(self.written() + frames_of(self.pending()) =~= old(self).written()
                        + frames_of(before));
                }
                PumpStep::Send(frame)
            },
            None => {
                assert(self.pending() =~= old(self).pending());
                match self.state {
                    PumpState::Open => PumpStep::Idle,
                    _ => PumpStep::Finished,
                }
            },
        }
    }

    /// Takes out everything that waits, as frames in the order of arrival. A
    /// pump whose connection has failed hands out nothing.
    pub fn drain(&mut self) -> (r: Vec<String>)
        requires
            old(self).wf(),
        ensures
            final(self).wf(),
            final(self).capacity() == old(self).capacity(),
            final(self).state() == old(self).state(),
            final(self).accepted() == old(self).accepted(),
            old(self).state() == PumpState::Failed ==> {
                &&& r@.len() == 0
                &&& final(self).pending() == old(self).pending()
                &&& final(self).written() == old(self).written()
            },
            old(self).state() != PumpState::Failed ==> {
                &&& r@.map_values(|s: String| s@) == frames_of(old(self).pending())
                &&& final(self).pending().len() == 0
                &&& final(self).written() == old(self).written() + frames_of(old(self).pending())
            },
    {
        let mut out: Vec<String> = Vec::new();
        let ghost start = old(self).pending();
        assert(start.skip(0) =~= start);
        assert(out@.map_values(|s: String| s@) =~= frames_of(start.take(0)));
        loop
            invariant
                self.wf(),
                self.capacity() == old(self).capacity(),
                self.state() == old(self).state(),
                self.accepted() == old(self).accepted(),
                start == old(self).pending(),
                out@.len() <= start.len(),
                self.pending() == start.skip(out@.len() as int),
                out@.map_values(|s: String| s@) == frames_of(start.take(out@.len() as int)),
                self.written() == old(self).written() + frames_of(start.take(out@.len() as int)),
                old(self).state() == PumpState::Failed ==> out@.len() == 0,
            decreases start.len() - out@.len(),
        {
            let ghost n = out@.len() as int;
            match self.step() {
                PumpStep::Send(frame) => {
                    out.push(frame);
                    proof {
                        assert(start.skip(n).drop_first() =~= start.skip(n + 1));
                        assert(start.skip(n).first() == start[n]);
                        assert(frames_of(start.take(n + 1)) =~= frames_of(start.take(n)).push(frame@));
                        assert(out@.map_values(|s: String| s@) =~= frames_of(start.take(n)).push(
                            frame@,
                        ));
                        assert(self.written() =~= old(self).written() + frames_of(
                            start.take(n + 1),
                        ));
                    }
                },
                PumpStep::Failed(_) => {
                    assert(start.skip(0) =~= start);
                    return out;
                },
                _ => {
                    assert(start.take(n) =~= start);
                    return out;
                },
            }
        }
    }
}

/// Frames leave in the order in which their events came in: at any moment the
/// frames handed out so far are the frames of the first events taken in, one
/// for one and in the same order.
pub proof fn lemma_wire_order_is_enqueue_order(queue: OutboundQueue)
    requires
        queue.wf(),
    ensures
        queue.written().len() + queue.pending().len() == queue.accepted().len(),
        forall|i: int|
            0 <= i < queue.written().len() ==> #[trigger] queue.written()[i] == input_event_text(
                queue.accepted()[i],
            ),
{
    let all = queue.written() + frames_of(queue.pending());
    assert(all.len() == frames_of(queue.accepted()).len());
    assert forall|i: int| 0 <= i < queue.written().len() implies #[trigger] queue.written()[i]
        == input_event_text(queue.accepted()[i]) by {
        assert(all[i] == queue.written()[i]);
        assert(frames_of(queue.accepted())[i] == input_event_text(queue.accepted()[i]));
    }
}

} // verus!
