//! The inbound side: from the frames of the connection to received events.
//!
//! Every text frame is decoded by itself. A frame that is no event of a known
//! shape is passed over, and so is every binary, ping or pong frame: the far
//! end may speak of things this library has not heard of, and the stream of
//! events must not end over that. A close frame ends the stream.

use crate::event::{decoded, ReceivedEvent, ReceivedEventModel};
use vstd::prelude::*;

verus! {

/// What a frame holds.
pub enum FrameModel {
    Text(Seq<char>),
    Binary(Seq<u8>),
    Ping(Seq<u8>),
    Pong(Seq<u8>),
    Close,
}

/// A frame as the connection delivers it.
#[derive(Debug, Clone, PartialEq)]
pub enum Frame {
    Text(String),
    Binary(Vec<u8>),
    Ping(Vec<u8>),
    Pong(Vec<u8>),
    Close,
}

impl View for Frame {
    type V = FrameModel;

    open spec fn view(&self) -> FrameModel {
        match self {
            Frame::Text(text) => FrameModel::Text(text@),
            Frame::Binary(bytes) => FrameModel::Binary(bytes@),
            Frame::Ping(bytes) => FrameModel::Ping(bytes@),
            Frame::Pong(bytes) => FrameModel::Pong(bytes@),
            Frame::Close => FrameModel::Close,
        }
    }
}

/// What a list of frames holds.
pub open spec fn frame_models(frames: Seq<Frame>) -> Seq<FrameModel> {
    frames.map_values(|f: Frame| f@)
}

/// What a list of received events holds.
pub open spec fn event_models(events: Seq<ReceivedEvent>) -> Seq<ReceivedEventModel> {
    events.map_values(|e: ReceivedEvent| e@)
}

/// The event that a frame carries: that of a text frame which decodes.
pub open spec fn frame_event(frame: FrameModel) -> Option<ReceivedEventModel> {
    match frame {
        FrameModel::Text(text) => decoded(text),
        _ => None,
    }
}

/// A frame that the consumer never sees: it carries no event and does not
/// close the stream.
pub open spec fn is_malformed(frame: FrameModel) -> bool {
    !(frame is Close) && frame_event(frame) is None
}

/// The events that a run of frames delivers, in the order of arrival, up to
/// the first close frame.
pub open spec fn events_of(frames: Seq<FrameModel>) -> Seq<ReceivedEventModel>
    decreases frames.len(),
{
    if frames.len() == 0 {
        Seq::empty()
    } else if frames.first() is Close {
        Seq::empty()
    } else {
        match frame_event(frames.first()) {
            Some(event) => seq![event] + events_of(frames.drop_first()),
            None => events_of(frames.drop_first()),
        }
    }
}

/// The frames of a run that are not malformed, in the order of arrival.
pub open spec fn well_formed(frames: Seq<FrameModel>) -> Seq<FrameModel> {
    frames.filter(|f: FrameModel| !is_malformed(f))
}

/// Malformed frames are invisible: a run of frames delivers the events that
/// its well-formed frames alone would deliver.
pub proof fn lemma_malformed_frames_are_invisible(frames: Seq<FrameModel>)
    ensures
        events_of(frames) == events_of(well_formed(frames)),
    decreases frames.len(),
{
    let keep = |f: FrameModel| !is_malformed(f);
    if frames.len() > 0 {
        let first = frames.first();
        let rest = frames.drop_first();
        lemma_malformed_frames_are_invisible(rest);
        assert(frames == seq![first] + rest);
        Seq::filter_distributes_over_add(seq![first], rest, keep);
        reveal_with_fuel(Seq::filter, 2);
        assert(seq![first].drop_last() == Seq::<FrameModel>::empty());
        if is_malformed(first) {
            assert(seq![first].filter(keep) == Seq::<FrameModel>::empty());
            assert(well_formed(frames) == well_formed(rest));
        } else {
            assert(seq![first].filter(keep) == seq![first]);
            let kept = well_formed(frames);
            assert(kept == seq![first] + well_formed(rest));
            assert(kept.first() == first);
            assert(kept.drop_first() == well_formed(rest));
        }
    } else {
        assert(well_formed(frames) == frames);
    }
}

/// What one frame does to the stream.
#[derive(Debug, Clone, PartialEq)]
pub enum Delivery {
    /// The frame carried this event.
    Event(ReceivedEvent),
    /// The frame was passed over.
    Skipped,
    /// The stream has ended; nothing is read from the connection any more.
    Ended,
}

/// Reads one frame of a stream that has not ended.
pub fn deliver(frame: &Frame) -> (r: Delivery)
    ensures
        match r {
            Delivery::Event(event) => frame_event(frame@) == Some(event@),
            Delivery::Skipped => is_malformed(frame@),
            Delivery::Ended => frame@ is Close,
        },
{
    match frame {
        Frame::Text(text) => match ReceivedEvent::decode(text.as_str()) {
            Some(event) => Delivery::Event(event),
            None => Delivery::Skipped,
        },
        Frame::Close => Delivery::Ended,
        _ => Delivery::Skipped,
    }
}

/// The events that a run of frames delivers: those that its text frames
/// decode to, in the order of arrival, up to the first close frame.
pub fn decode_frames(frames: &Vec<Frame>) -> (r: Vec<ReceivedEvent>)
    ensures
        event_models(r@) == events_of(frame_models(frames@)),
{
    let ghost all = frame_models(frames@);
    let mut out: Vec<ReceivedEvent> = Vec::new();
    let mut i: usize = 0;
    assert(all.skip(0) == all);
    while i < frames.len()
        invariant
            i <= frames.len(),
            all == frame_models(frames@),
            events_of(all) == event_models(out@) + events_of(all.skip(i as int)),
        decreases frames.len() - i,
    {
        let ghost rest = all.skip(i as int);
        assert(rest.first() == frames@[i as int]@);
        assert(rest.drop_first() == all.skip(i + 1));
        match deliver(&frames[i]) {
            Delivery::Event(event) => {
                let ghost before = out@;
                out.push(event);
                assert(event_models(out@) == event_models(before) + seq![event@]);
            },
            Delivery::Skipped => {},
            Delivery::Ended => {
                assert(events_of(rest) == Seq::<ReceivedEventModel>::empty());
                return out;
            },
        }
        i += 1;
    }
    out
}

/// Whether a run of frames holds a close frame.
pub open spec fn has_close(frames: Seq<FrameModel>) -> bool {
    exists|i: int| 0 <= i < frames.len() && (#[trigger] frames[i]) is Close
}

/// What one more frame adds: nothing once the run is closed, and nothing for
/// a close frame or a malformed one; else the event of the frame, behind the
/// events before it.
pub proof fn lemma_events_of_push(frames: Seq<FrameModel>, frame: FrameModel)
    ensures
        events_of(frames.push(frame)) == (if has_close(frames) || frame is Close {
            events_of(frames)
        } else {
            match frame_event(frame) {
                Some(event) => events_of(frames).push(event),
                None => events_of(frames),
            }
        }),
    decreases frames.len(),
{
    let longer = frames.push(frame);
    if frames.len() == 0 {
        assert(longer.drop_first() =~= Seq::<FrameModel>::empty());
        assert(longer.first() == frame);
        assert(events_of(longer.drop_first()) =~= Seq::<ReceivedEventModel>::empty());
        if !(frame is Close) {
            match frame_event(frame) {
                Some(event) => {
                    assert(seq![event] + Seq::<ReceivedEventModel>::empty() =~= events_of(
                        frames,
                    ).push(event));
                },
                None => {},
            }
        }
    } else {
        let rest = frames.drop_first();
        assert(longer.first() == frames.first());
        assert(longer.drop_first() =~= rest.push(frame));
        lemma_events_of_push(rest, frame);
        if frames.first() is Close {
            assert(frames[0] is Close);
        } else {
            assert(has_close(frames) == has_close(rest)) by {
                if has_close(rest) {
                    let i = choose|i: int| 0 <= i < rest.len() && (#[trigger] rest[i]) is Close;
                    assert(frames[i + 1] is Close);
                }
                if has_close(frames) {
                    let i = choose|i: int| 0 <= i < frames.len() && (#[trigger] frames[i]) is Close;
                    assert(rest[i - 1] is Close);
                }
            }
            match frame_event(frames.first()) {
                Some(first) => {
                    if !(has_close(rest) || frame is Close) {
                        match frame_event(frame) {
                            Some(event) => {
                                assert(seq![first] + events_of(rest).push(event) =~= (seq![first]
                                    + events_of(rest)).push(event));
                            },
                            None => {},
                        }
                    }
                },
                None => {},
            }
        }
    }
}

/// The read half of one connection: a stream of events that is read once,
/// from the first frame to the close. It cannot be started over; a new
/// connection makes a new stream.
pub struct InboundStream {
    ended: bool,
    seen: Ghost<Seq<FrameModel>>,
}

impl InboundStream {
    /// Whether the stream has ended.
    pub closed spec fn ended(&self) -> bool {
        self.ended
    }

    /// Every frame that the stream was given, in the order of arrival. The
    /// end of the connection counts as a close frame.
    pub closed spec fn seen(&self) -> Seq<FrameModel> {
        self.seen@
    }

    /// The stream has ended exactly if it was given a close frame.
    pub open spec fn wf(&self) -> bool {
        self.ended() == has_close(self.seen())
    }

    /// The stream of a connection that was just opened.
    pub fn new() -> (r: Self)
        ensures
            r.wf(),
            !r.ended(),
            r.seen() == Seq::<FrameModel>::empty(),
    {
        InboundStream { ended: false, seen: Ghost(Seq::empty()) }
    }

    /// Whether the stream has ended.
    pub fn is_ended(&self) -> (r: bool)
        ensures
            r == self.ended(),
    {
        self.ended
    }

    /// Takes the next frame of the connection. A stream that has ended
    /// delivers nothing more, whatever it is given. One that has not
    /// delivers the event of a text frame that decodes, passes over what is
    /// malformed, and ends on a close frame. Either way the events delivered
    /// so far are the events of the frames seen so far.
    pub fn accept(&mut self, frame: &Frame) -> (r: Delivery)
        requires
            old(self).wf(),
        ensures
            final(self).wf(),
            final(self).seen() == old(self).seen().push(frame@),
            final(self).ended() == (old(self).ended() || frame@ is Close),
            match r {
                Delivery::Event(event) => {
                    &&& !old(self).ended()
                    &&& frame_event(frame@) == Some(event@)
                    &&& events_of(final(self).seen()) == events_of(old(self).seen()).push(event@)
                },
                Delivery::Skipped => {
                    &&& !old(self).ended()
                    &&& is_malformed(frame@)
                    &&& events_of(final(self).seen()) == events_of(old(self).seen())
                },
                Delivery::Ended => {
                    &&& old(self).ended() || frame@ is Close
                    &&& events_of(final(self).seen()) == events_of(old(self).seen())
                },
            },
    {
        proof {
            lemma_events_of_push(self.seen@, frame@);
            let before = self.seen@;
            let after = before.push(frame@);
            assert(has_close(after) == (has_close(before) || frame@ is Close)) by {
                if has_close(before) {
                    let i = choose|i: int| 0 <= i < before.len() && (#[trigger] before[i]) is Close;
                    assert(after[i] is Close);
                }
                if frame@ is Close {
                    assert(after[before.len() as int] is Close);
                }
                if has_close(after) {
                    let i = choose|i: int| 0 <= i < after.len() && (#[trigger] after[i]) is Close;
                    if i < before.len() {
                        assert(before[i] is Close);
                    }
                }
            }
            self.seen@ = after;
        }
        if self.ended {
            return Delivery::Ended;
        }
        let delivery = deliver(frame);
        match &delivery {
            Delivery::Ended => {
                self.ended = true;
            },
            _ => {},
        }
        delivery
    }

    /// Ends the stream: the connection is gone or has failed.
    pub fn end(&mut self)
        requires
            old(self).wf(),
        ensures
            final(self).wf(),
            final(self).ended(),
            final(self).seen() == old(self).seen().push(FrameModel::Close),
            events_of(final(self).seen()) == events_of(old(self).seen()),
    {
        proof {
            lemma_events_of_push(self.seen@, FrameModel::Close);
            let after = self.seen@.push(FrameModel::Close);
            assert(after[self.seen@.len() as int] is Close);
            self.seen@ = after;
        }
        self.ended = true;
    }
}

} // verus!
