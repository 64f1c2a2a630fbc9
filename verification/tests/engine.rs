use rig_extra::audio::{
    turn_boundary, turn_policy, TurnPolicy, AudioFrame, PROTOCOL_SAMPLE_RATE, decode_delta, encode_chunk, from_bytes, join_sample, samples_of_decoded, split_sample, to_bytes,
    AudioError,
};
use rig_extra::connect::{Client, RealtimeModel, OPENAI_WSS_BASE_URL};
use rig_extra::event::{
    InputEvent, InputEventKind, ReceivedEvent, ReceivedEventKind, ReceivedItemEventKind,
    SessionEvent,
};
use rig_extra::handoff::{flood, Handoff};
use rig_extra::inbound::{decode_frames, deliver, Delivery, Frame, InboundStream};
use rig_extra::jitter::{pull_or_silence, JitterBuffer, SILENCE};
use rig_extra::pump::{OutboundQueue, PumpState, PumpStep, Refused, TransportError, DEFAULT_CAPACITY};
use rig_extra::routing::{decide, require_store, RouteDecision, RouterRequest, SemanticRoute, SemanticRouterError};
use rig_extra::session::{Modality, Session, TurnDetection};
use rig_extra::state::{NotAllowed, SessionState, Signal};

#[test]
fn jitter_buffer_pads_with_silence() {
    let mut buffer = JitterBuffer::new(16);
    buffer.push(&[1, 2, 3]);
    let mut out = Vec::new();
    for _ in 0..5 {
        out.push(buffer.pull());
    }
    assert_eq!(out, vec![1, 2, 3, 0, 0]);
    assert!(buffer.is_empty());
}

#[test]
fn jitter_buffer_pull_many() {
    let mut buffer = JitterBuffer::new(16);
    buffer.push(&[1, 2, 3]);
    assert_eq!(buffer.pull_many(2), vec![1, 2]);
    assert_eq!(buffer.len(), 1);
    assert_eq!(buffer.pull_many(3), vec![3, 0, 0]);
    assert_eq!(buffer.pull_many(0), Vec::<i16>::new());
}

#[test]
fn jitter_buffer_drops_the_oldest_beyond_its_limit() {
    let mut buffer = JitterBuffer::new(4);
    buffer.push(&[1, 2, 3]);
    buffer.push(&[4, 5, 6]);
    assert_eq!(buffer.len(), 4);
    assert_eq!(buffer.pull_many(4), vec![3, 4, 5, 6]);
    let mut none = JitterBuffer::new(0);
    none.push(&[7, 8]);
    assert_eq!(none.pull(), SILENCE);
    buffer.push(&[9]);
    buffer.clear();
    assert_eq!(buffer.pull(), 0);
}

#[test]
fn jitter_buffer_limit_from_a_duration() {
    let mut buffer = JitterBuffer::for_duration(4, 1, 2);
    buffer.push(&[1, 2, 3, 4, 5, 6, 7, 8, 9, 10]);
    assert_eq!(buffer.len(), 8);
    assert_eq!(buffer.pull(), 3);
}

#[test]
fn a_busy_buffer_gives_silence() {
    let mut buffer = JitterBuffer::new(4);
    buffer.push(&[5]);
    assert_eq!(pull_or_silence(None), 0);
    assert_eq!(pull_or_silence(Some(&mut buffer)), 5);
    assert_eq!(pull_or_silence(Some(&mut buffer)), 0);
}

#[test]
fn samples_are_little_endian() {
    assert_eq!(to_bytes(&[1, -2, 256, i16::MIN, i16::MAX]), vec![1, 0, 0xfe, 0xff, 0, 1, 0, 0x80, 0xff, 0x7f]);
    assert_eq!(from_bytes(&[1, 0, 0xfe, 0xff]), Some(vec![1, -2]));
    assert_eq!(from_bytes(&[1, 0, 0xfe]), None);
    assert_eq!(from_bytes(&[]), Some(vec![]));
    assert_eq!(split_sample(-1), (0xff, 0xff));
    assert_eq!(split_sample(0x1234), (0x34, 0x12));
    assert_eq!(join_sample(0x34, 0x12), 0x1234);
    assert_eq!(join_sample(0x00, 0x80), i16::MIN);
}

#[test]
fn every_sample_survives_its_bytes() {
    let mut sample = i16::MIN;
    loop {
        let (low, high) = split_sample(sample);
        assert_eq!(join_sample(low, high), sample);
        assert_eq!([low, high], sample.to_le_bytes());
        if sample == i16::MAX {
            break;
        }
        sample += 1;
    }
}

#[test]
fn chunks_are_base64_of_the_bytes() {
    let event = encode_chunk(&[1, -2]);
    assert_eq!(event.kind(), &InputEventKind::AppendAudioInput { audio: "AQD+/w==".to_string() });
    assert_eq!(encode_chunk(&[]).kind(), &InputEventKind::AppendAudioInput { audio: String::new() });
}

#[test]
fn deltas_decode_to_samples() {
    assert_eq!(decode_delta("AQD+/w=="), Ok(vec![1, -2]));
    assert_eq!(decode_delta(""), Ok(vec![]));
    assert_eq!(decode_delta("AQD+"), Err(AudioError::OddLength));
    assert_eq!(decode_delta("not base64!"), Err(AudioError::NotBase64));
    assert_eq!(samples_of_decoded(None), Err(AudioError::NotBase64));
    assert_eq!(samples_of_decoded(Some(vec![0, 1])), Ok(vec![256]));
    assert_eq!(samples_of_decoded(Some(vec![0])), Err(AudioError::OddLength));
}

#[test]
fn queue_sends_in_the_order_of_arrival() {
    let mut queue = OutboundQueue::new(8);
    let events = vec![
        InputEvent::update_session(Session::new().voice("sage")),
        InputEvent::append_audio("AAAA"),
        InputEvent::append_audio("BBBB"),
        InputEvent::commit_audio(),
    ];
    for event in events.iter() {
        assert!(queue.enqueue(event.clone()).is_ok());
    }
    assert_eq!(queue.len(), 4);
    let mut wire = Vec::new();
    loop {
        match queue.step() {
            PumpStep::Send(frame) => wire.push(frame),
            PumpStep::Idle => break,
            other => panic!("unexpected step: {other:?}"),
        }
    }
    let expected: Vec<String> = events.iter().map(|e| e.encode()).collect();
    assert_eq!(wire, expected);
    assert_eq!(wire[0], r#"{"type":"session.update","session":{"voice":"sage"}}"#);
}

#[test]
fn queue_interleaves_intake_and_sending() {
    let mut queue = OutboundQueue::new(2);
    assert!(queue.enqueue(InputEvent::append_audio("a")).is_ok());
    assert_eq!(queue.step(), PumpStep::Send(InputEvent::append_audio("a").encode()));
    assert!(queue.enqueue(InputEvent::append_audio("b")).is_ok());
    assert!(queue.enqueue(InputEvent::append_audio("c")).is_ok());
    assert_eq!(
        queue.drain(),
        vec![InputEvent::append_audio("b").encode(), InputEvent::append_audio("c").encode()]
    );
    assert_eq!(queue.step(), PumpStep::Idle);
}

#[test]
fn a_full_queue_gives_the_event_back() {
    let mut queue = OutboundQueue::new(1);
    assert!(queue.enqueue(InputEvent::commit_audio()).is_ok());
    assert_eq!(queue.enqueue(InputEvent::clear_audio()), Err(Refused::Full(InputEvent::clear_audio())));
    assert_eq!(queue.len(), 1);
    assert_eq!(queue.step(), PumpStep::Send(InputEvent::commit_audio().encode()));
    assert!(queue.enqueue(InputEvent::clear_audio()).is_ok());
    assert_eq!(DEFAULT_CAPACITY, 9999);
}

#[test]
fn a_closed_queue_drains_and_finishes() {
    let mut queue = OutboundQueue::new(4);
    assert!(queue.enqueue(InputEvent::commit_audio()).is_ok());
    queue.close();
    assert_eq!(queue.current_state(), PumpState::Closed);
    assert_eq!(queue.enqueue(InputEvent::clear_audio()), Err(Refused::Ended(InputEvent::clear_audio())));
    assert_eq!(queue.step(), PumpStep::Send(InputEvent::commit_audio().encode()));
    assert_eq!(queue.step(), PumpStep::Finished);
    assert_eq!(queue.step(), PumpStep::Finished);
}

#[test]
fn a_failed_queue_sends_nothing() {
    let mut queue = OutboundQueue::new(4);
    assert!(queue.enqueue(InputEvent::commit_audio()).is_ok());
    assert_eq!(queue.fail(), TransportError);
    assert_eq!(queue.current_state(), PumpState::Failed);
    assert_eq!(queue.step(), PumpStep::Failed(TransportError));
    assert_eq!(queue.drain(), Vec::<String>::new());
    assert_eq!(queue.len(), 1);
    queue.close();
    assert_eq!(queue.current_state(), PumpState::Failed);
}

fn text(frame: &str) -> Frame {
    Frame::Text(frame.to_string())
}

const CREATED: &str = r#"{"type":"session.created","session":{}}"#;
const DELTA: &str = r#"{"type":"response.audio.delta","item_id":"i","response_id":"r","output_index":0,"content_index":0,"delta":"AQD+/w=="}"#;
const DONE: &str = r#"{"type":"response.audio.done","item_id":"i","response_id":"r","output_index":0,"content_index":0}"#;

#[test]
fn malformed_frames_are_invisible() {
    let mixed = vec![
        text("garbage"),
        text(CREATED),
        Frame::Binary(vec![1, 2, 3]),
        text(r#"{"type":"rate_limits.updated","rate_limits":[]}"#),
        Frame::Ping(vec![]),
        text(DELTA),
        Frame::Pong(vec![]),
        text("{"),
        text(DONE),
    ];
    let valid = vec![text(CREATED), text(DELTA), text(DONE)];
    let events = decode_frames(&mixed);
    assert_eq!(events.len(), 3);
    assert_eq!(events, decode_frames(&valid));
    assert_eq!(events[0].tag(), "session.created");
    assert_eq!(events[1].tag(), "response.audio.delta");
    assert_eq!(events[2].tag(), "response.audio.done");
}

#[test]
fn a_close_frame_ends_the_stream() {
    let frames = vec![text(CREATED), Frame::Close, text(DONE)];
    assert_eq!(decode_frames(&frames).len(), 1);
    assert_eq!(decode_frames(&vec![]), vec![]);
    assert_eq!(deliver(&Frame::Close), Delivery::Ended);
    assert_eq!(deliver(&Frame::Binary(vec![0])), Delivery::Skipped);
    assert_eq!(deliver(&text("nope")), Delivery::Skipped);
    assert_eq!(deliver(&text(DONE)), Delivery::Event(ReceivedEvent::decode(DONE).unwrap()));
}

#[test]
fn handoff_drops_the_newest_under_overload() {
    let mut handoff: Handoff<Vec<i16>> = Handoff::new(2);
    assert!(handoff.offer(vec![1]));
    assert!(handoff.offer(vec![2]));
    assert!(!handoff.offer(vec![3]));
    assert!(!handoff.offer(vec![4]));
    assert_eq!(handoff.len(), 2);
    assert_eq!(handoff.dropped_count(), 2);
    assert_eq!(handoff.take(), Some(vec![1]));
    assert!(handoff.offer(vec![5]));
    assert_eq!(handoff.take(), Some(vec![2]));
    assert_eq!(handoff.take(), Some(vec![5]));
    assert_eq!(handoff.take(), None);
    assert_eq!(handoff.dropped_count(), 2);
}

#[test]
fn a_flood_never_grows_the_handoff() {
    let mut handoff: Handoff<u32> = Handoff::new(3);
    assert!(handoff.offer(0));
    let lost = flood(&mut handoff, (1..=1000).collect());
    assert_eq!(lost, 998);
    assert_eq!(handoff.len(), 3);
    assert_eq!(handoff.dropped_count(), 998);
    assert_eq!(handoff.take(), Some(0));
    assert_eq!(handoff.take(), Some(1));
    assert_eq!(handoff.take(), Some(2));
    assert_eq!(handoff.take(), None);
    let mut roomy: Handoff<u32> = Handoff::new(8);
    assert_eq!(flood(&mut roomy, vec![1, 2]), 0);
    assert_eq!(roomy.len(), 2);
    let mut none: Handoff<u32> = Handoff::new(0);
    assert_eq!(flood(&mut none, vec![1, 2]), 2);
}

#[test]
fn session_state_follows_the_protocol() {
    let created = ReceivedEvent::decode(CREATED).unwrap();
    let updated = ReceivedEvent::decode(r#"{"type":"session.updated","session":{"voice":"sage"}}"#).unwrap();
    let delta = ReceivedEvent::decode(DELTA).unwrap();
    let update = InputEvent::update_session(Session::new().voice("sage"));
    let append = InputEvent::append_audio("AAAA");

    let mut state = SessionState::new();
    assert_eq!(state, SessionState::Connecting);
    assert!(!state.may_send());
    assert_eq!(state.on_send(&append), Err(NotAllowed::NotOpen));
    assert_eq!(state.on_received(&updated), SessionState::Connecting);
    state = state.on_received(&created);
    assert_eq!(state, SessionState::Open);
    assert!(state.may_send());
    state = state.on_send(&update).unwrap();
    assert_eq!(state, SessionState::Updating);
    assert_eq!(state.on_send(&append), Err(NotAllowed::UpdatePending));
    assert_eq!(state.on_send(&update), Err(NotAllowed::UpdatePending));
    assert_eq!(state.on_received(&delta), SessionState::Updating);
    state = state.on_received(&updated);
    assert_eq!(state, SessionState::Streaming);
    assert_eq!(state.on_send(&append), Ok(SessionState::Streaming));
    assert_eq!(state.on_send(&InputEvent::commit_audio()), Ok(SessionState::Streaming));
    assert_eq!(state.on_send(&update), Ok(SessionState::Updating));
    assert_eq!(SessionState::Open.on_send(&InputEvent::clear_audio()), Ok(SessionState::Streaming));
    state = state.on_signal(Signal::SenderClosed);
    assert_eq!(state, SessionState::Closing);
    assert_eq!(state.on_send(&append), Err(NotAllowed::Ended));
    state = state.on_signal(Signal::Closed);
    assert!(state.is_closed());
    assert_eq!(state.on_signal(Signal::SenderClosed), SessionState::Closed);
    assert_eq!(state.on_received(&created), SessionState::Closed);
    assert_eq!(state.on_send(&append), Err(NotAllowed::Ended));
    assert_eq!(SessionState::Updating.on_signal(Signal::TransportError), SessionState::Closed);
}

#[test]
fn a_whole_session() {
    let model = Client::new("SECRET-REDACTED").realtime_client("gpt-4o-realtime-preview-2025-06-03");
    assert_eq!(
        model.request().url,
        "wss://api.openai.com/v1/realtime?model=gpt-4o-realtime-preview-2025-06-03"
    );
    let mut state = SessionState::new();
    let mut queue = OutboundQueue::new(DEFAULT_CAPACITY);
    let mut playback = JitterBuffer::new(24_000);

    state = state.on_received(&ReceivedEvent::decode(CREATED).unwrap());
    let update = InputEvent::update_session(Session::new().voice("sage").modalities(vec![Modality::Audio]));
    state = state.on_send(&update).unwrap();
    queue.enqueue(update).unwrap();
    assert_eq!(
        queue.step(),
        PumpStep::Send(r#"{"type":"session.update","session":{"modalities":["audio"],"voice":"sage"}}"#.to_string())
    );

    let confirmed = ReceivedEvent::decode(r#"{"type":"session.updated","session":{"modalities":["audio"],"voice":"sage"}}"#).unwrap();
    match &confirmed.data {
        ReceivedEventKind::Session(SessionEvent::SessionUpdated { session }) => {
            assert_eq!(session.voice.as_deref(), Some("sage"));
        }
        other => panic!("unexpected event: {other:?}"),
    }
    state = state.on_received(&confirmed);
    assert_eq!(state, SessionState::Streaming);

    let silence = encode_chunk(&[0; 100]);
    state = state.on_send(&silence).unwrap();
    queue.enqueue(silence).unwrap();
    let commit = InputEvent::commit_audio();
    state = state.on_send(&commit).unwrap();
    queue.enqueue(commit).unwrap();
    let sent = queue.drain();
    assert_eq!(sent.len(), 2);
    assert!(sent[0].starts_with(r#"{"type":"input_audio_buffer.append","audio":"AAAA"#));
    assert_eq!(sent[1], r#"{"type":"input_audio_buffer.commit"}"#);

    let answer = decode_frames(&vec![text(DELTA), text("{\"type\":\"response.created\"}"), text(DELTA), text(DONE), Frame::Close]);
    let mut deltas = 0;
    let mut dones = 0;
    for event in answer.iter() {
        state = state.on_received(event);
        match &event.data {
            ReceivedEventKind::Item { data: ReceivedItemEventKind::AudioDelta { delta }, .. } => {
                assert_eq!(dones, 0);
                deltas += 1;
                playback.push(&decode_delta(delta).unwrap());
            }
            ReceivedEventKind::Item { data: ReceivedItemEventKind::AudioDone, .. } => dones += 1,
            other => panic!("unexpected event: {other:?}"),
        }
    }
    assert_eq!((deltas, dones), (2, 1));
    assert_eq!(playback.pull_many(5), vec![1, -2, 1, -2, 0]);
    assert_eq!(state.on_signal(Signal::Closed), SessionState::Closed);
}

#[test]
fn connect_requests() {
    let client = Client::from_url("key", "wss://example.test/v2");
    let request = client.request("/realtime?model=m");
    assert_eq!(request.url, "wss://example.test/v2/realtime?model=m");
    assert_eq!(request.bearer, "key");
    assert_eq!(request.header_name, "OpenAI-Beta");
    assert_eq!(request.header_value, "realtime=v1");
    let model = RealtimeModel::new(client.clone(), "m");
    assert_eq!(model.path(), "/realtime?model=m");
    assert_eq!(model.request(), request);
    assert_eq!(client.realtime_client("m"), model);
    assert_eq!(Client::new("key"), Client::from_url("key", OPENAI_WSS_BASE_URL));
}

#[test]
fn router_requests() {
    let request = RouterRequest::new("where to?".to_string());
    assert_eq!(request.query(), "where to?");
    assert_eq!(request.turns(), 0);
    assert!(!request.is_multi_turn());
    let request = request.with_turns(3);
    assert_eq!(request.turns(), 3);
    assert!(request.is_multi_turn());
    assert_eq!(request, RouterRequest::from_parts("where to?", 3));
    assert_eq!(RouterRequest::from("where to?"), RouterRequest::new("where to?".to_string()));
    assert_eq!(RouterRequest::from("where to?".to_string()).turns(), 0);
    assert_eq!(RouterRequest::from(("where to?", 3)), request);
    assert_eq!(RouterRequest::from(("where to?".to_string(), 3)), request);
    assert_eq!(SemanticRoute { tag: "billing".to_string() }.tag, "billing");
    assert_eq!(SemanticRouterError::StoreNotFound.message(), "Vector store not found");
    assert_eq!(require_store(Some(7)), Ok(7));
    assert_eq!(require_store::<u8>(None), Err(SemanticRouterError::StoreNotFound));
}

#[test]
fn router_decisions() {
    let route = SemanticRoute { tag: "billing".to_string() };
    let once = RouterRequest::new("help".to_string());
    let many = RouterRequest::from_parts("help", 4);
    assert_eq!(decide(&once, None, false), RouteDecision::NoRoute);
    assert_eq!(decide(&once, Some(&route), true), RouteDecision::NoRoute);
    assert_eq!(decide(&once, Some(&route), false), RouteDecision::Prompt { tag: "billing".to_string() });
    assert_eq!(decide(&many, Some(&route), false), RouteDecision::MultiTurn { tag: "billing".to_string(), turns: 4 });
    assert_eq!(decide(&many, Some(&route), true), RouteDecision::NoRoute);
}

#[test]
fn audio_frames() {
    let frame = AudioFrame::from_delta("AQD+/w==").unwrap();
    assert_eq!(frame, AudioFrame::mono(vec![1, -2]));
    assert_eq!(frame.sample_rate, 24_000);
    assert_eq!(PROTOCOL_SAMPLE_RATE, 24_000);
    assert_eq!(frame.moments(), 2);
    assert_eq!(frame.to_event(), encode_chunk(&[1, -2]));
    assert_eq!(AudioFrame::from_delta("AQD+"), Err(AudioError::OddLength));
    assert_eq!(AudioFrame::from_delta("?"), Err(AudioError::NotBase64));
    let stereo = AudioFrame { samples: vec![1, 2, 3, 4, 5], channels: 2, sample_rate: 48_000 };
    assert_eq!(stereo.moments(), 2);
    assert_eq!(AudioFrame { samples: vec![1], channels: 0, sample_rate: 1 }.moments(), 0);
}

#[test]
fn an_inbound_stream_ends_once() {
    let mut stream = InboundStream::new();
    assert!(!stream.is_ended());
    assert_eq!(stream.accept(&text("junk")), Delivery::Skipped);
    assert_eq!(stream.accept(&text(DONE)), Delivery::Event(ReceivedEvent::decode(DONE).unwrap()));
    assert_eq!(stream.accept(&Frame::Ping(vec![1])), Delivery::Skipped);
    assert!(!stream.is_ended());
    assert_eq!(stream.accept(&Frame::Close), Delivery::Ended);
    assert!(stream.is_ended());
    assert_eq!(stream.accept(&text(DONE)), Delivery::Ended);
    assert_eq!(stream.accept(&Frame::Close), Delivery::Ended);
    let mut failed = InboundStream::new();
    failed.end();
    assert!(failed.is_ended());
    assert_eq!(failed.accept(&text(CREATED)), Delivery::Ended);
}

#[test]
fn turns_are_committed_by_hand_or_not_at_all() {
    let manual = turn_policy(&Session::new().voice("sage"));
    let detected = turn_policy(&Session::new().turn_detection(TurnDetection::with_openai_defaults()));
    assert_eq!(manual, TurnPolicy::Manual);
    assert_eq!(detected, TurnPolicy::ServerDetected);
    assert_eq!(turn_boundary(manual, true), Some(InputEvent::commit_audio()));
    assert_eq!(turn_boundary(manual, false), None);
    assert_eq!(turn_boundary(detected, true), None);
    assert_eq!(turn_boundary(detected, false), None);
}
