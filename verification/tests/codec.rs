use rig_extra::event::{
    DecodeError, InputEvent, InputEventKind, ReceivedEvent, ReceivedEventKind, ReceivedItemEventKind,
    RealtimeVoiceRequest, SessionEvent, GPT_4O_REALTIME_PREVIEW_20250603,
};
use rig_extra::json::Number;
use rig_extra::session::{
    AudioFormat, InputAudioTranscription, Modality, Session, ToolDefinition, TurnDetection,
    TurnDetectionKind,
};

fn parse(text: &str) -> serde_json::Value {
    serde_json::from_str(text).unwrap()
}

#[test]
fn commit_event_is_a_bare_type() {
    assert_eq!(InputEvent::commit_audio().encode(), r#"{"type":"input_audio_buffer.commit"}"#);
}

#[test]
fn clear_event_is_a_bare_type() {
    assert_eq!(InputEvent::clear_audio().encode(), r#"{"type":"input_audio_buffer.clear"}"#);
}

#[test]
fn append_event_carries_the_audio() {
    assert_eq!(
        InputEvent::append_audio("AAAA").encode(),
        r#"{"type":"input_audio_buffer.append","audio":"AAAA"}"#
    );
}

#[test]
fn correlation_identifier_comes_first() {
    assert_eq!(
        InputEvent::commit_audio().with_id("evt_1").encode(),
        r#"{"event_id":"evt_1","type":"input_audio_buffer.commit"}"#
    );
    assert_eq!(InputEvent::commit_audio().with_id("evt_1").event_id(), Some("evt_1"));
    assert_eq!(InputEvent::commit_audio().event_id(), None);
}

#[test]
fn update_event_leaves_unset_fields_out() {
    let session = Session::new().voice("sage").input_audio_format(AudioFormat::Pcm16);
    assert_eq!(
        InputEvent::update_session(session).encode(),
        r#"{"type":"session.update","session":{"voice":"sage","input_audio_format":"pcm16"}}"#
    );
}

#[test]
fn empty_session_is_an_empty_object() {
    assert_eq!(Session::new().to_value().to_string(), "{}");
    assert_eq!(Session::default(), Session::new());
}

#[test]
fn session_fields_are_written_in_order() {
    let session = Session::new()
        .speed(Number::parse("1.25").unwrap())
        .temperature(Number::parse("0.8").unwrap())
        .tools(vec![ToolDefinition::function("lookup", "Looks things up", parse(r#"{"type":"object"}"#))])
        .input_audio_transcription(InputAudioTranscription::default())
        .output_audio_format(AudioFormat::Pcm16)
        .input_audio_format(AudioFormat::Pcm16)
        .turn_detection(TurnDetection::empty())
        .voice("sage")
        .instructions("Be brief.")
        .modalities(vec![Modality::Text, Modality::Audio]);
    let expected = concat_all(&[
        r#"{"modalities":["text","audio"],"instructions":"Be brief.","voice":"sage","#,
        r#""turn_detection":{"type":"server_vad"},"#,
        r#""input_audio_format":"pcm16","output_audio_format":"pcm16","#,
        r#""input_audio_transcription":{"model":"whisper-1"},"#,
        r#""tools":[{"type":"function","function":{"name":"lookup","description":"Looks things up","parameters":{"type":"object"}}}],"#,
        r#""temperature":0.8,"speed":1.25}"#,
    ]);
    assert_eq!(session.to_value().to_string(), expected);
}

fn concat_all(parts: &[&str]) -> String {
    let mut out = String::new();
    for part in parts {
        out.push_str(part);
    }
    out
}

#[test]
fn turn_detection_defaults() {
    let value = TurnDetection::with_openai_defaults().to_value();
    assert_eq!(
        value.to_string(),
        r#"{"type":"server_vad","threshold":0.5,"prefix_padding_ms":300,"silence_duration_ms":500,"create_response":true}"#
    );
}

#[test]
fn turn_detection_builders_set_one_field_each() {
    let value = TurnDetection::empty()
        .threshold(Number::parse("0.3").unwrap())
        .prefix_padding_ms(250)
        .silence_duration_ms(700)
        .create_response(false)
        .to_value();
    assert_eq!(
        value.to_string(),
        r#"{"type":"server_vad","threshold":0.3,"prefix_padding_ms":250,"silence_duration_ms":700,"create_response":false}"#
    );
}

#[test]
fn turn_detection_reads_null_and_missing_as_unset() {
    let read = TurnDetection::from_value(&parse(r#"{"type":"server_vad","threshold":null}"#)).unwrap();
    assert_eq!(read, TurnDetection::empty());
    assert_eq!(TurnDetection::from_value(&parse(r#"{"type":"semantic"}"#)), None);
    assert_eq!(TurnDetection::from_value(&parse(r#"{"prefix_padding_ms":-1}"#)), None);
    assert_eq!(TurnDetection::from_value(&parse(r#"{"prefix_padding_ms":1.5}"#)), None);
    assert_eq!(TurnDetection::from_value(&parse(r#"[]"#)), None);
}

#[test]
fn wire_names() {
    assert_eq!(Modality::Text.name(), "text");
    assert_eq!(Modality::Audio.name(), "audio");
    assert_eq!(Modality::from_name("audio"), Some(Modality::Audio));
    assert_eq!(Modality::from_name("video"), None);
    assert_eq!(AudioFormat::Pcm16.name(), "pcm16");
    assert_eq!(AudioFormat::from_name("pcm16"), Some(AudioFormat::Pcm16));
    assert_eq!(AudioFormat::from_name("g711_ulaw"), None);
    assert_eq!(TurnDetectionKind::default().name(), "server_vad");
    assert_eq!(TurnDetectionKind::from_name("server_vad"), Some(TurnDetectionKind::ServerVad));
    assert_eq!(TurnDetectionKind::from_name(""), None);
    assert_eq!(InputAudioTranscription::default().model(), "whisper-1");
    assert_eq!(InputAudioTranscription::new("scribe").model(), "scribe");
    assert_eq!(GPT_4O_REALTIME_PREVIEW_20250603, "gpt-4o-realtime-preview-2025-06-03");
}

#[test]
fn numbers_are_carried_as_written() {
    assert_eq!(Number::parse("0.5").unwrap().to_text(), "0.5");
    assert_eq!(Number::parse("-3").unwrap().to_text(), "-3");
    assert_eq!(Number::from_unsigned(42).to_text(), "42");
    assert_eq!(Number::from_unsigned(42), Number::parse("42").unwrap());
    assert!(Number::parse("\"0.5\"").is_none());
    assert!(Number::parse("half").is_none());
    assert!(Number::from_value(parse("true")).is_none());
    assert_eq!(Number::from_value(parse("7")).unwrap().to_value(), parse("7"));
    assert_eq!(Number::parse("2.5").unwrap().clone().to_text(), "2.5");
}

#[test]
fn session_round_trip_with_voice_and_input_format() {
    let session = Session::new().voice("sage").input_audio_format(AudioFormat::Pcm16);
    let frame = session.to_value().to_string();
    let back = Session::from_value(&parse(&frame)).unwrap();
    assert_eq!(back.voice.as_deref(), Some("sage"));
    assert_eq!(back.input_audio_format, Some(AudioFormat::Pcm16));
    assert!(back.modalities.is_none());
    assert!(back.instructions.is_none());
    assert!(back.turn_detection.is_none());
    assert!(back.output_audio_format.is_none());
    assert!(back.input_audio_transcription.is_none());
    assert!(back.tools.is_none());
    assert!(back.temperature.is_none());
    assert!(back.speed.is_none());
    assert_eq!(back, session);
}

#[test]
fn full_session_round_trip() {
    let session = Session::new()
        .modalities(vec![Modality::Audio])
        .instructions("Speak slowly.")
        .voice("alloy")
        .turn_detection(TurnDetection::with_openai_defaults())
        .input_audio_format(AudioFormat::Pcm16)
        .output_audio_format(AudioFormat::Pcm16)
        .input_audio_transcription(InputAudioTranscription::new("whisper-1"))
        .tools(vec![ToolDefinition::function("f", "d", parse(r#"{"a":[1,2,{"b":null}]}"#))])
        .temperature(Number::parse("0.7").unwrap())
        .speed(Number::from_unsigned(1));
    let back = Session::from_value(&parse(&session.to_value().to_string())).unwrap();
    assert_eq!(back, session);
}

#[test]
fn session_reading_passes_over_unknown_members() {
    let read = Session::from_value(&parse(r#"{"voice":"sage","id":"sess_1","object":"realtime.session"}"#)).unwrap();
    assert_eq!(read, Session::new().voice("sage"));
}

#[test]
fn session_reading_fails_on_a_wrong_shape() {
    assert_eq!(Session::from_value(&parse(r#"{"voice":7}"#)), None);
    assert_eq!(Session::from_value(&parse(r#"{"modalities":["text","video"]}"#)), None);
    assert_eq!(Session::from_value(&parse(r#"{"modalities":"text"}"#)), None);
    assert_eq!(Session::from_value(&parse(r#"{"input_audio_format":"mp3"}"#)), None);
    assert_eq!(Session::from_value(&parse(r#"{"temperature":"hot"}"#)), None);
    assert_eq!(Session::from_value(&parse(r#"{"tools":[{"type":"function"}]}"#)), None);
    assert_eq!(Session::from_value(&parse(r#"{"input_audio_transcription":{}}"#)), None);
    assert_eq!(Session::from_value(&parse(r#""voice""#)), None);
    assert_eq!(Session::from_value(&parse(r#"{"voice":null}"#)), Some(Session::new()));
}

#[test]
fn decodes_session_created() {
    let event = ReceivedEvent::decode(r#"{"event_id":"e1","type":"session.created","session":{"voice":"sage"}}"#).unwrap();
    assert_eq!(event.event_id(), Some("e1"));
    match event.data {
        ReceivedEventKind::Session(SessionEvent::SessionCreated { session }) => {
            assert_eq!(session, Session::new().voice("sage"));
        }
        other => panic!("unexpected event: {other:?}"),
    }
}

#[test]
fn decodes_audio_delta_and_done() {
    let delta = ReceivedEvent::decode(
        r#"{"type":"response.audio.delta","item_id":"i","response_id":"r","output_index":0,"content_index":2,"delta":"AQA="}"#,
    )
    .unwrap();
    assert_eq!(
        delta.data,
        ReceivedEventKind::Item {
            item_id: "i".to_string(),
            response_id: "r".to_string(),
            output_index: 0,
            content_index: 2,
            data: ReceivedItemEventKind::AudioDelta { delta: "AQA=".to_string() },
        }
    );
    let done = ReceivedEvent::decode(
        r#"{"type":"response.audio.done","item_id":"i","response_id":"r","output_index":0,"content_index":2}"#,
    )
    .unwrap();
    assert_eq!(done.tag(), "response.audio.done");
    assert_eq!(done.event_id(), None);
}

#[test]
fn frames_of_no_known_shape_give_nothing() {
    assert!(ReceivedEvent::decode("not json").is_none());
    assert!(ReceivedEvent::decode("[]").is_none());
    assert!(ReceivedEvent::decode(r#"{"type":"response.text.delta","delta":"hi"}"#).is_none());
    assert!(ReceivedEvent::decode(r#"{"type":"session.created"}"#).is_none());
    assert!(ReceivedEvent::decode(r#"{"type":"session.created","session":null}"#).is_none());
    assert!(ReceivedEvent::decode(r#"{"type":"response.audio.delta","item_id":"i","response_id":"r","output_index":0,"content_index":0}"#).is_none());
    assert!(ReceivedEvent::decode(r#"{"type":"response.audio.done","item_id":"i","response_id":"r","output_index":-1,"content_index":0}"#).is_none());
    assert!(ReceivedEvent::decode(r#"{"event_id":3,"type":"session.updated","session":{}}"#).is_none());
}

#[test]
fn decoding_twice_is_decoding_once() {
    let frame = r#"{"event_id":"e9","type":"session.updated","session":{"voice":"sage","modalities":["audio"],"temperature":0.8,"turn_detection":{"type":"server_vad","threshold":0.5,"prefix_padding_ms":300,"silence_duration_ms":500,"create_response":true}}}"#;
    let first = ReceivedEvent::decode(frame).unwrap();
    let second = ReceivedEvent::decode(&first.encode()).unwrap();
    assert_eq!(first, second);
    assert_eq!(first.tag(), "session.updated");
}

#[test]
fn received_item_event_round_trip() {
    let event = ReceivedEvent::new(ReceivedEventKind::Item {
        item_id: "item_7".to_string(),
        response_id: "resp_3".to_string(),
        output_index: 1,
        content_index: 0,
        data: ReceivedItemEventKind::AudioDelta { delta: "AAAA".to_string() },
    })
    .with_id("evt_5");
    assert_eq!(
        event.encode(),
        r#"{"event_id":"evt_5","item_id":"item_7","response_id":"resp_3","output_index":1,"content_index":0,"type":"response.audio.delta","delta":"AAAA"}"#
    );
    assert_eq!(ReceivedEvent::decode(&event.encode()).unwrap(), event);
    assert_eq!(event.kind(), &event.data);
}

#[test]
fn request_with_a_session_starts_with_an_update() {
    let session = Session::new().voice("sage");
    let first = RealtimeVoiceRequest::with_session(session.clone()).into_first_event().unwrap();
    assert_eq!(first.kind(), &InputEventKind::UpdateSession { session: session.clone() });
    assert_eq!(first.tag(), "session.update");
    assert_eq!(RealtimeVoiceRequest::new().into_first_event(), None);
    assert_eq!(
        RealtimeVoiceRequest::new().session_data(session.clone()),
        RealtimeVoiceRequest::with_session(session)
    );
    assert_eq!(InputEvent::new(InputEventKind::CommitAudioInputBuffer), InputEvent::commit_audio());
}

#[test]
fn tool_definition_reads_back() {
    let tool = ToolDefinition::function("add", "Adds", parse(r#"{"x":1}"#));
    assert_eq!(ToolDefinition::from_value(&tool.to_value()), Some(tool.clone()));
    let strict = ToolDefinition { strict: Some(true), ..tool };
    assert_eq!(
        strict.to_value().to_string(),
        r#"{"type":"function","function":{"name":"add","description":"Adds","parameters":{"x":1},"strict":true}}"#
    );
    assert_eq!(ToolDefinition::from_value(&strict.to_value()), Some(strict));
    assert_eq!(
        ToolDefinition::from_value(&parse(r#"{"type":"function","function":{"name":"n","description":"d","parameters":null,"strict":"yes"}}"#)),
        None
    );
    assert_eq!(ToolDefinition::from_value(&parse(r#"{"type":"function","function":{"name":"n","description":"d"}}"#)), None);
}

#[test]
fn decode_errors_say_why() {
    assert_eq!(ReceivedEvent::try_decode("{"), Err(DecodeError::NotJson));
    assert_eq!(ReceivedEvent::try_decode(""), Err(DecodeError::NotJson));
    assert_eq!(ReceivedEvent::try_decode("{}"), Err(DecodeError::UnknownShape));
    assert_eq!(ReceivedEvent::try_decode("null"), Err(DecodeError::UnknownShape));
    assert_eq!(
        ReceivedEvent::try_decode(r#"{"type":"session.created","session":{}}"#),
        Ok(ReceivedEvent::new(ReceivedEventKind::Session(SessionEvent::SessionCreated { session: Session::new() })))
    );
}

#[test]
fn input_events_read_back() {
    let events = vec![
        InputEvent::commit_audio(),
        InputEvent::clear_audio().with_id("evt_2"),
        InputEvent::append_audio("AAAA"),
        InputEvent::update_session(Session::new().voice("sage").turn_detection(TurnDetection::with_openai_defaults())),
    ];
    for event in events {
        assert_eq!(InputEvent::decode(&event.encode()), Some(event.clone()));
        assert_eq!(InputEvent::from_value(&event.to_value()), Some(event));
    }
    assert_eq!(InputEvent::decode(r#"{"type":"input_audio_buffer.append"}"#), None);
    assert_eq!(InputEvent::decode(r#"{"type":"session.update","session":7}"#), None);
    assert_eq!(InputEvent::decode(r#"{"type":"session.updated","session":{}}"#), None);
    assert_eq!(InputEvent::decode(r#"{"event_id":1,"type":"input_audio_buffer.commit"}"#), None);
    assert_eq!(InputEvent::decode(r#"["input_audio_buffer.commit"]"#), None);
    assert_eq!(InputEvent::decode(r#"{"type":"#), None);
}
