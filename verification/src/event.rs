//! The events of the session protocol and their wire form.
//!
//! A caller sends [`InputEvent`]s and receives [`ReceivedEvent`]s. On the wire
//! each event is one JSON object; a `type` member tells the kinds apart. A
//! received object is first read as a session event and, where it is none, as
//! an item event: the outer shape carries no mark of its own.

use crate::json::{
    distinct_fields, field, field_of, lemma_present_reads_back, member, member_of, members_of,
    need_text, need_unsigned, object_value, optional, parse, parsed, present, print, printed, put,
    read_text, same_text, text_of, text_value, unsigned_value, value_of, written, JsonModel,
    NumberModel,
};
use crate::session::{session_json, session_of, lemma_session_round_trip, Session, SessionModel};
use vstd::prelude::*;

verus! {

/// The name of the model that the realtime endpoint serves.
pub const GPT_4O_REALTIME_PREVIEW_20250603: &'static str = "gpt-4o-realtime-preview-2025-06-03";

/// What a caller asks for when opening a realtime voice session.
#[derive(Debug, Clone, PartialEq)]
pub struct RealtimeVoiceRequest {
    session: Option<Session>,
}

impl View for RealtimeVoiceRequest {
    type V = Option<SessionModel>;

    closed spec fn view(&self) -> Option<SessionModel> {
        match self.session {
            Some(s) => Some(s@),
            None => None,
        }
    }
}

impl RealtimeVoiceRequest {
    /// A request that leaves the session as the far end sets it up.
    pub fn new() -> (r: Self)
        ensures
            r@ is None,
    {
        Self { session: None }
    }

    /// Asks for the session to be configured right after it is opened.
    pub fn session_data(self, session: Session) -> (r: Self)
        ensures
            r@ == Some(session@),
    {
        let mut this = self;
        this.session = Some(session);
        this
    }

    /// A request that configures the session right after it is opened.
    pub fn with_session(session: Session) -> (r: Self)
        ensures
            r@ == Some(session@),
    {
        Self { session: Some(session) }
    }

    /// The event to send first: the update that carries the configuration
    /// asked for, or nothing where none was.
    pub fn into_first_event(self) -> (r: Option<InputEvent>)
        ensures
            match self@ {
                Some(session) => r matches Some(e) && e@ == (InputEventModel {
                    event_id: None,
                    data: InputEventKindModel::UpdateSession { session },
                }),
                None => r is None,
            },
    {
        match self.session {
            Some(session) => Some(InputEvent::update_session(session)),
            None => None,
        }
    }
}

/// What the payload of an input event holds.
pub enum InputEventKindModel {
    CommitAudioInputBuffer,
    ClearAudioInputBuffer,
    AppendAudioInput { audio: Seq<char> },
    UpdateSession { session: SessionModel },
}

/// What an input event holds.
pub struct InputEventModel {
    pub event_id: Option<Seq<char>>,
    pub data: InputEventKindModel,
}

/// The payload of an event that a caller sends.
#[derive(Debug, Clone, PartialEq)]
pub enum InputEventKind {
    /// Commits the audio sent so far as one user message. The far end answers
    /// with an error where nothing was appended.
    CommitAudioInputBuffer,
    /// Drops the audio sent so far.
    ClearAudioInputBuffer,
    /// Appends audio: PCM samples, base64-encoded.
    AppendAudioInput { audio: String },
    /// Changes the session. Only the fields that are set change.
    UpdateSession { session: Session },
}

impl View for InputEventKind {
    type V = InputEventKindModel;

    open spec fn view(&self) -> InputEventKindModel {
        match self {
            InputEventKind::CommitAudioInputBuffer => InputEventKindModel::CommitAudioInputBuffer,
            InputEventKind::ClearAudioInputBuffer => InputEventKindModel::ClearAudioInputBuffer,
            InputEventKind::AppendAudioInput { audio } => InputEventKindModel::AppendAudioInput {
                audio: audio@,
            },
            InputEventKind::UpdateSession { session } => InputEventKindModel::UpdateSession {
                session: session@,
            },
        }
    }
}

/// The `type` of an input event on the wire.
pub open spec fn input_tag(data: InputEventKindModel) -> Seq<char> {
    match data {
        InputEventKindModel::CommitAudioInputBuffer => "input_audio_buffer.commit"@,
        InputEventKindModel::ClearAudioInputBuffer => "input_audio_buffer.clear"@,
        InputEventKindModel::AppendAudioInput { .. } => "input_audio_buffer.append"@,
        InputEventKindModel::UpdateSession { .. } => "session.update"@,
    }
}

/// The fields of an input event on the wire, in the order in which they are
/// written: the correlation identifier where one is set, the `type`, and what
/// the kind carries.
pub open spec fn input_event_fields(e: InputEventModel) -> Seq<(Seq<char>, Option<JsonModel>)> {
    seq![
        ("event_id"@, written(e.event_id, |t: Seq<char>| JsonModel::Text(t))),
        ("type"@, Some(JsonModel::Text(input_tag(e.data)))),
        (
            "audio"@,
            match e.data {
                InputEventKindModel::AppendAudioInput { audio } => Some(JsonModel::Text(audio)),
                _ => None,
            },
        ),
        (
            "session"@,
            match e.data {
                InputEventKindModel::UpdateSession { session } => Some(session_json(session)),
                _ => None,
            },
        ),
    ]
}

/// The wire form of an input event.
pub open spec fn input_event_json(e: InputEventModel) -> JsonModel {
    JsonModel::Object(present(input_event_fields(e)))
}

/// The text frame of an input event.
pub open spec fn input_event_text(e: InputEventModel) -> Seq<char> {
    printed(input_event_json(e))
}

/// The keys of an input event differ from one another.
pub proof fn lemma_input_event_keys(e: InputEventModel)
    ensures
        distinct_fields(input_event_fields(e)),
{
    reveal_strlit("event_id");
    reveal_strlit("type");
    reveal_strlit("audio");
    reveal_strlit("session");
    let keys = seq!["event_id"@, "type"@, "audio"@, "session"@];
    assert(keys[0].len() == 8 && keys[1].len() == 4 && keys[2].len() == 5 && keys[3].len() == 7);
    let fields = input_event_fields(e);
    assert forall|i: int, j: int| 0 <= i < j < fields.len() implies (#[trigger] fields[i]).0 != (
    #[trigger] fields[j]).0 by {
        assert(fields[i].0 == keys[i] && fields[j].0 == keys[j]);
    }
}

/// The payload of an input event that a value stands for, by its `type`.
pub open spec fn input_kind_of(json: JsonModel) -> Option<InputEventKindModel> {
    match member_of(json, "type"@) {
        Some(JsonModel::Text(tag)) => if tag == "input_audio_buffer.commit"@ {
            Some(InputEventKindModel::CommitAudioInputBuffer)
        } else if tag == "input_audio_buffer.clear"@ {
            Some(InputEventKindModel::ClearAudioInputBuffer)
        } else if tag == "input_audio_buffer.append"@ {
            match member_of(json, "audio"@) {
                Some(JsonModel::Text(audio)) => Some(InputEventKindModel::AppendAudioInput { audio }),
                _ => None,
            }
        } else if tag == "session.update"@ {
            match member_of(json, "session"@) {
                Some(inner) => match session_of(inner) {
                    Some(session) => Some(InputEventKindModel::UpdateSession { session }),
                    None => None,
                },
                None => None,
            }
        } else {
            None
        },
        _ => None,
    }
}

/// The input event that a value stands for, if it has a known shape.
pub open spec fn input_event_of(json: JsonModel) -> Option<InputEventModel> {
    let event_id = optional(field_of(json, "event_id"@), |j: JsonModel| text_of(j));
    let data = input_kind_of(json);
    if json is Object && event_id is Some && data is Some {
        Some(InputEventModel { event_id: event_id.unwrap(), data: data.unwrap() })
    } else {
        None
    }
}

/// An input event reads back from its wire form as it was.
pub proof fn lemma_input_event_round_trip(e: InputEventModel)
    ensures
        input_event_of(input_event_json(e)) == Some(e),
{
    let fields = input_event_fields(e);
    lemma_input_event_keys(e);
    lemma_present_reads_back(fields);
    assert(fields[0].0 == "event_id"@ && fields[1].0 == "type"@ && fields[2].0 == "audio"@
        && fields[3].0 == "session"@);
    reveal_strlit("input_audio_buffer.commit");
    reveal_strlit("input_audio_buffer.clear");
    reveal_strlit("input_audio_buffer.append");
    reveal_strlit("session.update");
    assert("input_audio_buffer.commit"@.len() == 25 && "input_audio_buffer.clear"@.len() == 24
        && "input_audio_buffer.append"@.len() == 25 && "session.update"@.len() == 14);
    assert("input_audio_buffer.commit"@[19] == 'c' && "input_audio_buffer.append"@[19] == 'a');
    match e.data {
        InputEventKindModel::UpdateSession { session } => {
            lemma_session_round_trip(session);
        },
        _ => {},
    }
}

/// An event that a caller sends, with the correlation identifier that it may
/// carry.
#[derive(Debug, Clone, PartialEq)]
pub struct InputEvent {
    event_id: Option<String>,
    data: InputEventKind,
}

impl View for InputEvent {
    type V = InputEventModel;

    closed spec fn view(&self) -> InputEventModel {
        InputEventModel {
            event_id: match self.event_id {
                Some(id) => Some(id@),
                None => None,
            },
            data: self.data@,
        }
    }
}

impl InputEvent {
    /// The event with this payload and no correlation identifier.
    pub fn new(data: InputEventKind) -> (r: Self)
        ensures
            r@ == (InputEventModel { event_id: None, data: data@ }),
    {
        Self { event_id: None, data }
    }

    /// The event that commits the audio sent so far.
    pub fn commit_audio() -> (r: Self)
        ensures
            r@ == (InputEventModel {
                event_id: None,
                data: InputEventKindModel::CommitAudioInputBuffer,
            }),
    {
        Self::new(InputEventKind::CommitAudioInputBuffer)
    }

    /// The event that drops the audio sent so far.
    pub fn clear_audio() -> (r: Self)
        ensures
            r@ == (InputEventModel {
                event_id: None,
                data: InputEventKindModel::ClearAudioInputBuffer,
            }),
    {
        Self::new(InputEventKind::ClearAudioInputBuffer)
    }

    /// The event that appends base64-encoded audio.
    pub fn append_audio(input: &str) -> (r: Self)
        ensures
            r@ == (InputEventModel {
                event_id: None,
                data: InputEventKindModel::AppendAudioInput { audio: input@ },
            }),
    {
        Self::new(InputEventKind::AppendAudioInput { audio: input.to_owned() })
    }

    /// The same event under a correlation identifier.
    pub fn with_id(self, id: &str) -> (r: Self)
        ensures
            r@ == (InputEventModel { event_id: Some(id@), data: self@.data }),
    {
        let mut this = self;
        this.event_id = Some(id.to_owned());
        this
    }

    /// The event that changes the session.
    pub fn update_session(session: Session) -> (r: Self)
        ensures
            r@ == (InputEventModel {
                event_id: None,
                data: InputEventKindModel::UpdateSession { session: session@ },
            }),
    {
        Self::new(InputEventKind::UpdateSession { session })
    }

    /// The correlation identifier, where one is set.
    pub fn event_id(&self) -> (r: Option<&str>)
        ensures
            match self@.event_id {
                Some(id) => r matches Some(s) && s@ == id,
                None => r is None,
            },
    {
        match &self.event_id {
            Some(id) => Some(id.as_str()),
            None => None,
        }
    }

    /// The payload.
    pub fn kind(&self) -> (r: &InputEventKind)
        ensures
            r@ == self@.data,
    {
        &self.data
    }

    /// The `type` of the event on the wire.
    pub fn tag(&self) -> (r: &'static str)
        ensures
            r@ == input_tag(self@.data),
    {
        match &self.data {
            InputEventKind::CommitAudioInputBuffer => "input_audio_buffer.commit",
            InputEventKind::ClearAudioInputBuffer => "input_audio_buffer.clear",
            InputEventKind::AppendAudioInput { .. } => "input_audio_buffer.append",
            InputEventKind::UpdateSession { .. } => "session.update",
        }
    }

    /// The wire form of the event.
    pub fn to_value(&self) -> (r: serde_json::Value)
        ensures
            value_of(r) == input_event_json(self@),
    {
        let ghost fields = input_event_fields(self@);
        let mut members: Vec<(String, serde_json::Value)> = Vec::new();
        assert(members_of(members@) =~= present(fields.take(0)));
        let event_id = match &self.event_id {
            Some(id) => Some(text_value(id.clone())),
            None => None,
        };
        put(&mut members, "event_id", event_id);
        assert(members_of(members@) == present(fields.take(1))) by {
            assert(fields.take(1).drop_last() =~= fields.take(0));
        }
        put(&mut members, "type", Some(text_value(self.tag().to_owned())));
        assert(members_of(members@) == present(fields.take(2))) by {
            assert(fields.take(2).drop_last() =~= fields.take(1));
        }
        let audio = match &self.data {
            InputEventKind::AppendAudioInput { audio } => Some(text_value(audio.clone())),
            _ => None,
        };
        put(&mut members, "audio", audio);
        assert(members_of(members@) == present(fields.take(3))) by {
            assert(fields.take(3).drop_last() =~= fields.take(2));
        }
        let session = match &self.data {
            InputEventKind::UpdateSession { session } => Some(session.to_value()),
            _ => None,
        };
        put(&mut members, "session", session);
        assert(members_of(members@) == present(fields)) by {
            assert(fields.take(4).drop_last() =~= fields.take(3));
            assert(fields.take(4) =~= fields);
        }
        proof {
            lemma_input_event_keys(self@);
            lemma_present_reads_back(fields);
        }
        object_value(members)
    }

    /// The text frame of the event: its wire form as compact JSON.
    pub fn encode(&self) -> (r: String)
        ensures
            r@ == input_event_text(self@),
    {
        print(&self.to_value())
    }

    /// Reads an event from its wire form.
    pub fn from_value(v: &serde_json::Value) -> (r: Option<InputEvent>)
        ensures
            r matches Some(e) ==> input_event_of(value_of(*v)) == Some(e@),
            r is None ==> input_event_of(value_of(*v)) is None,
    {
        if !v.is_object() {
            return None;
        }
        let event_id = match read_text(field(v, "event_id")) {
            Some(id) => id,
            None => {
                return None;
            },
        };
        let tag = match need_text(v, "type") {
            Some(tag) => tag,
            None => {
                return None;
            },
        };
        let data = if same_text(tag.as_str(), "input_audio_buffer.commit") {
            InputEventKind::CommitAudioInputBuffer
        } else if same_text(tag.as_str(), "input_audio_buffer.clear") {
            InputEventKind::ClearAudioInputBuffer
        } else if same_text(tag.as_str(), "input_audio_buffer.append") {
            match need_text(v, "audio") {
                Some(audio) => InputEventKind::AppendAudioInput { audio },
                None => {
                    return None;
                },
            }
        } else if same_text(tag.as_str(), "session.update") {
            let inner = match member(v, "session") {
                Some(inner) => inner,
                None => {
                    return None;
                },
            };
            match Session::from_value(inner) {
                Some(session) => InputEventKind::UpdateSession { session },
                None => {
                    return None;
                },
            }
        } else {
            return None;
        };
        Some(InputEvent { event_id, data })
    }

    /// Reads an event from a text frame. A frame that is no JSON document, or
    /// one of no known shape, gives nothing.
    pub fn decode(text: &str) -> (r: Option<InputEvent>)
        ensures
            match parsed(text@) {
                Some(json) => match input_event_of(json) {
                    Some(event) => r matches Some(e) && e@ == event,
                    None => r is None,
                },
                None => r is None,
            },
    {
        match parse(text) {
            Some(v) => InputEvent::from_value(&v),
            None => None,
        }
    }
}

/// What the payload of an item event holds.
pub enum ReceivedItemModel {
    AudioDelta { delta: Seq<char> },
    AudioDone,
}

/// The payload of an event about one item of a response.
#[derive(Debug, Clone, PartialEq)]
pub enum ReceivedItemEventKind {
    /// A chunk of the answer's audio: PCM samples, base64-encoded.
    AudioDelta { delta: String },
    /// The answer's audio is complete.
    AudioDone,
}

impl View for ReceivedItemEventKind {
    type V = ReceivedItemModel;

    open spec fn view(&self) -> ReceivedItemModel {
        match self {
            ReceivedItemEventKind::AudioDelta { delta } => ReceivedItemModel::AudioDelta {
                delta: delta@,
            },
            ReceivedItemEventKind::AudioDone => ReceivedItemModel::AudioDone,
        }
    }
}

/// What a session event holds.
pub enum SessionEventModel {
    SessionCreated { session: SessionModel },
    SessionUpdated { session: SessionModel },
}

/// An event about the session as a whole.
#[derive(Debug, Clone, PartialEq)]
pub enum SessionEvent {
    /// The far end has opened the session, with this configuration.
    SessionCreated { session: Session },
    /// The far end has applied an update; this is the configuration now.
    SessionUpdated { session: Session },
}

impl View for SessionEvent {
    type V = SessionEventModel;

    open spec fn view(&self) -> SessionEventModel {
        match self {
            SessionEvent::SessionCreated { session } => SessionEventModel::SessionCreated {
                session: session@,
            },
            SessionEvent::SessionUpdated { session } => SessionEventModel::SessionUpdated {
                session: session@,
            },
        }
    }
}

/// What the payload of a received event holds.
pub enum ReceivedKindModel {
    Session(SessionEventModel),
    Item {
        item_id: Seq<char>,
        response_id: Seq<char>,
        output_index: u64,
        content_index: u64,
        data: ReceivedItemModel,
    },
}

/// What a received event holds.
pub struct ReceivedEventModel {
    pub event_id: Option<Seq<char>>,
    pub data: ReceivedKindModel,
}

/// The payload of a received event.
#[derive(Debug, Clone, PartialEq)]
pub enum ReceivedEventKind {
    Session(SessionEvent),
    Item {
        item_id: String,
        response_id: String,
        output_index: u64,
        content_index: u64,
        data: ReceivedItemEventKind,
    },
}

impl View for ReceivedEventKind {
    type V = ReceivedKindModel;

    open spec fn view(&self) -> ReceivedKindModel {
        match self {
            ReceivedEventKind::Session(e) => ReceivedKindModel::Session(e@),
            ReceivedEventKind::Item {
                item_id,
                response_id,
                output_index,
                content_index,
                data,
            } => ReceivedKindModel::Item {
                item_id: item_id@,
                response_id: response_id@,
                output_index: *output_index,
                content_index: *content_index,
                data: data@,
            },
        }
    }
}

/// The `type` of a received event on the wire.
pub open spec fn received_tag(data: ReceivedKindModel) -> Seq<char> {
    match data {
        ReceivedKindModel::Session(SessionEventModel::SessionCreated { .. }) => "session.created"@,
        ReceivedKindModel::Session(SessionEventModel::SessionUpdated { .. }) => "session.updated"@,
        ReceivedKindModel::Item {
            data: ReceivedItemModel::AudioDelta { .. },
            ..
        } => "response.audio.delta"@,
        ReceivedKindModel::Item { data: ReceivedItemModel::AudioDone, .. } => "response.audio.done"@,
    }
}

/// The fields of a received event on the wire, in the order in which they are
/// written.
pub open spec fn received_event_fields(e: ReceivedEventModel) -> Seq<(Seq<char>, Option<JsonModel>)> {
    seq![
        ("event_id"@, written(e.event_id, |t: Seq<char>| JsonModel::Text(t))),
        (
            "item_id"@,
            match e.data {
                ReceivedKindModel::Item { item_id, .. } => Some(JsonModel::Text(item_id)),
                _ => None,
            },
        ),
        (
            "response_id"@,
            match e.data {
                ReceivedKindModel::Item { response_id, .. } => Some(JsonModel::Text(response_id)),
                _ => None,
            },
        ),
        (
            "output_index"@,
            match e.data {
                ReceivedKindModel::Item { output_index, .. } => Some(
                    JsonModel::Number(NumberModel::Unsigned(output_index)),
                ),
                _ => None,
            },
        ),
        (
            "content_index"@,
            match e.data {
                ReceivedKindModel::Item { content_index, .. } => Some(
                    JsonModel::Number(NumberModel::Unsigned(content_index)),
                ),
                _ => None,
            },
        ),
        ("type"@, Some(JsonModel::Text(received_tag(e.data)))),
        (
            "session"@,
            match e.data {
                ReceivedKindModel::Session(SessionEventModel::SessionCreated { session }) => Some(
                    session_json(session),
                ),
                ReceivedKindModel::Session(SessionEventModel::SessionUpdated { session }) => Some(
                    session_json(session),
                ),
                _ => None,
            },
        ),
        (
            "delta"@,
            match e.data {
                ReceivedKindModel::Item {
                    data: ReceivedItemModel::AudioDelta { delta },
                    ..
                } => Some(JsonModel::Text(delta)),
                _ => None,
            },
        ),
    ]
}

/// The wire form of a received event.
pub open spec fn received_event_json(e: ReceivedEventModel) -> JsonModel {
    JsonModel::Object(present(received_event_fields(e)))
}

/// The session event that a value stands for: its `type` names one, and its
/// `session` is a session configuration.
pub open spec fn session_event_of(json: JsonModel) -> Option<SessionEventModel> {
    match (member_of(json, "type"@), member_of(json, "session"@)) {
        (Some(JsonModel::Text(tag)), Some(inner)) => match session_of(inner) {
            Some(session) => if tag == "session.created"@ {
                Some(SessionEventModel::SessionCreated { session })
            } else if tag == "session.updated"@ {
                Some(SessionEventModel::SessionUpdated { session })
            } else {
                None
            },
            None => None,
        },
        _ => None,
    }
}

/// The payload of an item event that a value stands for, by its `type`.
pub open spec fn item_payload_of(json: JsonModel) -> Option<ReceivedItemModel> {
    match member_of(json, "type"@) {
        Some(JsonModel::Text(tag)) => if tag == "response.audio.delta"@ {
            match member_of(json, "delta"@) {
                Some(JsonModel::Text(delta)) => Some(ReceivedItemModel::AudioDelta { delta }),
                _ => None,
            }
        } else if tag == "response.audio.done"@ {
            Some(ReceivedItemModel::AudioDone)
        } else {
            None
        },
        _ => None,
    }
}

/// The item event that a value stands for: it names its item and response,
/// gives both indices, and carries a payload.
pub open spec fn item_event_of(json: JsonModel) -> Option<ReceivedKindModel> {
    match (
        member_of(json, "item_id"@),
        member_of(json, "response_id"@),
        member_of(json, "output_index"@),
        member_of(json, "content_index"@),
        item_payload_of(json),
    ) {
        (
            Some(JsonModel::Text(item_id)),
            Some(JsonModel::Text(response_id)),
            Some(JsonModel::Number(NumberModel::Unsigned(output_index))),
            Some(JsonModel::Number(NumberModel::Unsigned(content_index))),
            Some(data),
        ) => Some(ReceivedKindModel::Item { item_id, response_id, output_index, content_index, data }),
        _ => None,
    }
}

/// The payload that a value stands for: a session event where it has the
/// shape of one, else an item event.
pub open spec fn received_kind_of(json: JsonModel) -> Option<ReceivedKindModel> {
    match session_event_of(json) {
        Some(e) => Some(ReceivedKindModel::Session(e)),
        None => item_event_of(json),
    }
}

/// The received event that a value stands for, if it has a known shape.
pub open spec fn received_event_of(json: JsonModel) -> Option<ReceivedEventModel> {
    let event_id = optional(field_of(json, "event_id"@), |j: JsonModel| text_of(j));
    let data = received_kind_of(json);
    if json is Object && event_id is Some && data is Some {
        Some(ReceivedEventModel { event_id: event_id.unwrap(), data: data.unwrap() })
    } else {
        None
    }
}

/// The received event that a text frame stands for: the text is one JSON
/// document, and that document has a known shape.
pub open spec fn decoded(text: Seq<char>) -> Option<ReceivedEventModel> {
    match parsed(text) {
        Some(json) => received_event_of(json),
        None => None,
    }
}

/// Why a text frame gave no event. Such a frame is passed over; the reason is
/// for the log.
#[derive(Debug, Clone, Copy, PartialEq, Eq, Structural)]
pub enum DecodeError {
    /// The text is not one JSON document.
    NotJson,
    /// The document has the shape of no event that is known here.
    UnknownShape,
}

/// What a text frame gives: the event it stands for, or the reason why it
/// stands for none.
pub open spec fn decoding(text: Seq<char>) -> Result<ReceivedEventModel, DecodeError> {
    match parsed(text) {
        None => Err(DecodeError::NotJson),
        Some(json) => match received_event_of(json) {
            Some(event) => Ok(event),
            None => Err(DecodeError::UnknownShape),
        },
    }
}

/// The keys of a received event, in the order of its fields.
pub open spec fn received_keys() -> Seq<Seq<char>> {
    seq![
        "event_id"@,
        "item_id"@,
        "response_id"@,
        "output_index"@,
        "content_index"@,
        "type"@,
        "session"@,
        "delta"@,
    ]
}

/// The keys of a received event differ from one another.
pub proof fn lemma_received_event_keys(e: ReceivedEventModel)
    ensures
        distinct_fields(received_event_fields(e)),
        received_event_fields(e).len() == 8,
        forall|i: int| 0 <= i < 8 ==> (#[trigger] received_event_fields(e)[i]).0 == received_keys()[i],
{
    reveal_strlit("event_id");
    reveal_strlit("item_id");
    reveal_strlit("response_id");
    reveal_strlit("output_index");
    reveal_strlit("content_index");
    reveal_strlit("type");
    reveal_strlit("session");
    reveal_strlit("delta");
    let keys = received_keys();
    assert(keys[0].len() == 8 && keys[1].len() == 7 && keys[2].len() == 11 && keys[3].len() == 12
        && keys[4].len() == 13 && keys[5].len() == 4 && keys[6].len() == 7 && keys[7].len() == 5);
    assert(keys[1][0] == 'i' && keys[6][0] == 's');
    let fields = received_event_fields(e);
    assert forall|i: int, j: int| 0 <= i < j < fields.len() implies (#[trigger] fields[i]).0 != (
    #[trigger] fields[j]).0 by {
        assert(fields[i].0 == keys[i] && fields[j].0 == keys[j]);
    }
}

/// An event that the far end has sent, with the correlation identifier that
/// it may carry.
#[derive(Debug, Clone, PartialEq)]
pub struct ReceivedEvent {
    event_id: Option<String>,
    pub data: ReceivedEventKind,
}

impl View for ReceivedEvent {
    type V = ReceivedEventModel;

    closed spec fn view(&self) -> ReceivedEventModel {
        ReceivedEventModel {
            event_id: match self.event_id {
                Some(id) => Some(id@),
                None => None,
            },
            data: self.data@,
        }
    }
}

/// Reads a session event from its wire form.
pub fn session_event_from_value(v: &serde_json::Value) -> (r: Option<SessionEvent>)
    ensures
        r matches Some(e) ==> session_event_of(value_of(*v)) == Some(e@),
        r is None ==> session_event_of(value_of(*v)) is None,
{
    let tag = match need_text(v, "type") {
        Some(tag) => tag,
        None => {
            return None;
        },
    };
    let inner = match member(v, "session") {
        Some(inner) => inner,
        None => {
            return None;
        },
    };
    let session = match Session::from_value(inner) {
        Some(session) => session,
        None => {
            return None;
        },
    };
    if same_text(tag.as_str(), "session.created") {
        Some(SessionEvent::SessionCreated { session })
    } else if same_text(tag.as_str(), "session.updated") {
        Some(SessionEvent::SessionUpdated { session })
    } else {
        None
    }
}

/// Reads the payload of an item event from its wire form.
pub fn item_payload_from_value(v: &serde_json::Value) -> (r: Option<ReceivedItemEventKind>)
    ensures
        r matches Some(p) ==> item_payload_of(value_of(*v)) == Some(p@),
        r is None ==> item_payload_of(value_of(*v)) is None,
{
    let tag = match need_text(v, "type") {
        Some(tag) => tag,
        None => {
            return None;
        },
    };
    if same_text(tag.as_str(), "response.audio.delta") {
        match need_text(v, "delta") {
            Some(delta) => Some(ReceivedItemEventKind::AudioDelta { delta }),
            None => None,
        }
    } else if same_text(tag.as_str(), "response.audio.done") {
        Some(ReceivedItemEventKind::AudioDone)
    } else {
        None
    }
}

/// Reads an item event from its wire form.
pub fn item_event_from_value(v: &serde_json::Value) -> (r: Option<ReceivedEventKind>)
    ensures
        r matches Some(k) ==> item_event_of(value_of(*v)) == Some(k@),
        r is None ==> item_event_of(value_of(*v)) is None,
{
    let item_id = match need_text(v, "item_id") {
        Some(t) => t,
        None => {
            return None;
        },
    };
    let response_id = match need_text(v, "response_id") {
        Some(t) => t,
        None => {
            return None;
        },
    };
    let output_index = match need_unsigned(v, "output_index") {
        Some(n) => n,
        None => {
            return None;
        },
    };
    let content_index = match need_unsigned(v, "content_index") {
        Some(n) => n,
        None => {
            return None;
        },
    };
    match item_payload_from_value(v) {
        Some(data) => Some(
            ReceivedEventKind::Item { item_id, response_id, output_index, content_index, data },
        ),
        None => None,
    }
}

impl ReceivedEvent {
    /// The event with this payload and no correlation identifier.
    pub fn new(data: ReceivedEventKind) -> (r: Self)
        ensures
            r@ == (ReceivedEventModel { event_id: None, data: data@ }),
    {
        Self { event_id: None, data }
    }

    /// The same event under a correlation identifier.
    pub fn with_id(self, id: &str) -> (r: Self)
        ensures
            r@ == (ReceivedEventModel { event_id: Some(id@), data: self@.data }),
    {
        let mut this = self;
        this.event_id = Some(id.to_owned());
        this
    }

    /// The correlation identifier, where one is set.
    pub fn event_id(&self) -> (r: Option<&str>)
        ensures
            match self@.event_id {
                Some(id) => r matches Some(s) && s@ == id,
                None => r is None,
            },
    {
        match &self.event_id {
            Some(id) => Some(id.as_str()),
            None => None,
        }
    }

    /// The payload.
    pub fn kind(&self) -> (r: &ReceivedEventKind)
        ensures
            r@ == self@.data,
    {
        &self.data
    }

    /// The `type` of the event on the wire.
    pub fn tag(&self) -> (r: &'static str)
        ensures
            r@ == received_tag(self@.data),
    {
        match &self.data {
            ReceivedEventKind::Session(SessionEvent::SessionCreated { .. }) => "session.created",
            ReceivedEventKind::Session(SessionEvent::SessionUpdated { .. }) => "session.updated",
            ReceivedEventKind::Item {
                data: ReceivedItemEventKind::AudioDelta { .. },
                ..
            } => "response.audio.delta",
            ReceivedEventKind::Item {
                data: ReceivedItemEventKind::AudioDone,
                ..
            } => "response.audio.done",
        }
    }

    /// Reads an event from its wire form. The shape of a session event is
    /// tried first, then that of an item event.
    pub fn from_value(v: &serde_json::Value) -> (r: Option<ReceivedEvent>)
        ensures
            r matches Some(e) ==> received_event_of(value_of(*v)) == Some(e@),
            r is None ==> received_event_of(value_of(*v)) is None,
    {
        if !v.is_object() {
            return None;
        }
        let event_id = match read_text(field(v, "event_id")) {
            Some(id) => id,
            None => {
                return None;
            },
        };
        let data = match session_event_from_value(v) {
            Some(e) => ReceivedEventKind::Session(e),
            None => match item_event_from_value(v) {
                Some(k) => k,
                None => {
                    return None;
                },
            },
        };
        Some(ReceivedEvent { event_id, data })
    }

    /// Reads an event from a text frame, or says why the frame gives none.
    pub fn try_decode(text: &str) -> (r: Result<ReceivedEvent, DecodeError>)
        ensures
            match decoding(text@) {
                Ok(event) => r matches Ok(e) && e@ == event,
                Err(reason) => r == Err::<ReceivedEvent, DecodeError>(reason),
            },
    {
        match parse(text) {
            Some(v) => match ReceivedEvent::from_value(&v) {
                Some(event) => Ok(event),
                None => Err(DecodeError::UnknownShape),
            },
            None => Err(DecodeError::NotJson),
        }
    }

    /// Reads an event from a text frame. A frame that is no JSON document, or
    /// one of no known shape, gives nothing.
    pub fn decode(text: &str) -> (r: Option<ReceivedEvent>)
        ensures
            r matches Some(e) ==> decoded(text@) == Some(e@),
            r is None ==> decoded(text@) is None,
    {
        match ReceivedEvent::try_decode(text) {
            Ok(event) => Some(event),
            Err(_) => None,
        }
    }

    /// The wire form of the event.
    pub fn to_value(&self) -> (r: serde_json::Value)
        ensures
            value_of(r) == received_event_json(self@),
    {
        let ghost fields = received_event_fields(self@);
        let mut members: Vec<(String, serde_json::Value)> = Vec::new();
        assert(members_of(members@) =~= present(fields.take(0)));
        let event_id = match &self.event_id {
            Some(id) => Some(text_value(id.clone())),
            None => None,
        };
        put(&mut members, "event_id", event_id);
        assert(members_of(members@) == present(fields.take(1))) by {
            assert(fields.take(1).drop_last() =~= fields.take(0));
        }
        let item_id = match &self.data {
            ReceivedEventKind::Item { item_id, .. } => Some(text_value(item_id.clone())),
            _ => None,
        };
        put(&mut members, "item_id", item_id);
        assert(members_of(members@) == present(fields.take(2))) by {
            assert(fields.take(2).drop_last() =~= fields.take(1));
        }
        let response_id = match &self.data {
            ReceivedEventKind::Item { response_id, .. } => Some(text_value(response_id.clone())),
            _ => None,
        };
        put(&mut members, "response_id", response_id);
        assert(members_of(members@) == present(fields.take(3))) by {
            assert(fields.take(3).drop_last() =~= fields.take(2));
        }
        let output_index = match &self.data {
            ReceivedEventKind::Item { output_index, .. } => Some(unsigned_value(*output_index)),
            _ => None,
        };
        put(&mut members, "output_index", output_index);
        assert(members_of(members@) == present(fields.take(4))) by {
            assert(fields.take(4).drop_last() =~= fields.take(3));
        }
        let content_index = match &self.data {
            ReceivedEventKind::Item { content_index, .. } => Some(unsigned_value(*content_index)),
            _ => None,
        };
        put(&mut members, "content_index", content_index);
        assert(members_of(members@) == present(fields.take(5))) by {
            assert(fields.take(5).drop_last() =~= fields.take(4));
        }
        put(&mut members, "type", Some(text_value(self.tag().to_owned())));
        assert(members_of(members@) == present(fields.take(6))) by {
            assert(fields.take(6).drop_last() =~= fields.take(5));
        }
        let session = match &self.data {
            ReceivedEventKind::Session(SessionEvent::SessionCreated { session }) => Some(
                session.to_value(),
            ),
            ReceivedEventKind::Session(SessionEvent::SessionUpdated { session }) => Some(
                session.to_value(),
            ),
            _ => None,
        };
        put(&mut members, "session", session);
        assert(members_of(members@) == present(fields.take(7))) by {
            assert(fields.take(7).drop_last() =~= fields.take(6));
        }
        let delta = match &self.data {
            ReceivedEventKind::Item {
                data: ReceivedItemEventKind::AudioDelta { delta },
                ..
            } => Some(text_value(delta.clone())),
            _ => None,
        };
        put(&mut members, "delta", delta);
        assert(members_of(members@) == present(fields)) by {
            assert(fields.take(8).drop_last() =~= fields.take(7));
            assert(fields.take(8) =~= fields);
        }
        proof {
            lemma_received_event_keys(self@);
            lemma_present_reads_back(fields);
        }
        object_value(members)
    }

    /// The text frame of the event: its wire form as compact JSON.
    pub fn encode(&self) -> (r: String)
        ensures
            r@ == printed(received_event_json(self@)),
    {
        print(&self.to_value())
    }
}

/// The members of a received event's wire form are its fields.
proof fn lemma_received_members(e: ReceivedEventModel)
    ensures
        received_event_json(e) is Object,
        forall|i: int|
            0 <= i < 8 ==> member_of(received_event_json(e), #[trigger] received_keys()[i])
                == received_event_fields(e)[i].1,
{
    lemma_received_event_keys(e);
    lemma_present_reads_back(received_event_fields(e));
}

/// A received event reads back from its wire form as it was. So decoding an
/// event, encoding what came out and decoding again gives the same event.
pub proof fn lemma_received_event_round_trip(e: ReceivedEventModel)
    ensures
        received_event_of(received_event_json(e)) == Some(e),
{
    lemma_received_members(e);
    let json = received_event_json(e);
    let fields = received_event_fields(e);
    let keys = received_keys();
    assert(member_of(json, "event_id"@) == fields[0].1) by {
        assert(keys[0] == "event_id"@);
    }
    assert(member_of(json, "item_id"@) == fields[1].1) by {
        assert(keys[1] == "item_id"@);
    }
    assert(member_of(json, "response_id"@) == fields[2].1) by {
        assert(keys[2] == "response_id"@);
    }
    assert(member_of(json, "output_index"@) == fields[3].1) by {
        assert(keys[3] == "output_index"@);
    }
    assert(member_of(json, "content_index"@) == fields[4].1) by {
        assert(keys[4] == "content_index"@);
    }
    assert(member_of(json, "type"@) == fields[5].1) by {
        assert(keys[5] == "type"@);
    }
    assert(member_of(json, "session"@) == fields[6].1) by {
        assert(keys[6] == "session"@);
    }
    assert(member_of(json, "delta"@) == fields[7].1) by {
        assert(keys[7] == "delta"@);
    }
    reveal_strlit("session.created");
    reveal_strlit("session.updated");
    reveal_strlit("response.audio.delta");
    reveal_strlit("response.audio.done");
    assert("session.created"@.len() == 15 && "session.updated"@.len() == 15
        && "response.audio.delta"@.len() == 20 && "response.audio.done"@.len() == 19);
    assert("session.created"@[8] == 'c' && "session.updated"@[8] == 'u');
    match e.data {
        ReceivedKindModel::Session(SessionEventModel::SessionCreated { session }) => {
            lemma_session_round_trip(session);
        },
        ReceivedKindModel::Session(SessionEventModel::SessionUpdated { session }) => {
            lemma_session_round_trip(session);
        },
        ReceivedKindModel::Item { .. } => {},
    }
}

/// No value has both shapes: one that reads as a session event does not read
/// as an item event. The order in which the two shapes are tried therefore
/// never decides what comes out.
pub proof fn lemma_shapes_do_not_overlap(json: JsonModel)
    ensures
        !(session_event_of(json) is Some && item_event_of(json) is Some),
{
    reveal_strlit("session.created");
    reveal_strlit("session.updated");
    reveal_strlit("response.audio.delta");
    reveal_strlit("response.audio.done");
    assert("session.created"@.len() == 15 && "session.updated"@.len() == 15
        && "response.audio.delta"@.len() == 20 && "response.audio.done"@.len() == 19);
}

} // verus!
