//! The settings of a conversation and their wire form.
//!
//! Every setting is optional: a field that is not set is left out of the wire
//! form, and the far end keeps what it had. Reading goes the other way round:
//! a member that is missing or null reads as "not set", members that the
//! types here do not know are passed over, and a member of the wrong shape
//! makes the whole reading fail.

use crate::json::{
    array_value, distinct_fields, field, field_of, lemma_present_reads_back, member,
    member_of, members_of, need_text, number_of, object_value, optional, present,
    put, read_bool, read_number, read_text, read_unsigned, same_text, text_of, text_value,
    unsigned_of, bool_of, bool_value, unsigned_value, value_of, values_of, written, JsonModel,
    Number, NumberModel,
};
use vstd::prelude::*;

verus! {

/// A kind of output the far end may produce.
#[derive(Debug, Clone, Copy, PartialEq, Eq, Structural)]
pub enum Modality {
    Text,
    Audio,
}

impl Modality {
    /// The name of the modality on the wire.
    pub open spec fn wire_name(self) -> Seq<char> {
        match self {
            Modality::Text => "text"@,
            Modality::Audio => "audio"@,
        }
    }

    /// The modality that a wire name stands for.
    pub open spec fn named(name: Seq<char>) -> Option<Modality> {
        if name == "text"@ {
            Some(Modality::Text)
        } else if name == "audio"@ {
            Some(Modality::Audio)
        } else {
            None
        }
    }

    /// The name of the modality on the wire.
    pub fn name(&self) -> (r: &'static str)
        ensures
            r@ == self.wire_name(),
    {
        match self {
            Modality::Text => "text",
            Modality::Audio => "audio",
        }
    }

    /// The modality that a wire name stands for.
    pub fn from_name(name: &str) -> (r: Option<Modality>)
        ensures
            r == Modality::named(name@),
    {
        if same_text(name, "text") {
            Some(Modality::Text)
        } else if same_text(name, "audio") {
            Some(Modality::Audio)
        } else {
            None
        }
    }
}

/// A sample format of the audio in either direction.
#[derive(Debug, Clone, Copy, PartialEq, Eq, Structural)]
pub enum AudioFormat {
    Pcm16,
}

impl AudioFormat {
    /// The name of the format on the wire.
    pub open spec fn wire_name(self) -> Seq<char> {
        "pcm16"@
    }

    /// The format that a wire name stands for.
    pub open spec fn named(name: Seq<char>) -> Option<AudioFormat> {
        if name == "pcm16"@ {
            Some(AudioFormat::Pcm16)
        } else {
            None
        }
    }

    /// The name of the format on the wire.
    pub fn name(&self) -> (r: &'static str)
        ensures
            r@ == self.wire_name(),
    {
        "pcm16"
    }

    /// The format that a wire name stands for.
    pub fn from_name(name: &str) -> (r: Option<AudioFormat>)
        ensures
            r == AudioFormat::named(name@),
    {
        if same_text(name, "pcm16") {
            Some(AudioFormat::Pcm16)
        } else {
            None
        }
    }
}

/// A way in which the far end detects the end of a speaker's turn.
#[derive(Debug, Clone, Copy, PartialEq, Eq, Structural)]
pub enum TurnDetectionKind {
    ServerVad,
}

impl Default for TurnDetectionKind {
    fn default() -> (r: Self)
        ensures
            r == TurnDetectionKind::ServerVad,
    {
        TurnDetectionKind::ServerVad
    }
}

impl TurnDetectionKind {
    /// The name of the kind on the wire.
    pub open spec fn wire_name(self) -> Seq<char> {
        "server_vad"@
    }

    /// The kind that a wire name stands for.
    pub open spec fn named(name: Seq<char>) -> Option<TurnDetectionKind> {
        if name == "server_vad"@ {
            Some(TurnDetectionKind::ServerVad)
        } else {
            None
        }
    }

    /// The name of the kind on the wire.
    pub fn name(&self) -> (r: &'static str)
        ensures
            r@ == self.wire_name(),
    {
        "server_vad"
    }

    /// The kind that a wire name stands for.
    pub fn from_name(name: &str) -> (r: Option<TurnDetectionKind>)
        ensures
            r == TurnDetectionKind::named(name@),
    {
        if same_text(name, "server_vad") {
            Some(TurnDetectionKind::ServerVad)
        } else {
            None
        }
    }
}

/// The wire form of a modality.
pub open spec fn modality_json(m: Modality) -> JsonModel {
    JsonModel::Text(m.wire_name())
}

/// The modality that a value stands for.
pub open spec fn modality_of(json: JsonModel) -> Option<Modality> {
    match json {
        JsonModel::Text(name) => Modality::named(name),
        _ => None,
    }
}

/// The wire form of an audio format.
pub open spec fn format_json(f: AudioFormat) -> JsonModel {
    JsonModel::Text(f.wire_name())
}

/// The audio format that a value stands for.
pub open spec fn format_of(json: JsonModel) -> Option<AudioFormat> {
    match json {
        JsonModel::Text(name) => AudioFormat::named(name),
        _ => None,
    }
}

/// The wire form of a kind of turn detection.
pub open spec fn kind_json(k: TurnDetectionKind) -> JsonModel {
    JsonModel::Text(k.wire_name())
}

/// The kind of turn detection that a value stands for.
pub open spec fn kind_of(json: JsonModel) -> Option<TurnDetectionKind> {
    match json {
        JsonModel::Text(name) => TurnDetectionKind::named(name),
        _ => None,
    }
}

/// The wire form of a list of modalities: the array of their names.
pub open spec fn modalities_json(ms: Seq<Modality>) -> JsonModel {
    JsonModel::Array(ms.map_values(|m: Modality| modality_json(m)))
}

/// The list of modalities that a value stands for: an array in which every
/// element names one.
pub open spec fn modalities_of(json: JsonModel) -> Option<Seq<Modality>> {
    match json {
        JsonModel::Array(items) => if forall|i: int|
            0 <= i < items.len() ==> modality_of(#[trigger] items[i]) is Some {
            Some(items.map_values(|j: JsonModel| modality_of(j).unwrap()))
        } else {
            None
        },
        _ => None,
    }
}

/// What a turn detection configuration holds.
pub struct TurnDetectionModel {
    pub kind: Option<TurnDetectionKind>,
    pub threshold: Option<NumberModel>,
    pub prefix_padding_ms: Option<u64>,
    pub silence_duration_ms: Option<u64>,
    pub create_response: Option<bool>,
}

/// The fields of a turn detection configuration on the wire, in the order
/// in which they are written. A field that is not set is left out.
pub open spec fn turn_detection_fields(t: TurnDetectionModel) -> Seq<(Seq<char>, Option<JsonModel>)> {
    seq![
        ("type"@, written(t.kind, |k: TurnDetectionKind| kind_json(k))),
        ("threshold"@, written(t.threshold, |n: NumberModel| JsonModel::Number(n))),
        (
            "prefix_padding_ms"@,
            written(t.prefix_padding_ms, |n: u64| JsonModel::Number(NumberModel::Unsigned(n))),
        ),
        (
            "silence_duration_ms"@,
            written(t.silence_duration_ms, |n: u64| JsonModel::Number(NumberModel::Unsigned(n))),
        ),
        ("create_response"@, written(t.create_response, |b: bool| JsonModel::Bool(b))),
    ]
}

/// The wire form of a turn detection configuration.
pub open spec fn turn_detection_json(t: TurnDetectionModel) -> JsonModel {
    JsonModel::Object(present(turn_detection_fields(t)))
}

/// The turn detection configuration that a value stands for: an object whose
/// known members, where they are there and not null, have the right shape.
pub open spec fn turn_detection_of(json: JsonModel) -> Option<TurnDetectionModel> {
    let kind = optional(field_of(json, "type"@), |j: JsonModel| kind_of(j));
    let threshold = optional(field_of(json, "threshold"@), |j: JsonModel| number_of(j));
    let prefix = optional(field_of(json, "prefix_padding_ms"@), |j: JsonModel| unsigned_of(j));
    let silence = optional(field_of(json, "silence_duration_ms"@), |j: JsonModel| unsigned_of(j));
    let create = optional(field_of(json, "create_response"@), |j: JsonModel| bool_of(j));
    if json is Object && kind is Some && threshold is Some && prefix is Some && silence is Some
        && create is Some {
        Some(
            TurnDetectionModel {
                kind: kind.unwrap(),
                threshold: threshold.unwrap(),
                prefix_padding_ms: prefix.unwrap(),
                silence_duration_ms: silence.unwrap(),
                create_response: create.unwrap(),
            },
        )
    } else {
        None
    }
}

/// The keys of a turn detection configuration differ from one another.
pub proof fn lemma_turn_detection_keys(t: TurnDetectionModel)
    ensures
        distinct_fields(turn_detection_fields(t)),
{
    reveal_strlit("type");
    reveal_strlit("threshold");
    reveal_strlit("prefix_padding_ms");
    reveal_strlit("silence_duration_ms");
    reveal_strlit("create_response");
    let keys = seq![
        "type"@,
        "threshold"@,
        "prefix_padding_ms"@,
        "silence_duration_ms"@,
        "create_response"@,
    ];
    assert(keys[0].len() == 4 && keys[1].len() == 9 && keys[2].len() == 17 && keys[3].len() == 19
        && keys[4].len() == 15);
    let fields = turn_detection_fields(t);
    assert forall|i: int, j: int| 0 <= i < j < fields.len() implies (#[trigger] fields[i]).0 != (
    #[trigger] fields[j]).0 by {
        assert(fields[i].0 == keys[i] && fields[j].0 == keys[j]);
    }
}

/// Automatic turn detection: with it the far end decides by itself when a
/// speaker's turn has ended, and no audio buffer needs to be committed by
/// hand.
#[derive(Debug, Clone, PartialEq)]
pub struct TurnDetection {
    kind: Option<TurnDetectionKind>,
    threshold: Option<Number>,
    prefix_padding_ms: Option<u64>,
    silence_duration_ms: Option<u64>,
    create_response: Option<bool>,
}

impl View for TurnDetection {
    type V = TurnDetectionModel;

    closed spec fn view(&self) -> TurnDetectionModel {
        TurnDetectionModel {
            kind: self.kind,
            threshold: match self.threshold {
                Some(n) => Some(n@),
                None => None,
            },
            prefix_padding_ms: self.prefix_padding_ms,
            silence_duration_ms: self.silence_duration_ms,
            create_response: self.create_response,
        }
    }
}

impl TurnDetection {
    /// The configuration that the endpoint's own examples use: server-side
    /// voice activity detection, the threshold that the text `0.5` reads as,
    /// 300 ms of padding before speech, 500 ms of silence to end a turn, and
    /// a response created at the end of each turn.
    pub fn with_openai_defaults() -> (r: Self)
        ensures
            r@.kind == Some(TurnDetectionKind::ServerVad),
            r@.threshold == match crate::json::parsed("0.5"@) {
                Some(JsonModel::Number(n)) => Some(n),
                _ => None,
            },
            r@.prefix_padding_ms == Some(300u64),
            r@.silence_duration_ms == Some(500u64),
            r@.create_response == Some(true),
    {
        Self {
            kind: Some(TurnDetectionKind::ServerVad),
            threshold: Number::parse("0.5"),
            prefix_padding_ms: Some(300),
            silence_duration_ms: Some(500),
            create_response: Some(true),
        }
    }

    /// Server-side voice activity detection with nothing else set.
    pub fn empty() -> (r: Self)
        ensures
            r@ == (TurnDetectionModel {
                kind: Some(TurnDetectionKind::ServerVad),
                threshold: None,
                prefix_padding_ms: None,
                silence_duration_ms: None,
                create_response: None,
            }),
    {
        Self {
            kind: Some(TurnDetectionKind::ServerVad),
            threshold: None,
            prefix_padding_ms: None,
            silence_duration_ms: None,
            create_response: None,
        }
    }

    /// Sets the loudness from which sound counts as speech.
    pub fn threshold(self, threshold: Number) -> (r: Self)
        ensures
            r@ == (TurnDetectionModel { threshold: Some(threshold@), ..self@ }),
    {
        let mut this = self;
        this.threshold = Some(threshold);
        this
    }

    /// Sets the stretch of audio kept from before speech was detected.
    pub fn prefix_padding_ms(self, prefix_padding_ms: u64) -> (r: Self)
        ensures
            r@ == (TurnDetectionModel { prefix_padding_ms: Some(prefix_padding_ms), ..self@ }),
    {
        let mut this = self;
        this.prefix_padding_ms = Some(prefix_padding_ms);
        this
    }

    /// Sets the stretch of silence that ends a turn.
    pub fn silence_duration_ms(self, silence_duration_ms: u64) -> (r: Self)
        ensures
            r@ == (TurnDetectionModel { silence_duration_ms: Some(silence_duration_ms), ..self@ }),
    {
        let mut this = self;
        this.silence_duration_ms = Some(silence_duration_ms);
        this
    }

    /// Sets whether the far end answers by itself at the end of a turn.
    pub fn create_response(self, create_response: bool) -> (r: Self)
        ensures
            r@ == (TurnDetectionModel { create_response: Some(create_response), ..self@ }),
    {
        let mut this = self;
        this.create_response = Some(create_response);
        this
    }

    /// The wire form of the configuration.
    pub fn to_value(&self) -> (r: serde_json::Value)
        ensures
            value_of(r) == turn_detection_json(self@),
    {
        let kind = match &self.kind {
            Some(k) => Some(text_value(k.name().to_owned())),
            None => None,
        };
        let threshold = match &self.threshold {
            Some(n) => Some(n.to_value()),
            None => None,
        };
        let prefix = match self.prefix_padding_ms {
            Some(n) => Some(unsigned_value(n)),
            None => None,
        };
        let silence = match self.silence_duration_ms {
            Some(n) => Some(unsigned_value(n)),
            None => None,
        };
        let create = match self.create_response {
            Some(b) => Some(bool_value(b)),
            None => None,
        };
        let ghost fields = turn_detection_fields(self@);
        let mut members: Vec<(String, serde_json::Value)> = Vec::new();
        assert(members_of(members@) =~= present(fields.take(0)));
        put(&mut members, "type", kind);
        assert(members_of(members@) == present(fields.take(1))) by {
            assert(fields.take(1).drop_last() =~= fields.take(0));
        }
        put(&mut members, "threshold", threshold);
        assert(members_of(members@) == present(fields.take(2))) by {
            assert(fields.take(2).drop_last() =~= fields.take(1));
        }
        put(&mut members, "prefix_padding_ms", prefix);
        assert(members_of(members@) == present(fields.take(3))) by {
            assert(fields.take(3).drop_last() =~= fields.take(2));
        }
        put(&mut members, "silence_duration_ms", silence);
        assert(members_of(members@) == present(fields.take(4))) by {
            assert(fields.take(4).drop_last() =~= fields.take(3));
        }
        put(&mut members, "create_response", create);
        assert(members_of(members@) == present(fields)) by {
            assert(fields.take(5).drop_last() =~= fields.take(4));
            assert(fields.take(5) =~= fields);
        }
        proof {
            lemma_turn_detection_keys(self@);
            lemma_present_reads_back(fields);
        }
        object_value(members)
    }

    /// Reads a configuration from its wire form.
    pub fn from_value(v: &serde_json::Value) -> (r: Option<TurnDetection>)
        ensures
            r matches Some(t) ==> turn_detection_of(value_of(*v)) == Some(t@),
            r is None ==> turn_detection_of(value_of(*v)) is None,
    {
        if !v.is_object() {
            return None;
        }
        let kind = match field(v, "type") {
            None => None,
            Some(m) => match m.as_str() {
                Some(name) => match TurnDetectionKind::from_name(name) {
                    Some(k) => Some(k),
                    None => {
                        return None;
                    },
                },
                None => {
                    return None;
                },
            },
        };
        let threshold = match read_number(field(v, "threshold")) {
            Some(n) => n,
            None => {
                return None;
            },
        };
        let prefix_padding_ms = match read_unsigned(field(v, "prefix_padding_ms")) {
            Some(n) => n,
            None => {
                return None;
            },
        };
        let silence_duration_ms = match read_unsigned(field(v, "silence_duration_ms")) {
            Some(n) => n,
            None => {
                return None;
            },
        };
        let create_response = match read_bool(field(v, "create_response")) {
            Some(b) => b,
            None => {
                return None;
            },
        };
        Some(TurnDetection { kind, threshold, prefix_padding_ms, silence_duration_ms, create_response })
    }
}

/// A turn detection configuration reads back from its wire form as it was.
pub proof fn lemma_turn_detection_round_trip(t: TurnDetectionModel)
    ensures
        turn_detection_of(turn_detection_json(t)) == Some(t),
{
    let fields = turn_detection_fields(t);
    lemma_turn_detection_keys(t);
    lemma_present_reads_back(fields);
    assert(fields[0].0 == "type"@ && fields[1].0 == "threshold"@ && fields[2].0
        == "prefix_padding_ms"@ && fields[3].0 == "silence_duration_ms"@ && fields[4].0
        == "create_response"@);
    reveal_strlit("server_vad");
}

/// The wire form of a transcription setting, given the model's name.
pub open spec fn transcription_json(model: Seq<char>) -> JsonModel {
    JsonModel::Object(seq![("model"@, JsonModel::Text(model))])
}

/// The name of the model in a transcription setting: the text under `model`.
pub open spec fn transcription_of(json: JsonModel) -> Option<Seq<char>> {
    match member_of(json, "model"@) {
        Some(JsonModel::Text(model)) => Some(model),
        _ => None,
    }
}

/// A transcription setting reads back from its wire form as it was.
pub proof fn lemma_transcription_round_trip(model: Seq<char>)
    ensures
        transcription_of(transcription_json(model)) == Some(model),
{
    let members = seq![("model"@, JsonModel::Text(model))];
    assert(members.last() == members[0]);
}

/// The model that transcribes the caller's audio.
#[derive(Debug, Clone, PartialEq)]
pub struct InputAudioTranscription {
    model: String,
}

impl View for InputAudioTranscription {
    type V = Seq<char>;

    closed spec fn view(&self) -> Seq<char> {
        self.model@
    }
}

impl Default for InputAudioTranscription {
    fn default() -> (r: Self)
        ensures
            r@ == "whisper-1"@,
    {
        Self { model: "whisper-1".to_owned() }
    }
}

impl InputAudioTranscription {
    /// The setting for the model of this name.
    pub fn new(model: &str) -> (r: Self)
        ensures
            r@ == model@,
    {
        Self { model: model.to_owned() }
    }

    /// The model's name.
    pub fn model(&self) -> (r: &str)
        ensures
            r@ == self@,
    {
        self.model.as_str()
    }

    /// The wire form of the setting.
    pub fn to_value(&self) -> (r: serde_json::Value)
        ensures
            value_of(r) == transcription_json(self@),
    {
        let mut members: Vec<(String, serde_json::Value)> = Vec::new();
        put(&mut members, "model", Some(text_value(self.model.clone())));
        assert(members_of(members@) =~= seq![("model"@, JsonModel::Text(self@))]);
        object_value(members)
    }

    /// Reads a setting from its wire form.
    pub fn from_value(v: &serde_json::Value) -> (r: Option<InputAudioTranscription>)
        ensures
            r matches Some(t) ==> transcription_of(value_of(*v)) == Some(t@),
            r is None ==> transcription_of(value_of(*v)) is None,
    {
        match need_text(v, "model") {
            Some(model) => Some(InputAudioTranscription { model }),
            None => None,
        }
    }
}

/// What the definition of a tool holds.
pub struct ToolModel {
    /// The kind of tool; `function` for all that the endpoint knows.
    pub kind: Seq<char>,
    pub name: Seq<char>,
    pub description: Seq<char>,
    /// The schema of the tool's arguments.
    pub parameters: JsonModel,
    /// Whether the far end must keep to the schema to the letter.
    pub strict: Option<bool>,
}

/// The fields of what a tool does, in the order in which they are written.
/// `strict` is left out where it is not set.
pub open spec fn function_fields(t: ToolModel) -> Seq<(Seq<char>, Option<JsonModel>)> {
    seq![
        ("name"@, Some(JsonModel::Text(t.name))),
        ("description"@, Some(JsonModel::Text(t.description))),
        ("parameters"@, Some(t.parameters)),
        ("strict"@, written(t.strict, |b: bool| JsonModel::Bool(b))),
    ]
}

/// The wire form of what a tool does: its name, description and parameters.
pub open spec fn function_json(t: ToolModel) -> JsonModel {
    JsonModel::Object(present(function_fields(t)))
}

/// The fields of a tool definition, in the order in which they are written.
pub open spec fn tool_fields(t: ToolModel) -> Seq<(Seq<char>, Option<JsonModel>)> {
    seq![("type"@, Some(JsonModel::Text(t.kind))), ("function"@, Some(function_json(t)))]
}

/// The wire form of a tool definition.
pub open spec fn tool_json(t: ToolModel) -> JsonModel {
    JsonModel::Object(present(tool_fields(t)))
}

/// The tool definition that a value stands for: its `type` is a text, and its
/// `function` is an object with a text `name`, a text `description`,
/// `parameters` of any shape and, where it is there and not null, a boolean
/// `strict`.
pub open spec fn tool_of(json: JsonModel) -> Option<ToolModel> {
    match (member_of(json, "type"@), member_of(json, "function"@)) {
        (Some(JsonModel::Text(kind)), Some(function)) => match (
            member_of(function, "name"@),
            member_of(function, "description"@),
            member_of(function, "parameters"@),
            optional(field_of(function, "strict"@), |j: JsonModel| bool_of(j)),
        ) {
            (
                Some(JsonModel::Text(name)),
                Some(JsonModel::Text(description)),
                Some(parameters),
                Some(strict),
            ) => Some(ToolModel { kind, name, description, parameters, strict }),
            _ => None,
        },
        _ => None,
    }
}

/// The keys of a tool definition differ from one another.
pub proof fn lemma_tool_keys(t: ToolModel)
    ensures
        distinct_fields(function_fields(t)),
        distinct_fields(tool_fields(t)),
{
    reveal_strlit("type");
    reveal_strlit("function");
    reveal_strlit("name");
    reveal_strlit("description");
    reveal_strlit("parameters");
    reveal_strlit("strict");
    let inner = seq!["name"@, "description"@, "parameters"@, "strict"@];
    let outer = seq!["type"@, "function"@];
    assert(inner[0].len() == 4 && inner[1].len() == 11 && inner[2].len() == 10 && inner[3].len()
        == 6);
    assert(outer[0].len() == 4 && outer[1].len() == 8);
    let fields = function_fields(t);
    assert forall|i: int, j: int| 0 <= i < j < fields.len() implies (#[trigger] fields[i]).0 != (
    #[trigger] fields[j]).0 by {
        assert(fields[i].0 == inner[i] && fields[j].0 == inner[j]);
    }
    let fields = tool_fields(t);
    assert forall|i: int, j: int| 0 <= i < j < fields.len() implies (#[trigger] fields[i]).0 != (
    #[trigger] fields[j]).0 by {
        assert(fields[i].0 == outer[i] && fields[j].0 == outer[j]);
    }
}

/// A tool definition reads back from its wire form as it was.
pub proof fn lemma_tool_round_trip(t: ToolModel)
    ensures
        tool_of(tool_json(t)) == Some(t),
{
    lemma_tool_keys(t);
    let inner = function_fields(t);
    let outer = tool_fields(t);
    lemma_present_reads_back(inner);
    lemma_present_reads_back(outer);
    assert(inner[0].0 == "name"@ && inner[1].0 == "description"@ && inner[2].0 == "parameters"@
        && inner[3].0 == "strict"@);
    assert(outer[0].0 == "type"@ && outer[1].0 == "function"@);
    assert(member_of(tool_json(t), "function"@) == Some(function_json(t)));
}

/// A tool that the far end may call: what it is named, what it does, and the
/// schema of its arguments.
#[derive(Debug, Clone, PartialEq)]
pub struct ToolDefinition {
    pub kind: String,
    pub name: String,
    pub description: String,
    pub parameters: serde_json::Value,
    pub strict: Option<bool>,
}

impl View for ToolDefinition {
    type V = ToolModel;

    open spec fn view(&self) -> ToolModel {
        ToolModel {
            kind: self.kind@,
            name: self.name@,
            description: self.description@,
            parameters: value_of(self.parameters),
            strict: self.strict,
        }
    }
}

impl ToolDefinition {
    /// A tool of the kind `function`, with `strict` not set.
    pub fn function(name: &str, description: &str, parameters: serde_json::Value) -> (r: Self)
        ensures
            r@ == (ToolModel {
                kind: "function"@,
                name: name@,
                description: description@,
                parameters: value_of(parameters),
                strict: None,
            }),
    {
        Self {
            kind: "function".to_owned(),
            name: name.to_owned(),
            description: description.to_owned(),
            parameters,
            strict: None,
        }
    }

    /// The wire form of the definition.
    pub fn to_value(&self) -> (r: serde_json::Value)
        ensures
            value_of(r) == tool_json(self@),
    {
        let ghost inner_fields = function_fields(self@);
        let ghost outer_fields = tool_fields(self@);
        proof {
            lemma_tool_keys(self@);
            lemma_present_reads_back(inner_fields);
            lemma_present_reads_back(outer_fields);
        }
        let mut inner: Vec<(String, serde_json::Value)> = Vec::new();
        assert(members_of(inner@) =~= present(inner_fields.take(0)));
        put(&mut inner, "name", Some(text_value(self.name.clone())));
        assert(members_of(inner@) == present(inner_fields.take(1))) by {
            assert(inner_fields.take(1).drop_last() =~= inner_fields.take(0));
        }
        put(&mut inner, "description", Some(text_value(self.description.clone())));
        assert(members_of(inner@) == present(inner_fields.take(2))) by {
            assert(inner_fields.take(2).drop_last() =~= inner_fields.take(1));
        }
        put(&mut inner, "parameters", Some(self.parameters.clone()));
        assert(members_of(inner@) == present(inner_fields.take(3))) by {
            assert(inner_fields.take(3).drop_last() =~= inner_fields.take(2));
        }
        let strict = match self.strict {
            Some(b) => Some(bool_value(b)),
            None => None,
        };
        put(&mut inner, "strict", strict);
        assert(members_of(inner@) == present(inner_fields)) by {
            assert(inner_fields.take(4).drop_last() =~= inner_fields.take(3));
            assert(inner_fields.take(4) =~= inner_fields);
        }
        let function = object_value(inner);
        let mut outer: Vec<(String, serde_json::Value)> = Vec::new();
        assert(members_of(outer@) =~= present(outer_fields.take(0)));
        put(&mut outer, "type", Some(text_value(self.kind.clone())));
        assert(members_of(outer@) == present(outer_fields.take(1))) by {
            assert(outer_fields.take(1).drop_last() =~= outer_fields.take(0));
        }
        put(&mut outer, "function", Some(function));
        assert(members_of(outer@) == present(outer_fields)) by {
            assert(outer_fields.take(2).drop_last() =~= outer_fields.take(1));
            assert(outer_fields.take(2) =~= outer_fields);
        }
        object_value(outer)
    }

    /// Reads a definition from its wire form.
    pub fn from_value(v: &serde_json::Value) -> (r: Option<ToolDefinition>)
        ensures
            r matches Some(t) ==> tool_of(value_of(*v)) == Some(t@),
            r is None ==> tool_of(value_of(*v)) is None,
    {
        let kind = match need_text(v, "type") {
            Some(kind) => kind,
            None => {
                return None;
            },
        };
        let function = match member(v, "function") {
            Some(function) => function,
            None => {
                return None;
            },
        };
        let name = match need_text(function, "name") {
            Some(name) => name,
            None => {
                return None;
            },
        };
        let description = match need_text(function, "description") {
            Some(description) => description,
            None => {
                return None;
            },
        };
        let parameters = match member(function, "parameters") {
            Some(parameters) => parameters.clone(),
            None => {
                return None;
            },
        };
        match read_bool(field(function, "strict")) {
            Some(strict) => Some(ToolDefinition { kind, name, description, parameters, strict }),
            None => None,
        }
    }
}

/// The wire form of a list of tools: the array of their definitions.
pub open spec fn tools_json(ts: Seq<ToolModel>) -> JsonModel {
    JsonModel::Array(ts.map_values(|t: ToolModel| tool_json(t)))
}

/// The list of tools that a value stands for: an array in which every element
/// is a tool definition.
pub open spec fn tools_of(json: JsonModel) -> Option<Seq<ToolModel>> {
    match json {
        JsonModel::Array(items) => if forall|i: int|
            0 <= i < items.len() ==> tool_of(#[trigger] items[i]) is Some {
            Some(items.map_values(|j: JsonModel| tool_of(j).unwrap()))
        } else {
            None
        },
        _ => None,
    }
}

/// What a list of tool definitions holds.
pub open spec fn tool_models(tools: Seq<ToolDefinition>) -> Seq<ToolModel> {
    tools.map_values(|t: ToolDefinition| t@)
}

/// The wire form of a list of modalities.
pub fn modalities_to_value(modalities: &Vec<Modality>) -> (r: serde_json::Value)
    ensures
        value_of(r) == modalities_json(modalities@),
{
    let mut items: Vec<serde_json::Value> = Vec::new();
    let mut i: usize = 0;
    while i < modalities.len()
        invariant
            i <= modalities.len(),
            items@.len() == i,
            values_of(items@) == modalities@.take(i as int).map_values(|m: Modality| modality_json(m)),
        decreases modalities.len() - i,
    {
        let value = text_value(modalities[i].name().to_owned());
        let ghost before = items@;
        items.push(value);
        assert(values_of(items@) =~= modalities@.take(i + 1).map_values(
            |m: Modality| modality_json(m),
        )) by {
            let target = modalities@.take(i + 1).map_values(|m: Modality| modality_json(m));
            assert(value_of(value) == modality_json(modalities@[i as int]));
            assert(values_of(items@).len() == target.len());
            assert forall|k: int| 0 <= k < i + 1 implies values_of(items@)[k] == target[k] by {
                if k < i {
                    assert(values_of(before)[k] == modality_json(modalities@.take(i as int)[k]));
                    assert(items@[k] == before[k]);
                }
            }
        }
        i += 1;
    }
    assert(modalities@.take(i as int) =~= modalities@);
    array_value(items)
}

/// Reads a list of modalities from its wire form.
pub fn modalities_from_value(v: &serde_json::Value) -> (r: Option<Vec<Modality>>)
    ensures
        r matches Some(ms) ==> modalities_of(value_of(*v)) == Some(ms@),
        r is None ==> modalities_of(value_of(*v)) is None,
{
    let items = match v.as_array() {
        Some(items) => items,
        None => {
            return None;
        },
    };
    let ghost models = values_of(items@);
    let mut out: Vec<Modality> = Vec::new();
    let mut i: usize = 0;
    while i < items.len()
        invariant
            i <= items.len(),
            models == values_of(items@),
            value_of(*v) == JsonModel::Array(models),
            out@.len() == i,
            forall|k: int| 0 <= k < i ==> modality_of(#[trigger] models[k]) == Some(out@[k]),
        decreases items.len() - i,
    {
        let found = match items[i].as_str() {
            Some(name) => Modality::from_name(name),
            None => None,
        };
        assert(found == modality_of(models[i as int]));
        match found {
            Some(m) => {
                out.push(m);
            },
            None => {
                assert(modality_of(models[i as int]) is None);
                return None;
            },
        }
        i += 1;
    }
    assert(out@ =~= models.map_values(|j: JsonModel| modality_of(j).unwrap()));
    Some(out)
}

/// The wire form of a list of tools.
pub fn tools_to_value(tools: &Vec<ToolDefinition>) -> (r: serde_json::Value)
    ensures
        value_of(r) == tools_json(tool_models(tools@)),
{
    let mut items: Vec<serde_json::Value> = Vec::new();
    let mut i: usize = 0;
    while i < tools.len()
        invariant
            i <= tools.len(),
            items@.len() == i,
            values_of(items@) == tool_models(tools@.take(i as int)).map_values(
                |t: ToolModel| tool_json(t),
            ),
        decreases tools.len() - i,
    {
        let value = tools[i].to_value();
        let ghost before = items@;
        items.push(value);
        assert(values_of(items@) =~= tool_models(tools@.take(i + 1)).map_values(
            |t: ToolModel| tool_json(t),
        )) by {
            let target = tool_models(tools@.take(i + 1)).map_values(|t: ToolModel| tool_json(t));
            assert(value_of(value) == tool_json(tools@[i as int]@));
            assert(values_of(items@).len() == target.len());
            assert forall|k: int| 0 <= k < i + 1 implies values_of(items@)[k] == target[k] by {
                if k < i {
                    assert(values_of(before)[k] == tool_json(tool_models(tools@.take(i as int))[k]));
                    assert(items@[k] == before[k]);
                }
            }
        }
        i += 1;
    }
    assert(tools@.take(i as int) =~= tools@);
    array_value(items)
}

/// Reads a list of tools from its wire form.
pub fn tools_from_value(v: &serde_json::Value) -> (r: Option<Vec<ToolDefinition>>)
    ensures
        r matches Some(ts) ==> tools_of(value_of(*v)) == Some(tool_models(ts@)),
        r is None ==> tools_of(value_of(*v)) is None,
{
    let items = match v.as_array() {
        Some(items) => items,
        None => {
            return None;
        },
    };
    let ghost models = values_of(items@);
    let mut out: Vec<ToolDefinition> = Vec::new();
    let mut i: usize = 0;
    while i < items.len()
        invariant
            i <= items.len(),
            models == values_of(items@),
            value_of(*v) == JsonModel::Array(models),
            out@.len() == i,
            forall|k: int| 0 <= k < i ==> tool_of(#[trigger] models[k]) == Some(out@[k]@),
        decreases items.len() - i,
    {
        match ToolDefinition::from_value(&items[i]) {
            Some(t) => {
                out.push(t);
            },
            None => {
                assert(tool_of(models[i as int]) is None);
                return None;
            },
        }
        i += 1;
    }
    assert(tool_models(out@) =~= models.map_values(|j: JsonModel| tool_of(j).unwrap()));
    Some(out)
}

/// What a session configuration holds.
pub struct SessionModel {
    pub modalities: Option<Seq<Modality>>,
    pub instructions: Option<Seq<char>>,
    pub voice: Option<Seq<char>>,
    pub turn_detection: Option<TurnDetectionModel>,
    pub input_audio_format: Option<AudioFormat>,
    pub output_audio_format: Option<AudioFormat>,
    pub input_audio_transcription: Option<Seq<char>>,
    pub tools: Option<Seq<ToolModel>>,
    pub temperature: Option<NumberModel>,
    pub speed: Option<NumberModel>,
}

impl SessionModel {
    /// The configuration with nothing set.
    pub open spec fn unset() -> SessionModel {
        SessionModel {
            modalities: None,
            instructions: None,
            voice: None,
            turn_detection: None,
            input_audio_format: None,
            output_audio_format: None,
            input_audio_transcription: None,
            tools: None,
            temperature: None,
            speed: None,
        }
    }
}

/// The fields of a session configuration on the wire, in the order in which
/// they are written. A field that is not set is left out.
pub open spec fn session_fields(s: SessionModel) -> Seq<(Seq<char>, Option<JsonModel>)> {
    seq![
        ("modalities"@, written(s.modalities, |ms: Seq<Modality>| modalities_json(ms))),
        ("instructions"@, written(s.instructions, |t: Seq<char>| JsonModel::Text(t))),
        ("voice"@, written(s.voice, |t: Seq<char>| JsonModel::Text(t))),
        ("turn_detection"@, written(s.turn_detection, |t: TurnDetectionModel| turn_detection_json(t))),
        ("input_audio_format"@, written(s.input_audio_format, |f: AudioFormat| format_json(f))),
        ("output_audio_format"@, written(s.output_audio_format, |f: AudioFormat| format_json(f))),
        (
            "input_audio_transcription"@,
            written(s.input_audio_transcription, |m: Seq<char>| transcription_json(m)),
        ),
        ("tools"@, written(s.tools, |ts: Seq<ToolModel>| tools_json(ts))),
        ("temperature"@, written(s.temperature, |n: NumberModel| JsonModel::Number(n))),
        ("speed"@, written(s.speed, |n: NumberModel| JsonModel::Number(n))),
    ]
}

/// The wire form of a session configuration.
pub open spec fn session_json(s: SessionModel) -> JsonModel {
    JsonModel::Object(present(session_fields(s)))
}

/// The session configuration that a value stands for: an object whose known
/// members, where they are there and not null, have the right shape.
pub open spec fn session_of(json: JsonModel) -> Option<SessionModel> {
    let modalities = optional(field_of(json, "modalities"@), |j: JsonModel| modalities_of(j));
    let instructions = optional(field_of(json, "instructions"@), |j: JsonModel| text_of(j));
    let voice = optional(field_of(json, "voice"@), |j: JsonModel| text_of(j));
    let turn_detection = optional(
        field_of(json, "turn_detection"@),
        |j: JsonModel| turn_detection_of(j),
    );
    let input_format = optional(field_of(json, "input_audio_format"@), |j: JsonModel| format_of(j));
    let output_format = optional(
        field_of(json, "output_audio_format"@),
        |j: JsonModel| format_of(j),
    );
    let transcription = optional(
        field_of(json, "input_audio_transcription"@),
        |j: JsonModel| transcription_of(j),
    );
    let tools = optional(field_of(json, "tools"@), |j: JsonModel| tools_of(j));
    let temperature = optional(field_of(json, "temperature"@), |j: JsonModel| number_of(j));
    let speed = optional(field_of(json, "speed"@), |j: JsonModel| number_of(j));
    if json is Object && modalities is Some && instructions is Some && voice is Some
        && turn_detection is Some && input_format is Some && output_format is Some
        && transcription is Some && tools is Some && temperature is Some && speed is Some {
        Some(
            SessionModel {
                modalities: modalities.unwrap(),
                instructions: instructions.unwrap(),
                voice: voice.unwrap(),
                turn_detection: turn_detection.unwrap(),
                input_audio_format: input_format.unwrap(),
                output_audio_format: output_format.unwrap(),
                input_audio_transcription: transcription.unwrap(),
                tools: tools.unwrap(),
                temperature: temperature.unwrap(),
                speed: speed.unwrap(),
            },
        )
    } else {
        None
    }
}

/// The keys of a session configuration, in the order of its fields.
pub open spec fn session_keys() -> Seq<Seq<char>> {
    seq![
        "modalities"@,
        "instructions"@,
        "voice"@,
        "turn_detection"@,
        "input_audio_format"@,
        "output_audio_format"@,
        "input_audio_transcription"@,
        "tools"@,
        "temperature"@,
        "speed"@,
    ]
}

/// The keys of a session configuration differ from one another.
pub proof fn lemma_session_keys(s: SessionModel)
    ensures
        distinct_fields(session_fields(s)),
        session_fields(s).len() == 10,
        forall|i: int| 0 <= i < 10 ==> (#[trigger] session_fields(s)[i]).0 == session_keys()[i],
{
    reveal_strlit("modalities");
    reveal_strlit("instructions");
    reveal_strlit("voice");
    reveal_strlit("turn_detection");
    reveal_strlit("input_audio_format");
    reveal_strlit("output_audio_format");
    reveal_strlit("input_audio_transcription");
    reveal_strlit("tools");
    reveal_strlit("temperature");
    reveal_strlit("speed");
    let keys = session_keys();
    assert(keys[0].len() == 10 && keys[1].len() == 12 && keys[2].len() == 5 && keys[3].len() == 14
        && keys[4].len() == 18 && keys[5].len() == 19 && keys[6].len() == 25 && keys[7].len() == 5
        && keys[8].len() == 11 && keys[9].len() == 5);
    assert(keys[2][0] == 'v' && keys[7][0] == 't' && keys[9][0] == 's');
    let fields = session_fields(s);
    assert forall|i: int, j: int| 0 <= i < j < fields.len() implies (#[trigger] fields[i]).0 != (
    #[trigger] fields[j]).0 by {
        assert(fields[i].0 == keys[i] && fields[j].0 == keys[j]);
    }
}

/// A session configuration. A field that is `None` is not sent, and the far
/// end keeps what it had for it.
#[derive(Debug, Clone, PartialEq)]
pub struct Session {
    /// The kinds of output wanted: text, audio or both.
    pub modalities: Option<Vec<Modality>>,
    /// The system prompt.
    pub instructions: Option<String>,
    /// The voice of the far end.
    pub voice: Option<String>,
    /// Automatic turn detection.
    pub turn_detection: Option<TurnDetection>,
    /// The sample format of the audio sent.
    pub input_audio_format: Option<AudioFormat>,
    /// The sample format of the audio received.
    pub output_audio_format: Option<AudioFormat>,
    /// The model that transcribes the audio sent.
    pub input_audio_transcription: Option<InputAudioTranscription>,
    /// The tools that the far end may call.
    pub tools: Option<Vec<ToolDefinition>>,
    /// The sampling temperature.
    pub temperature: Option<Number>,
    /// The playback speed.
    pub speed: Option<Number>,
}

impl View for Session {
    type V = SessionModel;

    open spec fn view(&self) -> SessionModel {
        SessionModel {
            modalities: match self.modalities {
                Some(ms) => Some(ms@),
                None => None,
            },
            instructions: match self.instructions {
                Some(t) => Some(t@),
                None => None,
            },
            voice: match self.voice {
                Some(t) => Some(t@),
                None => None,
            },
            turn_detection: match self.turn_detection {
                Some(t) => Some(t@),
                None => None,
            },
            input_audio_format: self.input_audio_format,
            output_audio_format: self.output_audio_format,
            input_audio_transcription: match self.input_audio_transcription {
                Some(t) => Some(t@),
                None => None,
            },
            tools: match self.tools {
                Some(ts) => Some(tool_models(ts@)),
                None => None,
            },
            temperature: match self.temperature {
                Some(n) => Some(n@),
                None => None,
            },
            speed: match self.speed {
                Some(n) => Some(n@),
                None => None,
            },
        }
    }
}

impl Default for Session {
    fn default() -> (r: Self)
        ensures
            r@ == SessionModel::unset(),
    {
        Session {
            modalities: None,
            instructions: None,
            voice: None,
            turn_detection: None,
            input_audio_format: None,
            output_audio_format: None,
            input_audio_transcription: None,
            tools: None,
            temperature: None,
            speed: None,
        }
    }
}

impl Session {
    /// The configuration with nothing set.
    pub fn new() -> (r: Self)
        ensures
            r@ == SessionModel::unset(),
    {
        Session::default()
    }

    /// Sets the voice.
    pub fn voice(self, voice: &str) -> (r: Self)
        ensures
            r@ == (SessionModel { voice: Some(voice@), ..self@ }),
    {
        let mut this = self;
        this.voice = Some(voice.to_owned());
        this
    }

    /// Sets the system prompt.
    pub fn instructions(self, instructions: &str) -> (r: Self)
        ensures
            r@ == (SessionModel { instructions: Some(instructions@), ..self@ }),
    {
        let mut this = self;
        this.instructions = Some(instructions.to_owned());
        this
    }

    /// Sets automatic turn detection.
    pub fn turn_detection(self, cfg: TurnDetection) -> (r: Self)
        ensures
            r@ == (SessionModel { turn_detection: Some(cfg@), ..self@ }),
    {
        let mut this = self;
        this.turn_detection = Some(cfg);
        this
    }

    /// Sets the sample format of the audio sent.
    pub fn input_audio_format(self, format: AudioFormat) -> (r: Self)
        ensures
            r@ == (SessionModel { input_audio_format: Some(format), ..self@ }),
    {
        let mut this = self;
        this.input_audio_format = Some(format);
        this
    }

    /// Sets the sample format of the audio received.
    pub fn output_audio_format(self, format: AudioFormat) -> (r: Self)
        ensures
            r@ == (SessionModel { output_audio_format: Some(format), ..self@ }),
    {
        let mut this = self;
        this.output_audio_format = Some(format);
        this
    }

    /// Sets the kinds of output wanted.
    pub fn modalities(self, arr: Vec<Modality>) -> (r: Self)
        ensures
            r@ == (SessionModel { modalities: Some(arr@), ..self@ }),
    {
        let mut this = self;
        this.modalities = Some(arr);
        this
    }

    /// Sets the model that transcribes the audio sent.
    pub fn input_audio_transcription(self, transcription: InputAudioTranscription) -> (r: Self)
        ensures
            r@ == (SessionModel { input_audio_transcription: Some(transcription@), ..self@ }),
    {
        let mut this = self;
        this.input_audio_transcription = Some(transcription);
        this
    }

    /// Sets the tools that the far end may call.
    pub fn tools(self, tools: Vec<ToolDefinition>) -> (r: Self)
        ensures
            r@ == (SessionModel { tools: Some(tool_models(tools@)), ..self@ }),
    {
        let mut this = self;
        this.tools = Some(tools);
        this
    }

    /// Sets the sampling temperature.
    pub fn temperature(self, temperature: Number) -> (r: Self)
        ensures
            r@ == (SessionModel { temperature: Some(temperature@), ..self@ }),
    {
        let mut this = self;
        this.temperature = Some(temperature);
        this
    }

    /// Sets the playback speed.
    pub fn speed(self, speed: Number) -> (r: Self)
        ensures
            r@ == (SessionModel { speed: Some(speed@), ..self@ }),
    {
        let mut this = self;
        this.speed = Some(speed);
        this
    }

    /// The wire form of the configuration: an object with one member for
    /// each field that is set, in the order of the fields.
    pub fn to_value(&self) -> (r: serde_json::Value)
        ensures
            value_of(r) == session_json(self@),
    {
        let ghost fields = session_fields(self@);
        let mut members: Vec<(String, serde_json::Value)> = Vec::new();
        assert(members_of(members@) =~= present(fields.take(0)));
        let modalities = match &self.modalities {
            Some(ms) => Some(modalities_to_value(ms)),
            None => None,
        };
        put(&mut members, "modalities", modalities);
        assert(members_of(members@) == present(fields.take(1))) by {
            assert(fields.take(1).drop_last() =~= fields.take(0));
        }
        let instructions = match &self.instructions {
            Some(t) => Some(text_value(t.clone())),
            None => None,
        };
        put(&mut members, "instructions", instructions);
        assert(members_of(members@) == present(fields.take(2))) by {
            assert(fields.take(2).drop_last() =~= fields.take(1));
        }
        let voice = match &self.voice {
            Some(t) => Some(text_value(t.clone())),
            None => None,
        };
        put(&mut members, "voice", voice);
        assert(members_of(members@) == present(fields.take(3))) by {
            assert(fields.take(3).drop_last() =~= fields.take(2));
        }
        let turn_detection = match &self.turn_detection {
            Some(t) => Some(t.to_value()),
            None => None,
        };
        put(&mut members, "turn_detection", turn_detection);
        assert(members_of(members@) == present(fields.take(4))) by {
            assert(fields.take(4).drop_last() =~= fields.take(3));
        }
        let input_format = match &self.input_audio_format {
            Some(f) => Some(text_value(f.name().to_owned())),
            None => None,
        };
        put(&mut members, "input_audio_format", input_format);
        assert(members_of(members@) == present(fields.take(5))) by {
            assert(fields.take(5).drop_last() =~= fields.take(4));
        }
        let output_format = match &self.output_audio_format {
            Some(f) => Some(text_value(f.name().to_owned())),
            None => None,
        };
        put(&mut members, "output_audio_format", output_format);
        assert(members_of(members@) == present(fields.take(6))) by {
            assert(fields.take(6).drop_last() =~= fields.take(5));
        }
        let transcription = match &self.input_audio_transcription {
            Some(t) => Some(t.to_value()),
            None => None,
        };
        put(&mut members, "input_audio_transcription", transcription);
        assert(members_of(members@) == present(fields.take(7))) by {
            assert(fields.take(7).drop_last() =~= fields.take(6));
        }
        let tools = match &self.tools {
            Some(ts) => Some(tools_to_value(ts)),
            None => None,
        };
        put(&mut members, "tools", tools);
        assert(members_of(members@) == present(fields.take(8))) by {
            assert(fields.take(8).drop_last() =~= fields.take(7));
        }
        let temperature = match &self.temperature {
            Some(n) => Some(n.to_value()),
            None => None,
        };
        put(&mut members, "temperature", temperature);
        assert(members_of(members@) == present(fields.take(9))) by {
            assert(fields.take(9).drop_last() =~= fields.take(8));
        }
        let speed = match &self.speed {
            Some(n) => Some(n.to_value()),
            None => None,
        };
        put(&mut members, "speed", speed);
        assert(members_of(members@) == present(fields)) by {
            assert(fields.take(10).drop_last() =~= fields.take(9));
            assert(fields.take(10) =~= fields);
        }
        proof {
            lemma_session_keys(self@);
            lemma_present_reads_back(fields);
        }
        object_value(members)
    }

    /// Reads a configuration from its wire form.
    pub fn from_value(v: &serde_json::Value) -> (r: Option<Session>)
        ensures
            r matches Some(s) ==> session_of(value_of(*v)) == Some(s@),
            r is None ==> session_of(value_of(*v)) is None,
    {
        if !v.is_object() {
            return None;
        }
        let modalities = match field(v, "modalities") {
            None => None,
            Some(m) => match modalities_from_value(m) {
                Some(ms) => Some(ms),
                None => {
                    return None;
                },
            },
        };
        let instructions = match read_text(field(v, "instructions")) {
            Some(t) => t,
            None => {
                return None;
            },
        };
        let voice = match read_text(field(v, "voice")) {
            Some(t) => t,
            None => {
                return None;
            },
        };
        let turn_detection = match field(v, "turn_detection") {
            None => None,
            Some(m) => match TurnDetection::from_value(m) {
                Some(t) => Some(t),
                None => {
                    return None;
                },
            },
        };
        let input_audio_format = match field(v, "input_audio_format") {
            None => None,
            Some(m) => match m.as_str() {
                Some(name) => match AudioFormat::from_name(name) {
                    Some(f) => Some(f),
                    None => {
                        return None;
                    },
                },
                None => {
                    return None;
                },
            },
        };
        let output_audio_format = match field(v, "output_audio_format") {
            None => None,
            Some(m) => match m.as_str() {
                Some(name) => match AudioFormat::from_name(name) {
                    Some(f) => Some(f),
                    None => {
                        return None;
                    },
                },
                None => {
                    return None;
                },
            },
        };
        let input_audio_transcription = match field(v, "input_audio_transcription") {
            None => None,
            Some(m) => match InputAudioTranscription::from_value(m) {
                Some(t) => Some(t),
                None => {
                    return None;
                },
            },
        };
        let tools = match field(v, "tools") {
            None => None,
            Some(m) => match tools_from_value(m) {
                Some(ts) => Some(ts),
                None => {
                    return None;
                },
            },
        };
        let temperature = match read_number(field(v, "temperature")) {
            Some(n) => n,
            None => {
                return None;
            },
        };
        let speed = match read_number(field(v, "speed")) {
            Some(n) => n,
            None => {
                return None;
            },
        };
        Some(
            Session {
                modalities,
                instructions,
                voice,
                turn_detection,
                input_audio_format,
                output_audio_format,
                input_audio_transcription,
                tools,
                temperature,
                speed,
            },
        )
    }
}

/// A list of modalities reads back from its wire form as it was.
pub proof fn lemma_modalities_round_trip(ms: Seq<Modality>)
    ensures
        modalities_of(modalities_json(ms)) == Some(ms),
{
    reveal_strlit("text");
    reveal_strlit("audio");
    let items = ms.map_values(|m: Modality| modality_json(m));
    assert forall|i: int| 0 <= i < items.len() implies modality_of(#[trigger] items[i]) == Some(
        ms[i],
    ) by {
        assert("text"@.len() == 4 && "audio"@.len() == 5);
    }
    assert(items.map_values(|j: JsonModel| modality_of(j).unwrap()) =~= ms);
}

/// A list of tools reads back from its wire form as it was.
pub proof fn lemma_tools_round_trip(ts: Seq<ToolModel>)
    ensures
        tools_of(tools_json(ts)) == Some(ts),
{
    let items = ts.map_values(|t: ToolModel| tool_json(t));
    assert forall|i: int| 0 <= i < items.len() implies tool_of(#[trigger] items[i]) == Some(ts[i]) by {
        lemma_tool_round_trip(ts[i]);
    }
    assert(items.map_values(|j: JsonModel| tool_of(j).unwrap()) =~= ts);
}

/// A session configuration reads back from its wire form as it was: the
/// fields that were set come back with what they held, and no other field
/// comes back set.
pub proof fn lemma_session_round_trip(s: SessionModel)
    ensures
        session_of(session_json(s)) == Some(s),
{
    let fields = session_fields(s);
    lemma_session_keys(s);
    lemma_present_reads_back(fields);
    let json = session_json(s);
    assert(forall|i: int| 0 <= i < 10 ==> member_of(json, session_keys()[i]) == (#[trigger] fields[i]).1);
    assert(member_of(json, "modalities"@) == fields[0].1);
    assert(member_of(json, "instructions"@) == fields[1].1);
    assert(member_of(json, "voice"@) == fields[2].1);
    assert(member_of(json, "turn_detection"@) == fields[3].1);
    assert(member_of(json, "input_audio_format"@) == fields[4].1);
    assert(member_of(json, "output_audio_format"@) == fields[5].1);
    assert(member_of(json, "input_audio_transcription"@) == fields[6].1);
    assert(member_of(json, "tools"@) == fields[7].1);
    assert(member_of(json, "temperature"@) == fields[8].1);
    assert(member_of(json, "speed"@) == fields[9].1);
    if s.modalities is Some {
        lemma_modalities_round_trip(s.modalities.unwrap());
    }
    if s.turn_detection is Some {
        lemma_turn_detection_round_trip(s.turn_detection.unwrap());
    }
    if s.input_audio_transcription is Some {
        lemma_transcription_round_trip(s.input_audio_transcription.unwrap());
    }
    if s.tools is Some {
        lemma_tools_round_trip(s.tools.unwrap());
    }
    reveal_strlit("pcm16");
}

} // verus!
