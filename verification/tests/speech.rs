use rig_extra::elevenlabs::{
    texts_from_value, texts_to_value, ApplyTextNormalization, AudioGenerationModel,
    AudioGenerationRequest, AudioOutputFormat, ElevenLabsParams, RequestError, VoiceSettings,
    ELEVEN_FLASH_V2, ELEVEN_MULTILINGUAL_V2, ELEVEN_TURBO_V2_5, ELEVEN_V3, SCRIBE_V1,
};
use rig_extra::json::Number;

fn parse(text: &str) -> serde_json::Value {
    serde_json::from_str(text).unwrap()
}

const ALL: [(AudioOutputFormat, &str); 18] = [
    (AudioOutputFormat::Mp3_22050_32, "mp3_22050_32"),
    (AudioOutputFormat::Mp3_44100_32, "mp3_44100_32"),
    (AudioOutputFormat::Mp3_44100_64, "mp3_44100_64"),
    (AudioOutputFormat::Mp3_44100_96, "mp3_44100_96"),
    (AudioOutputFormat::Mp3_44100_128, "mp3_44100_128"),
    (AudioOutputFormat::Mp3_44100_192, "mp3_44100_192"),
    (AudioOutputFormat::Pcm8000, "pcm_8000"),
    (AudioOutputFormat::Pcm16000, "pcm_16000"),
    (AudioOutputFormat::Pcm22050, "pcm_22050"),
    (AudioOutputFormat::Pcm44100, "pcm_44100"),
    (AudioOutputFormat::Pcm48000, "pcm_48000"),
    (AudioOutputFormat::Ulaw8000, "ulaw_8000"),
    (AudioOutputFormat::Alaw8000, "alaw_8000"),
    (AudioOutputFormat::Opus4800032, "opus_48000_32"),
    (AudioOutputFormat::Opus4800064, "opus_48000_64"),
    (AudioOutputFormat::Opus4800096, "opus_48000_96"),
    (AudioOutputFormat::Opus48000128, "opus_48000_128"),
    (AudioOutputFormat::Opus48000192, "opus_48000_192"),
];

#[test]
fn output_formats_have_their_wire_names() {
    for (format, name) in ALL {
        assert_eq!(format.name(), name);
        assert_eq!(AudioOutputFormat::from_name(name), Some(format));
    }
    assert_eq!(AudioOutputFormat::from_name("flac"), None);
    assert_eq!(AudioOutputFormat::default(), AudioOutputFormat::Mp3_22050_32);
}

#[test]
fn text_normalization_names() {
    assert_eq!(ApplyTextNormalization::Auto.name(), "Auto");
    assert_eq!(ApplyTextNormalization::On.name(), "On");
    assert_eq!(ApplyTextNormalization::Off.name(), "Off");
    assert_eq!(ApplyTextNormalization::from_name("Off"), Some(ApplyTextNormalization::Off));
    assert_eq!(ApplyTextNormalization::from_name("off"), None);
    assert_eq!(ApplyTextNormalization::default(), ApplyTextNormalization::Auto);
}

#[test]
fn model_names() {
    assert_eq!(ELEVEN_MULTILINGUAL_V2, "eleven_multilingual_v2");
    assert_eq!(ELEVEN_V3, "eleven_v3");
    assert_eq!(ELEVEN_FLASH_V2, "eleven_flash_v2");
    assert_eq!(ELEVEN_TURBO_V2_5, "eleven_turbo_v2_5");
    assert_eq!(SCRIBE_V1, "scribe_v1");
}

#[test]
fn default_params_write_the_format_alone() {
    assert_eq!(ElevenLabsParams::default().to_value().to_string(), r#"{"output_format":"mp3_22050_32"}"#);
    assert_eq!(ElevenLabsParams::default().into_json(), parse(r#"{"output_format":"mp3_22050_32"}"#));
}

#[test]
fn voice_settings_write_every_field() {
    assert_eq!(
        VoiceSettings::default().to_value().to_string(),
        r#"{"stability":null,"use_speaker_boost":null,"similarity_boost":null,"style":null,"speed":null}"#
    );
    let settings = VoiceSettings::from_value(&parse(r#"{"stability":0.5,"use_speaker_boost":true}"#)).unwrap();
    assert_eq!(settings.stability.as_ref().unwrap().to_text(), "0.5");
    assert_eq!(settings.use_speaker_boost, Some(true));
    assert_eq!(settings.speed, None);
    assert_eq!(VoiceSettings::from_value(&parse(r#"{"style":"loud"}"#)), None);
    assert_eq!(VoiceSettings::from_value(&parse(r#"7"#)), None);
}

#[test]
fn params_round_trip() {
    let params = ElevenLabsParams {
        output_format: AudioOutputFormat::Pcm16000,
        language_code: Some("en".to_string()),
        voice_settings: Some(VoiceSettings::default().with_speed(Number::parse("1.5").unwrap())),
        seed: Some(7),
        previous_text: Some("before".to_string()),
        next_text: Some("after".to_string()),
        previous_request_ids: Some("r0".to_string()),
        next_request_ids: Some(vec!["r2".to_string(), "r3".to_string()]),
        apply_text_normalization: Some(ApplyTextNormalization::On),
        apply_language_text_normalization: Some(false),
    };
    let text = params.to_value().to_string();
    assert_eq!(
        text,
        r#"{"output_format":"pcm_16000","language_code":"en","voice_settings":{"stability":null,"use_speaker_boost":null,"similarity_boost":null,"style":null,"speed":1.5},"seed":7,"previous_text":"before","next_text":"after","previous_request_ids":"r0","next_request_ids":["r2","r3"],"apply_text_normalization":"On","apply_language_text_normalization":false}"#
    );
    assert_eq!(ElevenLabsParams::from_value(&parse(&text)), Some(params));
}

#[test]
fn params_need_an_output_format() {
    assert_eq!(ElevenLabsParams::from_value(&parse(r#"{}"#)), None);
    assert_eq!(ElevenLabsParams::from_value(&parse(r#"{"output_format":null}"#)), None);
    assert_eq!(ElevenLabsParams::from_value(&parse(r#"{"output_format":"wav"}"#)), None);
    assert_eq!(ElevenLabsParams::from_value(&parse(r#"{"output_format":"pcm_8000","seed":-1}"#)), None);
    assert_eq!(ElevenLabsParams::from_value(&parse(r#"{"output_format":"pcm_8000","next_request_ids":["a",1]}"#)), None);
    assert_eq!(ElevenLabsParams::from_value(&parse(r#"{"output_format":"pcm_8000","apply_text_normalization":"Sometimes"}"#)), None);
    assert_eq!(
        ElevenLabsParams::from_value(&parse(r#"{"output_format":"pcm_8000","seed":null,"extra":1}"#)),
        Some(ElevenLabsParams { output_format: AudioOutputFormat::Pcm8000, ..ElevenLabsParams::default() })
    );
}

#[test]
fn lists_of_texts() {
    assert_eq!(texts_to_value(&vec!["a".to_string(), "b".to_string()]), parse(r#"["a","b"]"#));
    assert_eq!(texts_to_value(&vec![]), parse("[]"));
    assert_eq!(texts_from_value(&parse(r#"["a","b"]"#)), Some(vec!["a".to_string(), "b".to_string()]));
    assert_eq!(texts_from_value(&parse(r#"["a",null]"#)), None);
    assert_eq!(texts_from_value(&parse(r#""a""#)), None);
}

#[test]
fn requests_take_the_speed_into_the_voice_settings() {
    let request = AudioGenerationRequest::try_from_parts(
        "eleven_v3",
        "Hello".to_string(),
        "voice_1".to_string(),
        Number::parse("1.25").unwrap(),
        Some(parse(r#"{"output_format":"pcm_44100","voice_settings":{"stability":0.4,"speed":0.9}}"#)),
    )
    .unwrap();
    assert_eq!(request.text, "Hello");
    assert_eq!(request.model_id, "eleven_v3");
    assert_eq!(request.voice_id, "voice_1");
    assert_eq!(
        request.body(),
        r#"{"text":"Hello","model_id":"eleven_v3","voice_id":"voice_1","output_format":"pcm_44100","voice_settings":{"stability":0.4,"use_speaker_boost":null,"similarity_boost":null,"style":null,"speed":1.25}}"#
    );
    assert_eq!(request.path(), "/text-to-speech/voice_1?output_format=\"pcm_44100\"");
}

#[test]
fn requests_without_voice_settings_get_the_speed_alone() {
    let model = AudioGenerationModel::new(ELEVEN_MULTILINGUAL_V2);
    let request = model
        .request("Hi".to_string(), "v".to_string(), Number::from_unsigned(1), Some(parse(r#"{"output_format":"mp3_44100_128"}"#)))
        .unwrap();
    assert_eq!(request.model_id, "eleven_multilingual_v2");
    assert_eq!(request.params.voice_settings, Some(VoiceSettings::default().with_speed(Number::from_unsigned(1))));
    assert_eq!(request.to_value(), parse(&request.body()));
}

#[test]
fn requests_need_their_parameters() {
    let speed = Number::from_unsigned(1);
    assert_eq!(
        AudioGenerationRequest::try_from_parts("m", "t".to_string(), "v".to_string(), speed.clone(), None),
        Err(RequestError::MissingParameters)
    );
    assert_eq!(
        AudioGenerationRequest::try_from_parts("m", "t".to_string(), "v".to_string(), speed.clone(), Some(parse("{}"))),
        Err(RequestError::MalformedParameters)
    );
    assert_eq!(
        AudioGenerationRequest::try_from_parts("m", "t".to_string(), "v".to_string(), speed, Some(parse("[]"))),
        Err(RequestError::MalformedParameters)
    );
    assert_eq!(
        RequestError::MissingParameters.message(),
        "You need to use additional parameters to be able to insert required variables for this provider!"
    );
    assert!(RequestError::MalformedParameters.message().contains("shape"));
}
