//! Requests to a text-to-speech service: the parameters of a generation and
//! their wire form. Sending a request and reading the audio that comes back
//! is done outside the library.

use crate::json::{
    array_value, bool_of, bool_value, distinct_fields, field, field_of, lemma_present_reads_back,
    member, member_of, members_of, null_value, number_of, object_value, optional,
    present, print, printed, put, read_bool, read_number, read_text, read_unsigned, same_text,
    text_of, text_value, unsigned_of, unsigned_value, value_of, values_of, written, JsonModel,
    Number, NumberModel,
};
use vstd::prelude::*;
use vstd::string::StringExecFns;

verus! {

/// The multilingual model, second version.
pub const ELEVEN_MULTILINGUAL_V2: &'static str = "eleven_multilingual_v2";

/// The third model.
pub const ELEVEN_V3: &'static str = "eleven_v3";

/// The fast model, second version.
pub const ELEVEN_FLASH_V2: &'static str = "eleven_flash_v2";

/// The turbo model, version 2.5.
pub const ELEVEN_TURBO_V2_5: &'static str = "eleven_turbo_v2_5";

/// The transcription model.
pub const SCRIBE_V1: &'static str = "scribe_v1";

/// The format of the audio that comes back.
#[derive(Debug, Clone, Copy, PartialEq, Eq, Structural)]
pub enum AudioOutputFormat {
    /// MP3 at 22.05 kHz, 32 kbit/s.
    Mp3_22050_32,
    /// MP3 at 44.1 kHz, 32 kbit/s.
    Mp3_44100_32,
    /// MP3 at 44.1 kHz, 64 kbit/s.
    Mp3_44100_64,
    /// MP3 at 44.1 kHz, 96 kbit/s.
    Mp3_44100_96,
    /// MP3 at 44.1 kHz, 128 kbit/s.
    Mp3_44100_128,
    /// MP3 at 44.1 kHz, 192 kbit/s.
    Mp3_44100_192,
    /// PCM at 8 kHz.
    Pcm8000,
    /// PCM at 16 kHz.
    Pcm16000,
    /// PCM at 22.05 kHz.
    Pcm22050,
    /// PCM at 44.1 kHz.
    Pcm44100,
    /// PCM at 48 kHz.
    Pcm48000,
    /// u-law at 8 kHz.
    Ulaw8000,
    /// A-law at 8 kHz.
    Alaw8000,
    /// Opus at 48 kHz, 32 kbit/s.
    Opus4800032,
    /// Opus at 48 kHz, 64 kbit/s.
    Opus4800064,
    /// Opus at 48 kHz, 96 kbit/s.
    Opus4800096,
    /// Opus at 48 kHz, 128 kbit/s.
    Opus48000128,
    /// Opus at 48 kHz, 192 kbit/s.
    Opus48000192,
}

impl Default for AudioOutputFormat {
    fn default() -> (r: Self)
        ensures
            r == AudioOutputFormat::Mp3_22050_32,
    {
        AudioOutputFormat::Mp3_22050_32
    }
}

impl AudioOutputFormat {
    /// The name of the format on the wire.
    pub open spec fn wire_name(self) -> Seq<char> {
        match self {
            AudioOutputFormat::Mp3_22050_32 => "mp3_22050_32"@,
            AudioOutputFormat::Mp3_44100_32 => "mp3_44100_32"@,
            AudioOutputFormat::Mp3_44100_64 => "mp3_44100_64"@,
            AudioOutputFormat::Mp3_44100_96 => "mp3_44100_96"@,
            AudioOutputFormat::Mp3_44100_128 => "mp3_44100_128"@,
            AudioOutputFormat::Mp3_44100_192 => "mp3_44100_192"@,
            AudioOutputFormat::Pcm8000 => "pcm_8000"@,
            AudioOutputFormat::Pcm16000 => "pcm_16000"@,
            AudioOutputFormat::Pcm22050 => "pcm_22050"@,
            AudioOutputFormat::Pcm44100 => "pcm_44100"@,
            AudioOutputFormat::Pcm48000 => "pcm_48000"@,
            AudioOutputFormat::Ulaw8000 => "ulaw_8000"@,
            AudioOutputFormat::Alaw8000 => "alaw_8000"@,
            AudioOutputFormat::Opus4800032 => "opus_48000_32"@,
            AudioOutputFormat::Opus4800064 => "opus_48000_64"@,
            AudioOutputFormat::Opus4800096 => "opus_48000_96"@,
            AudioOutputFormat::Opus48000128 => "opus_48000_128"@,
            AudioOutputFormat::Opus48000192 => "opus_48000_192"@,
        }
    }

    /// The format that a wire name stands for.
    pub open spec fn named(name: Seq<char>) -> Option<AudioOutputFormat> {
        if name == "mp3_22050_32"@ {
            Some(AudioOutputFormat::Mp3_22050_32)
        } else if name == "mp3_44100_32"@ {
            Some(AudioOutputFormat::Mp3_44100_32)
        } else if name == "mp3_44100_64"@ {
            Some(AudioOutputFormat::Mp3_44100_64)
        } else if name == "mp3_44100_96"@ {
            Some(AudioOutputFormat::Mp3_44100_96)
        } else if name == "mp3_44100_128"@ {
            Some(AudioOutputFormat::Mp3_44100_128)
        } else if name == "mp3_44100_192"@ {
            Some(AudioOutputFormat::Mp3_44100_192)
        } else if name == "pcm_8000"@ {
            Some(AudioOutputFormat::Pcm8000)
        } else if name == "pcm_16000"@ {
            Some(AudioOutputFormat::Pcm16000)
        } else if name == "pcm_22050"@ {
            Some(AudioOutputFormat::Pcm22050)
        } else if name == "pcm_44100"@ {
            Some(AudioOutputFormat::Pcm44100)
        } else if name == "pcm_48000"@ {
            Some(AudioOutputFormat::Pcm48000)
        } else if name == "ulaw_8000"@ {
            Some(AudioOutputFormat::Ulaw8000)
        } else if name == "alaw_8000"@ {
            Some(AudioOutputFormat::Alaw8000)
        } else if name == "opus_48000_32"@ {
            Some(AudioOutputFormat::Opus4800032)
        } else if name == "opus_48000_64"@ {
            Some(AudioOutputFormat::Opus4800064)
        } else if name == "opus_48000_96"@ {
            Some(AudioOutputFormat::Opus4800096)
        } else if name == "opus_48000_128"@ {
            Some(AudioOutputFormat::Opus48000128)
        } else if name == "opus_48000_192"@ {
            Some(AudioOutputFormat::Opus48000192)
        } else {
            None
        }
    }

    /// The name of the format on the wire.
    pub fn name(&self) -> (r: &'static str)
        ensures
            r@ == self.wire_name(),
    {
        match self {
            AudioOutputFormat::Mp3_22050_32 => "mp3_22050_32",
            AudioOutputFormat::Mp3_44100_32 => "mp3_44100_32",
            AudioOutputFormat::Mp3_44100_64 => "mp3_44100_64",
            AudioOutputFormat::Mp3_44100_96 => "mp3_44100_96",
            AudioOutputFormat::Mp3_44100_128 => "mp3_44100_128",
            AudioOutputFormat::Mp3_44100_192 => "mp3_44100_192",
            AudioOutputFormat::Pcm8000 => "pcm_8000",
            AudioOutputFormat::Pcm16000 => "pcm_16000",
            AudioOutputFormat::Pcm22050 => "pcm_22050",
            AudioOutputFormat::Pcm44100 => "pcm_44100",
            AudioOutputFormat::Pcm48000 => "pcm_48000",
            AudioOutputFormat::Ulaw8000 => "ulaw_8000",
            AudioOutputFormat::Alaw8000 => "alaw_8000",
            AudioOutputFormat::Opus4800032 => "opus_48000_32",
            AudioOutputFormat::Opus4800064 => "opus_48000_64",
            AudioOutputFormat::Opus4800096 => "opus_48000_96",
            AudioOutputFormat::Opus48000128 => "opus_48000_128",
            AudioOutputFormat::Opus48000192 => "opus_48000_192",
        }
    }

    /// The format that a wire name stands for.
    pub fn from_name(name: &str) -> (r: Option<AudioOutputFormat>)
        ensures
            r == AudioOutputFormat::named(name@),
    {
        if same_text(name, "mp3_22050_32") {
            Some(AudioOutputFormat::Mp3_22050_32)
        } else if same_text(name, "mp3_44100_32") {
            Some(AudioOutputFormat::Mp3_44100_32)
        } else if same_text(name, "mp3_44100_64") {
            Some(AudioOutputFormat::Mp3_44100_64)
        } else if same_text(name, "mp3_44100_96") {
            Some(AudioOutputFormat::Mp3_44100_96)
        } else if same_text(name, "mp3_44100_128") {
            Some(AudioOutputFormat::Mp3_44100_128)
        } else if same_text(name, "mp3_44100_192") {
            Some(AudioOutputFormat::Mp3_44100_192)
        } else if same_text(name, "pcm_8000") {
            Some(AudioOutputFormat::Pcm8000)
        } else if same_text(name, "pcm_16000") {
            Some(AudioOutputFormat::Pcm16000)
        } else if same_text(name, "pcm_22050") {
            Some(AudioOutputFormat::Pcm22050)
        } else if same_text(name, "pcm_44100") {
            Some(AudioOutputFormat::Pcm44100)
        } else if same_text(name, "pcm_48000") {
            Some(AudioOutputFormat::Pcm48000)
        } else if same_text(name, "ulaw_8000") {
            Some(AudioOutputFormat::Ulaw8000)
        } else if same_text(name, "alaw_8000") {
            Some(AudioOutputFormat::Alaw8000)
        } else if same_text(name, "opus_48000_32") {
            Some(AudioOutputFormat::Opus4800032)
        } else if same_text(name, "opus_48000_64") {
            Some(AudioOutputFormat::Opus4800064)
        } else if same_text(name, "opus_48000_96") {
            Some(AudioOutputFormat::Opus4800096)
        } else if same_text(name, "opus_48000_128") {
            Some(AudioOutputFormat::Opus48000128)
        } else if same_text(name, "opus_48000_192") {
            Some(AudioOutputFormat::Opus48000192)
        } else {
            None
        }
    }
}

/// A format comes back from its wire name.
pub proof fn lemma_format_round_trip(format: AudioOutputFormat)
    ensures
        AudioOutputFormat::named(format.wire_name()) == Some(format),
{
    reveal_strlit("mp3_22050_32");
    reveal_strlit("mp3_44100_32");
    reveal_strlit("mp3_44100_64");
    reveal_strlit("mp3_44100_96");
    reveal_strlit("mp3_44100_128");
    reveal_strlit("mp3_44100_192");
    reveal_strlit("pcm_8000");
    reveal_strlit("pcm_16000");
    reveal_strlit("pcm_22050");
    reveal_strlit("pcm_44100");
    reveal_strlit("pcm_48000");
    reveal_strlit("ulaw_8000");
    reveal_strlit("alaw_8000");
    reveal_strlit("opus_48000_32");
    reveal_strlit("opus_48000_64");
    reveal_strlit("opus_48000_96");
    reveal_strlit("opus_48000_128");
    reveal_strlit("opus_48000_192");
    let name = format.wire_name();
    assert(name.len() >= 8);
    assert("mp3_22050_32"@.len() == 12 && "mp3_22050_32"@[0] == 'm' && "mp3_22050_32"@[1] == 'p' && "mp3_22050_32"@[2] == '3' && "mp3_22050_32"@[3] == '_' && "mp3_22050_32"@[4] == '2' && "mp3_22050_32"@[5] == '2' && "mp3_22050_32"@[6] == '0' && "mp3_22050_32"@[7] == '5' && "mp3_22050_32"@[8] == '0' && "mp3_22050_32"@[9] == '_' && "mp3_22050_32"@[10] == '3' && "mp3_22050_32"@[11] == '2');
    assert("mp3_44100_32"@.len() == 12 && "mp3_44100_32"@[0] == 'm' && "mp3_44100_32"@[1] == 'p' && "mp3_44100_32"@[2] == '3' && "mp3_44100_32"@[3] == '_' && "mp3_44100_32"@[4] == '4' && "mp3_44100_32"@[5] == '4' && "mp3_44100_32"@[6] == '1' && "mp3_44100_32"@[7] == '0' && "mp3_44100_32"@[8] == '0' && "mp3_44100_32"@[9] == '_' && "mp3_44100_32"@[10] == '3' && "mp3_44100_32"@[11] == '2');
    assert("mp3_44100_64"@.len() == 12 && "mp3_44100_64"@[0] == 'm' && "mp3_44100_64"@[1] == 'p' && "mp3_44100_64"@[2] == '3' && "mp3_44100_64"@[3] == '_' && "mp3_44100_64"@[4] == '4' && "mp3_44100_64"@[5] == '4' && "mp3_44100_64"@[6] == '1' && "mp3_44100_64"@[7] == '0' && "mp3_44100_64"@[8] == '0' && "mp3_44100_64"@[9] == '_' && "mp3_44100_64"@[10] == '6' && "mp3_44100_64"@[11] == '4');
    assert("mp3_44100_96"@.len() == 12 && "mp3_44100_96"@[0] == 'm' && "mp3_44100_96"@[1] == 'p' && "mp3_44100_96"@[2] == '3' && "mp3_44100_96"@[3] == '_' && "mp3_44100_96"@[4] == '4' && "mp3_44100_96"@[5] == '4' && "mp3_44100_96"@[6] == '1' && "mp3_44100_96"@[7] == '0' && "mp3_44100_96"@[8] == '0' && "mp3_44100_96"@[9] == '_' && "mp3_44100_96"@[10] == '9' && "mp3_44100_96"@[11] == '6');
    assert("mp3_44100_128"@.len() == 13 && "mp3_44100_128"@[0] == 'm' && "mp3_44100_128"@[1] == 'p' && "mp3_44100_128"@[2] == '3' && "mp3_44100_128"@[3] == '_' && "mp3_44100_128"@[4] == '4' && "mp3_44100_128"@[5] == '4' && "mp3_44100_128"@[6] == '1' && "mp3_44100_128"@[7] == '0' && "mp3_44100_128"@[8] == '0' && "mp3_44100_128"@[9] == '_' && "mp3_44100_128"@[10] == '1' && "mp3_44100_128"@[11] == '2' && "mp3_44100_128"@[12] == '8');
    assert("mp3_44100_192"@.len() == 13 && "mp3_44100_192"@[0] == 'm' && "mp3_44100_192"@[1] == 'p' && "mp3_44100_192"@[2] == '3' && "mp3_44100_192"@[3] == '_' && "mp3_44100_192"@[4] == '4' && "mp3_44100_192"@[5] == '4' && "mp3_44100_192"@[6] == '1' && "mp3_44100_192"@[7] == '0' && "mp3_44100_192"@[8] == '0' && "mp3_44100_192"@[9] == '_' && "mp3_44100_192"@[10] == '1' && "mp3_44100_192"@[11] == '9' && "mp3_44100_192"@[12] == '2');
    assert("pcm_8000"@.len() == 8 && "pcm_8000"@[0] == 'p' && "pcm_8000"@[1] == 'c' && "pcm_8000"@[2] == 'm' && "pcm_8000"@[3] == '_' && "pcm_8000"@[4] == '8' && "pcm_8000"@[5] == '0' && "pcm_8000"@[6] == '0' && "pcm_8000"@[7] == '0');
    assert("pcm_16000"@.len() == 9 && "pcm_16000"@[0] == 'p' && "pcm_16000"@[1] == 'c' && "pcm_16000"@[2] == 'm' && "pcm_16000"@[3] == '_' && "pcm_16000"@[4] == '1' && "pcm_16000"@[5] == '6' && "pcm_16000"@[6] == '0' && "pcm_16000"@[7] == '0' && "pcm_16000"@[8] == '0');
    assert("pcm_22050"@.len() == 9 && "pcm_22050"@[0] == 'p' && "pcm_22050"@[1] == 'c' && "pcm_22050"@[2] == 'm' && "pcm_22050"@[3] == '_' && "pcm_22050"@[4] == '2' && "pcm_22050"@[5] == '2' && "pcm_22050"@[6] == '0' && "pcm_22050"@[7] == '5' && "pcm_22050"@[8] == '0');
    assert("pcm_44100"@.len() == 9 && "pcm_44100"@[0] == 'p' && "pcm_44100"@[1] == 'c' && "pcm_44100"@[2] == 'm' && "pcm_44100"@[3] == '_' && "pcm_44100"@[4] == '4' && "pcm_44100"@[5] == '4' && "pcm_44100"@[6] == '1' && "pcm_44100"@[7] == '0' && "pcm_44100"@[8] == '0');
    assert("pcm_48000"@.len() == 9 && "pcm_48000"@[0] == 'p' && "pcm_48000"@[1] == 'c' && "pcm_48000"@[2] == 'm' && "pcm_48000"@[3] == '_' && "pcm_48000"@[4] == '4' && "pcm_48000"@[5] == '8' && "pcm_48000"@[6] == '0' && "pcm_48000"@[7] == '0' && "pcm_48000"@[8] == '0');
    assert("ulaw_8000"@.len() == 9 && "ulaw_8000"@[0] == 'u' && "ulaw_8000"@[1] == 'l' && "ulaw_8000"@[2] == 'a' && "ulaw_8000"@[3] == 'w' && "ulaw_8000"@[4] == '_' && "ulaw_8000"@[5] == '8' && "ulaw_8000"@[6] == '0' && "ulaw_8000"@[7] == '0' && "ulaw_8000"@[8] == '0');
    assert("alaw_8000"@.len() == 9 && "alaw_8000"@[0] == 'a' && "alaw_8000"@[1] == 'l' && "alaw_8000"@[2] == 'a' && "alaw_8000"@[3] == 'w' && "alaw_8000"@[4] == '_' && "alaw_8000"@[5] == '8' && "alaw_8000"@[6] == '0' && "alaw_8000"@[7] == '0' && "alaw_8000"@[8] == '0');
    assert("opus_48000_32"@.len() == 13 && "opus_48000_32"@[0] == 'o' && "opus_48000_32"@[1] == 'p' && "opus_48000_32"@[2] == 'u' && "opus_48000_32"@[3] == 's' && "opus_48000_32"@[4] == '_' && "opus_48000_32"@[5] == '4' && "opus_48000_32"@[6] == '8' && "opus_48000_32"@[7] == '0' && "opus_48000_32"@[8] == '0' && "opus_48000_32"@[9] == '0' && "opus_48000_32"@[10] == '_' && "opus_48000_32"@[11] == '3' && "opus_48000_32"@[12] == '2');
    assert("opus_48000_64"@.len() == 13 && "opus_48000_64"@[0] == 'o' && "opus_48000_64"@[1] == 'p' && "opus_48000_64"@[2] == 'u' && "opus_48000_64"@[3] == 's' && "opus_48000_64"@[4] == '_' && "opus_48000_64"@[5] == '4' && "opus_48000_64"@[6] == '8' && "opus_48000_64"@[7] == '0' && "opus_48000_64"@[8] == '0' && "opus_48000_64"@[9] == '0' && "opus_48000_64"@[10] == '_' && "opus_48000_64"@[11] == '6' && "opus_48000_64"@[12] == '4');
    assert("opus_48000_96"@.len() == 13 && "opus_48000_96"@[0] == 'o' && "opus_48000_96"@[1] == 'p' && "opus_48000_96"@[2] == 'u' && "opus_48000_96"@[3] == 's' && "opus_48000_96"@[4] == '_' && "opus_48000_96"@[5] == '4' && "opus_48000_96"@[6] == '8' && "opus_48000_96"@[7] == '0' && "opus_48000_96"@[8] == '0' && "opus_48000_96"@[9] == '0' && "opus_48000_96"@[10] == '_' && "opus_48000_96"@[11] == '9' && "opus_48000_96"@[12] == '6');
    assert("opus_48000_128"@.len() == 14 && "opus_48000_128"@[0] == 'o' && "opus_48000_128"@[1] == 'p' && "opus_48000_128"@[2] == 'u' && "opus_48000_128"@[3] == 's' && "opus_48000_128"@[4] == '_' && "opus_48000_128"@[5] == '4' && "opus_48000_128"@[6] == '8' && "opus_48000_128"@[7] == '0' && "opus_48000_128"@[8] == '0' && "opus_48000_128"@[9] == '0' && "opus_48000_128"@[10] == '_' && "opus_48000_128"@[11] == '1' && "opus_48000_128"@[12] == '2' && "opus_48000_128"@[13] == '8');
    assert("opus_48000_192"@.len() == 14 && "opus_48000_192"@[0] == 'o' && "opus_48000_192"@[1] == 'p' && "opus_48000_192"@[2] == 'u' && "opus_48000_192"@[3] == 's' && "opus_48000_192"@[4] == '_' && "opus_48000_192"@[5] == '4' && "opus_48000_192"@[6] == '8' && "opus_48000_192"@[7] == '0' && "opus_48000_192"@[8] == '0' && "opus_48000_192"@[9] == '0' && "opus_48000_192"@[10] == '_' && "opus_48000_192"@[11] == '1' && "opus_48000_192"@[12] == '9' && "opus_48000_192"@[13] == '2');
}

/// Whether the service is to spell out numbers, dates and the like.
#[derive(Debug, Clone, Copy, PartialEq, Eq, Structural)]
pub enum ApplyTextNormalization {
    /// The service decides.
    Auto,
    On,
    Off,
}

impl Default for ApplyTextNormalization {
    fn default() -> (r: Self)
        ensures
            r == ApplyTextNormalization::Auto,
    {
        ApplyTextNormalization::Auto
    }
}

impl ApplyTextNormalization {
    /// The name of the setting on the wire.
    pub open spec fn wire_name(self) -> Seq<char> {
        match self {
            ApplyTextNormalization::Auto => "Auto"@,
            ApplyTextNormalization::On => "On"@,
            ApplyTextNormalization::Off => "Off"@,
        }
    }

    /// The setting that a wire name stands for.
    pub open spec fn named(name: Seq<char>) -> Option<ApplyTextNormalization> {
        if name == "Auto"@ {
            Some(ApplyTextNormalization::Auto)
        } else if name == "On"@ {
            Some(ApplyTextNormalization::On)
        } else if name == "Off"@ {
            Some(ApplyTextNormalization::Off)
        } else {
            None
        }
    }

    /// The name of the setting on the wire.
    pub fn name(&self) -> (r: &'static str)
        ensures
            r@ == self.wire_name(),
    {
        match self {
            ApplyTextNormalization::Auto => "Auto",
            ApplyTextNormalization::On => "On",
            ApplyTextNormalization::Off => "Off",
        }
    }

    /// The setting that a wire name stands for.
    pub fn from_name(name: &str) -> (r: Option<ApplyTextNormalization>)
        ensures
            r == ApplyTextNormalization::named(name@),
    {
        if same_text(name, "Auto") {
            Some(ApplyTextNormalization::Auto)
        } else if same_text(name, "On") {
            Some(ApplyTextNormalization::On)
        } else if same_text(name, "Off") {
            Some(ApplyTextNormalization::Off)
        } else {
            None
        }
    }
}

/// A setting comes back from its wire name.
pub proof fn lemma_normalization_round_trip(setting: ApplyTextNormalization)
    ensures
        ApplyTextNormalization::named(setting.wire_name()) == Some(setting),
{
    reveal_strlit("Auto");
    reveal_strlit("On");
    reveal_strlit("Off");
    assert("Auto"@.len() == 4 && "On"@.len() == 2 && "Off"@.len() == 3);
}

/// A value, or null in its place.
pub open spec fn or_null(json: Option<JsonModel>) -> JsonModel {
    match json {
        Some(j) => j,
        None => JsonModel::Null,
    }
}

/// What the settings of a voice hold.
pub struct VoiceSettingsModel {
    pub stability: Option<NumberModel>,
    pub use_speaker_boost: Option<bool>,
    pub similarity_boost: Option<NumberModel>,
    pub style: Option<NumberModel>,
    pub speed: Option<NumberModel>,
}

impl VoiceSettingsModel {
    /// The settings with nothing set.
    pub open spec fn unset() -> VoiceSettingsModel {
        VoiceSettingsModel {
            stability: None,
            use_speaker_boost: None,
            similarity_boost: None,
            style: None,
            speed: None,
        }
    }
}

/// The fields of voice settings on the wire. All five are always written, a
/// field that is not set as null.
pub open spec fn voice_settings_fields(v: VoiceSettingsModel) -> Seq<(Seq<char>, Option<JsonModel>)> {
    seq![
        ("stability"@, Some(or_null(written(v.stability, |n: NumberModel| JsonModel::Number(n))))),
        (
            "use_speaker_boost"@,
            Some(or_null(written(v.use_speaker_boost, |b: bool| JsonModel::Bool(b)))),
        ),
        (
            "similarity_boost"@,
            Some(or_null(written(v.similarity_boost, |n: NumberModel| JsonModel::Number(n)))),
        ),
        ("style"@, Some(or_null(written(v.style, |n: NumberModel| JsonModel::Number(n))))),
        ("speed"@, Some(or_null(written(v.speed, |n: NumberModel| JsonModel::Number(n))))),
    ]
}

/// The wire form of voice settings.
pub open spec fn voice_settings_json(v: VoiceSettingsModel) -> JsonModel {
    JsonModel::Object(present(voice_settings_fields(v)))
}

/// The voice settings that a value stands for: an object whose known
/// members, where they are there and not null, have the right shape.
pub open spec fn voice_settings_of(json: JsonModel) -> Option<VoiceSettingsModel> {
    let stability = optional(field_of(json, "stability"@), |j: JsonModel| number_of(j));
    let boost = optional(field_of(json, "use_speaker_boost"@), |j: JsonModel| bool_of(j));
    let similarity = optional(field_of(json, "similarity_boost"@), |j: JsonModel| number_of(j));
    let style = optional(field_of(json, "style"@), |j: JsonModel| number_of(j));
    let speed = optional(field_of(json, "speed"@), |j: JsonModel| number_of(j));
    if json is Object && stability is Some && boost is Some && similarity is Some && style is Some
        && speed is Some {
        Some(
            VoiceSettingsModel {
                stability: stability.unwrap(),
                use_speaker_boost: boost.unwrap(),
                similarity_boost: similarity.unwrap(),
                style: style.unwrap(),
                speed: speed.unwrap(),
            },
        )
    } else {
        None
    }
}

/// The keys of voice settings differ from one another.
pub proof fn lemma_voice_settings_fields_distinct(x: VoiceSettingsModel)
    ensures
        distinct_fields(voice_settings_fields(x)),
        voice_settings_fields(x).len() == 5,
{
    reveal_strlit("stability");
    reveal_strlit("use_speaker_boost");
    reveal_strlit("similarity_boost");
    reveal_strlit("style");
    reveal_strlit("speed");
    let keys = seq![
        "stability"@,
        "use_speaker_boost"@,
        "similarity_boost"@,
        "style"@,
        "speed"@,
    ];
    assert(keys[0].len() == 9 && keys[0][0] == 's' && keys[0][1] == 't' && keys[0][2] == 'a' && keys[0][3] == 'b' && keys[0][4] == 'i' && keys[0][5] == 'l' && keys[0][6] == 'i' && keys[0][7] == 't' && keys[0][8] == 'y');
    assert(keys[1].len() == 17 && keys[1][0] == 'u' && keys[1][1] == 's' && keys[1][2] == 'e' && keys[1][3] == '_' && keys[1][4] == 's' && keys[1][5] == 'p' && keys[1][6] == 'e' && keys[1][7] == 'a' && keys[1][8] == 'k' && keys[1][9] == 'e' && keys[1][10] == 'r' && keys[1][11] == '_' && keys[1][12] == 'b' && keys[1][13] == 'o' && keys[1][14] == 'o' && keys[1][15] == 's' && keys[1][16] == 't');
    assert(keys[2].len() == 16 && keys[2][0] == 's' && keys[2][1] == 'i' && keys[2][2] == 'm' && keys[2][3] == 'i' && keys[2][4] == 'l' && keys[2][5] == 'a' && keys[2][6] == 'r' && keys[2][7] == 'i' && keys[2][8] == 't' && keys[2][9] == 'y' && keys[2][10] == '_' && keys[2][11] == 'b' && keys[2][12] == 'o' && keys[2][13] == 'o' && keys[2][14] == 's' && keys[2][15] == 't');
    assert(keys[3].len() == 5 && keys[3][0] == 's' && keys[3][1] == 't' && keys[3][2] == 'y' && keys[3][3] == 'l' && keys[3][4] == 'e');
    assert(keys[4].len() == 5 && keys[4][0] == 's' && keys[4][1] == 'p' && keys[4][2] == 'e' && keys[4][3] == 'e' && keys[4][4] == 'd');
    let fields = voice_settings_fields(x);
    assert forall|i: int, j: int| 0 <= i < j < fields.len() implies (#[trigger] fields[i]).0 != (
    #[trigger] fields[j]).0 by {
        assert(fields[i].0 == keys[i] && fields[j].0 == keys[j]);
    }
}

/// Voice settings read back from their wire form as they were.
pub proof fn lemma_voice_settings_round_trip(v: VoiceSettingsModel)
    ensures
        voice_settings_of(voice_settings_json(v)) == Some(v),
{
    let fields = voice_settings_fields(v);
    lemma_voice_settings_fields_distinct(v);
    lemma_present_reads_back(fields);
    assert(fields[0].0 == "stability"@ && fields[1].0 == "use_speaker_boost"@ && fields[2].0
        == "similarity_boost"@ && fields[3].0 == "style"@ && fields[4].0 == "speed"@);
}

/// How a voice is to sound.
#[derive(Debug, Clone, PartialEq)]
pub struct VoiceSettings {
    pub stability: Option<Number>,
    pub use_speaker_boost: Option<bool>,
    pub similarity_boost: Option<Number>,
    pub style: Option<Number>,
    pub speed: Option<Number>,
}

/// What a number that may be left out holds.
pub open spec fn number_model(n: Option<Number>) -> Option<NumberModel> {
    match n {
        Some(n) => Some(n@),
        None => None,
    }
}

impl View for VoiceSettings {
    type V = VoiceSettingsModel;

    open spec fn view(&self) -> VoiceSettingsModel {
        VoiceSettingsModel {
            stability: number_model(self.stability),
            use_speaker_boost: self.use_speaker_boost,
            similarity_boost: number_model(self.similarity_boost),
            style: number_model(self.style),
            speed: number_model(self.speed),
        }
    }
}

impl Default for VoiceSettings {
    fn default() -> (r: Self)
        ensures
            r@ == VoiceSettingsModel::unset(),
    {
        VoiceSettings {
            stability: None,
            use_speaker_boost: None,
            similarity_boost: None,
            style: None,
            speed: None,
        }
    }
}

/// A number that may be left out, as a value: null in its place.
fn number_or_null(n: &Option<Number>) -> (r: serde_json::Value)
    ensures
        value_of(r) == or_null(written(number_model(*n), |n: NumberModel| JsonModel::Number(n))),
{
    match n {
        Some(n) => n.to_value(),
        None => null_value(),
    }
}

/// A boolean that may be left out, as a value: null in its place.
fn bool_or_null(b: Option<bool>) -> (r: serde_json::Value)
    ensures
        value_of(r) == or_null(written(b, |b: bool| JsonModel::Bool(b))),
{
    match b {
        Some(b) => bool_value(b),
        None => null_value(),
    }
}

impl VoiceSettings {
    /// The same settings at this speed.
    pub fn with_speed(self, speed: Number) -> (r: Self)
        ensures
            r@ == (VoiceSettingsModel { speed: Some(speed@), ..self@ }),
    {
        let mut this = self;
        this.speed = Some(speed);
        this
    }

    /// The wire form of the settings.
    pub fn to_value(&self) -> (r: serde_json::Value)
        ensures
            value_of(r) == voice_settings_json(self@),
    {
        let ghost fields = voice_settings_fields(self@);
        let mut members: Vec<(String, serde_json::Value)> = Vec::new();
        assert(members_of(members@) =~= present(fields.take(0)));
        let value = Some(number_or_null(&self.stability));
        put(&mut members, "stability", value);
        assert(members_of(members@) == present(fields.take(1))) by {
            assert(fields.take(1).drop_last() =~= fields.take(0));
        }
        let value = Some(bool_or_null(self.use_speaker_boost));
        put(&mut members, "use_speaker_boost", value);
        assert(members_of(members@) == present(fields.take(2))) by {
            assert(fields.take(2).drop_last() =~= fields.take(1));
        }
        let value = Some(number_or_null(&self.similarity_boost));
        put(&mut members, "similarity_boost", value);
        assert(members_of(members@) == present(fields.take(3))) by {
            assert(fields.take(3).drop_last() =~= fields.take(2));
        }
        let value = Some(number_or_null(&self.style));
        put(&mut members, "style", value);
        assert(members_of(members@) == present(fields.take(4))) by {
            assert(fields.take(4).drop_last() =~= fields.take(3));
        }
        let value = Some(number_or_null(&self.speed));
        put(&mut members, "speed", value);
        assert(members_of(members@) == present(fields)) by {
            assert(fields.take(5).drop_last() =~= fields.take(4));
            assert(fields.take(5) =~= fields);
        }
        proof {
            lemma_voice_settings_fields_distinct(self@);
            lemma_present_reads_back(fields);
        }
        object_value(members)
    }

    /// Reads settings from their wire form.
    pub fn from_value(v: &serde_json::Value) -> (r: Option<VoiceSettings>)
        ensures
            r matches Some(s) ==> voice_settings_of(value_of(*v)) == Some(s@),
            r is None ==> voice_settings_of(value_of(*v)) is None,
    {
        if !v.is_object() {
            return None;
        }
        let stability = match read_number(field(v, "stability")) {
            Some(n) => n,
            None => {
                return None;
            },
        };
        let use_speaker_boost = match read_bool(field(v, "use_speaker_boost")) {
            Some(b) => b,
            None => {
                return None;
            },
        };
        let similarity_boost = match read_number(field(v, "similarity_boost")) {
            Some(n) => n,
            None => {
                return None;
            },
        };
        let style = match read_number(field(v, "style")) {
            Some(n) => n,
            None => {
                return None;
            },
        };
        let speed = match read_number(field(v, "speed")) {
            Some(n) => n,
            None => {
                return None;
            },
        };
        Some(VoiceSettings { stability, use_speaker_boost, similarity_boost, style, speed })
    }
}

/// What the parameters of a generation hold.
pub struct ParamsModel {
    pub output_format: AudioOutputFormat,
    pub language_code: Option<Seq<char>>,
    pub voice_settings: Option<VoiceSettingsModel>,
    pub seed: Option<u64>,
    pub previous_text: Option<Seq<char>>,
    pub next_text: Option<Seq<char>>,
    pub previous_request_ids: Option<Seq<char>>,
    pub next_request_ids: Option<Seq<Seq<char>>>,
    pub apply_text_normalization: Option<ApplyTextNormalization>,
    pub apply_language_text_normalization: Option<bool>,
}

/// The wire form of a list of texts: the array of them.
pub open spec fn texts_json(texts: Seq<Seq<char>>) -> JsonModel {
    JsonModel::Array(texts.map_values(|t: Seq<char>| JsonModel::Text(t)))
}

/// The list of texts that a value stands for: an array of strings.
pub open spec fn texts_of(json: JsonModel) -> Option<Seq<Seq<char>>> {
    match json {
        JsonModel::Array(items) => if forall|i: int|
            0 <= i < items.len() ==> text_of(#[trigger] items[i]) is Some {
            Some(items.map_values(|j: JsonModel| text_of(j).unwrap()))
        } else {
            None
        },
        _ => None,
    }
}

/// The output format that a value stands for.
pub open spec fn output_format_of(json: JsonModel) -> Option<AudioOutputFormat> {
    match json {
        JsonModel::Text(name) => AudioOutputFormat::named(name),
        _ => None,
    }
}

/// The text normalization that a value stands for.
pub open spec fn normalization_of(json: JsonModel) -> Option<ApplyTextNormalization> {
    match json {
        JsonModel::Text(name) => ApplyTextNormalization::named(name),
        _ => None,
    }
}

/// The fields of the parameters on the wire, in the order in which they are
/// written. The output format is always written; every other field is left
/// out where it is not set.
pub open spec fn params_fields(p: ParamsModel) -> Seq<(Seq<char>, Option<JsonModel>)> {
    seq![
        ("output_format"@, Some(JsonModel::Text(p.output_format.wire_name()))),
        ("language_code"@, written(p.language_code, |t: Seq<char>| JsonModel::Text(t))),
        ("voice_settings"@, written(p.voice_settings, |v: VoiceSettingsModel| voice_settings_json(v))),
        ("seed"@, written(p.seed, |n: u64| JsonModel::Number(NumberModel::Unsigned(n)))),
        ("previous_text"@, written(p.previous_text, |t: Seq<char>| JsonModel::Text(t))),
        ("next_text"@, written(p.next_text, |t: Seq<char>| JsonModel::Text(t))),
        ("previous_request_ids"@, written(p.previous_request_ids, |t: Seq<char>| JsonModel::Text(t))),
        ("next_request_ids"@, written(p.next_request_ids, |ts: Seq<Seq<char>>| texts_json(ts))),
        (
            "apply_text_normalization"@,
            written(
                p.apply_text_normalization,
                |a: ApplyTextNormalization| JsonModel::Text(a.wire_name()),
            ),
        ),
        (
            "apply_language_text_normalization"@,
            written(p.apply_language_text_normalization, |b: bool| JsonModel::Bool(b)),
        ),
    ]
}

/// The wire form of the parameters.
pub open spec fn params_json(p: ParamsModel) -> JsonModel {
    JsonModel::Object(present(params_fields(p)))
}

/// The parameters that a value stands for: an object that names an output
/// format and whose other known members, where they are there and not null,
/// have the right shape.
pub open spec fn params_of(json: JsonModel) -> Option<ParamsModel> {
    let format = match member_of(json, "output_format"@) {
        Some(j) => output_format_of(j),
        None => None,
    };
    let language = optional(field_of(json, "language_code"@), |j: JsonModel| text_of(j));
    let voice = optional(field_of(json, "voice_settings"@), |j: JsonModel| voice_settings_of(j));
    let seed = optional(field_of(json, "seed"@), |j: JsonModel| unsigned_of(j));
    let previous_text = optional(field_of(json, "previous_text"@), |j: JsonModel| text_of(j));
    let next_text = optional(field_of(json, "next_text"@), |j: JsonModel| text_of(j));
    let previous_ids = optional(field_of(json, "previous_request_ids"@), |j: JsonModel| text_of(j));
    let next_ids = optional(field_of(json, "next_request_ids"@), |j: JsonModel| texts_of(j));
    let normalization = optional(
        field_of(json, "apply_text_normalization"@),
        |j: JsonModel| normalization_of(j),
    );
    let language_normalization = optional(
        field_of(json, "apply_language_text_normalization"@),
        |j: JsonModel| bool_of(j),
    );
    if json is Object && format is Some && language is Some && voice is Some && seed is Some
        && previous_text is Some && next_text is Some && previous_ids is Some && next_ids is Some
        && normalization is Some && language_normalization is Some {
        Some(
            ParamsModel {
                output_format: format.unwrap(),
                language_code: language.unwrap(),
                voice_settings: voice.unwrap(),
                seed: seed.unwrap(),
                previous_text: previous_text.unwrap(),
                next_text: next_text.unwrap(),
                previous_request_ids: previous_ids.unwrap(),
                next_request_ids: next_ids.unwrap(),
                apply_text_normalization: normalization.unwrap(),
                apply_language_text_normalization: language_normalization.unwrap(),
            },
        )
    } else {
        None
    }
}

/// The keys of the parameters, in the order of their fields.
pub open spec fn params_keys() -> Seq<Seq<char>> {
    seq![
        "output_format"@,
        "language_code"@,
        "voice_settings"@,
        "seed"@,
        "previous_text"@,
        "next_text"@,
        "previous_request_ids"@,
        "next_request_ids"@,
        "apply_text_normalization"@,
        "apply_language_text_normalization"@,
    ]
}

/// The keys of the parameters differ from one another.
pub proof fn lemma_params_fields_distinct(x: ParamsModel)
    ensures
        distinct_fields(params_fields(x)),
        params_fields(x).len() == 10,
        forall|i: int| 0 <= i < 10 ==> (#[trigger] params_fields(x)[i]).0 == params_keys()[i],
{
    reveal_strlit("output_format");
    reveal_strlit("language_code");
    reveal_strlit("voice_settings");
    reveal_strlit("seed");
    reveal_strlit("previous_text");
    reveal_strlit("next_text");
    reveal_strlit("previous_request_ids");
    reveal_strlit("next_request_ids");
    reveal_strlit("apply_text_normalization");
    reveal_strlit("apply_language_text_normalization");
    let keys = params_keys();
    assert(keys[0].len() == 13 && keys[0][0] == 'o' && keys[0][1] == 'u' && keys[0][2] == 't' && keys[0][3] == 'p' && keys[0][4] == 'u' && keys[0][5] == 't' && keys[0][6] == '_' && keys[0][7] == 'f' && keys[0][8] == 'o' && keys[0][9] == 'r' && keys[0][10] == 'm' && keys[0][11] == 'a' && keys[0][12] == 't');
    assert(keys[1].len() == 13 && keys[1][0] == 'l' && keys[1][1] == 'a' && keys[1][2] == 'n' && keys[1][3] == 'g' && keys[1][4] == 'u' && keys[1][5] == 'a' && keys[1][6] == 'g' && keys[1][7] == 'e' && keys[1][8] == '_' && keys[1][9] == 'c' && keys[1][10] == 'o' && keys[1][11] == 'd' && keys[1][12] == 'e');
    assert(keys[2].len() == 14 && keys[2][0] == 'v' && keys[2][1] == 'o' && keys[2][2] == 'i' && keys[2][3] == 'c' && keys[2][4] == 'e' && keys[2][5] == '_' && keys[2][6] == 's' && keys[2][7] == 'e' && keys[2][8] == 't' && keys[2][9] == 't' && keys[2][10] == 'i' && keys[2][11] == 'n' && keys[2][12] == 'g' && keys[2][13] == 's');
    assert(keys[3].len() == 4 && keys[3][0] == 's' && keys[3][1] == 'e' && keys[3][2] == 'e' && keys[3][3] == 'd');
    assert(keys[4].len() == 13 && keys[4][0] == 'p' && keys[4][1] == 'r' && keys[4][2] == 'e' && keys[4][3] == 'v' && keys[4][4] == 'i' && keys[4][5] == 'o' && keys[4][6] == 'u' && keys[4][7] == 's' && keys[4][8] == '_' && keys[4][9] == 't' && keys[4][10] == 'e' && keys[4][11] == 'x' && keys[4][12] == 't');
    assert(keys[5].len() == 9 && keys[5][0] == 'n' && keys[5][1] == 'e' && keys[5][2] == 'x' && keys[5][3] == 't' && keys[5][4] == '_' && keys[5][5] == 't' && keys[5][6] == 'e' && keys[5][7] == 'x' && keys[5][8] == 't');
    assert(keys[6].len() == 20 && keys[6][0] == 'p' && keys[6][1] == 'r' && keys[6][2] == 'e' && keys[6][3] == 'v' && keys[6][4] == 'i' && keys[6][5] == 'o' && keys[6][6] == 'u' && keys[6][7] == 's' && keys[6][8] == '_' && keys[6][9] == 'r' && keys[6][10] == 'e' && keys[6][11] == 'q' && keys[6][12] == 'u' && keys[6][13] == 'e' && keys[6][14] == 's' && keys[6][15] == 't' && keys[6][16] == '_' && keys[6][17] == 'i' && keys[6][18] == 'd' && keys[6][19] == 's');
    assert(keys[7].len() == 16 && keys[7][0] == 'n' && keys[7][1] == 'e' && keys[7][2] == 'x' && keys[7][3] == 't' && keys[7][4] == '_' && keys[7][5] == 'r' && keys[7][6] == 'e' && keys[7][7] == 'q' && keys[7][8] == 'u' && keys[7][9] == 'e' && keys[7][10] == 's' && keys[7][11] == 't' && keys[7][12] == '_' && keys[7][13] == 'i' && keys[7][14] == 'd' && keys[7][15] == 's');
    assert(keys[8].len() == 24 && keys[8][0] == 'a' && keys[8][1] == 'p' && keys[8][2] == 'p' && keys[8][3] == 'l' && keys[8][4] == 'y' && keys[8][5] == '_' && keys[8][6] == 't' && keys[8][7] == 'e' && keys[8][8] == 'x' && keys[8][9] == 't' && keys[8][10] == '_' && keys[8][11] == 'n' && keys[8][12] == 'o' && keys[8][13] == 'r' && keys[8][14] == 'm' && keys[8][15] == 'a' && keys[8][16] == 'l' && keys[8][17] == 'i' && keys[8][18] == 'z' && keys[8][19] == 'a' && keys[8][20] == 't' && keys[8][21] == 'i' && keys[8][22] == 'o' && keys[8][23] == 'n');
    assert(keys[9].len() == 33 && keys[9][0] == 'a' && keys[9][1] == 'p' && keys[9][2] == 'p' && keys[9][3] == 'l' && keys[9][4] == 'y' && keys[9][5] == '_' && keys[9][6] == 'l' && keys[9][7] == 'a' && keys[9][8] == 'n' && keys[9][9] == 'g' && keys[9][10] == 'u' && keys[9][11] == 'a' && keys[9][12] == 'g' && keys[9][13] == 'e' && keys[9][14] == '_' && keys[9][15] == 't' && keys[9][16] == 'e' && keys[9][17] == 'x' && keys[9][18] == 't' && keys[9][19] == '_' && keys[9][20] == 'n' && keys[9][21] == 'o' && keys[9][22] == 'r' && keys[9][23] == 'm' && keys[9][24] == 'a' && keys[9][25] == 'l' && keys[9][26] == 'i' && keys[9][27] == 'z' && keys[9][28] == 'a' && keys[9][29] == 't' && keys[9][30] == 'i' && keys[9][31] == 'o' && keys[9][32] == 'n');
    let fields = params_fields(x);
    assert forall|i: int, j: int| 0 <= i < j < fields.len() implies (#[trigger] fields[i]).0 != (
    #[trigger] fields[j]).0 by {
        assert(fields[i].0 == keys[i] && fields[j].0 == keys[j]);
    }
}

/// A list of texts reads back from its wire form as it was.
pub proof fn lemma_texts_round_trip(texts: Seq<Seq<char>>)
    ensures
        texts_of(texts_json(texts)) == Some(texts),
{
    let items = texts.map_values(|t: Seq<char>| JsonModel::Text(t));
    assert(items.map_values(|j: JsonModel| text_of(j).unwrap()) =~= texts);
}

/// The parameters read back from their wire form as they were.
pub proof fn lemma_params_round_trip(p: ParamsModel)
    ensures
        params_of(params_json(p)) == Some(p),
{
    let fields = params_fields(p);
    lemma_params_fields_distinct(p);
    lemma_present_reads_back(fields);
    let json = params_json(p);
    let keys = params_keys();
    assert(forall|i: int| 0 <= i < 10 ==> member_of(json, keys[i]) == (#[trigger] fields[i]).1);
    assert(member_of(json, "output_format"@) == fields[0].1) by {
        assert(keys[0] == "output_format"@);
    }
    assert(member_of(json, "language_code"@) == fields[1].1) by {
        assert(keys[1] == "language_code"@);
    }
    assert(member_of(json, "voice_settings"@) == fields[2].1) by {
        assert(keys[2] == "voice_settings"@);
    }
    assert(member_of(json, "seed"@) == fields[3].1) by {
        assert(keys[3] == "seed"@);
    }
    assert(member_of(json, "previous_text"@) == fields[4].1) by {
        assert(keys[4] == "previous_text"@);
    }
    assert(member_of(json, "next_text"@) == fields[5].1) by {
        assert(keys[5] == "next_text"@);
    }
    assert(member_of(json, "previous_request_ids"@) == fields[6].1) by {
        assert(keys[6] == "previous_request_ids"@);
    }
    assert(member_of(json, "next_request_ids"@) == fields[7].1) by {
        assert(keys[7] == "next_request_ids"@);
    }
    assert(member_of(json, "apply_text_normalization"@) == fields[8].1) by {
        assert(keys[8] == "apply_text_normalization"@);
    }
    assert(member_of(json, "apply_language_text_normalization"@) == fields[9].1) by {
        assert(keys[9] == "apply_language_text_normalization"@);
    }
    lemma_format_round_trip(p.output_format);
    if p.voice_settings is Some {
        lemma_voice_settings_round_trip(p.voice_settings.unwrap());
    }
    if p.next_request_ids is Some {
        lemma_texts_round_trip(p.next_request_ids.unwrap());
    }
    if p.apply_text_normalization is Some {
        lemma_normalization_round_trip(p.apply_text_normalization.unwrap());
    }
}

/// The parameters of a generation beyond the text and the voice.
#[derive(Debug, Clone, PartialEq)]
pub struct ElevenLabsParams {
    /// The format of the audio that comes back.
    pub output_format: AudioOutputFormat,
    /// The language of the text, as a two-letter code.
    pub language_code: Option<String>,
    /// How the voice is to sound.
    pub voice_settings: Option<VoiceSettings>,
    /// A seed, for audio that comes out the same on the same request as far
    /// as the service can manage.
    pub seed: Option<u64>,
    /// The text that came before, for continuity.
    pub previous_text: Option<String>,
    /// The text that comes after, for continuity.
    pub next_text: Option<String>,
    /// The requests that came before, for continuity.
    pub previous_request_ids: Option<String>,
    /// The requests that come after, for continuity.
    pub next_request_ids: Option<Vec<String>>,
    /// Whether numbers, dates and the like are spelled out.
    pub apply_text_normalization: Option<ApplyTextNormalization>,
    /// Whether the text is normalized for its language.
    pub apply_language_text_normalization: Option<bool>,
}

/// What a text that may be left out holds.
pub open spec fn text_model(t: Option<String>) -> Option<Seq<char>> {
    match t {
        Some(t) => Some(t@),
        None => None,
    }
}

/// What a list of texts holds.
pub open spec fn text_views(texts: Seq<String>) -> Seq<Seq<char>> {
    texts.map_values(|t: String| t@)
}

impl View for ElevenLabsParams {
    type V = ParamsModel;

    open spec fn view(&self) -> ParamsModel {
        ParamsModel {
            output_format: self.output_format,
            language_code: text_model(self.language_code),
            voice_settings: match self.voice_settings {
                Some(v) => Some(v@),
                None => None,
            },
            seed: self.seed,
            previous_text: text_model(self.previous_text),
            next_text: text_model(self.next_text),
            previous_request_ids: text_model(self.previous_request_ids),
            next_request_ids: match self.next_request_ids {
                Some(ts) => Some(text_views(ts@)),
                None => None,
            },
            apply_text_normalization: self.apply_text_normalization,
            apply_language_text_normalization: self.apply_language_text_normalization,
        }
    }
}

impl Default for ElevenLabsParams {
    fn default() -> (r: Self)
        ensures
            r@ == (ParamsModel {
                output_format: AudioOutputFormat::Mp3_22050_32,
                language_code: None,
                voice_settings: None,
                seed: None,
                previous_text: None,
                next_text: None,
                previous_request_ids: None,
                next_request_ids: None,
                apply_text_normalization: None,
                apply_language_text_normalization: None,
            }),
    {
        ElevenLabsParams {
            output_format: AudioOutputFormat::Mp3_22050_32,
            language_code: None,
            voice_settings: None,
            seed: None,
            previous_text: None,
            next_text: None,
            previous_request_ids: None,
            next_request_ids: None,
            apply_text_normalization: None,
            apply_language_text_normalization: None,
        }
    }
}

/// A text that may be left out, as a value that may be left out.
fn text_option(t: &Option<String>) -> (r: Option<serde_json::Value>)
    ensures
        found_models(r) == written(text_model(*t), |t: Seq<char>| JsonModel::Text(t)),
{
    match t {
        Some(t) => Some(text_value(t.clone())),
        None => None,
    }
}

/// What a value that may be left out holds.
pub open spec fn found_models(v: Option<serde_json::Value>) -> Option<JsonModel> {
    match v {
        Some(v) => Some(value_of(v)),
        None => None,
    }
}

/// The wire form of a list of texts.
pub fn texts_to_value(texts: &Vec<String>) -> (r: serde_json::Value)
    ensures
        value_of(r) == texts_json(text_views(texts@)),
{
    let mut items: Vec<serde_json::Value> = Vec::new();
    let mut i: usize = 0;
    while i < texts.len()
        invariant
            i <= texts.len(),
            items@.len() == i,
            forall|k: int| 0 <= k < i ==> value_of(#[trigger] items@[k]) == JsonModel::Text(texts@[k]@),
        decreases texts.len() - i,
    {
        items.push(text_value(texts[i].clone()));
        i += 1;
    }
    assert(values_of(items@) =~= text_views(texts@).map_values(|t: Seq<char>| JsonModel::Text(t)));
    array_value(items)
}

/// Reads a list of texts from its wire form.
pub fn texts_from_value(v: &serde_json::Value) -> (r: Option<Vec<String>>)
    ensures
        r matches Some(ts) ==> texts_of(value_of(*v)) == Some(text_views(ts@)),
        r is None ==> texts_of(value_of(*v)) is None,
{
    let items = match v.as_array() {
        Some(items) => items,
        None => {
            return None;
        },
    };
    let ghost models = values_of(items@);
    let mut out: Vec<String> = Vec::new();
    let mut i: usize = 0;
    while i < items.len()
        invariant
            i <= items.len(),
            models == values_of(items@),
            value_of(*v) == JsonModel::Array(models),
            out@.len() == i,
            forall|k: int| 0 <= k < i ==> text_of(#[trigger] models[k]) == Some(out@[k]@),
        decreases items.len() - i,
    {
        match items[i].as_str() {
            Some(t) => {
                out.push(t.to_owned());
            },
            None => {
                assert(text_of(models[i as int]) is None);
                return None;
            },
        }
        i += 1;
    }
    assert(text_views(out@) =~= models.map_values(|j: JsonModel| text_of(j).unwrap()));
    Some(out)
}

impl ElevenLabsParams {
    /// Adds the fields of the parameters to the members of an object in the
    /// making, behind the members that it has.
    fn put_fields(
        &self,
        members: &mut Vec<(String, serde_json::Value)>,
        Ghost(before): Ghost<Seq<(Seq<char>, Option<JsonModel>)>>,
    )
        requires
            members_of(old(members)@) == present(before),
        ensures
            members_of(final(members)@) == present(before + params_fields(self@)),
    {
        let ghost fields = params_fields(self@);
        assert(before + fields.take(0) =~= before);
        let value = Some(text_value(self.output_format.name().to_owned()));
        put(members, "output_format", value);
        assert(members_of(members@) == present(before + fields.take(1))) by {
            assert((before + fields.take(1)).drop_last() =~= before + fields.take(0));
            assert((before + fields.take(1)).last() == fields[0]);
        }
        let value = text_option(&self.language_code);
        put(members, "language_code", value);
        assert(members_of(members@) == present(before + fields.take(2))) by {
            assert((before + fields.take(2)).drop_last() =~= before + fields.take(1));
            assert((before + fields.take(2)).last() == fields[1]);
        }
        let value = match &self.voice_settings {
            Some(v) => Some(v.to_value()),
            None => None,
        };
        put(members, "voice_settings", value);
        assert(members_of(members@) == present(before + fields.take(3))) by {
            assert((before + fields.take(3)).drop_last() =~= before + fields.take(2));
            assert((before + fields.take(3)).last() == fields[2]);
        }
        let value = match self.seed {
            Some(n) => Some(unsigned_value(n)),
            None => None,
        };
        put(members, "seed", value);
        assert(members_of(members@) == present(before + fields.take(4))) by {
            assert((before + fields.take(4)).drop_last() =~= before + fields.take(3));
            assert((before + fields.take(4)).last() == fields[3]);
        }
        let value = text_option(&self.previous_text);
        put(members, "previous_text", value);
        assert(members_of(members@) == present(before + fields.take(5))) by {
            assert((before + fields.take(5)).drop_last() =~= before + fields.take(4));
            assert((before + fields.take(5)).last() == fields[4]);
        }
        let value = text_option(&self.next_text);
        put(members, "next_text", value);
        assert(members_of(members@) == present(before + fields.take(6))) by {
            assert((before + fields.take(6)).drop_last() =~= before + fields.take(5));
            assert((before + fields.take(6)).last() == fields[5]);
        }
        let value = text_option(&self.previous_request_ids);
        put(members, "previous_request_ids", value);
        assert(members_of(members@) == present(before + fields.take(7))) by {
            assert((before + fields.take(7)).drop_last() =~= before + fields.take(6));
            assert((before + fields.take(7)).last() == fields[6]);
        }
        let value = match &self.next_request_ids {
            Some(ts) => Some(texts_to_value(ts)),
            None => None,
        };
        put(members, "next_request_ids", value);
        assert(members_of(members@) == present(before + fields.take(8))) by {
            assert((before + fields.take(8)).drop_last() =~= before + fields.take(7));
            assert((before + fields.take(8)).last() == fields[7]);
        }
        let value = match &self.apply_text_normalization {
            Some(a) => Some(text_value(a.name().to_owned())),
            None => None,
        };
        put(members, "apply_text_normalization", value);
        assert(members_of(members@) == present(before + fields.take(9))) by {
            assert((before + fields.take(9)).drop_last() =~= before + fields.take(8));
            assert((before + fields.take(9)).last() == fields[8]);
        }
        let value = match self.apply_language_text_normalization {
            Some(b) => Some(bool_value(b)),
            None => None,
        };
        put(members, "apply_language_text_normalization", value);
        assert(members_of(members@) == present(before + fields.take(10))) by {
            assert((before + fields.take(10)).drop_last() =~= before + fields.take(9));
            assert((before + fields.take(10)).last() == fields[9]);
        }
        assert(fields.take(10) =~= fields);
    }

    /// The wire form of the parameters.
    pub fn into_json(self) -> (r: serde_json::Value)
        ensures
            value_of(r) == params_json(self@),
    {
        self.to_value()
    }

    /// The wire form of the parameters.
    pub fn to_value(&self) -> (r: serde_json::Value)
        ensures
            value_of(r) == params_json(self@),
    {
        let ghost fields = params_fields(self@);
        let mut members: Vec<(String, serde_json::Value)> = Vec::new();
        assert(members_of(members@) =~= present(fields.take(0)));
        self.put_fields(&mut members, Ghost(Seq::empty()));
        assert(Seq::<(Seq<char>, Option<JsonModel>)>::empty() + fields =~= fields);
        proof {
            lemma_params_fields_distinct(self@);
            lemma_present_reads_back(fields);
        }
        object_value(members)
    }
}

impl ElevenLabsParams {
    /// Reads parameters from their wire form.
    pub fn from_value(v: &serde_json::Value) -> (r: Option<ElevenLabsParams>)
        ensures
            r matches Some(p) ==> params_of(value_of(*v)) == Some(p@),
            r is None ==> params_of(value_of(*v)) is None,
    {
        if !v.is_object() {
            return None;
        }
        let output_format = match member(v, "output_format") {
            Some(m) => match m.as_str() {
                Some(name) => match AudioOutputFormat::from_name(name) {
                    Some(f) => f,
                    None => {
                        return None;
                    },
                },
                None => {
                    return None;
                },
            },
            None => {
                return None;
            },
        };
        let language_code = match read_text(field(v, "language_code")) {
            Some(t) => t,
            None => {
                return None;
            },
        };
        let voice_settings = match field(v, "voice_settings") {
            None => None,
            Some(m) => match VoiceSettings::from_value(m) {
                Some(s) => Some(s),
                None => {
                    return None;
                },
            },
        };
        let seed = match read_unsigned(field(v, "seed")) {
            Some(n) => n,
            None => {
                return None;
            },
        };
        let previous_text = match read_text(field(v, "previous_text")) {
            Some(t) => t,
            None => {
                return None;
            },
        };
        let next_text = match read_text(field(v, "next_text")) {
            Some(t) => t,
            None => {
                return None;
            },
        };
        let previous_request_ids = match read_text(field(v, "previous_request_ids")) {
            Some(t) => t,
            None => {
                return None;
            },
        };
        let next_request_ids = match field(v, "next_request_ids") {
            None => None,
            Some(m) => match texts_from_value(m) {
                Some(ts) => Some(ts),
                None => {
                    return None;
                },
            },
        };
        let apply_text_normalization = match field(v, "apply_text_normalization") {
            None => None,
            Some(m) => match m.as_str() {
                Some(name) => match ApplyTextNormalization::from_name(name) {
                    Some(a) => Some(a),
                    None => {
                        return None;
                    },
                },
                None => {
                    return None;
                },
            },
        };
        let apply_language_text_normalization = match read_bool(
            field(v, "apply_language_text_normalization"),
        ) {
            Some(b) => b,
            None => {
                return None;
            },
        };
        Some(
            ElevenLabsParams {
                output_format,
                language_code,
                voice_settings,
                seed,
                previous_text,
                next_text,
                previous_request_ids,
                next_request_ids,
                apply_text_normalization,
                apply_language_text_normalization,
            },
        )
    }
}

/// Why a request could not be put together.
#[derive(Debug, Clone, Copy, PartialEq, Eq, Structural)]
pub enum RequestError {
    /// No parameters came with the request; the service needs them.
    MissingParameters,
    /// The parameters do not have the shape that the service takes.
    MalformedParameters,
}

impl RequestError {
    /// The error in words.
    pub fn message(&self) -> (r: &'static str)
        ensures
            r@ == (match *self {
                RequestError::MissingParameters => "You need to use additional parameters to be able to insert required variables for this provider!"@,
                RequestError::MalformedParameters => "The additional parameters do not have the shape that this provider takes"@,
            }),
    {
        match self {
            RequestError::MissingParameters => "You need to use additional parameters to be able to insert required variables for this provider!",
            RequestError::MalformedParameters => "The additional parameters do not have the shape that this provider takes",
        }
    }
}

/// What a request for speech holds.
pub struct RequestModel {
    pub text: Seq<char>,
    pub model_id: Seq<char>,
    pub voice_id: Seq<char>,
    pub params: ParamsModel,
}

/// A request for speech: the text, the model, the voice, and the parameters.
#[derive(Debug, Clone, PartialEq)]
pub struct AudioGenerationRequest {
    /// The text to speak.
    pub text: String,
    /// The model that speaks.
    pub model_id: String,
    /// The voice that speaks.
    pub voice_id: String,
    pub params: ElevenLabsParams,
}

impl View for AudioGenerationRequest {
    type V = RequestModel;

    open spec fn view(&self) -> RequestModel {
        RequestModel {
            text: self.text@,
            model_id: self.model_id@,
            voice_id: self.voice_id@,
            params: self.params@,
        }
    }
}

/// The fields of a request on the wire, in the order in which they are
/// written: the text, the model, the voice, then the fields of the
/// parameters, which stand beside them and not in an object of their own.
pub open spec fn request_fields(r: RequestModel) -> Seq<(Seq<char>, Option<JsonModel>)> {
    seq![
        ("text"@, Some(JsonModel::Text(r.text))),
        ("model_id"@, Some(JsonModel::Text(r.model_id))),
        ("voice_id"@, Some(JsonModel::Text(r.voice_id))),
    ] + params_fields(r.params)
}

/// The wire form of a request.
pub open spec fn request_json(r: RequestModel) -> JsonModel {
    JsonModel::Object(present(request_fields(r)))
}

/// The parameters with the speed of the voice set, whatever other settings
/// of the voice they hold.
pub open spec fn at_speed(p: ParamsModel, speed: NumberModel) -> ParamsModel {
    ParamsModel {
        voice_settings: Some(
            VoiceSettingsModel {
                speed: Some(speed),
                ..match p.voice_settings {
                    Some(v) => v,
                    None => VoiceSettingsModel::unset(),
                }
            },
        ),
        ..p
    }
}

/// The request that a call for speech makes, or the reason why it makes
/// none: the parameters must be there and well-formed, and the speed asked
/// for goes into their voice settings.
pub open spec fn request_of(
    model_name: Seq<char>,
    text: Seq<char>,
    voice: Seq<char>,
    speed: NumberModel,
    additional_params: Option<JsonModel>,
) -> Result<RequestModel, RequestError> {
    match additional_params {
        None => Err(RequestError::MissingParameters),
        Some(json) => match params_of(json) {
            None => Err(RequestError::MalformedParameters),
            Some(params) => Ok(
                RequestModel { text, model_id: model_name, voice_id: voice, params: at_speed(params, speed) },
            ),
        },
    }
}

/// The path on the service under which a request is sent: the voice, and
/// the output format as the JSON text of its name.
pub open spec fn request_path(r: RequestModel) -> Seq<char> {
    "/text-to-speech/"@ + r.voice_id + "?output_format="@ + printed(
        JsonModel::Text(r.params.output_format.wire_name()),
    )
}

/// The keys of a request, in the order of its fields.
pub open spec fn request_keys() -> Seq<Seq<char>> {
    seq![
        "text"@,
        "model_id"@,
        "voice_id"@,
        "output_format"@,
        "language_code"@,
        "voice_settings"@,
        "seed"@,
        "previous_text"@,
        "next_text"@,
        "previous_request_ids"@,
        "next_request_ids"@,
        "apply_text_normalization"@,
        "apply_language_text_normalization"@,
    ]
}

/// The keys of a request differ from one another.
pub proof fn lemma_request_fields_distinct(x: RequestModel)
    ensures
        distinct_fields(request_fields(x)),
        request_fields(x).len() == 13,
{
    reveal_strlit("text");
    reveal_strlit("model_id");
    reveal_strlit("voice_id");
    reveal_strlit("output_format");
    reveal_strlit("language_code");
    reveal_strlit("voice_settings");
    reveal_strlit("seed");
    reveal_strlit("previous_text");
    reveal_strlit("next_text");
    reveal_strlit("previous_request_ids");
    reveal_strlit("next_request_ids");
    reveal_strlit("apply_text_normalization");
    reveal_strlit("apply_language_text_normalization");
    let keys = request_keys();
    assert(keys[0].len() == 4 && keys[0][0] == 't' && keys[0][1] == 'e' && keys[0][2] == 'x' && keys[0][3] == 't');
    assert(keys[1].len() == 8 && keys[1][0] == 'm' && keys[1][1] == 'o' && keys[1][2] == 'd' && keys[1][3] == 'e' && keys[1][4] == 'l' && keys[1][5] == '_' && keys[1][6] == 'i' && keys[1][7] == 'd');
    assert(keys[2].len() == 8 && keys[2][0] == 'v' && keys[2][1] == 'o' && keys[2][2] == 'i' && keys[2][3] == 'c' && keys[2][4] == 'e' && keys[2][5] == '_' && keys[2][6] == 'i' && keys[2][7] == 'd');
    assert(keys[3].len() == 13 && keys[3][0] == 'o' && keys[3][1] == 'u' && keys[3][2] == 't' && keys[3][3] == 'p' && keys[3][4] == 'u' && keys[3][5] == 't' && keys[3][6] == '_' && keys[3][7] == 'f' && keys[3][8] == 'o' && keys[3][9] == 'r' && keys[3][10] == 'm' && keys[3][11] == 'a' && keys[3][12] == 't');
    assert(keys[4].len() == 13 && keys[4][0] == 'l' && keys[4][1] == 'a' && keys[4][2] == 'n' && keys[4][3] == 'g' && keys[4][4] == 'u' && keys[4][5] == 'a' && keys[4][6] == 'g' && keys[4][7] == 'e' && keys[4][8] == '_' && keys[4][9] == 'c' && keys[4][10] == 'o' && keys[4][11] == 'd' && keys[4][12] == 'e');
    assert(keys[5].len() == 14 && keys[5][0] == 'v' && keys[5][1] == 'o' && keys[5][2] == 'i' && keys[5][3] == 'c' && keys[5][4] == 'e' && keys[5][5] == '_' && keys[5][6] == 's' && keys[5][7] == 'e' && keys[5][8] == 't' && keys[5][9] == 't' && keys[5][10] == 'i' && keys[5][11] == 'n' && keys[5][12] == 'g' && keys[5][13] == 's');
    assert(keys[6].len() == 4 && keys[6][0] == 's' && keys[6][1] == 'e' && keys[6][2] == 'e' && keys[6][3] == 'd');
    assert(keys[7].len() == 13 && keys[7][0] == 'p' && keys[7][1] == 'r' && keys[7][2] == 'e' && keys[7][3] == 'v' && keys[7][4] == 'i' && keys[7][5] == 'o' && keys[7][6] == 'u' && keys[7][7] == 's' && keys[7][8] == '_' && keys[7][9] == 't' && keys[7][10] == 'e' && keys[7][11] == 'x' && keys[7][12] == 't');
    assert(keys[8].len() == 9 && keys[8][0] == 'n' && keys[8][1] == 'e' && keys[8][2] == 'x' && keys[8][3] == 't' && keys[8][4] == '_' && keys[8][5] == 't' && keys[8][6] == 'e' && keys[8][7] == 'x' && keys[8][8] == 't');
    assert(keys[9].len() == 20 && keys[9][0] == 'p' && keys[9][1] == 'r' && keys[9][2] == 'e' && keys[9][3] == 'v' && keys[9][4] == 'i' && keys[9][5] == 'o' && keys[9][6] == 'u' && keys[9][7] == 's' && keys[9][8] == '_' && keys[9][9] == 'r' && keys[9][10] == 'e' && keys[9][11] == 'q' && keys[9][12] == 'u' && keys[9][13] == 'e' && keys[9][14] == 's' && keys[9][15] == 't' && keys[9][16] == '_' && keys[9][17] == 'i' && keys[9][18] == 'd' && keys[9][19] == 's');
    assert(keys[10].len() == 16 && keys[10][0] == 'n' && keys[10][1] == 'e' && keys[10][2] == 'x' && keys[10][3] == 't' && keys[10][4] == '_' && keys[10][5] == 'r' && keys[10][6] == 'e' && keys[10][7] == 'q' && keys[10][8] == 'u' && keys[10][9] == 'e' && keys[10][10] == 's' && keys[10][11] == 't' && keys[10][12] == '_' && keys[10][13] == 'i' && keys[10][14] == 'd' && keys[10][15] == 's');
    assert(keys[11].len() == 24 && keys[11][0] == 'a' && keys[11][1] == 'p' && keys[11][2] == 'p' && keys[11][3] == 'l' && keys[11][4] == 'y' && keys[11][5] == '_' && keys[11][6] == 't' && keys[11][7] == 'e' && keys[11][8] == 'x' && keys[11][9] == 't' && keys[11][10] == '_' && keys[11][11] == 'n' && keys[11][12] == 'o' && keys[11][13] == 'r' && keys[11][14] == 'm' && keys[11][15] == 'a' && keys[11][16] == 'l' && keys[11][17] == 'i' && keys[11][18] == 'z' && keys[11][19] == 'a' && keys[11][20] == 't' && keys[11][21] == 'i' && keys[11][22] == 'o' && keys[11][23] == 'n');
    assert(keys[12].len() == 33 && keys[12][0] == 'a' && keys[12][1] == 'p' && keys[12][2] == 'p' && keys[12][3] == 'l' && keys[12][4] == 'y' && keys[12][5] == '_' && keys[12][6] == 'l' && keys[12][7] == 'a' && keys[12][8] == 'n' && keys[12][9] == 'g' && keys[12][10] == 'u' && keys[12][11] == 'a' && keys[12][12] == 'g' && keys[12][13] == 'e' && keys[12][14] == '_' && keys[12][15] == 't' && keys[12][16] == 'e' && keys[12][17] == 'x' && keys[12][18] == 't' && keys[12][19] == '_' && keys[12][20] == 'n' && keys[12][21] == 'o' && keys[12][22] == 'r' && keys[12][23] == 'm' && keys[12][24] == 'a' && keys[12][25] == 'l' && keys[12][26] == 'i' && keys[12][27] == 'z' && keys[12][28] == 'a' && keys[12][29] == 't' && keys[12][30] == 'i' && keys[12][31] == 'o' && keys[12][32] == 'n');
    let fields = request_fields(x);
    assert(fields.len() == 13);
    assert forall|i: int| 0 <= i < 13 implies (#[trigger] fields[i]).0 == keys[i] by {
        if i >= 3 {
            assert(fields[i] == params_fields(x.params)[i - 3]);
        }
    }
    assert forall|i: int, j: int| 0 <= i < j < fields.len() implies (#[trigger] fields[i]).0 != (
    #[trigger] fields[j]).0 by {
        assert(fields[i].0 == keys[i] && fields[j].0 == keys[j]);
    }
}

impl AudioGenerationRequest {
    /// Puts a request together from a call for speech.
    pub fn try_from_parts(
        model_name: &str,
        text: String,
        voice: String,
        speed: Number,
        additional_params: Option<serde_json::Value>,
    ) -> (r: Result<AudioGenerationRequest, RequestError>)
        ensures
            match request_of(model_name@, text@, voice@, speed@, found_models(additional_params)) {
                Ok(request) => r matches Ok(made) && made@ == request,
                Err(e) => r == Err::<AudioGenerationRequest, RequestError>(e),
            },
    {
        let json = match additional_params {
            Some(json) => json,
            None => {
                return Err(RequestError::MissingParameters);
            },
        };
        let mut params = match ElevenLabsParams::from_value(&json) {
            Some(params) => params,
            None => {
                return Err(RequestError::MalformedParameters);
            },
        };
        let settings = match params.voice_settings {
            Some(settings) => settings,
            None => VoiceSettings::default(),
        };
        params.voice_settings = Some(settings.with_speed(speed));
        Ok(AudioGenerationRequest { text, voice_id: voice, model_id: model_name.to_owned(), params })
    }

    /// The wire form of the request.
    pub fn to_value(&self) -> (r: serde_json::Value)
        ensures
            value_of(r) == request_json(self@),
    {
        let ghost head = seq![
            ("text"@, Some(JsonModel::Text(self@.text))),
            ("model_id"@, Some(JsonModel::Text(self@.model_id))),
            ("voice_id"@, Some(JsonModel::Text(self@.voice_id))),
        ];
        let mut members: Vec<(String, serde_json::Value)> = Vec::new();
        assert(members_of(members@) =~= present(head.take(0)));
        put(&mut members, "text", Some(text_value(self.text.clone())));
        assert(members_of(members@) == present(head.take(1))) by {
            assert(head.take(1).drop_last() =~= head.take(0));
        }
        put(&mut members, "model_id", Some(text_value(self.model_id.clone())));
        assert(members_of(members@) == present(head.take(2))) by {
            assert(head.take(2).drop_last() =~= head.take(1));
        }
        put(&mut members, "voice_id", Some(text_value(self.voice_id.clone())));
        assert(members_of(members@) == present(head)) by {
            assert(head.take(3).drop_last() =~= head.take(2));
            assert(head.take(3) =~= head);
        }
        self.params.put_fields(&mut members, Ghost(head));
        proof {
            lemma_request_fields_distinct(self@);
            lemma_present_reads_back(request_fields(self@));
        }
        object_value(members)
    }

    /// The body of the request: its wire form as compact JSON.
    pub fn body(&self) -> (r: String)
        ensures
            r@ == printed(request_json(self@)),
    {
        print(&self.to_value())
    }

    /// The path on the service under which the request is sent.
    pub fn path(&self) -> (r: String)
        ensures
            r@ == request_path(self@),
    {
        let format = print(&text_value(self.params.output_format.name().to_owned()));
        let mut out = "/text-to-speech/".to_owned();
        out.append(self.voice_id.as_str());
        out.append("?output_format=");
        out.append(format.as_str());
        out
    }
}

/// The model of a text-to-speech service, by name.
#[derive(Debug, Clone, PartialEq)]
pub struct AudioGenerationModel {
    model: String,
}

impl View for AudioGenerationModel {
    type V = Seq<char>;

    closed spec fn view(&self) -> Seq<char> {
        self.model@
    }
}

impl AudioGenerationModel {
    /// The model of this name.
    pub fn new(model: &str) -> (r: Self)
        ensures
            r@ == model@,
    {
        AudioGenerationModel { model: model.to_owned() }
    }

    /// The request that this model makes of a call for speech.
    pub fn request(
        &self,
        text: String,
        voice: String,
        speed: Number,
        additional_params: Option<serde_json::Value>,
    ) -> (r: Result<AudioGenerationRequest, RequestError>)
        ensures
            match request_of(self@, text@, voice@, speed@, found_models(additional_params)) {
                Ok(request) => r matches Ok(made) && made@ == request,
                Err(e) => r == Err::<AudioGenerationRequest, RequestError>(e),
            },
    {
        AudioGenerationRequest::try_from_parts(
            self.model.as_str(),
            text,
            voice,
            speed,
            additional_params,
        )
    }
}

} // verus!
