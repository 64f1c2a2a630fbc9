//! Audio on the wire: signed 16-bit samples, two bytes each with the low byte
//! first, the bytes base64-encoded.
//!
//! The base64 coding itself is that of the `base64` crate, in its standard
//! alphabet with padding. What it makes of given bytes is not restated here:
//! the contracts name it.

use crate::event::{InputEvent, InputEventKindModel, InputEventModel};
use crate::session::{Session, SessionModel};
use vstd::prelude::*;

verus! {

/// The standard base64 text of some bytes, as `base64` encodes them.
pub uninterp spec fn base64_text(bytes: Seq<u8>) -> Seq<char>;

/// The bytes that a text stands for in standard base64, as `base64` decodes
/// it; nothing for a text that is not base64.
pub uninterp spec fn base64_bytes(text: Seq<char>) -> Option<Seq<u8>>;

/// `Engine::encode` of the standard engine. (It gives up only on an input
/// whose encoding is longer than an address can count, and no slice in memory
/// is that long.)
#[verifier::external_body]
pub(crate) fn encode_base64(bytes: &[u8]) -> (r: String)
    ensures
        r@ == base64_text(bytes@),
{
    base64::Engine::encode(&base64::prelude::BASE64_STANDARD, bytes)
}

/// `Engine::decode` of the standard engine.
#[verifier::external_body]
pub(crate) fn decode_base64(text: &str) -> (r: Option<Vec<u8>>)
    ensures
        r matches Some(bytes) ==> base64_bytes(text@) == Some(bytes@),
        r is None ==> base64_bytes(text@) is None,
{
    base64::Engine::decode(&base64::prelude::BASE64_STANDARD, text).ok()
}

/// A sample as a number from 0 to 65535: its two's complement.
pub open spec fn unsigned(sample: i16) -> int {
    if sample >= 0 {
        sample as int
    } else {
        sample + 65536
    }
}

/// The low byte of a sample.
pub open spec fn low_byte(sample: i16) -> u8 {
    (unsigned(sample) % 256) as u8
}

/// The high byte of a sample.
pub open spec fn high_byte(sample: i16) -> u8 {
    (unsigned(sample) / 256) as u8
}

/// The sample that a low and a high byte make.
pub open spec fn sample_of(low: u8, high: u8) -> i16 {
    let u = high * 256 + low;
    if u < 32768 {
        u as i16
    } else {
        (u - 65536) as i16
    }
}

/// The bytes of a run of samples: two for each, the low byte first.
pub open spec fn pcm_bytes(samples: Seq<i16>) -> Seq<u8> {
    Seq::new(
        2 * samples.len(),
        |i: int|
            if i % 2 == 0 {
                low_byte(samples[i / 2])
            } else {
                high_byte(samples[i / 2])
            },
    )
}

/// The samples that a run of bytes holds; nothing for an odd number of bytes.
pub open spec fn pcm_samples(bytes: Seq<u8>) -> Option<Seq<i16>> {
    if bytes.len() % 2 == 0 {
        Some(Seq::new(bytes.len() / 2, |k: int| sample_of(bytes[2 * k], bytes[2 * k + 1])))
    } else {
        None
    }
}

/// A sample comes back from its two bytes.
pub proof fn lemma_sample_round_trip(sample: i16)
    ensures
        sample_of(low_byte(sample), high_byte(sample)) == sample,
{
}

/// A run of samples comes back from its bytes.
pub proof fn lemma_pcm_round_trip(samples: Seq<i16>)
    ensures
        pcm_samples(pcm_bytes(samples)) == Some(samples),
{
    let bytes = pcm_bytes(samples);
    let back = Seq::new(bytes.len() / 2, |k: int| sample_of(bytes[2 * k], bytes[2 * k + 1]));
    assert forall|k: int| 0 <= k < samples.len() implies back[k] == samples[k] by {
        assert(bytes[2 * k] == low_byte(samples[k]));
        assert(bytes[2 * k + 1] == high_byte(samples[k]));
        lemma_sample_round_trip(samples[k]);
    }
    assert(back =~= samples);
}

/// Why a chunk of received audio could not be used.
#[derive(Debug, Clone, Copy, PartialEq, Eq, Structural)]
pub enum AudioError {
    /// The text is not base64.
    NotBase64,
    /// The bytes do not make whole samples.
    OddLength,
}

/// The two bytes of a sample, the low one first.
pub fn split_sample(sample: i16) -> (r: (u8, u8))
    ensures
        r.0 == low_byte(sample),
        r.1 == high_byte(sample),
{
    let wide: i32 = sample as i32;
    let u: i32 = if wide >= 0 {
        wide
    } else {
        wide + 65536
    };
    ((u % 256) as u8, (u / 256) as u8)
}

/// The sample that two bytes make, the low one first.
pub fn join_sample(low: u8, high: u8) -> (r: i16)
    ensures
        r == sample_of(low, high),
{
    let u: i32 = (high as i32) * 256 + (low as i32);
    if u < 32768 {
        u as i16
    } else {
        (u - 65536) as i16
    }
}

/// The bytes of a run of samples.
pub fn to_bytes(samples: &[i16]) -> (r: Vec<u8>)
    ensures
        r@ == pcm_bytes(samples@),
{
    let mut out: Vec<u8> = Vec::new();
    let mut i: usize = 0;
    while i < samples.len()
        invariant
            i <= samples.len(),
            out@ == pcm_bytes(samples@.take(i as int)),
        decreases samples.len() - i,
    {
        let (low, high) = split_sample(samples[i]);
        let ghost before = out@;
        out.push(low);
        out.push(high);
        proof {
            let target = pcm_bytes(samples@.take(i + 1));
            assert(out@.len() == target.len());
            assert forall|k: int| 0 <= k < out@.len() implies out@[k] == target[k] by {
                if k < 2 * i {
                    assert(before[k] == pcm_bytes(samples@.take(i as int))[k]);
                    assert(samples@.take(i as int)[k / 2] == samples@.take(i + 1)[k / 2]);
                }
            }
            assert(out@ =~= target);
        }
        i += 1;
    }
    assert(samples@.take(i as int) =~= samples@);
    out
}

/// The samples that a run of bytes holds; nothing for an odd number of bytes.
pub fn from_bytes(bytes: &[u8]) -> (r: Option<Vec<i16>>)
    ensures
        r matches Some(samples) ==> pcm_samples(bytes@) == Some(samples@),
        r is None ==> pcm_samples(bytes@) is None,
{
    if bytes.len() % 2 != 0 {
        return None;
    }
    let count = bytes.len() / 2;
    let mut out: Vec<i16> = Vec::new();
    let mut k: usize = 0;
    while k < count
        invariant
            k <= count,
            count == bytes.len() / 2,
            bytes.len() % 2 == 0,
            out@.len() == k,
            forall|j: int| 0 <= j < k ==> out@[j] == sample_of(bytes@[2 * j], bytes@[2 * j + 1]),
        decreases count - k,
    {
        out.push(join_sample(bytes[2 * k], bytes[2 * k + 1]));
        k += 1;
    }
    assert(out@ =~= pcm_samples(bytes@).unwrap());
    Some(out)
}

/// The event that appends a chunk of captured audio: the samples as bytes,
/// the bytes as base64.
pub fn encode_chunk(samples: &[i16]) -> (r: InputEvent)
    ensures
        r@ == (InputEventModel {
            event_id: None,
            data: InputEventKindModel::AppendAudioInput {
                audio: base64_text(pcm_bytes(samples@)),
            },
        }),
{
    let bytes = to_bytes(samples);
    let text = encode_base64(bytes.as_slice());
    InputEvent::append_audio(text.as_str())
}

/// What the decoded bytes of a chunk give: the samples they hold, or the
/// reason why there are none. `decoded` is what the base64 decoding gave.
pub fn samples_of_decoded(decoded: Option<Vec<u8>>) -> (r: Result<Vec<i16>, AudioError>)
    ensures
        match decoded {
            None => r == Err::<Vec<i16>, AudioError>(AudioError::NotBase64),
            Some(bytes) => match pcm_samples(bytes@) {
                Some(samples) => r matches Ok(out) && out@ == samples,
                None => r == Err::<Vec<i16>, AudioError>(AudioError::OddLength),
            },
        },
{
    match decoded {
        None => Err(AudioError::NotBase64),
        Some(bytes) => match from_bytes(bytes.as_slice()) {
            Some(samples) => Ok(samples),
            None => Err(AudioError::OddLength),
        },
    }
}

/// The samples of a received audio delta.
pub fn decode_delta(delta: &str) -> (r: Result<Vec<i16>, AudioError>)
    ensures
        match base64_bytes(delta@) {
            None => r == Err::<Vec<i16>, AudioError>(AudioError::NotBase64),
            Some(bytes) => match pcm_samples(bytes) {
                Some(samples) => r matches Ok(out) && out@ == samples,
                None => r == Err::<Vec<i16>, AudioError>(AudioError::OddLength),
            },
        },
{
    samples_of_decoded(decode_base64(delta))
}

/// The sample rate of the audio that the protocol carries, in samples per
/// second.
pub const PROTOCOL_SAMPLE_RATE: u32 = 24_000;

/// What an audio frame holds.
pub struct AudioFrameModel {
    pub samples: Seq<i16>,
    pub channels: u16,
    pub sample_rate: u32,
}

/// A run of samples at a fixed number of channels and a fixed rate. The
/// samples of the channels take turns.
#[derive(Debug, Clone, PartialEq)]
pub struct AudioFrame {
    pub samples: Vec<i16>,
    pub channels: u16,
    pub sample_rate: u32,
}

impl View for AudioFrame {
    type V = AudioFrameModel;

    open spec fn view(&self) -> AudioFrameModel {
        AudioFrameModel {
            samples: self.samples@,
            channels: self.channels,
            sample_rate: self.sample_rate,
        }
    }
}

impl AudioFrame {
    /// A frame of one channel at the rate of the protocol.
    pub fn mono(samples: Vec<i16>) -> (r: Self)
        ensures
            r@ == (AudioFrameModel {
                samples: samples@,
                channels: 1,
                sample_rate: PROTOCOL_SAMPLE_RATE,
            }),
    {
        AudioFrame { samples, channels: 1, sample_rate: PROTOCOL_SAMPLE_RATE }
    }

    /// The frame that a received audio delta holds: one channel at the rate
    /// of the protocol.
    pub fn from_delta(delta: &str) -> (r: Result<AudioFrame, AudioError>)
        ensures
            match base64_bytes(delta@) {
                None => r == Err::<AudioFrame, AudioError>(AudioError::NotBase64),
                Some(bytes) => match pcm_samples(bytes) {
                    Some(samples) => r matches Ok(frame) && frame@ == (AudioFrameModel {
                        samples,
                        channels: 1,
                        sample_rate: PROTOCOL_SAMPLE_RATE,
                    }),
                    None => r == Err::<AudioFrame, AudioError>(AudioError::OddLength),
                },
            },
    {
        match decode_delta(delta) {
            Ok(samples) => Ok(AudioFrame::mono(samples)),
            Err(e) => Err(e),
        }
    }

    /// The event that appends the samples of the frame to the audio sent.
    pub fn to_event(&self) -> (r: InputEvent)
        ensures
            r@ == (InputEventModel {
                event_id: None,
                data: InputEventKindModel::AppendAudioInput {
                    audio: base64_text(pcm_bytes(self@.samples)),
                },
            }),
    {
        encode_chunk(self.samples.as_slice())
    }

    /// The number of moments in time that the frame covers: its samples,
    /// shared out among its channels. A frame without channels covers none.
    pub fn moments(&self) -> (r: usize)
        ensures
            r == (if self@.channels == 0 {
                0
            } else {
                self@.samples.len() as int / self@.channels as int
            }),
    {
        if self.channels == 0 {
            0
        } else {
            self.samples.len() / (self.channels as usize)
        }
    }
}

/// Who decides where a turn of the speaker ends.
#[derive(Debug, Clone, Copy, PartialEq, Eq, Structural)]
pub enum TurnPolicy {
    /// The caller says so, and the audio sent is committed by hand.
    Manual,
    /// The far end listens for the end of speech; nothing is committed from
    /// this side.
    ServerDetected,
}

/// The policy that a session configuration asks for: the far end decides
/// where turn detection is set, the caller where it is not.
pub open spec fn policy_of(session: SessionModel) -> TurnPolicy {
    if session.turn_detection is Some {
        TurnPolicy::ServerDetected
    } else {
        TurnPolicy::Manual
    }
}

/// The policy that a session configuration asks for.
pub fn turn_policy(session: &Session) -> (r: TurnPolicy)
    ensures
        r == policy_of(session@),
{
    match &session.turn_detection {
        Some(_) => TurnPolicy::ServerDetected,
        None => TurnPolicy::Manual,
    }
}

/// What the capture side sends at a moment between chunks: a commit where
/// the caller decides the turns and has signalled the end of one, and
/// nothing else, ever.
pub fn turn_boundary(policy: TurnPolicy, signalled: bool) -> (r: Option<InputEvent>)
    ensures
        match r {
            Some(event) => {
                &&& policy == TurnPolicy::Manual
                &&& signalled
                &&& event@ == (InputEventModel {
                    event_id: None,
                    data: InputEventKindModel::CommitAudioInputBuffer,
                })
            },
            None => policy == TurnPolicy::ServerDetected || !signalled,
        },
{
    match policy {
        TurnPolicy::Manual => if signalled {
            Some(InputEvent::commit_audio())
        } else {
            None
        },
        TurnPolicy::ServerDetected => None,
    }
}

} // verus!
