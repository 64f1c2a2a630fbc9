//! Extensions for agents built on language models, with a realtime voice
//! session engine at the centre.
//!
//! The engine speaks the typed event protocol of a conversational-audio
//! endpoint: [`session`] holds the settings of a conversation, [`event`] the
//! events and their wire form over [`json`], [`pump`] the ordered queue of what
//! is sent, [`inbound`] the decoding of what comes in, and [`state`] the life
//! of a session. [`audio`], [`handoff`] and [`jitter`] are the integer side of
//! the audio path: samples on the wire, the handoff from a capture callback,
//! and the buffer in front of playback. [`connect`] says where a session is
//! opened and with which credentials.
//!
//! Around the engine stand the plain parts of other helpers: requests to a
//! text-to-speech service ([`elevenlabs`]), the bookkeeping of a local model
//! ([`chat_prompt`], [`generation`], [`token_stream`]), the rounds of an agent
//! that runs by itself ([`agents`]), and the decisions of a semantic router
//! ([`routing`]).
//!
//! Everything here works on plain values. Connecting, awaiting, floating
//! point and talking to audio devices are left to the program around the
//! library.

pub mod json;
pub mod session;
pub mod event;
pub mod inbound;
pub mod pump;
pub mod state;
pub mod audio;
pub mod jitter;
pub mod handoff;
pub mod connect;
pub mod elevenlabs;
pub mod chat_prompt;
pub mod generation;
pub mod token_stream;
pub mod agents;
pub mod routing;
