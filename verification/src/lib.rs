//! Verified core of a realtime speech-translation virtual microphone engine:
//! configuration parsing, wire-format builders and parsers for realtime
//! translation services, sample ring buffers, metrics, and the decision logic
//! of the caption pipeline.

pub mod text;
pub mod scan;
pub mod config;
pub mod base64;
pub mod wire;
pub mod azure_voice_live;
pub mod openai_realtime;
pub mod metrics;
pub mod ring;
pub mod shared_output;
pub mod stt_models;
pub mod caption;
pub mod mt_local;
pub mod mt_client;
pub mod tts;
pub mod session;
pub mod chunking;
