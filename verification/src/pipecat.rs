//! The AI-bridge streaming provider: wire messages, connection status, the
//! client state machine, and the call-level switches that decide whether a
//! call's AI processing is handed to the bridge.

pub mod client;
pub mod config;
pub mod passthrough;

use vstd::prelude::*;
use crate::config::Config;
use crate::errors::MediaError;
use crate::pipecat::client::PipecatClient;
use crate::pipecat::config::validate_err;

verus! {

/// The state of a streaming-provider link. Only a connection attempt moves
/// a disconnected or failed link to `Connecting`, only a successful
/// handshake moves it to `Connected`, and any transport failure moves it to
/// `Error`.
#[derive(Debug, Clone)]
pub enum ConnectionStatus {
    Disconnected,
    Connecting,
    Connected,
    Error(String),
}

/// Whether two statuses describe the same state.
pub open spec fn status_eq(a: &ConnectionStatus, b: &ConnectionStatus) -> bool {
    match (a, b) {
        (ConnectionStatus::Disconnected, ConnectionStatus::Disconnected) => true,
        (ConnectionStatus::Connecting, ConnectionStatus::Connecting) => true,
        (ConnectionStatus::Connected, ConnectionStatus::Connected) => true,
        (ConnectionStatus::Error(x), ConnectionStatus::Error(y)) => x@ == y@,
        _ => false,
    }
}

impl PartialEq for ConnectionStatus {
    fn eq(&self, other: &Self) -> (r: bool) {
        match (self, other) {
            (ConnectionStatus::Disconnected, ConnectionStatus::Disconnected) => true,
            (ConnectionStatus::Connecting, ConnectionStatus::Connecting) => true,
            (ConnectionStatus::Connected, ConnectionStatus::Connected) => true,
            (ConnectionStatus::Error(x), ConnectionStatus::Error(y)) => *x == *y,
            _ => false,
        }
    }
}

impl vstd::std_specs::cmp::PartialEqSpecImpl for ConnectionStatus {
    open spec fn obeys_eq_spec() -> bool {
        true
    }

    open spec fn eq_spec(&self, other: &Self) -> bool {
        status_eq(self, other)
    }
}

/// One audio frame on the bridge wire.
#[derive(Debug, Clone)]
pub struct PipecatAudioFrame {
    pub audio_data: Vec<u8>,
    pub sample_rate: u32,
    pub channels: u32,
    pub timestamp: u64,
    pub frame_id: String,
}

/// A structured record the bridge server sends.
#[derive(Debug, Clone)]
pub enum PipecatResponse {
    Audio { audio_data: Vec<u8>, sample_rate: u32, channels: u32, frame_id: String },
    Transcription { text: String, is_final: bool, timestamp: u64, language: String },
    LlmResponse { text: String, is_complete: bool, timestamp: u64 },
    TtsStarted { text: String, timestamp: u64 },
    TtsCompleted { text: String, timestamp: u64 },
    Error { message: String, code: Option<i32>, timestamp: u64 },
    Metrics { key: String, duration: u64, timestamp: u64 },
    Ping { timestamp: u64 },
    Pong { timestamp: u64 },
    Connected { server: String, version: String, timestamp: u64 },
    Configured { call_id: String, status: String, timestamp: u64 },
}

/// A command sent to the bridge server. The per-capability configurations
/// ride along as structured text the host renders.
#[derive(Debug, Clone)]
pub enum PipecatMessage {
    Audio(PipecatAudioFrame),
    Configure {
        room_id: String,
        system_prompt: Option<String>,
        stt_config: Option<String>,
        llm_config: Option<String>,
        tts_config: Option<String>,
    },
    Ping { timestamp: u64 },
    Disconnect { reason: String },
}

/// A higher-level event the client republishes from the bridge's records.
#[derive(Debug, Clone)]
pub enum PipecatEvent {
    TranscriptionDelta { text: String, timestamp: u64 },
    TranscriptionFinal { text: String, timestamp: u64 },
    LlmResponse { text: String, is_complete: bool, timestamp: u64 },
    AudioResponse { audio_data: Vec<u8>, sample_rate: u32, channels: u32 },
    TtsStarted { text: String, timestamp: u64 },
    TtsCompleted { text: String, timestamp: u64 },
    Error { message: String, code: Option<i32> },
    Metrics { key: String, duration: u64 },
    Ping { timestamp: u64 },
    Pong { timestamp: u64 },
    Connected { server: String, version: String },
}

/// Whether the bridge is enabled in the process configuration.
pub fn is_enabled(config: &Config) -> (r: bool)
    ensures
        r == (config.pipecat matches Some(p) && p.enabled),
{
    match &config.pipecat {
        Some(p) => p.enabled,
        None => false,
    }
}

/// Whether the bridge both is enabled and owns AI processing, so that the
/// internal recognition stack must stand down.
pub fn should_use_pipecat(config: &Config) -> (r: bool)
    ensures
        r == (config.pipecat matches Some(p) && p.enabled && p.use_for_ai),
{
    match &config.pipecat {
        Some(p) => p.enabled && p.use_for_ai,
        None => false,
    }
}

/// The bridge server URL the process configuration names, if any.
pub fn get_server_url(config: &Config) -> (r: Option<String>)
    ensures
        match &config.pipecat {
            Some(p) => r == p.server_url,
            None => r is None,
        },
{
    match &config.pipecat {
        Some(p) => crate::text::clone_opt_string(&p.server_url),
        None => None,
    }
}

/// Build a bridge client from the process configuration: succeeds exactly
/// when the configuration names a bridge that passes validation. A
/// configuration without a bridge fails as `BridgeUnavailable`; an invalid
/// bridge configuration fails with the violated rule.
pub fn create_client(config: &Config) -> (r: Result<PipecatClient, MediaError>)
    ensures
        (r is Ok) == (config.pipecat matches Some(p) && validate_err(&p) is None),
        config.pipecat is None ==> (r matches Err(e) && e == MediaError::BridgeUnavailable),
        match config.pipecat {
            Some(p) => match validate_err(&p) {
                Some(v) => r matches Err(e) && (e matches MediaError::InvalidConfiguration(m)
                    && m@ == v),
                None => true,
            },
            None => true,
        },
        r matches Ok(c) ==> config.pipecat matches Some(p) && c.spec_config() == p
            && c.spec_status() is Disconnected && c.spec_attempts() == 0
            && c.spec_frame_counter() == 0,
{
    match &config.pipecat {
        Some(p) => PipecatClient::new(p.duplicate()),
        None => Err(MediaError::BridgeUnavailable),
    }
}

} // verus!
