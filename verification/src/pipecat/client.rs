//! The bridge client's connection state machine.
//!
//! The client owns the per-connection state — status, reconnect counter,
//! audio frame counter — and decides every transition and every transmit;
//! the host performs the socket work and reports each outcome back. No
//! decision here ever blocks the audio path.

use vstd::prelude::*;
use vstd::string::StringExecFns;
use crate::errors::MediaError;
use crate::pipecat::config::{reconnect_delay_spec, validate_err, PipecatConfig};
use crate::text::{decimal_digits, u64_to_string};
use crate::pipecat::{ConnectionStatus, PipecatEvent, PipecatMessage, PipecatResponse};

verus! {

/// Relies on uuid::Uuid::new_v4 and its simple formatter: a fresh random
/// identifier rendered as exactly 32 hexadecimal digits.
#[verifier::external_body]
fn random_simple_uuid() -> (r: String)
    ensures
        r@.len() == 32,
{
    uuid::Uuid::new_v4().simple().to_string()
}

/// What the client decides when asked to send audio.
#[derive(Debug, Clone, Copy, PartialEq, Eq, Structural)]
pub enum SendAudioAction {
    /// Not connected, but the call may fall back to the internal stack:
    /// report success without transmitting a byte.
    SkipFallback,
    /// Nothing to send.
    SkipEmpty,
    /// Hand the bytes to the transport.
    Transmit,
}

/// What the reconnection policy decides before an attempt.
#[derive(Debug, Clone, Copy, PartialEq, Eq, Structural)]
pub enum ReconnectAction {
    /// Wait this many seconds, then attempt to connect again.
    Retry { delay_secs: u64 },
    /// Stop: the attempt limit is reached.
    GiveUp,
}

/// One inbound transport message, as the host hands it over: structured
/// records already parsed, everything else tagged.
#[derive(Debug, Clone)]
pub enum WsIncoming {
    /// A structured record parsed from a text message.
    Response(PipecatResponse),
    /// A text message that did not parse as a record.
    Unparsed,
    /// A binary message: raw audio from the bridge.
    Binary(Vec<u8>),
    /// A transport-level ping with its payload.
    Ping(Vec<u8>),
    /// A transport-level pong.
    Pong,
    /// The server closed the connection.
    Close,
}

/// What the receive loop does with one inbound message.
#[derive(Debug, Clone)]
pub enum LoopStep {
    /// Republish this event.
    Emit(PipecatEvent),
    /// Answer a transport ping with this payload.
    ReplyPong(Vec<u8>),
    /// Leave the loop; the connection is over.
    Stop,
    /// Nothing to do.
    Idle,
}

/// The event a structured record republishes, if any: transcriptions split
/// on finality, audio and control records map one to one, and a
/// configuration confirmation stays internal.
pub open spec fn response_event_spec(r: PipecatResponse) -> Option<PipecatEvent> {
    match r {
        PipecatResponse::Audio { audio_data, sample_rate, channels, .. } => Some(
            PipecatEvent::AudioResponse { audio_data, sample_rate, channels },
        ),
        PipecatResponse::Transcription { text, is_final, timestamp, .. } => if is_final {
            Some(PipecatEvent::TranscriptionFinal { text, timestamp })
        } else {
            Some(PipecatEvent::TranscriptionDelta { text, timestamp })
        },
        PipecatResponse::LlmResponse { text, is_complete, timestamp } => Some(
            PipecatEvent::LlmResponse { text, is_complete, timestamp },
        ),
        PipecatResponse::TtsStarted { text, timestamp } => Some(
            PipecatEvent::TtsStarted { text, timestamp },
        ),
        PipecatResponse::TtsCompleted { text, timestamp } => Some(
            PipecatEvent::TtsCompleted { text, timestamp },
        ),
        PipecatResponse::Error { message, code, .. } => Some(
            PipecatEvent::Error { message, code },
        ),
        PipecatResponse::Metrics { key, duration, .. } => Some(
            PipecatEvent::Metrics { key, duration },
        ),
        PipecatResponse::Ping { timestamp } => Some(PipecatEvent::Ping { timestamp }),
        PipecatResponse::Pong { timestamp } => Some(PipecatEvent::Pong { timestamp }),
        PipecatResponse::Connected { server, version, .. } => Some(
            PipecatEvent::Connected { server, version },
        ),
        PipecatResponse::Configured { .. } => None,
    }
}

/// The recognition settings announced to the bridge, as structured text:
/// the link's sample rate with the default language and model.
pub open spec fn stt_config_text(sample_rate: u32) -> Seq<char> {
    "{\"sample_rate\":"@ + decimal_digits(sample_rate as int)
        + ",\"language\":\"en\",\"model\":\"nova\"}"@
}

/// The language-model settings announced to the bridge, as structured text.
pub open spec fn llm_config_text() -> Seq<char> {
    "{\"model\":\"gpt-4o-mini\",\"max_tokens\":150,\"temperature\":0.7}"@
}

/// The synthesis settings announced to the bridge, as structured text: the
/// default voice at the link's sample rate and configured encoding.
pub open spec fn tts_config_text(sample_rate: u32, encoding: Option<Seq<char>>) -> Seq<char> {
    "{\"model\":\"aura-asteria-en\",\"sample_rate\":"@ + decimal_digits(sample_rate as int)
        + ",\"encoding\":"@ + (match encoding {
        Some(e) => "\""@ + e + "\""@,
        None => "null"@,
    }) + "}"@
}

/// The bridge client: configuration, link status, session identity and the
/// transmit counter. The socket itself lives with the host.
#[derive(Debug)]
pub struct PipecatClient {
    config: PipecatConfig,
    connection_status: ConnectionStatus,
    room_id: String,
    reconnect_attempts: u32,
    audio_frame_counter: u64,
}

impl PipecatClient {
    /// The client's configuration.
    pub closed spec fn spec_config(&self) -> PipecatConfig {
        self.config
    }

    /// The link status.
    pub closed spec fn spec_status(&self) -> ConnectionStatus {
        self.connection_status
    }

    /// The session identifier announced to the bridge.
    pub closed spec fn spec_room_id(&self) -> Seq<char> {
        self.room_id@
    }

    /// Reconnect attempts since the last successful connect.
    pub closed spec fn spec_attempts(&self) -> u32 {
        self.reconnect_attempts
    }

    /// Audio frames handed to the transport on this link.
    pub closed spec fn spec_frame_counter(&self) -> u64 {
        self.audio_frame_counter
    }

    /// The client's configuration.
    pub fn config(&self) -> (r: &PipecatConfig)
        ensures
            r == self.spec_config(),
    {
        &self.config
    }

    /// The session identifier announced to the bridge.
    pub fn room_id(&self) -> (r: &String)
        ensures
            r@ == self.spec_room_id(),
    {
        &self.room_id
    }

    /// Audio frames handed to the transport on this link.
    pub fn audio_frames_sent(&self) -> (r: u64)
        ensures
            r == self.spec_frame_counter(),
    {
        self.audio_frame_counter
    }

    /// Build a client for a validated configuration, disconnected, with a
    /// fresh session identifier.
    pub fn new(config: PipecatConfig) -> (r: Result<PipecatClient, MediaError>)
        ensures
            (r is Ok) == (validate_err(&config) is None),
            r matches Ok(c) ==> c.spec_config() == config && c.spec_status() is Disconnected
                && c.spec_attempts() == 0 && c.spec_frame_counter() == 0 && c.spec_room_id().len()
                == 40 && c.spec_room_id().subrange(0, 8) == "rustpbx_"@,
            r matches Err(e) ==> (e matches MediaError::InvalidConfiguration(m) && m@
                == validate_err(&config)->Some_0),
    {
        match config.validate() {
            Err(m) => Err(MediaError::InvalidConfiguration(m)),
            Ok(()) => {
                proof {
                    reveal_strlit("rustpbx_");
                }
                let mut room_id: String = "rustpbx_".to_owned();
                room_id.append(random_simple_uuid().as_str());
                proof {
                    assert(room_id@.subrange(0, 8) =~= "rustpbx_"@);
                }
                Ok(
                    PipecatClient {
                        config,
                        connection_status: ConnectionStatus::Disconnected,
                        room_id,
                        reconnect_attempts: 0,
                        audio_frame_counter: 0,
                    },
                )
            },
        }
    }

    /// Whether the link is connected.
    pub fn is_connected(&self) -> (r: bool)
        ensures
            r == (self.spec_status() is Connected),
    {
        match self.connection_status {
            ConnectionStatus::Connected => true,
            _ => false,
        }
    }

    /// The link status.
    pub fn get_status(&self) -> (r: ConnectionStatus)
        ensures
            r == self.spec_status(),
    {
        match &self.connection_status {
            ConnectionStatus::Disconnected => ConnectionStatus::Disconnected,
            ConnectionStatus::Connecting => ConnectionStatus::Connecting,
            ConnectionStatus::Connected => ConnectionStatus::Connected,
            ConnectionStatus::Error(m) => ConnectionStatus::Error(m.clone()),
        }
    }

    /// A connection attempt begins: the link is connecting. This is the
    /// only transition out of `Disconnected` or `Error` toward a live link.
    pub fn begin_connect(&mut self)
        ensures
            final(self).spec_status() is Connecting,
            final(self).spec_config() == old(self).spec_config(),
            final(self).spec_room_id() == old(self).spec_room_id(),
            final(self).spec_attempts() == old(self).spec_attempts(),
            final(self).spec_frame_counter() == old(self).spec_frame_counter(),
    {
        self.connection_status = ConnectionStatus::Connecting;
    }

    /// The handshake succeeded: the link is connected and the reconnect
    /// counter starts over.
    pub fn on_connected(&mut self)
        ensures
            final(self).spec_status() is Connected,
            final(self).spec_attempts() == 0,
            final(self).spec_config() == old(self).spec_config(),
            final(self).spec_room_id() == old(self).spec_room_id(),
            final(self).spec_frame_counter() == old(self).spec_frame_counter(),
    {
        self.connection_status = ConnectionStatus::Connected;
        self.reconnect_attempts = 0;
    }

    /// A connection attempt failed before the handshake: back to
    /// disconnected, counting the attempt.
    pub fn on_connect_failed(&mut self)
        requires
            old(self).spec_attempts() < u32::MAX,
        ensures
            final(self).spec_status() is Disconnected,
            final(self).spec_attempts() == old(self).spec_attempts() + 1,
            final(self).spec_config() == old(self).spec_config(),
            final(self).spec_room_id() == old(self).spec_room_id(),
            final(self).spec_frame_counter() == old(self).spec_frame_counter(),
    {
        self.connection_status = ConnectionStatus::Disconnected;
        self.reconnect_attempts = self.reconnect_attempts + 1;
    }

    /// A transport failure: the link is in error with the given reason.
    pub fn on_transport_error(&mut self, reason: String)
        ensures
            final(self).spec_status() matches ConnectionStatus::Error(m) && m == reason,
            final(self).spec_config() == old(self).spec_config(),
            final(self).spec_room_id() == old(self).spec_room_id(),
            final(self).spec_attempts() == old(self).spec_attempts(),
            final(self).spec_frame_counter() == old(self).spec_frame_counter(),
    {
        self.connection_status = ConnectionStatus::Error(reason);
    }

    /// The receive loop ended — transport close, fatal parse error or
    /// cancellation: the link is disconnected.
    pub fn on_loop_exit(&mut self)
        ensures
            final(self).spec_status() is Disconnected,
            final(self).spec_config() == old(self).spec_config(),
            final(self).spec_room_id() == old(self).spec_room_id(),
            final(self).spec_attempts() == old(self).spec_attempts(),
            final(self).spec_frame_counter() == old(self).spec_frame_counter(),
    {
        self.connection_status = ConnectionStatus::Disconnected;
    }

    /// Disconnect deliberately: the link is down and the host sends the
    /// returned farewell.
    pub fn disconnect(&mut self) -> (msg: PipecatMessage)
        ensures
            final(self).spec_status() is Disconnected,
            msg matches PipecatMessage::Disconnect { reason } && reason@ == "Client disconnect"@,
            final(self).spec_config() == old(self).spec_config(),
            final(self).spec_room_id() == old(self).spec_room_id(),
            final(self).spec_attempts() == old(self).spec_attempts(),
            final(self).spec_frame_counter() == old(self).spec_frame_counter(),
    {
        self.connection_status = ConnectionStatus::Disconnected;
        PipecatMessage::Disconnect { reason: "Client disconnect".to_owned() }
    }

    /// Decide what to do with one outbound audio buffer.
    ///
    /// While the link is not connected, a call that may fall back to the
    /// internal stack succeeds silently without transmitting a byte;
    /// otherwise the send fails with `NotConnected`. On a connected link an
    /// empty buffer is skipped and a non-empty one is handed to the
    /// transport, counting the frame. Audio is never queued while
    /// disconnected.
    pub fn send_audio(&mut self, audio_data: &Vec<u8>) -> (r: Result<SendAudioAction, MediaError>)
        requires
            old(self).spec_status() is Connected ==> old(self).spec_frame_counter() < u64::MAX,
        ensures
            final(self).spec_status() == old(self).spec_status(),
            final(self).spec_config() == old(self).spec_config(),
            final(self).spec_room_id() == old(self).spec_room_id(),
            final(self).spec_attempts() == old(self).spec_attempts(),
            if !(old(self).spec_status() is Connected) {
                &&& final(self).spec_frame_counter() == old(self).spec_frame_counter()
                &&& if old(self).spec_config().fallback_to_internal {
                    r == Ok::<SendAudioAction, MediaError>(SendAudioAction::SkipFallback)
                } else {
                    r == Err::<SendAudioAction, MediaError>(MediaError::NotConnected)
                }
            } else if audio_data@.len() == 0 {
                r == Ok::<SendAudioAction, MediaError>(SendAudioAction::SkipEmpty)
                    && final(self).spec_frame_counter() == old(self).spec_frame_counter()
            } else {
                r == Ok::<SendAudioAction, MediaError>(SendAudioAction::Transmit)
                    && final(self).spec_frame_counter() == old(self).spec_frame_counter() + 1
            },
    {
        if !self.is_connected() {
            if self.config.fallback_to_internal {
                return Ok(SendAudioAction::SkipFallback);
            } else {
                return Err(MediaError::NotConnected);
            }
        }
        if audio_data.len() == 0 {
            return Ok(SendAudioAction::SkipEmpty);
        }
        self.audio_frame_counter = self.audio_frame_counter + 1;
        Ok(SendAudioAction::Transmit)
    }

    /// The transport reported how a transmit went: a failure puts the link
    /// in error with the transport's reason.
    pub fn on_send_result(&mut self, success: bool, reason: String)
        ensures
            success ==> final(self).spec_status() == old(self).spec_status(),
            !success ==> (final(self).spec_status() matches ConnectionStatus::Error(m) && m
                == reason),
            final(self).spec_config() == old(self).spec_config(),
            final(self).spec_room_id() == old(self).spec_room_id(),
            final(self).spec_attempts() == old(self).spec_attempts(),
            final(self).spec_frame_counter() == old(self).spec_frame_counter(),
    {
        if !success {
            self.connection_status = ConnectionStatus::Error(reason);
        }
    }

    /// Decide whether to retry after a failed attempt: retry with the
    /// backoff delay until the configured attempt limit, then give up; the
    /// caller surfaces `MaxReconnectAttemptsExceeded` on `GiveUp`.
    pub fn next_reconnect_action(&self, attempt: u32) -> (r: ReconnectAction)
        ensures
            r == if attempt >= self.spec_config().reconnect.max_attempts {
                ReconnectAction::GiveUp
            } else {
                ReconnectAction::Retry {
                    delay_secs: reconnect_delay_spec(
                        self.spec_config().reconnect.initial_delay,
                        self.spec_config().reconnect.backoff_multiplier,
                        self.spec_config().reconnect.max_delay,
                        attempt as int,
                    ) as u64,
                }
            },
    {
        if attempt >= self.config.reconnect.max_attempts {
            ReconnectAction::GiveUp
        } else {
            ReconnectAction::Retry { delay_secs: self.config.calculate_reconnect_delay(attempt) }
        }
    }

    /// Whether the keepalive loop should send its periodic liveness
    /// message: only while connected.
    pub fn should_send_ping(&self) -> (r: bool)
        ensures
            r == (self.spec_status() is Connected),
    {
        self.is_connected()
    }

    /// The periodic liveness message.
    pub fn make_ping(&self, timestamp: u64) -> (r: PipecatMessage)
        ensures
            r matches PipecatMessage::Ping { timestamp: t } && t == timestamp,
    {
        PipecatMessage::Ping { timestamp }
    }

    /// The keepalive failed to send: a transport error forcing the link
    /// down.
    pub fn on_ping_failed(&mut self, reason: String)
        ensures
            final(self).spec_status() matches ConnectionStatus::Error(m) && m == reason,
            final(self).spec_config() == old(self).spec_config(),
            final(self).spec_room_id() == old(self).spec_room_id(),
            final(self).spec_attempts() == old(self).spec_attempts(),
            final(self).spec_frame_counter() == old(self).spec_frame_counter(),
    {
        self.connection_status = ConnectionStatus::Error(reason);
    }

    /// The initial session configuration sent right after connecting: the
    /// session identifier, the configured system prompt, and the
    /// recognition, language-model and synthesis settings as structured
    /// text built from the audio configuration.
    pub fn make_configuration(&self) -> (r: PipecatMessage)
        ensures
            r matches PipecatMessage::Configure {
                room_id,
                system_prompt,
                stt_config,
                llm_config,
                tts_config,
            } && room_id@ == self.spec_room_id() && system_prompt
                == self.spec_config().default_system_prompt && (stt_config matches Some(s) && s@
                == stt_config_text(self.spec_config().audio.sample_rate)) && (
            llm_config matches Some(s) && s@ == llm_config_text()) && (tts_config matches Some(s)
                && s@ == tts_config_text(
                self.spec_config().audio.sample_rate,
                match self.spec_config().audio.encoding {
                    Some(e) => Some(e@),
                    None => None,
                },
            )),
    {
        let sr = u64_to_string(self.config.audio.sample_rate as u64);
        let mut stt: String = "{\"sample_rate\":".to_owned();
        stt.append(sr.as_str());
        stt.append(",\"language\":\"en\",\"model\":\"nova\"}");
        let llm: String = "{\"model\":\"gpt-4o-mini\",\"max_tokens\":150,\"temperature\":0.7}".to_owned();
        let mut tts: String = "{\"model\":\"aura-asteria-en\",\"sample_rate\":".to_owned();
        tts.append(sr.as_str());
        tts.append(",\"encoding\":");
        match &self.config.audio.encoding {
            Some(e) => {
                tts.append("\"");
                tts.append(e.as_str());
                tts.append("\"");
            },
            None => {
                tts.append("null");
            },
        }
        tts.append("}");
        proof {
            assert(stt@ =~= stt_config_text(self.spec_config().audio.sample_rate));
            assert(tts@ =~= tts_config_text(
                self.spec_config().audio.sample_rate,
                match self.spec_config().audio.encoding {
                    Some(e) => Some(e@),
                    None => None,
                },
            ));
        }
        PipecatMessage::Configure {
            room_id: self.room_id.clone(),
            system_prompt: crate::text::clone_opt_string(&self.config.default_system_prompt),
            stt_config: Some(stt),
            llm_config: Some(llm),
            tts_config: Some(tts),
        }
    }

    /// A session reconfiguration carrying a new system prompt.
    pub fn update_system_prompt(&self, prompt: String) -> (r: PipecatMessage)
        ensures
            r matches PipecatMessage::Configure {
                room_id,
                system_prompt,
                stt_config,
                llm_config,
                tts_config,
            } && room_id@ == self.spec_room_id() && system_prompt == Some(prompt) && stt_config
                is None && llm_config is None && tts_config is None,
    {
        PipecatMessage::Configure {
            room_id: self.room_id.clone(),
            system_prompt: Some(prompt),
            stt_config: None,
            llm_config: None,
            tts_config: None,
        }
    }

    /// Map a structured record from the bridge to the event it republishes.
    pub fn response_to_event(response: PipecatResponse) -> (r: Option<PipecatEvent>)
        ensures
            r == response_event_spec(response),
    {
        match response {
            PipecatResponse::Audio { audio_data, sample_rate, channels, .. } => Some(
                PipecatEvent::AudioResponse { audio_data, sample_rate, channels },
            ),
            PipecatResponse::Transcription { text, is_final, timestamp, .. } => {
                if is_final {
                    Some(PipecatEvent::TranscriptionFinal { text, timestamp })
                } else {
                    Some(PipecatEvent::TranscriptionDelta { text, timestamp })
                }
            },
            PipecatResponse::LlmResponse { text, is_complete, timestamp } => Some(
                PipecatEvent::LlmResponse { text, is_complete, timestamp },
            ),
            PipecatResponse::TtsStarted { text, timestamp } => Some(
                PipecatEvent::TtsStarted { text, timestamp },
            ),
            PipecatResponse::TtsCompleted { text, timestamp } => Some(
                PipecatEvent::TtsCompleted { text, timestamp },
            ),
            PipecatResponse::Error { message, code, .. } => Some(
                PipecatEvent::Error { message, code },
            ),
            PipecatResponse::Metrics { key, duration, .. } => Some(
                PipecatEvent::Metrics { key, duration },
            ),
            PipecatResponse::Ping { timestamp } => Some(PipecatEvent::Ping { timestamp }),
            PipecatResponse::Pong { timestamp } => Some(PipecatEvent::Pong { timestamp }),
            PipecatResponse::Connected { server, version, .. } => Some(
                PipecatEvent::Connected { server, version },
            ),
            PipecatResponse::Configured { .. } => None,
        }
    }

    /// Decide what the receive loop does with one inbound message: records
    /// republish their event, binary audio republishes with the configured
    /// rate and channel count, pings are answered, a close stops the loop.
    /// The loop's owner moves the status to `Disconnected` on exit.
    pub fn message_loop_step(&self, msg: WsIncoming) -> (r: LoopStep)
        ensures
            match msg {
                WsIncoming::Response(resp) => match response_event_spec(resp) {
                    Some(ev) => r matches LoopStep::Emit(e) && e == ev,
                    None => r is Idle,
                },
                WsIncoming::Unparsed => r is Idle,
                WsIncoming::Binary(data) => r matches LoopStep::Emit(e) && e matches
                    PipecatEvent::AudioResponse { audio_data, sample_rate, channels }
                    && audio_data == data && sample_rate == self.spec_config().audio.sample_rate
                    && channels == self.spec_config().audio.channels as u32,
                WsIncoming::Ping(data) => r matches LoopStep::ReplyPong(d) && d == data,
                WsIncoming::Pong => r is Idle,
                WsIncoming::Close => r is Stop,
            },
    {
        match msg {
            WsIncoming::Response(resp) => match Self::response_to_event(resp) {
                Some(ev) => LoopStep::Emit(ev),
                None => LoopStep::Idle,
            },
            WsIncoming::Unparsed => LoopStep::Idle,
            WsIncoming::Binary(data) => LoopStep::Emit(
                PipecatEvent::AudioResponse {
                    audio_data: data,
                    sample_rate: self.config.audio.sample_rate,
                    channels: self.config.audio.channels as u32,
                },
            ),
            WsIncoming::Ping(data) => LoopStep::ReplyPong(data),
            WsIncoming::Pong => LoopStep::Idle,
            WsIncoming::Close => LoopStep::Stop,
        }
    }
}

} // verus!
