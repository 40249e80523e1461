use rustpbx_media::errors::MediaError;
use rustpbx_media::pipecat::client::{
    LoopStep, PipecatClient, ReconnectAction, SendAudioAction, WsIncoming,
};
use rustpbx_media::pipecat::config::PipecatConfig;
use rustpbx_media::pipecat::{ConnectionStatus, PipecatEvent, PipecatResponse};
use rustpbx_media::processor::PipecatProcessorBuilder;

fn client_config(fallback: bool) -> PipecatConfig {
    PipecatConfig {
        enabled: true,
        server_url: Some("ws://bridge:8081".to_string()),
        use_for_ai: true,
        fallback_to_internal: fallback,
        ..Default::default()
    }
}

#[test]
fn invalid_configuration_is_rejected() {
    let mut config = client_config(true);
    config.server_url = None;
    match PipecatClient::new(config) {
        Err(MediaError::InvalidConfiguration(m)) => {
            assert_eq!(m, "Pipecat server URL is required when enabled");
        }
        _ => panic!("expected a configuration error"),
    }
}

#[test]
fn new_client_is_disconnected_with_a_session_id() {
    let client = PipecatClient::new(client_config(true)).unwrap();
    assert_eq!(client.get_status(), ConnectionStatus::Disconnected);
    assert!(!client.is_connected());
    let room = client.room_id();
    assert_eq!(room.chars().count(), 40);
    assert!(room.starts_with("rustpbx_"));
}

#[test]
fn session_ids_differ_between_clients() {
    let a = PipecatClient::new(client_config(true)).unwrap();
    let b = PipecatClient::new(client_config(true)).unwrap();
    assert_ne!(a.room_id(), b.room_id());
}

#[test]
fn send_audio_disconnected_with_fallback_succeeds_without_transmitting() {
    let mut client = PipecatClient::new(client_config(true)).unwrap();
    let audio: Vec<u8> = vec![1, 2, 3, 4];
    assert_eq!(client.send_audio(&audio), Ok(SendAudioAction::SkipFallback));
}

#[test]
fn send_audio_disconnected_without_fallback_is_not_connected() {
    let mut client = PipecatClient::new(client_config(false)).unwrap();
    let audio: Vec<u8> = vec![1, 2, 3, 4];
    assert_eq!(client.send_audio(&audio), Err(MediaError::NotConnected));
    // same while a connection attempt is still in flight
    client.begin_connect();
    assert_eq!(client.send_audio(&audio), Err(MediaError::NotConnected));
}

#[test]
fn send_audio_connected_transmits_nonempty_buffers() {
    let mut client = PipecatClient::new(client_config(false)).unwrap();
    client.begin_connect();
    client.on_connected();
    assert_eq!(client.send_audio(&Vec::new()), Ok(SendAudioAction::SkipEmpty));
    assert_eq!(
        client.send_audio(&vec![1, 2, 3, 4]),
        Ok(SendAudioAction::Transmit)
    );
}

#[test]
fn status_transitions_follow_the_link() {
    let mut client = PipecatClient::new(client_config(true)).unwrap();
    client.begin_connect();
    assert_eq!(client.get_status(), ConnectionStatus::Connecting);
    client.on_connected();
    assert_eq!(client.get_status(), ConnectionStatus::Connected);
    client.on_transport_error("socket reset".to_string());
    assert_eq!(
        client.get_status(),
        ConnectionStatus::Error("socket reset".to_string())
    );
    client.begin_connect();
    client.on_connected();
    client.on_loop_exit();
    assert_eq!(client.get_status(), ConnectionStatus::Disconnected);
    client.on_connect_failed();
    assert_eq!(client.get_status(), ConnectionStatus::Disconnected);
}

#[test]
fn keepalive_failure_forces_the_link_down() {
    let mut client = PipecatClient::new(client_config(true)).unwrap();
    client.begin_connect();
    client.on_connected();
    assert!(client.should_send_ping());
    client.on_ping_failed("ping timed out".to_string());
    assert!(!client.should_send_ping());
    assert_eq!(
        client.get_status(),
        ConnectionStatus::Error("ping timed out".to_string())
    );
}

#[test]
fn reconnect_policy_retries_with_backoff_then_gives_up() {
    let client = PipecatClient::new(client_config(true)).unwrap();
    assert_eq!(
        client.next_reconnect_action(0),
        ReconnectAction::Retry { delay_secs: 1 }
    );
    assert_eq!(
        client.next_reconnect_action(3),
        ReconnectAction::Retry { delay_secs: 4 }
    );
    assert_eq!(client.next_reconnect_action(5), ReconnectAction::GiveUp);
    assert_eq!(client.next_reconnect_action(10), ReconnectAction::GiveUp);
}

#[test]
fn transcription_records_split_on_finality() {
    let fin = PipecatClient::response_to_event(PipecatResponse::Transcription {
        text: "hello".to_string(),
        is_final: true,
        timestamp: 9,
        language: "en".to_string(),
    });
    assert!(
        matches!(fin, Some(PipecatEvent::TranscriptionFinal { ref text, timestamp: 9 }) if text == "hello")
    );
    let partial = PipecatClient::response_to_event(PipecatResponse::Transcription {
        text: "hel".to_string(),
        is_final: false,
        timestamp: 8,
        language: "en".to_string(),
    });
    assert!(
        matches!(partial, Some(PipecatEvent::TranscriptionDelta { ref text, timestamp: 8 }) if text == "hel")
    );
    let confirmed = PipecatClient::response_to_event(PipecatResponse::Configured {
        call_id: "c".to_string(),
        status: "ok".to_string(),
        timestamp: 1,
    });
    assert!(confirmed.is_none());
}

#[test]
fn loop_steps_per_message_kind() {
    let client = PipecatClient::new(client_config(true)).unwrap();
    let binary = client.message_loop_step(WsIncoming::Binary(vec![1, 0]));
    assert!(matches!(
        binary,
        LoopStep::Emit(PipecatEvent::AudioResponse {
            ref audio_data,
            sample_rate: 16000,
            channels: 1,
        }) if *audio_data == vec![1, 0]
    ));
    assert!(matches!(
        client.message_loop_step(WsIncoming::Close),
        LoopStep::Stop
    ));
    assert!(matches!(
        client.message_loop_step(WsIncoming::Ping(vec![9])),
        LoopStep::ReplyPong(ref d) if *d == vec![9]
    ));
    assert!(matches!(
        client.message_loop_step(WsIncoming::Pong),
        LoopStep::Idle
    ));
    assert!(matches!(
        client.message_loop_step(WsIncoming::Unparsed),
        LoopStep::Idle
    ));
}

#[test]
fn disconnect_sends_a_farewell() {
    let mut client = PipecatClient::new(client_config(true)).unwrap();
    client.begin_connect();
    client.on_connected();
    let msg = client.disconnect();
    assert!(matches!(
        msg,
        rustpbx_media::pipecat::PipecatMessage::Disconnect { ref reason } if reason == "Client disconnect"
    ));
    assert_eq!(client.get_status(), ConnectionStatus::Disconnected);
}

#[test]
fn prompt_updates_carry_the_session_id() {
    let client = PipecatClient::new(client_config(true)).unwrap();
    let room = client.room_id().clone();
    let msg = client.update_system_prompt("be brief".to_string());
    match msg {
        rustpbx_media::pipecat::PipecatMessage::Configure {
            room_id,
            system_prompt,
            stt_config,
            llm_config,
            tts_config,
        } => {
            assert_eq!(room_id, room);
            assert_eq!(system_prompt, Some("be brief".to_string()));
            assert!(stt_config.is_none() && llm_config.is_none() && tts_config.is_none());
        }
        _ => panic!("expected a configure message"),
    }
}

#[test]
fn processor_builder_requires_a_configuration() {
    match PipecatProcessorBuilder::new().build() {
        Err(MediaError::InvalidConfiguration(m)) => {
            assert_eq!(m, "Pipecat config is required");
        }
        _ => panic!("expected a configuration error"),
    }
    let client = PipecatProcessorBuilder::new()
        .with_pipecat_config(client_config(true))
        .build()
        .unwrap();
    assert_eq!(client.get_status(), ConnectionStatus::Disconnected);
    assert!(client.config().enabled);
}

#[test]
fn initial_configuration_announces_the_audio_settings() {
    let mut config = client_config(true);
    config.audio.sample_rate = 8000;
    config.default_system_prompt = Some("be helpful".to_string());
    let client = PipecatClient::new(config).unwrap();
    match client.make_configuration() {
        rustpbx_media::pipecat::PipecatMessage::Configure {
            room_id,
            system_prompt,
            stt_config,
            llm_config,
            tts_config,
        } => {
            assert_eq!(&room_id, client.room_id());
            assert_eq!(system_prompt, Some("be helpful".to_string()));
            assert_eq!(
                stt_config,
                Some("{\"sample_rate\":8000,\"language\":\"en\",\"model\":\"nova\"}".to_string())
            );
            assert_eq!(
                llm_config,
                Some("{\"model\":\"gpt-4o-mini\",\"max_tokens\":150,\"temperature\":0.7}".to_string())
            );
            assert_eq!(
                tts_config,
                Some(
                    "{\"model\":\"aura-asteria-en\",\"sample_rate\":8000,\"encoding\":\"linear16\"}"
                        .to_string()
                )
            );
        }
        _ => panic!("expected a configure message"),
    }
}

#[test]
fn builder_rejects_an_invalid_configuration() {
    let mut config = client_config(true);
    config.connection_timeout = 0;
    match PipecatProcessorBuilder::new().with_pipecat_config(config).build() {
        Err(MediaError::InvalidConfiguration(m)) => {
            assert_eq!(m, "Connection timeout must be greater than 0");
        }
        _ => panic!("expected a configuration error"),
    }
}

#[test]
fn errors_name_themselves_for_logs() {
    assert_eq!(MediaError::NotConnected.name(), "not connected");
    assert_eq!(
        MediaError::MaxReconnectAttemptsExceeded.name(),
        "max reconnect attempts exceeded"
    );
    assert_eq!(MediaError::BridgeUnavailable.name(), "bridge unavailable");
}
