use rustpbx_media::config::Config;
use rustpbx_media::pipecat::config::PipecatConfig;
use rustpbx_media::errors::MediaError;
use rustpbx_media::pipecat::{create_client, get_server_url, is_enabled, should_use_pipecat};

#[test]
fn test_default_config() {
    let config = PipecatConfig::default();
    assert!(!config.enabled);
    assert!(config.fallback_to_internal);
    assert_eq!(config.connection_timeout, 30);
    assert_eq!(config.audio.sample_rate, 16000);
    assert_eq!(config.audio.channels, 1);
    assert_eq!(config.audio.encoding, Some("linear16".to_string()));
}

#[test]
fn test_config_validation() {
    let mut config = PipecatConfig::default();

    // Valid disabled config
    assert!(config.validate().is_ok());

    // Invalid enabled config (no server URL)
    config.enabled = true;
    config.server_url = None;
    assert!(config.validate().is_err());

    // Valid enabled config
    config.server_url = Some("ws://0.0.0.0:8081".to_string());
    assert!(config.validate().is_ok());

    // Invalid timeout
    config.connection_timeout = 0;
    assert!(config.validate().is_err());
}

#[test]
fn test_reconnect_delay_calculation() {
    let config = PipecatConfig::default();

    // First attempt
    let delay1 = config.calculate_reconnect_delay(1);
    assert_eq!(delay1, 1);

    // Second attempt (exponential backoff)
    let delay2 = config.calculate_reconnect_delay(2);
    assert_eq!(delay2, 2);

    // Third attempt
    let delay3 = config.calculate_reconnect_delay(3);
    assert_eq!(delay3, 4);

    // Should cap at max delay
    let delay_high = config.calculate_reconnect_delay(10);
    assert_eq!(delay_high, 30);
}

#[test]
fn test_duration_helpers() {
    let config = PipecatConfig::default();

    assert_eq!(config.connection_timeout_duration(), 30);
    assert_eq!(config.initial_reconnect_delay(), 1);
    assert_eq!(config.max_reconnect_delay(), 30);
    assert!(config.is_reconnect_enabled());
}

#[test]
fn test_server_url_handling() {
    let mut config = PipecatConfig::default();

    // Has default URL
    assert_eq!(config.get_server_url(), "ws://0.0.0.0:8081");

    // Custom URL
    config.server_url = Some("ws://custom:9000/pipecat".to_string());
    assert_eq!(config.get_server_url(), "ws://custom:9000/pipecat");

    // Empty URL falls back to default
    config.server_url = Some("".to_string());
    assert_eq!(config.get_server_url(), "");
}

#[test]
fn test_pipecat_config_detection() {
    let mut config = Config::default();
    assert!(!is_enabled(&config));
    assert!(!should_use_pipecat(&config));

    // Add pipecat config
    config.pipecat = Some(PipecatConfig {
        enabled: true,
        server_url: Some("ws://localhost:8765/ws/rustpbx".to_string()),
        use_for_ai: true,
        ..Default::default()
    });

    assert!(is_enabled(&config));
    assert!(should_use_pipecat(&config));
    assert_eq!(
        get_server_url(&config),
        Some("ws://localhost:8765/ws/rustpbx".to_string())
    );
}

#[test]
fn delay_sequence_is_monotone_and_clamped() {
    let mut config = PipecatConfig::default();
    config.reconnect.initial_delay = 1;
    config.reconnect.backoff_multiplier = 2;
    config.reconnect.max_delay = 30;
    let expected: [u64; 8] = [1, 1, 2, 4, 8, 16, 30, 30];
    let mut last: u64 = 0;
    for (attempt, want) in expected.iter().enumerate() {
        let d = config.calculate_reconnect_delay(attempt as u32);
        assert_eq!(d, *want);
        assert!(d >= last);
        assert!(d <= 30);
        last = d;
    }
}

#[test]
fn validation_reports_each_rule() {
    let mut config = PipecatConfig::default();
    config.enabled = true;
    config.server_url = Some("ws://bridge:8081".to_string());
    config.reconnect.max_attempts = 0;
    assert_eq!(
        config.validate(),
        Err("Max reconnection attempts must be greater than 0".to_string())
    );
    config.reconnect.enabled = false;
    config.audio.sample_rate = 0;
    assert_eq!(
        config.validate(),
        Err("Audio sample rate must be greater than 0".to_string())
    );
    config.audio.sample_rate = 16000;
    config.audio.channels = 0;
    assert_eq!(
        config.validate(),
        Err("Audio channels must be greater than 0".to_string())
    );
}

#[test]
fn create_client_succeeds_exactly_on_a_valid_bridge() {
    let mut config = Config::default();
    assert!(matches!(
        create_client(&config),
        Err(MediaError::BridgeUnavailable)
    ));
    let mut bridge = PipecatConfig::default();
    bridge.enabled = true;
    bridge.server_url = Some(String::new());
    config.pipecat = Some(bridge);
    match create_client(&config) {
        Err(MediaError::InvalidConfiguration(m)) => {
            assert_eq!(m, "Pipecat server URL is required when enabled");
        }
        _ => panic!("expected a configuration error"),
    }
    let mut valid = PipecatConfig::default();
    valid.enabled = true;
    valid.server_url = Some("ws://bridge:8081".to_string());
    config.pipecat = Some(valid);
    let client = create_client(&config).unwrap();
    assert!(!client.is_connected());
}
