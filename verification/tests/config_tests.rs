use rustpbx_media::config::{
    AmiConfig, CallRecordConfig, Config, DeepgramAsrConfig, DeepgramConfig, LocatorConfig,
    MediaProxyConfig, MediaProxyMode, ProxyConfig, UseragentConfig, UserBackendConfig,
};
use rustpbx_media::frame::CodecType;
use rustpbx_media::negotiate::{media_codec_parameters, select_codec, track_samplerate_of_payload};
use rustpbx_media::synthesis::SynthesisType;
use rustpbx_media::transcription::{ProviderDefaults, TranscriptionOption, TranscriptionType};

#[test]
fn default_config_listens_locally() {
    let config = Config::default();
    assert_eq!(config.http_addr, "0.0.0.0:8080");
    assert_eq!(config.recorder_path, "/tmp/recorder");
    assert_eq!(config.media_cache_path, "/tmp/mediacache");
    assert!(config.ua.is_some());
    assert!(config.ami.is_some());
    assert!(config.pipecat.is_none());
    let ua = UseragentConfig::default();
    assert_eq!(ua.udp_port, 25060);
    assert_eq!(ua.useragent, Some("rustpbx".to_string()));
    let proxy = ProxyConfig::default();
    assert_eq!(proxy.udp_port, Some(5060));
    assert!(matches!(proxy.user_backend, UserBackendConfig::Memory));
    assert!(matches!(proxy.locator, LocatorConfig::Memory));
    assert_eq!(MediaProxyConfig::default().mode, MediaProxyMode::Disabled);
    assert!(matches!(
        CallRecordConfig::default(),
        CallRecordConfig::Local { ref root } if root == "/tmp/cdr"
    ));
}

#[test]
fn management_interface_allows_listed_addresses() {
    let ami = AmiConfig::default();
    assert!(ami.is_allowed("127.0.0.1"));
    assert!(ami.is_allowed("::1"));
    assert!(!ami.is_allowed("10.0.0.1"));
    let open_ami = AmiConfig {
        allows: Some(vec!["*".to_string()]),
    };
    assert!(open_ami.is_allowed("10.0.0.1"));
    let closed = AmiConfig { allows: None };
    assert!(!closed.is_allowed("127.0.0.1"));
}

#[test]
fn realms_normalize_to_localhost() {
    assert_eq!(ProxyConfig::normalize_realm(""), "localhost");
    assert_eq!(ProxyConfig::normalize_realm("*"), "localhost");
    assert_eq!(ProxyConfig::normalize_realm("127.0.0.1"), "localhost");
    assert_eq!(ProxyConfig::normalize_realm("::1"), "localhost");
    assert_eq!(ProxyConfig::normalize_realm("example.com"), "example.com");
}

#[test]
fn deepgram_options_need_a_resolvable_key() {
    let config = Config::default();
    assert!(config.create_deepgram_asr_option(None).is_none());
    assert!(config.create_deepgram_tts_option(None).is_none());
    // a key offered by the environment is enough
    let asr = config
        .create_deepgram_asr_option(Some("env-key".to_string()))
        .unwrap();
    assert!(matches!(asr.provider, Some(TranscriptionType::Deepgram)));
    assert_eq!(asr.secret_key, Some("env-key".to_string()));
}

#[test]
fn structured_deepgram_key_takes_precedence() {
    let mut config = Config::default();
    config.deepgram_api_key = Some("flat-key".to_string());
    config.deepgram = Some(DeepgramConfig {
        api_key: Some("structured-key".to_string()),
        asr: Some(DeepgramAsrConfig {
            language: Some("de".to_string()),
            ..DeepgramAsrConfig::default()
        }),
        tts: None,
    });
    let asr = config.create_deepgram_asr_option(None).unwrap();
    assert_eq!(asr.secret_key, Some("structured-key".to_string()));
    assert_eq!(asr.language, Some("de".to_string()));
    let tts = config
        .create_deepgram_tts_option(Some("env".to_string()))
        .unwrap();
    assert!(matches!(tts.provider, Some(SynthesisType::Deepgram)));
    assert_eq!(tts.secret_key, Some("structured-key".to_string()));
}

#[test]
fn provider_defaults_fill_only_missing_credentials() {
    let defaults = ProviderDefaults {
        tencent_appid: Some("app".to_string()),
        tencent_secret_id: Some("sid".to_string()),
        tencent_secret_key: Some("skey".to_string()),
        voiceapi_endpoint: Some("http://v".to_string()),
        dashscope_api_key: Some("dash".to_string()),
        deepgram_api_key: Some("dg".to_string()),
    };
    let mut deepgram = TranscriptionOption {
        provider: Some(TranscriptionType::Deepgram),
        ..Default::default()
    };
    deepgram.check_default(&defaults);
    assert_eq!(deepgram.secret_key, Some("dg".to_string()));
    assert_eq!(
        deepgram.endpoint,
        Some("wss://api.deepgram.com/v1/listen".to_string())
    );
    let mut keyed = TranscriptionOption {
        provider: Some(TranscriptionType::Deepgram),
        secret_key: Some("mine".to_string()),
        ..Default::default()
    };
    keyed.check_default(&defaults);
    assert_eq!(keyed.secret_key, Some("mine".to_string()));
    let mut tencent = TranscriptionOption {
        provider: Some(TranscriptionType::TencentCloud),
        ..Default::default()
    };
    tencent.check_default(&defaults);
    assert_eq!(tencent.app_id, Some("app".to_string()));
    assert_eq!(tencent.secret_id, Some("sid".to_string()));
    assert_eq!(tencent.secret_key, Some("skey".to_string()));
    assert!(tencent.endpoint.is_none());
}

#[test]
fn provider_names_round_trip() {
    assert_eq!(
        TranscriptionType::Deepgram.provider_name(),
        "deepgram".to_string()
    );
    assert!(matches!(
        TranscriptionType::from_name("aliyun".to_string()),
        TranscriptionType::Aliyun
    ));
    assert!(matches!(
        TranscriptionType::from_name("somebody".to_string()),
        TranscriptionType::Other(ref s) if s == "somebody"
    ));
}

#[test]
fn codec_selection_prefers_the_configured_codec() {
    let offered: Vec<u8> = vec![101, 0, 8];
    assert_eq!(select_codec(&offered, Some(CodecType::PCMA)), CodecType::PCMA);
    // without a preference the first recognized payload type wins
    assert_eq!(select_codec(&offered, None), CodecType::PCMU);
    assert_eq!(select_codec(&vec![9, 0], None), CodecType::G722);
    // an empty or unrecognized offer falls back to G.722
    assert_eq!(select_codec(&Vec::new(), None), CodecType::G722);
    assert_eq!(select_codec(&vec![101, 96], None), CodecType::G722);
}

#[test]
fn codec_table_narrows_to_the_preference() {
    let all = media_codec_parameters(None);
    assert_eq!(all.len(), 4);
    assert_eq!(all[0].codec, CodecType::G722);
    assert_eq!(all[0].payload_type, 9);
    let only = media_codec_parameters(Some(CodecType::PCMU));
    assert_eq!(only.len(), 1);
    assert_eq!(only[0].payload_type, 0);
    assert_eq!(only[0].clock_rate, 16000);
    assert_eq!(media_codec_parameters(Some(CodecType::G729)).len(), 0);
}

#[test]
fn inbound_sample_rate_follows_the_payload_type() {
    assert_eq!(track_samplerate_of_payload(9), 16000);
    assert_eq!(track_samplerate_of_payload(111), 48000);
    assert_eq!(track_samplerate_of_payload(0), 8000);
    assert_eq!(track_samplerate_of_payload(8), 8000);
    assert_eq!(track_samplerate_of_payload(101), 8000);
}
