use rustpbx_media::deepgram::{
    build_listen_url, handle_deepgram_event, DeepgramAsrClientBuilder, DgAlternative, DgChannel,
    DgEvent,
};
use rustpbx_media::errors::MediaError;
use rustpbx_media::events::SessionEvent;
use rustpbx_media::synthesis::{choose_tts_model, chunk_audio, is_valid_deepgram_model, tts_encoding_of};
use rustpbx_media::transcription::TranscriptionOption;

fn option_with_key(key: &str) -> TranscriptionOption {
    TranscriptionOption {
        secret_key: Some(key.to_string()),
        ..Default::default()
    }
}

fn results_event(
    transcript: &str,
    is_final: Option<bool>,
    speech_final: Option<bool>,
    start_ms: Option<u64>,
    duration_ms: Option<u64>,
) -> DgEvent {
    DgEvent::Results {
        is_final,
        start_ms,
        duration_ms,
        speech_final,
        channel: DgChannel {
            alternatives: vec![DgAlternative {
                transcript: transcript.to_string(),
                words_count: 2,
            }],
        },
    }
}

#[test]
fn listen_url_uses_the_documented_defaults() {
    let url = build_listen_url(&option_with_key("k")).unwrap();
    assert_eq!(
        url,
        "wss://api.deepgram.com/v1/listen?model=nova&language=en&encoding=linear16&sample_rate=16000&channels=1&interim_results=true&punctuate=true&smart_format=true&endpointing=1000&vad_events=true"
    );
}

#[test]
fn listen_url_percent_encodes_the_model() {
    let mut option = option_with_key("k");
    option.model_type = Some("nova 2".to_string());
    option.language = Some("en-US".to_string());
    option.samplerate = Some(8000);
    option.endpoint = Some("wss://dg.example/v1/listen".to_string());
    let url = build_listen_url(&option).unwrap();
    assert!(url.starts_with("wss://dg.example/v1/listen?model=nova%202&language=en-US"));
    assert!(url.contains("sample_rate=8000"));
}

#[test]
fn listen_url_requires_an_api_key() {
    assert_eq!(
        build_listen_url(&TranscriptionOption::default()),
        Err(MediaError::InvalidConfiguration(
            "No DEEPGRAM_API_KEY provided".to_string()
        ))
    );
    assert_eq!(
        build_listen_url(&option_with_key("  ")),
        Err(MediaError::InvalidConfiguration(
            "DEEPGRAM_API_KEY is empty".to_string()
        ))
    );
}

#[test]
fn final_results_publish_a_final_transcript_and_latency() {
    let track = "t1".to_string();
    let ev = results_event("hello world", Some(true), None, Some(250), Some(300));
    let outcome = handle_deepgram_event(&track, 1000, 1500, &ev);
    assert!(!outcome.disconnect);
    assert_eq!(outcome.events.len(), 2);
    match &outcome.events[0] {
        SessionEvent::AsrFinal {
            track_id,
            index,
            text,
            timestamp,
            start_time,
            end_time,
        } => {
            assert_eq!(track_id, "t1");
            assert_eq!(*index, 0);
            assert_eq!(text, "hello world");
            assert_eq!(*timestamp, 1500);
            assert_eq!(*start_time, Some(1250));
            assert_eq!(*end_time, Some(1550));
        }
        _ => panic!("expected a final transcript"),
    }
    match &outcome.events[1] {
        SessionEvent::Metrics { key, duration, data, .. } => {
            assert_eq!(key, "completed.asr.deepgram");
            assert_eq!(*duration, 500);
            assert_eq!(data, "{\"words_count\":2}");
        }
        _ => panic!("expected a measurement"),
    }
}

#[test]
fn interim_results_publish_a_delta() {
    let track = "t1".to_string();
    let ev = results_event("hel", Some(false), Some(false), None, None);
    let outcome = handle_deepgram_event(&track, 1000, 1200, &ev);
    assert!(matches!(&outcome.events[0], SessionEvent::AsrDelta { .. }));
    match &outcome.events[1] {
        SessionEvent::Metrics { key, .. } => assert_eq!(key, "ttfb.asr.deepgram"),
        _ => panic!("expected a measurement"),
    }
}

#[test]
fn speech_final_alone_counts_as_final() {
    let track = "t1".to_string();
    let ev = results_event("done", None, Some(true), None, None);
    let outcome = handle_deepgram_event(&track, 0, 0, &ev);
    assert!(matches!(&outcome.events[0], SessionEvent::AsrFinal { .. }));
}

#[test]
fn blank_or_empty_results_publish_nothing() {
    let track = "t1".to_string();
    let blank = results_event("  \t", Some(true), None, None, None);
    assert_eq!(handle_deepgram_event(&track, 0, 1, &blank).events.len(), 0);
    let empty = DgEvent::Results {
        is_final: Some(true),
        start_ms: None,
        duration_ms: None,
        speech_final: None,
        channel: DgChannel {
            alternatives: Vec::new(),
        },
    };
    assert_eq!(handle_deepgram_event(&track, 0, 1, &empty).events.len(), 0);
}

#[test]
fn stream_errors_surface_and_stop_the_loop() {
    let track = "t1".to_string();
    let ev = DgEvent::Error {
        description: "bad model".to_string(),
        message: None,
        variant: None,
    };
    let outcome = handle_deepgram_event(&track, 0, 42, &ev);
    assert!(outcome.disconnect);
    match &outcome.events[0] {
        SessionEvent::Error {
            sender,
            error,
            code,
            timestamp,
            ..
        } => {
            assert_eq!(sender, "DeepgramAsrClient");
            assert_eq!(error, "Deepgram error: bad model");
            assert_eq!(*code, Some(400));
            assert_eq!(*timestamp, 42);
        }
        _ => panic!("expected an error event"),
    }
}

#[test]
fn close_and_markers_drive_the_loop() {
    let track = "t1".to_string();
    assert!(handle_deepgram_event(&track, 0, 1, &DgEvent::CloseStream).disconnect);
    assert!(!handle_deepgram_event(&track, 0, 1, &DgEvent::Metadata).disconnect);
    assert!(
        !handle_deepgram_event(&track, 0, 1, &DgEvent::SpeechStarted { timestamp_ms: Some(3) })
            .disconnect
    );
    assert!(
        !handle_deepgram_event(&track, 0, 1, &DgEvent::UtteranceEnd { timestamp_ms: None })
            .disconnect
    );
}

#[test]
fn builder_resolves_the_connection_plan() {
    let plan = DeepgramAsrClientBuilder::new(TranscriptionOption::default())
        .with_secret_key("k".to_string())
        .with_model_type("nova-2-phonecall".to_string())
        .with_track_id("t9".to_string())
        .build()
        .unwrap();
    assert!(plan.listen_url.contains("model=nova-2-phonecall"));
    assert!(!plan.wait_for_answer);
    assert_eq!(plan.track_id, Some("t9".to_string()));
    let mut waiting = TranscriptionOption::default();
    waiting.secret_key = Some("k".to_string());
    waiting.start_when_answer = Some(true);
    assert!(DeepgramAsrClientBuilder::new(waiting).build().unwrap().wait_for_answer);
    assert!(DeepgramAsrClientBuilder::new(TranscriptionOption::default()).build().is_err());
}

#[test]
fn aura_voices_are_the_valid_models() {
    assert!(is_valid_deepgram_model("aura-asteria-en"));
    assert!(is_valid_deepgram_model("aura-zeus-en"));
    assert!(is_valid_deepgram_model("base"));
    assert!(is_valid_deepgram_model("aura-new-voice"));
    assert!(!is_valid_deepgram_model("nova"));
    assert!(!is_valid_deepgram_model("aura"));
}

#[test]
fn invalid_voices_fall_back_to_the_default() {
    assert_eq!(choose_tts_model(&Some("bogus".to_string())), "aura-asteria-en");
    assert_eq!(
        choose_tts_model(&Some("aura-luna-en".to_string())),
        "aura-luna-en"
    );
    assert_eq!(choose_tts_model(&None), "aura-asteria-en");
}

#[test]
fn containers_map_to_wire_encodings() {
    assert_eq!(tts_encoding_of(&Some("wav".to_string())), "linear16");
    assert_eq!(tts_encoding_of(&Some("pcm".to_string())), "linear16");
    assert_eq!(tts_encoding_of(&Some("mp3".to_string())), "mp3");
    assert_eq!(tts_encoding_of(&Some("mulaw".to_string())), "mulaw");
    assert_eq!(tts_encoding_of(&Some("ogg".to_string())), "linear16");
    assert_eq!(tts_encoding_of(&None), "linear16");
}

#[test]
fn synthesized_audio_chunks_losslessly() {
    let data: Vec<u8> = (0..10000u32).map(|i| (i % 251) as u8).collect();
    let chunks = chunk_audio(&data, 4096);
    assert_eq!(chunks.len(), 3);
    assert_eq!(chunks[0].len(), 4096);
    assert_eq!(chunks[1].len(), 4096);
    assert_eq!(chunks[2].len(), 1808);
    let joined: Vec<u8> = chunks.concat();
    assert_eq!(joined, data);
    assert_eq!(chunk_audio(&Vec::new(), 4096).len(), 0);
}
