use rustpbx_media::engine::{
    CallOption, EouOption, ProcessorSpec, StreamEngine, VADOption, VadType, CREATOR_ASR_DEEPGRAM,
    CREATOR_PIPECAT, CREATOR_TTS_DEEPGRAM,
};
use rustpbx_media::errors::MediaError;
use rustpbx_media::pipecat::config::PipecatConfig;
use rustpbx_media::synthesis::{SynthesisOption, SynthesisType};
use rustpbx_media::transcription::{TranscriptionOption, TranscriptionType};

fn asr_option(provider: TranscriptionType) -> TranscriptionOption {
    TranscriptionOption {
        provider: Some(provider),
        ..Default::default()
    }
}

fn bridge_config(use_for_ai: bool, fallback: bool) -> PipecatConfig {
    PipecatConfig {
        enabled: true,
        use_for_ai,
        fallback_to_internal: fallback,
        ..Default::default()
    }
}

#[test]
fn asr_only_call_assembles_exactly_one_recognizer() {
    let engine = StreamEngine::default();
    let option = CallOption {
        asr: Some(asr_option(TranscriptionType::Deepgram)),
        ..Default::default()
    };
    let processors = engine.create_processors(&option, false).unwrap();
    assert_eq!(
        processors,
        vec![ProcessorSpec::Asr {
            creator: CREATOR_ASR_DEEPGRAM
        }]
    );
}

#[test]
fn bridge_owning_ai_excludes_recognizer_and_detector() {
    let engine = StreamEngine::default();
    let option = CallOption {
        asr: Some(asr_option(TranscriptionType::Deepgram)),
        vad: Some(VADOption {
            vad_type: VadType::WebRTC,
            samplerate: 16000,
        }),
        eou: Some(EouOption { eou_type: None }),
        pipecat: Some(bridge_config(true, true)),
        ..Default::default()
    };
    // bridge construction succeeded: the chain is the bridge alone
    let processors = engine.create_processors(&option, true).unwrap();
    assert_eq!(
        processors,
        vec![ProcessorSpec::Pipecat {
            creator: CREATOR_PIPECAT
        }]
    );
}

#[test]
fn denoise_may_still_run_before_the_bridge() {
    let engine = StreamEngine::default();
    let option = CallOption {
        denoise: Some(true),
        pipecat: Some(bridge_config(true, true)),
        ..Default::default()
    };
    let processors = engine.create_processors(&option, true).unwrap();
    assert_eq!(
        processors,
        vec![
            ProcessorSpec::Denoise,
            ProcessorSpec::Pipecat {
                creator: CREATOR_PIPECAT
            }
        ]
    );
}

#[test]
fn failed_bridge_without_fallback_fails_the_assembly() {
    let engine = StreamEngine::default();
    let option = CallOption {
        asr: Some(asr_option(TranscriptionType::Deepgram)),
        pipecat: Some(bridge_config(true, false)),
        ..Default::default()
    };
    let r = engine.create_processors(&option, false);
    assert_eq!(r, Err(MediaError::BridgeUnavailable));
}

#[test]
fn failed_bridge_with_fallback_builds_the_internal_stack() {
    let engine = StreamEngine::default();
    let option = CallOption {
        asr: Some(asr_option(TranscriptionType::Deepgram)),
        pipecat: Some(bridge_config(true, true)),
        ..Default::default()
    };
    let processors = engine.create_processors(&option, false).unwrap();
    assert_eq!(
        processors,
        vec![ProcessorSpec::Asr {
            creator: CREATOR_ASR_DEEPGRAM
        }]
    );
}

#[test]
fn bridge_not_owning_ai_runs_beside_the_internal_stack() {
    let engine = StreamEngine::default();
    let option = CallOption {
        asr: Some(asr_option(TranscriptionType::Deepgram)),
        pipecat: Some(bridge_config(false, true)),
        ..Default::default()
    };
    let processors = engine.create_processors(&option, true).unwrap();
    assert_eq!(
        processors,
        vec![
            ProcessorSpec::Pipecat {
                creator: CREATOR_PIPECAT
            },
            ProcessorSpec::Asr {
                creator: CREATOR_ASR_DEEPGRAM
            }
        ]
    );
}

#[test]
fn unknown_provider_tag_fails_the_assembly() {
    let engine = StreamEngine::default();
    let option = CallOption {
        asr: Some(asr_option(TranscriptionType::Other("nowhere".to_string()))),
        ..Default::default()
    };
    assert_eq!(
        engine.create_processors(&option, false),
        Err(MediaError::UnknownProviderTag)
    );
    let no_provider = CallOption {
        asr: Some(TranscriptionOption::default()),
        ..Default::default()
    };
    assert_eq!(
        engine.create_processors(&no_provider, false),
        Err(MediaError::UnknownProviderTag)
    );
    let vad_only = CallOption {
        vad: Some(VADOption {
            vad_type: VadType::Silero,
            samplerate: 16000,
        }),
        ..Default::default()
    };
    // no detector is registered by default
    assert_eq!(
        engine.create_processors(&vad_only, false),
        Err(MediaError::UnknownProviderTag)
    );
}

#[test]
fn empty_call_option_assembles_nothing() {
    let engine = StreamEngine::default();
    let processors = engine.create_processors(&CallOption::default(), false).unwrap();
    assert_eq!(processors, Vec::new());
}

#[test]
fn tts_client_lookup_follows_the_registry() {
    let engine = StreamEngine::default();
    let option = SynthesisOption {
        provider: Some(SynthesisType::Deepgram),
        ..Default::default()
    };
    assert_eq!(engine.create_tts_client(&option), Ok(CREATOR_TTS_DEEPGRAM));
    assert_eq!(
        engine.create_tts_client(&SynthesisOption::default()),
        Err(MediaError::UnknownProviderTag)
    );
}

#[test]
fn registering_a_tag_again_replaces_the_constructor() {
    let mut engine = StreamEngine::default();
    engine.register_asr(TranscriptionType::Deepgram, 42);
    assert_eq!(engine.find_asr(&TranscriptionType::Deepgram), Some(42));
    engine.register_vad(VadType::WebRTC, 43);
    assert_eq!(engine.find_vad(&VadType::WebRTC), Some(43));
    engine.register_eou("turn-sense".to_string(), 44);
    assert_eq!(engine.find_eou(&"turn-sense".to_string()), Some(44));
    assert_eq!(engine.find_eou(&String::new()), None);
    let option = CallOption {
        asr: Some(asr_option(TranscriptionType::Deepgram)),
        ..Default::default()
    };
    let processors = engine.create_processors(&option, false).unwrap();
    assert_eq!(processors, vec![ProcessorSpec::Asr { creator: 42 }]);
}

#[test]
fn capability_creators_report_missing_registrations() {
    let engine = StreamEngine::new();
    assert_eq!(
        engine.create_pipecat_processor(),
        Err(MediaError::UnknownProviderTag)
    );
    assert_eq!(
        engine.create_eou_processor(&EouOption { eou_type: None }),
        Err(MediaError::UnknownProviderTag)
    );
    let registered = StreamEngine::default();
    assert_eq!(registered.create_pipecat_processor(), Ok(CREATOR_PIPECAT));
    assert_eq!(
        registered.create_asr_processor(&asr_option(TranscriptionType::Deepgram)),
        Ok(CREATOR_ASR_DEEPGRAM)
    );
}
