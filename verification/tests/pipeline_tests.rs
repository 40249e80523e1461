use rustpbx_media::errors::MediaError;
use rustpbx_media::events::{is_answer_event, track_end_event, SessionEvent};
use rustpbx_media::frame::{AudioFrame, Samples, TrackId};
use rustpbx_media::pipecat::PipecatEvent;
use rustpbx_media::processor::{
    pipecat_event_to_session, AsrProcessor, ChainStage, ForwardAction, ProcessorChain,
};
use rustpbx_media::transcription::TranscriptionClient;

fn pcm_frame(samples: Vec<i16>, vad_speaking: Option<bool>) -> AudioFrame {
    AudioFrame {
        track_id: TrackId::from("t1"),
        samples: Samples::PCM { samples },
        timestamp: 0,
        sample_rate: 16000,
        vad_speaking,
    }
}

#[test]
fn chain_runs_stages_in_insertion_order() {
    let mut chain = ProcessorChain::new(16000);
    chain.insert_processor(ChainStage::Denoise);
    chain.insert_processor(ChainStage::AsrGate);
    chain.insert_processor(ChainStage::BridgeForward);
    let mut frame = pcm_frame(vec![1, 2], None);
    let actions = chain.process_frame(&mut frame).unwrap();
    assert_eq!(actions.len(), 2);
    assert!(matches!(
        &actions[0],
        ForwardAction::ToAsr { samples } if *samples == vec![1, 2]
    ));
    // 16 kHz PCM needs no resampling for the bridge: little-endian bytes
    assert!(matches!(
        &actions[1],
        ForwardAction::ToBridge { audio } if *audio == vec![1, 0, 2, 0]
    ));
}

#[test]
fn confirmed_silence_skips_the_recognizer_only() {
    let mut chain = ProcessorChain::new(16000);
    chain.insert_processor(ChainStage::AsrGate);
    chain.insert_processor(ChainStage::BridgeForward);
    let mut frame = pcm_frame(vec![1, 2], Some(false));
    let actions = chain.process_frame(&mut frame).unwrap();
    assert_eq!(actions.len(), 1);
    assert!(matches!(&actions[0], ForwardAction::ToBridge { .. }));
    // an explicit speaking flag forwards as usual
    let mut speaking = pcm_frame(vec![1, 2], Some(true));
    assert_eq!(chain.process_frame(&mut speaking).unwrap().len(), 2);
}

#[test]
fn bridge_decodes_rtp_payloads_before_forwarding() {
    let mut chain = ProcessorChain::new(16000);
    chain.insert_processor(ChainStage::BridgeForward);
    let mut frame = AudioFrame {
        track_id: TrackId::from("t1"),
        samples: Samples::RTP {
            payload_type: 0,
            payload: vec![100, 120],
            sequence_number: 1,
        },
        timestamp: 0,
        sample_rate: 16000,
        vad_speaking: None,
    };
    let actions = chain.process_frame(&mut frame).unwrap();
    assert_eq!(actions.len(), 1);
    match &actions[0] {
        ForwardAction::ToBridge { audio } => assert_eq!(audio.len(), 4),
        _ => panic!("expected bridge audio"),
    }
}

#[test]
fn unknown_payload_type_aborts_the_chain_for_the_frame() {
    let mut chain = ProcessorChain::new(16000);
    chain.insert_processor(ChainStage::BridgeForward);
    chain.insert_processor(ChainStage::AsrGate);
    let mut frame = AudioFrame {
        track_id: TrackId::from("t1"),
        samples: Samples::RTP {
            payload_type: 47,
            payload: vec![1],
            sequence_number: 1,
        },
        timestamp: 0,
        sample_rate: 16000,
        vad_speaking: None,
    };
    assert!(matches!(
        chain.process_frame(&mut frame),
        Err(MediaError::UnsupportedCodec(47))
    ));
}

#[test]
fn empty_frames_yield_no_actions() {
    let mut chain = ProcessorChain::new(16000);
    chain.insert_processor(ChainStage::AsrGate);
    chain.insert_processor(ChainStage::BridgeForward);
    let mut frame = AudioFrame {
        track_id: TrackId::from("t1"),
        samples: Samples::Empty,
        timestamp: 0,
        sample_rate: 16000,
        vad_speaking: None,
    };
    assert_eq!(chain.process_frame(&mut frame).unwrap().len(), 0);
}

struct RefusingClient;

impl TranscriptionClient for RefusingClient {
    fn send_audio(&self, _samples: &Vec<i16>) -> Result<(), MediaError> {
        Err(MediaError::NotConnected)
    }
}

struct AcceptingClient;

impl TranscriptionClient for AcceptingClient {
    fn send_audio(&self, _samples: &Vec<i16>) -> Result<(), MediaError> {
        Ok(())
    }
}

#[test]
fn asr_processor_gates_on_the_vad_flag() {
    let refusing = AsrProcessor {
        asr_client: RefusingClient,
    };
    // confirmed silence is never forwarded, so the refusing client is not asked
    let mut silent = pcm_frame(vec![1, 2], Some(false));
    assert_eq!(refusing.process_frame(&mut silent), Ok(None));
    // speech reaches the client, whose refusal aborts this frame only
    let mut speaking = pcm_frame(vec![1, 2], None);
    assert_eq!(
        refusing.process_frame(&mut speaking),
        Err(MediaError::NotConnected)
    );
    // a willing client receives exactly the frame's samples
    let accepting = AsrProcessor {
        asr_client: AcceptingClient,
    };
    let mut explicit = pcm_frame(vec![3, 4, 5], Some(true));
    assert_eq!(
        accepting.process_frame(&mut explicit),
        Ok(Some(vec![3, 4, 5]))
    );
    let mut quiet = pcm_frame(vec![3, 4, 5], Some(false));
    assert_eq!(accepting.process_frame(&mut quiet), Ok(None));
    let mut empty = AudioFrame {
        track_id: TrackId::from("t1"),
        samples: Samples::Empty,
        timestamp: 0,
        sample_rate: 16000,
        vad_speaking: None,
    };
    assert_eq!(accepting.process_frame(&mut empty), Ok(None));
}

#[test]
fn bridge_audio_reenters_as_playout_pcm() {
    let track = "t1".to_string();
    let event = PipecatEvent::AudioResponse {
        audio_data: vec![1, 0, 2, 0],
        sample_rate: 16000,
        channels: 1,
    };
    match pipecat_event_to_session(event, &track, 77) {
        Some(SessionEvent::PipecatAudio {
            track_id,
            audio_samples,
            sample_rate,
            timestamp,
        }) => {
            assert_eq!(track_id, "server-side-track");
            assert_eq!(audio_samples, vec![1, 2]);
            assert_eq!(sample_rate, 16000);
            assert_eq!(timestamp, 77);
        }
        _ => panic!("expected play-out audio"),
    }
    // bytes that do not form whole samples are dropped, not played
    let odd = PipecatEvent::AudioResponse {
        audio_data: vec![1, 0, 2],
        sample_rate: 16000,
        channels: 1,
    };
    assert!(pipecat_event_to_session(odd, &track, 77).is_none());
}

#[test]
fn bridge_transcripts_and_errors_reach_the_bus() {
    let track = "t1".to_string();
    let fin = PipecatEvent::TranscriptionFinal {
        text: "done".to_string(),
        timestamp: 5,
    };
    assert!(matches!(
        pipecat_event_to_session(fin, &track, 9),
        Some(SessionEvent::AsrFinal { ref text, timestamp: 5, .. }) if text == "done"
    ));
    let err = PipecatEvent::Error {
        message: "boom".to_string(),
        code: Some(-1),
    };
    match pipecat_event_to_session(err, &track, 9) {
        Some(SessionEvent::Error { error, code, sender, .. }) => {
            assert_eq!(error, "boom");
            assert_eq!(code, Some(4294967295));
            assert_eq!(sender, "pipecat");
        }
        _ => panic!("expected an error event"),
    }
    let quiet = PipecatEvent::Pong { timestamp: 4 };
    assert!(pipecat_event_to_session(quiet, &track, 9).is_none());
}

#[test]
fn answer_events_are_recognized() {
    let answer = SessionEvent::Answer {
        track_id: "t1".to_string(),
        timestamp: 3,
    };
    assert!(is_answer_event(&answer));
    let other = SessionEvent::Metrics {
        timestamp: 3,
        key: "k".to_string(),
        data: String::new(),
        duration: 1,
    };
    assert!(!is_answer_event(&other));
}

#[test]
fn track_end_carries_the_play_out_duration() {
    match track_end_event("t1".to_string(), 42, 1000, 1750) {
        SessionEvent::TrackEnd {
            track_id,
            timestamp,
            duration,
            ssrc,
            play_id,
        } => {
            assert_eq!(track_id, "t1");
            assert_eq!(timestamp, 1750);
            assert_eq!(duration, 750);
            assert_eq!(ssrc, 42);
            assert!(play_id.is_none());
        }
        _ => panic!("expected a track end"),
    }
}
