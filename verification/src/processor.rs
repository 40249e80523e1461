//! The processor chain: an ordered, synchronous pipeline of per-frame
//! stages bound to one track.
//!
//! Stages run in insertion order; a stage that fails aborts the rest of the
//! chain for that frame only, and the track keeps running. No stage blocks
//! the audio path: stages that feed a provider yield forward actions the
//! host dispatches to its own tasks.

use vstd::prelude::*;
use crate::codecs::{bytes_to_samples, le_bytes, le_samples, samples_to_bytes};
use crate::codecs;
use crate::errors::MediaError;
use crate::events::SessionEvent;
use crate::frame::{AudioFrame, Samples, TrackId};
use crate::pipecat::config::validate_err;
use crate::pipecat::PipecatEvent;
use crate::resample::{resample_audio, resampled};
use crate::transcription::TranscriptionClient;

verus! {

/// The fixed sample rate of the bridge link.
pub const BRIDGE_SAMPLE_RATE: u32 = 16000;

/// One stage of a processor chain. The denoiser, detector and
/// end-of-utterance stages stand for provider-run transforms whose work
/// arrives through their own tasks; the recognizer gate and the bridge
/// forwarder are decided here, per frame.
#[derive(Debug, Clone, Copy, PartialEq, Eq, Structural)]
pub enum ChainStage {
    Denoise,
    Vad,
    AsrGate,
    Eou,
    BridgeForward,
}

/// What a chain run asks the host to forward.
#[derive(Debug, Clone)]
pub enum ForwardAction {
    /// PCM samples for the speech recognizer.
    ToAsr { samples: Vec<i16> },
    /// Linear PCM bytes at the bridge rate for the AI bridge.
    ToBridge { audio: Vec<u8> },
}

/// A forward action, by its payload.
pub open spec fn action_view(a: ForwardAction) -> ActionSpec {
    match a {
        ForwardAction::ToAsr { samples } => ActionSpec::Asr(samples@),
        ForwardAction::ToBridge { audio } => ActionSpec::Bridge(audio@),
    }
}

/// The payload of one forward action.
pub enum ActionSpec {
    Asr(Seq<i16>),
    Bridge(Seq<u8>),
}

/// Whether the recognizer gate forwards a frame: PCM audio passes unless a
/// detector confirmed silence; dropped silent frames are a cost saving,
/// never required for correct transcription.
pub open spec fn asr_forwards(frame: &AudioFrame) -> bool {
    frame.samples matches Samples::PCM { .. } && frame.vad_speaking != Some(false)
}

/// The PCM a frame carries for the bridge: raw PCM as is, an encoded RTP
/// payload decoded by its payload type, nothing for an empty frame. An
/// unknown payload type fails the frame.
pub open spec fn bridge_pcm_spec(frame: &AudioFrame) -> Result<Option<Seq<i16>>, MediaError> {
    match frame.samples {
        Samples::PCM { samples } => Ok(Some(samples@)),
        Samples::RTP { payload_type, payload, .. } => match codecs::rtp_decoded(
            payload_type,
            payload@,
        ) {
            Ok(s) => Ok(Some(s)),
            Err(e) => Err(e),
        },
        Samples::Empty => Ok(None),
    }
}

/// The bytes the bridge forwarder sends for a frame: the frame's PCM,
/// resampled to the bridge rate, written as little-endian byte pairs.
pub open spec fn bridge_audio_spec(frame: &AudioFrame) -> Result<Option<Seq<u8>>, MediaError> {
    match bridge_pcm_spec(frame) {
        Err(e) => Err(e),
        Ok(None) => Ok(None),
        Ok(Some(pcm)) => Ok(Some(le_bytes(resampled(pcm, frame.sample_rate, BRIDGE_SAMPLE_RATE)))),
    }
}

/// What one stage does with a frame: at most one forward action, or a
/// failure that aborts the rest of the chain for this frame.
pub open spec fn stage_action(stage: ChainStage, frame: &AudioFrame) -> Result<
    Option<ActionSpec>,
    MediaError,
> {
    match stage {
        ChainStage::AsrGate => match frame.samples {
            Samples::PCM { samples } => if frame.vad_speaking != Some(false) {
                Ok(Some(ActionSpec::Asr(samples@)))
            } else {
                Ok(None)
            },
            _ => Ok(None),
        },
        ChainStage::BridgeForward => match bridge_audio_spec(frame) {
            Err(e) => Err(e),
            Ok(None) => Ok(None),
            Ok(Some(bytes)) => Ok(Some(ActionSpec::Bridge(bytes))),
        },
        _ => Ok(None),
    }
}

/// The actions a whole chain yields for a frame, in stage order; the first
/// failing stage aborts the rest.
pub open spec fn chain_actions(stages: Seq<ChainStage>, frame: &AudioFrame) -> Result<
    Seq<ActionSpec>,
    MediaError,
>
    decreases stages.len(),
{
    if stages.len() == 0 {
        Ok(Seq::empty())
    } else {
        match stage_action(stages[0], frame) {
            Err(e) => Err(e),
            Ok(head) => match chain_actions(stages.drop_first(), frame) {
                Err(e) => Err(e),
                Ok(tail) => match head {
                    Some(a) => Ok(seq![a] + tail),
                    None => Ok(tail),
                },
            },
        }
    }
}

/// A sequence of actions prefixed onto a chain result.
pub open spec fn prefix_actions(
    acc: Seq<ActionSpec>,
    rest: Result<Seq<ActionSpec>, MediaError>,
) -> Result<Seq<ActionSpec>, MediaError> {
    match rest {
        Ok(t) => Ok(acc + t),
        Err(e) => Err(e),
    }
}

/// One chain step: a stage that yields an action (or none) moves the
/// accumulated prefix forward by that action.
proof fn lemma_chain_step(
    stages: Seq<ChainStage>,
    frame: &AudioFrame,
    i: int,
    acc: Seq<ActionSpec>,
    a: Option<ActionSpec>,
)
    requires
        0 <= i < stages.len(),
        stage_action(stages[i], frame) == Ok::<Option<ActionSpec>, MediaError>(a),
        chain_actions(stages, frame) == prefix_actions(acc, chain_actions(stages.skip(i), frame)),
    ensures
        chain_actions(stages, frame) == prefix_actions(
            match a {
                Some(x) => acc.push(x),
                None => acc,
            },
            chain_actions(stages.skip(i + 1), frame),
        ),
{
    assert(stages.skip(i)[0] == stages[i]);
    assert(stages.skip(i).drop_first() =~= stages.skip(i + 1));
    let rest = chain_actions(stages.skip(i + 1), frame);
    match rest {
        Ok(t) => {
            match a {
                Some(x) => {
                    assert(acc + (seq![x] + t) =~= acc.push(x) + t);
                },
                None => {},
            }
        },
        Err(_) => {},
    }
}

/// One chain step that fails: the whole chain fails with the stage's error.
proof fn lemma_chain_step_err(
    stages: Seq<ChainStage>,
    frame: &AudioFrame,
    i: int,
    acc: Seq<ActionSpec>,
    e: MediaError,
)
    requires
        0 <= i < stages.len(),
        stage_action(stages[i], frame) == Err::<Option<ActionSpec>, MediaError>(e),
        chain_actions(stages, frame) == prefix_actions(acc, chain_actions(stages.skip(i), frame)),
    ensures
        chain_actions(stages, frame) == Err::<Seq<ActionSpec>, MediaError>(e),
{
    assert(stages.skip(i)[0] == stages[i]);
}

/// An ordered, synchronous pipeline of stages bound to one track's sample
/// rate. Stages execute in insertion order.
#[derive(Debug)]
pub struct ProcessorChain {
    samplerate: u32,
    stages: Vec<ChainStage>,
}

impl ProcessorChain {
    /// The stages, in execution order.
    pub closed spec fn spec_stages(&self) -> Seq<ChainStage> {
        self.stages@
    }

    /// The sample rate the chain was bound to.
    pub closed spec fn spec_samplerate(&self) -> u32 {
        self.samplerate
    }

    /// An empty chain for a track at the given rate.
    pub fn new(samplerate: u32) -> (r: ProcessorChain)
        ensures
            r.spec_stages() == Seq::<ChainStage>::empty(),
            r.spec_samplerate() == samplerate,
    {
        ProcessorChain { samplerate, stages: Vec::new() }
    }

    /// Append a stage; it runs after every stage inserted before it.
    pub fn insert_processor(&mut self, stage: ChainStage)
        ensures
            final(self).spec_stages() == old(self).spec_stages().push(stage),
            final(self).spec_samplerate() == old(self).spec_samplerate(),
    {
        self.stages.push(stage);
    }

    /// Run one frame through every stage in insertion order.
    ///
    /// The frame itself is left unchanged — the stages of this build read
    /// it only — and the returned actions carry what must be forwarded, in
    /// stage order. The first failing stage aborts the remaining chain for
    /// this frame only.
    pub fn process_frame(&self, frame: &mut AudioFrame) -> (r: Result<
        Vec<ForwardAction>,
        MediaError,
    >)
        requires
            old(frame).wf(),
            match old(frame).samples {
                Samples::PCM { samples } => samples@.len() * (BRIDGE_SAMPLE_RATE as int)
                    <= u64::MAX && samples@.len() * (BRIDGE_SAMPLE_RATE as int) / (
                old(frame).sample_rate as int) <= usize::MAX,
                Samples::RTP { payload, .. } => old(frame).sample_rate > 0 && 2 * payload@.len()
                    * (BRIDGE_SAMPLE_RATE as int) <= u64::MAX && 2 * payload@.len() * (
                BRIDGE_SAMPLE_RATE as int) / (old(frame).sample_rate as int) <= usize::MAX,
                Samples::Empty => true,
            },
        ensures
            *final(frame) == *old(frame),
            match chain_actions(self.spec_stages(), old(frame)) {
                Ok(actions) => r matches Ok(v) && v@.map_values(|a: ForwardAction| action_view(a))
                    =~= actions,
                Err(e) => r matches Err(er) && er == e,
            },
    {
        let mut out: Vec<ForwardAction> = Vec::new();
        let mut i: usize = 0;
        proof {
            assert(self.stages@.skip(0) =~= self.stages@);
            assert(out@.map_values(|a: ForwardAction| action_view(a)) =~= Seq::<
                ActionSpec,
            >::empty());
        }
        while i < self.stages.len()
            invariant
                frame == old(frame),
                frame.wf(),
                match frame.samples {
                    Samples::PCM { samples } => samples@.len() * (BRIDGE_SAMPLE_RATE as int)
                        <= u64::MAX && samples@.len() * (BRIDGE_SAMPLE_RATE as int) / (
                    frame.sample_rate as int) <= usize::MAX,
                    Samples::RTP { payload, .. } => frame.sample_rate > 0 && 2 * payload@.len() * (
                    BRIDGE_SAMPLE_RATE as int) <= u64::MAX && 2 * payload@.len() * (
                    BRIDGE_SAMPLE_RATE as int) / (frame.sample_rate as int) <= usize::MAX,
                    Samples::Empty => true,
                },
                i <= self.stages@.len(),
                chain_actions(self.spec_stages(), frame) == prefix_actions(
                    out@.map_values(|a: ForwardAction| action_view(a)),
                    chain_actions(self.spec_stages().skip(i as int), frame),
                ),
            decreases self.stages@.len() - i,
        {
            proof {
                assert(self.stages@.skip(i as int)[0] == self.stages@[i as int]);
                assert(self.stages@.skip(i as int).drop_first() =~= self.stages@.skip(i as int + 1));
            }
            let ghost prev_mapped = out@.map_values(|a: ForwardAction| action_view(a));
            match self.stages[i] {
                ChainStage::AsrGate => {
                    match &frame.samples {
                        Samples::PCM { samples } => {
                            let forward = match frame.vad_speaking {
                                Some(false) => false,
                                _ => true,
                            };
                            if forward {
                                let mut copy: Vec<i16> = Vec::new();
                                let mut j: usize = 0;
                                while j < samples.len()
                                    invariant
                                        j <= samples@.len(),
                                        copy@ =~= samples@.subrange(0, j as int),
                                    decreases samples@.len() - j,
                                {
                                    copy.push(samples[j]);
                                    j = j + 1;
                                }
                                assert(copy@ =~= samples@);
                                out.push(ForwardAction::ToAsr { samples: copy });
                                proof {
                                    assert(out@.map_values(|a: ForwardAction| action_view(a))
                                        =~= prev_mapped.push(ActionSpec::Asr(samples@)));
                                    lemma_chain_step(
                                        self.spec_stages(),
                                        frame,
                                        i as int,
                                        prev_mapped,
                                        Some(ActionSpec::Asr(samples@)),
                                    );
                                }
                            } else {
                                proof {
                                    lemma_chain_step(
                                        self.spec_stages(),
                                        frame,
                                        i as int,
                                        prev_mapped,
                                        None,
                                    );
                                }
                            }
                        },
                        _ => {
                            proof {
                                lemma_chain_step(
                                    self.spec_stages(),
                                    frame,
                                    i as int,
                                    prev_mapped,
                                    None,
                                );
                            }
                        },
                    }
                },
                ChainStage::BridgeForward => {
                    let pcm: Option<Vec<i16>> = match &frame.samples {
                        Samples::PCM { samples } => {
                            let mut copy: Vec<i16> = Vec::new();
                            let mut j: usize = 0;
                            while j < samples.len()
                                invariant
                                    j <= samples@.len(),
                                    copy@ =~= samples@.subrange(0, j as int),
                                decreases samples@.len() - j,
                            {
                                copy.push(samples[j]);
                                j = j + 1;
                            }
                            assert(copy@ =~= samples@);
                            Some(copy)
                        },
                        Samples::RTP { payload_type, payload, .. } => {
                            match codecs::decode_rtp_payload(*payload_type, payload) {
                                Ok(decoded) => Some(decoded),
                                Err(e) => {
                                    proof {
                                        lemma_chain_step_err(
                                            self.spec_stages(),
                                            frame,
                                            i as int,
                                            prev_mapped,
                                            e,
                                        );
                                    }
                                    return Err(e);
                                },
                            }
                        },
                        Samples::Empty => None,
                    };
                    match pcm {
                        Some(p) => {
                            proof {
                                assert(bridge_pcm_spec(frame)->Ok_0->Some_0 =~= p@);
                                match &frame.samples {
                                    Samples::RTP { payload, .. } => {
                                        assert(p@.len() <= 2 * payload@.len());
                                        vstd::arithmetic::div_mod::lemma_div_is_ordered(
                                            p@.len() * (BRIDGE_SAMPLE_RATE as int),
                                            2 * payload@.len() * (BRIDGE_SAMPLE_RATE as int),
                                            frame.sample_rate as int,
                                        );
                                    },
                                    _ => {},
                                }
                            }
                            let resampled_pcm = resample_audio(
                                &p,
                                frame.sample_rate,
                                BRIDGE_SAMPLE_RATE,
                            );
                            let audio = samples_to_bytes(&resampled_pcm);
                            out.push(ForwardAction::ToBridge { audio });
                            proof {
                                assert(out@.map_values(|a: ForwardAction| action_view(a))
                                    =~= prev_mapped.push(
                                    ActionSpec::Bridge(bridge_audio_spec(frame)->Ok_0->Some_0),
                                ));
                                lemma_chain_step(
                                    self.spec_stages(),
                                    frame,
                                    i as int,
                                    prev_mapped,
                                    Some(
                                        ActionSpec::Bridge(bridge_audio_spec(frame)->Ok_0->Some_0),
                                    ),
                                );
                            }
                        },
                        None => {
                            proof {
                                lemma_chain_step(
                                    self.spec_stages(),
                                    frame,
                                    i as int,
                                    prev_mapped,
                                    None,
                                );
                            }
                        },
                    }
                },
                _ => {
                    proof {
                        lemma_chain_step(self.spec_stages(), frame, i as int, prev_mapped, None);
                    }
                },
            }
            i = i + 1;
        }
        proof {
            assert(self.spec_stages().skip(self.stages@.len() as int) =~= Seq::<
                ChainStage,
            >::empty());
        }
        Ok(out)
    }
}

/// The speech-recognition stage: forwards PCM to a recognition client when
/// the frame is not confirmed silence.
pub struct AsrProcessor<C: TranscriptionClient> {
    pub asr_client: C,
}

impl<C: TranscriptionClient> AsrProcessor<C> {
    /// Run one frame: PCM that is not confirmed silence goes to the
    /// recognition client, and exactly those samples come back as the
    /// forwarded audio; confirmed silence and non-PCM frames pass untouched
    /// with nothing forwarded. The frame is never modified; a client
    /// failure aborts only this frame.
    pub fn process_frame(&self, frame: &mut AudioFrame) -> (r: Result<
        Option<Vec<i16>>,
        MediaError,
    >)
        ensures
            *final(frame) == *old(frame),
            !asr_forwards(old(frame)) ==> (r matches Ok(a) && a is None),
            match r {
                Ok(a) => match a {
                    Some(s) => asr_forwards(old(frame)) && (old(frame).samples matches
                        Samples::PCM { samples } && s@ == samples@),
                    None => !asr_forwards(old(frame)),
                },
                Err(_) => true,
            },
    {
        match &frame.samples {
            Samples::PCM { samples } => {
                let forward = match frame.vad_speaking {
                    Some(false) => false,
                    _ => true,
                };
                if forward {
                    self.asr_client.send_audio(samples)?;
                    let mut forwarded: Vec<i16> = Vec::new();
                    let mut j: usize = 0;
                    while j < samples.len()
                        invariant
                            j <= samples@.len(),
                            forwarded@ =~= samples@.subrange(0, j as int),
                        decreases samples@.len() - j,
                    {
                        forwarded.push(samples[j]);
                        j = j + 1;
                    }
                    assert(forwarded@ =~= samples@);
                    Ok(Some(forwarded))
                } else {
                    Ok(None)
                }
            },
            _ => Ok(None),
        }
    }
}

/// How one bridge event republishes on the session bus, stamped with the
/// given track and time: synthesized audio becomes play-out PCM for the
/// server-side track, transcriptions become recognition events carrying the
/// bridge's timestamps, a bridge error is surfaced with its code, and every
/// control event stays internal. Audio whose byte count does not form whole
/// samples, or is empty, is dropped rather than corrupting play-out.
pub open spec fn pipecat_session_event_rel(
    event: PipecatEvent,
    track_id: &TrackId,
    now: u64,
    r: Option<SessionEvent>,
) -> bool {
    match event {
        PipecatEvent::AudioResponse { audio_data, sample_rate, .. } => if audio_data@.len() % 2
            == 0 && audio_data@.len() > 0 {
            r matches Some(e) && (e matches SessionEvent::PipecatAudio {
                track_id: t,
                audio_samples,
                sample_rate: sr,
                timestamp,
            } && t@ == "server-side-track"@ && audio_samples@ == le_samples(audio_data@) && sr
                == sample_rate && timestamp == now)
        } else {
            r is None
        },
        PipecatEvent::TranscriptionFinal { text, timestamp } => r matches Some(e) && (
        e matches SessionEvent::AsrFinal {
            track_id: t,
            index,
            text: x,
            timestamp: ts,
            start_time,
            end_time,
        } && t == track_id && index == 0 && x == text && ts == timestamp && start_time == Some(
            timestamp,
        ) && end_time == Some(timestamp)),
        PipecatEvent::TranscriptionDelta { text, timestamp } => r matches Some(e) && (
        e matches SessionEvent::AsrDelta {
            track_id: t,
            index,
            text: x,
            timestamp: ts,
            start_time,
            end_time,
        } && t == track_id && index == 0 && x == text && ts == timestamp && start_time == Some(
            timestamp,
        ) && end_time == Some(timestamp)),
        PipecatEvent::Error { message, code } => r matches Some(e) && (
        e matches SessionEvent::Error {
            track_id: t,
            timestamp,
            sender,
            error,
            code: c,
        } && t == track_id && timestamp == now && sender@ == "pipecat"@ && error == message && c
            == code_as_unsigned(code)),
        _ => r is None,
    }
}

/// Republish one bridge event on the session bus.
///
/// Synthesized audio is decoded from little-endian bytes and addressed to
/// the server-side play-out track; final and partial transcriptions become
/// recognition events carrying the bridge's timestamps; a bridge error is
/// surfaced with its code. Control events — liveness, metrics, language
/// model progress — stay internal and yield nothing.
pub fn pipecat_event_to_session(event: PipecatEvent, track_id: &TrackId, now: u64) -> (r: Option<
    SessionEvent,
>)
    ensures
        pipecat_session_event_rel(event, track_id, now, r),
{
    match event {
        PipecatEvent::AudioResponse { audio_data, sample_rate, .. } => {
            match bytes_to_samples(&audio_data) {
                Ok(samples) => {
                    if samples.len() > 0 {
                        Some(
                            SessionEvent::PipecatAudio {
                                track_id: "server-side-track".to_owned(),
                                audio_samples: samples,
                                sample_rate,
                                timestamp: now,
                            },
                        )
                    } else {
                        None
                    }
                },
                Err(_) => None,
            }
        },
        PipecatEvent::TranscriptionFinal { text, timestamp } => Some(
            SessionEvent::AsrFinal {
                track_id: track_id.clone(),
                index: 0,
                text,
                timestamp,
                start_time: Some(timestamp),
                end_time: Some(timestamp),
            },
        ),
        PipecatEvent::TranscriptionDelta { text, timestamp } => Some(
            SessionEvent::AsrDelta {
                track_id: track_id.clone(),
                index: 0,
                text,
                timestamp,
                start_time: Some(timestamp),
                end_time: Some(timestamp),
            },
        ),
        PipecatEvent::Error { message, code } => Some(
            SessionEvent::Error {
                track_id: track_id.clone(),
                timestamp: now,
                sender: "pipecat".to_owned(),
                error: message,
                code: match code {
                    Some(c) => if c >= 0 {
                        Some(c as u32)
                    } else {
                        Some((c as i64 + 0x1_0000_0000) as u32)
                    },
                    None => None,
                },
            },
        ),
        _ => None,
    }
}

/// A bridge error code as the unsigned value the session bus carries: the
/// two's-complement image of the signed code.
pub open spec fn code_as_unsigned(code: Option<i32>) -> Option<u32> {
    match code {
        Some(c) => if c >= 0 {
            Some(c as u32)
        } else {
            Some((c + 0x1_0000_0000) as u32)
        },
        None => None,
    }
}


/// Builds the AI-bridge client for one track's processor from its
/// configuration.
#[derive(Debug)]
pub struct PipecatProcessorBuilder {
    pipecat_config: Option<crate::pipecat::config::PipecatConfig>,
}

impl PipecatProcessorBuilder {
    /// No configuration yet.
    pub fn new() -> (r: PipecatProcessorBuilder)
        ensures
            r.spec_pipecat_config() is None,
    {
        PipecatProcessorBuilder { pipecat_config: None }
    }

    /// The configuration the builder holds.
    pub closed spec fn spec_pipecat_config(&self) -> Option<
        crate::pipecat::config::PipecatConfig,
    > {
        self.pipecat_config
    }

    /// Provide the bridge configuration.
    pub fn with_pipecat_config(self, config: crate::pipecat::config::PipecatConfig) -> (r:
        PipecatProcessorBuilder)
        ensures
            r.spec_pipecat_config() == Some(config),
    {
        PipecatProcessorBuilder { pipecat_config: Some(config) }
    }

    /// Build the bridge client the processor forwards to: succeeds exactly
    /// when a configuration was provided and passes validation; a missing
    /// configuration and an invalid one each fail with their own
    /// configuration error.
    pub fn build(self) -> (r: Result<crate::pipecat::client::PipecatClient, MediaError>)
        ensures
            (r is Ok) == (self.spec_pipecat_config() matches Some(cfg) && validate_err(&cfg)
                is None),
            r matches Ok(c) ==> self.spec_pipecat_config() matches Some(cfg) && c.spec_config()
                == cfg && c.spec_status() is Disconnected && c.spec_attempts() == 0
                && c.spec_frame_counter() == 0,
            self.spec_pipecat_config() is None ==> (r matches Err(e) && (
            e matches MediaError::InvalidConfiguration(m) && m@ == "Pipecat config is required"@)),
            match self.spec_pipecat_config() {
                Some(cfg) => match validate_err(&cfg) {
                    Some(v) => r matches Err(e) && (e matches MediaError::InvalidConfiguration(m)
                        && m@ == v),
                    None => true,
                },
                None => true,
            },
    {
        match self.pipecat_config {
            Some(config) => crate::pipecat::client::PipecatClient::new(config),
            None => Err(MediaError::InvalidConfiguration("Pipecat config is required".to_owned())),
        }
    }
}

impl Default for PipecatProcessorBuilder {
    /// Same as an empty builder.
    fn default() -> (r: Self)
        ensures
            r.spec_pipecat_config() is None,
    {
        PipecatProcessorBuilder::new()
    }
}


} // verus!
