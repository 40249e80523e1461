//! The provider registry ("stream engine"): maps provider tags to
//! registered constructor handles and turns a call's declared options into
//! the ordered list of processors to build.
//!
//! Constructor handles are opaque identifiers; the host process keeps the
//! matching table of factories and performs the construction and I/O. The
//! registry owns the one assembly invariant of the pipeline: at most one AI
//! owner — the internal VAD/ASR/EOU stack or the bridge — processes a
//! call's audio, never both.

use vstd::prelude::*;
use crate::errors::MediaError;
use crate::pipecat::config::PipecatConfig;
use crate::synthesis::{synthesis_type_eq, SynthesisOption, SynthesisType};
use crate::transcription::{transcription_type_eq, TranscriptionOption, TranscriptionType};

verus! {

/// The constructor handle the default engine registers for each built-in
/// provider.
pub const CREATOR_ASR_TENCENT: u64 = 1;

pub const CREATOR_ASR_VOICEAPI: u64 = 2;

pub const CREATOR_ASR_ALIYUN: u64 = 3;

pub const CREATOR_ASR_DEEPGRAM: u64 = 4;

pub const CREATOR_TTS_ALIYUN: u64 = 5;

pub const CREATOR_TTS_TENCENT: u64 = 6;

pub const CREATOR_TTS_VOICEAPI: u64 = 7;

pub const CREATOR_TTS_DEEPGRAM: u64 = 8;

pub const CREATOR_PIPECAT: u64 = 9;

/// The tag naming a voice-activity-detection provider.
#[derive(Debug, Clone)]
pub enum VadType {
    WebRTC,
    Silero,
    Ten,
    Other(String),
}

/// Whether two tags name the same detector.
pub open spec fn vad_type_eq(a: &VadType, b: &VadType) -> bool {
    match (a, b) {
        (VadType::WebRTC, VadType::WebRTC) => true,
        (VadType::Silero, VadType::Silero) => true,
        (VadType::Ten, VadType::Ten) => true,
        (VadType::Other(x), VadType::Other(y)) => x@ == y@,
        _ => false,
    }
}

impl PartialEq for VadType {
    fn eq(&self, other: &Self) -> (r: bool) {
        match (self, other) {
            (VadType::WebRTC, VadType::WebRTC) => true,
            (VadType::Silero, VadType::Silero) => true,
            (VadType::Ten, VadType::Ten) => true,
            (VadType::Other(x), VadType::Other(y)) => *x == *y,
            _ => false,
        }
    }
}

impl vstd::std_specs::cmp::PartialEqSpecImpl for VadType {
    open spec fn obeys_eq_spec() -> bool {
        true
    }

    open spec fn eq_spec(&self, other: &Self) -> bool {
        vad_type_eq(self, other)
    }
}

/// Per-call voice-activity-detection options.
#[derive(Debug, Clone)]
pub struct VADOption {
    pub vad_type: VadType,
    pub samplerate: u32,
}

/// Per-call end-of-utterance options; the type tag selects the registered
/// detector, an absent tag selects the one registered under the empty name.
#[derive(Debug, Clone)]
pub struct EouOption {
    pub eou_type: Option<String>,
}

/// The declarative per-call configuration handed to the registry. Each
/// sub-option present means "instantiate this processor"; absence means
/// "skip".
#[derive(Debug, Clone)]
pub struct CallOption {
    pub denoise: Option<bool>,
    pub vad: Option<VADOption>,
    pub asr: Option<TranscriptionOption>,
    pub eou: Option<EouOption>,
    pub pipecat: Option<PipecatConfig>,
}

impl Default for CallOption {
    /// Nothing requested.
    fn default() -> (r: Self)
        ensures
            r.denoise is None,
            r.vad is None,
            r.asr is None,
            r.eou is None,
            r.pipecat is None,
    {
        CallOption { denoise: None, vad: None, asr: None, eou: None, pipecat: None }
    }
}

/// One entry of an assembled pipeline: which processor to build, and the
/// registered constructor handle to build it with.
#[derive(Debug, Clone, Copy, PartialEq, Eq, Structural)]
pub enum ProcessorSpec {
    Denoise,
    Pipecat { creator: u64 },
    Vad { creator: u64 },
    Asr { creator: u64 },
    Eou { creator: u64 },
}

/// First registration found for a detector tag.
pub open spec fn lookup_vad(regs: Seq<(VadType, u64)>, key: &VadType) -> Option<u64>
    decreases regs.len(),
{
    if regs.len() == 0 {
        None
    } else if vad_type_eq(&regs[0].0, key) {
        Some(regs[0].1)
    } else {
        lookup_vad(regs.drop_first(), key)
    }
}

/// First registration found for a recognizer tag.
pub open spec fn lookup_asr(regs: Seq<(TranscriptionType, u64)>, key: &TranscriptionType)
    -> Option<u64>
    decreases regs.len(),
{
    if regs.len() == 0 {
        None
    } else if transcription_type_eq(&regs[0].0, key) {
        Some(regs[0].1)
    } else {
        lookup_asr(regs.drop_first(), key)
    }
}

/// First registration found for a synthesizer tag.
pub open spec fn lookup_tts(regs: Seq<(SynthesisType, u64)>, key: &SynthesisType) -> Option<u64>
    decreases regs.len(),
{
    if regs.len() == 0 {
        None
    } else if synthesis_type_eq(&regs[0].0, key) {
        Some(regs[0].1)
    } else {
        lookup_tts(regs.drop_first(), key)
    }
}

/// First registration found for an end-of-utterance detector name.
pub open spec fn lookup_eou(regs: Seq<(String, u64)>, key: Seq<char>) -> Option<u64>
    decreases regs.len(),
{
    if regs.len() == 0 {
        None
    } else if regs[0].0@ == key {
        Some(regs[0].1)
    } else {
        lookup_eou(regs.drop_first(), key)
    }
}

/// The provider registry: constructor handles per capability, keyed by
/// provider tag. Registering a tag again shadows the earlier handle.
#[derive(Debug)]
pub struct StreamEngine {
    vad_creators: Vec<(VadType, u64)>,
    eou_creators: Vec<(String, u64)>,
    asr_creators: Vec<(TranscriptionType, u64)>,
    tts_creators: Vec<(SynthesisType, u64)>,
    pipecat_creator: Option<u64>,
}

impl StreamEngine {
    /// The detector registrations, newest first.
    pub closed spec fn vad_regs(&self) -> Seq<(VadType, u64)> {
        self.vad_creators@
    }

    /// The end-of-utterance registrations, newest first.
    pub closed spec fn eou_regs(&self) -> Seq<(String, u64)> {
        self.eou_creators@
    }

    /// The recognizer registrations, newest first.
    pub closed spec fn asr_regs(&self) -> Seq<(TranscriptionType, u64)> {
        self.asr_creators@
    }

    /// The synthesizer registrations, newest first.
    pub closed spec fn tts_regs(&self) -> Seq<(SynthesisType, u64)> {
        self.tts_creators@
    }

    /// The bridge constructor handle, if one is registered.
    pub closed spec fn pipecat_reg(&self) -> Option<u64> {
        self.pipecat_creator
    }

    /// An empty registry.
    pub fn new() -> (r: StreamEngine)
        ensures
            r.vad_regs() == Seq::<(VadType, u64)>::empty(),
            r.eou_regs() == Seq::<(String, u64)>::empty(),
            r.asr_regs() == Seq::<(TranscriptionType, u64)>::empty(),
            r.tts_regs() == Seq::<(SynthesisType, u64)>::empty(),
            r.pipecat_reg() is None,
    {
        StreamEngine {
            vad_creators: Vec::new(),
            eou_creators: Vec::new(),
            asr_creators: Vec::new(),
            tts_creators: Vec::new(),
            pipecat_creator: None,
        }
    }

    /// Register a voice-activity detector.
    pub fn register_vad(&mut self, vad_type: VadType, creator: u64)
        ensures
            final(self).vad_regs() == old(self).vad_regs().insert(0, (vad_type, creator)),
            final(self).eou_regs() == old(self).eou_regs(),
            final(self).asr_regs() == old(self).asr_regs(),
            final(self).tts_regs() == old(self).tts_regs(),
            final(self).pipecat_reg() == old(self).pipecat_reg(),
    {
        self.vad_creators.insert(0, (vad_type, creator));
    }

    /// Register an end-of-utterance detector under a name.
    pub fn register_eou(&mut self, name: String, creator: u64)
        ensures
            final(self).eou_regs() == old(self).eou_regs().insert(0, (name, creator)),
            final(self).vad_regs() == old(self).vad_regs(),
            final(self).asr_regs() == old(self).asr_regs(),
            final(self).tts_regs() == old(self).tts_regs(),
            final(self).pipecat_reg() == old(self).pipecat_reg(),
    {
        self.eou_creators.insert(0, (name, creator));
    }

    /// Register a speech recognizer.
    pub fn register_asr(&mut self, asr_type: TranscriptionType, creator: u64)
        ensures
            final(self).asr_regs() == old(self).asr_regs().insert(0, (asr_type, creator)),
            final(self).vad_regs() == old(self).vad_regs(),
            final(self).eou_regs() == old(self).eou_regs(),
            final(self).tts_regs() == old(self).tts_regs(),
            final(self).pipecat_reg() == old(self).pipecat_reg(),
    {
        self.asr_creators.insert(0, (asr_type, creator));
    }

    /// Register a speech synthesizer.
    pub fn register_tts(&mut self, tts_type: SynthesisType, creator: u64)
        ensures
            final(self).tts_regs() == old(self).tts_regs().insert(0, (tts_type, creator)),
            final(self).vad_regs() == old(self).vad_regs(),
            final(self).eou_regs() == old(self).eou_regs(),
            final(self).asr_regs() == old(self).asr_regs(),
            final(self).pipecat_reg() == old(self).pipecat_reg(),
    {
        self.tts_creators.insert(0, (tts_type, creator));
    }

    /// Register the bridge constructor, replacing any earlier one.
    pub fn register_pipecat(&mut self, creator: u64)
        ensures
            final(self).pipecat_reg() == Some(creator),
            final(self).vad_regs() == old(self).vad_regs(),
            final(self).eou_regs() == old(self).eou_regs(),
            final(self).asr_regs() == old(self).asr_regs(),
            final(self).tts_regs() == old(self).tts_regs(),
    {
        self.pipecat_creator = Some(creator);
    }

    /// Find the constructor handle for a detector tag.
    pub fn find_vad(&self, key: &VadType) -> (r: Option<u64>)
        ensures
            r == lookup_vad(self.vad_regs(), key),
    {
        let mut i: usize = 0;
        proof {
            assert(self.vad_creators@.skip(0) =~= self.vad_creators@);
        }
        while i < self.vad_creators.len()
            invariant
                i <= self.vad_creators@.len(),
                lookup_vad(self.vad_creators@, key) == lookup_vad(
                    self.vad_creators@.skip(i as int),
                    key,
                ),
            decreases self.vad_creators@.len() - i,
        {
            proof {
                assert(self.vad_creators@.skip(i as int)[0] == self.vad_creators@[i as int]);
                assert(self.vad_creators@.skip(i as int).drop_first() =~= self.vad_creators@.skip(
                    i as int + 1,
                ));
            }
            if self.vad_creators[i].0 == *key {
                return Some(self.vad_creators[i].1);
            }
            i = i + 1;
        }
        None
    }

    /// Find the constructor handle for a recognizer tag.
    pub fn find_asr(&self, key: &TranscriptionType) -> (r: Option<u64>)
        ensures
            r == lookup_asr(self.asr_regs(), key),
    {
        let mut i: usize = 0;
        proof {
            assert(self.asr_creators@.skip(0) =~= self.asr_creators@);
        }
        while i < self.asr_creators.len()
            invariant
                i <= self.asr_creators@.len(),
                lookup_asr(self.asr_creators@, key) == lookup_asr(
                    self.asr_creators@.skip(i as int),
                    key,
                ),
            decreases self.asr_creators@.len() - i,
        {
            proof {
                assert(self.asr_creators@.skip(i as int)[0] == self.asr_creators@[i as int]);
                assert(self.asr_creators@.skip(i as int).drop_first() =~= self.asr_creators@.skip(
                    i as int + 1,
                ));
            }
            if self.asr_creators[i].0 == *key {
                return Some(self.asr_creators[i].1);
            }
            i = i + 1;
        }
        None
    }

    /// Find the constructor handle for a synthesizer tag.
    pub fn find_tts(&self, key: &SynthesisType) -> (r: Option<u64>)
        ensures
            r == lookup_tts(self.tts_regs(), key),
    {
        let mut i: usize = 0;
        proof {
            assert(self.tts_creators@.skip(0) =~= self.tts_creators@);
        }
        while i < self.tts_creators.len()
            invariant
                i <= self.tts_creators@.len(),
                lookup_tts(self.tts_creators@, key) == lookup_tts(
                    self.tts_creators@.skip(i as int),
                    key,
                ),
            decreases self.tts_creators@.len() - i,
        {
            proof {
                assert(self.tts_creators@.skip(i as int)[0] == self.tts_creators@[i as int]);
                assert(self.tts_creators@.skip(i as int).drop_first() =~= self.tts_creators@.skip(
                    i as int + 1,
                ));
            }
            if self.tts_creators[i].0 == *key {
                return Some(self.tts_creators[i].1);
            }
            i = i + 1;
        }
        None
    }

    /// Find the constructor handle for an end-of-utterance detector name.
    pub fn find_eou(&self, key: &String) -> (r: Option<u64>)
        ensures
            r == lookup_eou(self.eou_regs(), key@),
    {
        let mut i: usize = 0;
        proof {
            assert(self.eou_creators@.skip(0) =~= self.eou_creators@);
        }
        while i < self.eou_creators.len()
            invariant
                i <= self.eou_creators@.len(),
                lookup_eou(self.eou_creators@, key@) == lookup_eou(
                    self.eou_creators@.skip(i as int),
                    key@,
                ),
            decreases self.eou_creators@.len() - i,
        {
            proof {
                assert(self.eou_creators@.skip(i as int)[0] == self.eou_creators@[i as int]);
                assert(self.eou_creators@.skip(i as int).drop_first() =~= self.eou_creators@.skip(
                    i as int + 1,
                ));
            }
            if self.eou_creators[i].0 == *key {
                return Some(self.eou_creators[i].1);
            }
            i = i + 1;
        }
        None
    }
}


/// Whether the call configures and enables the AI bridge.
pub open spec fn bridge_enabled(o: &CallOption) -> bool {
    o.pipecat matches Some(p) && p.enabled
}

/// Whether the bridge is marked as owning all AI processing for the call.
pub open spec fn bridge_owns_ai(o: &CallOption) -> bool {
    o.pipecat matches Some(p) && p.enabled && p.use_for_ai
}

/// Whether a failed bridge may fall back to the internal stack.
pub open spec fn bridge_fallback(o: &CallOption) -> bool {
    o.pipecat matches Some(p) && p.fallback_to_internal
}

/// Whether the bridge comes up: it must be enabled, a constructor must be
/// registered, and the host's construction attempt must have succeeded.
pub open spec fn bridge_built(e: &StreamEngine, o: &CallOption, bridge_ok: bool) -> bool {
    bridge_enabled(o) && e.pipecat_reg() is Some && bridge_ok
}

/// The detector entry a call's VAD option assembles, if any.
pub open spec fn vad_plan(e: &StreamEngine, o: &CallOption) -> Result<
    Seq<ProcessorSpec>,
    MediaError,
> {
    match o.vad {
        None => Ok(Seq::empty()),
        Some(v) => match lookup_vad(e.vad_regs(), &v.vad_type) {
            Some(c) => Ok(seq![ProcessorSpec::Vad { creator: c }]),
            None => Err(MediaError::UnknownProviderTag),
        },
    }
}

/// The recognizer entry a call's ASR option assembles, if any.
pub open spec fn asr_plan(e: &StreamEngine, o: &CallOption) -> Result<
    Seq<ProcessorSpec>,
    MediaError,
> {
    match o.asr {
        None => Ok(Seq::empty()),
        Some(a) => match a.provider {
            None => Err(MediaError::UnknownProviderTag),
            Some(p) => match lookup_asr(e.asr_regs(), &p) {
                Some(c) => Ok(seq![ProcessorSpec::Asr { creator: c }]),
                None => Err(MediaError::UnknownProviderTag),
            },
        },
    }
}

/// The end-of-utterance entry a call's EOU option assembles, if any. An
/// absent type tag selects the detector registered under the empty name.
pub open spec fn eou_plan(e: &StreamEngine, o: &CallOption) -> Result<
    Seq<ProcessorSpec>,
    MediaError,
> {
    match o.eou {
        None => Ok(Seq::empty()),
        Some(eo) => {
            let key = match eo.eou_type {
                Some(tag) => tag@,
                None => Seq::empty(),
            };
            match lookup_eou(e.eou_regs(), key) {
                Some(c) => Ok(seq![ProcessorSpec::Eou { creator: c }]),
                None => Err(MediaError::UnknownProviderTag),
            }
        },
    }
}

/// The internal AI stack a call assembles: VAD, then ASR, then EOU, each
/// only if its option is present; any missing registration fails the whole
/// assembly.
pub open spec fn internal_plan(e: &StreamEngine, o: &CallOption) -> Result<
    Seq<ProcessorSpec>,
    MediaError,
> {
    match vad_plan(e, o) {
        Err(er) => Err(er),
        Ok(v) => match asr_plan(e, o) {
            Err(er) => Err(er),
            Ok(a) => match eou_plan(e, o) {
                Err(er) => Err(er),
                Ok(eo) => Ok(v + a + eo),
            },
        },
    }
}

/// The whole assembly a call's options and the bridge outcome decide:
/// an optional denoiser first; then, if the bridge is enabled, the bridge
/// entry when it came up. A bridge that owns AI processing and came up ends
/// the assembly there; one that failed while owning AI processing either
/// falls back to the internal stack or fails the assembly with
/// `BridgeUnavailable`. In every other case the internal stack follows.
pub open spec fn planned_processors(e: &StreamEngine, o: &CallOption, bridge_ok: bool) -> Result<
    Seq<ProcessorSpec>,
    MediaError,
> {
    let d: Seq<ProcessorSpec> = if o.denoise == Some(true) {
        seq![ProcessorSpec::Denoise]
    } else {
        Seq::empty()
    };
    if bridge_enabled(o) {
        if bridge_built(e, o, bridge_ok) {
            let b = seq![ProcessorSpec::Pipecat { creator: e.pipecat_reg()->Some_0 }];
            if bridge_owns_ai(o) {
                Ok(d + b)
            } else {
                match internal_plan(e, o) {
                    Ok(i) => Ok(d + b + i),
                    Err(er) => Err(er),
                }
            }
        } else {
            if bridge_owns_ai(o) && !bridge_fallback(o) {
                Err(MediaError::BridgeUnavailable)
            } else {
                match internal_plan(e, o) {
                    Ok(i) => Ok(d + i),
                    Err(er) => Err(er),
                }
            }
        }
    } else {
        match internal_plan(e, o) {
            Ok(i) => Ok(d + i),
            Err(er) => Err(er),
        }
    }
}

impl StreamEngine {
    /// Look up the constructor for a call's detector option.
    pub fn create_vad_processor(&self, option: &VADOption) -> (r: Result<u64, MediaError>)
        ensures
            match lookup_vad(self.vad_regs(), &option.vad_type) {
                Some(c) => r == Ok::<u64, MediaError>(c),
                None => r == Err::<u64, MediaError>(MediaError::UnknownProviderTag),
            },
    {
        match self.find_vad(&option.vad_type) {
            Some(c) => Ok(c),
            None => Err(MediaError::UnknownProviderTag),
        }
    }

    /// Look up the constructor for a call's recognizer option; an option
    /// without a provider tag fails.
    pub fn create_asr_processor(&self, option: &TranscriptionOption) -> (r: Result<
        u64,
        MediaError,
    >)
        ensures
            match option.provider {
                None => r == Err::<u64, MediaError>(MediaError::UnknownProviderTag),
                Some(p) => match lookup_asr(self.asr_regs(), &p) {
                    Some(c) => r == Ok::<u64, MediaError>(c),
                    None => r == Err::<u64, MediaError>(MediaError::UnknownProviderTag),
                },
            },
    {
        match &option.provider {
            Some(p) => match self.find_asr(p) {
                Some(c) => Ok(c),
                None => Err(MediaError::UnknownProviderTag),
            },
            None => Err(MediaError::UnknownProviderTag),
        }
    }

    /// Look up the constructor for a call's end-of-utterance option; an
    /// absent type tag selects the detector registered under the empty name.
    pub fn create_eou_processor(&self, option: &EouOption) -> (r: Result<u64, MediaError>)
        ensures
            ({
                let key = match option.eou_type {
                    Some(tag) => tag@,
                    None => Seq::<char>::empty(),
                };
                match lookup_eou(self.eou_regs(), key) {
                    Some(c) => r == Ok::<u64, MediaError>(c),
                    None => r == Err::<u64, MediaError>(MediaError::UnknownProviderTag),
                }
            }),
    {
        let found = match &option.eou_type {
            Some(tag) => self.find_eou(tag),
            None => {
                let empty_name: String = String::new();
                self.find_eou(&empty_name)
            },
        };
        match found {
            Some(c) => Ok(c),
            None => Err(MediaError::UnknownProviderTag),
        }
    }

    /// Look up the constructor for a call's synthesizer option; an option
    /// without a provider tag fails.
    pub fn create_tts_client(&self, tts_option: &SynthesisOption) -> (r: Result<u64, MediaError>)
        ensures
            match tts_option.provider {
                None => r == Err::<u64, MediaError>(MediaError::UnknownProviderTag),
                Some(p) => match lookup_tts(self.tts_regs(), &p) {
                    Some(c) => r == Ok::<u64, MediaError>(c),
                    None => r == Err::<u64, MediaError>(MediaError::UnknownProviderTag),
                },
            },
    {
        match &tts_option.provider {
            Some(p) => match self.find_tts(p) {
                Some(c) => Ok(c),
                None => Err(MediaError::UnknownProviderTag),
            },
            None => Err(MediaError::UnknownProviderTag),
        }
    }

    /// The registered bridge constructor, or a lookup failure when none was
    /// registered.
    pub fn create_pipecat_processor(&self) -> (r: Result<u64, MediaError>)
        ensures
            match self.pipecat_reg() {
                Some(c) => r == Ok::<u64, MediaError>(c),
                None => r == Err::<u64, MediaError>(MediaError::UnknownProviderTag),
            },
    {
        match self.pipecat_creator {
            Some(c) => Ok(c),
            None => Err(MediaError::UnknownProviderTag),
        }
    }

    /// Assemble the ordered processor list for a call.
    ///
    /// `bridge_ok` reports whether the host's attempt to construct and
    /// connect the bridge client succeeded; it is read only when the call
    /// configures and enables a bridge. The decision order is: denoiser
    /// first if asked for; then the bridge. A bridge that owns AI
    /// processing and came up ends the assembly — VAD, ASR and EOU are
    /// never constructed beside it. A bridge that owns AI processing and
    /// failed either falls back to the internal stack or fails the whole
    /// assembly with `BridgeUnavailable`. In every other case the internal
    /// stack follows, each stage only if its option is present, and an
    /// unregistered provider tag fails the assembly with
    /// `UnknownProviderTag`.
    pub fn create_processors(&self, option: &CallOption, bridge_ok: bool) -> (r: Result<
        Vec<ProcessorSpec>,
        MediaError,
    >)
        ensures
            match planned_processors(self, option, bridge_ok) {
                Ok(ps) => r matches Ok(v) && v@ == ps,
                Err(er) => r matches Err(e) && e == er,
            },
    {
        let mut processors: Vec<ProcessorSpec> = Vec::new();
        match &option.denoise {
            Some(true) => {
                processors.push(ProcessorSpec::Denoise);
            },
            _ => {},
        }
        let mut bridge_is_enabled = false;
        match &option.pipecat {
            Some(p) if p.enabled => {
                bridge_is_enabled = true;
                let built = bridge_ok && self.pipecat_creator.is_some();
                if built {
                    match self.pipecat_creator {
                        Some(c) => {
                            processors.push(ProcessorSpec::Pipecat { creator: c });
                        },
                        None => {},
                    }
                    if p.use_for_ai {
                        proof {
                            assert(r_matches_plan(
                                planned_processors(self, option, bridge_ok),
                                processors@,
                            ));
                        }
                        return Ok(processors);
                    }
                } else {
                    if p.use_for_ai && !p.fallback_to_internal {
                        return Err(MediaError::BridgeUnavailable);
                    }
                }
            },
            _ => {},
        }
        match &option.vad {
            Some(v) => match self.find_vad(&v.vad_type) {
                Some(c) => {
                    processors.push(ProcessorSpec::Vad { creator: c });
                },
                None => {
                    return Err(MediaError::UnknownProviderTag);
                },
            },
            None => {},
        }
        match &option.asr {
            Some(a) => match &a.provider {
                Some(p) => match self.find_asr(p) {
                    Some(c) => {
                        processors.push(ProcessorSpec::Asr { creator: c });
                    },
                    None => {
                        return Err(MediaError::UnknownProviderTag);
                    },
                },
                None => {
                    return Err(MediaError::UnknownProviderTag);
                },
            },
            None => {},
        }
        match &option.eou {
            Some(eo) => {
                let found = match &eo.eou_type {
                    Some(tag) => self.find_eou(tag),
                    None => {
                        let empty_name: String = String::new();
                        self.find_eou(&empty_name)
                    },
                };
                match found {
                    Some(c) => {
                        processors.push(ProcessorSpec::Eou { creator: c });
                    },
                    None => {
                        return Err(MediaError::UnknownProviderTag);
                    },
                }
            },
            None => {},
        }
        proof {
            assert(r_matches_plan(planned_processors(self, option, bridge_ok), processors@));
        }
        Ok(processors)
    }
}

/// Whether a plan is a success holding exactly the given entries.
pub open spec fn r_matches_plan(
    plan: Result<Seq<ProcessorSpec>, MediaError>,
    v: Seq<ProcessorSpec>,
) -> bool {
    plan matches Ok(ps) && v =~= ps
}

/// A call that asks only for speech recognition, from a registered
/// provider, assembles exactly one recognizer entry: no detector, no
/// end-of-utterance stage, no denoiser, no bridge.
pub proof fn lemma_asr_only_assembly(e: &StreamEngine, o: &CallOption, bridge_ok: bool)
    requires
        o.denoise is None,
        o.vad is None,
        o.eou is None,
        o.pipecat is None,
        o.asr matches Some(a) && a.provider matches Some(p) && lookup_asr(e.asr_regs(), &p)
            is Some,
    ensures
        planned_processors(e, o, bridge_ok) matches Ok(ps) && ps.len() == 1 && ps[0] matches
            ProcessorSpec::Asr { .. },
{
    let a = o.asr->Some_0;
    let p = a.provider->Some_0;
    let c = lookup_asr(e.asr_regs(), &p)->Some_0;
    assert(planned_processors(e, o, bridge_ok)->Ok_0 =~= seq![ProcessorSpec::Asr { creator: c }]);
}

/// A bridge that owns the call's AI processing and comes up excludes the
/// internal stack: the assembled chain holds no recognizer, no detector
/// and no end-of-utterance stage.
pub proof fn lemma_bridge_owns_ai_excludes_internal(
    e: &StreamEngine,
    o: &CallOption,
    bridge_ok: bool,
)
    requires
        bridge_owns_ai(o),
        bridge_built(e, o, bridge_ok),
    ensures
        planned_processors(e, o, bridge_ok) matches Ok(ps) && forall|i: int|
            0 <= i < ps.len() ==> !((#[trigger] ps[i]) matches ProcessorSpec::Asr { .. }) && !(
            ps[i] matches ProcessorSpec::Vad { .. }) && !(ps[i] matches ProcessorSpec::Eou {
                ..
            }),
{
}

/// A bridge that owns the call's AI processing, fails to come up, and may
/// not fall back to the internal stack fails the whole assembly with
/// `BridgeUnavailable`, constructing nothing.
pub proof fn lemma_bridge_failure_without_fallback(
    e: &StreamEngine,
    o: &CallOption,
    bridge_ok: bool,
)
    requires
        bridge_owns_ai(o),
        !bridge_fallback(o),
        !bridge_built(e, o, bridge_ok),
    ensures
        planned_processors(e, o, bridge_ok) == Err::<Seq<ProcessorSpec>, MediaError>(
            MediaError::BridgeUnavailable,
        ),
{
}



impl Default for StreamEngine {
    /// The engine with the built-in providers registered: the four
    /// recognizers and four synthesizers under their well-known constructor
    /// handles, and the bridge constructor. No detector is registered by
    /// default.
    fn default() -> (r: Self)
        ensures
            r.vad_regs() == Seq::<(VadType, u64)>::empty(),
            r.eou_regs() == Seq::<(String, u64)>::empty(),
            lookup_asr(r.asr_regs(), &TranscriptionType::TencentCloud) == Some(CREATOR_ASR_TENCENT),
            lookup_asr(r.asr_regs(), &TranscriptionType::VoiceApi) == Some(CREATOR_ASR_VOICEAPI),
            lookup_asr(r.asr_regs(), &TranscriptionType::Aliyun) == Some(CREATOR_ASR_ALIYUN),
            lookup_asr(r.asr_regs(), &TranscriptionType::Deepgram) == Some(CREATOR_ASR_DEEPGRAM),
            lookup_tts(r.tts_regs(), &SynthesisType::Aliyun) == Some(CREATOR_TTS_ALIYUN),
            lookup_tts(r.tts_regs(), &SynthesisType::TencentCloud) == Some(CREATOR_TTS_TENCENT),
            lookup_tts(r.tts_regs(), &SynthesisType::VoiceApi) == Some(CREATOR_TTS_VOICEAPI),
            lookup_tts(r.tts_regs(), &SynthesisType::Deepgram) == Some(CREATOR_TTS_DEEPGRAM),
            r.pipecat_reg() == Some(CREATOR_PIPECAT),
    {
        let mut engine = StreamEngine::new();
        engine.register_asr(TranscriptionType::TencentCloud, CREATOR_ASR_TENCENT);
        engine.register_asr(TranscriptionType::VoiceApi, CREATOR_ASR_VOICEAPI);
        engine.register_asr(TranscriptionType::Aliyun, CREATOR_ASR_ALIYUN);
        engine.register_asr(TranscriptionType::Deepgram, CREATOR_ASR_DEEPGRAM);
        engine.register_tts(SynthesisType::Aliyun, CREATOR_TTS_ALIYUN);
        engine.register_tts(SynthesisType::TencentCloud, CREATOR_TTS_TENCENT);
        engine.register_tts(SynthesisType::VoiceApi, CREATOR_TTS_VOICEAPI);
        engine.register_tts(SynthesisType::Deepgram, CREATOR_TTS_DEEPGRAM);
        engine.register_pipecat(CREATOR_PIPECAT);
        proof {
            reveal_with_fuel(lookup_asr, 5);
            reveal_with_fuel(lookup_tts, 5);
            assert(engine.asr_regs().drop_first() =~= engine.asr_regs().subrange(
                1,
                engine.asr_regs().len() as int,
            ));
            assert(engine.asr_regs().drop_first().drop_first() =~= engine.asr_regs().subrange(
                2,
                engine.asr_regs().len() as int,
            ));
            assert(engine.asr_regs().drop_first().drop_first().drop_first()
                =~= engine.asr_regs().subrange(3, engine.asr_regs().len() as int));
            assert(engine.tts_regs().drop_first() =~= engine.tts_regs().subrange(
                1,
                engine.tts_regs().len() as int,
            ));
            assert(engine.tts_regs().drop_first().drop_first() =~= engine.tts_regs().subrange(
                2,
                engine.tts_regs().len() as int,
            ));
            assert(engine.tts_regs().drop_first().drop_first().drop_first()
                =~= engine.tts_regs().subrange(3, engine.tts_regs().len() as int));
        }
        engine
    }
}


} // verus!
