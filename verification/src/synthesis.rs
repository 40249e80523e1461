//! Text-to-speech provider selection and the Deepgram synthesis helpers:
//! model validation, encoding mapping, and chunking of synthesized audio.

use vstd::prelude::*;
use std::collections::HashMap;
use crate::text::{str_eq, str_has_prefix};

verus! {

/// The tag naming a text-to-speech provider.
#[derive(Debug, Clone)]
pub enum SynthesisType {
    TencentCloud,
    VoiceApi,
    Aliyun,
    Deepgram,
    Other(String),
}

/// Whether two provider tags name the same provider.
pub open spec fn synthesis_type_eq(a: &SynthesisType, b: &SynthesisType) -> bool {
    match (a, b) {
        (SynthesisType::TencentCloud, SynthesisType::TencentCloud) => true,
        (SynthesisType::VoiceApi, SynthesisType::VoiceApi) => true,
        (SynthesisType::Aliyun, SynthesisType::Aliyun) => true,
        (SynthesisType::Deepgram, SynthesisType::Deepgram) => true,
        (SynthesisType::Other(x), SynthesisType::Other(y)) => x@ == y@,
        _ => false,
    }
}

impl PartialEq for SynthesisType {
    fn eq(&self, other: &Self) -> (r: bool) {
        match (self, other) {
            (SynthesisType::TencentCloud, SynthesisType::TencentCloud) => true,
            (SynthesisType::VoiceApi, SynthesisType::VoiceApi) => true,
            (SynthesisType::Aliyun, SynthesisType::Aliyun) => true,
            (SynthesisType::Deepgram, SynthesisType::Deepgram) => true,
            (SynthesisType::Other(x), SynthesisType::Other(y)) => *x == *y,
            _ => false,
        }
    }
}

impl vstd::std_specs::cmp::PartialEqSpecImpl for SynthesisType {
    open spec fn obeys_eq_spec() -> bool {
        true
    }

    open spec fn eq_spec(&self, other: &Self) -> bool {
        synthesis_type_eq(self, other)
    }
}

/// Per-call text-to-speech options, read-only to the pipeline.
#[derive(Debug, Clone)]
pub struct SynthesisOption {
    pub provider: Option<SynthesisType>,
    pub secret_key: Option<String>,
    /// The voice model.
    pub speaker: Option<String>,
    /// The requested audio container or encoding.
    pub codec: Option<String>,
    pub samplerate: Option<i32>,
    pub endpoint: Option<String>,
    pub extra: Option<HashMap<String, String>>,
}

impl Default for SynthesisOption {
    /// Everything unset.
    fn default() -> (r: Self)
        ensures
            r.provider is None,
            r.secret_key is None,
            r.speaker is None,
            r.codec is None,
            r.samplerate is None,
            r.endpoint is None,
            r.extra is None,
    {
        SynthesisOption {
            provider: None,
            secret_key: None,
            speaker: None,
            codec: None,
            samplerate: None,
            endpoint: None,
            extra: None,
        }
    }
}

/// Whether a voice-model name is one the Deepgram synthesizer accepts: one
/// of the known voices, the base model, or any other Aura voice.
pub open spec fn valid_deepgram_model(m: Seq<char>) -> bool {
    ||| m == "aura-asteria-en"@
    ||| m == "aura-luna-en"@
    ||| m == "aura-stella-en"@
    ||| m == "aura-athena-en"@
    ||| m == "aura-hera-en"@
    ||| m == "aura-orion-en"@
    ||| m == "aura-arcas-en"@
    ||| m == "aura-perseus-en"@
    ||| m == "aura-angus-en"@
    ||| m == "aura-orpheus-en"@
    ||| m == "aura-helios-en"@
    ||| m == "aura-zeus-en"@
    ||| m == "base"@
    ||| (m.len() >= 5 && m.subrange(0, 5) == "aura-"@)
}

/// Whether a voice-model name is one the Deepgram synthesizer accepts.
pub fn is_valid_deepgram_model(model: &str) -> (r: bool)
    ensures
        r == valid_deepgram_model(model@),
{
    if str_eq(model, "aura-asteria-en") || str_eq(model, "aura-luna-en") || str_eq(
        model,
        "aura-stella-en",
    ) || str_eq(model, "aura-athena-en") || str_eq(model, "aura-hera-en") || str_eq(
        model,
        "aura-orion-en",
    ) || str_eq(model, "aura-arcas-en") || str_eq(model, "aura-perseus-en") || str_eq(
        model,
        "aura-angus-en",
    ) || str_eq(model, "aura-orpheus-en") || str_eq(model, "aura-helios-en") || str_eq(
        model,
        "aura-zeus-en",
    ) || str_eq(model, "base") {
        true
    } else {
        proof {
            reveal_strlit("aura-");
        }
        str_has_prefix(model, "aura-")
    }
}

/// The voice model used for a synthesis request: the configured speaker if
/// it names a valid model, else the default voice.
pub fn choose_tts_model(speaker: &Option<String>) -> (r: String)
    ensures
        match speaker {
            Some(s) => r@ == if valid_deepgram_model(s@) {
                s@
            } else {
                "aura-asteria-en"@
            },
            None => r@ == "aura-asteria-en"@,
        },
{
    match speaker {
        Some(s) => {
            if is_valid_deepgram_model(s.as_str()) {
                s.clone()
            } else {
                "aura-asteria-en".to_owned()
            }
        },
        None => "aura-asteria-en".to_owned(),
    }
}

/// The wire encoding for a requested container: WAV and PCM carry linear
/// PCM, the compressed containers keep their own name, anything else
/// defaults to linear PCM.
pub open spec fn tts_encoding_spec(codec: Option<Seq<char>>) -> Seq<char> {
    match codec {
        Some(c) => if c == "wav"@ || c == "pcm"@ {
            "linear16"@
        } else if c == "mp3"@ {
            "mp3"@
        } else if c == "flac"@ {
            "flac"@
        } else if c == "opus"@ {
            "opus"@
        } else if c == "aac"@ {
            "aac"@
        } else if c == "mulaw"@ {
            "mulaw"@
        } else if c == "alaw"@ {
            "alaw"@
        } else {
            "linear16"@
        },
        None => "linear16"@,
    }
}

/// Map a requested container to the synthesizer's wire encoding.
pub fn tts_encoding_of(codec: &Option<String>) -> (r: String)
    ensures
        r@ == tts_encoding_spec(match codec {
            Some(c) => Some(c@),
            None => None,
        }),
{
    match codec {
        Some(c) => {
            let cs = c.as_str();
            if str_eq(cs, "wav") || str_eq(cs, "pcm") {
                "linear16".to_owned()
            } else if str_eq(cs, "mp3") {
                "mp3".to_owned()
            } else if str_eq(cs, "flac") {
                "flac".to_owned()
            } else if str_eq(cs, "opus") {
                "opus".to_owned()
            } else if str_eq(cs, "aac") {
                "aac".to_owned()
            } else if str_eq(cs, "mulaw") {
                "mulaw".to_owned()
            } else if str_eq(cs, "alaw") {
                "alaw".to_owned()
            } else {
                "linear16".to_owned()
            }
        },
        None => "linear16".to_owned(),
    }
}

/// Split synthesized audio into chunks of at most the given size, in order
/// and without loss: every chunk but the last is full, and joining the
/// chunks gives back the input.
pub fn chunk_audio(data: &Vec<u8>, chunk_size: usize) -> (r: Vec<Vec<u8>>)
    requires
        chunk_size > 0,
    ensures
        forall|i: int| 0 <= i < r@.len() ==> (#[trigger] r@[i])@.len() <= chunk_size,
        forall|i: int| 0 <= i < r@.len() - 1 ==> (#[trigger] r@[i])@.len() == chunk_size,
        flatten_chunks(r@) == data@,
        data@.len() > 0 ==> r@.len() > 0,
        data@.len() == 0 ==> r@.len() == 0,
{
    let mut out: Vec<Vec<u8>> = Vec::new();
    let mut start: usize = 0;
    while start < data.len()
        invariant
            chunk_size > 0,
            start <= data@.len(),
            flatten_chunks(out@) == data@.subrange(0, start as int),
            forall|i: int| 0 <= i < out@.len() ==> (#[trigger] out@[i])@.len() <= chunk_size,
            forall|i: int| 0 <= i < out@.len() ==> (#[trigger] out@[i])@.len() == chunk_size,
            start == out@.len() * chunk_size,
            out@.len() == 0 ==> start == 0,
        decreases data@.len() - start,
    {
        let end: usize = if data.len() - start < chunk_size {
            data.len()
        } else {
            start + chunk_size
        };
        let mut chunk: Vec<u8> = Vec::new();
        let mut j: usize = start;
        while j < end
            invariant
                start <= j <= end,
                end <= data@.len(),
                chunk@ =~= data@.subrange(start as int, j as int),
            decreases end - j,
        {
            chunk.push(data[j]);
            j = j + 1;
        }
        proof {
            lemma_flatten_chunks_push(out@, chunk);
            assert(flatten_chunks(out@.push(chunk)) =~= data@.subrange(0, end as int));
        }
        if end < data.len() {
            assert(chunk@.len() == chunk_size);
            proof {
                assert((out@.len() + 1) * chunk_size == out@.len() * chunk_size + chunk_size) by (
                nonlinear_arith);
            }
            out.push(chunk);
            start = end;
        } else {
            out.push(chunk);
            start = end;
            proof {
                assert(forall|i: int| 0 <= i < out@.len() - 1 ==> (#[trigger] out@[i])@.len()
                    == chunk_size);
            }
            assert(flatten_chunks(out@) =~= data@);
            return out;
        }
    }
    assert(flatten_chunks(out@) =~= data@);
    out
}

/// The concatenation of a sequence of chunks.
pub open spec fn flatten_chunks(chunks: Seq<Vec<u8>>) -> Seq<u8>
    decreases chunks.len(),
{
    if chunks.len() == 0 {
        Seq::empty()
    } else {
        flatten_chunks(chunks.drop_last()) + chunks.last()@
    }
}

/// Appending one chunk appends its bytes to the concatenation.
proof fn lemma_flatten_chunks_push(chunks: Seq<Vec<u8>>, c: Vec<u8>)
    ensures
        flatten_chunks(chunks.push(c)) == flatten_chunks(chunks) + c@,
{
    assert(chunks.push(c).drop_last() =~= chunks);
    assert(chunks.push(c).last() == c);
}

} // verus!
