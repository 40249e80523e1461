//! Speech-recognition provider selection: the provider tag, the per-call
//! transcription options, and the credential defaults a provider needs.

use vstd::prelude::*;
use std::collections::HashMap;
use crate::errors::MediaError;
use crate::frame::Sample;

verus! {

/// The tag naming a speech-recognition provider.
#[derive(Debug, Clone)]
pub enum TranscriptionType {
    TencentCloud,
    VoiceApi,
    Aliyun,
    Deepgram,
    Other(String),
}

impl TranscriptionType {
    /// The provider's wire name.
    pub fn provider_name(&self) -> (r: String)
        ensures
            r@ == self.provider_name_spec(),
    {
        match self {
            TranscriptionType::TencentCloud => "tencent".to_owned(),
            TranscriptionType::VoiceApi => "voiceapi".to_owned(),
            TranscriptionType::Aliyun => "aliyun".to_owned(),
            TranscriptionType::Deepgram => "deepgram".to_owned(),
            TranscriptionType::Other(name) => name.clone(),
        }
    }

    /// What `provider_name` returns.
    pub open spec fn provider_name_spec(&self) -> Seq<char> {
        match self {
            TranscriptionType::TencentCloud => "tencent"@,
            TranscriptionType::VoiceApi => "voiceapi"@,
            TranscriptionType::Aliyun => "aliyun"@,
            TranscriptionType::Deepgram => "deepgram"@,
            TranscriptionType::Other(name) => name@,
        }
    }

    /// The tag a wire name denotes; an unknown name keeps its own tag.
    pub fn from_name(value: String) -> (r: TranscriptionType)
        ensures
            r == transcription_type_of_name(value@, value),
    {
        if crate::text::str_eq(value.as_str(), "tencent") {
            TranscriptionType::TencentCloud
        } else if crate::text::str_eq(value.as_str(), "voiceapi") {
            TranscriptionType::VoiceApi
        } else if crate::text::str_eq(value.as_str(), "aliyun") {
            TranscriptionType::Aliyun
        } else if crate::text::str_eq(value.as_str(), "deepgram") {
            TranscriptionType::Deepgram
        } else {
            TranscriptionType::Other(value)
        }
    }
}

/// The tag a wire name denotes.
pub open spec fn transcription_type_of_name(name: Seq<char>, carrier: String)
    -> TranscriptionType {
    if name == "tencent"@ {
        TranscriptionType::TencentCloud
    } else if name == "voiceapi"@ {
        TranscriptionType::VoiceApi
    } else if name == "aliyun"@ {
        TranscriptionType::Aliyun
    } else if name == "deepgram"@ {
        TranscriptionType::Deepgram
    } else {
        TranscriptionType::Other(carrier)
    }
}

/// Whether two provider tags name the same provider.
pub open spec fn transcription_type_eq(a: &TranscriptionType, b: &TranscriptionType) -> bool {
    match (a, b) {
        (TranscriptionType::TencentCloud, TranscriptionType::TencentCloud) => true,
        (TranscriptionType::VoiceApi, TranscriptionType::VoiceApi) => true,
        (TranscriptionType::Aliyun, TranscriptionType::Aliyun) => true,
        (TranscriptionType::Deepgram, TranscriptionType::Deepgram) => true,
        (TranscriptionType::Other(x), TranscriptionType::Other(y)) => x@ == y@,
        _ => false,
    }
}

impl PartialEq for TranscriptionType {
    fn eq(&self, other: &Self) -> (r: bool) {
        match (self, other) {
            (TranscriptionType::TencentCloud, TranscriptionType::TencentCloud) => true,
            (TranscriptionType::VoiceApi, TranscriptionType::VoiceApi) => true,
            (TranscriptionType::Aliyun, TranscriptionType::Aliyun) => true,
            (TranscriptionType::Deepgram, TranscriptionType::Deepgram) => true,
            (TranscriptionType::Other(x), TranscriptionType::Other(y)) => *x == *y,
            _ => false,
        }
    }
}

impl vstd::std_specs::cmp::PartialEqSpecImpl for TranscriptionType {
    open spec fn obeys_eq_spec() -> bool {
        true
    }

    open spec fn eq_spec(&self, other: &Self) -> bool {
        transcription_type_eq(self, other)
    }
}

/// Per-call speech-recognition options, read-only to the pipeline.
#[derive(Debug, Clone)]
pub struct TranscriptionOption {
    pub provider: Option<TranscriptionType>,
    pub language: Option<String>,
    pub app_id: Option<String>,
    pub secret_id: Option<String>,
    pub secret_key: Option<String>,
    pub model_type: Option<String>,
    pub buffer_size: Option<usize>,
    pub samplerate: Option<u32>,
    pub endpoint: Option<String>,
    pub extra: Option<HashMap<String, String>>,
    pub start_when_answer: Option<bool>,
}

impl Default for TranscriptionOption {
    /// Everything unset.
    fn default() -> (r: Self)
        ensures
            r.provider is None,
            r.language is None,
            r.app_id is None,
            r.secret_id is None,
            r.secret_key is None,
            r.model_type is None,
            r.buffer_size is None,
            r.samplerate is None,
            r.endpoint is None,
            r.extra is None,
            r.start_when_answer is None,
    {
        TranscriptionOption {
            provider: None,
            language: None,
            app_id: None,
            secret_id: None,
            secret_key: None,
            model_type: None,
            buffer_size: None,
            samplerate: None,
            endpoint: None,
            extra: None,
            start_when_answer: None,
        }
    }
}

/// Credentials and endpoints the surrounding process offers as defaults,
/// typically read from its environment by the caller.
#[derive(Debug, Clone)]
pub struct ProviderDefaults {
    pub tencent_appid: Option<String>,
    pub tencent_secret_id: Option<String>,
    pub tencent_secret_key: Option<String>,
    pub voiceapi_endpoint: Option<String>,
    pub dashscope_api_key: Option<String>,
    pub deepgram_api_key: Option<String>,
}

impl TranscriptionOption {
    /// Fill the fields the chosen provider needs from the offered defaults,
    /// keeping any value already set. Deepgram additionally gets its public
    /// endpoint when none was configured.
    pub fn check_default(&mut self, defaults: &ProviderDefaults)
        ensures
            final(self).provider == old(self).provider,
            final(self).language == old(self).language,
            final(self).model_type == old(self).model_type,
            final(self).buffer_size == old(self).buffer_size,
            final(self).samplerate == old(self).samplerate,
            final(self).extra == old(self).extra,
            final(self).start_when_answer == old(self).start_when_answer,
            match old(self).provider {
                Some(TranscriptionType::TencentCloud) => {
                    &&& final(self).app_id == (if old(self).app_id is Some {
                        old(self).app_id
                    } else {
                        defaults.tencent_appid
                    })
                    &&& final(self).secret_id == (if old(self).secret_id is Some {
                        old(self).secret_id
                    } else {
                        defaults.tencent_secret_id
                    })
                    &&& final(self).secret_key == (if old(self).secret_key is Some {
                        old(self).secret_key
                    } else {
                        defaults.tencent_secret_key
                    })
                    &&& final(self).endpoint == old(self).endpoint
                },
                Some(TranscriptionType::VoiceApi) => {
                    &&& final(self).endpoint == (if old(self).endpoint is Some {
                        old(self).endpoint
                    } else {
                        defaults.voiceapi_endpoint
                    })
                    &&& final(self).app_id == old(self).app_id
                    &&& final(self).secret_id == old(self).secret_id
                    &&& final(self).secret_key == old(self).secret_key
                },
                Some(TranscriptionType::Aliyun) => {
                    &&& final(self).secret_key == (if old(self).secret_key is Some {
                        old(self).secret_key
                    } else {
                        defaults.dashscope_api_key
                    })
                    &&& final(self).app_id == old(self).app_id
                    &&& final(self).secret_id == old(self).secret_id
                    &&& final(self).endpoint == old(self).endpoint
                },
                Some(TranscriptionType::Deepgram) => {
                    &&& final(self).secret_key == (if old(self).secret_key is Some {
                        old(self).secret_key
                    } else {
                        defaults.deepgram_api_key
                    })
                    &&& (final(self).endpoint matches Some(e) && if old(self).endpoint is Some {
                        e == old(self).endpoint->Some_0
                    } else {
                        e@ == "wss://api.deepgram.com/v1/listen"@
                    })
                    &&& final(self).app_id == old(self).app_id
                    &&& final(self).secret_id == old(self).secret_id
                },
                _ => {
                    &&& final(self).app_id == old(self).app_id
                    &&& final(self).secret_id == old(self).secret_id
                    &&& final(self).secret_key == old(self).secret_key
                    &&& final(self).endpoint == old(self).endpoint
                },
            },
    {
        match &self.provider {
            Some(TranscriptionType::TencentCloud) => {
                if self.app_id.is_none() {
                    self.app_id = defaults.tencent_appid.clone();
                }
                if self.secret_id.is_none() {
                    self.secret_id = defaults.tencent_secret_id.clone();
                }
                if self.secret_key.is_none() {
                    self.secret_key = defaults.tencent_secret_key.clone();
                }
            },
            Some(TranscriptionType::VoiceApi) => {
                if self.endpoint.is_none() {
                    self.endpoint = defaults.voiceapi_endpoint.clone();
                }
            },
            Some(TranscriptionType::Aliyun) => {
                if self.secret_key.is_none() {
                    self.secret_key = defaults.dashscope_api_key.clone();
                }
            },
            Some(TranscriptionType::Deepgram) => {
                if self.secret_key.is_none() {
                    self.secret_key = defaults.deepgram_api_key.clone();
                }
                if self.endpoint.is_none() {
                    self.endpoint = Some("wss://api.deepgram.com/v1/listen".to_owned());
                }
            },
            _ => {},
        }
    }
}

/// The contract every speech-recognition integration offers the pipeline:
/// accept PCM samples for recognition without blocking the audio path.
pub trait TranscriptionClient {
    fn send_audio(&self, samples: &Vec<Sample>) -> Result<(), MediaError>;
}

} // verus!
