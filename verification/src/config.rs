//! Process-level configuration: the engine's own settings and the provider
//! credentials it hands to each call. Loading this from a file is the
//! surrounding process's job; the pipeline only reads the values.

use vstd::prelude::*;
use std::collections::HashMap;
use crate::pipecat::config::PipecatConfig;
use crate::synthesis::{SynthesisOption, SynthesisType};
use crate::text::{clone_opt_string, str_eq};
use crate::transcription::{TranscriptionOption, TranscriptionType};

verus! {

/// The default path recordings are written under.
pub fn default_config_recorder_path() -> (r: String)
    ensures
        r@ == "/tmp/recorder"@,
{
    "/tmp/recorder".to_owned()
}

/// The default path cached media is written under.
pub fn default_config_media_cache_path() -> (r: String)
    ensures
        r@ == "/tmp/mediacache"@,
{
    "/tmp/mediacache".to_owned()
}

/// The default address the control surface listens on.
pub fn default_config_http_addr() -> (r: String)
    ensures
        r@ == "0.0.0.0:8080"@,
{
    "0.0.0.0:8080".to_owned()
}

/// One ICE server a peer connection may use.
#[derive(Debug, Clone)]
pub struct IceServer {
    pub urls: Vec<String>,
    pub username: Option<String>,
    pub credential: Option<String>,
}

impl Default for IceServer {
    /// No URLs, no credentials.
    fn default() -> (r: Self)
        ensures
            r.urls@.len() == 0,
            r.username is None,
            r.credential is None,
    {
        IceServer { urls: Vec::new(), username: None, credential: None }
    }
}

/// How a webhook handles an incoming invitation.
#[derive(Debug, Clone)]
pub enum InviteHandlerConfig {
    Webhook { url: String, method: Option<String>, headers: Option<Vec<(String, String)>> },
}

/// Where the user agent's registrations and users come from.
#[derive(Debug, Clone)]
pub enum UserBackendConfig {
    Memory,
    Http {
        url: String,
        method: Option<String>,
        username_field: Option<String>,
        realm_field: Option<String>,
        headers: Option<HashMap<String, String>>,
    },
    Plain { path: String },
    Database { url: String, table_name: Option<String> },
}

impl Default for UserBackendConfig {
    fn default() -> (r: Self)
        ensures
            r is Memory,
    {
        UserBackendConfig::Memory
    }
}

/// Where registered locations are kept.
#[derive(Debug, Clone)]
pub enum LocatorConfig {
    Memory,
    Http {
        url: String,
        method: Option<String>,
        username_field: Option<String>,
        expires_field: Option<String>,
        realm_field: Option<String>,
        headers: Option<HashMap<String, String>>,
    },
    Database { url: String },
}

impl Default for LocatorConfig {
    fn default() -> (r: Self)
        ensures
            r is Memory,
    {
        LocatorConfig::Memory
    }
}

/// The object-storage vendor call records may be shipped to.
#[derive(Debug, Clone)]
pub enum S3Vendor {
    Aliyun,
    Tencent,
    Minio,
    AWS,
    GCP,
    Azure,
    DigitalOcean,
}

/// Where call records are written.
#[derive(Debug, Clone)]
pub enum CallRecordConfig {
    Local { root: String },
    S3 {
        vendor: S3Vendor,
        bucket: String,
        region: String,
        access_key: String,
        secret_key: String,
        endpoint: String,
        root: String,
        with_media: Option<bool>,
    },
    Http { url: String, headers: Option<HashMap<String, String>>, with_media: Option<bool> },
}

impl Default for CallRecordConfig {
    /// Local records under the temporary directory.
    fn default() -> (r: Self)
        ensures
            r matches CallRecordConfig::Local { root } && root@ == "/tmp/cdr"@,
    {
        CallRecordConfig::Local { root: "/tmp/cdr".to_owned() }
    }
}

/// How much media goes through the proxy.
#[derive(Debug, Clone, PartialEq, Eq, Structural)]
pub enum MediaProxyMode {
    All,
    Auto,
    Nat,
    Disabled,
}

impl Default for MediaProxyMode {
    fn default() -> (r: Self)
        ensures
            r == MediaProxyMode::Auto,
    {
        MediaProxyMode::Auto
    }
}

/// Media-proxy settings.
#[derive(Debug, Clone)]
pub struct MediaProxyConfig {
    pub mode: MediaProxyMode,
    pub rtp_start_port: Option<u16>,
    pub rtp_end_port: Option<u16>,
    pub external_ip: Option<String>,
    pub force_proxy: Option<Vec<String>>,
}

impl Default for MediaProxyConfig {
    /// No proxying, RTP ports 20000 to 30000.
    fn default() -> (r: Self)
        ensures
            r.mode == MediaProxyMode::Disabled,
            r.rtp_start_port == Some(20000u16),
            r.rtp_end_port == Some(30000u16),
            r.external_ip is None,
            r.force_proxy is None,
    {
        MediaProxyConfig {
            mode: MediaProxyMode::Disabled,
            rtp_start_port: Some(20000),
            rtp_end_port: Some(30000),
            external_ip: None,
            force_proxy: None,
        }
    }
}

/// Settings of the SIP proxy around the media core.
#[derive(Debug, Clone)]
pub struct ProxyConfig {
    pub modules: Option<Vec<String>>,
    pub addr: String,
    pub external_ip: Option<String>,
    pub useragent: Option<String>,
    pub callid_suffix: Option<String>,
    pub ssl_private_key: Option<String>,
    pub ssl_certificate: Option<String>,
    pub udp_port: Option<u16>,
    pub tcp_port: Option<u16>,
    pub tls_port: Option<u16>,
    pub ws_port: Option<u16>,
    pub acl_rules: Option<Vec<String>>,
    pub max_concurrency: Option<usize>,
    pub registrar_expires: Option<u32>,
    pub user_backend: UserBackendConfig,
    pub locator: LocatorConfig,
    pub media_proxy: MediaProxyConfig,
    pub realms: Option<Vec<String>>,
    pub ws_handler: Option<String>,
}

impl ProxyConfig {
    /// The realm used for authentication: loopback names and the wildcard
    /// all mean the local host.
    pub fn normalize_realm<'a>(realm: &'a str) -> (r: &'a str)
        ensures
            r@ == if realm@.len() == 0 || realm@ == "*"@ || realm@ == "127.0.0.1"@ || realm@
                == "::1"@ {
                "localhost"@
            } else {
                realm@
            },
    {
        if realm.is_empty() || str_eq(realm, "*") || str_eq(realm, "127.0.0.1") || str_eq(
            realm,
            "::1",
        ) {
            "localhost"
        } else {
            realm
        }
    }
}

impl Default for ProxyConfig {
    /// Listen on every interface over UDP port 5060 with the standard
    /// module chain.
    fn default() -> (r: Self)
        ensures
            r.addr@ == "0.0.0.0"@,
            r.udp_port == Some(5060u16),
            r.registrar_expires == Some(60u32),
            r.acl_rules matches Some(rules) && rules@.len() == 2,
            r.modules matches Some(m) && m@.len() == 4,
            r.callid_suffix matches Some(s) && s@ == "restsend.com"@,
            r.external_ip is None,
            r.useragent is None,
            r.ssl_private_key is None,
            r.ssl_certificate is None,
            r.tcp_port is None,
            r.tls_port is None,
            r.ws_port is None,
            r.max_concurrency is None,
            r.user_backend is Memory,
            r.locator is Memory,
            r.media_proxy.mode == MediaProxyMode::Disabled,
            r.realms matches Some(rs) && rs@.len() == 0,
            r.ws_handler is None,
    {
        let mut acl_rules: Vec<String> = Vec::new();
        acl_rules.push("allow all".to_owned());
        acl_rules.push("deny all".to_owned());
        let mut modules: Vec<String> = Vec::new();
        modules.push("acl".to_owned());
        modules.push("auth".to_owned());
        modules.push("registrar".to_owned());
        modules.push("call".to_owned());
        ProxyConfig {
            modules: Some(modules),
            addr: "0.0.0.0".to_owned(),
            external_ip: None,
            useragent: None,
            callid_suffix: Some("restsend.com".to_owned()),
            ssl_private_key: None,
            ssl_certificate: None,
            udp_port: Some(5060),
            tcp_port: None,
            tls_port: None,
            ws_port: None,
            acl_rules: Some(acl_rules),
            max_concurrency: None,
            registrar_expires: Some(60),
            user_backend: UserBackendConfig::Memory,
            locator: LocatorConfig::Memory,
            media_proxy: MediaProxyConfig::default(),
            realms: Some(Vec::new()),
            ws_handler: None,
        }
    }
}

/// Settings of the SIP user agent around the media core.
#[derive(Debug, Clone)]
pub struct UseragentConfig {
    pub addr: String,
    pub udp_port: u16,
    pub external_ip: Option<String>,
    pub stun_server: Option<String>,
    pub rtp_start_port: Option<u16>,
    pub rtp_end_port: Option<u16>,
    pub useragent: Option<String>,
    pub callid_suffix: Option<String>,
    pub graceful_shutdown: Option<bool>,
    pub handler: Option<InviteHandlerConfig>,
    pub accept_timeout: Option<String>,
}

impl Default for UseragentConfig {
    /// Listen on every interface over UDP port 25060.
    fn default() -> (r: Self)
        ensures
            r.addr@ == "0.0.0.0"@,
            r.udp_port == 25060,
            r.rtp_start_port == Some(12000u16),
            r.rtp_end_port == Some(42000u16),
            r.useragent matches Some(ua) && ua@ == "rustpbx"@,
            r.callid_suffix matches Some(s) && s@ == "restsend.com"@,
            r.graceful_shutdown == Some(true),
            r.accept_timeout matches Some(t) && t@ == "50s"@,
            r.external_ip is None,
            r.stun_server is None,
            r.handler is None,
    {
        UseragentConfig {
            addr: "0.0.0.0".to_owned(),
            udp_port: 25060,
            external_ip: None,
            stun_server: None,
            rtp_start_port: Some(12000),
            rtp_end_port: Some(42000),
            useragent: Some("rustpbx".to_owned()),
            callid_suffix: Some("restsend.com".to_owned()),
            graceful_shutdown: Some(true),
            handler: None,
            accept_timeout: Some("50s".to_owned()),
        }
    }
}

/// Access control for the management interface.
#[derive(Debug, Clone)]
pub struct AmiConfig {
    pub allows: Option<Vec<String>>,
}

impl AmiConfig {
    /// Whether an address may use the management interface: it must be
    /// listed, or the wildcard must be.
    pub fn is_allowed(&self, addr: &str) -> (r: bool)
        ensures
            r == (self.allows is Some && exists|i: int|
                0 <= i < self.allows->Some_0@.len() && ((#[trigger] self.allows->Some_0@[i])@
                    == addr@ || self.allows->Some_0@[i]@ == "*"@)),
    {
        match &self.allows {
            Some(allows) => {
                let mut i: usize = 0;
                while i < allows.len()
                    invariant
                        self.allows == Some(*allows),
                        i <= allows@.len(),
                        forall|j: int| 0 <= j < i ==> !((#[trigger] allows@[j])@ == addr@
                            || allows@[j]@ == "*"@),
                    decreases allows@.len() - i,
                {
                    if str_eq(allows[i].as_str(), addr) || str_eq(allows[i].as_str(), "*") {
                        proof {
                            let wi = i as int;
                            assert(0 <= wi < self.allows->Some_0@.len() && (
                            self.allows->Some_0@[wi]@ == addr@ || self.allows->Some_0@[wi]@
                                == "*"@));
                        }
                        return true;
                    }
                    i = i + 1;
                }
                false
            },
            None => false,
        }
    }
}

impl Default for AmiConfig {
    /// Allow only the local host.
    fn default() -> (r: Self)
        ensures
            r.allows matches Some(allows) && allows@.len() == 2 && allows@[0]@ == "127.0.0.1"@
                && allows@[1]@ == "::1"@,
    {
        let mut allows: Vec<String> = Vec::new();
        allows.push("127.0.0.1".to_owned());
        allows.push("::1".to_owned());
        AmiConfig { allows: Some(allows) }
    }
}

/// Deepgram speech-recognition settings.
#[derive(Debug, Clone)]
pub struct DeepgramAsrConfig {
    pub model: Option<String>,
    pub language: Option<String>,
    pub encoding: Option<String>,
    pub sample_rate: Option<u32>,
    pub channels: Option<u32>,
    pub interim_results: Option<bool>,
    pub punctuate: Option<bool>,
    pub smart_format: Option<bool>,
    pub endpointing: Option<u32>,
    pub vad_events: Option<bool>,
    pub endpoint: Option<String>,
}

impl Default for DeepgramAsrConfig {
    /// The nova model on 16 kHz mono linear PCM with interim results,
    /// punctuation and smart formatting.
    fn default() -> (r: Self)
        ensures
            r.model matches Some(m) && m@ == "nova"@,
            r.language matches Some(l) && l@ == "en"@,
            r.encoding matches Some(e) && e@ == "linear16"@,
            r.sample_rate == Some(16000u32),
            r.channels == Some(1u32),
            r.interim_results == Some(true),
            r.punctuate == Some(true),
            r.smart_format == Some(true),
            r.endpointing == Some(1000u32),
            r.vad_events == Some(true),
            r.endpoint is None,
    {
        DeepgramAsrConfig {
            model: Some("nova".to_owned()),
            language: Some("en".to_owned()),
            encoding: Some("linear16".to_owned()),
            sample_rate: Some(16000),
            channels: Some(1),
            interim_results: Some(true),
            punctuate: Some(true),
            smart_format: Some(true),
            endpointing: Some(1000),
            vad_events: Some(true),
            endpoint: None,
        }
    }
}

/// Deepgram synthesis settings.
#[derive(Debug, Clone)]
pub struct DeepgramTtsConfig {
    pub model: Option<String>,
    pub encoding: Option<String>,
    pub sample_rate: Option<u32>,
    pub endpoint: Option<String>,
}

impl Default for DeepgramTtsConfig {
    /// The default Aura voice on 16 kHz linear PCM.
    fn default() -> (r: Self)
        ensures
            r.model matches Some(m) && m@ == "aura-asteria-en"@,
            r.encoding matches Some(e) && e@ == "linear16"@,
            r.sample_rate == Some(16000u32),
            r.endpoint is None,
    {
        DeepgramTtsConfig {
            model: Some("aura-asteria-en".to_owned()),
            encoding: Some("linear16".to_owned()),
            sample_rate: Some(16000),
            endpoint: None,
        }
    }
}

/// Structured Deepgram configuration.
#[derive(Debug, Clone)]
pub struct DeepgramConfig {
    pub api_key: Option<String>,
    pub asr: Option<DeepgramAsrConfig>,
    pub tts: Option<DeepgramTtsConfig>,
}

impl Default for DeepgramConfig {
    fn default() -> (r: Self)
        ensures
            r.api_key is None,
            r.asr is Some,
            r.tts is Some,
    {
        DeepgramConfig {
            api_key: None,
            asr: Some(DeepgramAsrConfig::default()),
            tts: Some(DeepgramTtsConfig::default()),
        }
    }
}

/// The process configuration the pipeline reads.
#[derive(Debug)]
pub struct Config {
    pub http_addr: String,
    pub log_level: Option<String>,
    pub log_file: Option<String>,
    pub ua: Option<UseragentConfig>,
    pub proxy: Option<ProxyConfig>,
    pub recorder_path: String,
    pub callrecord: Option<CallRecordConfig>,
    pub media_cache_path: String,
    pub llmproxy: Option<String>,
    pub restsend_token: Option<String>,
    pub ice_servers: Option<Vec<IceServer>>,
    pub ami: Option<AmiConfig>,
    /// Deepgram API key for recognition and synthesis.
    pub deepgram_api_key: Option<String>,
    /// Structured Deepgram configuration.
    pub deepgram: Option<DeepgramConfig>,
    /// AI-bridge configuration.
    pub pipecat: Option<PipecatConfig>,
}

impl Default for Config {
    /// A user agent and a locked-down management interface, nothing else.
    fn default() -> (r: Self)
        ensures
            r.http_addr@ == "0.0.0.0:8080"@,
            r.recorder_path@ == "/tmp/recorder"@,
            r.media_cache_path@ == "/tmp/mediacache"@,
            r.ua is Some,
            r.ami is Some,
            r.proxy is None,
            r.log_level is None,
            r.log_file is None,
            r.callrecord is None,
            r.llmproxy is None,
            r.restsend_token is None,
            r.ice_servers is None,
            r.deepgram_api_key is None,
            r.deepgram is None,
            r.pipecat is None,
    {
        Config {
            http_addr: default_config_http_addr(),
            log_level: None,
            log_file: None,
            ua: Some(UseragentConfig::default()),
            proxy: None,
            recorder_path: default_config_recorder_path(),
            callrecord: None,
            media_cache_path: default_config_media_cache_path(),
            llmproxy: None,
            restsend_token: None,
            ice_servers: None,
            ami: Some(AmiConfig::default()),
            deepgram_api_key: None,
            deepgram: None,
            pipecat: None,
        }
    }
}

/// A sample rate as the signed value the synthesis options carry; a rate
/// beyond the signed range is dropped.
fn convert_sample_rate(sr: Option<u32>) -> (r: Option<i32>)
    ensures
        match sr {
            Some(v) => if v <= i32::MAX {
                r == Some(v as i32)
            } else {
                r is None
            },
            None => r is None,
        },
{
    match sr {
        Some(v) => if v <= 0x7FFF_FFFF {
            Some(v as i32)
        } else {
            None
        },
        None => None,
    }
}

/// Without a structured recognition section, a call's recognition options
/// carry the documented defaults: the nova model on English at 16 kHz, with
/// no endpoint override.
pub open spec fn deepgram_asr_option_defaults(o: &TranscriptionOption) -> bool {
    &&& o.language matches Some(l) && l@ == "en"@
    &&& o.model_type matches Some(m) && m@ == "nova"@
    &&& o.samplerate == Some(16000u32)
    &&& o.endpoint is None
}

/// Without a structured synthesis section, a call's synthesis options carry
/// the documented defaults: the default Aura voice on linear PCM at 16 kHz,
/// with no endpoint override.
pub open spec fn deepgram_tts_option_defaults(o: &SynthesisOption) -> bool {
    &&& o.speaker matches Some(m) && m@ == "aura-asteria-en"@
    &&& o.codec matches Some(c) && c@ == "linear16"@
    &&& o.samplerate == Some(16000i32)
    &&& o.endpoint is None
}

/// The Deepgram API key a configuration resolves to: the structured key
/// first, then the flat field, then the key the environment offers.
pub open spec fn resolved_deepgram_key(
    c: &Config,
    env_api_key: Option<String>,
) -> Option<String> {
    match c.deepgram {
        Some(dg) => if dg.api_key is Some {
            dg.api_key
        } else if c.deepgram_api_key is Some {
            c.deepgram_api_key
        } else {
            env_api_key
        },
        None => if c.deepgram_api_key is Some {
            c.deepgram_api_key
        } else {
            env_api_key
        },
    }
}

impl Config {
    /// Resolve the Deepgram API key; the caller passes what its
    /// environment offers.
    fn deepgram_key(&self, env_api_key: &Option<String>) -> (r: Option<String>)
        ensures
            r == resolved_deepgram_key(self, *env_api_key),
    {
        match &self.deepgram {
            Some(dg) if dg.api_key.is_some() => dg.api_key.clone(),
            _ => match &self.deepgram_api_key {
                Some(k) => Some(k.clone()),
                None => env_api_key.clone(),
            },
        }
    }

    /// The recognition options a call gets when Deepgram is configured:
    /// present exactly when an API key can be resolved, carrying the
    /// configured model, language, sample rate and endpoint. The caller
    /// passes the API key its environment offers, if any.
    pub fn create_deepgram_asr_option(&self, env_api_key: Option<String>) -> (r: Option<
        TranscriptionOption,
    >)
        ensures
            (r is Some) == (resolved_deepgram_key(self, env_api_key) is Some),
            r matches Some(o) ==> {
                &&& o.provider matches Some(p) && p is Deepgram
                &&& o.secret_key == resolved_deepgram_key(self, env_api_key)
                &&& match self.deepgram {
                    Some(dg) => match dg.asr {
                        Some(a) => o.language == a.language && o.model_type == a.model
                            && o.samplerate == a.sample_rate && o.endpoint == a.endpoint,
                        None => deepgram_asr_option_defaults(&o),
                    },
                    None => deepgram_asr_option_defaults(&o),
                }
                &&& o.app_id is None
                &&& o.secret_id is None
                &&& o.buffer_size is None
                &&& o.extra is None
                &&& o.start_when_answer is None
            },
    {
        let api_key = self.deepgram_key(&env_api_key);
        if api_key.is_some() {
            let mut option = TranscriptionOption::default();
            option.provider = Some(TranscriptionType::Deepgram);
            option.secret_key = api_key;
            match &self.deepgram {
                Some(dg) => match &dg.asr {
                    Some(a) => {
                        option.language = clone_opt_string(&a.language);
                        option.model_type = clone_opt_string(&a.model);
                        option.samplerate = a.sample_rate;
                        option.endpoint = clone_opt_string(&a.endpoint);
                    },
                    None => {
                        let d = DeepgramAsrConfig::default();
                        option.language = d.language;
                        option.model_type = d.model;
                        option.samplerate = d.sample_rate;
                        option.endpoint = d.endpoint;
                    },
                },
                None => {
                    let d = DeepgramAsrConfig::default();
                    option.language = d.language;
                    option.model_type = d.model;
                    option.samplerate = d.sample_rate;
                    option.endpoint = d.endpoint;
                },
            }
            Some(option)
        } else {
            None
        }
    }

    /// The synthesis options a call gets when Deepgram is configured:
    /// present exactly when an API key can be resolved, carrying the
    /// configured voice, encoding, sample rate and endpoint. The caller
    /// passes the API key its environment offers, if any.
    pub fn create_deepgram_tts_option(&self, env_api_key: Option<String>) -> (r: Option<
        SynthesisOption,
    >)
        ensures
            (r is Some) == (resolved_deepgram_key(self, env_api_key) is Some),
            r matches Some(o) ==> {
                &&& o.provider matches Some(p) && p is Deepgram
                &&& o.secret_key == resolved_deepgram_key(self, env_api_key)
                &&& match self.deepgram {
                    Some(dg) => match dg.tts {
                        Some(tc) => o.speaker == tc.model && o.codec == tc.encoding && o.endpoint
                            == tc.endpoint && match tc.sample_rate {
                            Some(sr) => sr <= i32::MAX ==> o.samplerate == Some(sr as i32),
                            None => true,
                        },
                        None => deepgram_tts_option_defaults(&o),
                    },
                    None => deepgram_tts_option_defaults(&o),
                }
                &&& o.extra is None
            },
    {
        let api_key = self.deepgram_key(&env_api_key);
        if api_key.is_some() {
            let mut option = SynthesisOption::default();
            option.provider = Some(SynthesisType::Deepgram);
            option.secret_key = api_key;
            match &self.deepgram {
                Some(dg) => match &dg.tts {
                    Some(tc) => {
                        option.speaker = clone_opt_string(&tc.model);
                        option.codec = clone_opt_string(&tc.encoding);
                        option.samplerate = convert_sample_rate(tc.sample_rate);
                        option.endpoint = clone_opt_string(&tc.endpoint);
                    },
                    None => {
                        let d = DeepgramTtsConfig::default();
                        option.speaker = d.model;
                        option.codec = d.encoding;
                        option.samplerate = convert_sample_rate(d.sample_rate);
                        option.endpoint = d.endpoint;
                    },
                },
                None => {
                    let d = DeepgramTtsConfig::default();
                    option.speaker = d.model;
                    option.codec = d.encoding;
                    option.samplerate = convert_sample_rate(d.sample_rate);
                    option.endpoint = d.endpoint;
                },
            }
            Some(option)
        } else {
            None
        }
    }
}

} // verus!
