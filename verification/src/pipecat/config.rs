//! Configuration for the AI-bridge streaming provider: connection limits,
//! reconnection backoff, and audio framing parameters.

use vstd::prelude::*;
use vstd::arithmetic::power::pow;

verus! {

/// Reconnection policy: exponential backoff between attempts, with a ceiling
/// and an attempt limit. The backoff multiplier is a whole-number factor.
#[derive(Debug, Clone, Copy)]
pub struct PipecatReconnectConfig {
    pub enabled: bool,
    pub max_attempts: u32,
    /// First delay, in seconds.
    pub initial_delay: u64,
    /// Delay ceiling, in seconds.
    pub max_delay: u64,
    /// Factor applied to the delay after each failed attempt.
    pub backoff_multiplier: u64,
}

impl Default for PipecatReconnectConfig {
    /// Five attempts, one second doubling up to thirty.
    fn default() -> (r: Self)
        ensures
            r.enabled == true,
            r.max_attempts == 5,
            r.initial_delay == 1,
            r.max_delay == 30,
            r.backoff_multiplier == 2,
    {
        PipecatReconnectConfig {
            enabled: true,
            max_attempts: 5,
            initial_delay: 1,
            max_delay: 30,
            backoff_multiplier: 2,
        }
    }
}

/// Audio framing parameters for the bridge link.
#[derive(Debug, Clone)]
pub struct PipecatAudioConfig {
    pub sample_rate: u32,
    pub channels: u16,
    pub frame_size: Option<usize>,
    pub buffer_size: Option<usize>,
    pub enable_compression: bool,
    pub encoding: Option<String>,
}

impl Default for PipecatAudioConfig {
    /// 16 kHz mono linear PCM in 160-sample frames.
    fn default() -> (r: Self)
        ensures
            r.sample_rate == 16000,
            r.channels == 1,
            r.frame_size == Some(160usize),
            r.buffer_size == Some(320usize),
            r.enable_compression == false,
            r.encoding matches Some(e) && e@ == "linear16"@,
    {
        PipecatAudioConfig {
            sample_rate: 16000,
            channels: 1,
            frame_size: Some(160),
            buffer_size: Some(320),
            enable_compression: false,
            encoding: Some("linear16".to_owned()),
        }
    }
}

/// Per-call configuration of the AI bridge.
#[derive(Debug, Clone)]
pub struct PipecatConfig {
    /// Whether the bridge is used at all.
    pub enabled: bool,
    /// WebSocket URL of the bridge server.
    pub server_url: Option<String>,
    /// Whether the bridge owns the call's AI processing, replacing the
    /// internal VAD/ASR/EOU stack.
    pub use_for_ai: bool,
    /// Whether to fall back to the internal stack when the bridge is
    /// unavailable.
    pub fallback_to_internal: bool,
    /// Connection timeout in seconds.
    pub connection_timeout: u64,
    pub reconnect: PipecatReconnectConfig,
    pub audio: PipecatAudioConfig,
    /// System prompt sent to the bridge when the session is configured.
    pub default_system_prompt: Option<String>,
    pub enable_metrics: bool,
    pub debug_logging: bool,
}

impl Default for PipecatConfig {
    /// Disabled until a call opts in; when enabled it owns AI processing
    /// with fallback to the internal stack.
    fn default() -> (r: Self)
        ensures
            r.enabled == false,
            r.server_url matches Some(u) && u@ == "ws://0.0.0.0:8081"@,
            r.use_for_ai == true,
            r.fallback_to_internal == true,
            r.connection_timeout == 30,
            r.reconnect.enabled == true,
            r.reconnect.max_attempts == 5,
            r.reconnect.initial_delay == 1,
            r.reconnect.max_delay == 30,
            r.reconnect.backoff_multiplier == 2,
            r.audio.sample_rate == 16000,
            r.audio.channels == 1,
            r.audio.encoding matches Some(e) && e@ == "linear16"@,
            r.default_system_prompt is Some,
            r.enable_metrics == true,
            r.debug_logging == false,
    {
        PipecatConfig {
            enabled: false,
            server_url: Some("ws://0.0.0.0:8081".to_owned()),
            use_for_ai: true,
            fallback_to_internal: true,
            connection_timeout: 30,
            reconnect: PipecatReconnectConfig::default(),
            audio: PipecatAudioConfig::default(),
            default_system_prompt: Some(
                "You are a helpful AI assistant in a voice conversation. Respond naturally and conversationally. Keep responses brief but informative.".to_owned(),
            ),
            enable_metrics: true,
            debug_logging: false,
        }
    }
}

/// The first validation failure of a bridge configuration, if any. A
/// disabled configuration is always valid.
pub open spec fn validate_err(c: &PipecatConfig) -> Option<Seq<char>> {
    if c.enabled {
        if c.server_url is None || c.server_url->Some_0@.len() == 0 {
            Some("Pipecat server URL is required when enabled"@)
        } else if c.connection_timeout == 0 {
            Some("Connection timeout must be greater than 0"@)
        } else if c.reconnect.enabled && c.reconnect.max_attempts == 0 {
            Some("Max reconnection attempts must be greater than 0"@)
        } else if c.audio.sample_rate == 0 {
            Some("Audio sample rate must be greater than 0"@)
        } else if c.audio.channels == 0 {
            Some("Audio channels must be greater than 0"@)
        } else {
            None
        }
    } else {
        None
    }
}

/// The delay before a reconnection attempt: the initial delay grown by the
/// multiplier once per earlier attempt, clamped at the ceiling. Attempt
/// zero waits the plain initial delay.
pub open spec fn reconnect_delay_spec(initial: u64, mult: u64, max: u64, attempt: int) -> int {
    if attempt <= 0 {
        initial as int
    } else {
        let grown = initial * pow(mult as int, (attempt - 1) as nat);
        if grown > max {
            max as int
        } else {
            grown
        }
    }
}

impl PipecatAudioConfig {
    /// Copy the audio parameters.
    pub fn duplicate(&self) -> (r: Self)
        ensures
            r == *self,
    {
        PipecatAudioConfig {
            sample_rate: self.sample_rate,
            channels: self.channels,
            frame_size: self.frame_size,
            buffer_size: self.buffer_size,
            enable_compression: self.enable_compression,
            encoding: crate::text::clone_opt_string(&self.encoding),
        }
    }
}

impl PipecatConfig {
    /// Copy the whole bridge configuration.
    pub fn duplicate(&self) -> (r: Self)
        ensures
            r == *self,
    {
        PipecatConfig {
            enabled: self.enabled,
            server_url: crate::text::clone_opt_string(&self.server_url),
            use_for_ai: self.use_for_ai,
            fallback_to_internal: self.fallback_to_internal,
            connection_timeout: self.connection_timeout,
            reconnect: self.reconnect,
            audio: self.audio.duplicate(),
            default_system_prompt: crate::text::clone_opt_string(&self.default_system_prompt),
            enable_metrics: self.enable_metrics,
            debug_logging: self.debug_logging,
        }
    }

    /// Connection timeout, in seconds.
    pub fn connection_timeout_duration(&self) -> (r: u64)
        ensures
            r == self.connection_timeout,
    {
        self.connection_timeout
    }

    /// First reconnection delay, in seconds.
    pub fn initial_reconnect_delay(&self) -> (r: u64)
        ensures
            r == self.reconnect.initial_delay,
    {
        self.reconnect.initial_delay
    }

    /// Reconnection delay ceiling, in seconds.
    pub fn max_reconnect_delay(&self) -> (r: u64)
        ensures
            r == self.reconnect.max_delay,
    {
        self.reconnect.max_delay
    }

    /// Whether reconnection is enabled.
    pub fn is_reconnect_enabled(&self) -> (r: bool)
        ensures
            r == self.reconnect.enabled,
    {
        self.reconnect.enabled
    }

    /// The configured server URL, or the engine's default.
    pub fn get_server_url(&self) -> (r: String)
        ensures
            match self.server_url {
                Some(u) => r@ == u@,
                None => r@ == "ws://0.0.0.0:8081"@,
            },
    {
        match &self.server_url {
            Some(u) => u.clone(),
            None => "ws://0.0.0.0:8081".to_owned(),
        }
    }

    /// Check the configuration, reporting the first violated rule.
    /// An enabled bridge needs a non-empty server URL, a positive timeout,
    /// a positive attempt limit when reconnection is on, and positive audio
    /// parameters.
    pub fn validate(&self) -> (r: Result<(), String>)
        ensures
            (r is Ok) == (validate_err(self) is None),
            r matches Err(m) ==> m@ == validate_err(self)->Some_0,
    {
        if self.enabled {
            let url_missing = match &self.server_url {
                Some(u) => u.as_str().is_empty(),
                None => true,
            };
            if url_missing {
                return Err("Pipecat server URL is required when enabled".to_owned());
            }
            if self.connection_timeout == 0 {
                return Err("Connection timeout must be greater than 0".to_owned());
            }
            if self.reconnect.enabled && self.reconnect.max_attempts == 0 {
                return Err("Max reconnection attempts must be greater than 0".to_owned());
            }
            if self.audio.sample_rate == 0 {
                return Err("Audio sample rate must be greater than 0".to_owned());
            }
            if self.audio.channels == 0 {
                return Err("Audio channels must be greater than 0".to_owned());
            }
        }
        Ok(())
    }

    /// The reconnection delay for an attempt number, in seconds:
    /// exponential backoff from the initial delay, clamped at the ceiling.
    pub fn calculate_reconnect_delay(&self, attempt: u32) -> (r: u64)
        ensures
            r == reconnect_delay_spec(
                self.reconnect.initial_delay,
                self.reconnect.backoff_multiplier,
                self.reconnect.max_delay,
                attempt as int,
            ),
    {
        let initial = self.reconnect.initial_delay;
        let m = self.reconnect.backoff_multiplier;
        let max = self.reconnect.max_delay;
        if attempt == 0 {
            return initial;
        }
        let mut d: u64 = if initial > max {
            max
        } else {
            initial
        };
        proof {
            vstd::arithmetic::power::lemma_pow0(m as int);
            assert(initial * pow(m as int, 0) == initial);
        }
        let mut k: u32 = 1;
        while k < attempt
            invariant
                1 <= k <= attempt,
                initial == self.reconnect.initial_delay,
                m == self.reconnect.backoff_multiplier,
                max == self.reconnect.max_delay,
                d == reconnect_delay_spec(initial, m, max, k as int),
            decreases attempt - k,
        {
            let ghost grown_k = initial as int * pow(m as int, (k - 1) as nat);
            let ghost grown_k1 = initial as int * pow(m as int, k as nat);
            proof {
                lemma_backoff_step(initial as int, m as int, max as int, (k - 1) as nat);
                assert(grown_k1 == grown_k * m);
            }
            if m == 0 {
                d = 0;
                proof {
                    assert(pow(0int, k as nat) == 0) by {
                        vstd::arithmetic::power::lemma0_pow(k as nat);
                    }
                    assert(grown_k1 == 0);
                }
            } else if d > max / m {
                proof {
                    vstd::arithmetic::div_mod::lemma_fundamental_div_mod(max as int, m as int);
                    if d == grown_k {
                        // d at least one above the quotient makes the product
                        // exceed the ceiling
                        assert(d * m >= (max as int / m as int + 1) * m) by (nonlinear_arith)
                            requires
                                d >= max as int / m as int + 1,
                                m >= 1,
                        ;
                        assert((max as int / m as int + 1) * m == m * (max as int / m as int)
                            + m) by (nonlinear_arith);
                        assert(0 <= max as int % (m as int) < m) by (nonlinear_arith)
                            requires
                                m >= 1,
                                max >= 0,
                        ;
                        assert(grown_k1 > max);
                    } else {
                        // the delay was already clamped, and growing a value
                        // above the ceiling keeps it above the ceiling
                        assert(d == max && grown_k > max);
                        assert(grown_k1 >= grown_k);
                    }
                }
                d = max;
            } else {
                proof {
                    vstd::arithmetic::div_mod::lemma_fundamental_div_mod(max as int, m as int);
                    assert(d * m <= (max as int / m as int) * m) by (nonlinear_arith)
                        requires
                            d <= max as int / m as int,
                            m >= 1,
                    ;
                    assert((max as int / m as int) * m <= max);
    if d != grown_k {
                        // the delay was clamped at the ceiling; a ceiling no
                        // larger than its own quotient only grows back to
                        // itself, and the true delay stays above it
                        assert(d == max && grown_k > max);
                        assert(max as int * m <= (max as int / m as int) * m) by (nonlinear_arith)
                            requires
                                max as int <= max as int / m as int,
                                m >= 1,
                        ;
                        assert(max as int * m >= max) by (nonlinear_arith)
                            requires
                                m >= 1,
                                max >= 0,
                        ;
                        assert(max as int * m == max);
                        assert(grown_k1 >= grown_k);
                    }
                }
                d = d * m;
            }
            k = k + 1;
        }
        d
    }
}

/// One backoff step: growing the clamped delay by the multiplier and
/// re-clamping yields the clamped next power.
proof fn lemma_backoff_step(initial: int, m: int, max: int, e: nat)
    requires
        initial >= 0,
        m >= 0,
        max >= 0,
    ensures
        initial * pow(m, e) * m == initial * pow(m, e + 1),
        m >= 1 ==> initial * pow(m, e) <= initial * pow(m, e + 1),
        pow(m, e) >= 0,
        m >= 1 ==> pow(m, e) >= 1,
        m == 0 && e >= 1 ==> pow(m, e) == 0,
{
    if m == 0 {
        if e >= 1 {
            assert(pow(0, e) == 0) by {
                vstd::arithmetic::power::lemma0_pow(e);
            }
        } else {
            assert(pow(0, 0) == 1) by {
                vstd::arithmetic::power::lemma_pow0(0);
            }
        }
    }
    if m >= 1 {
        assert(pow(m, e) >= 1) by {
            vstd::arithmetic::power::lemma_pow_positive(m, e);
        }
    }
    assert(pow(m, e + 1) == pow(m, e) * m) by {
        vstd::arithmetic::power::lemma_pow1(m);
        vstd::arithmetic::power::lemma_pow_adds(m, e, 1);
    }
    assert(initial * pow(m, e) * m == initial * (pow(m, e) * m)) by (nonlinear_arith);
    if m >= 1 {
        assert(initial * pow(m, e) <= initial * (pow(m, e) * m)) by (nonlinear_arith)
            requires
                initial >= 0,
                m >= 1,
                pow(m, e) >= 0,
        ;
    }
}

/// The reconnection delay never decreases with the attempt number, and from
/// the first retry on it never exceeds the ceiling: with a whole multiplier
/// and an initial delay at most the ceiling, later attempts wait at least
/// as long as earlier ones and never longer than the ceiling.
pub proof fn lemma_reconnect_delay_monotone(initial: u64, mult: u64, max: u64, a: int, b: int)
    requires
        mult >= 1,
        initial <= max,
        0 <= a <= b,
    ensures
        reconnect_delay_spec(initial, mult, max, a) <= reconnect_delay_spec(initial, mult, max, b),
        reconnect_delay_spec(initial, mult, max, b) <= max,
    decreases b - a,
{
    if a == 0 {
        vstd::arithmetic::power::lemma_pow0(mult as int);
        if b == 0 {
        } else {
            lemma_reconnect_delay_monotone(initial, mult, max, 1, b);
            assert(reconnect_delay_spec(initial, mult, max, 1) == initial);
        }
    } else if a == b {
        lemma_backoff_step(initial as int, mult as int, max as int, (a - 1) as nat);
        assert(initial * pow(mult as int, (a - 1) as nat) >= 0) by (nonlinear_arith)
            requires
                initial >= 0,
                pow(mult as int, (a - 1) as nat) >= 1,
        ;
    } else {
        lemma_reconnect_delay_monotone(initial, mult, max, a, b - 1);
        lemma_backoff_step(initial as int, mult as int, max as int, (b - 2) as nat);
        lemma_backoff_step(initial as int, mult as int, max as int, (b - 1) as nat);
    }
}

} // verus!
