//! Error taxonomy of the media engine.
//!
//! Per-frame transcoding errors never terminate a track; connectivity errors
//! update a client's status; assembly errors are fatal to call setup.

use vstd::prelude::*;

verus! {

/// Every failure the media core can report.
#[derive(Debug, Clone)]
pub enum MediaError {
    /// No compatible codec or transport was found during negotiation.
    NegotiationError,
    /// Negotiation did not finish within its wall-clock budget.
    NegotiationTimeout,
    /// Decode was asked for an RTP payload type no decoder handles.
    UnsupportedCodec(u8),
    /// A streaming-provider client was asked to transmit while not connected.
    NotConnected,
    /// Reconnection gave up after the configured number of attempts.
    MaxReconnectAttemptsExceeded,
    /// A provider tag was looked up that no constructor was registered for.
    UnknownProviderTag,
    /// The AI bridge owns the call's AI processing, failed to come up, and
    /// falling back to the internal stack is disabled.
    BridgeUnavailable,
    /// The transcoder produced no output for a non-empty input.
    EncodingFailure,
    /// Audio bytes did not form whole 16-bit samples.
    InvalidAudioData,
    /// A provider configuration failed validation, with the violated rule.
    InvalidConfiguration(String),
}

impl MediaError {
    /// A short stable name for the error, for logs and wire messages.
    pub fn name(&self) -> (r: &'static str)
        ensures
            r@ == self.name_spec(),
    {
        match self {
            MediaError::NegotiationError => "negotiation error",
            MediaError::NegotiationTimeout => "negotiation timeout",
            MediaError::UnsupportedCodec(_) => "unsupported codec",
            MediaError::NotConnected => "not connected",
            MediaError::MaxReconnectAttemptsExceeded => "max reconnect attempts exceeded",
            MediaError::UnknownProviderTag => "unknown provider tag",
            MediaError::BridgeUnavailable => "bridge unavailable",
            MediaError::EncodingFailure => "encoding failure",
            MediaError::InvalidAudioData => "invalid audio data",
            MediaError::InvalidConfiguration(_) => "invalid configuration",
        }
    }

    /// What `name` returns, as a sequence of characters.
    pub open spec fn name_spec(&self) -> Seq<char> {
        match self {
            MediaError::NegotiationError => "negotiation error"@,
            MediaError::NegotiationTimeout => "negotiation timeout"@,
            MediaError::UnsupportedCodec(_) => "unsupported codec"@,
            MediaError::NotConnected => "not connected"@,
            MediaError::MaxReconnectAttemptsExceeded => "max reconnect attempts exceeded"@,
            MediaError::UnknownProviderTag => "unknown provider tag"@,
            MediaError::BridgeUnavailable => "bridge unavailable"@,
            MediaError::EncodingFailure => "encoding failure"@,
            MediaError::InvalidAudioData => "invalid audio data"@,
            MediaError::InvalidConfiguration(_) => "invalid configuration"@,
        }
    }
}

/// Whether two errors are the same failure.
pub open spec fn media_error_eq(a: &MediaError, b: &MediaError) -> bool {
    match (a, b) {
        (MediaError::NegotiationError, MediaError::NegotiationError) => true,
        (MediaError::NegotiationTimeout, MediaError::NegotiationTimeout) => true,
        (MediaError::UnsupportedCodec(x), MediaError::UnsupportedCodec(y)) => x == y,
        (MediaError::NotConnected, MediaError::NotConnected) => true,
        (
            MediaError::MaxReconnectAttemptsExceeded,
            MediaError::MaxReconnectAttemptsExceeded,
        ) => true,
        (MediaError::UnknownProviderTag, MediaError::UnknownProviderTag) => true,
        (MediaError::BridgeUnavailable, MediaError::BridgeUnavailable) => true,
        (MediaError::EncodingFailure, MediaError::EncodingFailure) => true,
        (MediaError::InvalidAudioData, MediaError::InvalidAudioData) => true,
        (MediaError::InvalidConfiguration(x), MediaError::InvalidConfiguration(y)) => x@ == y@,
        _ => false,
    }
}

impl PartialEq for MediaError {
    fn eq(&self, other: &Self) -> (r: bool) {
        match (self, other) {
            (MediaError::NegotiationError, MediaError::NegotiationError) => true,
            (MediaError::NegotiationTimeout, MediaError::NegotiationTimeout) => true,
            (MediaError::UnsupportedCodec(x), MediaError::UnsupportedCodec(y)) => *x == *y,
            (MediaError::NotConnected, MediaError::NotConnected) => true,
            (
                MediaError::MaxReconnectAttemptsExceeded,
                MediaError::MaxReconnectAttemptsExceeded,
            ) => true,
            (MediaError::UnknownProviderTag, MediaError::UnknownProviderTag) => true,
            (MediaError::BridgeUnavailable, MediaError::BridgeUnavailable) => true,
            (MediaError::EncodingFailure, MediaError::EncodingFailure) => true,
            (MediaError::InvalidAudioData, MediaError::InvalidAudioData) => true,
            (MediaError::InvalidConfiguration(x), MediaError::InvalidConfiguration(y)) => *x == *y,
            _ => false,
        }
    }
}

impl vstd::std_specs::cmp::PartialEqSpecImpl for MediaError {
    open spec fn obeys_eq_spec() -> bool {
        true
    }

    open spec fn eq_spec(&self, other: &Self) -> bool {
        media_error_eq(self, other)
    }
}

} // verus!
