//! A track that only injects audio frames for play-out — used for
//! server-side audio such as bridge-produced speech. It negotiates nothing
//! and owns no transport.

use vstd::prelude::*;
use crate::errors::MediaError;
use crate::frame::{AudioFrame, TrackConfig, TrackId};
use crate::processor::ProcessorChain;

verus! {

/// A track that accepts injected audio frames for play-out.
#[derive(Debug)]
pub struct PassthroughTrack {
    pub track_id: TrackId,
    pub ssrc: u32,
    pub config: TrackConfig,
    pub processor_chain: ProcessorChain,
}

impl PassthroughTrack {
    /// A passthrough track with the default configuration and an empty
    /// chain at the bridge rate.
    pub fn new(track_id: TrackId, ssrc: u32) -> (r: PassthroughTrack)
        ensures
            r.track_id == track_id,
            r.ssrc == ssrc,
            r.config.samplerate == 16000,
            r.processor_chain.spec_stages() == Seq::<crate::processor::ChainStage>::empty(),
            r.processor_chain.spec_samplerate() == 16000,
    {
        PassthroughTrack {
            track_id,
            ssrc,
            config: TrackConfig::new_default(),
            processor_chain: ProcessorChain::new(16000),
        }
    }

    /// The track's identifier.
    pub fn id(&self) -> (r: &TrackId)
        ensures
            r == self.track_id,
    {
        &self.track_id
    }

    /// The synchronisation source.
    pub fn ssrc(&self) -> (r: u32)
        ensures
            r == self.ssrc,
    {
        self.ssrc
    }

    /// The track's static configuration.
    pub fn config(&self) -> (r: &TrackConfig)
        ensures
            r == self.config,
    {
        &self.config
    }

    /// The track's processor chain, for insertion.
    pub fn processor_chain(&mut self) -> (r: &mut ProcessorChain)
        ensures
            *r == old(self).processor_chain,
            final(self).processor_chain == *final(r),
            final(self).track_id == old(self).track_id,
            final(self).ssrc == old(self).ssrc,
            final(self).config == old(self).config,
    {
        &mut self.processor_chain
    }

    /// No handshake is needed: the answer is empty and always succeeds.
    pub fn handshake(&mut self, offer: String, timeout_ms: Option<u64>) -> (r: Result<
        String,
        MediaError,
    >)
        ensures
            *final(self) == *old(self),
            r matches Ok(answer) && answer@.len() == 0,
    {
        let _ = offer;
        let _ = timeout_ms;
        Ok(String::new())
    }

    /// Frames reach this track by injection, not by this method.
    pub fn send_packet(&self, packet: &AudioFrame) -> (r: Result<(), MediaError>)
        ensures
            r is Ok,
    {
        let _ = packet;
        Ok(())
    }
}

} // verus!
