//! The outbound half of a WebRTC track: resample incoming PCM to the
//! negotiated codec's clock rate, accumulate it in a carry-over buffer,
//! slice the buffer into the codec's fixed frame size, and encode each full
//! slice. Partial frames stay buffered across calls and are never dropped.

use vstd::prelude::*;
use crate::codecs::encode_frame;
use crate::codecs::encode_frame_spec;
use crate::errors::MediaError;
use crate::frame::{AudioFrame, CodecType, Samples, TrackConfig, TrackId};
use crate::resample::{resample_audio, resampled};

verus! {

/// Relies on rand::random for the initial RTP timestamp; nothing is assumed
/// about the value drawn.
pub assume_specification<T>[ rand::random::<T> ]() -> (r: T)
    where
        rand::distributions::Standard: rand::distributions::Distribution<T>,
;

/// One encoded, fixed-duration frame ready for the transport.
#[derive(Debug, Clone)]
pub struct EncodedFrame {
    /// The codec payload.
    pub data: Vec<u8>,
    /// The frame's play-out duration in milliseconds.
    pub duration_ms: u64,
}

/// The number of samples in one transmit unit of a codec: 20 ms at the
/// codec's clock rate.
pub open spec fn target_frame_size_spec(codec: CodecType) -> int {
    match codec {
        CodecType::Opus => 960int,
        CodecType::G722 => 160int,
        CodecType::PCMU => 320int,
        CodecType::PCMA => 320int,
        CodecType::G729 => 160int,
        _ => 160int,
    }
}

/// Whether this build can encode outbound audio for a codec.
pub open spec fn codec_encodable(codec: CodecType) -> bool {
    match codec {
        CodecType::PCMU => true,
        CodecType::PCMA => true,
        CodecType::G722 => true,
        CodecType::G729 => true,
        _ => false,
    }
}

/// The media state of one WebRTC-backed track: its identity, negotiated
/// codec, outbound carry-over buffer and running RTP timestamp. The
/// transport itself (peer connection, sockets) lives outside this state.
#[derive(Debug)]
pub struct WebrtcTrack {
    track_id: TrackId,
    track_config: TrackConfig,
    prefered_codec: Option<CodecType>,
    ssrc: u32,
    audio_buffer: Vec<i16>,
    rtp_timestamp: u32,
}

impl WebrtcTrack {
    /// The carry-over buffer always holds less than one full frame.
    pub closed spec fn wf(&self) -> bool {
        self.audio_buffer@.len() < target_frame_size_spec(self.track_config.codec)
    }

    /// The samples currently carried over, waiting for a full frame.
    pub closed spec fn buffered(&self) -> Seq<i16> {
        self.audio_buffer@
    }

    /// The running RTP timestamp.
    pub closed spec fn rtp_ts(&self) -> u32 {
        self.rtp_timestamp
    }

    /// The track's identifier.
    pub closed spec fn spec_id(&self) -> TrackId {
        self.track_id
    }

    /// The track's static configuration.
    pub closed spec fn spec_config(&self) -> TrackConfig {
        self.track_config
    }

    /// The preferred codec for negotiation, if one was set.
    pub closed spec fn spec_prefered_codec(&self) -> Option<CodecType> {
        self.prefered_codec
    }

    /// The synchronisation source.
    pub closed spec fn spec_ssrc(&self) -> u32 {
        self.ssrc
    }

    /// The track's identifier.
    pub fn id(&self) -> (r: &TrackId)
        ensures
            r == self.spec_id(),
    {
        &self.track_id
    }

    /// The track's static configuration.
    pub fn config(&self) -> (r: &TrackConfig)
        ensures
            r == self.spec_config(),
    {
        &self.track_config
    }

    /// The synchronisation source.
    pub fn ssrc(&self) -> (r: u32)
        ensures
            r == self.spec_ssrc(),
    {
        self.ssrc
    }

    /// The preferred codec for negotiation, if one was set.
    pub fn prefered_codec(&self) -> (r: Option<CodecType>)
        ensures
            r == self.spec_prefered_codec(),
    {
        self.prefered_codec
    }

    /// Build a track with an empty carry-over buffer and a random initial
    /// RTP timestamp.
    pub fn new(id: TrackId, track_config: TrackConfig) -> (r: WebrtcTrack)
        ensures
            r.spec_id() == id,
            r.spec_config() == track_config,
            r.spec_prefered_codec() is None,
            r.spec_ssrc() == 0,
            r.buffered() == Seq::<i16>::empty(),
            r.wf(),
    {
        WebrtcTrack {
            track_id: id,
            track_config,
            prefered_codec: None,
            ssrc: 0,
            audio_buffer: Vec::new(),
            rtp_timestamp: rand::random::<u32>(),
        }
    }

    /// Set the synchronisation source.
    pub fn with_ssrc(self, ssrc: u32) -> (r: WebrtcTrack)
        ensures
            r.spec_ssrc() == ssrc,
            r.spec_id() == self.spec_id(),
            r.spec_config() == self.spec_config(),
            r.spec_prefered_codec() == self.spec_prefered_codec(),
            r.buffered() == self.buffered(),
            r.rtp_ts() == self.rtp_ts(),
            r.wf() == self.wf(),
    {
        WebrtcTrack { ssrc, ..self }
    }

    /// Set the preferred codec for negotiation.
    pub fn with_prefered_codec(self, codec: Option<CodecType>) -> (r: WebrtcTrack)
        ensures
            r.spec_prefered_codec() == codec,
            r.spec_id() == self.spec_id(),
            r.spec_config() == self.spec_config(),
            r.spec_ssrc() == self.spec_ssrc(),
            r.buffered() == self.buffered(),
            r.rtp_ts() == self.rtp_ts(),
            r.wf() == self.wf(),
    {
        WebrtcTrack { prefered_codec: codec, ..self }
    }

    /// The codec's fixed transmit unit, in samples.
    pub fn get_target_frame_size(&self) -> (r: usize)
        ensures
            r == target_frame_size_spec(self.spec_config().codec),
    {
        match self.track_config.codec {
            CodecType::Opus => 960,
            CodecType::G722 => 160,
            CodecType::PCMU => 320,
            CodecType::PCMA => 320,
            CodecType::G729 => 160,
            _ => 160,
        }
    }

    /// Enqueue one outbound frame, returning the encoded transmit units it
    /// completed.
    ///
    /// PCM is resampled to the codec's clock rate and appended to the
    /// carry-over buffer; every full frame-sized slice is encoded and
    /// returned, and the remainder stays buffered, so no sample is lost
    /// across calls. The RTP timestamp advances by one frame size per
    /// returned unit, modulo 32 bits. A codec this build cannot encode
    /// consumes its slices without output; an encoded RTP payload passes
    /// through unchanged with a 20 ms duration tag; empty payloads are
    /// skipped.
    pub fn send_packet(&mut self, frame: &AudioFrame) -> (r: Result<Vec<EncodedFrame>, MediaError>)
        requires
            frame.wf(),
            old(self).wf(),
            (frame.samples matches Samples::PCM { samples } ==> samples@.len() * (
            old(self).spec_config().codec.clock_rate_spec() as int) <= u64::MAX
                && old(self).buffered().len() + samples@.len() * (
            old(self).spec_config().codec.clock_rate_spec() as int) / (frame.sample_rate as int)
                <= usize::MAX - 960),
        ensures
            final(self).wf(),
            final(self).spec_id() == old(self).spec_id(),
            final(self).spec_config() == old(self).spec_config(),
            final(self).spec_ssrc() == old(self).spec_ssrc(),
            final(self).spec_prefered_codec() == old(self).spec_prefered_codec(),
            match frame.samples {
                Samples::PCM { samples } => {
                    let clock = old(self).spec_config().codec.clock_rate_spec();
                    let fs = target_frame_size_spec(old(self).spec_config().codec);
                    let total = old(self).buffered() + resampled(
                        samples@,
                        frame.sample_rate,
                        clock,
                    );
                    let k = total.len() as int / fs;
                    if samples@.len() == 0 {
                        r matches Ok(out) && out@.len() == 0 && *final(self) == *old(self)
                    } else {
                        &&& final(self).buffered() =~= total.subrange(k * fs, total.len() as int)
                        &&& final(self).rtp_ts() == (old(self).rtp_ts() + k * fs) % 0x1_0000_0000
                        &&& if codec_encodable(old(self).spec_config().codec) {
                            r matches Ok(out) && out@.len() == k && forall|i: int|
                                0 <= i < k ==> (#[trigger] out@[i]).data@ == encode_frame_spec(
                                    old(self).spec_config().codec,
                                    total.subrange(i * fs, (i + 1) * fs),
                                )->Some_0 && out@[i].duration_ms == fs * 1000 / (clock as int)
                        } else {
                            r matches Ok(out) && out@.len() == 0
                        }
                    }
                },
                Samples::RTP { payload, .. } => {
                    &&& *final(self) == *old(self)
                    &&& if payload@.len() == 0 {
                        r matches Ok(out) && out@.len() == 0
                    } else {
                        r matches Ok(out) && out@.len() == 1 && out@[0].data@ == payload@
                            && out@[0].duration_ms == 20
                    }
                },
                Samples::Empty => r matches Ok(out) && out@.len() == 0 && *final(self) == *old(self),
            },
    {
        match &frame.samples {
            Samples::PCM { samples } => {
                if samples.len() == 0 {
                    return Ok(Vec::new());
                }
                let clock = self.track_config.codec.clock_rate();
                let mut work: Vec<i16> = resample_audio(samples, frame.sample_rate, clock);
                proof {
                    crate::resample::lemma_resampler_output_length(
                        samples@,
                        frame.sample_rate,
                        clock,
                    );
                }
                let ghost rs = work@;
                let mut total: Vec<i16> = Vec::new();
                std::mem::swap(&mut total, &mut self.audio_buffer);
                total.append(&mut work);
                assert(total@ == old(self).buffered() + rs);
                let fs = self.get_target_frame_size();
                let n_frames: usize = total.len() / fs;
                let ghost k = n_frames as int;
                proof {
                    vstd::arithmetic::div_mod::lemma_fundamental_div_mod(
                        total@.len() as int,
                        fs as int,
                    );
                }
                let mut out: Vec<EncodedFrame> = Vec::new();
                let ghost codec = self.track_config.codec;
                let mut start: usize = 0;
                let ghost mut i: int = 0;
                while start + fs <= total.len()
                    invariant
                        fs == target_frame_size_spec(codec),
                        0 < fs <= 960,
                        clock == codec.clock_rate_spec(),
                        clock > 0,
                        codec == self.track_config.codec,
                        self.track_config == old(self).track_config,
                        self.track_id == old(self).track_id,
                        self.ssrc == old(self).spec_ssrc(),
                        self.prefered_codec == old(self).spec_prefered_codec(),
                        total@.len() <= usize::MAX - 960,
                        0 <= i,
                        start == i * fs,
                        start <= total@.len(),
                        self.rtp_timestamp == (old(self).rtp_ts() + i * fs) % 0x1_0000_0000,
                        codec_encodable(codec) ==> out@.len() == i && forall|j: int| 0 <= j < i
                            ==> (#[trigger] out@[j]).data@ == encode_frame_spec(
                            codec,
                            total@.subrange(j * fs, (j + 1) * fs),
                        )->Some_0 && out@[j].duration_ms == fs * 1000 / (
                        codec.clock_rate_spec() as int),
                        !codec_encodable(codec) ==> out@.len() == 0,
                    decreases total@.len() - start,
                {
                    proof {
                        assert(start + fs == (i + 1) * fs) by (nonlinear_arith)
                            requires
                                start == i * fs,
                        ;
                    }
                    let mut slice: Vec<i16> = Vec::new();
                    let mut j: usize = start;
                    while j < start + fs
                        invariant
                            start <= j <= start + fs,
                            start + fs <= total@.len(),
                            total@.len() <= usize::MAX - 960,
                            slice@ =~= total@.subrange(start as int, j as int),
                        decreases start + fs - j,
                    {
                        slice.push(total[j]);
                        j = j + 1;
                    }
                    assert(slice@ =~= total@.subrange(i * fs, (i + 1) * fs));
                    match encode_frame(self.track_config.codec, &slice) {
                        Some(data) => {
                            if data.len() > 0 {
                                let duration_ms: u64 = (fs as u64) * 1000 / (clock as u64);
                                out.push(EncodedFrame { data, duration_ms });
                            } else {
                                proof {
                                    lemma_encode_nonempty(codec, slice@);
                                }
                            }
                        },
                        None => {},
                    }
                    self.rtp_timestamp = self.rtp_timestamp.wrapping_add(fs as u32);
                    proof {
                        lemma_wrap_step(old(self).rtp_ts() as int, i, fs as int);
                    }
                    start = start + fs;
                    proof {
                        i = i + 1;
                    }
                }
                proof {
                    assert(total@.len() as int - start < fs);
                    vstd::arithmetic::div_mod::lemma_fundamental_div_mod_converse(
                        total@.len() as int,
                        fs as int,
                        i,
                        total@.len() as int - start,
                    );
                    assert(i == k);
                }
                let mut rest: Vec<i16> = Vec::new();
                let mut j: usize = start;
                while j < total.len()
                    invariant
                        start <= j <= total@.len(),
                        rest@ =~= total@.subrange(start as int, j as int),
                    decreases total@.len() - j,
                {
                    rest.push(total[j]);
                    j = j + 1;
                }
                self.audio_buffer = rest;
                assert(self.audio_buffer@ =~= total@.subrange(k * (fs as int), total@.len() as int));
                Ok(out)
            },
            Samples::RTP { payload, .. } => {
                if payload.len() == 0 {
                    return Ok(Vec::new());
                }
                let mut out: Vec<EncodedFrame> = Vec::new();
                out.push(EncodedFrame { data: payload.clone(), duration_ms: 20 });
                Ok(out)
            },
            Samples::Empty => Ok(Vec::new()),
        }
    }
}

/// Every supported encoder yields a non-empty payload for a non-empty frame.
proof fn lemma_encode_nonempty(codec: CodecType, s: Seq<i16>)
    requires
        s.len() > 0,
        encode_frame_spec(codec, s) is Some,
    ensures
        encode_frame_spec(codec, s)->Some_0.len() > 0,
{
}

/// Advancing a 32-bit timestamp by one frame keeps the modular count.
proof fn lemma_wrap_step(ts0: int, i: int, fs: int)
    requires
        ts0 >= 0,
        i >= 0,
        fs >= 0,
    ensures
        ((ts0 + i * fs) % 0x1_0000_0000 + fs) % 0x1_0000_0000 == (ts0 + (i + 1) * fs)
            % 0x1_0000_0000,
{
    let m = 0x1_0000_0000int;
    vstd::arithmetic::div_mod::lemma_add_mod_noop(ts0 + i * fs, fs, m);
    vstd::arithmetic::div_mod::lemma_mod_twice(ts0 + i * fs, m);
    assert(ts0 + i * fs + fs == ts0 + (i + 1) * fs) by (nonlinear_arith);
}

} // verus!
