use rustpbx_media::frame::{AudioFrame, CodecType, Samples, TrackConfig, TrackId};
use rustpbx_media::track::WebrtcTrack;

fn g722_track() -> WebrtcTrack {
    let config = TrackConfig {
        samplerate: 16000,
        codec: CodecType::G722,
        stream_id: "stream".to_string(),
    };
    WebrtcTrack::new(TrackId::from("track-a"), config)
}

fn pcm_frame(samples: Vec<i16>, rate: u32) -> AudioFrame {
    AudioFrame::pcm(TrackId::from("track-a"), samples, rate, 0)
}

#[test]
fn hundred_ms_at_16k_gives_one_frame_per_160_resampled_samples() {
    // 100 ms of PCM at 16 kHz destined for an 8 kHz codec: 1600 samples
    // decimate to 800, which is exactly five 20 ms frames of 160 samples,
    // regardless of how the samples are split across calls.
    let mut track = g722_track();
    let chunks: [usize; 3] = [500, 500, 600];
    let mut frames_out = 0usize;
    let mut fed = 0usize;
    for n in chunks.iter() {
        let samples: Vec<i16> = (0..*n).map(|i| (i as i16).wrapping_mul(7)).collect();
        fed += n;
        let frame = pcm_frame(samples, 16000);
        let out = track.send_packet(&frame).unwrap();
        for f in out.iter() {
            assert_eq!(f.data.len(), 80);
            assert_eq!(f.duration_ms, 20);
        }
        frames_out += out.len();
    }
    assert_eq!(fed, 1600);
    // no sample loss across call boundaries: 800 post-resample samples all
    // left as five full frames
    assert_eq!(frames_out, 5);
}

#[test]
fn partial_frames_are_buffered_never_dropped() {
    let mut track = g722_track();
    // 100 samples at 16 kHz decimate to 50: not enough for one 160-sample
    // frame, so nothing is emitted yet
    let out = track
        .send_packet(&pcm_frame((0..100).map(|i| i as i16).collect(), 16000))
        .unwrap();
    assert_eq!(out.len(), 0);
    // 540 more decimate to 270; with the 50 carried over that is 320:
    // exactly two frames, nothing lost
    let out2 = track
        .send_packet(&pcm_frame((0..540).map(|i| i as i16).collect(), 16000))
        .unwrap();
    assert_eq!(out2.len(), 2);
}

#[test]
fn pcmu_track_frames_at_its_own_clock() {
    let config = TrackConfig {
        samplerate: 16000,
        codec: CodecType::PCMU,
        stream_id: "stream".to_string(),
    };
    let mut track = WebrtcTrack::new(TrackId::from("track-b"), config);
    // PCMU runs at the track's own 16 kHz here: no resampling, 320-sample
    // transmit units of one byte per sample
    let out = track
        .send_packet(&pcm_frame(vec![0i16; 320], 16000))
        .unwrap();
    assert_eq!(out.len(), 1);
    assert_eq!(out[0].data.len(), 320);
    assert_eq!(out[0].duration_ms, 20);
}

#[test]
fn rtp_payloads_pass_through_with_20ms_tag() {
    let mut track = g722_track();
    let frame = AudioFrame {
        track_id: TrackId::from("track-a"),
        samples: Samples::RTP {
            payload_type: 9,
            payload: vec![1, 2, 3],
            sequence_number: 7,
        },
        timestamp: 0,
        sample_rate: 16000,
        vad_speaking: None,
    };
    let out = track.send_packet(&frame).unwrap();
    assert_eq!(out.len(), 1);
    assert_eq!(out[0].data, vec![1, 2, 3]);
    assert_eq!(out[0].duration_ms, 20);
}

#[test]
fn empty_payloads_are_skipped() {
    let mut track = g722_track();
    let out = track.send_packet(&pcm_frame(Vec::new(), 16000)).unwrap();
    assert_eq!(out.len(), 0);
    let empty = AudioFrame {
        track_id: TrackId::from("track-a"),
        samples: Samples::Empty,
        timestamp: 0,
        sample_rate: 16000,
        vad_speaking: None,
    };
    assert_eq!(track.send_packet(&empty).unwrap().len(), 0);
}

#[test]
fn builders_set_ssrc_and_preference() {
    let track = g722_track().with_ssrc(77).with_prefered_codec(Some(CodecType::PCMA));
    assert_eq!(track.ssrc(), 77);
    assert_eq!(track.prefered_codec(), Some(CodecType::PCMA));
    assert_eq!(track.id(), "track-a");
    assert_eq!(track.config().codec, CodecType::G722);
    assert_eq!(track.get_target_frame_size(), 160);
}
