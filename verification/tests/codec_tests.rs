use rustpbx_media::codecs::{
    alaw_to_linear, bytes_to_samples, decode_g722, decode_pcma, decode_pcmu, decode_rtp_payload,
    encode_frame, encode_g722, encode_g729, encode_pcma, encode_pcmu, linear_to_alaw,
    linear_to_ulaw, samples_to_bytes, ulaw_to_linear,
};
use rustpbx_media::errors::MediaError;
use rustpbx_media::frame::CodecType;

#[test]
fn ulaw_byte_values() {
    // biased magnitude 132: exponent 1, mantissa 8
    assert_eq!(linear_to_ulaw(0), 231);
    // negative sign bit set
    assert_eq!(linear_to_ulaw(-1), 103);
    // clipped to the companding limit
    assert_eq!(linear_to_ulaw(32767), 240);
    assert_eq!(linear_to_ulaw(32767), linear_to_ulaw(32635));
}

#[test]
fn alaw_byte_values() {
    assert_eq!(linear_to_alaw(0), 37);
    assert_eq!(linear_to_alaw(32767), 90);
    assert_eq!(linear_to_alaw(32767), linear_to_alaw(32635));
}

#[test]
fn pcmu_round_trip_keeps_length() {
    let samples: Vec<i16> = vec![0, 100, -100, 32767, -32768, 7, 1234];
    let encoded = encode_pcmu(&samples).unwrap();
    assert_eq!(encoded.len(), samples.len());
    let decoded = decode_pcmu(&encoded);
    assert_eq!(decoded.len(), samples.len());
}

#[test]
fn pcma_round_trip_keeps_length() {
    let samples: Vec<i16> = vec![0, 100, -100, 32767, -32768, 7, 1234, -5];
    let encoded = encode_pcma(&samples).unwrap();
    assert_eq!(encoded.len(), samples.len());
    let decoded = decode_pcma(&encoded);
    assert_eq!(decoded.len(), samples.len());
}

#[test]
fn g722_round_trip_keeps_length_for_whole_pairs() {
    let samples: Vec<i16> = (0..160).map(|i| (i * 13 - 900) as i16).collect();
    let encoded = encode_g722(&samples).unwrap();
    assert_eq!(encoded.len(), 80);
    let decoded = decode_g722(&encoded);
    assert_eq!(decoded.len(), samples.len());
}

#[test]
fn g722_encodes_trailing_odd_sample() {
    let samples: Vec<i16> = vec![10, 20, 30];
    let encoded = encode_g722(&samples).unwrap();
    assert_eq!(encoded.len(), 2);
    assert_eq!(encoded[1], linear_to_ulaw(30));
}

#[test]
fn g729_round_trip_is_exact() {
    let samples: Vec<i16> = vec![0, 1, -1, 32767, -32768, 256, -257];
    let encoded = encode_g729(&samples).unwrap();
    assert_eq!(encoded.len(), 2 * samples.len());
    let decoded = bytes_to_samples(&encoded).unwrap();
    assert_eq!(decoded, samples);
}

#[test]
fn le_bytes_round_trip_is_exact() {
    let samples: Vec<i16> = vec![-32768, -1, 0, 1, 255, 256, 32767];
    let bytes = samples_to_bytes(&samples);
    assert_eq!(bytes[0], 0);
    assert_eq!(bytes[1], 0x80);
    let back = bytes_to_samples(&bytes).unwrap();
    assert_eq!(back, samples);
}

#[test]
fn odd_byte_count_is_invalid_audio() {
    let bytes: Vec<u8> = vec![1, 2, 3];
    assert_eq!(bytes_to_samples(&bytes), Err(MediaError::InvalidAudioData));
}

#[test]
fn decode_dispatch_by_payload_type() {
    let payload: Vec<u8> = vec![10, 20, 30, 40];
    assert_eq!(decode_rtp_payload(0, &payload).unwrap().len(), 4);
    assert_eq!(decode_rtp_payload(8, &payload).unwrap().len(), 4);
    assert_eq!(decode_rtp_payload(9, &payload).unwrap().len(), 8);
    assert_eq!(
        decode_rtp_payload(111, &payload),
        Err(MediaError::UnsupportedCodec(111))
    );
    assert_eq!(
        decode_rtp_payload(47, &payload),
        Err(MediaError::UnsupportedCodec(47))
    );
}

#[test]
fn decoders_invert_the_companders_consistently() {
    // decoding what the encoder produced lands in the same quantisation cell
    let v = ulaw_to_linear(linear_to_ulaw(1000));
    assert!(v > 0);
    let w = alaw_to_linear(linear_to_alaw(-1000));
    assert!(w < 0);
}

#[test]
fn encode_frame_follows_the_codec() {
    let samples: Vec<i16> = vec![1, 2, 3, 4];
    assert_eq!(encode_frame(CodecType::PCMU, &samples).unwrap().len(), 4);
    assert_eq!(encode_frame(CodecType::PCMA, &samples).unwrap().len(), 4);
    assert_eq!(encode_frame(CodecType::G722, &samples).unwrap().len(), 2);
    assert_eq!(encode_frame(CodecType::G729, &samples).unwrap().len(), 8);
    assert!(encode_frame(CodecType::Opus, &samples).is_none());
    assert!(encode_frame(CodecType::TelephoneEvent, &samples).is_none());
}
