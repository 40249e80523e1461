//! Stateless per-codec encode/decode functions.
//!
//! Mu-law and A-law compand one byte per sample; the G.722 path halves the
//! rate by averaging sample pairs before companding; the G.729 path carries
//! samples as little-endian byte pairs. Decoding is the per-codec inverse on
//! frame length: every decoder documents how many samples one payload byte
//! yields.

use vstd::prelude::*;
use crate::errors::MediaError;
use crate::frame::CodecType;

verus! {

/// Clip a magnitude to the companding clip level.
pub open spec fn clip_magnitude(m: int) -> int {
    if m > 32635 {
        32635int
    } else {
        m
    }
}

/// Magnitude of a sample, as a nonnegative integer.
pub open spec fn magnitude(s: i16) -> int {
    if s < 0 {
        -(s as int)
    } else {
        s as int
    }
}

/// The companding exponent: the position class of the magnitude's highest
/// set bit, counted downward so that large magnitudes get exponent 0.
pub open spec fn compand_exponent(m: int) -> int {
    if m >= 256 {
        0int
    } else if m >= 128 {
        1int
    } else if m >= 64 {
        2int
    } else if m >= 32 {
        3int
    } else if m >= 16 {
        4int
    } else if m >= 8 {
        5int
    } else if m >= 4 {
        6int
    } else {
        7int
    }
}

/// The divisor that extracts the mantissa for a companding exponent:
/// two to the power of the exponent plus three.
pub open spec fn compand_divisor(e: int) -> int {
    if e == 0 {
        8int
    } else if e == 1 {
        16int
    } else if e == 2 {
        32int
    } else if e == 3 {
        64int
    } else if e == 4 {
        128int
    } else if e == 5 {
        256int
    } else if e == 6 {
        512int
    } else {
        1024int
    }
}

/// The mu-law byte for one sample: bias the clipped magnitude, split it
/// into exponent and mantissa, then complement.
pub open spec fn ulaw_byte(s: i16) -> u8 {
    let sign = if s < 0 { 128int } else { 0int };
    let biased = clip_magnitude(magnitude(s)) + 132;
    let e = compand_exponent(biased);
    let mant = (biased / compand_divisor(e)) % 16;
    (255 - (sign + 16 * e + mant)) as u8
}

/// The A-law byte for one sample: split the clipped magnitude into exponent
/// and mantissa, then toggle the even bits.
pub open spec fn alaw_byte(s: i16) -> u8 {
    let sign = if s < 0 { 128int } else { 0int };
    let m = clip_magnitude(magnitude(s));
    let e = compand_exponent(m);
    let mant = (m / compand_divisor(e)) % 16;
    (((sign + 16 * e + mant) as u8) ^ 0x55u8)
}

/// Exponent and mantissa extraction shared by the two companders.
fn compand_split(m: u32) -> (r: (u32, u32))
    requires
        m <= 32767,
    ensures
        r.0 == compand_exponent(m as int),
        r.1 == (m as int / compand_divisor(r.0 as int)) % 16,
{
    let e: u32 = if m >= 256 {
        0
    } else if m >= 128 {
        1
    } else if m >= 64 {
        2
    } else if m >= 32 {
        3
    } else if m >= 16 {
        4
    } else if m >= 8 {
        5
    } else if m >= 4 {
        6
    } else {
        7
    };
    let div: u32 = if e == 0 {
        8
    } else if e == 1 {
        16
    } else if e == 2 {
        32
    } else if e == 3 {
        64
    } else if e == 4 {
        128
    } else if e == 5 {
        256
    } else if e == 6 {
        512
    } else {
        1024
    };
    let mant: u32 = (m / div) % 16;
    (e, mant)
}

/// Sign bit and clipped magnitude of a sample.
fn sign_and_magnitude(s: i16) -> (r: (u32, u32))
    ensures
        r.0 == if s < 0 { 128int } else { 0int },
        r.1 == clip_magnitude(magnitude(s)),
{
    let (sign, mag): (u32, u32) = if s < 0 {
        (128, (-(s as i32)) as u32)
    } else {
        (0, s as u32)
    };
    let clipped: u32 = if mag > 32635 {
        32635
    } else {
        mag
    };
    (sign, clipped)
}

/// Mu-law encode one 16-bit sample.
pub fn linear_to_ulaw(sample: i16) -> (r: u8)
    ensures
        r == ulaw_byte(sample),
{
    let (sign, clipped) = sign_and_magnitude(sample);
    let biased: u32 = clipped + 132;
    let (e, mant) = compand_split(biased);
    let code: u32 = 255 - (sign + 16 * e + mant);
    code as u8
}

/// A-law encode one 16-bit sample.
pub fn linear_to_alaw(sample: i16) -> (r: u8)
    ensures
        r == alaw_byte(sample),
{
    let (sign, clipped) = sign_and_magnitude(sample);
    let (e, mant) = compand_split(clipped);
    let base: u32 = sign + 16 * e + mant;
    (base as u8) ^ 0x55
}

/// The linear sample a mu-law byte decodes to.
pub open spec fn ulaw_to_linear_spec(b: u8) -> i16 {
    let u = 255 - b as int;
    let e = (u / 16) % 8;
    let mant = u % 16;
    let m = (8 * mant + 132) * (compand_divisor(e) / 8) - 132;
    if u >= 128 {
        (-m) as i16
    } else {
        m as i16
    }
}

/// Mu-law decode one byte.
pub fn ulaw_to_linear(b: u8) -> (r: i16)
    ensures
        r == ulaw_to_linear_spec(b),
{
    let u: u32 = 255 - b as u32;
    let e: u32 = (u / 16) % 8;
    let mant: u32 = u % 16;
    let scale: u32 = if e == 0 {
        1
    } else if e == 1 {
        2
    } else if e == 2 {
        4
    } else if e == 3 {
        8
    } else if e == 4 {
        16
    } else if e == 5 {
        32
    } else if e == 6 {
        64
    } else {
        128
    };
    assert(scale == compand_divisor(e as int) / 8);
    assert(mant <= 15 && 1 <= scale <= 128);
    assert(132 <= (8 * mant + 132) * scale <= 32256) by (nonlinear_arith)
        requires
            mant <= 15 && 1 <= scale <= 128,
    ;
    let m: u32 = (8 * mant + 132) * scale - 132;
    if u >= 128 {
        -(m as i32) as i16
    } else {
        m as i32 as i16
    }
}

/// The linear sample an A-law byte decodes to: the midpoint of the
/// quantisation cell the encoder put the magnitude in.
pub open spec fn alaw_to_linear_spec(b: u8) -> i16 {
    let u = (b ^ 0x55u8) as int;
    let e = (u / 16) % 8;
    let mant = u % 16;
    let div = compand_divisor(e);
    let m = mant * div + div / 2;
    if u >= 128 {
        (-m) as i16
    } else {
        m as i16
    }
}

/// A-law decode one byte.
pub fn alaw_to_linear(b: u8) -> (r: i16)
    ensures
        r == alaw_to_linear_spec(b),
{
    let u: u32 = (b ^ 0x55) as u32;
    let e: u32 = (u / 16) % 8;
    let mant: u32 = u % 16;
    let div: u32 = if e == 0 {
        8
    } else if e == 1 {
        16
    } else if e == 2 {
        32
    } else if e == 3 {
        64
    } else if e == 4 {
        128
    } else if e == 5 {
        256
    } else if e == 6 {
        512
    } else {
        1024
    };
    assert(div == compand_divisor(e as int));
    assert(mant <= 15 && div <= 1024);
    assert(mant * div <= 15360) by (nonlinear_arith)
        requires
            mant <= 15 && div <= 1024,
    ;
    let m: u32 = mant * div + div / 2;
    if u >= 128 {
        -(m as i32) as i16
    } else {
        m as i32 as i16
    }
}

/// Truncating average of two samples, rounding toward zero.
pub open spec fn avg2_spec(a: i16, b: i16) -> i16 {
    let t = a as int + b as int;
    if t >= 0 {
        (t / 2) as i16
    } else {
        (-((-t) / 2)) as i16
    }
}

/// Average two samples, rounding toward zero.
pub fn avg2(a: i16, b: i16) -> (r: i16)
    ensures
        r == avg2_spec(a, b),
{
    let t: i32 = a as i32 + b as i32;
    if t >= 0 {
        ((t as u32) / 2) as i32 as i16
    } else {
        let h: u32 = ((-t) as u32) / 2;
        (-(h as i32)) as i16
    }
}

/// The mu-law encoding of a whole frame: one byte per sample.
pub open spec fn pcmu_encoded(s: Seq<i16>) -> Seq<u8> {
    Seq::new(s.len(), |i: int| ulaw_byte(s[i]))
}

/// The A-law encoding of a whole frame: one byte per sample.
pub open spec fn pcma_encoded(s: Seq<i16>) -> Seq<u8> {
    Seq::new(s.len(), |i: int| alaw_byte(s[i]))
}

/// The G.722 encoding of a whole frame: each sample pair is averaged and
/// companded to one byte; a trailing odd sample is companded alone.
pub open spec fn g722_encoded(s: Seq<i16>) -> Seq<u8> {
    Seq::new((s.len() + 1) / 2, |i: int|
        if 2 * i + 1 < s.len() {
            ulaw_byte(avg2_spec(s[2 * i], s[2 * i + 1]))
        } else {
            ulaw_byte(s[2 * i])
        })
}

/// The low byte of a sample's little-endian image.
pub open spec fn sample_lo(s: i16) -> u8 {
    (unsigned_image(s) % 256) as u8
}

/// The high byte of a sample's little-endian image.
pub open spec fn sample_hi(s: i16) -> u8 {
    (unsigned_image(s) / 256) as u8
}

/// The two's-complement image of a sample in `0 .. 65536`.
pub open spec fn unsigned_image(s: i16) -> int {
    if s < 0 {
        s as int + 65536
    } else {
        s as int
    }
}

/// The sample whose two's-complement image is the given little-endian pair.
pub open spec fn sample_from_le(lo: u8, hi: u8) -> i16 {
    let v = lo as int + 256 * (hi as int);
    if v >= 32768 {
        (v - 65536) as i16
    } else {
        v as i16
    }
}

/// Little-endian bytes of a whole frame: two bytes per sample.
pub open spec fn le_bytes(s: Seq<i16>) -> Seq<u8> {
    Seq::new(2 * s.len(), |i: int|
        if i % 2 == 0 {
            sample_lo(s[i / 2])
        } else {
            sample_hi(s[i / 2])
        })
}

/// The samples read back from little-endian byte pairs.
pub open spec fn le_samples(b: Seq<u8>) -> Seq<i16> {
    Seq::new(b.len() / 2, |i: int| sample_from_le(b[2 * i], b[2 * i + 1]))
}

/// A little-endian pair decodes to the sample it was written from.
pub proof fn lemma_le_round_trip_sample(s: i16)
    ensures
        sample_from_le(sample_lo(s), sample_hi(s)) == s,
{
}

/// Mu-law encode a whole frame (the PCMU payload).
pub fn encode_pcmu(samples: &Vec<i16>) -> (r: Result<Vec<u8>, MediaError>)
    ensures
        r matches Ok(v) && v@ == pcmu_encoded(samples@),
{
    let mut encoded: Vec<u8> = Vec::new();
    let mut i: usize = 0;
    while i < samples.len()
        invariant
            i <= samples.len(),
            encoded@.len() == i,
            forall|j: int| 0 <= j < i ==> encoded@[j] == ulaw_byte(samples@[j]),
        decreases samples.len() - i,
    {
        encoded.push(linear_to_ulaw(samples[i]));
        i = i + 1;
    }
    assert(encoded@ =~= pcmu_encoded(samples@));
    Ok(encoded)
}

/// A-law encode a whole frame (the PCMA payload).
pub fn encode_pcma(samples: &Vec<i16>) -> (r: Result<Vec<u8>, MediaError>)
    ensures
        r matches Ok(v) && v@ == pcma_encoded(samples@),
{
    let mut encoded: Vec<u8> = Vec::new();
    let mut i: usize = 0;
    while i < samples.len()
        invariant
            i <= samples.len(),
            encoded@.len() == i,
            forall|j: int| 0 <= j < i ==> encoded@[j] == alaw_byte(samples@[j]),
        decreases samples.len() - i,
    {
        encoded.push(linear_to_alaw(samples[i]));
        i = i + 1;
    }
    assert(encoded@ =~= pcma_encoded(samples@));
    Ok(encoded)
}

/// G.722 encode a whole frame: average each sample pair, compand the average.
pub fn encode_g722(samples: &Vec<i16>) -> (r: Result<Vec<u8>, MediaError>)
    ensures
        r matches Ok(v) && v@ == g722_encoded(samples@),
{
    let mut encoded: Vec<u8> = Vec::new();
    let mut i: usize = 0;
    while i + 1 < samples.len()
        invariant
            i % 2 == 0,
            i <= samples.len() || i == samples.len() + 1,
            i + 1 >= samples.len() || i + 1 < samples.len(),
            encoded@.len() == i / 2,
            i <= samples.len() + 1,
            forall|j: int| 0 <= j < i / 2 ==> encoded@[j] == g722_encoded(samples@)[j],
        decreases samples.len() - i,
    {
        let byte = linear_to_ulaw(avg2(samples[i], samples[i + 1]));
        assert(g722_encoded(samples@)[i as int / 2] == byte);
        encoded.push(byte);
        i = i + 2;
    }
    if i < samples.len() {
        let byte = linear_to_ulaw(samples[i]);
        assert(g722_encoded(samples@)[i as int / 2] == byte);
        encoded.push(byte);
        i = i + 1;
    }
    assert(encoded@ =~= g722_encoded(samples@));
    Ok(encoded)
}

/// Write a whole frame as little-endian byte pairs.
pub fn samples_to_bytes(samples: &Vec<i16>) -> (r: Vec<u8>)
    ensures
        r@ == le_bytes(samples@),
{
    let mut bytes: Vec<u8> = Vec::new();
    let mut i: usize = 0;
    while i < samples.len()
        invariant
            i <= samples.len(),
            bytes@.len() == 2 * i,
            forall|j: int| 0 <= j < 2 * i ==> bytes@[j] == le_bytes(samples@)[j],
        decreases samples.len() - i,
    {
        let s = samples[i];
        let u: u16 = if s >= 0 {
            s as u16
        } else {
            ((s as i32) + 65536) as u16
        };
        assert(u as int == unsigned_image(s));
        bytes.push((u % 256) as u8);
        bytes.push((u / 256) as u8);
        i = i + 1;
    }
    assert(bytes@ =~= le_bytes(samples@));
    bytes
}

/// Read a whole frame back from little-endian byte pairs; the byte count
/// must be even.
pub fn bytes_to_samples(audio_data: &Vec<u8>) -> (r: Result<Vec<i16>, MediaError>)
    ensures
        audio_data@.len() % 2 == 0 ==> (r matches Ok(v) && v@ == le_samples(audio_data@)),
        audio_data@.len() % 2 != 0 ==> (r matches Err(e) && e == MediaError::InvalidAudioData),
{
    if audio_data.len() % 2 != 0 {
        return Err(MediaError::InvalidAudioData);
    }
    let mut samples: Vec<i16> = Vec::new();
    let mut i: usize = 0;
    while i + 1 < audio_data.len()
        invariant
            audio_data@.len() % 2 == 0,
            i % 2 == 0,
            i <= audio_data.len(),
            samples@.len() == i / 2,
            forall|j: int| 0 <= j < i / 2 ==> samples@[j] == le_samples(audio_data@)[j],
        decreases audio_data.len() - i,
    {
        let lo = audio_data[i];
        let hi = audio_data[i + 1];
        let v: u16 = lo as u16 + 256 * (hi as u16);
        let s: i16 = if v >= 32768 {
            ((v as i32) - 65536) as i16
        } else {
            v as i16
        };
        assert(s == sample_from_le(lo, hi));
        samples.push(s);
        i = i + 2;
    }
    assert(samples@ =~= le_samples(audio_data@));
    Ok(samples)
}

/// G.729 passthrough encode: the samples' little-endian bytes.
pub fn encode_g729(samples: &Vec<i16>) -> (r: Result<Vec<u8>, MediaError>)
    ensures
        r matches Ok(v) && v@ == le_bytes(samples@),
{
    Ok(samples_to_bytes(samples))
}

/// Mu-law decode a whole PCMU payload: one sample per byte.
pub fn decode_pcmu(payload: &Vec<u8>) -> (r: Vec<i16>)
    ensures
        r@.len() == payload@.len(),
        forall|j: int| 0 <= j < r@.len() ==> r@[j] == ulaw_to_linear_spec(payload@[j]),
{
    let mut samples: Vec<i16> = Vec::new();
    let mut i: usize = 0;
    while i < payload.len()
        invariant
            i <= payload.len(),
            samples@.len() == i,
            forall|j: int| 0 <= j < i ==> samples@[j] == ulaw_to_linear_spec(payload@[j]),
        decreases payload.len() - i,
    {
        samples.push(ulaw_to_linear(payload[i]));
        i = i + 1;
    }
    samples
}

/// A-law decode a whole PCMA payload: one sample per byte.
pub fn decode_pcma(payload: &Vec<u8>) -> (r: Vec<i16>)
    ensures
        r@.len() == payload@.len(),
        forall|j: int| 0 <= j < r@.len() ==> r@[j] == alaw_to_linear_spec(payload@[j]),
{
    let mut samples: Vec<i16> = Vec::new();
    let mut i: usize = 0;
    while i < payload.len()
        invariant
            i <= payload.len(),
            samples@.len() == i,
            forall|j: int| 0 <= j < i ==> samples@[j] == alaw_to_linear_spec(payload@[j]),
        decreases payload.len() - i,
    {
        samples.push(alaw_to_linear(payload[i]));
        i = i + 1;
    }
    samples
}

/// G.722 decode a whole payload: each byte is companded back to one sample
/// which stands for the pair that was averaged, so it is emitted twice.
pub fn decode_g722(payload: &Vec<u8>) -> (r: Vec<i16>)
    ensures
        r@.len() == 2 * payload@.len(),
        forall|j: int| 0 <= j < r@.len() ==> r@[j] == ulaw_to_linear_spec(payload@[j / 2]),
{
    let mut samples: Vec<i16> = Vec::new();
    let mut i: usize = 0;
    while i < payload.len()
        invariant
            i <= payload.len(),
            samples@.len() == 2 * i,
            forall|j: int| 0 <= j < 2 * i ==> samples@[j] == ulaw_to_linear_spec(payload@[j / 2]),
        decreases payload.len() - i,
    {
        let s = ulaw_to_linear(payload[i]);
        samples.push(s);
        samples.push(s);
        i = i + 1;
    }
    samples
}

/// What decoding an RTP payload yields: payload types 0 (PCMU), 8 (PCMA)
/// and 9 (G.722) decode; anything else, including the dynamic Opus payload
/// in a build without an Opus decoder, is unsupported.
pub open spec fn rtp_decoded(payload_type: u8, payload: Seq<u8>) -> Result<Seq<i16>, MediaError> {
    if payload_type == 0 {
        Ok(Seq::new(payload.len(), |i: int| ulaw_to_linear_spec(payload[i])))
    } else if payload_type == 8 {
        Ok(Seq::new(payload.len(), |i: int| alaw_to_linear_spec(payload[i])))
    } else if payload_type == 9 {
        Ok(Seq::new(2 * payload.len(), |i: int| ulaw_to_linear_spec(payload[i / 2])))
    } else {
        Err(MediaError::UnsupportedCodec(payload_type))
    }
}

/// Decode an RTP payload by its payload-type tag. An unrecognized payload
/// type fails the frame with `UnsupportedCodec` and never terminates the
/// track.
pub fn decode_rtp_payload(payload_type: u8, payload: &Vec<u8>) -> (r: Result<
    Vec<i16>,
    MediaError,
>)
    ensures
        match rtp_decoded(payload_type, payload@) {
            Ok(s) => r matches Ok(v) && v@ == s,
            Err(e) => r matches Err(er) && er == e,
        },
{
    if payload_type == 0 {
        let v = decode_pcmu(payload);
        assert(v@ =~= rtp_decoded(payload_type, payload@)->Ok_0);
        Ok(v)
    } else if payload_type == 8 {
        let v = decode_pcma(payload);
        assert(v@ =~= rtp_decoded(payload_type, payload@)->Ok_0);
        Ok(v)
    } else if payload_type == 9 {
        let v = decode_g722(payload);
        assert(v@ =~= rtp_decoded(payload_type, payload@)->Ok_0);
        Ok(v)
    } else {
        Err(MediaError::UnsupportedCodec(payload_type))
    }
}

/// What the outbound encoder produces for one fixed-size frame of a codec,
/// or `None` for a codec this build cannot encode.
pub open spec fn encode_frame_spec(codec: CodecType, s: Seq<i16>) -> Option<Seq<u8>> {
    match codec {
        CodecType::PCMU => Some(pcmu_encoded(s)),
        CodecType::PCMA => Some(pcma_encoded(s)),
        CodecType::G722 => Some(g722_encoded(s)),
        CodecType::G729 => Some(le_bytes(s)),
        _ => None,
    }
}

/// Encode one fixed-size frame for the given codec; `None` for a codec this
/// build cannot encode.
pub fn encode_frame(codec: CodecType, samples: &Vec<i16>) -> (r: Option<Vec<u8>>)
    ensures
        match encode_frame_spec(codec, samples@) {
            Some(b) => r matches Some(v) && v@ == b,
            None => r is None,
        },
{
    match codec {
        CodecType::PCMU => match encode_pcmu(samples) {
            Ok(v) => Some(v),
            Err(_) => None,
        },
        CodecType::PCMA => match encode_pcma(samples) {
            Ok(v) => Some(v),
            Err(_) => None,
        },
        CodecType::G722 => match encode_g722(samples) {
            Ok(v) => Some(v),
            Err(_) => None,
        },
        CodecType::G729 => match encode_g729(samples) {
            Ok(v) => Some(v),
            Err(_) => None,
        },
        _ => None,
    }
}

/// Mu-law round trip keeps the frame length: decoding an encoded PCMU
/// payload yields exactly as many samples as were encoded.
pub proof fn lemma_pcmu_round_trip_len(s: Seq<i16>)
    ensures
        rtp_decoded(0, pcmu_encoded(s)) matches Ok(d) && d.len() == s.len(),
{
}

/// A-law round trip keeps the frame length: decoding an encoded PCMA
/// payload yields exactly as many samples as were encoded.
pub proof fn lemma_pcma_round_trip_len(s: Seq<i16>)
    ensures
        rtp_decoded(8, pcma_encoded(s)) matches Ok(d) && d.len() == s.len(),
{
}

/// G.722 round trip keeps the frame length for whole sample pairs: a frame
/// of even length encodes to half as many bytes, and decoding yields two
/// samples per byte, so the original count comes back exactly.
pub proof fn lemma_g722_round_trip_len(s: Seq<i16>)
    requires
        s.len() % 2 == 0,
    ensures
        rtp_decoded(9, g722_encoded(s)) matches Ok(d) && d.len() == s.len(),
{
}

/// G.729 passthrough round trip is exact: reading the little-endian bytes
/// back yields the original samples, value for value.
pub proof fn lemma_g729_round_trip(s: Seq<i16>)
    ensures
        le_samples(le_bytes(s)) =~= s,
{
    assert forall|i: int| 0 <= i < s.len() implies le_samples(le_bytes(s))[i] == s[i] by {
        assert(le_bytes(s)[2 * i] == sample_lo(s[i]));
        assert(le_bytes(s)[2 * i + 1] == sample_hi(s[i]));
        lemma_le_round_trip_sample(s[i]);
    }
}

} // verus!
