//! Codec negotiation: the codec table this engine announces, the codec
//! chosen from an offer, and the sample rate each payload type runs at.

use vstd::prelude::*;
use crate::frame::CodecType;

verus! {

/// One codec the engine can announce in a session description.
#[derive(Debug, Clone, Copy, PartialEq, Eq, Structural)]
pub struct CodecParam {
    pub codec: CodecType,
    pub payload_type: u8,
    pub clock_rate: u32,
    pub channels: u16,
}

/// The full codec table this build announces, in preference order.
pub open spec fn full_codec_table() -> Seq<CodecParam> {
    seq![
        CodecParam { codec: CodecType::G722, payload_type: 9, clock_rate: 8000, channels: 1 },
        CodecParam { codec: CodecType::PCMU, payload_type: 0, clock_rate: 16000, channels: 1 },
        CodecParam { codec: CodecType::PCMA, payload_type: 8, clock_rate: 16000, channels: 1 },
        CodecParam {
            codec: CodecType::TelephoneEvent,
            payload_type: 101,
            clock_rate: 8000,
            channels: 1,
        },
    ]
}

/// The table a preference narrows to: without a preference the whole
/// table, with one only its entries for that codec.
pub open spec fn selected_codec_table(prefered: Option<CodecType>) -> Seq<CodecParam> {
    match prefered {
        None => full_codec_table(),
        Some(c) => full_codec_table().filter(|p: CodecParam| p.codec == c),
    }
}

/// The codec parameters registered for negotiation: the whole table, or
/// only the preferred codec's entries when a preference was set.
pub fn media_codec_parameters(prefered: Option<CodecType>) -> (r: Vec<CodecParam>)
    ensures
        r@ == selected_codec_table(prefered),
{
    let g722 = CodecParam { codec: CodecType::G722, payload_type: 9, clock_rate: 8000, channels: 1 };
    let pcmu = CodecParam {
        codec: CodecType::PCMU,
        payload_type: 0,
        clock_rate: 16000,
        channels: 1,
    };
    let pcma = CodecParam {
        codec: CodecType::PCMA,
        payload_type: 8,
        clock_rate: 16000,
        channels: 1,
    };
    let te = CodecParam {
        codec: CodecType::TelephoneEvent,
        payload_type: 101,
        clock_rate: 8000,
        channels: 1,
    };
    let mut out: Vec<CodecParam> = Vec::new();
    match prefered {
        None => {
            out.push(g722);
            out.push(pcmu);
            out.push(pcma);
            out.push(te);
            assert(out@ =~= selected_codec_table(prefered));
        },
        Some(c) => {
            if c == CodecType::G722 {
                out.push(g722);
            }
            if c == CodecType::PCMU {
                out.push(pcmu);
            }
            if c == CodecType::PCMA {
                out.push(pcma);
            }
            if c == CodecType::TelephoneEvent {
                out.push(te);
            }
            proof {
                reveal_with_fuel(Seq::filter, 6);
                assert(full_codec_table().drop_last() =~= seq![
                    CodecParam {
                        codec: CodecType::G722,
                        payload_type: 9,
                        clock_rate: 8000,
                        channels: 1,
                    },
                    CodecParam {
                        codec: CodecType::PCMU,
                        payload_type: 0,
                        clock_rate: 16000,
                        channels: 1,
                    },
                    CodecParam {
                        codec: CodecType::PCMA,
                        payload_type: 8,
                        clock_rate: 16000,
                        channels: 1,
                    },
                ]);
                assert(out@ =~= selected_codec_table(prefered));
            }
        },
    }
    out
}

/// The audio codec a static payload type names, for codec selection.
pub open spec fn codec_of_payload(pt: u8) -> Option<CodecType> {
    if pt == 0 {
        Some(CodecType::PCMU)
    } else if pt == 8 {
        Some(CodecType::PCMA)
    } else if pt == 9 {
        Some(CodecType::G722)
    } else if pt == 18 {
        Some(CodecType::G729)
    } else if pt == 111 {
        Some(CodecType::Opus)
    } else {
        None
    }
}

/// The first audio codec an offer's payload types name, if any.
pub open spec fn first_offered_codec(offered: Seq<u8>) -> Option<CodecType>
    decreases offered.len(),
{
    if offered.len() == 0 {
        None
    } else {
        match codec_of_payload(offered[0]) {
            Some(c) => Some(c),
            None => first_offered_codec(offered.drop_first()),
        }
    }
}

/// The first codec an offer's payload types name.
fn first_codec_in_offer(offered: &Vec<u8>) -> (r: Option<CodecType>)
    ensures
        r == first_offered_codec(offered@),
{
    let mut i: usize = 0;
    proof {
        assert(offered@.skip(0) =~= offered@);
    }
    while i < offered.len()
        invariant
            i <= offered@.len(),
            first_offered_codec(offered@) == first_offered_codec(offered@.skip(i as int)),
        decreases offered@.len() - i,
    {
        proof {
            assert(offered@.skip(i as int)[0] == offered@[i as int]);
            assert(offered@.skip(i as int).drop_first() =~= offered@.skip(i as int + 1));
        }
        let pt = offered[i];
        if pt == 0 {
            return Some(CodecType::PCMU);
        } else if pt == 8 {
            return Some(CodecType::PCMA);
        } else if pt == 9 {
            return Some(CodecType::G722);
        } else if pt == 18 {
            return Some(CodecType::G729);
        } else if pt == 111 {
            return Some(CodecType::Opus);
        }
        i = i + 1;
    }
    None
}

/// Select exactly one audio codec for a session: the configured preference
/// if one was set, else the first codec the offer names, else G.722 so that
/// a syntactically valid answer can still be produced.
pub fn select_codec(offered: &Vec<u8>, prefered: Option<CodecType>) -> (r: CodecType)
    ensures
        match prefered {
            Some(c) => r == c,
            None => match first_offered_codec(offered@) {
                Some(c) => r == c,
                None => r == CodecType::G722,
            },
        },
{
    match prefered {
        Some(c) => c,
        None => match first_codec_in_offer(offered) {
            Some(c) => c,
            None => CodecType::G722,
        },
    }
}

/// The sample rate inbound audio runs at, by its payload type: G.722
/// decodes to wideband, Opus to its full clock, everything else to
/// narrowband.
pub fn track_samplerate_of_payload(payload_type: u8) -> (r: u32)
    ensures
        r == if payload_type == 9 {
            16000int
        } else if payload_type == 111 {
            48000int
        } else {
            8000int
        },
{
    if payload_type == 9 {
        16000
    } else if payload_type == 111 {
        48000
    } else {
        8000
    }
}

} // verus!
