//! The Deepgram speech-recognition integration: the listen-URL contract,
//! and the decisions of the receive loop — which session events each
//! structured record publishes, and when the loop must stop.
//!
//! The WebSocket itself, JSON parsing and task plumbing live with the host;
//! everything here is a function from parsed records to events and actions.

use vstd::prelude::*;
use vstd::string::StrSliceExecFns;
use vstd::string::StringExecFns;
use crate::errors::MediaError;
use crate::events::SessionEvent;
use crate::frame::TrackId;
use crate::text::{decimal_digits, is_blank, is_blank_text, u64_to_string};
use crate::transcription::TranscriptionOption;

verus! {

/// What urlencoding::encode returns for a string; the result depends on the
/// characters alone.
pub uninterp spec fn url_encoded(s: Seq<char>) -> Seq<char>;

/// Relies on urlencoding::encode: percent-encodes every byte except ASCII
/// alphanumerics and `-`, `_`, `.`, `~`; an empty input stays empty.
#[verifier::external_body]
fn url_encode(s: &str) -> (r: String)
    ensures
        r@ == url_encoded(s@),
        s@.len() == 0 ==> r@.len() == 0,
{
    urlencoding::encode(s).into_owned()
}

/// One recognition hypothesis of a record.
#[derive(Debug, Clone)]
pub struct DgAlternative {
    pub transcript: String,
    /// How many words the hypothesis timed.
    pub words_count: u64,
}

/// The channel of a results record.
#[derive(Debug, Clone)]
pub struct DgChannel {
    pub alternatives: Vec<DgAlternative>,
}

/// A structured record of the recognition stream, with times in
/// milliseconds.
#[derive(Debug, Clone)]
pub enum DgEvent {
    Results {
        is_final: Option<bool>,
        start_ms: Option<u64>,
        duration_ms: Option<u64>,
        speech_final: Option<bool>,
        channel: DgChannel,
    },
    Metadata,
    SpeechStarted { timestamp_ms: Option<u64> },
    UtteranceEnd { timestamp_ms: Option<u64> },
    CloseStream,
    Error { description: String, message: Option<String>, variant: Option<String> },
    Other,
}

/// What the receive loop does after one record.
#[derive(Debug)]
pub struct DgOutcome {
    /// The session events to publish, in order.
    pub events: Vec<SessionEvent>,
    /// Whether the loop must stop: the stream was closed or failed.
    pub disconnect: bool,
}

/// A missing number read as zero.
pub open spec fn opt0(o: Option<u64>) -> int {
    match o {
        Some(v) => v as int,
        None => 0int,
    }
}

/// Whether a results record publishes anything: it must carry a hypothesis
/// whose transcript is not blank.
pub open spec fn dg_results_publish(channel: &DgChannel) -> bool {
    channel.alternatives.len() > 0 && !is_blank(channel.alternatives[0].transcript@)
}

/// The structured payload of a recognition measurement: how many words the
/// published hypothesis timed.
pub open spec fn metrics_data_text(words_count: u64) -> Seq<char> {
    "{\"words_count\":"@ + decimal_digits(words_count as int) + "}"@
}

/// Whether a results record counts as final: the record or the speech is
/// marked final.
pub open spec fn dg_is_final(is_final: Option<bool>, speech_final: Option<bool>) -> bool {
    is_final == Some(true) || speech_final == Some(true)
}

/// Decide what one record of the recognition stream publishes and whether
/// the loop goes on.
///
/// A results record with a non-blank first hypothesis publishes a final or
/// partial transcript — final when the record or the speech is marked final
/// — whose window starts at the stream's start plus the record's offset and
/// lasts the record's duration, followed by a latency measurement keyed by
/// finality and carrying the hypothesis's word count. A blank or empty
/// record publishes nothing. An error record
/// publishes the failure and stops the loop; a close record stops it
/// silently; metadata and speech markers pass.
pub fn handle_deepgram_event(
    track_id: &TrackId,
    begin_time: u64,
    now: u64,
    ev: &DgEvent,
) -> (r: DgOutcome)
    requires
        now >= begin_time,
        now - begin_time <= u32::MAX,
        (ev matches DgEvent::Results { start_ms, duration_ms, .. } ==> begin_time + opt0(*start_ms)
            + opt0(*duration_ms) <= u64::MAX),
    ensures
        match ev {
            DgEvent::Results { is_final, start_ms, duration_ms, speech_final, channel } => {
                &&& r.disconnect == false
                &&& if dg_results_publish(channel) {
                    let start = begin_time + opt0(*start_ms);
                    let end = start + opt0(*duration_ms);
                    let fin = dg_is_final(*is_final, *speech_final);
                    &&& r.events@.len() == 2
                    &&& if fin {
                        r.events@[0] matches SessionEvent::AsrFinal {
                            track_id: t,
                            index,
                            text,
                            timestamp,
                            start_time,
                            end_time,
                        } && t == track_id && index == 0 && text
                            == channel.alternatives[0].transcript && timestamp == now && start_time
                            == Some(start as u64) && end_time == Some(end as u64)
                    } else {
                        r.events@[0] matches SessionEvent::AsrDelta {
                            track_id: t,
                            index,
                            text,
                            timestamp,
                            start_time,
                            end_time,
                        } && t == track_id && index == 0 && text
                            == channel.alternatives[0].transcript && timestamp == now && start_time
                            == Some(start as u64) && end_time == Some(end as u64)
                    }
                    &&& (r.events@[1] matches SessionEvent::Metrics {
                        timestamp,
                        key,
                        data,
                        duration,
                    } && timestamp == now && key@ == (if fin {
                        "completed.asr.deepgram"@
                    } else {
                        "ttfb.asr.deepgram"@
                    }) && duration == now - begin_time && data@ == metrics_data_text(
                        channel.alternatives[0].words_count,
                    ))
                } else {
                    r.events@.len() == 0
                }
            },
            DgEvent::Error { description, .. } => {
                &&& r.disconnect == true
                &&& r.events@.len() == 1
                &&& (r.events@[0] matches SessionEvent::Error {
                    track_id: t,
                    timestamp,
                    sender,
                    error,
                    code,
                } && t == track_id && timestamp == now && sender@ == "DeepgramAsrClient"@ && error@
                    == "Deepgram error: "@ + description@ && code == Some(400u32))
            },
            DgEvent::CloseStream => r.disconnect == true && r.events@.len() == 0,
            _ => r.disconnect == false && r.events@.len() == 0,
        },
{
    match ev {
        DgEvent::Results { is_final, start_ms, duration_ms, speech_final, channel } => {
            let mut events: Vec<SessionEvent> = Vec::new();
            if channel.alternatives.len() == 0 {
                return DgOutcome { events, disconnect: false };
            }
            let transcript = &channel.alternatives[0].transcript;
            if is_blank_text(transcript.as_str()) {
                return DgOutcome { events, disconnect: false };
            }
            let s_start: u64 = match start_ms {
                Some(v) => *v,
                None => 0,
            };
            let s_dur: u64 = match duration_ms {
                Some(v) => *v,
                None => 0,
            };
            let sentence_start_time: u64 = begin_time + s_start;
            let sentence_end_time: u64 = sentence_start_time + s_dur;
            let fin = *is_final == Some(true) || *speech_final == Some(true);
            let event = if fin {
                SessionEvent::AsrFinal {
                    track_id: track_id.clone(),
                    index: 0,
                    text: transcript.clone(),
                    timestamp: now,
                    start_time: Some(sentence_start_time),
                    end_time: Some(sentence_end_time),
                }
            } else {
                SessionEvent::AsrDelta {
                    track_id: track_id.clone(),
                    index: 0,
                    text: transcript.clone(),
                    timestamp: now,
                    start_time: Some(sentence_start_time),
                    end_time: Some(sentence_end_time),
                }
            };
            events.push(event);
            let key: String = if fin {
                "completed.asr.deepgram".to_owned()
            } else {
                "ttfb.asr.deepgram".to_owned()
            };
            let mut data: String = "{\"words_count\":".to_owned();
            data.append(u64_to_string(channel.alternatives[0].words_count).as_str());
            data.append("}");
            proof {
                assert(data@ =~= metrics_data_text(channel.alternatives@[0].words_count));
            }
            events.push(
                SessionEvent::Metrics {
                    timestamp: now,
                    key,
                    data,
                    duration: (now - begin_time) as u32,
                },
            );
            DgOutcome { events, disconnect: false }
        },
        DgEvent::Error { description, .. } => {
            let mut error: String = "Deepgram error: ".to_owned();
            error.append(description.as_str());
            let mut events: Vec<SessionEvent> = Vec::new();
            events.push(
                SessionEvent::Error {
                    track_id: track_id.clone(),
                    timestamp: now,
                    sender: "DeepgramAsrClient".to_owned(),
                    error,
                    code: Some(400),
                },
            );
            DgOutcome { events, disconnect: true }
        },
        DgEvent::CloseStream => DgOutcome { events: Vec::new(), disconnect: true },
        _ => DgOutcome { events: Vec::new(), disconnect: false },
    }
}

/// The listen URL a transcription option resolves to: the endpoint with the
/// model, language and audio parameters as its query, the model and
/// language percent-encoded.
pub open spec fn listen_url_spec(
    base: Seq<char>,
    model: Seq<char>,
    language: Seq<char>,
    sample_rate: u32,
) -> Seq<char> {
    base + "?model="@ + url_encoded(model) + "&language="@ + url_encoded(language)
        + "&encoding=linear16&sample_rate="@ + decimal_digits(sample_rate as int)
        + "&channels=1&interim_results=true&punctuate=true&smart_format=true&endpointing=1000&vad_events=true"@
}

/// The model a transcription option asks for, defaulting to nova.
pub open spec fn dg_model_spec(option: &TranscriptionOption) -> Seq<char> {
    match option.model_type {
        Some(m) => m@,
        None => "nova"@,
    }
}

/// The language a transcription option asks for, defaulting to English.
pub open spec fn dg_language_spec(option: &TranscriptionOption) -> Seq<char> {
    match option.language {
        Some(l) => l@,
        None => "en"@,
    }
}

/// The sample rate a transcription option asks for, defaulting to 16 kHz.
pub open spec fn dg_sample_rate_spec(option: &TranscriptionOption) -> u32 {
    match option.samplerate {
        Some(sr) => sr,
        None => 16000u32,
    }
}

/// The endpoint a transcription option connects to, defaulting to the
/// public listen endpoint.
pub open spec fn dg_base_spec(option: &TranscriptionOption) -> Seq<char> {
    match option.endpoint {
        Some(e) => e@,
        None => "wss://api.deepgram.com/v1/listen"@,
    }
}

/// Build the WebSocket URL for a recognition session.
///
/// Succeeds exactly when the option carries a non-blank API key; a missing
/// key and a blank key each fail with their own configuration error. On
/// success the URL is the resolved endpoint carrying the resolved model,
/// language and sample rate, with linear PCM, interim results, punctuation,
/// smart formatting, endpointing and voice-activity events fixed.
pub fn build_listen_url(option: &TranscriptionOption) -> (r: Result<String, MediaError>)
    ensures
        option.secret_key is None ==> (r matches Err(e) && (
        e matches MediaError::InvalidConfiguration(m) && m@ == "No DEEPGRAM_API_KEY provided"@)),
        (option.secret_key matches Some(k) && is_blank(k@)) ==> (r matches Err(e) && (
        e matches MediaError::InvalidConfiguration(m) && m@ == "DEEPGRAM_API_KEY is empty"@)),
        (option.secret_key matches Some(k) && !is_blank(k@)) ==> (r matches Ok(u) && u@
            == listen_url_spec(
            dg_base_spec(option),
            dg_model_spec(option),
            dg_language_spec(option),
            dg_sample_rate_spec(option),
        )),
{
    let api_key = match &option.secret_key {
        Some(k) => k,
        None => {
            return Err(
                MediaError::InvalidConfiguration("No DEEPGRAM_API_KEY provided".to_owned()),
            );
        },
    };
    if is_blank_text(api_key.as_str()) {
        return Err(MediaError::InvalidConfiguration("DEEPGRAM_API_KEY is empty".to_owned()));
    }
    let model: String = match &option.model_type {
        Some(m) => m.clone(),
        None => "nova".to_owned(),
    };
    let language: String = match &option.language {
        Some(l) => l.clone(),
        None => "en".to_owned(),
    };
    let sample_rate: u32 = match option.samplerate {
        Some(sr) => sr,
        None => 16000,
    };
    let mut url: String = match &option.endpoint {
        Some(e) => e.clone(),
        None => "wss://api.deepgram.com/v1/listen".to_owned(),
    };
    url.append("?model=");
    url.append(url_encode(model.as_str()).as_str());
    url.append("&language=");
    url.append(url_encode(language.as_str()).as_str());
    url.append("&encoding=linear16&sample_rate=");
    url.append(u64_to_string(sample_rate as u64).as_str());
    url.append(
        "&channels=1&interim_results=true&punctuate=true&smart_format=true&endpointing=1000&vad_events=true",
    );
    Ok(url)
}

/// The connection plan a recognition session starts from: the resolved
/// listen URL, whether audio must be held until the call is answered, and
/// the track the transcripts belong to.
#[derive(Debug)]
pub struct DeepgramAsrPlan {
    pub listen_url: String,
    pub wait_for_answer: bool,
    pub track_id: Option<String>,
}

/// Builds the connection plan for one recognition session from a
/// transcription option.
#[derive(Debug)]
pub struct DeepgramAsrClientBuilder {
    pub option: TranscriptionOption,
    pub track_id: Option<String>,
}

impl DeepgramAsrClientBuilder {
    /// Start from an option.
    pub fn new(option: TranscriptionOption) -> (r: DeepgramAsrClientBuilder)
        ensures
            r.option == option,
            r.track_id is None,
    {
        DeepgramAsrClientBuilder { option, track_id: None }
    }

    /// Set the API key.
    pub fn with_secret_key(self, secret_key: String) -> (r: DeepgramAsrClientBuilder)
        ensures
            r.option.secret_key == Some(secret_key),
            r.option.model_type == self.option.model_type,
            r.option.language == self.option.language,
            r.option.samplerate == self.option.samplerate,
            r.option.endpoint == self.option.endpoint,
            r.option.start_when_answer == self.option.start_when_answer,
            r.track_id == self.track_id,
    {
        let mut option = self.option;
        option.secret_key = Some(secret_key);
        DeepgramAsrClientBuilder { option, track_id: self.track_id }
    }

    /// Set the recognition model.
    pub fn with_model_type(self, model_type: String) -> (r: DeepgramAsrClientBuilder)
        ensures
            r.option.model_type == Some(model_type),
            r.option.secret_key == self.option.secret_key,
            r.option.language == self.option.language,
            r.option.samplerate == self.option.samplerate,
            r.option.endpoint == self.option.endpoint,
            r.option.start_when_answer == self.option.start_when_answer,
            r.track_id == self.track_id,
    {
        let mut option = self.option;
        option.model_type = Some(model_type);
        DeepgramAsrClientBuilder { option, track_id: self.track_id }
    }

    /// Set the track the transcripts belong to.
    pub fn with_track_id(self, track_id: String) -> (r: DeepgramAsrClientBuilder)
        ensures
            r.track_id == Some(track_id),
            r.option == self.option,
    {
        DeepgramAsrClientBuilder { option: self.option, track_id: Some(track_id) }
    }

    /// Resolve the plan: the listen URL from the option, and whether audio
    /// is held until the call is answered.
    pub fn build(self) -> (r: Result<DeepgramAsrPlan, MediaError>)
        ensures
            (r is Ok) == (self.option.secret_key matches Some(k) && !is_blank(k@)),
            r matches Ok(plan) ==> plan.listen_url@ == listen_url_spec(
                dg_base_spec(&self.option),
                dg_model_spec(&self.option),
                dg_language_spec(&self.option),
                dg_sample_rate_spec(&self.option),
            ) && plan.wait_for_answer == (self.option.start_when_answer == Some(true))
                && plan.track_id == self.track_id,
    {
        let listen_url = build_listen_url(&self.option)?;
        let wait_for_answer = match self.option.start_when_answer {
            Some(true) => true,
            _ => false,
        };
        Ok(DeepgramAsrPlan { listen_url, wait_for_answer, track_id: self.track_id })
    }
}

} // verus!
