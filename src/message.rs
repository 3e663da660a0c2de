//! Messages bound for the client, and how the single writer frames them.
use vstd::prelude::*;
use vstd::string::StringExecFns;

verus! {

/// The JSON string literal, quotes included, that serde_json writes for a text.
pub uninterp spec fn json_quoted(s: Seq<char>) -> Seq<char>;

/// Relies on `serde_json::to_string` on a `str`: the quoted and escaped JSON
/// string literal of `s`. Serializing a `str` into memory does not fail.
#[verifier::external_body]
fn json_quote(s: &str) -> (r: String)
    ensures
        r@ == json_quoted(s@),
{
    match serde_json::to_string(s) {
        Ok(q) => q,
        Err(_) => String::new(),
    }
}

/// Relies on `chrono::Utc::now` and `DateTime::to_rfc3339`: the current time
/// as RFC 3339 text. Nothing is known of which time it is.
#[verifier::external_body]
fn now_rfc3339() -> (r: String) {
    chrono::Utc::now().to_rfc3339()
}

/// A message queued for the client.
#[derive(Clone, Debug, PartialEq, Eq)]
pub enum OutboundMessage {
    /// A progress or error report of one stage of the pipeline.
    Telemetry { phase: String, status: String, detail: String, timestamp: String },
    /// A caption, sent as soon as the dialog produces it.
    Subtitle { text: String },
    /// Synthesized audio, forwarded verbatim.
    Audio { bytes: Vec<u8> },
}

/// One write on the client connection.
#[derive(Clone, Debug, PartialEq, Eq)]
pub enum Frame {
    Text(String),
    Binary(Vec<u8>),
}

pub open spec fn telemetry_json(
    phase: Seq<char>,
    status: Seq<char>,
    detail: Seq<char>,
    timestamp: Seq<char>,
) -> Seq<char> {
    "{\"type\":\"telemetry\",\"phase\":"@ + json_quoted(phase) + ",\"status\":"@ + json_quoted(
        status,
    ) + ",\"detail\":"@ + json_quoted(detail) + ",\"timestamp\":"@ + json_quoted(timestamp)
        + "}"@
}

pub open spec fn subtitle_json(text: Seq<char>) -> Seq<char> {
    "{\"type\":\"subtitle\",\"text\":"@ + json_quoted(text) + "}"@
}

/// `f` is the connection write for `m`: a discriminated JSON text for
/// telemetry and subtitles, the bytes themselves for audio.
pub open spec fn encodes(m: OutboundMessage, f: Frame) -> bool {
    match m {
        OutboundMessage::Telemetry { phase, status, detail, timestamp } => f is Text
            && f->Text_0@ == telemetry_json(phase@, status@, detail@, timestamp@),
        OutboundMessage::Subtitle { text } => f is Text && f->Text_0@ == subtitle_json(text@),
        OutboundMessage::Audio { bytes } => f is Binary && f->Binary_0@ == bytes@,
    }
}

/// `m` is a telemetry report with these phase, status and detail.
pub open spec fn is_telemetry(
    m: OutboundMessage,
    phase: Seq<char>,
    status: Seq<char>,
    detail: Seq<char>,
) -> bool {
    &&& m is Telemetry
    &&& m->Telemetry_phase@ == phase
    &&& m->Telemetry_status@ == status
    &&& m->Telemetry_detail@ == detail
}

/// The audio payloads among `msgs`, in order.
pub open spec fn audio_of(msgs: Seq<OutboundMessage>) -> Seq<Seq<u8>>
    decreases msgs.len(),
{
    if msgs.len() == 0 {
        Seq::empty()
    } else {
        let rest = audio_of(msgs.drop_last());
        match msgs.last() {
            OutboundMessage::Audio { bytes } => rest.push(bytes@),
            _ => rest,
        }
    }
}

/// A lone message carries audio exactly when it is an audio message.
pub proof fn lemma_audio_of_single(m: OutboundMessage)
    ensures
        audio_of(seq![m]) == (match m {
            OutboundMessage::Audio { bytes } => seq![bytes@],
            _ => Seq::<Seq<u8>>::empty(),
        }),
{
    let one = seq![m];
    assert(one.drop_last() =~= Seq::<OutboundMessage>::empty());
    assert(audio_of(one.drop_last()) == Seq::<Seq<u8>>::empty());
    assert(one.last() == m);
    match m {
        OutboundMessage::Audio { bytes } => {
            assert(Seq::<Seq<u8>>::empty().push(bytes@) =~= seq![bytes@]);
        },
        _ => {},
    }
}

impl OutboundMessage {
    /// A telemetry report stamped with the current time.
    pub fn telemetry(phase: &str, status: &str, detail: &str) -> (r: OutboundMessage)
        ensures
            is_telemetry(r, phase@, status@, detail@),
    {
        OutboundMessage::Telemetry {
            phase: String::from_str(phase),
            status: String::from_str(status),
            detail: String::from_str(detail),
            timestamp: now_rfc3339(),
        }
    }

    pub fn subtitle(text: &str) -> (r: OutboundMessage)
        ensures
            r is Subtitle,
            r->Subtitle_text@ == text@,
    {
        OutboundMessage::Subtitle { text: String::from_str(text) }
    }

    pub fn audio(bytes: Vec<u8>) -> (r: OutboundMessage)
        ensures
            r is Audio,
            r->Audio_bytes@ == bytes@,
    {
        OutboundMessage::Audio { bytes }
    }

    /// The connection write for this message.
    pub fn encode(&self) -> (r: Frame)
        ensures
            encodes(*self, r),
    {
        match self {
            OutboundMessage::Telemetry { phase, status, detail, timestamp } => {
                let mut s = String::from_str("{\"type\":\"telemetry\",\"phase\":");
                s.append(json_quote(phase.as_str()).as_str());
                s.append(",\"status\":");
                s.append(json_quote(status.as_str()).as_str());
                s.append(",\"detail\":");
                s.append(json_quote(detail.as_str()).as_str());
                s.append(",\"timestamp\":");
                s.append(json_quote(timestamp.as_str()).as_str());
                s.append("}");
                Frame::Text(s)
            },
            OutboundMessage::Subtitle { text } => {
                let mut s = String::from_str("{\"type\":\"subtitle\",\"text\":");
                s.append(json_quote(text.as_str()).as_str());
                s.append("}");
                Frame::Text(s)
            },
            OutboundMessage::Audio { bytes } => Frame::Binary(bytes.clone()),
        }
    }
}

} // verus!
