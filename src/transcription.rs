//! The transcription relay: which speech-to-text results go on to the dialog.
use vstd::prelude::*;

use crate::dialog::DialogRequest;
use crate::message::{is_telemetry, OutboundMessage};

verus! {

/// One result of the speech-to-text call.
#[derive(Clone, Debug, PartialEq, Eq)]
pub struct TranscriptEvent {
    pub text: String,
    pub is_final: bool,
}

/// What a final transcript sets off.
#[derive(Clone, Debug, PartialEq, Eq)]
pub struct TranscriptForward {
    /// Reported to the client.
    pub telemetry: OutboundMessage,
    /// Queued for the dialog call, in this order.
    pub requests: Vec<DialogRequest>,
}

/// A transcript is acted on only when it is final and holds text.
pub open spec fn is_actionable(ev: TranscriptEvent) -> bool {
    ev.is_final && ev.text@.len() > 0
}

/// A final, non-empty transcript is reported to the client and handed to the
/// dialog as one utterance; any other result is observed and dropped.
pub fn on_transcript(ev: &TranscriptEvent) -> (r: Option<TranscriptForward>)
    ensures
        r is Some <==> is_actionable(*ev),
        r is Some ==> {
            let f = r->0;
            &&& is_telemetry(f.telemetry, "stt"@, "final"@, ev.text@)
            &&& f.requests@.len() == 2
            &&& f.requests@[0] is TextFragment
            &&& f.requests@[0]->TextFragment_0@ == ev.text@
            &&& f.requests@[1] is TurnComplete
        },
{
    if ev.is_final && !ev.text.as_str().is_empty() {
        let telemetry = OutboundMessage::telemetry("stt", "final", ev.text.as_str());
        let requests = DialogRequest::utterance(ev.text.as_str());
        Some(TranscriptForward { telemetry, requests })
    } else {
        None
    }
}

/// The report sent when the speech-to-text stream fails; the relay ends
/// after it, and the rest of the session goes on.
pub fn transcription_failure(detail: &str) -> (r: OutboundMessage)
    ensures
        is_telemetry(r, "stt"@, "error"@, detail@),
{
    OutboundMessage::telemetry("stt", "error", detail)
}

} // verus!
