//! The dialog relay: requests sent on the dialog call, and what becomes of
//! each item of its response stream.
use vstd::prelude::*;
use vstd::string::StringExecFns;

use crate::message::{is_telemetry, OutboundMessage};
use crate::segmenter::{opt_view, split_buffer, flush_of, SentenceSegmenter};

verus! {

/// One request on the dialog call.
#[derive(Clone, Debug, PartialEq, Eq)]
pub enum DialogRequest {
    /// Opens the conversation.
    Config { session_id: String, user_id: String },
    /// A piece of the user's utterance.
    TextFragment(String),
    /// The user's utterance is complete.
    TurnComplete,
}

/// One item of the dialog call's response stream.
#[derive(Clone, Debug, PartialEq, Eq)]
pub enum DialogResponse {
    TextToken(String),
    TurnComplete,
}

/// What the relay does with one response item.
#[derive(Clone, Debug, PartialEq, Eq)]
pub struct DialogStep {
    /// Caption for the client, sent before anything else.
    pub subtitle: Option<OutboundMessage>,
    /// Sentence chunk for the synthesis queue.
    pub chunk: Option<String>,
}

impl DialogRequest {
    /// The request that opens the dialog call of a session.
    pub fn config(session_id: &str) -> (r: DialogRequest)
        ensures
            r is Config,
            r->Config_session_id@ == session_id@,
            r->Config_user_id@ == "anonymous"@,
    {
        DialogRequest::Config {
            session_id: String::from_str(session_id),
            user_id: String::from_str("anonymous"),
        }
    }

    /// An utterance as the dialog takes it: its text, then the end of turn.
    pub fn utterance(text: &str) -> (r: Vec<DialogRequest>)
        ensures
            r@.len() == 2,
            r@[0] is TextFragment,
            r@[0]->TextFragment_0@ == text@,
            r@[1] is TurnComplete,
    {
        let mut r: Vec<DialogRequest> = Vec::new();
        r.push(DialogRequest::TextFragment(String::from_str(text)));
        r.push(DialogRequest::TurnComplete);
        r
    }
}

/// Drives the response side of one session's dialog call.
pub struct DialogRelay {
    segmenter: SentenceSegmenter,
}

impl View for DialogRelay {
    type V = Seq<char>;

    /// Reply text received and not yet handed to synthesis.
    closed spec fn view(&self) -> Seq<char> {
        self.segmenter@
    }
}

impl DialogRelay {
    pub fn new() -> (r: DialogRelay)
        ensures
            r@ == Seq::<char>::empty(),
    {
        DialogRelay { segmenter: SentenceSegmenter::new() }
    }

    /// A text token is captioned at once and fed to the segmenter; the end of
    /// a turn flushes the segmenter. The relay keeps listening either way.
    pub fn on_response(&mut self, resp: DialogResponse) -> (r: DialogStep)
        ensures
            match resp {
                DialogResponse::TextToken(t) => {
                    &&& r.subtitle is Some
                    &&& r.subtitle->0 is Subtitle
                    &&& r.subtitle->0->Subtitle_text@ == t@
                    &&& (opt_view(r.chunk), final(self)@) == split_buffer(old(self)@ + t@)
                },
                DialogResponse::TurnComplete => {
                    &&& r.subtitle is None
                    &&& opt_view(r.chunk) == flush_of(old(self)@)
                    &&& final(self)@ == Seq::<char>::empty()
                },
            },
    {
        match resp {
            DialogResponse::TextToken(t) => {
                let subtitle = OutboundMessage::subtitle(t.as_str());
                let chunk = self.segmenter.push(t.as_str());
                DialogStep { subtitle: Some(subtitle), chunk }
            },
            DialogResponse::TurnComplete => {
                let chunk = self.segmenter.flush();
                DialogStep { subtitle: None, chunk }
            },
        }
    }

    /// The report sent when the dialog call fails; the relay ends after it.
    pub fn failure(detail: &str) -> (r: OutboundMessage)
        ensures
            is_telemetry(r, "llm"@, "error"@, detail@),
    {
        OutboundMessage::telemetry("llm", "error", detail)
    }
}

} // verus!
