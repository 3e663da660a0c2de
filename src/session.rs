//! One client session: routing of what the client sends, and the lifecycle
//! from connection to teardown.
use vstd::prelude::*;
use vstd::string::StringExecFns;

use crate::dialog::DialogRequest;
use crate::message::{is_telemetry, OutboundMessage};

verus! {

/// Relies on `uuid::Uuid::new_v4` and its `Display`: a random identifier in
/// hyphenated form, 36 characters.
#[verifier::external_body]
fn random_session_id() -> (r: String)
    ensures
        r@.len() == 36,
{
    uuid::Uuid::new_v4().to_string()
}

#[derive(Clone, Copy, PartialEq, Eq, Structural, Debug)]
pub enum SessionPhase {
    Active,
    Terminating,
    Closed,
}

/// The tasks that a session runs beside its read loop.
#[derive(Clone, Copy, PartialEq, Eq, Structural, Debug)]
pub enum Task {
    Transcription,
    Dialog,
    Synthesis,
    Writer,
}

/// What the client sent.
#[derive(Clone, Debug, PartialEq, Eq)]
pub enum InboundFrame {
    /// Audio for transcription.
    Binary(Vec<u8>),
    /// A complete utterance typed by the user.
    Text(String),
    /// The client closed the connection.
    Close,
    /// Anything else (pings and the like).
    Other,
}

/// Where an inbound frame goes.
#[derive(Clone, Debug, PartialEq, Eq)]
pub enum Route {
    /// The transcription relay's audio queue.
    Audio(Vec<u8>),
    /// The dialog relay's request queue.
    Dialog(DialogRequest),
    /// The client writer's queue.
    Client(OutboundMessage),
}

pub ghost struct SessionState {
    pub phase: SessionPhase,
    /// The subordinate tasks have been cancelled.
    pub cancelled: bool,
}

/// Every subordinate task, each once.
pub open spec fn all_tasks() -> Seq<Task> {
    seq![Task::Transcription, Task::Dialog, Task::Synthesis, Task::Writer]
}

/// A session routes client frames only while active.
pub open spec fn takes_frames(s: SessionState) -> bool {
    s.phase == SessionPhase::Active
}

pub open spec fn after_frame(s: SessionState, is_close: bool) -> SessionState {
    if takes_frames(s) && is_close {
        SessionState { phase: SessionPhase::Terminating, ..s }
    } else {
        s
    }
}

pub open spec fn after_send_failure(s: SessionState) -> SessionState {
    if takes_frames(s) {
        SessionState { phase: SessionPhase::Terminating, ..s }
    } else {
        s
    }
}

/// The tasks a termination request cancels: all of them the first time,
/// none after.
pub open spec fn cancelled_by_terminate(s: SessionState) -> Seq<Task> {
    if s.cancelled {
        Seq::empty()
    } else {
        all_tasks()
    }
}

pub open spec fn after_terminate(s: SessionState) -> SessionState {
    if s.cancelled {
        s
    } else {
        SessionState { phase: SessionPhase::Terminating, cancelled: true }
    }
}

/// The tasks are cancelled once the session has left the active phase for
/// good; a closed session has cancelled them.
pub open spec fn state_wf(s: SessionState) -> bool {
    &&& s.cancelled ==> s.phase != SessionPhase::Active
    &&& s.phase == SessionPhase::Closed ==> s.cancelled
}

/// Disconnect cleanup: when the client of an active session closes the
/// connection, the session stops taking frames, so nothing more is routed to
/// any queue; the termination that follows cancels each of the four tasks
/// exactly once, the writer among them, and any later request cancels
/// nothing.
pub proof fn lemma_disconnect_cleanup(s: SessionState)
    requires
        state_wf(s),
        takes_frames(s),
    ensures
        !takes_frames(after_frame(s, true)),
        cancelled_by_terminate(after_frame(s, true)) == all_tasks(),
        all_tasks().no_duplicates(),
        all_tasks().contains(Task::Transcription),
        all_tasks().contains(Task::Dialog),
        all_tasks().contains(Task::Synthesis),
        all_tasks().contains(Task::Writer),
        !takes_frames(after_terminate(after_frame(s, true))),
        cancelled_by_terminate(after_terminate(after_frame(s, true))) == Seq::<Task>::empty(),
        state_wf(after_terminate(after_frame(s, true))),
{
    let t = all_tasks();
    assert(t[0] == Task::Transcription);
    assert(t[1] == Task::Dialog);
    assert(t[2] == Task::Synthesis);
    assert(t[3] == Task::Writer);
}

/// The lifecycle of one client connection.
pub struct Session {
    id: String,
    phase: SessionPhase,
    cancelled: bool,
}

impl View for Session {
    type V = SessionState;

    closed spec fn view(&self) -> SessionState {
        SessionState { phase: self.phase, cancelled: self.cancelled }
    }
}

impl Session {
    #[verifier::type_invariant]
    closed spec fn inv(&self) -> bool {
        state_wf(self@)
    }

    pub closed spec fn spec_id(&self) -> Seq<char> {
        self.id@
    }

    /// A new active session with a fresh random identifier.
    pub fn new() -> (r: Session)
        ensures
            r@ == (SessionState { phase: SessionPhase::Active, cancelled: false }),
            r.spec_id().len() == 36,
    {
        Session { id: random_session_id(), phase: SessionPhase::Active, cancelled: false }
    }

    /// A new active session under a given identifier.
    pub fn with_id(id: &str) -> (r: Session)
        ensures
            r@ == (SessionState { phase: SessionPhase::Active, cancelled: false }),
            r.spec_id() == id@,
    {
        Session { id: String::from_str(id), phase: SessionPhase::Active, cancelled: false }
    }

    pub fn id(&self) -> (r: &str)
        ensures
            r@ == self.spec_id(),
    {
        self.id.as_str()
    }

    pub fn phase(&self) -> (r: SessionPhase)
        ensures
            r == self@.phase,
    {
        self.phase
    }

    /// The first message the client receives.
    pub fn greeting(&self) -> (r: OutboundMessage)
        ensures
            is_telemetry(r, "gateway"@, "connected"@, "Session: "@ + self.spec_id()),
    {
        let detail = String::from_str("Session: ").concat(self.id.as_str());
        OutboundMessage::telemetry("gateway", "connected", detail.as_str())
    }

    /// The request that opens this session's dialog call.
    pub fn dialog_config(&self) -> (r: DialogRequest)
        ensures
            r is Config,
            r->Config_session_id@ == self.spec_id(),
            r->Config_user_id@ == "anonymous"@,
    {
        DialogRequest::config(self.id.as_str())
    }

    /// Routes one client frame. Audio goes to transcription; text is reported
    /// and goes straight to the dialog as one utterance, with no
    /// transcription involved; a close frame starts termination. Nothing is
    /// routed once the session has stopped taking frames.
    pub fn on_frame(&mut self, frame: InboundFrame) -> (r: Vec<Route>)
        ensures
            state_wf(final(self)@),
            final(self)@ == after_frame(old(self)@, frame is Close),
            final(self).spec_id() == old(self).spec_id(),
            !takes_frames(old(self)@) ==> r@.len() == 0,
            takes_frames(old(self)@) ==> match frame {
                InboundFrame::Binary(b) => {
                    &&& r@.len() == 1
                    &&& r@[0] is Audio
                    &&& r@[0]->Audio_0@ == b@
                },
                InboundFrame::Text(t) => {
                    &&& r@.len() == 3
                    &&& r@[0] is Client
                    &&& is_telemetry(r@[0]->Client_0, "client"@, "text_input"@, t@)
                    &&& r@[1] is Dialog
                    &&& r@[1]->Dialog_0 is TextFragment
                    &&& r@[1]->Dialog_0->TextFragment_0@ == t@
                    &&& r@[2] is Dialog
                    &&& r@[2]->Dialog_0 is TurnComplete
                },
                _ => r@.len() == 0,
            },
    {
        proof {
            use_type_invariant(&*self);
        }
        let mut r: Vec<Route> = Vec::new();
        match self.phase {
            SessionPhase::Active => {},
            _ => {
                return r;
            },
        }
        match frame {
            InboundFrame::Binary(b) => {
                r.push(Route::Audio(b));
            },
            InboundFrame::Text(t) => {
                r.push(Route::Client(OutboundMessage::telemetry("client", "text_input", t.as_str())));
                r.push(Route::Dialog(DialogRequest::TextFragment(t)));
                r.push(Route::Dialog(DialogRequest::TurnComplete));
            },
            InboundFrame::Close => {
                self.phase = SessionPhase::Terminating;
            },
            InboundFrame::Other => {},
        }
        r
    }

    /// A queue of the session refused a send: its consumer is gone, and the
    /// session starts termination.
    pub fn on_send_failure(&mut self)
        ensures
            state_wf(final(self)@),
            final(self)@ == after_send_failure(old(self)@),
            final(self).spec_id() == old(self).spec_id(),
    {
        proof {
            use_type_invariant(&*self);
        }
        if let SessionPhase::Active = self.phase {
            self.phase = SessionPhase::Terminating;
        }
    }

    /// The tasks to cancel: all four the first time, none after.
    pub fn terminate(&mut self) -> (r: Vec<Task>)
        ensures
            state_wf(final(self)@),
            final(self)@ == after_terminate(old(self)@),
            r@ == cancelled_by_terminate(old(self)@),
            final(self).spec_id() == old(self).spec_id(),
    {
        proof {
            use_type_invariant(&*self);
        }
        let mut r: Vec<Task> = Vec::new();
        if !self.cancelled {
            self.phase = SessionPhase::Terminating;
            self.cancelled = true;
            r.push(Task::Transcription);
            r.push(Task::Dialog);
            r.push(Task::Synthesis);
            r.push(Task::Writer);
            assert(r@ =~= all_tasks());
        }
        r
    }

    /// Every task has been cancelled and joined: the session is closed.
    pub fn finish(&mut self)
        requires
            old(self)@.cancelled,
        ensures
            state_wf(final(self)@),
            final(self)@ == (SessionState { phase: SessionPhase::Closed, cancelled: true }),
            final(self).spec_id() == old(self).spec_id(),
    {
        proof {
            use_type_invariant(&*self);
        }
        self.phase = SessionPhase::Closed;
    }
}

} // verus!
