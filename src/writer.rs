//! The single writer to the client connection.
use vstd::prelude::*;

use crate::message::{encodes, Frame, OutboundMessage};

verus! {

/// Sole producer of connection writes; it stops for good at the first
/// failed write.
pub struct ClientWriter {
    open: bool,
}

impl View for ClientWriter {
    type V = bool;

    /// The connection still takes writes.
    closed spec fn view(&self) -> bool {
        self.open
    }
}

impl ClientWriter {
    pub fn new() -> (r: ClientWriter)
        ensures
            r@,
    {
        ClientWriter { open: true }
    }

    pub fn is_open(&self) -> (r: bool)
        ensures
            r == self@,
    {
        self.open
    }

    /// The write for the next queued message, or none once the writer has
    /// stopped.
    pub fn next_write(&self, msg: &OutboundMessage) -> (r: Option<Frame>)
        ensures
            r is Some <==> self@,
            r is Some ==> encodes(*msg, r->0),
    {
        if self.open {
            Some(msg.encode())
        } else {
            None
        }
    }

    /// A write failed: the client is gone, and nothing more is written.
    pub fn on_write_failed(&mut self)
        ensures
            !final(self)@,
    {
        self.open = false;
    }
}

} // verus!
