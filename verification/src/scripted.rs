//! A transport that answers from a prepared script.
//!
//! The test double of the [`Transport`] contract: it hands out its replies
//! in order, records every request it was given, and fails with a fault
//! once the script is exhausted.  With it, the whole protocol can be
//! exercised without a router on the wire.

use vstd::prelude::*;
use vstd::string::StringExecFns;

use crate::http::{HttpRequest, HttpResponse, Transport, TransportFault};

verus! {

/// A scripted transport: `replies[next]` answers the next exchange; every
/// request received is appended to `sent`.
#[derive(Debug)]
pub struct ScriptedTransport {
    pub replies: Vec<Result<HttpResponse, TransportFault>>,
    pub next: usize,
    pub sent: Vec<HttpRequest>,
}

impl ScriptedTransport {
    /// A transport that will answer with `replies`, in order.
    pub fn new(replies: Vec<Result<HttpResponse, TransportFault>>) -> (r: ScriptedTransport)
        ensures
            r.replies == replies,
            r.next == 0,
            r.sent@.len() == 0,
    {
        ScriptedTransport { replies, next: 0, sent: Vec::new() }
    }

    /// The requests executed so far, in order.
    pub fn sent_requests(&self) -> (r: &Vec<HttpRequest>)
        ensures
            r == &self.sent,
    {
        &self.sent
    }

    /// How many replies of the script have been consumed.
    pub fn replies_used(&self) -> (r: usize)
        ensures
            r == self.next,
    {
        self.next
    }
}

impl Transport for ScriptedTransport {
    fn execute(&mut self, request: &HttpRequest) -> Result<HttpResponse, TransportFault> {
        self.sent.push(request.duplicate());
        if self.next < self.replies.len() {
            let reply = match &self.replies[self.next] {
                Ok(resp) => Ok(resp.duplicate()),
                Err(fault) => Err(fault.duplicate()),
            };
            self.next = self.next + 1;
            reply
        } else {
            Err(TransportFault { message: String::from_str("script exhausted") })
        }
    }
}

} // verus!
