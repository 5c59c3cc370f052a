//! The protocol dispatcher: an ordered table of message-shape handlers.
//!
//! An incoming message is offered to each registered handler in registration
//! order, and the first handler that claims it handles it. A message that no
//! handler claims is left for the caller to drop.

use crate::messages::{Payload, PayloadView, Response, StreamWorkerCmd};
use vstd::prelude::*;

verus! {

/// The message shape that a handler is registered for.
#[derive(Debug, Clone, Copy, PartialEq, Eq)]
pub enum HandlerKind {
    /// Handles the handshake and pull responses of the stream protocol.
    Response,
    /// Handles the commands that a stream worker sends to itself.
    Command,
}

/// Whether a handler of the given kind claims a message with this body.
pub open spec fn claims(kind: HandlerKind, body: PayloadView) -> bool {
    match (kind, body) {
        (HandlerKind::Response, PayloadView::Response(r)) => !(r is PushConfirm),
        (HandlerKind::Command, PayloadView::Command(c)) => c is Fetch,
        _ => false,
    }
}

/// The first handler of the table, in registration order, that claims the
/// body; `None` if none does.
pub open spec fn first_claimant(handlers: Seq<HandlerKind>, body: PayloadView) -> Option<
    HandlerKind,
>
    decreases handlers.len(),
{
    if handlers.len() == 0 {
        None
    } else if claims(handlers[0], body) {
        Some(handlers[0])
    } else {
        first_claimant(handlers.drop_first(), body)
    }
}

/// A table has a claimant for a body exactly if one of its handlers claims
/// the body, and the claimant is such a handler.
pub proof fn lemma_first_claimant(handlers: Seq<HandlerKind>, body: PayloadView)
    ensures
        first_claimant(handlers, body) is Some <==> exists|i: int|
            0 <= i < handlers.len() && claims(#[trigger] handlers[i], body),
        first_claimant(handlers, body) matches Some(kind) ==> claims(kind, body),
    decreases handlers.len(),
{
    if handlers.len() > 0 && !claims(handlers[0], body) {
        let rest = handlers.drop_first();
        lemma_first_claimant(rest, body);
        if first_claimant(rest, body) is Some {
            let i = choose|i: int| 0 <= i < rest.len() && claims(#[trigger] rest[i], body);
            assert(claims(handlers[i + 1], body));
        }
        if exists|i: int| 0 <= i < handlers.len() && claims(#[trigger] handlers[i], body) {
            let i = choose|i: int| 0 <= i < handlers.len() && claims(#[trigger] handlers[i], body);
            assert(claims(rest[i - 1], body));
        }
    } else if handlers.len() > 0 {
        assert(claims(handlers[0], body));
    }
}

/// Whether a handler of the given kind claims the body.
pub fn handler_claims(kind: HandlerKind, body: &Payload) -> (res: bool)
    ensures
        res == claims(kind, body@),
{
    match kind {
        HandlerKind::Response => match body {
            Payload::Response(Response::PushConfirm) => false,
            Payload::Response(_) => true,
            _ => false,
        },
        HandlerKind::Command => match body {
            Payload::Command(StreamWorkerCmd::Fetch) => true,
            _ => false,
        },
    }
}

/// The handler table of one worker.
#[derive(Debug)]
pub struct ProtocolParser {
    handlers: Vec<HandlerKind>,
}

impl View for ProtocolParser {
    type V = Seq<HandlerKind>;

    /// The registered handlers, in registration order.
    closed spec fn view(&self) -> Seq<HandlerKind> {
        self.handlers@
    }
}

impl ProtocolParser {
    /// A table without handlers: it leaves every message unclaimed.
    pub fn new() -> (parser: ProtocolParser)
        ensures
            parser@ == Seq::<HandlerKind>::empty(),
    {
        ProtocolParser { handlers: Vec::new() }
    }

    /// Registers a handler behind those already registered.
    pub fn attach(&mut self, kind: HandlerKind)
        ensures
            final(self)@ == old(self)@.push(kind),
    {
        self.handlers.push(kind);
    }

    /// Offers the body to each handler in registration order and returns the
    /// first that claims it.
    pub fn parse(&self, body: &Payload) -> (res: Option<HandlerKind>)
        ensures
            res == first_claimant(self@, body@),
    {
        let mut i: usize = 0;
        assert(self.handlers@.skip(0) == self.handlers@);
        while i < self.handlers.len()
            invariant
                i <= self.handlers.len(),
                first_claimant(self.handlers@, body@) == first_claimant(
                    self.handlers@.skip(i as int),
                    body@,
                ),
            decreases self.handlers.len() - i,
        {
            let kind = self.handlers[i];
            proof {
                let rest = self.handlers@.skip(i as int);
                assert(rest[0] == kind);
                assert(rest.drop_first() == self.handlers@.skip(i + 1));
            }
            if handler_claims(kind, body) {
                return Some(kind);
            }
            i = i + 1;
        }
        None
    }
}

} // verus!
