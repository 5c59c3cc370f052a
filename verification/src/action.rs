//! What a consumer asks its owning actor to do.
//!
//! A consumer decides and the actor around it acts: each transition hands
//! back a list of actions, to be carried out in order. A failed send or
//! forward is the actor's to log; it changes nothing in the consumer.

use crate::messages::{Request, RequestView, StreamMessage, StreamMessageView, StreamWorkerCmd};
use crate::routing::{address_hop, local_envelope, route_hops, Hop, LocalEnvelope};
use crate::scheduler::duration_nanos;
use ockam_core::{Address, LocalMessage, Route};
use std::time::Duration;
use vstd::prelude::*;

verus! {

#[derive(Debug, PartialEq, Eq)]
pub enum Action {
    /// Send a request along a route.
    Send { to: Route, request: Request },
    /// Relay a decoded envelope to the next hop of its onward route. The
    /// envelope's onward route is what remains after that hop.
    Forward { next_hop: Address, envelope: LocalMessage },
    /// Hand a stream message to the local receiver.
    Deliver { receiver: Address, message: StreamMessage },
    /// Arm a one-shot timer that delivers `command` to the consumer itself
    /// once `delay` has passed.
    Schedule { delay: Duration, command: StreamWorkerCmd },
}

pub enum ActionView {
    Send { to: Seq<Hop>, request: RequestView },
    Forward { next_hop: Hop, envelope: LocalEnvelope },
    Deliver { receiver: Hop, message: StreamMessageView },
    Schedule { delay_nanos: nat, command: StreamWorkerCmd },
}

impl View for Action {
    type V = ActionView;

    open spec fn view(&self) -> ActionView {
        match self {
            Action::Send { to, request } => ActionView::Send {
                to: route_hops(*to),
                request: request@,
            },
            Action::Forward { next_hop, envelope } => ActionView::Forward {
                next_hop: address_hop(*next_hop),
                envelope: local_envelope(*envelope),
            },
            Action::Deliver { receiver, message } => ActionView::Deliver {
                receiver: address_hop(*receiver),
                message: message@,
            },
            Action::Schedule { delay, command } => ActionView::Schedule {
                delay_nanos: duration_nanos(*delay),
                command: *command,
            },
        }
    }
}

/// The views of a list of actions, in order.
pub open spec fn actions_view(actions: Seq<Action>) -> Seq<ActionView> {
    Seq::new(actions.len(), |i: int| actions[i]@)
}

/// The view of an action that may be absent.
pub open spec fn optional_action(action: Option<Action>) -> Option<ActionView> {
    match action {
        Some(a) => Some(a@),
        None => None,
    }
}

} // verus!
