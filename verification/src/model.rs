//! The consumer as a state machine over mathematical values.
//!
//! A step takes the consumer's state and one incoming message and gives the
//! next state, whether the message was handled, and the actions to carry
//! out. The executable consumer is proved to take exactly these steps.

use crate::action::ActionView;
use crate::messages::{
    PayloadView, RequestView, ResponseView, RoutedView, StreamMessageView, StreamWorkerCmd,
};
use crate::parser::{first_claimant, HandlerKind};
use crate::routing::{after_next_hop, decoded_envelope, next_hop, Envelope, Hop, LocalEnvelope};
use crate::scheduler::FIRST_FETCH_DELAY_MILLIS;
use vstd::prelude::*;

verus! {

/// How many messages one pull request asks for.
pub const PULL_BATCH_SIZE: u32 = 8;

/// How far the attach handshake has come. It runs once in a consumer's
/// life and never goes back.
#[derive(Debug, Clone, Copy, PartialEq, Eq)]
pub enum Handshake {
    /// No init response has been processed.
    AwaitingInit,
    /// The init response has been processed, the index response has not.
    AwaitingIndex,
    /// Both have been processed: the consumer polls.
    Attached,
}

/// The state of a consumer.
pub struct ConsumerView {
    /// How far the handshake has come.
    pub handshake: Handshake,
    /// The registered handlers, in registration order.
    pub handlers: Seq<HandlerKind>,
    /// The request identifier that the next pull request will carry.
    pub next_id: u64,
    /// The best-known route to the stream service.
    pub stream_peer: Seq<Hop>,
    /// The best-known route to the index service.
    pub index_peer: Seq<Hop>,
    /// The identity under which checkpoints are stored.
    pub client_id: Seq<char>,
    /// The local relay to put in front of forwarded return routes, if any.
    pub producer: Option<Hop>,
    /// The stream name to ask the stream service for, if any.
    pub requested: Option<Seq<char>>,
    /// The stream's name as the stream service announced it; absent until
    /// the init response has been processed.
    pub stream: Option<Seq<char>>,
    /// The pause between two fetches, in nanoseconds.
    pub interval_nanos: nat,
    /// Where messages without an onward route are delivered.
    pub receiver: Hop,
    /// The next offset to request.
    pub last_index: u64,
}

/// What one step yields.
pub struct Outcome {
    pub state: ConsumerView,
    pub handled: bool,
    pub actions: Seq<ActionView>,
}

/// The state of a consumer that has been constructed and not yet
/// initialised: the handshake has not begun, the stream has no name, no
/// handler is registered, both peers are the remote route with the
/// service's address behind it, and the offset is 0.
pub open spec fn initial(
    client_id: Seq<char>,
    remote: Seq<Hop>,
    producer: Option<Hop>,
    requested: Option<Seq<char>>,
    interval_nanos: nat,
    receiver: Hop,
    stream_service: Hop,
    index_service: Hop,
) -> ConsumerView {
    ConsumerView {
        handshake: Handshake::AwaitingInit,
        handlers: Seq::empty(),
        next_id: 0,
        stream_peer: remote.push(stream_service),
        index_peer: remote.push(index_service),
        client_id,
        producer,
        requested,
        stream: None,
        interval_nanos,
        receiver,
        last_index: 0,
    }
}

/// The state after initialisation, and the create-stream request that
/// opens the handshake.
pub open spec fn on_initialize(c: ConsumerView) -> Outcome {
    Outcome {
        state: ConsumerView {
            handlers: c.handlers.push(HandlerKind::Response).push(HandlerKind::Command),
            ..c
        },
        handled: true,
        actions: seq![
            ActionView::Send {
                to: c.stream_peer,
                request: RequestView::CreateStream { stream: c.requested },
            },
        ],
    }
}

/// The envelope as it is relayed: with the producer, if there is one, in
/// front of its return route.
pub open spec fn with_producer(envelope: Envelope, producer: Option<Hop>) -> Envelope {
    match producer {
        Some(p) => Envelope { return_route: seq![p] + envelope.return_route, ..envelope },
        None => envelope,
    }
}

/// What becomes of one stream message, given what its payload decodes to.
///
/// An undecodable payload is skipped. A decoded envelope with a next hop is
/// relayed to that hop, the hop taken off its onward route. A decoded
/// envelope without one means the stream message itself goes to the
/// receiver.
pub open spec fn delivery(
    decoded: Option<Envelope>,
    message: StreamMessageView,
    producer: Option<Hop>,
    receiver: Hop,
) -> Option<ActionView> {
    match decoded {
        None => None,
        Some(envelope) => match next_hop(envelope.onward_route) {
            Some(hop) => Some(
                ActionView::Forward {
                    next_hop: hop,
                    envelope: LocalEnvelope {
                        envelope: Envelope {
                            onward_route: after_next_hop(envelope.onward_route),
                            ..with_producer(envelope, producer)
                        },
                        local_info: Seq::empty(),
                    },
                },
            ),
            None => Some(ActionView::Deliver { receiver, message }),
        },
    }
}

/// What becomes of one stream message of a batch: the delivery that the
/// decoding of its payload calls for.
pub open spec fn routing(producer: Option<Hop>, receiver: Hop) -> spec_fn(
    StreamMessageView,
) -> Option<ActionView> {
    |message: StreamMessageView|
        delivery(decoded_envelope(message.data), message, producer, receiver)
}

/// The actions for a batch: the delivery of each decodable message, in
/// batch order. An undecodable message contributes nothing and stops
/// nothing.
pub open spec fn deliveries(
    messages: Seq<StreamMessageView>,
    producer: Option<Hop>,
    receiver: Hop,
) -> Seq<ActionView> {
    messages.filter_map(routing(producer, receiver))
}

/// The offset to request after a batch: one past the last message's offset,
/// or the old offset where the batch is empty.
pub open spec fn offset_after(last_index: u64, messages: Seq<StreamMessageView>) -> int {
    if messages.len() > 0 {
        messages.last().index + 1
    } else {
        last_index as int
    }
}

/// The save request that follows a batch: one request if the offset moved
/// and the stream has a name to save it under, none otherwise.
pub open spec fn checkpoint(c: ConsumerView, offset: u64) -> Seq<ActionView> {
    if offset != c.last_index && c.stream is Some {
        seq![
            ActionView::Send {
                to: c.index_peer,
                request: RequestView::IndexSave {
                    stream_name: c.stream->0,
                    client_id: c.client_id,
                    index: offset,
                },
            },
        ]
    } else {
        Seq::empty()
    }
}

/// A message that its handler claims and has no use for, because the
/// handshake is at another point: it changes nothing and asks for nothing.
pub open spec fn ignored(c: ConsumerView) -> Outcome {
    Outcome { state: c, handled: true, actions: Seq::empty() }
}

/// An init response. The first one names the stream, teaches the route to
/// the stream service and has the stored offset asked for. Every later one
/// is ignored: the stream is named once and the route is learned once.
pub open spec fn on_init(
    c: ConsumerView,
    return_route: Seq<Hop>,
    stream_name: Seq<char>,
) -> Outcome {
    if c.handshake is AwaitingInit {
        Outcome {
            state: ConsumerView {
                handshake: Handshake::AwaitingIndex,
                stream: Some(stream_name),
                stream_peer: return_route,
                ..c
            },
            handled: true,
            actions: seq![
                ActionView::Send {
                    to: c.index_peer,
                    request: RequestView::IndexGet { stream_name, client_id: c.client_id },
                },
            ],
        }
    } else {
        ignored(c)
    }
}

/// An index response. The first one after the init response teaches the
/// route to the index service, sets the offset and arms the first fetch,
/// which completes the handshake. Any other one is ignored.
pub open spec fn on_index(c: ConsumerView, return_route: Seq<Hop>, index: Option<u64>) -> Outcome {
    if c.handshake is AwaitingIndex {
        Outcome {
            state: ConsumerView {
                handshake: Handshake::Attached,
                index_peer: return_route,
                last_index: match index {
                    Some(i) => i,
                    None => 0,
                },
                ..c
            },
            handled: true,
            actions: seq![
                ActionView::Schedule {
                    delay_nanos: (FIRST_FETCH_DELAY_MILLIS * 1_000_000) as nat,
                    command: StreamWorkerCmd::Fetch,
                },
            ],
        }
    } else {
        ignored(c)
    }
}

/// A batch arrived: the offset moves past it, every decodable message is
/// routed on, and the new offset is saved if it differs from the old one
/// and the stream has a name.
pub open spec fn on_pull_response(c: ConsumerView, messages: Seq<StreamMessageView>) -> Outcome {
    let offset = offset_after(c.last_index, messages) as u64;
    Outcome {
        state: ConsumerView { last_index: offset, ..c },
        handled: true,
        actions: deliveries(messages, c.producer, c.receiver) + checkpoint(c, offset),
    }
}

/// A fetch command. Once the handshake is complete, a pull request goes
/// out and the timer is armed again, whatever becomes of the request.
/// Before that the command is ignored: nothing is sent and no timer is
/// armed.
pub open spec fn on_fetch(c: ConsumerView) -> Outcome {
    if c.handshake is Attached {
        Outcome {
            state: ConsumerView { next_id: (c.next_id + 1) as u64, ..c },
            handled: true,
            actions: seq![
                ActionView::Send {
                    to: c.stream_peer,
                    request: RequestView::Pull {
                        request_id: c.next_id,
                        start_index: c.last_index,
                        count: PULL_BATCH_SIZE,
                    },
                },
                ActionView::Schedule {
                    delay_nanos: c.interval_nanos,
                    command: StreamWorkerCmd::Fetch,
                },
            ],
        }
    } else {
        ignored(c)
    }
}

/// A message that no handler claims changes nothing and asks for nothing.
pub open spec fn unhandled(c: ConsumerView) -> Outcome {
    Outcome { state: c, handled: false, actions: Seq::empty() }
}

/// What the response handler makes of a response.
pub open spec fn respond(
    c: ConsumerView,
    return_route: Seq<Hop>,
    response: ResponseView,
) -> Outcome {
    match response {
        ResponseView::Init { stream_name } => on_init(c, return_route, stream_name),
        ResponseView::Index { index, .. } => on_index(c, return_route, index),
        ResponseView::PullResponse { messages, .. } => on_pull_response(c, messages),
        ResponseView::PushConfirm => unhandled(c),
    }
}

/// What the command handler makes of a command.
pub open spec fn obey(c: ConsumerView, command: StreamWorkerCmd) -> Outcome {
    match command {
        StreamWorkerCmd::Fetch => on_fetch(c),
        StreamWorkerCmd::Pull { .. } => unhandled(c),
    }
}

/// The responses that the response handler can take within machine
/// limits: the offset past a batch fits in 64 bits.
pub open spec fn accepts_response(c: ConsumerView, response: ResponseView) -> bool {
    response matches ResponseView::PullResponse { messages, .. } ==> offset_after(
        c.last_index,
        messages,
    ) <= u64::MAX
}

/// The commands that the command handler can take within machine limits: a
/// fetch that sends a pull request finds a request identifier left.
pub open spec fn accepts_command(c: ConsumerView, command: StreamWorkerCmd) -> bool {
    command is Fetch && c.handshake is Attached ==> c.next_id < u64::MAX
}

/// The messages on which a step can be taken within machine limits.
pub open spec fn accepts(c: ConsumerView, e: RoutedView) -> bool {
    match e.body {
        PayloadView::Response(response) => accepts_response(c, response),
        PayloadView::Command(command) => accepts_command(c, command),
        PayloadView::Other => true,
    }
}

/// One step of the consumer: the message goes to the first handler that
/// claims it, and to none if none does.
pub open spec fn step(c: ConsumerView, e: RoutedView) -> Outcome {
    match (first_claimant(c.handlers, e.body), e.body) {
        (Some(HandlerKind::Response), PayloadView::Response(response)) => respond(
            c,
            e.return_route,
            response,
        ),
        (Some(HandlerKind::Command), PayloadView::Command(command)) => obey(c, command),
        _ => unhandled(c),
    }
}

/// The state after a sequence of messages, each handled in turn.
pub open spec fn run(c: ConsumerView, events: Seq<RoutedView>) -> ConsumerView
    decreases events.len(),
{
    if events.len() == 0 {
        c
    } else {
        step(run(c, events.drop_last()), events.last()).state
    }
}

} // verus!
