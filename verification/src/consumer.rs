//! The stream consumer: handshake, poll loop, forwarding and checkpoints.

use crate::action::{actions_view, Action};
use crate::messages::{
    batch_view, optional_name, CreateStreamRequest, Index, IndexRequest, Init, Payload,
    PullRequest, PullResponse, Response, Routed, StreamWorkerCmd,
};
use crate::model::{
    accepts, accepts_command, accepts_response, initial, obey, on_initialize, respond, step,
    ConsumerView, Handshake, PULL_BATCH_SIZE,
};
use crate::monotonic::Monotonic;
use crate::parser::{HandlerKind, ProtocolParser};
use crate::relay::route_batch;
use crate::routing::{
    address_hop, address_of, clone_route, is_address, optional_hop, parse_address, route_hops,
    route_with_suffix,
};
use crate::scheduler::{
    duration_from_millis, duration_nanos, fetch_interval, FIRST_FETCH_DELAY_MILLIS,
};
use ockam_core::{Address, Route};
use std::time::Duration;
use vstd::prelude::*;

verus! {

/// A stream worker
#[derive(Debug)]
pub struct StreamConsumer {
    /// How far the handshake has come
    handshake: Handshake,
    parser: ProtocolParser,
    ids: Monotonic,
    /// Stream service remote
    stream_peer: Route,
    /// Index service remote
    index_peer: Route,
    /// This client ID
    client_id: String,
    /// Producer address
    prod: Option<Address>,
    /// Stream name to ask for
    requested: Option<String>,
    /// Receiving stream name
    stream: Option<String>,
    /// Fetch interval
    interval: Duration,
    /// Receiver address
    rx_rx: Address,
    /// Last known index position
    idx: u64,
}

impl View for StreamConsumer {
    type V = ConsumerView;

    closed spec fn view(&self) -> ConsumerView {
        ConsumerView {
            handshake: self.handshake,
            handlers: self.parser@,
            next_id: self.ids@,
            stream_peer: route_hops(self.stream_peer),
            index_peer: route_hops(self.index_peer),
            client_id: self.client_id@,
            producer: optional_hop(self.prod),
            requested: optional_name(self.requested),
            stream: optional_name(self.stream),
            interval_nanos: duration_nanos(self.interval),
            receiver: address_hop(self.rx_rx),
            last_index: self.idx,
        }
    }
}

/// Handles a response of the stream protocol and says whether it claimed
/// the response.
///
/// The first init response names the stream and teaches the route to the
/// stream service; the stored offset is then asked for. The first index
/// response after it teaches the route to the index service, sets the
/// offset and arms the first fetch. Any other init or index response is
/// claimed and ignored. A pull response moves the offset past the batch,
/// routes every decodable message on, and has the offset saved if it moved
/// and the stream has a name.
pub fn parse_response(w: &mut StreamConsumer, return_route: Route, resp: Response) -> (res: (
    bool,
    Vec<Action>,
))
    requires
        accepts_response(old(w)@, resp@),
    ensures
        final(w)@ == respond(old(w)@, route_hops(return_route), resp@).state,
        res.0 == respond(old(w)@, route_hops(return_route), resp@).handled,
        actions_view(res.1@) == respond(old(w)@, route_hops(return_route), resp@).actions,
{
    match resp {
        Response::Init(Init { stream_name }) => {
            let mut actions: Vec<Action> = Vec::new();
            match w.handshake {
                Handshake::AwaitingInit => {
                    w.handshake = Handshake::AwaitingIndex;
                    w.stream = Some(stream_name.clone());
                    w.stream_peer = return_route;

                    // Next up we get the current index
                    actions.push(
                        Action::Send {
                            to: clone_route(&w.index_peer),
                            request: IndexRequest::get(stream_name, w.client_id.clone()),
                        },
                    );
                    assert(actions_view(actions@) == seq![actions@[0]@]);
                },
                _ => {},
            }
            (true, actions)
        },
        Response::Index(Index { index, .. }) => {
            let mut actions: Vec<Action> = Vec::new();
            match w.handshake {
                Handshake::AwaitingIndex => {
                    w.handshake = Handshake::Attached;
                    w.index_peer = return_route;
                    w.idx = match index {
                        Some(i) => i,
                        None => 0,
                    };

                    // Queue a near-immediate fetch event -- however future
                    // events will be using the specified user interval
                    actions.push(fetch_interval(duration_from_millis(FIRST_FETCH_DELAY_MILLIS)));
                    assert(actions_view(actions@) == seq![actions@[0]@]);
                },
                _ => {},
            }
            (true, actions)
        },
        Response::PullResponse(PullResponse { messages, .. }) => {
            let ghost before = w@;
            let ghost batch = batch_view(messages@);
            let last_idx: u64 = w.idx;

            // Update the index if we received messages
            let count: usize = messages.len();
            if count > 0 {
                assert(batch.last() == messages@[count - 1]@);
                w.idx = messages[count - 1].index + 1;
            }
            let mut actions = route_batch(messages, &w.prod, &w.rx_rx);
            let ghost routed = actions@;

            // If the index was updated, save it under the stream's name
            if last_idx != w.idx {
                match &w.stream {
                    Some(stream_name) => {
                        actions.push(
                            Action::Send {
                                to: clone_route(&w.index_peer),
                                request: IndexRequest::save(
                                    stream_name.clone(),
                                    w.client_id.clone(),
                                    w.idx,
                                ),
                            },
                        );
                        assert(actions_view(actions@) == actions_view(routed).push(
                            actions@[routed.len() as int]@,
                        ));
                    },
                    None => {},
                }
            }
            assert(actions_view(actions@) == respond(
                before,
                route_hops(return_route),
                resp@,
            ).actions);
            (true, actions)
        },
        Response::PushConfirm => (false, Vec::new()),
    }
}

/// Handles a command that the worker sent to itself and says whether it
/// claimed the command.
///
/// Once the handshake is complete, a fetch command sends a pull request
/// for the next batch and arms the fetch timer again, whatever becomes of
/// the request. Before that a fetch command is claimed and ignored: no
/// pull request goes out and no timer is armed.
pub fn parse_cmd(w: &mut StreamConsumer, cmd: StreamWorkerCmd) -> (res: (bool, Vec<Action>))
    requires
        accepts_command(old(w)@, cmd),
    ensures
        final(w)@ == obey(old(w)@, cmd).state,
        res.0 == obey(old(w)@, cmd).handled,
        actions_view(res.1@) == obey(old(w)@, cmd).actions,
{
    match cmd {
        StreamWorkerCmd::Fetch => {
            let mut actions: Vec<Action> = Vec::new();
            match w.handshake {
                Handshake::Attached => {
                    // Generate a new request_id and send a PullRequest
                    let request_id: u64 = w.ids.next();
                    actions.push(
                        Action::Send {
                            to: clone_route(&w.stream_peer),
                            request: PullRequest::new(request_id, w.idx, PULL_BATCH_SIZE),
                        },
                    );

                    // Queue a new fetch event and mark this event as handled
                    actions.push(fetch_interval(w.interval));
                    assert(actions_view(actions@) == seq![actions@[0]@, actions@[1]@]);
                },
                _ => {},
            }
            (true, actions)
        },
        _ => (false, Vec::new()),
    }
}

impl StreamConsumer {
    /// A consumer for the stream and index services that live behind
    /// `remote` under the given service names; `stream` is the name to ask
    /// the stream service for. It holds no handler yet:
    /// [`StreamConsumer::initialize`] opens the handshake.
    ///
    /// Both service names have to be addresses, as every name without a
    /// `#` is; [`StreamConsumer::try_new`] tests that first. `fwd` is
    /// accepted and not used.
    pub fn new(
        client_id: String,
        remote: Route,
        prod: Option<Address>,
        stream: Option<String>,
        interval: Duration,
        fwd: Option<Address>,
        rx_rx: Address,
        stream_service: String,
        index_service: String,
    ) -> (consumer: Self)
        requires
            is_address(stream_service@),
            is_address(index_service@),
        ensures
            consumer@ == initial(
                client_id@,
                route_hops(remote),
                optional_hop(prod),
                optional_name(stream),
                duration_nanos(interval),
                address_hop(rx_rx),
                address_of(stream_service@),
                address_of(index_service@),
            ),
    {
        let stream_address = parse_address(stream_service.as_str());
        let index_address = parse_address(index_service.as_str());
        Self::with_services(
            client_id,
            remote,
            prod,
            stream,
            interval,
            fwd,
            rx_rx,
            stream_address.unwrap(),
            index_address.unwrap(),
        )
    }

    /// As [`StreamConsumer::new`], for any two strings: `None` where a
    /// service name is no address.
    pub fn try_new(
        client_id: String,
        remote: Route,
        prod: Option<Address>,
        stream: Option<String>,
        interval: Duration,
        fwd: Option<Address>,
        rx_rx: Address,
        stream_service: String,
        index_service: String,
    ) -> (consumer: Option<Self>)
        ensures
            consumer is Some <==> is_address(stream_service@) && is_address(index_service@),
            consumer matches Some(c) ==> c@ == initial(
                client_id@,
                route_hops(remote),
                optional_hop(prod),
                optional_name(stream),
                duration_nanos(interval),
                address_hop(rx_rx),
                address_of(stream_service@),
                address_of(index_service@),
            ),
    {
        if parse_address(stream_service.as_str()).is_some() && parse_address(
            index_service.as_str(),
        ).is_some() {
            Some(
                Self::new(
                    client_id,
                    remote,
                    prod,
                    stream,
                    interval,
                    fwd,
                    rx_rx,
                    stream_service,
                    index_service,
                ),
            )
        } else {
            None
        }
    }

    /// As [`StreamConsumer::new`], with the two services given as addresses.
    pub fn with_services(
        client_id: String,
        remote: Route,
        prod: Option<Address>,
        stream: Option<String>,
        interval: Duration,
        fwd: Option<Address>,
        rx_rx: Address,
        stream_service: Address,
        index_service: Address,
    ) -> (consumer: Self)
        ensures
            consumer@ == initial(
                client_id@,
                route_hops(remote),
                optional_hop(prod),
                optional_name(stream),
                duration_nanos(interval),
                address_hop(rx_rx),
                address_hop(stream_service),
                address_hop(index_service),
            ),
    {
        let _ = fwd;
        Self {
            handshake: Handshake::AwaitingInit,
            parser: ProtocolParser::new(),
            ids: Monotonic::new(),
            client_id,
            stream_peer: route_with_suffix(&remote, stream_service),
            index_peer: route_with_suffix(&remote, index_service),
            prod,
            requested: stream,
            stream: None,
            interval,
            rx_rx,
            idx: 0,
        }
    }

    /// Initialise the stream consumer
    ///
    /// This registers the response and command handlers and asks the stream
    /// service to create the stream.
    pub fn initialize(&mut self) -> (actions: Vec<Action>)
        ensures
            final(self)@ == on_initialize(old(self)@).state,
            actions_view(actions@) == on_initialize(old(self)@).actions,
    {
        self.parser.attach(HandlerKind::Response);
        self.parser.attach(HandlerKind::Command);

        // Send a create stream request with the registered name
        let stream = match &self.requested {
            Some(name) => Some(name.clone()),
            None => None,
        };
        let mut actions: Vec<Action> = Vec::new();
        actions.push(
            Action::Send {
                to: clone_route(&self.stream_peer),
                request: CreateStreamRequest::new(stream),
            },
        );
        assert(actions_view(actions@) == seq![actions@[0]@]);
        actions
    }

    /// Whether [`StreamConsumer::handle_message`] can take this message
    /// within machine limits: the offset past a batch fits in 64 bits, and
    /// a fetch that sends a pull request finds a request identifier left.
    pub fn accepts(&self, msg: &Routed) -> (ok: bool)
        ensures
            ok == accepts(self@, msg@),
    {
        match &msg.body {
            Payload::Response(Response::PullResponse(PullResponse { messages, .. })) => {
                let count: usize = messages.len();
                if count > 0 {
                    assert(batch_view(messages@).last() == messages@[count - 1]@);
                    let last: u64 = messages[count - 1].index;
                    last < u64::MAX
                } else {
                    true
                }
            },
            Payload::Command(StreamWorkerCmd::Fetch) => match self.handshake {
                Handshake::Attached => self.ids.peek() < u64::MAX,
                _ => true,
            },
            _ => true,
        }
    }

    /// Handles one incoming message through the handler table.
    ///
    /// Returns whether a handler claimed the message, and the actions to
    /// carry out in order. An unclaimed message changes nothing and is the
    /// caller's to drop.
    pub fn handle_message(&mut self, msg: Routed) -> (res: (bool, Vec<Action>))
        requires
            accepts(old(self)@, msg@),
        ensures
            final(self)@ == step(old(self)@, msg@).state,
            res.0 == step(old(self)@, msg@).handled,
            actions_view(res.1@) == step(old(self)@, msg@).actions,
    {
        // Handle payloads via our protocol parser
        let claimant = self.parser.parse(&msg.body);
        let Routed { return_route, body } = msg;
        match (claimant, body) {
            (Some(HandlerKind::Response), Payload::Response(resp)) => parse_response(
                self,
                return_route,
                resp,
            ),
            (Some(HandlerKind::Command), Payload::Command(cmd)) => parse_cmd(self, cmd),
            _ => (false, Vec::new()),
        }
    }

    /// As [`StreamConsumer::handle_message`], for any message: `None`, with
    /// the consumer unchanged, where the message is beyond machine limits.
    pub fn try_handle_message(&mut self, msg: Routed) -> (res: Option<(bool, Vec<Action>)>)
        ensures
            res is Some <==> accepts(old(self)@, msg@),
            res is None ==> final(self)@ == old(self)@,
            res matches Some(r) ==> {
                &&& final(self)@ == step(old(self)@, msg@).state
                &&& r.0 == step(old(self)@, msg@).handled
                &&& actions_view(r.1@) == step(old(self)@, msg@).actions
            },
    {
        if self.accepts(&msg) {
            Some(self.handle_message(msg))
        } else {
            None
        }
    }

    /// The next offset to request.
    pub fn last_index(&self) -> (index: u64)
        ensures
            index == self@.last_index,
    {
        self.idx
    }

    /// The best-known route to the stream service.
    pub fn stream_peer(&self) -> (route: &Route)
        ensures
            route_hops(*route) == self@.stream_peer,
    {
        &self.stream_peer
    }

    /// The best-known route to the index service.
    pub fn index_peer(&self) -> (route: &Route)
        ensures
            route_hops(*route) == self@.index_peer,
    {
        &self.index_peer
    }

    /// The identity under which checkpoints are stored.
    pub fn client_id(&self) -> (id: &String)
        ensures
            id@ == self@.client_id,
    {
        &self.client_id
    }

    /// The stream's name as the stream service announced it; `None` until
    /// the init response has been processed.
    pub fn stream_name(&self) -> (name: &Option<String>)
        ensures
            optional_name(*name) == self@.stream,
    {
        &self.stream
    }

    /// The stream name that the create-stream request asks for, if any.
    pub fn requested_stream_name(&self) -> (name: &Option<String>)
        ensures
            optional_name(*name) == self@.requested,
    {
        &self.requested
    }

    /// How far the handshake has come.
    pub fn handshake(&self) -> (handshake: Handshake)
        ensures
            handshake == self@.handshake,
    {
        self.handshake
    }

    /// The pause between two fetches.
    pub fn interval(&self) -> (interval: Duration)
        ensures
            duration_nanos(interval) == self@.interval_nanos,
    {
        self.interval
    }

    /// The local relay put in front of forwarded return routes, if any.
    pub fn producer_address(&self) -> (address: &Option<Address>)
        ensures
            optional_hop(*address) == self@.producer,
    {
        &self.prod
    }

    /// Where messages without an onward route are delivered.
    pub fn receiver_address(&self) -> (address: &Address)
        ensures
            address_hop(*address) == self@.receiver,
    {
        &self.rx_rx
    }
}

} // verus!
