//! The message shapes that a stream consumer exchanges with the stream
//! service, the index service and its own fetch timer, each with the
//! mathematical value that contracts speak of.

use crate::routing::{route_hops, Hop};
use ockam_core::Route;
use vstd::prelude::*;

verus! {

/// One stored message of a stream: its offset and its payload.
#[derive(Debug, Clone, PartialEq, Eq)]
pub struct StreamMessage {
    pub index: u64,
    pub data: Vec<u8>,
}

pub struct StreamMessageView {
    pub index: u64,
    pub data: Seq<u8>,
}

impl View for StreamMessage {
    type V = StreamMessageView;

    open spec fn view(&self) -> StreamMessageView {
        StreamMessageView { index: self.index, data: self.data@ }
    }
}

/// The views of a batch of stream messages, in order.
pub open spec fn batch_view(messages: Seq<StreamMessage>) -> Seq<StreamMessageView> {
    Seq::new(messages.len(), |i: int| messages[i]@)
}

/// Asks the stream service to create (or attach to) a stream.
#[derive(Debug, Clone, PartialEq, Eq)]
pub struct CreateStreamRequest {
    pub stream_name: Option<String>,
}

impl CreateStreamRequest {
    pub fn new(stream_name: Option<String>) -> (request: Request)
        ensures
            request@ == (RequestView::CreateStream { stream: optional_name(stream_name) }),
    {
        Request::CreateStream(CreateStreamRequest { stream_name })
    }
}

/// Asks the stream service for up to `count` messages from `start_index` on.
#[derive(Debug, Clone, PartialEq, Eq)]
pub struct PullRequest {
    pub request_id: u64,
    pub start_index: u64,
    pub count: u32,
}

impl PullRequest {
    pub fn new(request_id: u64, start_index: u64, count: u32) -> (request: Request)
        ensures
            request@ == (RequestView::Pull { request_id, start_index, count }),
    {
        Request::Pull(PullRequest { request_id, start_index, count })
    }
}

/// A request to the index service, keyed by stream and client.
#[derive(Debug, Clone, PartialEq, Eq)]
pub enum IndexRequest {
    Get { stream_name: String, client_id: String },
    Save { stream_name: String, client_id: String, index: u64 },
}

impl IndexRequest {
    /// The request for the offset stored for a stream and a client.
    pub fn get(stream_name: String, client_id: String) -> (request: Request)
        ensures
            request@ == (RequestView::IndexGet {
                stream_name: stream_name@,
                client_id: client_id@,
            }),
    {
        Request::Index(IndexRequest::Get { stream_name, client_id })
    }

    /// The request to store an offset for a stream and a client.
    pub fn save(stream_name: String, client_id: String, index: u64) -> (request: Request)
        ensures
            request@ == (RequestView::IndexSave {
                stream_name: stream_name@,
                client_id: client_id@,
                index,
            }),
    {
        Request::Index(IndexRequest::Save { stream_name, client_id, index })
    }
}

/// Everything a consumer sends to a remote service.
#[derive(Debug, Clone, PartialEq, Eq)]
pub enum Request {
    CreateStream(CreateStreamRequest),
    Index(IndexRequest),
    Pull(PullRequest),
}

pub enum RequestView {
    CreateStream { stream: Option<Seq<char>> },
    IndexGet { stream_name: Seq<char>, client_id: Seq<char> },
    IndexSave { stream_name: Seq<char>, client_id: Seq<char>, index: u64 },
    Pull { request_id: u64, start_index: u64, count: u32 },
}

/// The characters of a name that may be absent.
pub open spec fn optional_name(name: Option<String>) -> Option<Seq<char>> {
    match name {
        Some(s) => Some(s@),
        None => None,
    }
}

impl View for Request {
    type V = RequestView;

    open spec fn view(&self) -> RequestView {
        match self {
            Request::CreateStream(r) => RequestView::CreateStream {
                stream: optional_name(r.stream_name),
            },
            Request::Index(IndexRequest::Get { stream_name, client_id }) => RequestView::IndexGet {
                stream_name: stream_name@,
                client_id: client_id@,
            },
            Request::Index(IndexRequest::Save { stream_name, client_id, index }) => {
                RequestView::IndexSave {
                    stream_name: stream_name@,
                    client_id: client_id@,
                    index: *index,
                }
            },
            Request::Pull(r) => RequestView::Pull {
                request_id: r.request_id,
                start_index: r.start_index,
                count: r.count,
            },
        }
    }
}

/// The stream service's answer to a create-stream request.
#[derive(Debug, Clone, PartialEq, Eq)]
pub struct Init {
    pub stream_name: String,
}

/// The index service's answer to a get request: the stored offset, if any.
#[derive(Debug, Clone, PartialEq, Eq)]
pub struct Index {
    pub stream_name: String,
    pub index: Option<u64>,
}

/// The stream service's answer to a pull request: a batch of messages in
/// ascending offset order.
#[derive(Debug, Clone, PartialEq, Eq)]
pub struct PullResponse {
    pub request_id: u64,
    pub messages: Vec<StreamMessage>,
}

/// A response-shaped message.
#[derive(Debug, Clone, PartialEq, Eq)]
pub enum Response {
    Init(Init),
    Index(Index),
    PullResponse(PullResponse),
    /// A response meant for the publishing side of a stream.
    PushConfirm,
}

pub enum ResponseView {
    Init { stream_name: Seq<char> },
    Index { stream_name: Seq<char>, index: Option<u64> },
    PullResponse { request_id: u64, messages: Seq<StreamMessageView> },
    PushConfirm,
}

impl View for Response {
    type V = ResponseView;

    open spec fn view(&self) -> ResponseView {
        match self {
            Response::Init(r) => ResponseView::Init { stream_name: r.stream_name@ },
            Response::Index(r) => ResponseView::Index {
                stream_name: r.stream_name@,
                index: r.index,
            },
            Response::PullResponse(r) => ResponseView::PullResponse {
                request_id: r.request_id,
                messages: batch_view(r.messages@),
            },
            Response::PushConfirm => ResponseView::PushConfirm,
        }
    }
}

/// A command that a stream worker sends to itself.
#[derive(Debug, Clone, Copy, PartialEq, Eq)]
pub enum StreamWorkerCmd {
    /// The fetch timer fired: pull the next batch.
    Fetch,
    /// Hand out buffered messages; meant for the receiving end of a stream.
    Pull { num: u64 },
}

impl StreamWorkerCmd {
    /// The command that the fetch timer delivers.
    pub fn fetch() -> (cmd: StreamWorkerCmd)
        ensures
            cmd == StreamWorkerCmd::Fetch,
    {
        StreamWorkerCmd::Fetch
    }
}

/// The body of an incoming message, by shape.
#[derive(Debug, Clone, PartialEq, Eq)]
pub enum Payload {
    Response(Response),
    Command(StreamWorkerCmd),
    /// Any shape that is neither a response nor a command.
    Other,
}

pub enum PayloadView {
    Response(ResponseView),
    Command(StreamWorkerCmd),
    Other,
}

impl View for Payload {
    type V = PayloadView;

    open spec fn view(&self) -> PayloadView {
        match self {
            Payload::Response(r) => PayloadView::Response(r@),
            Payload::Command(c) => PayloadView::Command(*c),
            Payload::Other => PayloadView::Other,
        }
    }
}

/// An incoming message together with the route back to its sender.
#[derive(Debug, PartialEq, Eq)]
pub struct Routed {
    pub return_route: Route,
    pub body: Payload,
}

pub struct RoutedView {
    pub return_route: Seq<Hop>,
    pub body: PayloadView,
}

impl View for Routed {
    type V = RoutedView;

    open spec fn view(&self) -> RoutedView {
        RoutedView { return_route: route_hops(self.return_route), body: self.body@ }
    }
}

} // verus!
