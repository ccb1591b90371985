//! HTTP/3: the settings of the engine, the loop that takes request streams
//! off one connection, and the course of one request on its stream.

use vstd::prelude::*;

use crate::http::Method;
use crate::text::{is_word, push_text};

verus! {

/// The settings with which HTTP/3 connections are served.
#[derive(Clone, Copy, Debug, PartialEq, Eq, Structural)]
pub struct Builder {
    /// Whether the peer is told that WebTransport is supported.
    pub enable_webtransport: bool,
    /// Whether the extended `CONNECT` protocol is enabled.
    pub enable_connect: bool,
    /// Whether HTTP/3 datagrams are supported.
    pub enable_datagram: bool,
    /// The greatest number of WebTransport sessions at a time.
    pub max_webtransport_sessions: u64,
    /// Whether grease values are sent to the peer.
    pub send_grease: bool,
}

impl Builder {
    /// The settings of a server that offers WebTransport: extended `CONNECT`
    /// and datagrams are on, one session at a time, and grease is sent.
    pub fn new() -> (builder: Self)
        ensures
            builder == (Builder {
                enable_webtransport: true,
                enable_connect: true,
                enable_datagram: true,
                max_webtransport_sessions: 1,
                send_grease: true,
            }),
    {
        Builder {
            enable_webtransport: true,
            enable_connect: true,
            enable_datagram: true,
            max_webtransport_sessions: 1,
            send_grease: true,
        }
    }

    /// Starts serving a connection: the state of its loop, or the reason why
    /// the connection could not be set up.
    pub fn serve_connection(&self, built: Result<(), String>) -> (started: Result<
        ConnectionLoop,
        ServeError,
    >)
        ensures
            match built {
                Ok(_) => started == Ok::<ConnectionLoop, ServeError>(
                    ConnectionLoop { open: true, spawned: 0 },
                ),
                Err(reason) => started == Err::<ConnectionLoop, ServeError>(
                    ServeError::InvalidConnection(reason),
                ),
            },
    {
        match built {
            Ok(_) => Ok(ConnectionLoop { open: true, spawned: 0 }),
            Err(reason) => Err(ServeError::InvalidConnection(reason)),
        }
    }
}

/// Why serving a connection or a request on it has failed.
#[derive(Debug, PartialEq, Eq)]
pub enum ServeError {
    /// The connection could not be set up.
    InvalidConnection(String),
    /// The handler of the request has failed, for the given reason.
    HandlerFailed(String),
    /// The stream could not be brought to its end, for the given reason.
    FinishFailed(String),
}

impl ServeError {
    /// The error in words: what failed, then the reason.
    pub open spec fn spec_message(&self) -> Seq<char> {
        match self {
            ServeError::InvalidConnection(reason) => "invalid connection: "@ + reason@,
            ServeError::HandlerFailed(reason) => "failed to call hyper service : "@ + reason@,
            ServeError::FinishFailed(reason) => "failed to finish stream : "@ + reason@,
        }
    }

    /// The error in words: what failed, then the reason.
    pub fn message(&self) -> (message: String)
        ensures
            message@ == self.spec_message(),
    {
        let mut message = String::new();
        match self {
            ServeError::InvalidConnection(reason) => {
                push_text(&mut message, "invalid connection: ");
                push_text(&mut message, reason.as_str());
            },
            ServeError::HandlerFailed(reason) => {
                push_text(&mut message, "failed to call hyper service : ");
                push_text(&mut message, reason.as_str());
            },
            ServeError::FinishFailed(reason) => {
                push_text(&mut message, "failed to finish stream : ");
                push_text(&mut message, reason.as_str());
            },
        }
        assert(message@ =~= self.spec_message());
        message
    }
}

/// How far an error on a connection reaches.
#[derive(Clone, Copy, Debug, PartialEq, Eq, Structural)]
pub enum ErrorLevel {
    /// The whole connection is lost.
    ConnectionError,
    /// One stream is lost; the connection goes on.
    StreamError,
}

/// What a wait for the next request on a connection has brought.
#[derive(Clone, Copy, Debug, PartialEq, Eq, Structural)]
pub enum Incoming {
    /// A request, on a stream of its own.
    Request,
    /// The peer is done: no request will follow.
    Closed,
    /// An error of the given reach.
    Failed(ErrorLevel),
}

/// What the loop of a connection does next.
#[derive(Clone, Copy, Debug, PartialEq, Eq, Structural)]
pub enum LoopAction {
    /// Start a task for the request and wait for the next one.
    Spawn,
    /// Wait for the next request.
    Continue,
    /// Leave the loop.
    Stop,
}

/// The loop that takes requests off one connection.
#[derive(Clone, Copy, Debug, PartialEq, Eq, Structural)]
pub struct ConnectionLoop {
    /// Whether the loop still waits for requests.
    pub open: bool,
    /// The number of requests for which a task has been started.
    pub spawned: usize,
}

/// The loop after `incoming`, and what it does: a request gets a task of its
/// own, the end of the connection and an error that reaches the whole
/// connection end the loop, and an error on one stream is passed over.
pub open spec fn spec_on_incoming(state: ConnectionLoop, incoming: Incoming) -> (
    ConnectionLoop,
    LoopAction,
) {
    if !state.open {
        (state, LoopAction::Stop)
    } else {
        match incoming {
            Incoming::Request => (
                ConnectionLoop {
                    open: true,
                    spawned: if state.spawned < usize::MAX {
                        (state.spawned + 1) as usize
                    } else {
                        state.spawned
                    },
                },
                LoopAction::Spawn,
            ),
            Incoming::Closed => (ConnectionLoop { open: false, ..state }, LoopAction::Stop),
            Incoming::Failed(ErrorLevel::ConnectionError) => (
                ConnectionLoop { open: false, ..state },
                LoopAction::Stop,
            ),
            Incoming::Failed(ErrorLevel::StreamError) => (state, LoopAction::Continue),
        }
    }
}

impl ConnectionLoop {
    /// The loop after `incoming`, and what it does.
    pub fn on_incoming(self, incoming: Incoming) -> (next: (ConnectionLoop, LoopAction))
        ensures
            next == spec_on_incoming(self, incoming),
    {
        if !self.open {
            return (self, LoopAction::Stop);
        }
        match incoming {
            Incoming::Request => {
                let spawned: usize = if self.spawned < usize::MAX {
                    self.spawned + 1
                } else {
                    self.spawned
                };
                (ConnectionLoop { open: true, spawned }, LoopAction::Spawn)
            },
            Incoming::Closed => (
                ConnectionLoop { open: false, spawned: self.spawned },
                LoopAction::Stop,
            ),
            Incoming::Failed(ErrorLevel::ConnectionError) => (
                ConnectionLoop { open: false, spawned: self.spawned },
                LoopAction::Stop,
            ),
            Incoming::Failed(ErrorLevel::StreamError) => (self, LoopAction::Continue),
        }
    }
}

/// Which way a request goes.
#[derive(Clone, Copy, Debug, PartialEq, Eq, Structural)]
pub enum RequestPath {
    /// It opens a WebTransport session.
    WebTransport,
    /// It is an ordinary exchange of request and response.
    Exchange,
}

/// Which way a request with `method` and the `:protocol` value `protocol`
/// goes: `CONNECT` with the protocol `webtransport` opens a session, all else
/// is an ordinary exchange.
pub open spec fn spec_request_path(method: Seq<char>, protocol: Option<Seq<char>>) -> RequestPath {
    if method == "CONNECT"@ && protocol == Some("webtransport"@) {
        RequestPath::WebTransport
    } else {
        RequestPath::Exchange
    }
}

/// Which way a request with `method` and the `:protocol` value `protocol` goes.
pub fn request_path(method: &Method, protocol: Option<&str>) -> (path: RequestPath)
    ensures
        path == spec_request_path(
            method@,
            match protocol {
                Some(name) => Some(name@),
                None => None,
            },
        ),
{
    match protocol {
        Some(name) => {
            if method.is("CONNECT") && is_word(name, "webtransport") {
                RequestPath::WebTransport
            } else {
                RequestPath::Exchange
            }
        },
        None => RequestPath::Exchange,
    }
}

/// How far the exchange on one stream has come.
#[derive(Clone, Copy, Debug, PartialEq, Eq, Structural)]
pub enum Stage {
    /// The handler is at work.
    Handling,
    /// The head of the response is being sent.
    SendingHead,
    /// The next piece of the body is awaited.
    Polling,
    /// A piece of the body is being sent.
    SendingData,
    /// The stream is being finished.
    Finishing,
    /// The exchange is over.
    Done,
}

/// What has happened on a stream.
#[derive(Clone, Copy, Debug, PartialEq, Eq, Structural)]
pub enum StreamEvent {
    /// The handler has returned, with a response (`true`) or an error.
    Handled(bool),
    /// The head of the response has been sent (`true`) or could not be.
    HeadSent(bool),
    /// The body has yielded a piece (`true`) or an error.
    Polled(bool),
    /// The body has ended.
    BodyEnded,
    /// A piece of the body has been sent (`true`) or could not be.
    DataSent(bool),
    /// The stream has been finished (`true`) or could not be.
    Finished(bool),
}

/// What to do next on a stream.
#[derive(Clone, Copy, Debug, PartialEq, Eq, Structural)]
pub enum StreamAction {
    /// Send the head of the response.
    SendHead,
    /// Ask the body for its next piece.
    Poll,
    /// Send the piece that the body has yielded.
    SendData,
    /// Finish the stream.
    Finish,
    /// Report that the request has been served.
    Succeed,
    /// Report that the handler has failed.
    FailHandler,
    /// Report that the stream could not be finished.
    FailFinish,
    /// Nothing: the event does not belong to this stage.
    Ignore,
}

/// The stage after `event`, and what to do.
///
/// A head or a piece that could not be sent, and a piece that the body could
/// not yield, are passed over: the exchange goes on. Only a failure of the
/// handler or of the finish ends it with an error.
pub open spec fn spec_stream_step(stage: Stage, event: StreamEvent) -> (Stage, StreamAction) {
    match (stage, event) {
        (Stage::Handling, StreamEvent::Handled(true)) => (Stage::SendingHead, StreamAction::SendHead),
        (Stage::Handling, StreamEvent::Handled(false)) => (Stage::Done, StreamAction::FailHandler),
        (Stage::SendingHead, StreamEvent::HeadSent(_)) => (Stage::Polling, StreamAction::Poll),
        (Stage::Polling, StreamEvent::Polled(true)) => (Stage::SendingData, StreamAction::SendData),
        (Stage::Polling, StreamEvent::Polled(false)) => (Stage::Polling, StreamAction::Poll),
        (Stage::Polling, StreamEvent::BodyEnded) => (Stage::Finishing, StreamAction::Finish),
        (Stage::SendingData, StreamEvent::DataSent(_)) => (Stage::Polling, StreamAction::Poll),
        (Stage::Finishing, StreamEvent::Finished(true)) => (Stage::Done, StreamAction::Succeed),
        (Stage::Finishing, StreamEvent::Finished(false)) => (Stage::Done, StreamAction::FailFinish),
        _ => (stage, StreamAction::Ignore),
    }
}

/// The stage after `event`, and what to do.
pub fn stream_step(stage: Stage, event: StreamEvent) -> (next: (Stage, StreamAction))
    ensures
        next == spec_stream_step(stage, event),
{
    match (stage, event) {
        (Stage::Handling, StreamEvent::Handled(true)) => (Stage::SendingHead, StreamAction::SendHead),
        (Stage::Handling, StreamEvent::Handled(false)) => (Stage::Done, StreamAction::FailHandler),
        (Stage::SendingHead, StreamEvent::HeadSent(_)) => (Stage::Polling, StreamAction::Poll),
        (Stage::Polling, StreamEvent::Polled(true)) => (Stage::SendingData, StreamAction::SendData),
        (Stage::Polling, StreamEvent::Polled(false)) => (Stage::Polling, StreamAction::Poll),
        (Stage::Polling, StreamEvent::BodyEnded) => (Stage::Finishing, StreamAction::Finish),
        (Stage::SendingData, StreamEvent::DataSent(_)) => (Stage::Polling, StreamAction::Poll),
        (Stage::Finishing, StreamEvent::Finished(true)) => (Stage::Done, StreamAction::Succeed),
        (Stage::Finishing, StreamEvent::Finished(false)) => (Stage::Done, StreamAction::FailFinish),
        _ => (stage, StreamAction::Ignore),
    }
}

/// What is reported of a request whose exchange has ended with `action`,
/// where `reason` is why the last step failed, if it did.
pub fn stream_outcome(action: StreamAction, reason: String) -> (outcome: Option<
    Result<(), ServeError>,
>)
    ensures
        outcome == match action {
            StreamAction::Succeed => Some(Ok::<(), ServeError>(())),
            StreamAction::FailHandler => Some(
                Err::<(), ServeError>(ServeError::HandlerFailed(reason)),
            ),
            StreamAction::FailFinish => Some(Err::<(), ServeError>(ServeError::FinishFailed(reason))),
            _ => None,
        },
{
    match action {
        StreamAction::Succeed => Some(Ok(())),
        StreamAction::FailHandler => Some(Err(ServeError::HandlerFailed(reason))),
        StreamAction::FailFinish => Some(Err(ServeError::FinishFailed(reason))),
        _ => None,
    }
}

/// The stage reached from `stage` after all of `events`, in order.
pub open spec fn spec_stream_run(stage: Stage, events: Seq<StreamEvent>) -> Stage
    decreases events.len(),
{
    if events.len() == 0 {
        stage
    } else {
        spec_stream_step(spec_stream_run(stage, events.drop_last()), events.last()).0
    }
}

/// The loop reached from `state` after all of `incoming`, in order.
pub open spec fn spec_loop_run(state: ConnectionLoop, incoming: Seq<Incoming>) -> ConnectionLoop
    decreases incoming.len(),
{
    if incoming.len() == 0 {
        state
    } else {
        spec_on_incoming(spec_loop_run(state, incoming.drop_last()), incoming.last()).0
    }
}

/// Errors that reach one stream only never end the loop of the connection:
/// as long as nothing else arrives than requests and such errors, the loop
/// stays open.
pub proof fn lemma_stream_errors_keep_loop_open(state: ConnectionLoop, incoming: Seq<Incoming>)
    requires
        state.open,
        forall|i: int|
            0 <= i < incoming.len() ==> #[trigger] incoming[i] == Incoming::Request || incoming[i]
                == Incoming::Failed(ErrorLevel::StreamError),
    ensures
        spec_loop_run(state, incoming).open,
    decreases incoming.len(),
{
    if incoming.len() > 0 {
        let before = incoming.drop_last();
        assert forall|i: int| 0 <= i < before.len() implies #[trigger] before[i]
            == Incoming::Request || before[i] == Incoming::Failed(ErrorLevel::StreamError) by {
            assert(before[i] == incoming[i]);
        }
        lemma_stream_errors_keep_loop_open(state, before);
        let last = incoming[incoming.len() - 1];
        assert(last == Incoming::Request || last == Incoming::Failed(ErrorLevel::StreamError));
    }
}

/// Once the loop is closed it stays closed, and asks for nothing but to stop.
pub proof fn lemma_closed_loop_stays_closed(state: ConnectionLoop, incoming: Incoming)
    requires
        !state.open,
    ensures
        spec_on_incoming(state, incoming) == (state, LoopAction::Stop),
{
}

/// An exchange ends with an error only where the handler failed or the
/// stream could not be finished: what happens while the response is written
/// never ends it.
pub proof fn lemma_write_errors_do_not_end_exchange(stage: Stage, event: StreamEvent)
    requires
        event is HeadSent || event is Polled || event is DataSent,
    ensures
        spec_stream_step(stage, event).0 != Stage::Done || stage == Stage::Done,
        spec_stream_step(stage, event).1 != StreamAction::FailHandler,
        spec_stream_step(stage, event).1 != StreamAction::FailFinish,
{
}

} // verus!
