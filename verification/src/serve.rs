//! The decisions of the accept loop, of each connection and of each request.
//!
//! The server runs these loops asynchronously; each awaited outcome is handed to the
//! functions here, which say what to do next.
use vstd::prelude::*;

use crate::error::{internal_error, Error, ErrorKind};

verus! {

/// What the accept loop observed.
pub enum AcceptLoopEvent {
    /// The shutdown channel changed; `channel_open` is false once its sender is gone, and
    /// `requested` is the value it now holds.
    ShutdownChanged { channel_open: bool, requested: bool },
    /// The endpoint stopped accepting connections.
    EndpointClosed,
    /// An incoming connection was accepted and is handshaking.
    IncomingAccepted,
    /// An incoming connection was refused while its first packet was processed (for
    /// instance a handshake the listener cannot complete).
    IncomingRejected,
    /// A connection task finished (its outcome is only logged).
    ConnectionJoined,
}

/// What the accept loop does next.
pub enum AcceptLoopAction {
    /// Keep waiting for events.
    Continue,
    /// Serve the accepted connection in a task of its own.
    SpawnConnection,
    /// Stop accepting, wait for the running connections to finish, and return `Ok`.
    StopAccepting,
}

/// The accept loop's decision for one event.
///
/// It stops on a shutdown request, when the shutdown sender is gone, or when the endpoint
/// closes, and on nothing else; it serves each accepted connection; a refused incoming
/// connection or a finished connection, whatever its outcome, changes nothing, so one
/// client's failed handshake never stops the listener.
pub fn accept_loop_step(event: AcceptLoopEvent) -> (action: AcceptLoopAction)
    ensures
        event matches AcceptLoopEvent::ShutdownChanged { channel_open, requested } ==> (if !channel_open
            || requested {
            action is StopAccepting
        } else {
            action is Continue
        }),
        event is EndpointClosed ==> action is StopAccepting,
        event is IncomingAccepted ==> action is SpawnConnection,
        event is ConnectionJoined ==> action is Continue,
        event is IncomingRejected ==> action is Continue,
        action is StopAccepting <==> (event is EndpointClosed || (event matches
            AcceptLoopEvent::ShutdownChanged { channel_open, requested } && (!channel_open
            || requested))),
{
    match event {
        AcceptLoopEvent::ShutdownChanged { channel_open, requested } => {
            if channel_open && requested {
                AcceptLoopAction::StopAccepting
            } else if !channel_open {
                AcceptLoopAction::StopAccepting
            } else {
                AcceptLoopAction::Continue
            }
        },
        AcceptLoopEvent::EndpointClosed => AcceptLoopAction::StopAccepting,
        AcceptLoopEvent::IncomingAccepted => AcceptLoopAction::SpawnConnection,
        AcceptLoopEvent::IncomingRejected => AcceptLoopAction::Continue,
        AcceptLoopEvent::ConnectionJoined => AcceptLoopAction::Continue,
    }
}

/// Whether the accept loop also waits for connection tasks to finish: only while some run.
pub fn accept_loop_polls_joins(live_connections: usize) -> (polls: bool)
    ensures
        polls == (live_connections > 0),
{
    live_connections != 0
}

/// What a connection task observed.
pub enum ConnectionEvent {
    /// The QUIC handshake failed; the error's text.
    HandshakeFailed(String),
    /// The HTTP/3 connection could not be set up; the error's text.
    SetupFailed(String),
    /// A request stream was accepted.
    RequestAccepted,
    /// The peer closed the connection gracefully.
    PeerClosed,
    /// Accepting the next request failed; the error's text.
    AcceptFailed(String),
}

/// What a connection task does next.
pub enum ConnectionAction {
    /// Serve the request in a task of its own, and accept the next.
    SpawnRequest,
    /// Stop accepting, wait for the running requests to finish, and return `Ok`.
    Drain,
    /// Return this error.
    Fail(Error),
}

/// A connection's decision for one event.
pub fn connection_step(event: ConnectionEvent) -> (action: ConnectionAction)
    ensures
        event is RequestAccepted ==> action is SpawnRequest,
        event is PeerClosed ==> action is Drain,
        event is HandshakeFailed ==> (action matches ConnectionAction::Fail(e) && e@ == (
            ErrorKind::Internal,
            "QUIC handshake failed: "@ + event->HandshakeFailed_0@,
        )),
        event is SetupFailed ==> (action matches ConnectionAction::Fail(e) && e@ == (
            ErrorKind::Internal,
            "HTTP/3 connection failed: "@ + event->SetupFailed_0@,
        )),
        event is AcceptFailed ==> (action matches ConnectionAction::Fail(e) && e@ == (
            ErrorKind::Internal,
            "HTTP/3 accept failed: "@ + event->AcceptFailed_0@,
        )),
{
    match event {
        ConnectionEvent::HandshakeFailed(detail) => ConnectionAction::Fail(
            internal_error("QUIC handshake failed: ", detail.as_str()),
        ),
        ConnectionEvent::SetupFailed(detail) => ConnectionAction::Fail(
            internal_error("HTTP/3 connection failed: ", detail.as_str()),
        ),
        ConnectionEvent::RequestAccepted => ConnectionAction::SpawnRequest,
        ConnectionEvent::PeerClosed => ConnectionAction::Drain,
        ConnectionEvent::AcceptFailed(detail) => ConnectionAction::Fail(
            internal_error("HTTP/3 accept failed: ", detail.as_str()),
        ),
    }
}

/// Where the handling of one request stands.
#[derive(Clone, Copy, Debug, PartialEq, Eq)]
pub enum RequestPhase {
    /// Receiving the request headers.
    Resolving,
    /// Waiting for the service to be ready.
    Readying,
    /// Waiting for the service's response.
    Calling,
    /// Sending the service's response headers.
    SendingHeaders,
    /// Sending the headers of a `503 Service Unavailable` response, which has no body.
    SendingUnavailable,
    /// Waiting for the next frame of the response body.
    StreamingBody,
    /// Sending a DATA frame.
    SendingData,
    /// Sending the response trailers.
    SendingTrailers,
    /// Finishing the stream.
    Finishing,
    /// The response was sent completely.
    Complete,
    /// The request failed.
    Failed,
}

/// What the request handler observed; `T` is the error text's type.
pub enum RequestEvent<T> {
    /// The request headers arrived.
    Resolved,
    /// Receiving the request headers failed.
    ResolveFailed(T),
    /// The service is ready.
    ServiceReady,
    /// The service reported it cannot take the request.
    ServiceNotReady,
    /// The service responded.
    ServiceResponded,
    /// The service failed.
    ServiceFailed(T),
    /// The response headers were sent.
    HeadersSent,
    /// Sending the response headers failed.
    HeadersFailed(T),
    /// The response body yielded a data chunk of this many bytes.
    BodyData(usize),
    /// The response body yielded its trailers.
    BodyTrailers,
    /// The response body ended.
    BodyEnd,
    /// The response body failed.
    BodyFailed(T),
    /// The data chunk was sent.
    DataSent,
    /// Sending the data chunk failed.
    DataFailed(T),
    /// The trailers were sent.
    TrailersSent,
    /// Sending the trailers failed.
    TrailersFailed(T),
    /// The stream was finished.
    Finished,
    /// Finishing the stream failed.
    FinishFailed(T),
}

/// What the request handler does next; `E` is the error's type.
pub enum RequestAction<E> {
    /// Wait for the service to be ready.
    AwaitReady,
    /// Call the service with the request.
    CallService,
    /// Send the service's response headers.
    SendResponse,
    /// Send a `503 Service Unavailable` response with an empty body.
    SendServiceUnavailable,
    /// Wait for the next frame of the response body.
    PollBody,
    /// Send the data chunk as a DATA frame.
    SendData,
    /// Send the trailers.
    SendTrailers,
    /// Finish the stream.
    Finish,
    /// The request is done.
    Complete,
    /// Give up with this error.
    Fail(E),
}

impl View for RequestEvent<String> {
    type V = RequestEvent<Seq<char>>;

    open spec fn view(&self) -> RequestEvent<Seq<char>> {
        match self {
            RequestEvent::Resolved => RequestEvent::Resolved,
            RequestEvent::ResolveFailed(t) => RequestEvent::ResolveFailed(t@),
            RequestEvent::ServiceReady => RequestEvent::ServiceReady,
            RequestEvent::ServiceNotReady => RequestEvent::ServiceNotReady,
            RequestEvent::ServiceResponded => RequestEvent::ServiceResponded,
            RequestEvent::ServiceFailed(t) => RequestEvent::ServiceFailed(t@),
            RequestEvent::HeadersSent => RequestEvent::HeadersSent,
            RequestEvent::HeadersFailed(t) => RequestEvent::HeadersFailed(t@),
            RequestEvent::BodyData(n) => RequestEvent::BodyData(*n),
            RequestEvent::BodyTrailers => RequestEvent::BodyTrailers,
            RequestEvent::BodyEnd => RequestEvent::BodyEnd,
            RequestEvent::BodyFailed(t) => RequestEvent::BodyFailed(t@),
            RequestEvent::DataSent => RequestEvent::DataSent,
            RequestEvent::DataFailed(t) => RequestEvent::DataFailed(t@),
            RequestEvent::TrailersSent => RequestEvent::TrailersSent,
            RequestEvent::TrailersFailed(t) => RequestEvent::TrailersFailed(t@),
            RequestEvent::Finished => RequestEvent::Finished,
            RequestEvent::FinishFailed(t) => RequestEvent::FinishFailed(t@),
        }
    }
}

impl View for RequestAction<Error> {
    type V = RequestAction<(ErrorKind, Seq<char>)>;

    open spec fn view(&self) -> RequestAction<(ErrorKind, Seq<char>)> {
        match self {
            RequestAction::AwaitReady => RequestAction::AwaitReady,
            RequestAction::CallService => RequestAction::CallService,
            RequestAction::SendResponse => RequestAction::SendResponse,
            RequestAction::SendServiceUnavailable => RequestAction::SendServiceUnavailable,
            RequestAction::PollBody => RequestAction::PollBody,
            RequestAction::SendData => RequestAction::SendData,
            RequestAction::SendTrailers => RequestAction::SendTrailers,
            RequestAction::Finish => RequestAction::Finish,
            RequestAction::Complete => RequestAction::Complete,
            RequestAction::Fail(e) => RequestAction::Fail(e@),
        }
    }
}

/// Whether the handler can observe `event` in `phase`: the outcome of the action that the
/// phase awaits.
pub open spec fn request_event_fits(phase: RequestPhase, event: RequestEvent<Seq<char>>) -> bool {
    match phase {
        RequestPhase::Resolving => event is Resolved || event is ResolveFailed,
        RequestPhase::Readying => event is ServiceReady || event is ServiceNotReady,
        RequestPhase::Calling => event is ServiceResponded || event is ServiceFailed,
        RequestPhase::SendingHeaders => event is HeadersSent || event is HeadersFailed,
        RequestPhase::SendingUnavailable => event is HeadersSent || event is HeadersFailed,
        RequestPhase::StreamingBody => event is BodyData || event is BodyTrailers || event is BodyEnd
            || event is BodyFailed,
        RequestPhase::SendingData => event is DataSent || event is DataFailed,
        RequestPhase::SendingTrailers => event is TrailersSent || event is TrailersFailed,
        RequestPhase::Finishing => event is Finished || event is FinishFailed,
        RequestPhase::Complete => false,
        RequestPhase::Failed => false,
    }
}

/// A failure with an internal error whose detail is `prefix` followed by the event's text.
pub open spec fn request_failure(prefix: Seq<char>, detail: Seq<char>) -> (
    RequestPhase,
    RequestAction<(ErrorKind, Seq<char>)>,
) {
    (RequestPhase::Failed, RequestAction::Fail((ErrorKind::Internal, prefix + detail)))
}

/// The handler's next phase and action after observing `event` in `phase`.
pub open spec fn request_step(phase: RequestPhase, event: RequestEvent<Seq<char>>) -> (
    RequestPhase,
    RequestAction<(ErrorKind, Seq<char>)>,
) {
    match event {
        RequestEvent::Resolved => (RequestPhase::Readying, RequestAction::AwaitReady),
        RequestEvent::ResolveFailed(t) => request_failure(
            "HTTP/3 request resolution failed: "@,
            t,
        ),
        RequestEvent::ServiceReady => (RequestPhase::Calling, RequestAction::CallService),
        RequestEvent::ServiceNotReady => (
            RequestPhase::SendingUnavailable,
            RequestAction::SendServiceUnavailable,
        ),
        RequestEvent::ServiceResponded => (RequestPhase::SendingHeaders, RequestAction::SendResponse),
        RequestEvent::ServiceFailed(t) => request_failure("HTTP/3 service failed: "@, t),
        RequestEvent::HeadersSent => if phase == RequestPhase::SendingUnavailable {
            (RequestPhase::Finishing, RequestAction::Finish)
        } else {
            (RequestPhase::StreamingBody, RequestAction::PollBody)
        },
        RequestEvent::HeadersFailed(t) => request_failure("HTTP/3 response headers failed: "@, t),
        RequestEvent::BodyData(n) => if n == 0 {
            (RequestPhase::StreamingBody, RequestAction::PollBody)
        } else {
            (RequestPhase::SendingData, RequestAction::SendData)
        },
        RequestEvent::BodyTrailers => (RequestPhase::SendingTrailers, RequestAction::SendTrailers),
        RequestEvent::BodyEnd => (RequestPhase::Finishing, RequestAction::Finish),
        RequestEvent::BodyFailed(t) => request_failure("HTTP/3 response body failed: "@, t),
        RequestEvent::DataSent => (RequestPhase::StreamingBody, RequestAction::PollBody),
        RequestEvent::DataFailed(t) => request_failure("HTTP/3 response body failed: "@, t),
        RequestEvent::TrailersSent => (RequestPhase::Finishing, RequestAction::Finish),
        RequestEvent::TrailersFailed(t) => request_failure("HTTP/3 response trailers failed: "@, t),
        RequestEvent::Finished => (RequestPhase::Complete, RequestAction::Complete),
        RequestEvent::FinishFailed(t) => request_failure("HTTP/3 response finish failed: "@, t),
    }
}

/// The handling of one request, from its headers to the end of its response.
pub struct RequestFlow {
    phase: RequestPhase,
}

impl View for RequestFlow {
    type V = RequestPhase;

    closed spec fn view(&self) -> RequestPhase {
        self.phase
    }
}

impl RequestFlow {
    /// A request whose headers are awaited.
    pub fn new() -> (flow: Self)
        ensures
            flow@ == RequestPhase::Resolving,
    {
        RequestFlow { phase: RequestPhase::Resolving }
    }

    /// The current phase.
    pub fn phase(&self) -> (phase: RequestPhase)
        ensures
            phase == self@,
    {
        self.phase
    }

    /// Whether the handler can observe `event` now.
    pub fn accepts(&self, event: &RequestEvent<String>) -> (fits: bool)
        ensures
            fits == request_event_fits(self@, event@),
    {
        match self.phase {
            RequestPhase::Resolving => match event {
                RequestEvent::Resolved | RequestEvent::ResolveFailed(_) => true,
                _ => false,
            },
            RequestPhase::Readying => match event {
                RequestEvent::ServiceReady | RequestEvent::ServiceNotReady => true,
                _ => false,
            },
            RequestPhase::Calling => match event {
                RequestEvent::ServiceResponded | RequestEvent::ServiceFailed(_) => true,
                _ => false,
            },
            RequestPhase::SendingHeaders | RequestPhase::SendingUnavailable => match event {
                RequestEvent::HeadersSent | RequestEvent::HeadersFailed(_) => true,
                _ => false,
            },
            RequestPhase::StreamingBody => match event {
                RequestEvent::BodyData(_)
                | RequestEvent::BodyTrailers
                | RequestEvent::BodyEnd
                | RequestEvent::BodyFailed(_) => true,
                _ => false,
            },
            RequestPhase::SendingData => match event {
                RequestEvent::DataSent | RequestEvent::DataFailed(_) => true,
                _ => false,
            },
            RequestPhase::SendingTrailers => match event {
                RequestEvent::TrailersSent | RequestEvent::TrailersFailed(_) => true,
                _ => false,
            },
            RequestPhase::Finishing => match event {
                RequestEvent::Finished | RequestEvent::FinishFailed(_) => true,
                _ => false,
            },
            RequestPhase::Complete => false,
            RequestPhase::Failed => false,
        }
    }

    /// Observes `event` and says what to do next.
    pub fn step(&mut self, event: RequestEvent<String>) -> (action: RequestAction<Error>)
        requires
            request_event_fits(old(self)@, event@),
        ensures
            (final(self)@, action@) == request_step(old(self)@, event@),
    {
        let (phase, action) = match event {
            RequestEvent::Resolved => (RequestPhase::Readying, RequestAction::AwaitReady),
            RequestEvent::ResolveFailed(t) => (
                RequestPhase::Failed,
                RequestAction::Fail(
                    internal_error("HTTP/3 request resolution failed: ", t.as_str()),
                ),
            ),
            RequestEvent::ServiceReady => (RequestPhase::Calling, RequestAction::CallService),
            RequestEvent::ServiceNotReady => (
                RequestPhase::SendingUnavailable,
                RequestAction::SendServiceUnavailable,
            ),
            RequestEvent::ServiceResponded => (
                RequestPhase::SendingHeaders,
                RequestAction::SendResponse,
            ),
            RequestEvent::ServiceFailed(t) => (
                RequestPhase::Failed,
                RequestAction::Fail(internal_error("HTTP/3 service failed: ", t.as_str())),
            ),
            RequestEvent::HeadersSent => match self.phase {
                RequestPhase::SendingUnavailable => (RequestPhase::Finishing, RequestAction::Finish),
                _ => (RequestPhase::StreamingBody, RequestAction::PollBody),
            },
            RequestEvent::HeadersFailed(t) => (
                RequestPhase::Failed,
                RequestAction::Fail(
                    internal_error("HTTP/3 response headers failed: ", t.as_str()),
                ),
            ),
            RequestEvent::BodyData(n) => if n == 0 {
                (RequestPhase::StreamingBody, RequestAction::PollBody)
            } else {
                (RequestPhase::SendingData, RequestAction::SendData)
            },
            RequestEvent::BodyTrailers => (
                RequestPhase::SendingTrailers,
                RequestAction::SendTrailers,
            ),
            RequestEvent::BodyEnd => (RequestPhase::Finishing, RequestAction::Finish),
            RequestEvent::BodyFailed(t) => (
                RequestPhase::Failed,
                RequestAction::Fail(internal_error("HTTP/3 response body failed: ", t.as_str())),
            ),
            RequestEvent::DataSent => (RequestPhase::StreamingBody, RequestAction::PollBody),
            RequestEvent::DataFailed(t) => (
                RequestPhase::Failed,
                RequestAction::Fail(internal_error("HTTP/3 response body failed: ", t.as_str())),
            ),
            RequestEvent::TrailersSent => (RequestPhase::Finishing, RequestAction::Finish),
            RequestEvent::TrailersFailed(t) => (
                RequestPhase::Failed,
                RequestAction::Fail(
                    internal_error("HTTP/3 response trailers failed: ", t.as_str()),
                ),
            ),
            RequestEvent::Finished => (RequestPhase::Complete, RequestAction::Complete),
            RequestEvent::FinishFailed(t) => (
                RequestPhase::Failed,
                RequestAction::Fail(
                    internal_error("HTTP/3 response finish failed: ", t.as_str()),
                ),
            ),
        };
        self.phase = phase;
        action
    }
}

/// How far the handling of a request has come; sending a data chunk counts as streaming.
pub open spec fn request_progress(phase: RequestPhase) -> int {
    match phase {
        RequestPhase::Resolving => 0,
        RequestPhase::Readying => 1,
        RequestPhase::Calling => 2,
        RequestPhase::SendingHeaders => 3,
        RequestPhase::SendingUnavailable => 3,
        RequestPhase::StreamingBody => 4,
        RequestPhase::SendingData => 4,
        RequestPhase::SendingTrailers => 5,
        RequestPhase::Finishing => 6,
        RequestPhase::Complete => 7,
        RequestPhase::Failed => 7,
    }
}

/// Laws of request handling, for every phase and every event the handler can observe there:
/// - handling only moves forward, and a finished request (complete or failed) observes
///   nothing more;
/// - the service is called exactly when its readiness check succeeded, and a `503` is sent
///   exactly when it failed;
/// - a `503` has no body: once its headers are sent the stream is finished, and no body is
///   polled or sent;
/// - a data frame is sent only for a non-empty chunk, and only once the headers were sent;
/// - the stream is finished only after the body ended (directly or after its trailers);
/// - every failure ends the request with an internal error that names the failed stage.
pub proof fn lemma_request_flow(phase: RequestPhase, event: RequestEvent<Seq<char>>)
    requires
        request_event_fits(phase, event),
    ensures
        request_progress(request_step(phase, event).0) >= request_progress(phase),
        phase != RequestPhase::Complete && phase != RequestPhase::Failed,
        forall|e: RequestEvent<Seq<char>>|
            !request_event_fits(RequestPhase::Complete, e) && !request_event_fits(
                RequestPhase::Failed,
                e,
            ),
        request_step(phase, event).1 is CallService <==> (phase == RequestPhase::Readying
            && event is ServiceReady),
        request_step(phase, event).1 is SendServiceUnavailable <==> (phase
            == RequestPhase::Readying && event is ServiceNotReady),
        request_step(phase, event).1 is SendData ==> (event matches RequestEvent::BodyData(n)
            && n > 0 && phase == RequestPhase::StreamingBody),
        request_step(phase, event).1 is Finish ==> (event is BodyEnd || event is TrailersSent || (
        phase == RequestPhase::SendingUnavailable && event is HeadersSent)),
        phase == RequestPhase::SendingUnavailable ==> !(request_step(phase, event).1 is PollBody)
            && !(request_step(phase, event).1 is SendData) && (event is HeadersSent ==> request_step(
            phase,
            event,
        ) == (RequestPhase::Finishing, RequestAction::<(ErrorKind, Seq<char>)>::Finish)),
        request_step(phase, event).1 is PollBody ==> (phase == RequestPhase::SendingHeaders
            || phase == RequestPhase::StreamingBody || phase == RequestPhase::SendingData),
        request_step(phase, event).0 == RequestPhase::Failed <==> request_step(
            phase,
            event,
        ).1 is Fail,
        request_step(phase, event).1 matches RequestAction::Fail(err) ==> err.0
            == ErrorKind::Internal,
{
}

/// Every non-empty chunk of the response body is sent, whatever its size: while the body
/// streams, a chunk of `n > 0` bytes always leads to sending it as a DATA frame, and only an
/// empty chunk is skipped by polling the body again.
pub proof fn lemma_every_chunk_sent(n: usize)
    ensures
        n > 0 ==> request_step(RequestPhase::StreamingBody, RequestEvent::BodyData(n)) == (
            RequestPhase::SendingData,
            RequestAction::<(ErrorKind, Seq<char>)>::SendData,
        ),
        n == 0 ==> request_step(RequestPhase::StreamingBody, RequestEvent::BodyData(n)) == (
            RequestPhase::StreamingBody,
            RequestAction::<(ErrorKind, Seq<char>)>::PollBody,
        ),
        request_step(RequestPhase::SendingData, RequestEvent::<Seq<char>>::DataSent) == (
            RequestPhase::StreamingBody,
            RequestAction::<(ErrorKind, Seq<char>)>::PollBody,
        ),
{
}

/// A response stream is always finished before the request completes: when the body ends
/// (directly, or after its trailers were sent) the handler moves to finishing and finishes
/// the stream; every step into finishing asks for the stream to be finished; and the request
/// completes only in finishing, once the stream has finished.
pub proof fn lemma_finish_before_complete(phase: RequestPhase, event: RequestEvent<Seq<char>>)
    requires
        request_event_fits(phase, event),
    ensures
        request_step(RequestPhase::StreamingBody, RequestEvent::<Seq<char>>::BodyEnd) == (
            RequestPhase::Finishing,
            RequestAction::<(ErrorKind, Seq<char>)>::Finish,
        ),
        request_step(RequestPhase::SendingTrailers, RequestEvent::<Seq<char>>::TrailersSent) == (
            RequestPhase::Finishing,
            RequestAction::<(ErrorKind, Seq<char>)>::Finish,
        ),
        request_step(phase, event).0 == RequestPhase::Finishing <==> request_step(
            phase,
            event,
        ).1 is Finish,
        request_step(phase, event).1 is Complete <==> (phase == RequestPhase::Finishing
            && event is Finished),
        request_step(phase, event).0 == RequestPhase::Complete <==> (phase
            == RequestPhase::Finishing && event is Finished),
{
}

} // verus!
