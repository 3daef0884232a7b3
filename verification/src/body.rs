//! HTTP/3 request body: the decisions of the body's frame poller.
//!
//! The poller alternates between holding the request stream (ready to start a DATA receive)
//! and awaiting a receive that has taken the stream. A completed receive hands the stream
//! back; end of data or a stream error finishes the body for good.
use vstd::prelude::*;

verus! {

/// Error returned while receiving an HTTP/3 request body.
#[derive(Debug)]
pub enum H3RequestBodyError {
    /// The underlying HTTP/3 stream returned an error while receiving data.
    Stream(String),
}

/// The text of an [`H3RequestBodyError`].
pub open spec fn body_error_text(e: H3RequestBodyError) -> Seq<char> {
    match e {
        H3RequestBodyError::Stream(detail) => "HTTP/3 request body failed: "@ + detail@,
    }
}

impl H3RequestBodyError {
    /// The error's message, `HTTP/3 request body failed: <detail>`.
    pub fn message(&self) -> (text: String)
        ensures
            text@ == body_error_text(*self),
    {
        match self {
            H3RequestBodyError::Stream(detail) => {
                let mut text = String::from_str("HTTP/3 request body failed: ");
                text.append(detail.as_str());
                text
            },
        }
    }
}

/// Where the body's frame poller stands.
#[derive(Clone, Copy, Debug, PartialEq, Eq)]
pub enum BodyPhase {
    /// Holding the stream; the next poll starts receiving a DATA frame.
    ReadingData,
    /// A receive holds the stream and is awaited.
    AwaitingData,
    /// The body has ended, normally or with an error.
    Done,
}

/// What the frame poller does next.
#[derive(Clone, Copy, Debug, PartialEq, Eq)]
pub enum BodyStep {
    /// Hand the stream to a new DATA receive, then keep polling.
    StartReceive,
    /// Poll the pending receive.
    PollReceive,
    /// Report the end of the body.
    Finished,
}

/// How a DATA receive completed.
#[derive(Clone, Copy, Debug, PartialEq, Eq)]
pub enum ReceiveOutcome {
    /// A chunk of data arrived.
    Data,
    /// The peer ended the request body.
    End,
    /// The stream failed.
    Failed,
}

/// What the poller yields for a completed receive.
#[derive(Clone, Copy, Debug, PartialEq, Eq)]
pub enum BodyYield {
    /// A DATA frame carrying the received chunk.
    Frame,
    /// The end of the body.
    End,
    /// The stream's error.
    Error,
}

/// State of an HTTP/3 request body's frame poller.
pub struct RequestBodyState {
    phase: BodyPhase,
    stream_held: bool,
}

/// The stream is held exactly when no receive is awaited; and a body that is still reading
/// holds it.
pub open spec fn body_state_wf(phase: BodyPhase, stream_held: bool) -> bool {
    &&& phase == BodyPhase::AwaitingData ==> !stream_held
    &&& phase == BodyPhase::ReadingData ==> stream_held
}

/// The step the poller takes from `(phase, stream_held)`, and the state after it.
pub open spec fn body_next_step(phase: BodyPhase, stream_held: bool) -> (BodyPhase, bool, BodyStep) {
    match phase {
        BodyPhase::ReadingData => if stream_held {
            (BodyPhase::AwaitingData, false, BodyStep::StartReceive)
        } else {
            (BodyPhase::Done, false, BodyStep::Finished)
        },
        BodyPhase::AwaitingData => (phase, stream_held, BodyStep::PollReceive),
        BodyPhase::Done => (phase, stream_held, BodyStep::Finished),
    }
}

/// The phase after a completed receive, and what is yielded. The stream comes back in
/// every case.
pub open spec fn body_on_received(outcome: ReceiveOutcome) -> (BodyPhase, BodyYield) {
    match outcome {
        ReceiveOutcome::Data => (BodyPhase::ReadingData, BodyYield::Frame),
        ReceiveOutcome::End => (BodyPhase::Done, BodyYield::End),
        ReceiveOutcome::Failed => (BodyPhase::Done, BodyYield::Error),
    }
}

impl View for RequestBodyState {
    type V = (BodyPhase, bool);

    closed spec fn view(&self) -> (BodyPhase, bool) {
        (self.phase, self.stream_held)
    }
}

impl RequestBodyState {
    #[verifier::type_invariant]
    closed spec fn inv(self) -> bool {
        body_state_wf(self.phase, self.stream_held)
    }

    /// A fresh body: holding the request stream, ready to read.
    pub fn new() -> (state: Self)
        ensures
            state@ == (BodyPhase::ReadingData, true),
    {
        RequestBodyState { phase: BodyPhase::ReadingData, stream_held: true }
    }

    /// The current phase.
    pub fn phase(&self) -> (phase: BodyPhase)
        ensures
            phase == self@.0,
    {
        self.phase
    }

    /// Whether the poller holds the request stream.
    pub fn holds_stream(&self) -> (held: bool)
        ensures
            held == self@.1,
    {
        self.stream_held
    }

    /// Whether the body has ended.
    pub fn is_end_stream(&self) -> (ended: bool)
        ensures
            ended == (self@.0 == BodyPhase::Done),
    {
        match self.phase {
            BodyPhase::Done => true,
            _ => false,
        }
    }

    /// Decides the poller's next step and moves to the state after it.
    pub fn next_step(&mut self) -> (step: BodyStep)
        ensures
            body_next_step(old(self)@.0, old(self)@.1) == (final(self)@.0, final(self)@.1, step),
            body_state_wf(final(self)@.0, final(self)@.1),
    {
        proof {
            use_type_invariant(&*self);
        }
        match self.phase {
            BodyPhase::ReadingData => {
                if self.stream_held {
                    *self = RequestBodyState { phase: BodyPhase::AwaitingData, stream_held: false };
                    BodyStep::StartReceive
                } else {
                    *self = RequestBodyState { phase: BodyPhase::Done, stream_held: false };
                    BodyStep::Finished
                }
            },
            BodyPhase::AwaitingData => BodyStep::PollReceive,
            BodyPhase::Done => BodyStep::Finished,
        }
    }

    /// Records a completed receive: the stream comes back, and the body reads on after data,
    /// or is done after the end or an error.
    pub fn on_received(&mut self, outcome: ReceiveOutcome) -> (yielded: BodyYield)
        requires
            old(self)@.0 == BodyPhase::AwaitingData,
        ensures
            final(self)@.1,
            body_on_received(outcome) == (final(self)@.0, yielded),
    {
        match outcome {
            ReceiveOutcome::Data => {
                *self = RequestBodyState { phase: BodyPhase::ReadingData, stream_held: true };
                BodyYield::Frame
            },
            ReceiveOutcome::End => {
                *self = RequestBodyState { phase: BodyPhase::Done, stream_held: true };
                BodyYield::End
            },
            ReceiveOutcome::Failed => {
                *self = RequestBodyState { phase: BodyPhase::Done, stream_held: true };
                BodyYield::Error
            },
        }
    }
}

/// Once the body is done it stays done: every later poll reports the end.
pub proof fn lemma_done_is_final(stream_held: bool)
    ensures
        body_next_step(BodyPhase::Done, stream_held) == (
            BodyPhase::Done,
            stream_held,
            BodyStep::Finished,
        ),
{
}

/// In a well-formed state a receive is started only with the stream in hand, the body never
/// ends while it still holds unread data to poll for, and one poll takes at most two steps
/// before it returns or polls the receive: after `StartReceive` comes `PollReceive`.
pub proof fn lemma_poll_progress(phase: BodyPhase, stream_held: bool)
    requires
        body_state_wf(phase, stream_held),
    ensures
        body_next_step(phase, stream_held).2 == BodyStep::StartReceive ==> stream_held,
        phase == BodyPhase::ReadingData ==> body_next_step(phase, stream_held).2
            == BodyStep::StartReceive,
        ({
            let (p, h, s) = body_next_step(phase, stream_held);
            s == BodyStep::StartReceive ==> body_next_step(p, h).2 == BodyStep::PollReceive
        }),
        ({
            let (p, h, s) = body_next_step(phase, stream_held);
            body_state_wf(p, h)
        }),
{
}

/// A completed receive restores a well-formed state: data leads back to reading with the
/// stream in hand; the end and errors finish the body.
pub proof fn lemma_receive_restores(outcome: ReceiveOutcome)
    ensures
        body_state_wf(body_on_received(outcome).0, true),
        body_on_received(outcome).1 == BodyYield::Frame <==> body_on_received(outcome).0
            == BodyPhase::ReadingData,
        body_on_received(outcome).1 != BodyYield::Frame ==> body_on_received(outcome).0
            == BodyPhase::Done,
{
}

/// A receive that is still pending keeps the body waiting: every poll while a receive is
/// awaited polls it again and leaves the state as it was (no stream in hand, not ended), so
/// the chunk is delivered whenever it arrives.
pub proof fn lemma_pending_receive_waits(stream_held: bool)
    requires
        body_state_wf(BodyPhase::AwaitingData, stream_held),
    ensures
        !stream_held,
        body_next_step(BodyPhase::AwaitingData, stream_held) == (
            BodyPhase::AwaitingData,
            false,
            BodyStep::PollReceive,
        ),
{
}

/// The body ends only through its receive: from a well-formed state a poll never ends a body
/// that has not ended, and never reports its end before it has ended; a completed receive
/// ends the body exactly when it brought the end of data or an error.
pub proof fn lemma_end_only_by_receive(
    phase: BodyPhase,
    stream_held: bool,
    outcome: ReceiveOutcome,
)
    requires
        body_state_wf(phase, stream_held),
    ensures
        body_next_step(phase, stream_held).0 == BodyPhase::Done <==> phase == BodyPhase::Done,
        body_next_step(phase, stream_held).2 == BodyStep::Finished <==> phase == BodyPhase::Done,
        body_on_received(outcome).0 == BodyPhase::Done <==> outcome != ReceiveOutcome::Data,
{
}

} // verus!
