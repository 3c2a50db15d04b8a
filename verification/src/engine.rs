//! The streaming request engine: one logical send operation, with its
//! retries, as a state machine.
//!
//! The engine performs no I/O. A driver issues the HTTP request and reads the
//! response body; it reports each thing that happens as a [`Signal`] and
//! receives a [`Step`]: the events to deliver to the consumer, in order, and
//! what to do next.

use vstd::prelude::*;
use crate::decoder::{Decoder, done_text, feed_spec, texts};
use crate::guarantees::step_keeps_bound;
use crate::json::{ErrorInfo, FrameDoc, FrameDocView, frame_document, opt_text, read_frame};
use crate::text::same_text;

verus! {

/// Whether and how often a failed attempt is repeated.
#[derive(Debug, Clone, Copy, PartialEq, Eq, Structural)]
pub struct RetryPolicy {
    pub enabled: bool,
    pub max_attempts: i32,
}

impl RetryPolicy {
    /// Whether another attempt may follow after `used` retries.
    pub open spec fn allows(self, used: i32) -> bool {
        self.enabled && used < self.max_attempts
    }

    /// Whether another attempt may follow after `used` retries.
    pub fn permits(&self, used: i32) -> (r: bool)
        ensures
            r == self.allows(used),
    {
        self.enabled && used < self.max_attempts
    }
}

/// The kind of recoverable failure that led to a retry.
#[derive(Debug, Clone, Copy, PartialEq, Eq, Structural)]
pub enum RetryCause {
    /// The server answered 429.
    RateLimit,
    /// The request or the reading of the body failed in transport.
    Transport,
    /// The stream carried an error object.
    Upstream,
}

/// Why a send operation failed for good.
#[derive(Debug, Clone, PartialEq, Eq)]
pub enum ApiError {
    /// The server kept answering 429 until no retry was left.
    TooManyRequests,
    /// A transport failure, with the client's diagnostic, and no retry left.
    Other(String),
    /// A status that is neither success nor 429. Never retried.
    HttpError(u16),
    /// An error object inside the stream, after `retries` retries.
    Upstream { retries: i32, message: Option<String>, detail: Option<String> },
}

/// The model of an `ApiError`.
pub enum ApiErrorView {
    TooManyRequests,
    Other(Seq<char>),
    HttpError(u16),
    Upstream { retries: i32, message: Option<Seq<char>>, detail: Option<Seq<char>> },
}

impl View for ApiError {
    type V = ApiErrorView;

    open spec fn view(&self) -> ApiErrorView {
        match *self {
            ApiError::TooManyRequests => ApiErrorView::TooManyRequests,
            ApiError::Other(diagnostic) => ApiErrorView::Other(diagnostic@),
            ApiError::HttpError(code) => ApiErrorView::HttpError(code),
            ApiError::Upstream { retries, message, detail } => ApiErrorView::Upstream {
                retries,
                message: opt_text(message),
                detail: opt_text(detail),
            },
        }
    }
}

/// One event delivered to the consumer.
#[derive(Debug, Clone, PartialEq, Eq)]
pub enum StreamEvent {
    /// The whole text of the reply so far.
    ContentUpdate(String),
    /// A recoverable failure; the attempt with the given number follows.
    Retrying(RetryCause, i32),
    /// The operation failed. `Done` follows at once.
    FatalError(ApiError),
    /// Nothing more will come.
    Done,
}

/// The model of a `StreamEvent`.
pub enum StreamEventView {
    ContentUpdate(Seq<char>),
    Retrying(RetryCause, i32),
    FatalError(ApiErrorView),
    Done,
}

impl View for StreamEvent {
    type V = StreamEventView;

    open spec fn view(&self) -> StreamEventView {
        match *self {
            StreamEvent::ContentUpdate(text) => StreamEventView::ContentUpdate(text@),
            StreamEvent::Retrying(cause, attempt) => StreamEventView::Retrying(cause, attempt),
            StreamEvent::FatalError(error) => StreamEventView::FatalError(error@),
            StreamEvent::Done => StreamEventView::Done,
        }
    }
}

/// The models of a sequence of events.
pub open spec fn events_view(events: Seq<StreamEvent>) -> Seq<StreamEventView> {
    Seq::new(events.len(), |i: int| events[i]@)
}

/// Where a send operation stands.
#[derive(Debug, Clone, Copy, PartialEq, Eq, Structural)]
pub enum Phase {
    /// A request is to be issued, or its response is awaited.
    Attempting,
    /// A response body is being read.
    Streaming,
    /// The reply is complete.
    Succeeded,
    /// The operation failed for good.
    Failed,
}

/// What the driver does next.
#[derive(Debug, Clone, Copy, PartialEq, Eq, Structural)]
pub enum Directive {
    /// Drop any response at hand and issue the request anew.
    Request,
    /// Read the next chunk of the response body.
    Read,
    /// Stop: the operation is over.
    Stop,
}

/// What the driver reports to the engine.
#[derive(Debug, Clone, PartialEq, Eq)]
pub enum Signal {
    /// The request, or the reading of the body, failed in transport.
    TransportFailure(String),
    /// Response headers arrived with this status.
    Status(u16),
    /// A chunk of the response body arrived.
    Chunk(Vec<u8>),
    /// The response body ended.
    BodyEnd,
}

/// The model of a `Signal`.
pub enum SignalView {
    TransportFailure(Seq<char>),
    Status(u16),
    Chunk(Seq<u8>),
    BodyEnd,
}

impl View for Signal {
    type V = SignalView;

    open spec fn view(&self) -> SignalView {
        match *self {
            Signal::TransportFailure(diagnostic) => SignalView::TransportFailure(diagnostic@),
            Signal::Status(code) => SignalView::Status(code),
            Signal::Chunk(bytes) => SignalView::Chunk(bytes@),
            Signal::BodyEnd => SignalView::BodyEnd,
        }
    }
}

/// The engine's answer to one signal.
#[derive(Debug, Clone, PartialEq, Eq)]
pub struct Step {
    /// The events to deliver, in order.
    pub events: Vec<StreamEvent>,
    /// What to do next.
    pub next: Directive,
}

/// The model of the engine's state.
pub struct EngineView {
    pub policy: RetryPolicy,
    /// Recoverable failures so far that were answered by a retry.
    pub retries: i32,
    pub phase: Phase,
    /// The bytes that the frame decoder holds back.
    pub buffer: Seq<u8>,
    /// The reply assembled in the current attempt.
    pub message: Seq<char>,
}

/// The model of a `Step`, together with the state that it leaves.
pub struct Outcome {
    pub state: EngineView,
    pub events: Seq<StreamEventView>,
    pub next: Directive,
}

/// The invariant of a send operation: the retry counter is within the
/// policy's bound, an attempt starts with an empty decoder and an empty
/// reply, and the decoder lives only while a body is read.
pub open spec fn bounded(s: EngineView) -> bool {
    &&& 0 <= s.retries
    &&& s.retries > 0 ==> s.policy.enabled && s.retries <= s.policy.max_attempts
    &&& s.phase == Phase::Attempting ==> s.message.len() == 0
    &&& s.phase != Phase::Streaming ==> s.buffer.len() == 0
}

/// The state in which a send operation starts.
pub open spec fn initial(policy: RetryPolicy) -> EngineView {
    EngineView {
        policy,
        retries: 0,
        phase: Phase::Attempting,
        buffer: Seq::empty(),
        message: Seq::empty(),
    }
}

/// What the driver does while nothing changes.
pub open spec fn pending(phase: Phase) -> Directive {
    match phase {
        Phase::Attempting => Directive::Request,
        Phase::Streaming => Directive::Read,
        Phase::Succeeded => Directive::Stop,
        Phase::Failed => Directive::Stop,
    }
}

/// A signal that changes nothing and yields no event.
pub open spec fn idle(s: EngineView) -> Outcome {
    Outcome { state: s, events: Seq::empty(), next: pending(s.phase) }
}

/// The operation fails: the error, then `Done`. The decoder is dropped; the
/// reply assembled so far stays.
pub open spec fn fail(s: EngineView, error: ApiErrorView) -> Outcome {
    Outcome {
        state: EngineView { phase: Phase::Failed, buffer: Seq::empty(), ..s },
        events: seq![StreamEventView::FatalError(error), StreamEventView::Done],
        next: Directive::Stop,
    }
}

/// A recoverable failure: where the policy allows, the counter goes up, the
/// decoder and the assembled reply start afresh and the request is issued
/// again; else the operation fails with `error`.
pub open spec fn recover(s: EngineView, cause: RetryCause, error: ApiErrorView) -> Outcome {
    if s.policy.allows(s.retries) {
        Outcome {
            state: EngineView {
                retries: (s.retries + 1) as i32,
                phase: Phase::Attempting,
                buffer: Seq::empty(),
                message: Seq::empty(),
                ..s
            },
            events: seq![StreamEventView::Retrying(cause, (s.retries + 1) as i32)],
            next: Directive::Request,
        }
    } else {
        fail(s, error)
    }
}

/// The reply is complete. The decoder is dropped.
pub open spec fn finish(s: EngineView) -> Outcome {
    Outcome {
        state: EngineView { phase: Phase::Succeeded, buffer: Seq::empty(), ..s },
        events: seq![StreamEventView::Done],
        next: Directive::Stop,
    }
}

/// A transport failure is recoverable while the operation runs.
pub open spec fn on_transport_failure_spec(s: EngineView, diagnostic: Seq<char>) -> Outcome {
    match s.phase {
        Phase::Attempting => recover(s, RetryCause::Transport, ApiErrorView::Other(diagnostic)),
        Phase::Streaming => recover(s, RetryCause::Transport, ApiErrorView::Other(diagnostic)),
        _ => idle(s),
    }
}

/// Whether a status code is in the success class.
pub open spec fn is_success(code: u16) -> bool {
    200 <= code < 300
}

/// Response headers: success starts the streaming of the body, 429 is
/// recoverable, any other status fails the operation at once.
pub open spec fn on_status_spec(s: EngineView, code: u16) -> Outcome {
    if s.phase != Phase::Attempting {
        idle(s)
    } else if is_success(code) {
        Outcome {
            state: EngineView { phase: Phase::Streaming, ..s },
            events: Seq::empty(),
            next: Directive::Read,
        }
    } else if code == 429 {
        recover(s, RetryCause::RateLimit, ApiErrorView::TooManyRequests)
    } else {
        fail(s, ApiErrorView::HttpError(code))
    }
}

/// The end of the body completes the reply, terminator or not.
pub open spec fn on_body_end_spec(s: EngineView) -> Outcome {
    if s.phase == Phase::Streaming {
        finish(s)
    } else {
        idle(s)
    }
}

/// One parsed frame: an error object is a recoverable failure; a content
/// delta is appended to the reply, and the whole reply is delivered.
pub open spec fn on_document_spec(s: EngineView, doc: FrameDocView) -> Outcome {
    if s.phase != Phase::Streaming {
        idle(s)
    } else {
        match doc.error {
            Some(e) => recover(
                s,
                RetryCause::Upstream,
                ApiErrorView::Upstream { retries: s.retries, message: e.message, detail: e.detail },
            ),
            None => match doc.content {
                Some(delta) => Outcome {
                    state: EngineView { message: s.message + delta, ..s },
                    events: seq![StreamEventView::ContentUpdate(s.message + delta)],
                    next: Directive::Read,
                },
                None => idle(s),
            },
        }
    }
}

/// One raw frame: the terminator completes the reply; a JSON document is
/// interpreted; anything else is passed over.
pub open spec fn on_frame_spec(s: EngineView, frame: Seq<char>) -> Outcome {
    if s.phase != Phase::Streaming {
        idle(s)
    } else if frame == done_text() {
        finish(s)
    } else {
        match frame_document(frame) {
            Some(doc) => on_document_spec(s, doc),
            None => idle(s),
        }
    }
}

/// Frames in order, up to the first that ends the reading of this body.
pub open spec fn on_frames_spec(s: EngineView, frames: Seq<Seq<char>>) -> Outcome
    decreases frames.len(),
{
    if frames.len() == 0 {
        idle(s)
    } else {
        let first = on_frame_spec(s, frames[0]);
        if first.next != Directive::Read {
            first
        } else {
            let rest = on_frames_spec(first.state, frames.drop_first());
            Outcome { state: rest.state, events: first.events + rest.events, next: rest.next }
        }
    }
}

/// A chunk of the body goes through the frame decoder, and the frames that
/// it completes are interpreted in order.
pub open spec fn on_chunk_spec(s: EngineView, chunk: Seq<u8>) -> Outcome {
    if s.phase != Phase::Streaming {
        idle(s)
    } else {
        let fed = feed_spec(s.buffer, chunk);
        on_frames_spec(EngineView { buffer: fed.0, ..s }, fed.1)
    }
}

/// The engine's answer to a signal.
pub open spec fn step_spec(s: EngineView, signal: SignalView) -> Outcome {
    match signal {
        SignalView::TransportFailure(diagnostic) => on_transport_failure_spec(s, diagnostic),
        SignalView::Status(code) => on_status_spec(s, code),
        SignalView::Chunk(bytes) => on_chunk_spec(s, bytes),
        SignalView::BodyEnd => on_body_end_spec(s),
    }
}

/// One send operation.
pub struct Engine {
    policy: RetryPolicy,
    retries: i32,
    phase: Phase,
    decoder: Decoder,
    message: String,
}

impl View for Engine {
    type V = EngineView;

    closed spec fn view(&self) -> EngineView {
        EngineView {
            policy: self.policy,
            retries: self.retries,
            phase: self.phase,
            buffer: self.decoder@,
            message: self.message@,
        }
    }
}

impl Step {
    /// The outcome that a step and the state after it stand for.
    pub open spec fn outcome(self, state: EngineView) -> Outcome {
        Outcome { state, events: events_view(self.events@), next: self.next }
    }
}

impl Engine {
    /// Whether the engine's state meets its invariant. Every engine made by
    /// `new` and driven through the methods below does.
    pub open spec fn wf(&self) -> bool {
        bounded(self@)
    }

    /// Starts a send operation. The first request is to be issued.
    pub fn new(retry_enabled: bool, max_retries: i32) -> (r: Engine)
        ensures
            r@ == initial(RetryPolicy { enabled: retry_enabled, max_attempts: max_retries }),
            r.wf(),
    {
        Engine {
            policy: RetryPolicy { enabled: retry_enabled, max_attempts: max_retries },
            retries: 0,
            phase: Phase::Attempting,
            decoder: Decoder::new(),
            message: String::new(),
        }
    }

    /// Where the operation stands.
    pub fn phase(&self) -> (r: Phase)
        ensures
            r == self@.phase,
    {
        self.phase
    }

    /// The number of retries so far.
    pub fn retries(&self) -> (r: i32)
        ensures
            r == self@.retries,
    {
        self.retries
    }

    /// The policy that the operation was started with.
    pub fn policy(&self) -> (r: RetryPolicy)
        ensures
            r == self@.policy,
    {
        self.policy
    }

    /// The reply assembled in the current attempt.
    pub fn message(&self) -> (r: String)
        ensures
            r@ == self@.message,
    {
        self.message.clone()
    }

    /// What the driver does next while no signal has changed the state.
    pub fn directive(&self) -> (r: Directive)
        ensures
            r == pending(self@.phase),
    {
        match self.phase {
            Phase::Attempting => Directive::Request,
            Phase::Streaming => Directive::Read,
            Phase::Succeeded => Directive::Stop,
            Phase::Failed => Directive::Stop,
        }
    }

    fn idle_step(&self) -> (r: Step)
        ensures
            r.outcome(self@) == idle(self@),
    {
        let r = Step { events: Vec::new(), next: self.directive() };
        assert(events_view(r.events@) =~= Seq::empty());
        r
    }

    fn fail_step(&mut self, error: ApiError) -> (r: Step)
        ensures
            r.outcome(final(self)@) == fail(old(self)@, error@),
    {
        self.phase = Phase::Failed;
        self.decoder.reset();
        let mut events: Vec<StreamEvent> = Vec::new();
        events.push(StreamEvent::FatalError(error));
        events.push(StreamEvent::Done);
        assert(events_view(events@) =~= seq![
            StreamEventView::FatalError(error@),
            StreamEventView::Done,
        ]);
        Step { events, next: Directive::Stop }
    }

    fn finish_step(&mut self) -> (r: Step)
        ensures
            r.outcome(final(self)@) == finish(old(self)@),
    {
        self.phase = Phase::Succeeded;
        self.decoder.reset();
        let mut events: Vec<StreamEvent> = Vec::new();
        events.push(StreamEvent::Done);
        assert(events_view(events@) =~= seq![StreamEventView::Done]);
        Step { events, next: Directive::Stop }
    }

    fn recover_step(&mut self, cause: RetryCause, error: ApiError) -> (r: Step)
        ensures
            r.outcome(final(self)@) == recover(old(self)@, cause, error@),
    {
        if self.policy.permits(self.retries) {
            self.retries = self.retries + 1;
            self.phase = Phase::Attempting;
            self.decoder.reset();
            self.message = String::new();
            let mut events: Vec<StreamEvent> = Vec::new();
            events.push(StreamEvent::Retrying(cause, self.retries));
            assert(events_view(events@) =~= seq![StreamEventView::Retrying(cause, self.retries)]);
            Step { events, next: Directive::Request }
        } else {
            self.fail_step(error)
        }
    }

    /// The request, or the reading of the body, failed in transport.
    pub fn on_transport_failure(&mut self, diagnostic: String) -> (r: Step)
        ensures
            r.outcome(final(self)@) == on_transport_failure_spec(old(self)@, diagnostic@),
            old(self).wf() ==> final(self).wf(),
    {
        match self.phase {
            Phase::Attempting => self.recover_step(
                RetryCause::Transport,
                ApiError::Other(diagnostic),
            ),
            Phase::Streaming => self.recover_step(
                RetryCause::Transport,
                ApiError::Other(diagnostic),
            ),
            _ => self.idle_step(),
        }
    }

    /// Response headers arrived with the status `code`.
    pub fn on_status(&mut self, code: u16) -> (r: Step)
        ensures
            r.outcome(final(self)@) == on_status_spec(old(self)@, code),
            old(self).wf() ==> final(self).wf(),
    {
        match self.phase {
            Phase::Attempting => {
                if 200 <= code && code < 300 {
                    self.phase = Phase::Streaming;
                    let r = Step { events: Vec::new(), next: Directive::Read };
                    assert(events_view(r.events@) =~= Seq::empty());
                    r
                } else if code == 429 {
                    self.recover_step(RetryCause::RateLimit, ApiError::TooManyRequests)
                } else {
                    self.fail_step(ApiError::HttpError(code))
                }
            },
            _ => self.idle_step(),
        }
    }

    /// The response body ended.
    pub fn on_body_end(&mut self) -> (r: Step)
        ensures
            r.outcome(final(self)@) == on_body_end_spec(old(self)@),
            old(self).wf() ==> final(self).wf(),
    {
        match self.phase {
            Phase::Streaming => self.finish_step(),
            _ => self.idle_step(),
        }
    }

    /// Interprets the document of one frame.
    pub fn on_document(&mut self, doc: FrameDoc) -> (r: Step)
        ensures
            r.outcome(final(self)@) == on_document_spec(old(self)@, doc@),
            old(self).wf() ==> final(self).wf(),
    {
        match self.phase {
            Phase::Streaming => {
                let FrameDoc { error, content } = doc;
                match error {
                    Some(e) => {
                        let ErrorInfo { message, detail } = e;
                        let retries: i32 = self.retries;
                        self.recover_step(
                            RetryCause::Upstream,
                            ApiError::Upstream { retries, message, detail },
                        )
                    },
                    None => match content {
                        Some(delta) => {
                            self.message.append(delta.as_str());
                            let mut events: Vec<StreamEvent> = Vec::new();
                            events.push(StreamEvent::ContentUpdate(self.message.clone()));
                            assert(events_view(events@) =~= seq![
                                StreamEventView::ContentUpdate(self.message@),
                            ]);
                            Step { events, next: Directive::Read }
                        },
                        None => self.idle_step(),
                    },
                }
            },
            _ => self.idle_step(),
        }
    }

    /// Interprets one raw frame.
    pub fn on_frame(&mut self, frame: &str) -> (r: Step)
        ensures
            r.outcome(final(self)@) == on_frame_spec(old(self)@, frame@),
            old(self).wf() ==> final(self).wf(),
    {
        match self.phase {
            Phase::Streaming => {
                if same_text(frame, "[DONE]") {
                    self.finish_step()
                } else {
                    match read_frame(frame) {
                        Some(doc) => self.on_document(doc),
                        None => self.idle_step(),
                    }
                }
            },
            _ => self.idle_step(),
        }
    }

    /// A chunk of the response body arrived.
    pub fn on_chunk(&mut self, chunk: &[u8]) -> (r: Step)
        ensures
            r.outcome(final(self)@) == on_chunk_spec(old(self)@, chunk@),
            old(self).wf() ==> final(self).wf(),
    {
        proof {
            if old(self).wf() {
                step_keeps_bound(old(self)@, SignalView::Chunk(chunk@));
            }
        }
        match self.phase {
            Phase::Streaming => {
                let frames = self.decoder.feed(chunk);
                let ghost fed = self@;
                let ghost all = texts(frames@);
                let mut events: Vec<StreamEvent> = Vec::new();
                let mut next = Directive::Read;
                let n: usize = frames.len();
                let mut i: usize = 0;
                assert(all.subrange(0, n as int) =~= all);
                while i < n && next == Directive::Read
                    invariant
                        i <= n,
                        n == frames@.len(),
                        all == texts(frames@),
                        next == Directive::Read ==> self@.phase == Phase::Streaming,
                        next == Directive::Read ==> on_frames_spec(fed, all) == ({
                            let rest = on_frames_spec(self@, all.subrange(i as int, n as int));
                            Outcome {
                                state: rest.state,
                                events: events_view(events@) + rest.events,
                                next: rest.next,
                            }
                        }),
                        next != Directive::Read ==> on_frames_spec(fed, all) == (Outcome {
                            state: self@,
                            events: events_view(events@),
                            next,
                        }),
                    decreases n - i,
                {
                    let ghost sofar = events_view(events@);
                    let ghost rest = all.subrange(i as int, n as int);
                    let mut step = self.on_frame(frames[i].as_str());
                    let ghost one = events_view(step.events@);
                    assert(rest.drop_first() =~= all.subrange(i + 1, n as int));
                    events.append(&mut step.events);
                    assert(events_view(events@) =~= sofar + one);
                    next = step.next;
                    i += 1;
                    proof {
                        if next == Directive::Read {
                            let tail = on_frames_spec(self@, all.subrange(i as int, n as int));
                            assert(sofar + (one + tail.events) =~= sofar + one + tail.events);
                        }
                    }
                }
                Step { events, next }
            },
            _ => self.idle_step(),
        }
    }

    /// Answers one signal of the driver.
    pub fn step(&mut self, signal: Signal) -> (r: Step)
        ensures
            r.outcome(final(self)@) == step_spec(old(self)@, signal@),
            old(self).wf() ==> final(self).wf(),
    {
        match signal {
            Signal::TransportFailure(diagnostic) => self.on_transport_failure(diagnostic),
            Signal::Status(code) => self.on_status(code),
            Signal::Chunk(bytes) => self.on_chunk(bytes.as_slice()),
            Signal::BodyEnd => self.on_body_end(),
        }
    }
}

} // verus!
