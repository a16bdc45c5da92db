//! One exchange with a local model, as a machine that tells its driver what to
//! do next and takes back what came of it.
//!
//! The driver sends events to the reader of the exchange, reads the clock, opens
//! the model's answer and fetches the answer chunk by chunk. Every decision is
//! made here: which events are sent and in what order, when the exchange ends
//! and how.

use crate::local_inference::{
    answer_event, answer_update, append_event, append_update, create_event, create_update,
    finish_event, finished_event, init_event, route_request, route_view, routed, start_event,
    wrap_action, wrapped, ExchangePlan, ExchangePlanView, LocalInferenceError,
    LocalInferenceErrorView, ModelRoute, ModelRouteView,
};
use crate::ollama_client::{StreamChunk, StreamChunkView};
use crate::openrouter_client::{
    OpenRouterError, OpenRouterErrorView, StreamEvent, StreamEventView,
};
use crate::proto::{Action, ActionView, FinishReason, ResponseEvent, ResponseEventView, Timestamp};
use vstd::prelude::*;

verus! {

/// How far an exchange has come.
#[derive(Debug, Clone, Copy, PartialEq)]
pub enum Phase {
    /// Nothing has happened.
    Ready,
    /// The stream was opened.
    AfterInit,
    /// The transaction was begun.
    AfterBegin,
    /// The task was created.
    AfterCreate,
    /// The clock is being read.
    Clock,
    /// The empty answer was added to the task.
    AfterAdd,
    /// The model is being asked.
    Opening,
    /// The model answers.
    Streaming,
    /// A piece of the answer was sent.
    AfterAppend,
    /// The reader was told of an error.
    AfterErrorText,
    /// The transaction was committed.
    AfterCommit(FinishReason),
    /// The stream was closed.
    AfterFinish,
    /// Nothing more will happen.
    Over,
}

/// What the model hands over of its answer.
#[derive(Debug, PartialEq)]
pub enum ModelChunk {
    /// A chunk from Ollama, or the text of an error.
    Ollama(Result<StreamChunk, String>),
    /// An event from OpenRouter, or an error.
    OpenRouter(Result<StreamEvent, OpenRouterError>),
}

pub enum ModelChunkView {
    Ollama(Result<StreamChunkView, Seq<char>>),
    OpenRouter(Result<StreamEventView, OpenRouterErrorView>),
}

impl DeepView for ModelChunk {
    type V = ModelChunkView;

    open spec fn deep_view(&self) -> ModelChunkView {
        match self {
            ModelChunk::Ollama(Ok(chunk)) => ModelChunkView::Ollama(Ok(chunk.deep_view())),
            ModelChunk::Ollama(Err(text)) => ModelChunkView::Ollama(Err(text@)),
            ModelChunk::OpenRouter(Ok(event)) => ModelChunkView::OpenRouter(Ok(event.deep_view())),
            ModelChunk::OpenRouter(Err(error)) => ModelChunkView::OpenRouter(
                Err(error.deep_view()),
            ),
        }
    }
}

/// What a chunk means for the exchange.
pub enum ReadingView {
    /// More text of the answer, never empty.
    Text(Seq<char>),
    /// Nothing that the reader is shown.
    Nothing,
    /// The answer is complete.
    Complete,
    /// The answer breaks off.
    Failed(LocalInferenceErrorView),
}

impl ModelChunkView {
    /// What the chunk means for the exchange. Tool calls are passed over: a
    /// local model takes no part in tool calling.
    pub open spec fn reading(self) -> ReadingView {
        match self {
            ModelChunkView::Ollama(Ok(StreamChunkView::Partial { message })) => {
                if message.content.len() > 0 {
                    ReadingView::Text(message.content)
                } else {
                    ReadingView::Nothing
                }
            },
            ModelChunkView::Ollama(Ok(StreamChunkView::Complete)) => ReadingView::Complete,
            ModelChunkView::Ollama(Err(text)) => ReadingView::Failed(
                LocalInferenceErrorView::OllamaStream(text),
            ),
            ModelChunkView::OpenRouter(Ok(StreamEventView::TextDelta(text))) => {
                if text.len() > 0 {
                    ReadingView::Text(text)
                } else {
                    ReadingView::Nothing
                }
            },
            ModelChunkView::OpenRouter(Ok(StreamEventView::ToolCallComplete(_))) => {
                ReadingView::Nothing
            },
            ModelChunkView::OpenRouter(Err(error)) => ReadingView::Failed(
                LocalInferenceErrorView::OpenRouterStream(error.message()),
            ),
        }
    }
}

/// What the driver reports.
#[derive(Debug, PartialEq)]
pub enum RunInput {
    /// The exchange is to start.
    Start,
    /// The reader took the event that was sent, or is gone.
    Sent(bool),
    /// The time.
    Clock(Timestamp),
    /// The model begins to answer, or the text of an error.
    Opened(Result<(), String>),
    /// A chunk of the answer; `cancelled` tells whether the reader has called
    /// the exchange off by now.
    Chunk { cancelled: bool, chunk: ModelChunk },
    /// The model has no more to say.
    EndOfStream,
}

pub enum RunInputView {
    Start,
    Sent(bool),
    Clock(Timestamp),
    Opened(Result<(), Seq<char>>),
    Chunk { cancelled: bool, chunk: ModelChunkView },
    EndOfStream,
}

impl DeepView for RunInput {
    type V = RunInputView;

    open spec fn deep_view(&self) -> RunInputView {
        match self {
            RunInput::Start => RunInputView::Start,
            RunInput::Sent(taken) => RunInputView::Sent(*taken),
            RunInput::Clock(time) => RunInputView::Clock(*time),
            RunInput::Opened(Ok(_)) => RunInputView::Opened(Ok(())),
            RunInput::Opened(Err(text)) => RunInputView::Opened(Err(text@)),
            RunInput::Chunk { cancelled, chunk } => RunInputView::Chunk {
                cancelled: *cancelled,
                chunk: chunk.deep_view(),
            },
            RunInput::EndOfStream => RunInputView::EndOfStream,
        }
    }
}

/// What the driver is to do next.
#[derive(Debug, Clone, PartialEq)]
pub enum RunStep {
    /// Send an event to the reader, and report whether it was taken.
    Send(ResponseEvent),
    /// Read the clock.
    ReadClock,
    /// Ask the model.
    Open(ModelRoute),
    /// Fetch the next chunk of the answer.
    NextChunk,
    /// Nothing.
    Stop,
}

pub enum RunStepView {
    Send(ResponseEventView),
    ReadClock,
    Open(ModelRouteView),
    NextChunk,
    Stop,
}

impl DeepView for RunStep {
    type V = RunStepView;

    open spec fn deep_view(&self) -> RunStepView {
        match self {
            RunStep::Send(event) => RunStepView::Send(event.deep_view()),
            RunStep::ReadClock => RunStepView::ReadClock,
            RunStep::Open(route) => RunStepView::Open(route.deep_view()),
            RunStep::NextChunk => RunStepView::NextChunk,
            RunStep::Stop => RunStepView::Stop,
        }
    }
}

/// An exchange with a local model.
#[derive(Debug, PartialEq)]
pub struct LocalRun {
    conversation_id: String,
    request_id: String,
    run_id: String,
    task_id: String,
    needs_create_task: bool,
    message_id: String,
    /// Where the model is reached, until it is asked.
    route: Option<Result<ModelRoute, LocalInferenceError>>,
    phase: Phase,
}

pub struct LocalRunView {
    pub conversation_id: Seq<char>,
    pub request_id: Seq<char>,
    pub run_id: Seq<char>,
    pub task_id: Seq<char>,
    pub needs_create_task: bool,
    pub message_id: Seq<char>,
    pub route: Option<Result<ModelRouteView, LocalInferenceErrorView>>,
    pub phase: Phase,
}

impl View for LocalRun {
    type V = LocalRunView;

    closed spec fn view(&self) -> LocalRunView {
        LocalRunView {
            conversation_id: self.conversation_id@,
            request_id: self.request_id@,
            run_id: self.run_id@,
            task_id: self.task_id@,
            needs_create_task: self.needs_create_task,
            message_id: self.message_id@,
            route: match self.route {
                Some(route) => Some(route_view(route)),
                None => None,
            },
            phase: self.phase,
        }
    }
}

/// The update that begins a transaction.
pub open spec fn begin_update() -> ResponseEventView {
    wrapped(seq![ActionView::BeginTransaction])
}

/// The update that commits a transaction.
pub open spec fn commit_update() -> ResponseEventView {
    wrapped(seq![ActionView::CommitTransaction])
}

/// What the reader is told of an error.
pub open spec fn error_note(error: LocalInferenceErrorView) -> Seq<char> {
    "\n\n[local inference error: "@ + error.message() + "]"@
}

impl LocalRunView {
    /// An exchange that has not started.
    pub open spec fn planned(plan: ExchangePlanView, default_ollama_url: Seq<char>) -> LocalRunView {
        LocalRunView {
            conversation_id: plan.conversation_id,
            request_id: plan.request_id,
            run_id: plan.run_id,
            task_id: plan.task_id,
            needs_create_task: plan.needs_create_task,
            message_id: plan.response_message_id,
            route: Some(
                routed(
                    plan.model_id,
                    plan.messages,
                    plan.api_keys,
                    plan.ollama_url,
                    default_ollama_url,
                ),
            ),
            phase: Phase::Ready,
        }
    }

    pub open spec fn at(self, phase: Phase) -> LocalRunView {
        LocalRunView { phase, ..self }
    }

    /// The route is known until the model is asked.
    pub open spec fn well_formed(self) -> bool {
        match self.phase {
            Phase::Ready
            | Phase::AfterInit
            | Phase::AfterBegin
            | Phase::AfterCreate
            | Phase::Clock
            | Phase::AfterAdd => self.route is Some,
            _ => true,
        }
    }

    /// The update that appends `text` to the answer.
    pub open spec fn appending(self, text: Seq<char>) -> ResponseEventView {
        append_update(self.task_id, self.message_id, text)
    }

    /// The exchange ends here, and nothing more is sent.
    pub open spec fn stopped(self) -> (LocalRunView, RunStepView) {
        (self.at(Phase::Over), RunStepView::Stop)
    }

    /// The exchange is wound up.
    pub open spec fn settled(self, reason: FinishReason) -> (LocalRunView, RunStepView) {
        (self.at(Phase::AfterCommit(reason)), RunStepView::Send(commit_update()))
    }

    /// The reader is told of an error before the exchange is wound up.
    pub open spec fn failed(self, error: LocalInferenceErrorView) -> (LocalRunView, RunStepView) {
        (self.at(Phase::AfterErrorText), RunStepView::Send(self.appending(error_note(error))))
    }

    /// What a chunk of the answer leads to.
    pub open spec fn reading(self, chunk: ModelChunkView) -> (LocalRunView, RunStepView) {
        match chunk.reading() {
            ReadingView::Text(text) => (
                self.at(Phase::AfterAppend),
                RunStepView::Send(self.appending(text)),
            ),
            ReadingView::Nothing => (self, RunStepView::NextChunk),
            ReadingView::Complete => self.settled(FinishReason::Done),
            ReadingView::Failed(error) => self.failed(error),
        }
    }

    /// What a report of the driver leads to. A reader that is gone before the
    /// model is asked ends the exchange at once. One that is gone later counts as
    /// an error. While the exchange is wound up it no longer matters. A report
    /// that was not asked for ends the exchange too.
    pub open spec fn stepped(self, input: RunInputView) -> (LocalRunView, RunStepView) {
        match (self.phase, input) {
            (Phase::Ready, RunInputView::Start) => (
                self.at(Phase::AfterInit),
                RunStepView::Send(
                    init_event(self.conversation_id, self.request_id, self.run_id),
                ),
            ),
            (Phase::AfterInit, RunInputView::Sent(_)) => (
                self.at(Phase::AfterBegin),
                RunStepView::Send(begin_update()),
            ),
            (Phase::AfterBegin, RunInputView::Sent(true)) => if self.needs_create_task {
                (self.at(Phase::AfterCreate), RunStepView::Send(create_update(self.task_id)))
            } else {
                (self.at(Phase::Clock), RunStepView::ReadClock)
            },
            (Phase::AfterCreate, RunInputView::Sent(true)) => (
                self.at(Phase::Clock),
                RunStepView::ReadClock,
            ),
            (Phase::Clock, RunInputView::Clock(time)) => (
                self.at(Phase::AfterAdd),
                RunStepView::Send(
                    answer_update(self.task_id, self.message_id, self.request_id, time),
                ),
            ),
            (Phase::AfterAdd, RunInputView::Sent(true)) => {
                let asked = LocalRunView { route: None, ..self };
                match self.route {
                    Some(Ok(route)) => (asked.at(Phase::Opening), RunStepView::Open(route)),
                    Some(Err(error)) => asked.failed(error),
                    None => asked.stopped(),
                }
            },
            (Phase::Opening, RunInputView::Opened(Ok(_))) => (
                self.at(Phase::Streaming),
                RunStepView::NextChunk,
            ),
            (Phase::Opening, RunInputView::Opened(Err(text))) => self.failed(
                LocalInferenceErrorView::Client(text),
            ),
            (Phase::Streaming, RunInputView::Chunk { cancelled, chunk }) => if cancelled {
                self.settled(FinishReason::Done)
            } else {
                self.reading(chunk)
            },
            (Phase::Streaming, RunInputView::EndOfStream) => self.settled(FinishReason::Done),
            (Phase::AfterAppend, RunInputView::Sent(true)) => (
                self.at(Phase::Streaming),
                RunStepView::NextChunk,
            ),
            (Phase::AfterAppend, RunInputView::Sent(false)) => self.failed(
                LocalInferenceErrorView::ReceiverDropped,
            ),
            (Phase::AfterErrorText, RunInputView::Sent(_)) => self.settled(FinishReason::Other),
            (Phase::AfterCommit(reason), RunInputView::Sent(_)) => (
                self.at(Phase::AfterFinish),
                RunStepView::Send(finished_event(reason)),
            ),
            _ => self.stopped(),
        }
    }
}

impl LocalRun {
    /// An exchange that has not started.
    pub fn new(plan: ExchangePlan, default_ollama_url: &str) -> (r: LocalRun)
        ensures
            r@ == LocalRunView::planned(plan.deep_view(), default_ollama_url@),
            r@.well_formed(),
    {
        let route = route_request(
            plan.model_id.as_str(),
            plan.messages,
            plan.api_keys,
            plan.ollama_url,
            default_ollama_url,
        );
        LocalRun {
            conversation_id: plan.conversation_id,
            request_id: plan.request_id,
            run_id: plan.run_id,
            task_id: plan.task_id,
            needs_create_task: plan.needs_create_task,
            message_id: plan.response_message_id,
            route: Some(route),
            phase: Phase::Ready,
        }
    }

    fn append(&mut self, phase: Phase, text: &str) -> (r: RunStep)
        ensures
            final(self)@ == old(self)@.at(phase),
            r.deep_view() == RunStepView::Send(old(self)@.appending(text@)),
    {
        self.phase = phase;
        RunStep::Send(append_event(self.task_id.as_str(), self.message_id.as_str(), text))
    }

    fn stop(&mut self) -> (r: RunStep)
        ensures
            (final(self)@, r.deep_view()) == old(self)@.stopped(),
    {
        self.phase = Phase::Over;
        RunStep::Stop
    }

    fn settle(&mut self, reason: FinishReason) -> (r: RunStep)
        ensures
            (final(self)@, r.deep_view()) == old(self)@.settled(reason),
    {
        self.phase = Phase::AfterCommit(reason);
        RunStep::Send(wrap_action(Action::CommitTransaction))
    }

    fn fail(&mut self, error: LocalInferenceError) -> (r: RunStep)
        ensures
            (final(self)@, r.deep_view()) == old(self)@.failed(error.deep_view()),
    {
        let message = error.message();
        let note = String::from("\n\n[local inference error: ").concat(message.as_str()).concat(
            "]",
        );
        self.append(Phase::AfterErrorText, note.as_str())
    }

    fn show(&mut self, text: String) -> (r: RunStep)
        ensures
            (final(self)@, r.deep_view()) == if text@.len() > 0 {
                (old(self)@.at(Phase::AfterAppend), RunStepView::Send(old(self)@.appending(text@)))
            } else {
                (old(self)@, RunStepView::NextChunk)
            },
    {
        if text.as_str().is_empty() {
            RunStep::NextChunk
        } else {
            self.append(Phase::AfterAppend, text.as_str())
        }
    }

    fn read(&mut self, chunk: ModelChunk) -> (r: RunStep)
        ensures
            (final(self)@, r.deep_view()) == old(self)@.reading(chunk.deep_view()),
    {
        match chunk {
            ModelChunk::Ollama(Ok(StreamChunk::Partial { message })) => self.show(message.content),
            ModelChunk::Ollama(Ok(StreamChunk::Complete)) => self.settle(FinishReason::Done),
            ModelChunk::Ollama(Err(text)) => self.fail(LocalInferenceError::OllamaStream(text)),
            ModelChunk::OpenRouter(Ok(StreamEvent::TextDelta(text))) => self.show(text),
            ModelChunk::OpenRouter(Ok(StreamEvent::ToolCallComplete(_))) => RunStep::NextChunk,
            ModelChunk::OpenRouter(Err(error)) => self.fail(
                LocalInferenceError::OpenRouterStream(error.message()),
            ),
        }
    }

    fn ask(&mut self) -> (r: RunStep)
        ensures
            ({
                let asked = LocalRunView { route: None, ..old(self)@ };
                (final(self)@, r.deep_view()) == match old(self)@.route {
                    Some(Ok(route)) => (asked.at(Phase::Opening), RunStepView::Open(route)),
                    Some(Err(error)) => asked.failed(error),
                    None => asked.stopped(),
                }
            }),
    {
        match self.route.take() {
            Some(Ok(route)) => {
                self.phase = Phase::Opening;
                RunStep::Open(route)
            },
            Some(Err(error)) => self.fail(error),
            None => self.stop(),
        }
    }

    /// Takes what the driver reports and says what it is to do next.
    pub fn step(&mut self, input: RunInput) -> (r: RunStep)
        ensures
            (final(self)@, r.deep_view()) == old(self)@.stepped(input.deep_view()),
            old(self)@.well_formed() ==> final(self)@.well_formed(),
    {
        match (self.phase, input) {
            (Phase::Ready, RunInput::Start) => {
                self.phase = Phase::AfterInit;
                RunStep::Send(
                    start_event(
                        self.conversation_id.as_str(),
                        self.request_id.as_str(),
                        self.run_id.as_str(),
                    ),
                )
            },
            (Phase::AfterInit, RunInput::Sent(_)) => {
                self.phase = Phase::AfterBegin;
                RunStep::Send(wrap_action(Action::BeginTransaction))
            },
            (Phase::AfterBegin, RunInput::Sent(true)) => if self.needs_create_task {
                self.phase = Phase::AfterCreate;
                RunStep::Send(create_event(self.task_id.as_str()))
            } else {
                self.phase = Phase::Clock;
                RunStep::ReadClock
            },
            (Phase::AfterCreate, RunInput::Sent(true)) => {
                self.phase = Phase::Clock;
                RunStep::ReadClock
            },
            (Phase::Clock, RunInput::Clock(time)) => {
                self.phase = Phase::AfterAdd;
                RunStep::Send(
                    answer_event(
                        self.task_id.as_str(),
                        self.message_id.as_str(),
                        self.request_id.as_str(),
                        time,
                    ),
                )
            },
            (Phase::AfterAdd, RunInput::Sent(true)) => self.ask(),
            (Phase::Opening, RunInput::Opened(Ok(_))) => {
                self.phase = Phase::Streaming;
                RunStep::NextChunk
            },
            (Phase::Opening, RunInput::Opened(Err(text))) => self.fail(
                LocalInferenceError::Client(text),
            ),
            (Phase::Streaming, RunInput::Chunk { cancelled, chunk }) => if cancelled {
                self.settle(FinishReason::Done)
            } else {
                self.read(chunk)
            },
            (Phase::Streaming, RunInput::EndOfStream) => self.settle(FinishReason::Done),
            (Phase::AfterAppend, RunInput::Sent(true)) => {
                self.phase = Phase::Streaming;
                RunStep::NextChunk
            },
            (Phase::AfterAppend, RunInput::Sent(false)) => self.fail(
                LocalInferenceError::ReceiverDropped,
            ),
            (Phase::AfterErrorText, RunInput::Sent(_)) => self.settle(FinishReason::Other),
            (Phase::AfterCommit(reason), RunInput::Sent(_)) => {
                self.phase = Phase::AfterFinish;
                RunStep::Send(finish_event(reason))
            },
            _ => self.stop(),
        }
    }
}

} // verus!
