//! What a reader gets to see of an exchange with a local model, from its first
//! event to its last.

use crate::local_inference::{
    answer_update, append_update, create_update, existing_task, finished_event, init_event,
    planned, routed, wrapped, ExchangePlanView, FreshIdsView, LocalInferenceErrorView,
    ModelRouteView, RequestParamsView,
};
use crate::local_run::{
    begin_update, commit_update, error_note, LocalRunView, ModelChunkView, Phase, ReadingView,
    RunInputView, RunStepView,
};
use crate::ollama_client::StreamChunkView;
use crate::openrouter_client::StreamEventView;
use crate::proto::{
    ActionView, EventTypeView, FinishReason, MessageContentView, ResponseEventView, Timestamp,
};
use vstd::prelude::*;

verus! {

/// A chunk of an answer, and whether the reader has called the exchange off by
/// the time it comes.
pub struct ArrivalView {
    pub cancelled: bool,
    pub chunk: ModelChunkView,
}

/// All that an exchange meets with.
pub struct WorldView {
    /// What the clock shows.
    pub clock: Timestamp,
    /// Whether the model begins to answer.
    pub opened: Result<(), Seq<char>>,
    /// What the model hands over of its answer.
    pub chunks: Seq<ArrivalView>,
    /// How many events the reader takes before it goes; `None` where it stays.
    pub patience: Option<nat>,
}

impl WorldView {
    /// The reader takes the next event.
    pub open spec fn listening(self) -> bool {
        self.patience != Some(0nat)
    }

    pub open spec fn after_event(self) -> WorldView {
        WorldView {
            patience: match self.patience {
                Some(n) => Some((n - 1) as nat),
                None => None,
            },
            ..self
        }
    }

    pub open spec fn after_chunk(self) -> WorldView {
        WorldView { chunks: self.chunks.skip(1), ..self }
    }

    /// The same, but for how long the reader stays.
    pub open spec fn with_patience(self, patience: Option<nat>) -> WorldView {
        WorldView { patience, ..self }
    }
}

/// How many steps at most an exchange can take before the next chunk of the
/// answer is fetched or the exchange is over.
pub open spec fn steps_left(phase: Phase, input: RunInputView) -> nat {
    match phase {
        Phase::Ready => 13,
        Phase::AfterInit => 12,
        Phase::AfterBegin => 11,
        Phase::AfterCreate => 10,
        Phase::Clock => 9,
        Phase::AfterAdd => 8,
        Phase::Opening => 7,
        Phase::Streaming => if input is EndOfStream {
            4
        } else {
            6
        },
        Phase::AfterAppend => 5,
        Phase::AfterErrorText => 3,
        Phase::AfterCommit(_) => 2,
        Phase::AfterFinish => 1,
        Phase::Over => 0,
    }
}

/// The events that the reader takes when `input` is reported to the exchange and
/// everything that it then asks for is done.
pub open spec fn taken(run: LocalRunView, input: RunInputView, world: WorldView) -> Seq<
    ResponseEventView,
>
    decreases world.chunks.len(), steps_left(run.phase, input),
{
    let (next, step) = run.stepped(input);
    match step {
        RunStepView::Send(event) => if world.listening() {
            seq![event] + taken(next, RunInputView::Sent(true), world.after_event())
        } else {
            taken(next, RunInputView::Sent(false), world)
        },
        RunStepView::ReadClock => taken(next, RunInputView::Clock(world.clock), world),
        RunStepView::Open(_) => taken(next, RunInputView::Opened(world.opened), world),
        RunStepView::NextChunk => if world.chunks.len() > 0 {
            taken(
                next,
                RunInputView::Chunk {
                    cancelled: world.chunks[0].cancelled,
                    chunk: world.chunks[0].chunk,
                },
                world.after_chunk(),
            )
        } else {
            taken(next, RunInputView::EndOfStream, world)
        },
        RunStepView::Stop => Seq::empty(),
    }
}

/// The events that end an exchange.
pub open spec fn closing(reason: FinishReason) -> Seq<ResponseEventView> {
    seq![commit_update(), finished_event(reason)]
}

/// The events that end an exchange after an error.
pub open spec fn failing(run: LocalRunView, error: LocalInferenceErrorView) -> Seq<
    ResponseEventView,
> {
    seq![run.appending(error_note(error))] + closing(FinishReason::Other)
}

/// The events that the chunks of an answer become.
pub open spec fn answered(run: LocalRunView, chunks: Seq<ArrivalView>) -> Seq<ResponseEventView>
    decreases chunks.len(),
{
    if chunks.len() == 0 || chunks[0].cancelled {
        closing(FinishReason::Done)
    } else {
        match chunks[0].chunk.reading() {
            ReadingView::Text(text) => seq![run.appending(text)] + answered(run, chunks.skip(1)),
            ReadingView::Nothing => answered(run, chunks.skip(1)),
            ReadingView::Complete => closing(FinishReason::Done),
            ReadingView::Failed(error) => failing(run, error),
        }
    }
}

/// The events before the model is asked.
pub open spec fn opening(run: LocalRunView, clock: Timestamp) -> Seq<ResponseEventView> {
    seq![init_event(run.conversation_id, run.request_id, run.run_id), begin_update()] + (
    if run.needs_create_task {
        seq![create_update(run.task_id)]
    } else {
        Seq::empty()
    }) + seq![answer_update(run.task_id, run.message_id, run.request_id, clock)]
}

/// All events of an exchange.
pub open spec fn transcript(run: LocalRunView, world: WorldView) -> Seq<ResponseEventView> {
    opening(run, world.clock) + match run.route->0 {
        Err(error) => failing(run, error),
        Ok(_) => match world.opened {
            Err(text) => failing(run, LocalInferenceErrorView::Client(text)),
            Ok(_) => answered(run, world.chunks),
        },
    }
}

proof fn lemma_settled(run: LocalRunView, reason: FinishReason, world: WorldView)
    requires
        run.phase == Phase::AfterCommit(reason),
        world.patience is None,
    ensures
        taken(run, RunInputView::Sent(true), world) == seq![finished_event(reason)],
{
    reveal_with_fuel(taken, 3);
}

proof fn lemma_failed(run: LocalRunView, world: WorldView)
    requires
        run.phase == Phase::AfterErrorText,
        world.patience is None,
    ensures
        taken(run, RunInputView::Sent(true), world) == closing(FinishReason::Other),
{
    lemma_settled(
        run.at(Phase::AfterCommit(FinishReason::Other)),
        FinishReason::Other,
        world.after_event(),
    );
}

/// What the exchange does with the rest of an answer.
proof fn lemma_answered(run: LocalRunView, input: RunInputView, world: WorldView)
    requires
        run.phase is Streaming,
        world.patience is None,
        input is Chunk || (input is EndOfStream && world.chunks.len() == 0),
    ensures
        taken(run, input, world) == match input {
            RunInputView::Chunk { cancelled, chunk } => answered(
                run,
                seq![ArrivalView { cancelled, chunk }] + world.chunks,
            ),
            _ => closing(FinishReason::Done),
        },
    decreases
            world.chunks.len(),
            if input is Chunk {
                2nat
            } else {
                0nat
            },
{
    reveal_with_fuel(taken, 2);
    let (next, _) = run.stepped(input);
    match input {
        RunInputView::Chunk { cancelled, chunk } => {
            let all = seq![ArrivalView { cancelled, chunk }] + world.chunks;
            assert(all.skip(1) =~= world.chunks);
            if cancelled {
                lemma_settled(next, FinishReason::Done, world.after_event());
            } else {
                match chunk.reading() {
                    ReadingView::Text(text) => {
                        lemma_next(next.at(Phase::Streaming), world);
                        assert(next.at(Phase::Streaming) == run);
                    },
                    ReadingView::Nothing => {
                        lemma_next(run, world);
                    },
                    ReadingView::Complete => {
                        lemma_settled(next, FinishReason::Done, world.after_event());
                    },
                    ReadingView::Failed(error) => {
                        lemma_failed(next, world.after_event());
                    },
                }
            }
        },
        _ => {
            lemma_settled(next, FinishReason::Done, world.after_event());
        },
    }
}

/// What the exchange does once it asks for the next chunk.
proof fn lemma_next(run: LocalRunView, world: WorldView)
    requires
        run.phase is Streaming,
        world.patience is None,
    ensures
        (if world.chunks.len() > 0 {
            taken(
                run,
                RunInputView::Chunk {
                    cancelled: world.chunks[0].cancelled,
                    chunk: world.chunks[0].chunk,
                },
                world.after_chunk(),
            )
        } else {
            taken(run, RunInputView::EndOfStream, world)
        }) == answered(run, world.chunks),
    decreases world.chunks.len(), 1nat,
{
    if world.chunks.len() > 0 {
        let first = world.chunks[0];
        lemma_answered(
            run,
            RunInputView::Chunk { cancelled: first.cancelled, chunk: first.chunk },
            world.after_chunk(),
        );
        assert(seq![first] + world.chunks.skip(1) =~= world.chunks);
    } else {
        lemma_answered(run, RunInputView::EndOfStream, world);
    }
}

proof fn lemma_from_asking(run: LocalRunView, world: WorldView)
    requires
        run.phase is AfterAdd,
        run.route is Some,
        world.patience is None,
    ensures
        taken(run, RunInputView::Sent(true), world) == match run.route->0 {
            Err(error) => failing(run, error),
            Ok(_) => match world.opened {
                Err(text) => failing(run, LocalInferenceErrorView::Client(text)),
                Ok(_) => answered(run, world.chunks),
            },
        },
{
    reveal_with_fuel(taken, 3);
    let (asked, _) = run.stepped(RunInputView::Sent(true));
    match run.route->0 {
        Err(error) => {
            lemma_failed(asked, world);
        },
        Ok(_) => {
            let (next, _) = asked.stepped(RunInputView::Opened(world.opened));
            match world.opened {
                Err(text) => {
                    lemma_failed(next, world);
                },
                Ok(_) => {
                    lemma_next(next, world);
                    lemma_same_answer(run, next, world.chunks);
                },
            }
        },
    }
}

/// An answer is shown in the same way wherever the exchange stands.
proof fn lemma_same_answer(a: LocalRunView, b: LocalRunView, chunks: Seq<ArrivalView>)
    requires
        a.task_id == b.task_id,
        a.message_id == b.message_id,
    ensures
        answered(a, chunks) == answered(b, chunks),
    decreases chunks.len(),
{
    if chunks.len() > 0 {
        lemma_same_answer(a, b, chunks.skip(1));
    }
}

/// A reader that stays to the end sees the stream opened, the transaction begun,
/// the task created where it is new, the empty answer added to the task, then one
/// update for each text of the answer up to its end or the reader's own
/// cancellation, an update that tells of an error where there was one, the
/// transaction committed and the stream closed. Nothing else is sent.
pub proof fn a_patient_reader_sees_the_transcript(run: LocalRunView, world: WorldView)
    requires
        run.phase is Ready,
        run.well_formed(),
        world.patience is None,
    ensures
        taken(run, RunInputView::Start, world) == transcript(run, world),
{
    assert(world.after_event() == world);
    let clock = RunInputView::Clock(world.clock);
    let sent = RunInputView::Sent(true);
    let added = run.at(Phase::AfterAdd);
    lemma_from_asking(added, world);
    lemma_same_answer(run, added, world.chunks);
    let answer = answer_update(run.task_id, run.message_id, run.request_id, world.clock);
    let rest = taken(added, sent, world);
    assert(taken(run.at(Phase::Clock), clock, world) == seq![answer] + rest);
    let begun = taken(run.at(Phase::AfterBegin), sent, world);
    if run.needs_create_task {
        assert(taken(run.at(Phase::AfterCreate), sent, world) == seq![answer] + rest);
        assert(begun == seq![create_update(run.task_id)] + (seq![answer] + rest));
    } else {
        assert(begun == seq![answer] + rest);
    }
    assert(taken(run.at(Phase::AfterInit), sent, world) == seq![begin_update()] + begun);
    let init = init_event(run.conversation_id, run.request_id, run.run_id);
    assert(taken(run, RunInputView::Start, world) == seq![init] + (seq![begin_update()] + begun));
    assert(taken(run, RunInputView::Start, world) =~= opening(run, world.clock) + rest);
}

/// A reader that is gone takes nothing more.
proof fn lemma_nobody_listens(run: LocalRunView, input: RunInputView, world: WorldView)
    requires
        !world.listening(),
    ensures
        taken(run, input, world) == Seq::<ResponseEventView>::empty(),
    decreases world.chunks.len(), steps_left(run.phase, input),
{
    let (next, step) = run.stepped(input);
    match step {
        RunStepView::Send(event) => {
            lemma_nobody_listens(next, RunInputView::Sent(false), world);
        },
        RunStepView::ReadClock => {
            lemma_nobody_listens(next, RunInputView::Clock(world.clock), world);
        },
        RunStepView::Open(_) => {
            lemma_nobody_listens(next, RunInputView::Opened(world.opened), world);
        },
        RunStepView::NextChunk => {
            if world.chunks.len() > 0 {
                lemma_nobody_listens(
                    next,
                    RunInputView::Chunk {
                        cancelled: world.chunks[0].cancelled,
                        chunk: world.chunks[0].chunk,
                    },
                    world.after_chunk(),
                );
            } else {
                lemma_nobody_listens(next, RunInputView::EndOfStream, world);
            }
        },
        RunStepView::Stop => {},
    }
}

/// A reader that goes after `n` events has seen the first `n` events that it would
/// have seen had it stayed, or all of them.
pub proof fn a_reader_that_goes_has_seen_the_beginning(
    run: LocalRunView,
    input: RunInputView,
    world: WorldView,
    n: nat,
)
    ensures
        ({
            let all = taken(run, input, world.with_patience(None));
            taken(run, input, world.with_patience(Some(n))) == if n < all.len() {
                all.take(n as int)
            } else {
                all
            }
        }),
    decreases world.chunks.len(), steps_left(run.phase, input),
{
    let all = taken(run, input, world.with_patience(None));
    let stays = world.with_patience(None);
    let goes = world.with_patience(Some(n));
    if n == 0 {
        lemma_nobody_listens(run, input, goes);
        assert(all.take(0) =~= Seq::empty());
    } else {
        let (next, step) = run.stepped(input);
        match step {
            RunStepView::Send(event) => {
                let m = (n - 1) as nat;
                a_reader_that_goes_has_seen_the_beginning(
                    next,
                    RunInputView::Sent(true),
                    world,
                    m,
                );
                assert(goes.after_event() == world.with_patience(Some(m)));
                assert(stays.after_event() == stays);
                let rest = taken(next, RunInputView::Sent(true), stays);
                assert(all == seq![event] + rest);
                if m < rest.len() {
                    assert(all.take(n as int) =~= seq![event] + rest.take(m as int));
                }
            },
            RunStepView::ReadClock => {
                a_reader_that_goes_has_seen_the_beginning(
                    next,
                    RunInputView::Clock(world.clock),
                    world,
                    n,
                );
            },
            RunStepView::Open(_) => {
                a_reader_that_goes_has_seen_the_beginning(
                    next,
                    RunInputView::Opened(world.opened),
                    world,
                    n,
                );
            },
            RunStepView::NextChunk => {
                if world.chunks.len() > 0 {
                    a_reader_that_goes_has_seen_the_beginning(
                        next,
                        RunInputView::Chunk {
                            cancelled: world.chunks[0].cancelled,
                            chunk: world.chunks[0].chunk,
                        },
                        world.after_chunk(),
                        n,
                    );
                    assert(goes.after_chunk() == world.after_chunk().with_patience(Some(n)));
                    assert(stays.after_chunk() == world.after_chunk().with_patience(None));
                } else {
                    a_reader_that_goes_has_seen_the_beginning(
                        next,
                        RunInputView::EndOfStream,
                        world,
                        n,
                    );
                }
            },
            RunStepView::Stop => {},
        }
    }
}

/// The action of an update that holds one action.
pub open spec fn action_of(event: ResponseEventView) -> Option<ActionView> {
    match event.event_type {
        Some(EventTypeView::ClientActions { actions }) => if actions.len() == 1 {
            actions[0].action
        } else {
            None
        },
        _ => None,
    }
}

proof fn lemma_action_of(action: ActionView)
    ensures
        action_of(wrapped(seq![action])) == Some(action),
{
}

/// The text that an event adds to the answer.
pub open spec fn text_added(event: ResponseEventView) -> Seq<char> {
    match action_of(event) {
        Some(ActionView::AppendToMessageContent(append)) => match append.message {
            Some(message) => match message.message {
                Some(MessageContentView::AgentOutput { text }) => text,
                _ => Seq::empty(),
            },
            None => Seq::empty(),
        },
        _ => Seq::empty(),
    }
}

/// The answer that events add up to.
pub open spec fn answer_shown(events: Seq<ResponseEventView>) -> Seq<char>
    decreases events.len(),
{
    if events.len() == 0 {
        Seq::empty()
    } else {
        text_added(events[0]) + answer_shown(events.skip(1))
    }
}

/// The text of an answer: all that the model says before it ends, breaks off or
/// the reader calls the exchange off. Where it breaks off, the error is told.
pub open spec fn answer_text(chunks: Seq<ArrivalView>) -> Seq<char>
    decreases chunks.len(),
{
    if chunks.len() == 0 || chunks[0].cancelled {
        Seq::empty()
    } else {
        match chunks[0].chunk.reading() {
            ReadingView::Text(text) => text + answer_text(chunks.skip(1)),
            ReadingView::Nothing => answer_text(chunks.skip(1)),
            ReadingView::Complete => Seq::empty(),
            ReadingView::Failed(error) => error_note(error),
        }
    }
}

/// An event is taken note of before those that follow it.
proof fn lemma_shown_first(event: ResponseEventView, events: Seq<ResponseEventView>)
    ensures
        answer_shown(seq![event] + events) == text_added(event) + answer_shown(events),
{
    assert((seq![event] + events).skip(1) =~= events);
}

proof fn lemma_shown_sum(a: Seq<ResponseEventView>, b: Seq<ResponseEventView>)
    ensures
        answer_shown(a + b) == answer_shown(a) + answer_shown(b),
    decreases a.len(),
{
    if a.len() == 0 {
        assert(a + b =~= b);
        assert(answer_shown(a) + answer_shown(b) =~= answer_shown(b));
    } else {
        lemma_shown_sum(a.skip(1), b);
        assert((a + b).skip(1) =~= a.skip(1) + b);
        assert(answer_shown(a + b) =~= answer_shown(a) + answer_shown(b));
    }
}

proof fn lemma_shown_closing(reason: FinishReason)
    ensures
        answer_shown(closing(reason)) == Seq::<char>::empty(),
{
    lemma_action_of(ActionView::CommitTransaction);
    lemma_shown_first(commit_update(), seq![finished_event(reason)]);
    lemma_shown_first(finished_event(reason), Seq::empty());
    assert(seq![finished_event(reason)] + Seq::empty() =~= seq![finished_event(reason)]);
    assert(closing(reason) =~= seq![commit_update()] + seq![finished_event(reason)]);
    assert(answer_shown(closing(reason)) =~= Seq::empty());
}

proof fn lemma_shown_failing(run: LocalRunView, error: LocalInferenceErrorView)
    ensures
        answer_shown(failing(run, error)) == error_note(error),
{
    let event = run.appending(error_note(error));
    lemma_shown_closing(FinishReason::Other);
    lemma_shown_first(event, closing(FinishReason::Other));
    assert(text_added(event) == error_note(error));
    assert(answer_shown(failing(run, error)) =~= error_note(error));
}

proof fn lemma_shown_answered(run: LocalRunView, chunks: Seq<ArrivalView>)
    ensures
        answer_shown(answered(run, chunks)) == answer_text(chunks),
    decreases chunks.len(),
{
    if chunks.len() == 0 || chunks[0].cancelled {
        lemma_shown_closing(FinishReason::Done);
    } else {
        lemma_shown_answered(run, chunks.skip(1));
        match chunks[0].chunk.reading() {
            ReadingView::Text(text) => {
                lemma_shown_first(run.appending(text), answered(run, chunks.skip(1)));
                assert(text_added(run.appending(text)) == text);
            },
            ReadingView::Nothing => {},
            ReadingView::Complete => {
                lemma_shown_closing(FinishReason::Done);
            },
            ReadingView::Failed(error) => {
                lemma_shown_failing(run, error);
            },
        }
    }
}

proof fn lemma_shown_opening(run: LocalRunView, clock: Timestamp)
    ensures
        answer_shown(opening(run, clock)) == Seq::<char>::empty(),
{
    reveal_with_fuel(answer_shown, 5);
    assert(forall|i: int|
        0 <= i < opening(run, clock).len() ==> text_added(#[trigger] opening(run, clock)[i])
            == Seq::<char>::empty());
    assert(answer_shown(opening(run, clock)) =~= Seq::empty());
}

/// The updates of an exchange add up to what the model said, in its order and
/// with nothing left out, followed by the error where there was one.
pub proof fn the_answer_is_what_the_model_said(run: LocalRunView, world: WorldView)
    ensures
        answer_shown(transcript(run, world)) == match run.route->0 {
            Err(error) => error_note(error),
            Ok(_) => match world.opened {
                Err(text) => error_note(LocalInferenceErrorView::Client(text)),
                Ok(_) => answer_text(world.chunks),
            },
        },
{
    let rest = transcript(run, world).skip(opening(run, world.clock).len() as int);
    assert(transcript(run, world) =~= opening(run, world.clock) + rest);
    lemma_shown_opening(run, world.clock);
    lemma_shown_sum(opening(run, world.clock), rest);
    assert(answer_shown(transcript(run, world)) =~= answer_shown(rest));
    match run.route->0 {
        Err(error) => {
            assert(rest =~= failing(run, error));
            lemma_shown_failing(run, error);
        },
        Ok(_) => match world.opened {
            Err(text) => {
                assert(rest =~= failing(run, LocalInferenceErrorView::Client(text)));
                lemma_shown_failing(run, LocalInferenceErrorView::Client(text));
            },
            Ok(_) => {
                assert(rest =~= answered(run, world.chunks));
                lemma_shown_answered(run, world.chunks);
            },
        },
    }
}

/// What one event can be between the opening of an exchange and its end: more
/// text for the one message that the exchange writes.
pub open spec fn adds_text(run: LocalRunView, event: ResponseEventView) -> bool {
    exists|text: Seq<char>| text.len() > 0 && event == #[trigger] run.appending(text)
}

/// Events that end an exchange: text for its message, then commit, then close.
pub open spec fn ends_well(run: LocalRunView, events: Seq<ResponseEventView>) -> bool {
    &&& events.len() >= 2
    &&& forall|i: int| 0 <= i < events.len() - 2 ==> adds_text(run, #[trigger] events[i])
    &&& events[events.len() - 2] == commit_update()
    &&& exists|reason: FinishReason| events.last() == #[trigger] finished_event(reason)
}

proof fn lemma_closing_ends_well(run: LocalRunView, reason: FinishReason)
    ensures
        ends_well(run, closing(reason)),
{
    assert(closing(reason).last() == finished_event(reason));
}

proof fn lemma_text_before_end(run: LocalRunView, text: Seq<char>, events: Seq<ResponseEventView>)
    requires
        text.len() > 0,
        ends_well(run, events),
    ensures
        ends_well(run, seq![run.appending(text)] + events),
{
    let all = seq![run.appending(text)] + events;
    assert forall|i: int| 0 <= i < all.len() - 2 implies adds_text(run, #[trigger] all[i]) by {
        if i > 0 {
            assert(all[i] == events[i - 1]);
        } else {
            assert(all[i] == run.appending(text));
        }
    }
    assert(all.last() == events.last());
    assert(all[all.len() - 2] == events[events.len() - 2]);
}

proof fn lemma_failing_ends_well(run: LocalRunView, error: LocalInferenceErrorView)
    ensures
        ends_well(run, failing(run, error)),
{
    reveal_strlit("]");
    lemma_closing_ends_well(run, FinishReason::Other);
    lemma_text_before_end(run, error_note(error), closing(FinishReason::Other));
}

proof fn lemma_answered_ends_well(run: LocalRunView, chunks: Seq<ArrivalView>)
    ensures
        ends_well(run, answered(run, chunks)),
    decreases chunks.len(),
{
    lemma_closing_ends_well(run, FinishReason::Done);
    if chunks.len() > 0 && !chunks[0].cancelled {
        lemma_answered_ends_well(run, chunks.skip(1));
        match chunks[0].chunk.reading() {
            ReadingView::Text(text) => {
                lemma_text_before_end(run, text, answered(run, chunks.skip(1)));
            },
            ReadingView::Failed(error) => {
                lemma_failing_ends_well(run, error);
            },
            _ => {},
        }
    }
}

/// Every exchange opens the stream, makes one transaction and closes the stream,
/// whatever goes wrong: after the opening there is only text for the one message
/// that the exchange writes, then the commit, then the end of the stream.
pub proof fn every_exchange_is_one_transaction(run: LocalRunView, world: WorldView)
    ensures
        transcript(run, world)[0] == init_event(run.conversation_id, run.request_id, run.run_id),
        transcript(run, world)[1] == begin_update(),
        ends_well(run, transcript(run, world).skip(opening(run, world.clock).len() as int)),
{
    let rest = transcript(run, world).skip(opening(run, world.clock).len() as int);
    match run.route->0 {
        Err(error) => {
            assert(rest =~= failing(run, error));
            lemma_failing_ends_well(run, error);
        },
        Ok(_) => match world.opened {
            Err(text) => {
                assert(rest =~= failing(run, LocalInferenceErrorView::Client(text)));
                lemma_failing_ends_well(run, LocalInferenceErrorView::Client(text));
            },
            Ok(_) => {
                assert(rest =~= answered(run, world.chunks));
                lemma_answered_ends_well(run, world.chunks);
            },
        },
    }
}

/// A task is created where the conversation has none to go on in, and only there.
pub proof fn a_task_is_created_where_there_is_none(
    params: RequestParamsView,
    ids: FreshIdsView,
    default_ollama_url: Seq<char>,
    world: WorldView,
)
    ensures
        ({
            let run = LocalRunView::planned(planned(params, ids), default_ollama_url);
            (exists|i: int|
                0 <= i < transcript(run, world).len() && action_of(
                    #[trigger] transcript(run, world)[i],
                ) matches Some(ActionView::CreateTask { .. })) <==> existing_task(params.tasks) is None
        }),
{
    let run = LocalRunView::planned(planned(params, ids), default_ollama_url);
    let events = transcript(run, world);
    let open = opening(run, world.clock);
    every_exchange_is_one_transaction(run, world);
    if run.needs_create_task {
        lemma_action_of(action_of(create_update(run.task_id))->0);
        assert(events[2] == create_update(run.task_id));
        assert(action_of(events[2]) is Some);
    } else {
        let rest = events.skip(open.len() as int);
        assert forall|i: int| 0 <= i < events.len() implies !(action_of(#[trigger] events[i]) matches Some(
            ActionView::CreateTask { .. },
        )) by {
            if i >= open.len() {
                let k = i - open.len();
                assert(events[i] == rest[k]);
                if k < rest.len() - 2 {
                    assert(adds_text(run, rest[k]));
                }
            } else {
                assert(events[i] == open[i]);
            }
        }
    }
}

/// The text that a chunk carries: the content of a message of Ollama or the text of
/// OpenRouter, to the last character. A tool call carries none; where the answer
/// ends or breaks off there is no text to carry.
pub open spec fn content_carried(chunk: ModelChunkView) -> Option<Seq<char>> {
    match chunk {
        ModelChunkView::Ollama(Ok(StreamChunkView::Partial { message })) => Some(message.content),
        ModelChunkView::OpenRouter(Ok(StreamEventView::TextDelta(text))) => Some(text),
        ModelChunkView::OpenRouter(Ok(StreamEventView::ToolCallComplete(_))) => Some(Seq::empty()),
        _ => None,
    }
}

/// Chunks that the exchange goes on after.
pub open spec fn go_on(chunks: Seq<ArrivalView>) -> bool {
    forall|i: int|
        0 <= i < chunks.len() ==> !(#[trigger] chunks[i]).cancelled && content_carried(
            chunks[i].chunk,
        ) is Some
}

/// The texts of chunks, one after the other.
pub open spec fn contents_carried(chunks: Seq<ArrivalView>) -> Seq<char>
    decreases chunks.len(),
{
    if chunks.len() == 0 {
        Seq::empty()
    } else {
        content_carried(chunks[0].chunk)->0 + contents_carried(chunks.skip(1))
    }
}

/// One update for each text that is not empty, in the order of the chunks.
pub open spec fn updates_for(run: LocalRunView, chunks: Seq<ArrivalView>) -> Seq<ResponseEventView>
    decreases chunks.len(),
{
    if chunks.len() == 0 {
        Seq::empty()
    } else {
        let content = content_carried(chunks[0].chunk)->0;
        (if content.len() > 0 {
            seq![run.appending(content)]
        } else {
            Seq::empty()
        }) + updates_for(run, chunks.skip(1))
    }
}

/// Every text of an answer becomes one update that appends it as it stands, in the
/// order in which the texts come; what follows them follows their updates.
pub proof fn each_text_becomes_one_update(
    run: LocalRunView,
    chunks: Seq<ArrivalView>,
    rest: Seq<ArrivalView>,
)
    requires
        go_on(chunks),
    ensures
        answered(run, chunks + rest) == updates_for(run, chunks) + answered(run, rest),
        answer_text(chunks + rest) == contents_carried(chunks) + answer_text(rest),
    decreases chunks.len(),
{
    if chunks.len() == 0 {
        assert(chunks + rest =~= rest);
        assert(updates_for(run, chunks) + answered(run, rest) =~= answered(run, rest));
        assert(contents_carried(chunks) + answer_text(rest) =~= answer_text(rest));
    } else {
        let first = chunks[0];
        assert(!first.cancelled && content_carried(first.chunk) is Some);
        let content = content_carried(first.chunk)->0;
        assert forall|i: int| 0 <= i < chunks.skip(1).len() implies !(
        #[trigger] chunks.skip(1)[i]).cancelled && content_carried(
            chunks.skip(1)[i].chunk,
        ) is Some by {
            assert(chunks.skip(1)[i] == chunks[i + 1]);
        }
        each_text_becomes_one_update(run, chunks.skip(1), rest);
        assert((chunks + rest).skip(1) =~= chunks.skip(1) + rest);
        assert((chunks + rest)[0] == first);
        if content.len() > 0 {
            assert(first.chunk.reading() == ReadingView::Text(content));
        } else {
            assert(first.chunk.reading() is Nothing);
        }
        assert(answered(run, chunks + rest) =~= updates_for(run, chunks) + answered(run, rest));
        assert(answer_text(chunks + rest) =~= contents_carried(chunks) + answer_text(rest));
    }
}

/// An answer that comes to its end reads, in the end, as the texts of its chunks put
/// one after the other, whether they come from Ollama or from OpenRouter.
pub proof fn the_answer_reads_as_its_chunks(run: LocalRunView, world: WorldView)
    requires
        run.phase is Ready,
        run.route matches Some(Ok(_)),
        world.opened is Ok,
        world.patience is None,
        go_on(world.chunks),
    ensures
        answer_shown(taken(run, RunInputView::Start, world)) == contents_carried(world.chunks),
        taken(run, RunInputView::Start, world) == opening(run, world.clock) + updates_for(
            run,
            world.chunks,
        ) + seq![commit_update(), finished_event(FinishReason::Done)],
{
    a_patient_reader_sees_the_transcript(run, world);
    the_answer_is_what_the_model_said(run, world);
    each_text_becomes_one_update(run, world.chunks, Seq::empty());
    assert(world.chunks + Seq::empty() =~= world.chunks);
    assert(contents_carried(world.chunks) + Seq::<char>::empty() =~= contents_carried(
        world.chunks,
    ));
    assert(taken(run, RunInputView::Start, world) =~= opening(run, world.clock) + updates_for(
        run,
        world.chunks,
    ) + seq![commit_update(), finished_event(FinishReason::Done)]);
}

/// The model says that its answer is complete.
pub open spec fn is_complete(chunk: ModelChunkView) -> bool {
    chunk matches ModelChunkView::Ollama(Ok(StreamChunkView::Complete))
}

/// Once the reader calls the exchange off, or the model says that it is done, what
/// was said until then stands and nothing is added to it.
pub proof fn nothing_is_added_after_the_end(
    run: LocalRunView,
    world: WorldView,
    before: Seq<ArrivalView>,
    last: ArrivalView,
    after: Seq<ArrivalView>,
)
    requires
        run.phase is Ready,
        run.route matches Some(Ok(_)),
        world.opened is Ok,
        world.patience is None,
        world.chunks == before + seq![last] + after,
        go_on(before),
        last.cancelled || is_complete(last.chunk),
    ensures
        answer_shown(taken(run, RunInputView::Start, world)) == contents_carried(before),
        taken(run, RunInputView::Start, world) == opening(run, world.clock) + updates_for(
            run,
            before,
        ) + seq![commit_update(), finished_event(FinishReason::Done)],
{
    a_patient_reader_sees_the_transcript(run, world);
    the_answer_is_what_the_model_said(run, world);
    let rest = seq![last] + after;
    assert(world.chunks =~= before + rest);
    each_text_becomes_one_update(run, before, rest);
    assert(rest[0] == last);
    assert(answer_text(rest) =~= Seq::empty());
    assert(contents_carried(before) + Seq::<char>::empty() =~= contents_carried(before));
    assert(taken(run, RunInputView::Start, world) =~= opening(run, world.clock) + updates_for(
        run,
        before,
    ) + seq![commit_update(), finished_event(FinishReason::Done)]);
}

/// What a reader is told where an answer breaks off.
pub open spec fn complaint(chunk: ModelChunkView) -> Option<Seq<char>> {
    match chunk {
        ModelChunkView::Ollama(Err(text)) => Some("ollama stream error: "@ + text),
        ModelChunkView::OpenRouter(Err(error)) => Some(
            "openrouter stream error: "@ + error.message(),
        ),
        _ => None,
    }
}

/// Where an answer breaks off, what was said until then stands, and the error is
/// told after it, whole.
pub proof fn an_error_is_told_after_what_was_said(
    run: LocalRunView,
    world: WorldView,
    before: Seq<ArrivalView>,
    last: ArrivalView,
    after: Seq<ArrivalView>,
)
    requires
        run.phase is Ready,
        run.route matches Some(Ok(_)),
        world.opened is Ok,
        world.patience is None,
        world.chunks == before + seq![last] + after,
        go_on(before),
        !last.cancelled,
        complaint(last.chunk) is Some,
    ensures
        answer_shown(taken(run, RunInputView::Start, world)) == contents_carried(before)
            + "\n\n[local inference error: "@ + complaint(last.chunk)->0 + "]"@,
        taken(run, RunInputView::Start, world).last() == finished_event(FinishReason::Other),
{
    a_patient_reader_sees_the_transcript(run, world);
    the_answer_is_what_the_model_said(run, world);
    let rest = seq![last] + after;
    assert(world.chunks =~= before + rest);
    each_text_becomes_one_update(run, before, rest);
    assert(rest[0] == last);
    let note = "\n\n[local inference error: "@ + complaint(last.chunk)->0 + "]"@;
    assert(answer_text(rest) == note);
    assert(contents_carried(before) + note =~= contents_carried(before)
        + "\n\n[local inference error: "@ + complaint(last.chunk)->0 + "]"@);
    let events = updates_for(run, before) + answered(run, rest);
    assert(answered(run, rest).last() == finished_event(FinishReason::Other));
    assert(taken(run, RunInputView::Start, world) =~= opening(run, world.clock) + events);
}

/// A request that cannot be sent is answered with the error alone, whole.
pub proof fn a_request_that_fails_is_answered_with_the_error(run: LocalRunView, world: WorldView)
    requires
        run.phase is Ready,
        run.route is Some,
        world.patience is None,
    ensures
        run.route matches Some(Err(error)) ==> answer_shown(taken(run, RunInputView::Start, world))
            == "\n\n[local inference error: "@ + error.message() + "]"@,
        run.route matches Some(Ok(_)) && world.opened is Err ==> answer_shown(
            taken(run, RunInputView::Start, world),
        ) == "\n\n[local inference error: "@ + world.opened->Err_0 + "]"@,
{
    a_patient_reader_sees_the_transcript(run, world);
    the_answer_is_what_the_model_said(run, world);
}

/// A transaction is begun and committed by an update of its own each.
pub proof fn transactions_are_begun_and_committed()
    ensures
        action_of(begin_update()) == Some(ActionView::BeginTransaction),
        action_of(commit_update()) == Some(ActionView::CommitTransaction),
{
}

/// An exchange runs as it was planned: under its ids, with the model that its request
/// is routed to.
pub proof fn an_exchange_runs_as_planned(plan: ExchangePlanView, default_ollama_url: Seq<char>)
    ensures
        ({
            let run = LocalRunView::planned(plan, default_ollama_url);
            &&& run.conversation_id == plan.conversation_id
            &&& run.request_id == plan.request_id
            &&& run.run_id == plan.run_id
            &&& run.task_id == plan.task_id
            &&& run.message_id == plan.response_message_id
            &&& run.needs_create_task == plan.needs_create_task
            &&& run.route == Some(
                routed(
                    plan.model_id,
                    plan.messages,
                    plan.api_keys,
                    plan.ollama_url,
                    default_ollama_url,
                ),
            )
            &&& run.phase is Ready
        }),
{
}

/// An exchange appends to its own answer: the message and the task that it was given.
pub proof fn an_exchange_writes_to_its_own_answer(run: LocalRunView, text: Seq<char>)
    ensures
        run.appending(text) == append_update(run.task_id, run.message_id, text),
        text_added(run.appending(text)) == text,
{
}

/// The model is asked exactly once, by the route of the exchange, and only once the
/// answer was added to its task and the reader took it.
pub proof fn the_model_is_asked_by_its_route(run: LocalRunView, input: RunInputView)
    ensures
        run.stepped(input).1 matches RunStepView::Open(route) ==> {
            &&& run.phase is AfterAdd
            &&& input == RunInputView::Sent(true)
            &&& run.route == Some(Ok::<ModelRouteView, LocalInferenceErrorView>(route))
            &&& run.stepped(input).0.route is None
        },
        run.route is None ==> run.stepped(input).0.route is None,
{
}

} // verus!
