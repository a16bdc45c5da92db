//! What holds of every streamed chat completion.

use crate::openrouter_client::{ChatCompletionChunkView, StreamEventView, ToolCallDeltaView};
use crate::openrouter_stream::{
    absorbed, absorbed_all, accumulated, applied, completion, completions, completions_below,
    next_payload, on_end, on_parse, on_text, scanned, text_events, well_formed_pending, DecoderView,
    NextView, PayloadView, PendingView, ProgressView,
};
use crate::text::{lemma_line_length, lemma_line_length_is, line_length};
use vstd::prelude::*;
use vstd::utf8::{decode_utf8, pop_first_scalar, valid_utf8};

verus! {

/// What a parser makes of payloads: a chunk, or nothing.
pub type ParserView = spec_fn(Seq<char>) -> Option<ChatCompletionChunkView>;

/// The events that come out, and the state that is reached, when each payload
/// that a decoder asks for is parsed until it asks for more text.
pub open spec fn driven(state: DecoderView, progress: ProgressView, parser: ParserView) -> (
    Seq<StreamEventView>,
    DecoderView,
)
    decreases
            state.buffer.len(),
            if progress.next is Parse {
                1nat
            } else {
                0nat
            },
{
    match progress.next {
        NextView::Parse(data) => {
            let (after, more) = on_parse(state, parser(data));
            proof {
                lemma_scan_shortens(state);
                match parser(data) {
                    Some(chunk) => {
                        lemma_scan_shortens(
                            DecoderView { pending: applied(state.pending, chunk).1, ..state },
                        );
                    },
                    None => {},
                }
            }
            let (events, last) = driven(after, more, parser);
            (progress.events + events, last)
        },
        _ => (progress.events, state),
    }
}

/// The events that come of more text, and the state after them.
pub open spec fn fed(state: DecoderView, text: Seq<char>, parser: ParserView) -> (
    Seq<StreamEventView>,
    DecoderView,
) {
    let (after, progress) = on_text(state, text);
    driven(after, progress, parser)
}

pub proof fn lemma_next_payload_shortens(buffer: Seq<char>)
    ensures
        next_payload(buffer).1.len() <= buffer.len(),
        next_payload(buffer).0 is Some ==> next_payload(buffer).1.len() < buffer.len(),
    decreases buffer.len(),
{
    lemma_line_length(buffer);
    let end = line_length(buffer) as int;
    if end < buffer.len() {
        lemma_next_payload_shortens(buffer.skip(end + 1));
    }
}

pub proof fn lemma_scan_shortens(state: DecoderView)
    ensures
        scanned(state).0.buffer.len() <= state.buffer.len(),
        scanned(state).1.next is Parse ==> scanned(state).0.buffer.len() < state.buffer.len(),
{
    lemma_next_payload_shortens(state.buffer);
}

/// Text that follows does not change the payload that is next, and where there
/// is none yet only the incomplete line counts.
proof fn lemma_next_payload_of_longer_text(buffer: Seq<char>, more: Seq<char>)
    ensures
        next_payload(buffer).0 is Some ==> next_payload(buffer + more) == (
            next_payload(buffer).0,
            next_payload(buffer).1 + more,
        ),
        next_payload(buffer).0 is None ==> next_payload(buffer + more) == next_payload(
            next_payload(buffer).1 + more,
        ),
    decreases buffer.len(),
{
    lemma_line_length(buffer);
    let end = line_length(buffer) as int;
    if end < buffer.len() {
        let rest = buffer.skip(end + 1);
        let whole = buffer + more;
        assert forall|i: int| 0 <= i < end implies (#[trigger] whole[i]) != '\n' by {
            assert(whole[i] == buffer[i]);
        }
        lemma_line_length_is(whole, end);
        assert(whole.take(end) =~= buffer.take(end));
        assert(whole.skip(end + 1) =~= rest + more);
        lemma_next_payload_of_longer_text(rest, more);
    }
}

/// What `scanned` gives, driven on.
pub open spec fn drained(state: DecoderView, parser: ParserView) -> (Seq<StreamEventView>, DecoderView) {
    let (after, progress) = scanned(state);
    driven(after, progress, parser)
}

proof fn lemma_drained_of_longer_text(state: DecoderView, more: Seq<char>, parser: ParserView)
    requires
        !state.stopped,
    ensures
        ({
            let whole = DecoderView { buffer: state.buffer + more, ..state };
            let (events, after) = drained(state, parser);
            let (later, last) = fed(after, more, parser);
            drained(whole, parser) == (events + later, last)
        }),
    decreases state.buffer.len(),
{
    let whole = DecoderView { buffer: state.buffer + more, ..state };
    lemma_next_payload_of_longer_text(state.buffer, more);
    lemma_next_payload_shortens(state.buffer);
    let (payload, rest) = next_payload(state.buffer);
    match payload {
        None => {
            let after = DecoderView { buffer: rest, ..state };
            assert(drained(state, parser) == (Seq::<StreamEventView>::empty(), after));
            let continued = DecoderView { buffer: rest + more, ..state };
            assert(scanned(whole) == scanned(continued));
            let (later, last) = fed(after, more, parser);
            assert(Seq::<StreamEventView>::empty() + later =~= later);
        },
        Some(PayloadView::Done) => {
            let (events, after) = drained(state, parser);
            let (later, last) = fed(after, more, parser);
            assert(later =~= Seq::empty());
            assert(events + later =~= events);
        },
        Some(PayloadView::Data(data)) => {
            let short = DecoderView { buffer: rest, ..state };
            let long = DecoderView { buffer: rest + more, ..state };
            let none = Seq::<StreamEventView>::empty();
            match parser(data) {
                None => {
                    lemma_drained_of_longer_text(short, more, parser);
                    let (e, s) = drained(short, parser);
                    let (later, last) = fed(s, more, parser);
                    assert(drained(state, parser) == (none + e, s));
                    assert(none + e =~= e);
                    let (all, end) = drained(long, parser);
                    assert(drained(whole, parser) == (none + all, end));
                    assert(none + (e + later) =~= e + later);
                },
                Some(chunk) => {
                    let (events, pending) = applied(state.pending, chunk);
                    let short2 = DecoderView { pending, ..short };
                    let long2 = DecoderView { pending, ..long };
                    lemma_drained_of_longer_text(short2, more, parser);
                    let (short3, progress) = scanned(short2);
                    lemma_driven_with_events_before(short3, progress, events, parser);
                    let (long3, progress) = scanned(long2);
                    lemma_driven_with_events_before(long3, progress, events, parser);
                    let (e, s) = drained(short2, parser);
                    let (later, last) = fed(s, more, parser);
                    assert(drained(state, parser) == (none + (events + e), s));
                    assert(none + (events + e) =~= events + e);
                    let (all, end) = drained(long2, parser);
                    assert(drained(whole, parser) == (none + (events + all), end));
                    assert(none + (events + (e + later)) =~= events + e + later);
                },
            }
        },
    }
}

pub proof fn lemma_driven_with_events_before(
    state: DecoderView,
    progress: ProgressView,
    events: Seq<StreamEventView>,
    parser: ParserView,
)
    ensures
        driven(state, ProgressView { events: events + progress.events, ..progress }, parser) == (
            events + driven(state, progress, parser).0,
            driven(state, progress, parser).1,
        ),
{
    match progress.next {
        NextView::Parse(data) => {
            let (after, more) = on_parse(state, parser(data));
            let (later, last) = driven(after, more, parser);
            assert(events + progress.events + later =~= events + (progress.events + later));
        },
        _ => {},
    }
}

/// How a stream is cut into pieces does not matter: text that arrives in two
/// pieces gives the events, and leaves the state, that the same text gives in
/// one piece, whatever the parser makes of the payloads.
pub proof fn pieces_of_text_give_what_the_whole_gives(
    state: DecoderView,
    first: Seq<char>,
    second: Seq<char>,
    parser: ParserView,
)
    ensures
        ({
            let (events, after) = fed(state, first, parser);
            let (later, last) = fed(after, second, parser);
            fed(state, first + second, parser) == (events + later, last)
        }),
{
    let (events, after) = fed(state, first, parser);
    let (later, last) = fed(after, second, parser);
    if state.stopped {
        assert(events + later =~= Seq::empty());
    } else {
        let begun = DecoderView { buffer: state.buffer + first, ..state };
        assert(begun.buffer + second =~= state.buffer + (first + second));
        lemma_drained_of_longer_text(begun, second, parser);
    }
}

proof fn lemma_decode_of_joined_bytes(first: Seq<u8>, second: Seq<u8>)
    requires
        valid_utf8(first),
        valid_utf8(second),
    ensures
        valid_utf8(first + second),
        decode_utf8(first + second) == decode_utf8(first) + decode_utf8(second),
    decreases first.len(),
{
    vstd::utf8::valid_utf8_concat(first, second);
    if first.len() == 0 {
        assert(first + second =~= second);
        assert(decode_utf8(first) + decode_utf8(second) =~= decode_utf8(second));
    } else {
        let rest = pop_first_scalar(first);
        lemma_decode_of_joined_bytes(rest, second);
        assert(pop_first_scalar(first + second) =~= rest + second);
        assert(decode_utf8(first + second) =~= decode_utf8(first) + decode_utf8(second));
    }
}

/// Bytes that arrive in two reads, each of them valid UTF-8, give what the same
/// bytes give in one read.
pub proof fn reads_give_what_one_read_gives(
    state: DecoderView,
    first: Seq<u8>,
    second: Seq<u8>,
    parser: ParserView,
)
    requires
        valid_utf8(first),
        valid_utf8(second),
    ensures
        valid_utf8(first + second),
        ({
            let (events, after) = fed(state, decode_utf8(first), parser);
            let (later, last) = fed(after, decode_utf8(second), parser);
            fed(state, decode_utf8(first + second), parser) == (events + later, last)
        }),
{
    lemma_decode_of_joined_bytes(first, second);
    pieces_of_text_give_what_the_whole_gives(
        state,
        decode_utf8(first),
        decode_utf8(second),
        parser,
    );
}

/// An event that says something: text that is not empty, or a tool call whose
/// id, type and function name are not empty.
pub open spec fn meaningful(event: StreamEventView) -> bool {
    match event {
        StreamEventView::TextDelta(text) => text.len() > 0,
        StreamEventView::ToolCallComplete(call) => {
            &&& call.id.len() > 0
            &&& call.call_type.len() > 0
            &&& call.function.name.len() > 0
        },
    }
}

pub open spec fn all_meaningful(events: Seq<StreamEventView>) -> bool {
    forall|i: int| 0 <= i < events.len() ==> meaningful(#[trigger] events[i])
}

proof fn lemma_completions_meaningful(pending: PendingView, bound: nat)
    requires
        well_formed_pending(pending),
        bound <= u32::MAX as nat + 1,
    ensures
        all_meaningful(completions_below(pending, bound)),
    decreases bound,
{
    if bound > 0 {
        lemma_completions_meaningful(pending, (bound - 1) as nat);
        let index = (bound - 1) as u32;
        if pending.dom().contains(index) {
            assert(pending[index].well_formed());
            reveal_strlit("function");
        }
    }
}

proof fn lemma_absorbed_all_well_formed(pending: PendingView, deltas: Seq<ToolCallDeltaView>)
    requires
        well_formed_pending(pending),
    ensures
        well_formed_pending(absorbed_all(pending, deltas)),
    decreases deltas.len(),
{
    if deltas.len() > 0 {
        let before = absorbed_all(pending, deltas.drop_last());
        lemma_absorbed_all_well_formed(pending, deltas.drop_last());
        let delta = deltas.last();
        assert forall|index: u32| absorbed(before, delta).dom().contains(index) implies (
        #[trigger] absorbed(before, delta)[index]).well_formed() by {
            if before.dom().contains(index) {
                assert(before[index].well_formed());
            }
        }
    }
}

proof fn lemma_scan_keeps(state: DecoderView)
    requires
        state.well_formed(),
    ensures
        scanned(state).0.well_formed(),
        all_meaningful(scanned(state).1.events),
{
    lemma_completions_meaningful(state.pending, u32::MAX as nat + 1);
}

/// A stream starts with nothing pending, and whatever arrives, more text, the
/// parse of a payload or the end, no tool call becomes known by an empty id or
/// name, and every event that is handed out says something.
pub proof fn every_event_is_meaningful(
    state: DecoderView,
    text: Seq<char>,
    chunk: Option<ChatCompletionChunkView>,
)
    requires
        state.well_formed(),
    ensures
        DecoderView::start().well_formed(),
        on_text(state, text).0.well_formed(),
        on_parse(state, chunk).0.well_formed(),
        on_end(state).0.well_formed(),
        all_meaningful(on_text(state, text).1.events),
        all_meaningful(on_parse(state, chunk).1.events),
        all_meaningful(on_end(state).1),
{
    lemma_scan_keeps(DecoderView { buffer: state.buffer + text, ..state });
    lemma_scan_keeps(state);
    lemma_completions_meaningful(state.pending, u32::MAX as nat + 1);
    if let Some(chunk) = chunk {
        let (events, pending) = applied(state.pending, chunk);
        if chunk.choices.len() > 0 {
            let gathered = absorbed_all(state.pending, chunk.choices[0].delta.tool_calls);
            lemma_absorbed_all_well_formed(
                state.pending,
                chunk.choices[0].delta.tool_calls,
            );
            lemma_completions_meaningful(gathered, u32::MAX as nat + 1);
        }
        assert(all_meaningful(events));
        assert(well_formed_pending(pending));
        lemma_scan_keeps(DecoderView { pending, ..state });
    }
}

/// Once a stream is over, nothing that arrives has any effect.
pub proof fn nothing_follows_the_end(
    state: DecoderView,
    text: Seq<char>,
    chunk: Option<ChatCompletionChunkView>,
)
    requires
        state.stopped,
    ensures
        on_text(state, text).0 == state,
        on_text(state, text).1.events.len() == 0,
        on_text(state, text).1.next is Stop,
        on_parse(state, chunk).0 == state,
        on_parse(state, chunk).1.events.len() == 0,
        on_parse(state, chunk).1.next is Stop,
        on_end(state) == (state, Seq::<StreamEventView>::empty()),
{
}

/// The slices of the arguments of one tool call, one after the other.
pub open spec fn argument_slices(deltas: Seq<ToolCallDeltaView>, index: u32) -> Seq<char>
    decreases deltas.len(),
{
    if deltas.len() == 0 {
        Seq::empty()
    } else {
        let delta = deltas.last();
        argument_slices(deltas.drop_last(), index) + if delta.index == index {
            match delta.function {
                Some(function) => match function.arguments {
                    Some(arguments) => arguments,
                    None => Seq::empty(),
                },
                None => Seq::empty(),
            }
        } else {
            Seq::empty()
        }
    }
}

/// The arguments of a tool call are the slices that arrive under its index, in
/// the order in which they arrive; slices under another index do not touch it.
pub proof fn arguments_are_the_slices_in_order(
    pending: PendingView,
    deltas: Seq<ToolCallDeltaView>,
    index: u32,
)
    ensures
        accumulated(absorbed_all(pending, deltas), index).arguments == accumulated(
            pending,
            index,
        ).arguments + argument_slices(deltas, index),
        (forall|i: int| 0 <= i < deltas.len() ==> (#[trigger] deltas[i]).index != index)
            ==> accumulated(absorbed_all(pending, deltas), index) == accumulated(pending, index),
    decreases deltas.len(),
{
    let start = accumulated(pending, index).arguments;
    if deltas.len() == 0 {
        assert(start + Seq::<char>::empty() =~= start);
    } else {
        arguments_are_the_slices_in_order(pending, deltas.drop_last(), index);
        let before = absorbed_all(pending, deltas.drop_last());
        let delta = deltas.last();
        assert(accumulated(absorbed_all(pending, deltas), index).arguments =~= start
            + argument_slices(deltas, index));
        if forall|i: int| 0 <= i < deltas.len() ==> (#[trigger] deltas[i]).index != index {
            assert forall|i: int| 0 <= i < deltas.drop_last().len() implies (
            #[trigger] deltas.drop_last()[i]).index != index by {
                assert(deltas.drop_last()[i] == deltas[i]);
            }
            assert(delta == deltas[deltas.len() - 1]);
        }
    }
}

/// The slices of two chunks are put together as if they had come in one.
pub proof fn slices_add_up_over_chunks(
    pending: PendingView,
    first: Seq<ToolCallDeltaView>,
    second: Seq<ToolCallDeltaView>,
)
    ensures
        absorbed_all(absorbed_all(pending, first), second) == absorbed_all(pending, first + second),
    decreases second.len(),
{
    if second.len() == 0 {
        assert(first + second =~= first);
    } else {
        slices_add_up_over_chunks(pending, first, second.drop_last());
        assert((first + second).drop_last() =~= first + second.drop_last());
        assert((first + second).last() == second.last());
    }
}

/// Completed tool calls come in the order of their indices: what comes before
/// the call with a given index are the calls with smaller indices. None is lost.
pub proof fn calls_come_in_the_order_of_their_indices(pending: PendingView, index: u32)
    requires
        pending.dom().contains(index),
    ensures
        (completions_below(pending, index as nat) + completion(pending[index])).is_prefix_of(
            completions(pending),
        ),
        pending[index].completed() matches Some(call) ==> completions(pending).contains(
            StreamEventView::ToolCallComplete(call),
        ),
{
    let bound = index as nat + 1;
    assert((bound - 1) as u32 == index);
    lemma_completions_grow(pending, bound, u32::MAX as nat + 1);
    if let Some(call) = pending[index].completed() {
        let place = completions_below(pending, index as nat).len() as int;
        assert(completions_below(pending, bound)[place] == StreamEventView::ToolCallComplete(call));
        assert(completions(pending)[place] == completions_below(pending, bound)[place]);
    }
}

proof fn lemma_completions_grow(pending: PendingView, low: nat, high: nat)
    requires
        low <= high <= u32::MAX as nat + 1,
    ensures
        completions_below(pending, low).is_prefix_of(completions_below(pending, high)),
    decreases high,
{
    if low < high {
        lemma_completions_grow(pending, low, (high - 1) as nat);
    }
}

/// All payloads in the complete lines of `buffer`, up to the mark at the end of
/// the stream.
pub open spec fn carried(buffer: Seq<char>) -> Seq<PayloadView>
    decreases buffer.len(),
{
    let (payload, rest) = next_payload(buffer);
    match payload {
        None => Seq::empty(),
        Some(PayloadView::Done) => seq![PayloadView::Done],
        Some(PayloadView::Data(data)) => {
            proof {
                lemma_next_payload_shortens(buffer);
            }
            seq![PayloadView::Data(data)] + carried(rest)
        },
    }
}

/// The events that payloads give, one after the other.
pub open spec fn told(
    pending: PendingView,
    payloads: Seq<PayloadView>,
    parser: ParserView,
) -> Seq<StreamEventView>
    decreases payloads.len(),
{
    if payloads.len() == 0 {
        Seq::empty()
    } else {
        match payloads[0] {
            PayloadView::Done => completions(pending),
            PayloadView::Data(data) => match parser(data) {
                None => told(pending, payloads.skip(1), parser),
                Some(chunk) => {
                    let (events, after) = applied(pending, chunk);
                    events + told(after, payloads.skip(1), parser)
                },
            },
        }
    }
}

proof fn lemma_drained_is_told(state: DecoderView, parser: ParserView)
    requires
        !state.stopped,
    ensures
        drained(state, parser).0 == told(state.pending, carried(state.buffer), parser),
    decreases state.buffer.len(),
{
    lemma_next_payload_shortens(state.buffer);
    let (payload, rest) = next_payload(state.buffer);
    let none = Seq::<StreamEventView>::empty();
    match payload {
        None => {},
        Some(PayloadView::Done) => {},
        Some(PayloadView::Data(data)) => {
            let after = DecoderView { buffer: rest, ..state };
            assert(carried(state.buffer).skip(1) =~= carried(rest));
            match parser(data) {
                None => {
                    lemma_drained_is_told(after, parser);
                    let (events, last) = drained(after, parser);
                    assert(drained(state, parser) == (none + events, last));
                    assert(none + events =~= events);
                },
                Some(chunk) => {
                    let (events, pending) = applied(state.pending, chunk);
                    let applied_to = DecoderView { pending, ..after };
                    lemma_drained_is_told(applied_to, parser);
                    let (end, progress) = scanned(applied_to);
                    lemma_driven_with_events_before(end, progress, events, parser);
                    let (later, last) = drained(applied_to, parser);
                    assert(drained(state, parser) == (none + (events + later), last));
                    assert(none + (events + later) =~= events + later);
                },
            }
        },
    }
}

/// What comes of text is what the payloads in its complete lines tell, those
/// before the mark at the end of the stream, each once and in their order.
pub proof fn a_stream_tells_its_payloads(state: DecoderView, text: Seq<char>, parser: ParserView)
    requires
        !state.stopped,
    ensures
        fed(state, text, parser).0 == told(state.pending, carried(state.buffer + text), parser),
{
    lemma_drained_is_told(DecoderView { buffer: state.buffer + text, ..state }, parser);
}

/// The text that events hand out.
pub open spec fn text_told(events: Seq<StreamEventView>) -> Seq<char>
    decreases events.len(),
{
    if events.len() == 0 {
        Seq::empty()
    } else {
        text_told(events.drop_last()) + match events.last() {
            StreamEventView::TextDelta(text) => text,
            StreamEventView::ToolCallComplete(_) => Seq::empty(),
        }
    }
}

/// The text of a chunk: that of its first choice.
pub open spec fn content_of(chunk: ChatCompletionChunkView) -> Seq<char> {
    if chunk.choices.len() > 0 {
        match chunk.choices[0].delta.content {
            Some(text) => text,
            None => Seq::empty(),
        }
    } else {
        Seq::empty()
    }
}

/// The text of payloads, one after the other.
pub open spec fn contents_of(payloads: Seq<PayloadView>, parser: ParserView) -> Seq<char>
    decreases payloads.len(),
{
    if payloads.len() == 0 {
        Seq::empty()
    } else {
        match payloads[0] {
            PayloadView::Done => Seq::empty(),
            PayloadView::Data(data) => match parser(data) {
                None => contents_of(payloads.skip(1), parser),
                Some(chunk) => content_of(chunk) + contents_of(payloads.skip(1), parser),
            },
        }
    }
}

proof fn lemma_text_of_sum(a: Seq<StreamEventView>, b: Seq<StreamEventView>)
    ensures
        text_told(a + b) == text_told(a) + text_told(b),
    decreases b.len(),
{
    if b.len() == 0 {
        assert(a + b =~= a);
        assert(text_told(a) + text_told(b) =~= text_told(a));
    } else {
        lemma_text_of_sum(a, b.drop_last());
        assert((a + b).drop_last() =~= a + b.drop_last());
        assert((a + b).last() == b.last());
        assert(text_told(a + b) =~= text_told(a) + text_told(b));
    }
}

proof fn lemma_calls_hold_no_text(pending: PendingView, bound: nat)
    ensures
        text_told(completions_below(pending, bound)) == Seq::<char>::empty(),
    decreases bound,
{
    if bound > 0 {
        let index = (bound - 1) as u32;
        let call = if pending.dom().contains(index) {
            completion(pending[index])
        } else {
            Seq::empty()
        };
        lemma_calls_hold_no_text(pending, (bound - 1) as nat);
        lemma_text_of_sum(completions_below(pending, (bound - 1) as nat), call);
        reveal_with_fuel(text_told, 2);
        assert(text_told(call) =~= Seq::empty());
        assert(text_told(completions_below(pending, bound)) =~= Seq::empty());
    }
}

proof fn lemma_text_of_chunk(pending: PendingView, chunk: ChatCompletionChunkView)
    ensures
        text_told(applied(pending, chunk).0) == content_of(chunk),
{
    if chunk.choices.len() > 0 {
        let choice = chunk.choices[0];
        let texts = text_events(choice.delta.content);
        let gathered = absorbed_all(pending, choice.delta.tool_calls);
        reveal_with_fuel(text_told, 2);
        assert(text_told(texts) =~= content_of(chunk));
        lemma_calls_hold_no_text(gathered, u32::MAX as nat + 1);
        lemma_text_of_sum(texts, completions(gathered));
        assert(content_of(chunk) + Seq::<char>::empty() =~= content_of(chunk));
    }
}

/// The text that a stream hands out is that of its chunks, in their order and with
/// nothing left out, whatever tool calls come between.
pub proof fn the_text_is_that_of_the_chunks(
    pending: PendingView,
    payloads: Seq<PayloadView>,
    parser: ParserView,
)
    ensures
        text_told(told(pending, payloads, parser)) == contents_of(payloads, parser),
    decreases payloads.len(),
{
    if payloads.len() > 0 {
        match payloads[0] {
            PayloadView::Done => {
                lemma_calls_hold_no_text(pending, u32::MAX as nat + 1);
            },
            PayloadView::Data(data) => match parser(data) {
                None => {
                    the_text_is_that_of_the_chunks(pending, payloads.skip(1), parser);
                },
                Some(chunk) => {
                    let (events, after) = applied(pending, chunk);
                    the_text_is_that_of_the_chunks(after, payloads.skip(1), parser);
                    lemma_text_of_chunk(pending, chunk);
                    lemma_text_of_sum(events, told(after, payloads.skip(1), parser));
                },
            },
        }
    }
}

} // verus!
