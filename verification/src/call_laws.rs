//! Tool calls as they arrive in a stream and as they are handed out, and lines as
//! they are written and as they are read.

use crate::openrouter_client::{
    ChatCompletionChunkView, FunctionCallView, StreamEventView, ToolCallAccumView, ToolCallDeltaView,
    ToolCallView,
};
use crate::openrouter_stream::{
    absorbed, absorbed_all, accumulated, applied, completion, completions, completions_below,
    next_payload, on_end, payload_of, scanned, DecoderView, PayloadView, PendingView,
};
use crate::stream_laws::{
    argument_slices, arguments_are_the_slices_in_order, carried, drained, fed,
    lemma_driven_with_events_before, lemma_next_payload_shortens, slices_add_up_over_chunks, told,
    ParserView,
};
use crate::text::{is_white_space, trimmed};
use crate::text_laws::{
    a_line_ends_at_its_line_feed, all_white_space, is_bare, trimming_leaves_what_stands_between,
};
use vstd::prelude::*;

verus! {

/// The last id that arrives under an index and is not empty.
pub open spec fn last_id(deltas: Seq<ToolCallDeltaView>, index: u32) -> Option<Seq<char>>
    decreases deltas.len(),
{
    if deltas.len() == 0 {
        None
    } else {
        match deltas.last().id {
            Some(id) if deltas.last().index == index && id.len() > 0 => Some(id),
            _ => last_id(deltas.drop_last(), index),
        }
    }
}

/// The last type that arrives under an index and is not empty.
pub open spec fn last_type(deltas: Seq<ToolCallDeltaView>, index: u32) -> Option<Seq<char>>
    decreases deltas.len(),
{
    if deltas.len() == 0 {
        None
    } else {
        match deltas.last().call_type {
            Some(call_type) if deltas.last().index == index && call_type.len() > 0 => Some(
                call_type,
            ),
            _ => last_type(deltas.drop_last(), index),
        }
    }
}

/// The last name of a function that arrives under an index and is not empty.
pub open spec fn last_name(deltas: Seq<ToolCallDeltaView>, index: u32) -> Option<Seq<char>>
    decreases deltas.len(),
{
    if deltas.len() == 0 {
        None
    } else {
        let earlier = last_name(deltas.drop_last(), index);
        match deltas.last().function {
            Some(function) => match function.name {
                Some(name) if deltas.last().index == index && name.len() > 0 => Some(name),
                _ => earlier,
            },
            None => earlier,
        }
    }
}

/// The tool call that slices make up under an index, if they bring an id and a name:
/// the last of each, with all slices of the arguments in the order of their arrival.
pub open spec fn call_sent(deltas: Seq<ToolCallDeltaView>, index: u32) -> Option<ToolCallView> {
    match (last_id(deltas, index), last_name(deltas, index)) {
        (Some(id), Some(name)) => Some(
            ToolCallView {
                id,
                call_type: match last_type(deltas, index) {
                    Some(call_type) => call_type,
                    None => "function"@,
                },
                function: FunctionCallView { name, arguments: argument_slices(deltas, index) },
            },
        ),
        _ => None,
    }
}

/// The tool calls that slices make up under the indices below `bound`, in the order
/// of the indices.
pub open spec fn calls_sent(deltas: Seq<ToolCallDeltaView>, bound: nat) -> Seq<StreamEventView>
    decreases bound,
{
    if bound == 0 {
        Seq::empty()
    } else {
        calls_sent(deltas, (bound - 1) as nat) + match call_sent(deltas, (bound - 1) as u32) {
            Some(call) => seq![StreamEventView::ToolCallComplete(call)],
            None => Seq::empty(),
        }
    }
}

/// All tool calls that slices make up.
pub open spec fn all_calls_sent(deltas: Seq<ToolCallDeltaView>) -> Seq<StreamEventView> {
    calls_sent(deltas, u32::MAX as nat + 1)
}

proof fn lemma_gathered(deltas: Seq<ToolCallDeltaView>, index: u32)
    ensures
        ({
            let accum = accumulated(absorbed_all(Map::empty(), deltas), index);
            &&& accum.id == last_id(deltas, index)
            &&& accum.name == last_name(deltas, index)
            &&& accum.call_type == (match last_type(deltas, index) {
                Some(call_type) => call_type,
                None => Seq::empty(),
            })
            &&& accum.arguments == argument_slices(deltas, index)
            &&& last_type(deltas, index) matches Some(call_type) ==> call_type.len() > 0
        }),
    decreases deltas.len(),
{
    arguments_are_the_slices_in_order(Map::empty(), deltas, index);
    assert(Seq::<char>::empty() + argument_slices(deltas, index) =~= argument_slices(
        deltas,
        index,
    ));
    if deltas.len() > 0 {
        lemma_gathered(deltas.drop_last(), index);
        let before = absorbed_all(Map::empty(), deltas.drop_last());
        assert(absorbed_all(Map::empty(), deltas) == absorbed(before, deltas.last()));
    }
}

proof fn lemma_completion_is_sent(deltas: Seq<ToolCallDeltaView>, index: u32)
    ensures
        ({
            let pending = absorbed_all(Map::empty(), deltas);
            (if pending.dom().contains(index) {
                completion(pending[index])
            } else {
                Seq::empty()
            }) == match call_sent(deltas, index) {
                Some(call) => seq![StreamEventView::ToolCallComplete(call)],
                None => Seq::empty(),
            }
        }),
{
    lemma_gathered(deltas, index);
    let pending = absorbed_all(Map::empty(), deltas);
    let accum = accumulated(pending, index);
    assert(completion(accum) == match call_sent(deltas, index) {
        Some(call) => seq![StreamEventView::ToolCallComplete(call)],
        None => Seq::empty(),
    });
    if !pending.dom().contains(index) {
        assert(accum == ToolCallAccumView::empty());
    }
}

proof fn lemma_calls_below(deltas: Seq<ToolCallDeltaView>, bound: nat)
    requires
        bound <= u32::MAX as nat + 1,
    ensures
        completions_below(absorbed_all(Map::empty(), deltas), bound) == calls_sent(deltas, bound),
    decreases bound,
{
    if bound > 0 {
        lemma_calls_below(deltas, (bound - 1) as nat);
        lemma_completion_is_sent(deltas, (bound - 1) as u32);
    }
}

/// The tool calls that are handed out are those that arrived, one for each index
/// under which an id and a name came, in the order of the indices: with the last id,
/// the last type and the last name, and with the slices of the arguments put
/// together character for character.
pub proof fn calls_are_handed_out_as_they_arrived(deltas: Seq<ToolCallDeltaView>)
    ensures
        completions(absorbed_all(Map::empty(), deltas)) == all_calls_sent(deltas),
{
    lemma_calls_below(deltas, u32::MAX as nat + 1);
}

proof fn lemma_sent_below(deltas: Seq<ToolCallDeltaView>, index: u32, bound: nat)
    requires
        index < bound <= u32::MAX as nat + 1,
        call_sent(deltas, index) is Some,
    ensures
        calls_sent(deltas, bound).contains(
            StreamEventView::ToolCallComplete(call_sent(deltas, index)->0),
        ),
    decreases bound,
{
    let event = StreamEventView::ToolCallComplete(call_sent(deltas, index)->0);
    let all = calls_sent(deltas, bound);
    if index == bound - 1 {
        assert((bound - 1) as u32 == index);
        assert(all.last() == event);
    } else {
        lemma_sent_below(deltas, index, (bound - 1) as nat);
        let earlier = calls_sent(deltas, (bound - 1) as nat);
        let i = choose|i: int| 0 <= i < earlier.len() && earlier[i] == event;
        assert(all[i] == event);
    }
}

/// The call under an index that brings an id and a name is among those that are
/// handed out, whatever other slices arrive between its own.
pub proof fn a_call_that_arrives_is_handed_out(
    deltas: Seq<ToolCallDeltaView>,
    index: u32,
    id: Seq<char>,
    name: Seq<char>,
)
    requires
        last_id(deltas, index) == Some(id),
        last_name(deltas, index) == Some(name),
    ensures
        exists|call: ToolCallView|
            {
                &&& #[trigger] completions(absorbed_all(Map::empty(), deltas)).contains(
                    StreamEventView::ToolCallComplete(call),
                )
                &&& call.id == id
                &&& call.function.name == name
                &&& call.function.arguments == argument_slices(deltas, index)
            },
{
    calls_are_handed_out_as_they_arrived(deltas);
    lemma_sent_below(deltas, index, u32::MAX as nat + 1);
    let call = call_sent(deltas, index)->0;
    assert(completions(absorbed_all(Map::empty(), deltas)).contains(
        StreamEventView::ToolCallComplete(call),
    ));
}

/// The chunk that a payload carries, if it is one and has a choice.
pub open spec fn chunk_in(payload: PayloadView, parser: ParserView) -> Option<
    ChatCompletionChunkView,
> {
    match payload {
        PayloadView::Data(data) => match parser(data) {
            Some(chunk) if chunk.choices.len() > 0 => Some(chunk),
            _ => None,
        },
        PayloadView::Done => None,
    }
}

/// The slices of tool calls that payloads bring.
pub open spec fn slices_sent(payloads: Seq<PayloadView>, parser: ParserView) -> Seq<
    ToolCallDeltaView,
>
    decreases payloads.len(),
{
    if payloads.len() == 0 {
        Seq::empty()
    } else {
        (match chunk_in(payloads[0], parser) {
            Some(chunk) => chunk.choices[0].delta.tool_calls,
            None => Seq::empty(),
        }) + slices_sent(payloads.skip(1), parser)
    }
}

/// The texts that payloads bring, but for those that are empty.
pub open spec fn texts_sent(payloads: Seq<PayloadView>, parser: ParserView) -> Seq<StreamEventView>
    decreases payloads.len(),
{
    if payloads.len() == 0 {
        Seq::empty()
    } else {
        (match chunk_in(payloads[0], parser) {
            Some(chunk) => match chunk.choices[0].delta.content {
                Some(text) if text.len() > 0 => seq![StreamEventView::TextDelta(text)],
                _ => Seq::empty(),
            },
            None => Seq::empty(),
        }) + texts_sent(payloads.skip(1), parser)
    }
}

/// The tool calls are finished with this payload.
pub open spec fn finishes_calls(payload: PayloadView, parser: ParserView) -> bool {
    chunk_in(payload, parser) matches Some(chunk) && chunk.choices[0].finish_reason == Some(
        "tool_calls"@,
    )
}

/// Payloads that a stream goes on after, its tool calls unfinished.
pub open spec fn are_under_way(payloads: Seq<PayloadView>, parser: ParserView) -> bool {
    forall|i: int|
        0 <= i < payloads.len() ==> (#[trigger] payloads[i]) is Data && !finishes_calls(
            payloads[i],
            parser,
        )
}

proof fn lemma_under_way_rest(payloads: Seq<PayloadView>, parser: ParserView)
    requires
        are_under_way(payloads, parser),
        payloads.len() > 0,
    ensures
        are_under_way(payloads.skip(1), parser),
{
    assert forall|i: int| 0 <= i < payloads.skip(1).len() implies (
    #[trigger] payloads.skip(1)[i]) is Data && !finishes_calls(payloads.skip(1)[i], parser) by {
        assert(payloads.skip(1)[i] == payloads[i + 1]);
    }
}

/// While the tool calls of a stream are unfinished, its texts are handed out one by
/// one and the slices are gathered.
proof fn lemma_told_under_way(
    pending: PendingView,
    payloads: Seq<PayloadView>,
    rest: Seq<PayloadView>,
    parser: ParserView,
)
    requires
        are_under_way(payloads, parser),
    ensures
        told(pending, payloads + rest, parser) == texts_sent(payloads, parser) + told(
            absorbed_all(pending, slices_sent(payloads, parser)),
            rest,
            parser,
        ),
    decreases payloads.len(),
{
    if payloads.len() == 0 {
        assert(payloads + rest =~= rest);
        assert(texts_sent(payloads, parser) + told(pending, rest, parser) =~= told(
            pending,
            rest,
            parser,
        ));
    } else {
        let first = payloads[0];
        assert(first is Data && !finishes_calls(first, parser));
        lemma_under_way_rest(payloads, parser);
        let all = payloads + rest;
        assert(all[0] == first);
        assert(all.skip(1) =~= payloads.skip(1) + rest);
        let later = slices_sent(payloads.skip(1), parser);
        match chunk_in(first, parser) {
            Some(chunk) => {
                let slices = chunk.choices[0].delta.tool_calls;
                let gathered = absorbed_all(pending, slices);
                lemma_told_under_way(gathered, payloads.skip(1), rest, parser);
                slices_add_up_over_chunks(pending, slices, later);
            },
            None => {
                lemma_told_under_way(pending, payloads.skip(1), rest, parser);
                assert(Seq::<ToolCallDeltaView>::empty() + later =~= later);
                let (events, after) = (Seq::<StreamEventView>::empty(), pending);
                if let Some(chunk) = parser(first->Data_0) {
                    assert(applied(pending, chunk) == (events, after));
                }
            },
        }
        assert(told(pending, all, parser) =~= texts_sent(payloads, parser) + told(
            absorbed_all(pending, slices_sent(payloads, parser)),
            rest,
            parser,
        ));
    }
}

/// A stream that comes to its mark hands out its texts in their order, and then the
/// tool calls that arrived, each complete and as it arrived. What follows the mark
/// is not read.
pub proof fn a_stream_hands_out_what_was_sent(
    payloads: Seq<PayloadView>,
    rest: Seq<PayloadView>,
    parser: ParserView,
)
    requires
        are_under_way(payloads, parser),
    ensures
        told(Map::empty(), payloads + seq![PayloadView::Done] + rest, parser) == texts_sent(
            payloads,
            parser,
        ) + all_calls_sent(slices_sent(payloads, parser)),
{
    let tail = seq![PayloadView::Done] + rest;
    lemma_told_under_way(Map::empty(), payloads, tail, parser);
    assert(payloads + seq![PayloadView::Done] + rest =~= payloads + tail);
    assert(tail[0] is Done);
    calls_are_handed_out_as_they_arrived(slices_sent(payloads, parser));
}

/// Where a chunk finishes the tool calls, its own text comes first, then the tool
/// calls that arrived up to and with it, each complete and as it arrived. After it
/// the stream goes on as from its start.
pub proof fn finished_calls_are_handed_out(
    payloads: Seq<PayloadView>,
    last: PayloadView,
    rest: Seq<PayloadView>,
    parser: ParserView,
)
    requires
        are_under_way(payloads, parser),
        finishes_calls(last, parser),
    ensures
        told(Map::empty(), payloads + seq![last] + rest, parser) == texts_sent(
            payloads + seq![last],
            parser,
        ) + all_calls_sent(slices_sent(payloads + seq![last], parser)) + told(
            Map::empty(),
            rest,
            parser,
        ),
{
    let tail = seq![last] + rest;
    lemma_told_under_way(Map::empty(), payloads, tail, parser);
    assert(payloads + seq![last] + rest =~= payloads + tail);
    assert(tail[0] == last);
    assert(tail.skip(1) =~= rest);
    let chunk = chunk_in(last, parser)->0;
    let slices = chunk.choices[0].delta.tool_calls;
    let before = slices_sent(payloads, parser);
    slices_add_up_over_chunks(Map::empty(), before, slices);
    lemma_sent_last(payloads, last, parser);
    calls_are_handed_out_as_they_arrived(before + slices);
    assert(told(Map::empty(), payloads + tail, parser) =~= texts_sent(
        payloads + seq![last],
        parser,
    ) + all_calls_sent(slices_sent(payloads + seq![last], parser)) + told(
        Map::empty(),
        rest,
        parser,
    ));
}

proof fn lemma_sent_last(payloads: Seq<PayloadView>, last: PayloadView, parser: ParserView)
    ensures
        slices_sent(payloads + seq![last], parser) == slices_sent(payloads, parser) + (
        match chunk_in(last, parser) {
            Some(chunk) => chunk.choices[0].delta.tool_calls,
            None => Seq::empty(),
        }),
        texts_sent(payloads + seq![last], parser) == texts_sent(payloads, parser) + (
        match chunk_in(last, parser) {
            Some(chunk) => match chunk.choices[0].delta.content {
                Some(text) if text.len() > 0 => seq![StreamEventView::TextDelta(text)],
                _ => Seq::empty(),
            },
            None => Seq::empty(),
        }),
    decreases payloads.len(),
{
    reveal_with_fuel(slices_sent, 2);
    reveal_with_fuel(texts_sent, 2);
    let all = payloads + seq![last];
    if payloads.len() == 0 {
        assert(all.skip(1) =~= Seq::empty());
        assert(all[0] == last);
    } else {
        lemma_sent_last(payloads.skip(1), last, parser);
        assert(all.skip(1) =~= payloads.skip(1) + seq![last]);
        assert(all[0] == payloads[0]);
    }
    assert(slices_sent(all, parser) =~= slices_sent(payloads, parser) + (match chunk_in(
        last,
        parser,
    ) {
        Some(chunk) => chunk.choices[0].delta.tool_calls,
        None => Seq::empty(),
    }));
    assert(texts_sent(all, parser) =~= texts_sent(payloads, parser) + (match chunk_in(
        last,
        parser,
    ) {
        Some(chunk) => match chunk.choices[0].delta.content {
            Some(text) if text.len() > 0 => seq![StreamEventView::TextDelta(text)],
            _ => Seq::empty(),
        },
        None => Seq::empty(),
    }));
}

proof fn lemma_pending_under_way(state: DecoderView, parser: ParserView)
    requires
        !state.stopped,
        are_under_way(carried(state.buffer), parser),
    ensures
        !drained(state, parser).1.stopped,
        drained(state, parser).1.pending == absorbed_all(
            state.pending,
            slices_sent(carried(state.buffer), parser),
        ),
    decreases state.buffer.len(),
{
    lemma_next_payload_shortens(state.buffer);
    let (payload, rest) = next_payload(state.buffer);
    let all = carried(state.buffer);
    match payload {
        None => {},
        Some(PayloadView::Done) => {
            assert(all[0] is Data);
        },
        Some(PayloadView::Data(data)) => {
            let after = DecoderView { buffer: rest, ..state };
            assert(all[0] == PayloadView::Data(data));
            assert(all.skip(1) =~= carried(rest));
            assert(!finishes_calls(all[0], parser));
            lemma_under_way_rest(all, parser);
            let later = slices_sent(carried(rest), parser);
            assert(Seq::<ToolCallDeltaView>::empty() + later =~= later);
            match parser(data) {
                None => {
                    lemma_pending_under_way(after, parser);
                },
                Some(chunk) => {
                    let (events, pending) = applied(state.pending, chunk);
                    let next = DecoderView { pending, ..after };
                    lemma_pending_under_way(next, parser);
                    let (end, progress) = scanned(next);
                    lemma_driven_with_events_before(end, progress, events, parser);
                    if chunk.choices.len() > 0 {
                        slices_add_up_over_chunks(
                            state.pending,
                            chunk.choices[0].delta.tool_calls,
                            later,
                        );
                    }
                },
            }
        },
    }
}

/// A stream that ends without its mark still hands out the tool calls that arrived,
/// each complete and as it arrived.
pub proof fn a_stream_that_ends_hands_out_its_calls(text: Seq<char>, parser: ParserView)
    requires
        are_under_way(carried(text), parser),
    ensures
        on_end(fed(DecoderView::start(), text, parser).1).1 == all_calls_sent(
            slices_sent(carried(text), parser),
        ),
{
    let start = DecoderView::start();
    assert(start.buffer + text =~= text);
    lemma_pending_under_way(DecoderView { buffer: start.buffer + text, ..start }, parser);
    calls_are_handed_out_as_they_arrived(slices_sent(carried(text), parser));
}

proof fn lemma_data_mark()
    ensures
        "data: "@.len() == 6,
        "data: "@[0] == 'd',
        !is_white_space('d'),
{
    reveal_strlit("data: ");
}

/// A line that carries data is read as the data, to the last character, whatever
/// white space stands around it.
pub proof fn a_data_line_is_read_back(before: Seq<char>, data: Seq<char>, after: Seq<char>)
    requires
        all_white_space(before),
        all_white_space(after),
        data.len() > 0,
        !is_white_space(data.last()),
    ensures
        payload_of(before + ("data: "@ + data) + after) == Some(
            if trimmed(data) == "[DONE]"@ {
                PayloadView::Done
            } else {
                PayloadView::Data(data)
            },
        ),
{
    lemma_data_mark();
    let inner = "data: "@ + data;
    assert(inner.last() == data.last());
    assert(is_bare(inner));
    trimming_leaves_what_stands_between(before, inner, after);
    assert(inner.take("data: "@.len() as int) =~= "data: "@);
    assert(inner.skip("data: "@.len() as int) =~= data);
}

/// A line whose text does not begin with the mark of data carries nothing.
pub proof fn other_lines_carry_nothing(before: Seq<char>, inner: Seq<char>, after: Seq<char>)
    requires
        all_white_space(before),
        is_bare(inner),
        all_white_space(after),
        !"data: "@.is_prefix_of(inner),
    ensures
        payload_of(before + inner + after) is None,
{
    trimming_leaves_what_stands_between(before, inner, after);
}

pub open spec fn on_one_line(text: Seq<char>) -> bool {
    forall|i: int| 0 <= i < text.len() ==> (#[trigger] text[i]) != '\n'
}

/// Lines are read one after the other: what the first carries, then what the others
/// carry. An unfinished line carries nothing yet.
pub proof fn lines_are_read_one_by_one(line: Seq<char>, rest: Seq<char>)
    requires
        on_one_line(line),
    ensures
        carried(line) == Seq::<PayloadView>::empty(),
        carried(line + seq!['\n'] + rest) == match payload_of(line) {
            None => carried(rest),
            Some(PayloadView::Done) => seq![PayloadView::Done],
            Some(PayloadView::Data(data)) => seq![PayloadView::Data(data)] + carried(rest),
        },
{
    a_line_ends_at_its_line_feed(line, rest);
}

/// Data as a server writes it, each on a line of its own.
pub open spec fn written(data: Seq<Seq<char>>) -> Seq<char>
    decreases data.len(),
{
    if data.len() == 0 {
        Seq::empty()
    } else {
        "data: "@ + data[0] + seq!['\n'] + written(data.skip(1))
    }
}

/// Data that can be written on a line.
pub open spec fn is_writable(data: Seq<char>) -> bool {
    &&& data.len() > 0
    &&& on_one_line(data)
    &&& !is_white_space(data.last())
    &&& trimmed(data) != "[DONE]"@
}

/// What a server writes is read back: every piece of data, to the last character and
/// in its order, followed by what is written after it.
pub proof fn what_is_written_is_read_back(data: Seq<Seq<char>>, rest: Seq<char>)
    requires
        forall|i: int| 0 <= i < data.len() ==> is_writable(#[trigger] data[i]),
    ensures
        carried(written(data) + rest) == Seq::new(data.len(), |i: int| PayloadView::Data(data[i]))
            + carried(rest),
    decreases data.len(),
{
    let payloads = Seq::new(data.len(), |i: int| PayloadView::Data(data[i]));
    if data.len() == 0 {
        assert(written(data) + rest =~= rest);
        assert(payloads + carried(rest) =~= carried(rest));
    } else {
        let others = data.skip(1);
        assert forall|i: int| 0 <= i < others.len() implies is_writable(#[trigger] others[i]) by {
            assert(others[i] == data[i + 1]);
        }
        what_is_written_is_read_back(others, rest);
        assert(is_writable(data[0]));
        let line = "data: "@ + data[0];
        assert(on_one_line(line)) by {
            reveal_strlit("data: ");
            assert forall|i: int| 0 <= i < line.len() implies (#[trigger] line[i]) != '\n' by {
                if i >= 6 {
                    assert(line[i] == data[0][i - 6]);
                }
            }
        }
        a_data_line_is_read_back(Seq::empty(), data[0], Seq::empty());
        assert(Seq::<char>::empty() + line + Seq::<char>::empty() =~= line);
        lines_are_read_one_by_one(line, written(others) + rest);
        assert(written(data) + rest =~= line + seq!['\n'] + (written(others) + rest));
        assert(payloads + carried(rest) =~= seq![PayloadView::Data(data[0])] + (Seq::new(
            others.len(),
            |i: int| PayloadView::Data(others[i]),
        ) + carried(rest)));
    }
}

} // verus!
