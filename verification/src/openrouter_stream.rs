//! Reading a streamed chat completion: server-sent lines are taken out of the
//! bytes as they arrive, and the chunks they carry are turned into events.
//!
//! The decoder does no parsing and no input of its own. It says what it waits
//! for, more bytes or the parse of one payload, and takes that as its next
//! input.

use crate::openrouter_client::{
    ChatCompletionChunk, ChatCompletionChunkView, OpenRouterError, OpenRouterErrorView,
    StreamEvent, StreamEventView, ToolCallAccum, ToolCallAccumView, ToolCallDelta,
    ToolCallDeltaView,
};
use crate::text::{line_length, split_line, str_eq, strip_prefix, trim, trimmed};
use std::collections::BTreeMap;
use vstd::prelude::*;

verus! {

broadcast use {vstd::std_specs::btree::group_btree_axioms, vstd::laws_cmp::group_laws_cmp};

/// What a line of the stream carries.
pub enum PayloadView {
    /// The mark at the end of the stream.
    Done,
    /// The text of a chunk.
    Data(Seq<char>),
}

/// What a line carries, if it is a data line.
pub open spec fn payload_of(line: Seq<char>) -> Option<PayloadView> {
    let content = trimmed(line);
    if "data: "@.is_prefix_of(content) {
        let data = content.skip("data: "@.len() as int);
        if trimmed(data) == "[DONE]"@ {
            Some(PayloadView::Done)
        } else {
            Some(PayloadView::Data(data))
        }
    } else {
        None
    }
}

/// The first payload among the complete lines of `buffer`, and what follows
/// its line; where no complete line carries one, the incomplete last line.
pub open spec fn next_payload(buffer: Seq<char>) -> (Option<PayloadView>, Seq<char>)
    decreases buffer.len(),
{
    let end = line_length(buffer) as int;
    if end >= buffer.len() {
        (None, buffer)
    } else {
        let rest = buffer.skip(end + 1);
        match payload_of(buffer.take(end)) {
            Some(payload) => (Some(payload), rest),
            None => next_payload(rest),
        }
    }
}

/// The tool calls being put together, by the index under which their slices
/// arrive.
pub type PendingView = Map<u32, ToolCallAccumView>;

/// No tool call is known by an empty id or an empty name.
pub open spec fn well_formed_pending(pending: PendingView) -> bool {
    forall|index: u32|
        pending.dom().contains(index) ==> (#[trigger] pending[index]).well_formed()
}

/// What has arrived of the tool call with the given index.
pub open spec fn accumulated(pending: PendingView, index: u32) -> ToolCallAccumView {
    if pending.dom().contains(index) {
        pending[index]
    } else {
        ToolCallAccumView::empty()
    }
}

/// With one more slice.
pub open spec fn absorbed(pending: PendingView, delta: ToolCallDeltaView) -> PendingView {
    pending.insert(delta.index, accumulated(pending, delta.index).absorbing(delta))
}

/// With more slices, one after the other.
pub open spec fn absorbed_all(pending: PendingView, deltas: Seq<ToolCallDeltaView>) -> PendingView
    decreases deltas.len(),
{
    if deltas.len() == 0 {
        pending
    } else {
        absorbed(absorbed_all(pending, deltas.drop_last()), deltas.last())
    }
}

/// The event for a tool call, if enough of it has arrived.
pub open spec fn completion(accum: ToolCallAccumView) -> Seq<StreamEventView> {
    match accum.completed() {
        Some(call) => seq![StreamEventView::ToolCallComplete(call)],
        None => Seq::empty(),
    }
}

/// The completed tool calls with an index below `bound`, in the order of their
/// indices.
pub open spec fn completions_below(pending: PendingView, bound: nat) -> Seq<StreamEventView>
    decreases bound,
{
    if bound == 0 {
        Seq::empty()
    } else {
        let index = (bound - 1) as u32;
        completions_below(pending, (bound - 1) as nat) + if pending.dom().contains(index) {
            completion(pending[index])
        } else {
            Seq::empty()
        }
    }
}

/// The completed tool calls, in the order of their indices.
pub open spec fn completions(pending: PendingView) -> Seq<StreamEventView> {
    completions_below(pending, u32::MAX as nat + 1)
}

/// The event for the text of a chunk, unless there is none.
pub open spec fn text_events(content: Option<Seq<char>>) -> Seq<StreamEventView> {
    match content {
        Some(text) => if text.len() > 0 {
            seq![StreamEventView::TextDelta(text)]
        } else {
            Seq::empty()
        },
        None => Seq::empty(),
    }
}

/// The events of a chunk, and the tool calls still pending after it. Only the
/// first choice counts; its text comes first, and where it ends with the tool
/// calls, all that are pending are completed.
pub open spec fn applied(pending: PendingView, chunk: ChatCompletionChunkView) -> (
    Seq<StreamEventView>,
    PendingView,
) {
    if chunk.choices.len() == 0 {
        (Seq::empty(), pending)
    } else {
        let choice = chunk.choices[0];
        let gathered = absorbed_all(pending, choice.delta.tool_calls);
        let texts = text_events(choice.delta.content);
        if choice.finish_reason == Some("tool_calls"@) {
            (texts + completions(gathered), Map::empty())
        } else {
            (texts, gathered)
        }
    }
}

/// The state of a decoder.
pub struct DecoderView {
    /// Text that has arrived and is not read yet.
    pub buffer: Seq<char>,
    pub pending: PendingView,
    /// The stream is over.
    pub stopped: bool,
}

impl DecoderView {
    /// Nothing has arrived yet.
    pub open spec fn start() -> DecoderView {
        DecoderView { buffer: Seq::empty(), pending: Map::empty(), stopped: false }
    }

    /// The stream is over, and nothing is left of it.
    pub open spec fn over() -> DecoderView {
        DecoderView { buffer: Seq::empty(), pending: Map::empty(), stopped: true }
    }

    /// No tool call is known by an empty id or an empty name.
    pub open spec fn well_formed(self) -> bool {
        well_formed_pending(self.pending)
    }
}

/// What a decoder waits for.
pub enum NextView {
    /// More bytes, or the end of the stream.
    Read,
    /// The parse of a payload.
    Parse(Seq<char>),
    /// Nothing: the stream is over.
    Stop,
}

/// What comes of one input: the events to hand out, and what to do next.
pub struct ProgressView {
    pub events: Seq<StreamEventView>,
    pub next: NextView,
}

/// Reads on in the buffer as far as the next payload.
pub open spec fn scanned(state: DecoderView) -> (DecoderView, ProgressView) {
    let (payload, rest) = next_payload(state.buffer);
    match payload {
        None => (
            DecoderView { buffer: rest, ..state },
            ProgressView { events: Seq::empty(), next: NextView::Read },
        ),
        Some(PayloadView::Data(data)) => (
            DecoderView { buffer: rest, ..state },
            ProgressView { events: Seq::empty(), next: NextView::Parse(data) },
        ),
        Some(PayloadView::Done) => (
            DecoderView::over(),
            ProgressView { events: completions(state.pending), next: NextView::Stop },
        ),
    }
}

/// Nothing happens any more once the stream is over.
pub open spec fn idle() -> ProgressView {
    ProgressView { events: Seq::empty(), next: NextView::Stop }
}

/// What comes of more text.
pub open spec fn on_text(state: DecoderView, text: Seq<char>) -> (DecoderView, ProgressView) {
    if state.stopped {
        (state, idle())
    } else {
        scanned(DecoderView { buffer: state.buffer + text, ..state })
    }
}

/// What comes of the parse of a payload; one that is no chunk is passed over.
pub open spec fn on_parse(state: DecoderView, chunk: Option<ChatCompletionChunkView>) -> (
    DecoderView,
    ProgressView,
) {
    if state.stopped {
        (state, idle())
    } else {
        match chunk {
            None => scanned(state),
            Some(chunk) => {
                let (events, pending) = applied(state.pending, chunk);
                let (after, progress) = scanned(DecoderView { pending, ..state });
                (after, ProgressView { events: events + progress.events, ..progress })
            },
        }
    }
}

/// What comes of the end of the stream: all that is pending is completed.
pub open spec fn on_end(state: DecoderView) -> (DecoderView, Seq<StreamEventView>) {
    if state.stopped {
        (state, Seq::empty())
    } else {
        (DecoderView::over(), completions(state.pending))
    }
}

proof fn lemma_no_completions_between(pending: PendingView, low: nat, high: nat)
    requires
        low <= high <= u32::MAX as nat + 1,
        forall|index: u32| low <= index < high ==> !pending.dom().contains(index),
    ensures
        completions_below(pending, high) == completions_below(pending, low),
    decreases high,
{
    if low < high {
        lemma_no_completions_between(pending, low, (high - 1) as nat);
        assert(!pending.dom().contains((high - 1) as u32));
        assert(completions_below(pending, high) =~= completions_below(pending, low));
    }
}

proof fn lemma_increasing(order: Seq<u32>)
    requires
        vstd::std_specs::btree::increasing_seq(order),
    ensures
        forall|i: int, j: int| 0 <= i < j < order.len() ==> order[i] < order[j],
{
    assert forall|i: int, j: int| 0 <= i < j < order.len() implies order[i] < order[j] by {
        assert(vstd::std_specs::cmp::OrdSpec::cmp_spec(&order[i], &order[j]) is Less);
    }
}

/// What a decoder waits for.
#[derive(Debug, Clone, PartialEq)]
pub enum Next {
    /// More bytes, or the end of the stream.
    Read,
    /// The parse of a payload.
    Parse(String),
    /// Nothing: the stream is over.
    Stop,
}

impl DeepView for Next {
    type V = NextView;

    open spec fn deep_view(&self) -> NextView {
        match self {
            Next::Read => NextView::Read,
            Next::Parse(data) => NextView::Parse(data@),
            Next::Stop => NextView::Stop,
        }
    }
}

/// What comes of one input: the events to hand out, and what to do next.
#[derive(Debug, Clone, PartialEq)]
pub struct Progress {
    pub events: Vec<StreamEvent>,
    pub next: Next,
}

impl DeepView for Progress {
    type V = ProgressView;

    open spec fn deep_view(&self) -> ProgressView {
        ProgressView { events: self.events.deep_view(), next: self.next.deep_view() }
    }
}

/// What a line of the stream carries.
#[derive(Debug, Clone, PartialEq)]
pub enum Payload {
    Done,
    Data(String),
}

impl DeepView for Payload {
    type V = PayloadView;

    open spec fn deep_view(&self) -> PayloadView {
        match self {
            Payload::Done => PayloadView::Done,
            Payload::Data(data) => PayloadView::Data(data@),
        }
    }
}

/// What a line carries, if it is a data line.
pub fn read_line(line: &str) -> (r: Option<Payload>)
    ensures
        r.deep_view() == payload_of(line@),
{
    let content = trim(line);
    match strip_prefix(content.as_str(), "data: ") {
        Some(data) => {
            let inner = trim(data.as_str());
            if str_eq(inner.as_str(), "[DONE]") {
                Some(Payload::Done)
            } else {
                Some(Payload::Data(data))
            }
        },
        None => None,
    }
}

/// The text that `String::from_utf8_lossy` reads from bytes.
pub uninterp spec fn lossy_text(bytes: Seq<u8>) -> Seq<char>;

/// Calls `String::from_utf8_lossy`, which reads bytes as UTF-8 and puts a
/// replacement character in the place of what is not UTF-8. Bytes that are
/// valid UTF-8 are decoded as they are.
#[verifier::external_body]
fn from_utf8_lossy(bytes: &[u8]) -> (r: String)
    ensures
        r@ == lossy_text(bytes@),
        vstd::utf8::valid_utf8(bytes@) ==> r@ == vstd::utf8::decode_utf8(bytes@),
{
    String::from_utf8_lossy(bytes).into_owned()
}

/// A decoder of one streamed chat completion.
pub struct StreamDecoder {
    buffer: String,
    pending: BTreeMap<u32, ToolCallAccum>,
    stopped: bool,
}

/// The tool calls being put together.
pub closed spec fn pending_view(pending: Map<u32, ToolCallAccum>) -> PendingView {
    pending.map_values(|accum: ToolCallAccum| accum.deep_view())
}

impl View for StreamDecoder {
    type V = DecoderView;

    closed spec fn view(&self) -> DecoderView {
        DecoderView {
            buffer: self.buffer@,
            pending: pending_view(self.pending@),
            stopped: self.stopped,
        }
    }
}

impl StreamDecoder {
    /// A decoder at the start of a stream.
    pub fn new() -> (r: Self)
        ensures
            r@ == DecoderView::start(),
    {
        let r = StreamDecoder {
            buffer: String::new(),
            pending: BTreeMap::new(),
            stopped: false,
        };
        assert(r@.pending =~= Map::empty());
        r
    }

    /// Takes the completed tool calls out, in the order of their indices, and
    /// forgets the others.
    fn flush(&mut self) -> (events: Vec<StreamEvent>)
        ensures
            events.deep_view() == completions(old(self)@.pending),
            final(self)@ == (DecoderView { pending: Map::empty(), ..old(self)@ }),
    {
        let ghost all = self@.pending;
        let mut taken: BTreeMap<u32, ToolCallAccum> = BTreeMap::new();
        std::mem::swap(&mut taken, &mut self.pending);
        let ghost accums = taken@;
        assert(self@.pending =~= Map::empty());
        let mut indices: Vec<u32> = Vec::new();
        let entries = taken.iter();
        let ghost listed = vstd::std_specs::iter::IteratorSpec::remaining(&entries);
        let ghost order = listed.map_values(|entry: (&u32, &ToolCallAccum)| *entry.0);
        for entry in it: entries
            invariant
                it.seq() == listed,
                order == listed.map_values(|entry: (&u32, &ToolCallAccum)| *entry.0),
                indices@ == order.take(it.index()),
        {
            indices.push(*entry.0);
            assert(indices@ =~= order.take(it.index() + 1));
        }
        assert(indices@ =~= order);
        proof {
            lemma_increasing(order);
            assert forall|index: u32| accums.dom().contains(index) implies indices@.contains(
                index,
            ) by {
                assert(accums.contains_key(index));
                assert(listed.contains((&index, &accums[index])));
                let i = choose|i: int|
                    0 <= i < listed.len() && listed[i] == (&index, &accums[index]);
                assert(indices@[i] == index);
            }
        }
        let mut events: Vec<StreamEvent> = Vec::new();
        let mut i: usize = 0;
        while i < indices.len()
            invariant
                i <= indices@.len(),
                all == pending_view(accums),
                forall|j: int, k: int| 0 <= j < k < indices@.len() ==> indices@[j] < indices@[k],
                forall|j: int|
                    0 <= j < indices@.len() ==> accums.dom().contains(#[trigger] indices@[j]),
                forall|index: u32| accums.dom().contains(index) ==> indices@.contains(index),
                forall|j: int|
                    i <= j < indices@.len() ==> taken@.dom().contains(#[trigger] indices@[j])
                        && taken@[indices@[j]] == accums[indices@[j]],
                events.deep_view() == completions_below(
                    all,
                    if i == 0 {
                        0
                    } else {
                        indices@[i - 1] as nat + 1
                    },
                ),
            decreases indices@.len() - i,
        {
            let index = indices[i];
            let ghost low: nat = if i == 0 {
                0
            } else {
                indices@[i - 1] as nat + 1
            };
            let ghost before = events.deep_view();
            proof {
                assert forall|other: u32| low <= other < index implies !all.dom().contains(
                    other,
                ) by {
                    if accums.dom().contains(other) {
                        let j = choose|j: int| 0 <= j < indices@.len() && indices@[j] == other;
                        assert(indices@[j] == other);
                    }
                }
                lemma_no_completions_between(all, low, index as nat);
            }
            if let Some(accum) = taken.remove(&index) {
                assert(accum.deep_view() == all[index]);
                if let Some(call) = accum.into_tool_call() {
                    let event = StreamEvent::ToolCallComplete(call);
                    events.push(event);
                    assert(events.deep_view() =~= before + completion(all[index]));
                } else {
                    assert(events.deep_view() =~= before + completion(all[index]));
                }
            }
            assert(((index as nat + 1) - 1) as u32 == index);
            i = i + 1;
        }
        proof {
            let low: nat = if i == 0 {
                0
            } else {
                indices@[i - 1] as nat + 1
            };
            assert forall|other: u32| low <= other < u32::MAX as nat + 1 implies !all.dom().contains(
                other,
            ) by {
                if accums.dom().contains(other) {
                    let j = choose|j: int| 0 <= j < indices@.len() && indices@[j] == other;
                    assert(indices@[j] == other);
                }
            }
            lemma_no_completions_between(all, low, u32::MAX as nat + 1);
        }
        events
    }

    /// Forgets whatever is left of the stream.
    fn close(&mut self)
        ensures
            final(self)@ == DecoderView::over(),
    {
        self.buffer = String::new();
        self.pending = BTreeMap::new();
        self.stopped = true;
        assert(self@.pending =~= Map::empty());
    }

    /// Takes in one more slice of a tool call.
    fn absorb(&mut self, delta: &ToolCallDelta)
        ensures
            final(self)@ == (DecoderView {
                pending: absorbed(old(self)@.pending, delta.deep_view()),
                ..old(self)@
            }),
    {
        let ghost before = self.pending@;
        let mut accum = match self.pending.remove(&delta.index) {
            Some(accum) => accum,
            None => ToolCallAccum::default(),
        };
        assert(accum.deep_view() == accumulated(pending_view(before), delta.index));
        accum.absorb(delta);
        self.pending.insert(delta.index, accum);
        assert(self@.pending =~= absorbed(old(self)@.pending, delta.deep_view()));
    }

    /// Takes in a chunk.
    fn apply(&mut self, chunk: &ChatCompletionChunk) -> (events: Vec<StreamEvent>)
        ensures
            events.deep_view() == applied(old(self)@.pending, chunk.deep_view()).0,
            final(self)@ == (DecoderView {
                pending: applied(old(self)@.pending, chunk.deep_view()).1,
                ..old(self)@
            }),
    {
        let mut events: Vec<StreamEvent> = Vec::new();
        assert(events.deep_view() =~= Seq::empty());
        if chunk.choices.len() == 0 {
            return events;
        }
        let choice = &chunk.choices[0];
        let ghost choice_view = chunk.deep_view().choices[0];
        assert(choice_view == choice.deep_view());
        if let Some(content) = &choice.delta.content {
            if !content.as_str().is_empty() {
                events.push(StreamEvent::TextDelta(content.clone()));
            }
        }
        assert(events.deep_view() =~= text_events(choice_view.delta.content));
        let ghost deltas = choice_view.delta.tool_calls;
        let ghost before = self@;
        let mut i: usize = 0;
        while i < choice.delta.tool_calls.len()
            invariant
                i <= choice.delta.tool_calls@.len(),
                deltas == choice.delta.tool_calls.deep_view(),
                self@ == (DecoderView {
                    pending: absorbed_all(before.pending, deltas.take(i as int)),
                    ..before
                }),
            decreases choice.delta.tool_calls@.len() - i,
        {
            proof {
                assert(deltas.take(i as int + 1).drop_last() =~= deltas.take(i as int));
                assert(deltas.take(i as int + 1).last() == choice.delta.tool_calls@[i as int].deep_view());
            }
            self.absorb(&choice.delta.tool_calls[i]);
            i = i + 1;
        }
        assert(deltas.take(i as int) =~= deltas);
        if let Some(reason) = &choice.finish_reason {
            if str_eq(reason.as_str(), "tool_calls") {
                let ghost texts = events.deep_view();
                let mut calls = self.flush();
                let ghost completed = calls.deep_view();
                events.append(&mut calls);
                assert(events.deep_view() =~= texts + completed);
            }
        }
        events
    }

    /// Reads on in the buffer as far as the next payload.
    fn scan(&mut self) -> (r: Progress)
        ensures
            (final(self)@, r.deep_view()) == scanned(old(self)@),
    {
        let ghost before = self@;
        let none: Vec<StreamEvent> = Vec::new();
        assert(none.deep_view() =~= Seq::empty());
        loop
            invariant
                none.deep_view() == Seq::<StreamEventView>::empty(),
                before == old(self)@,
                next_payload(self@.buffer) == next_payload(before.buffer),
                self@ == (DecoderView { buffer: self@.buffer, ..before }),
            decreases self@.buffer.len(),
        {
            proof {
                crate::text::lemma_line_length(self@.buffer);
            }
            match split_line(self.buffer.as_str()) {
                Some((line, rest)) => {
                    self.buffer = rest;
                    match read_line(line.as_str()) {
                        Some(Payload::Done) => {
                            let events = self.flush();
                            self.close();
                            return Progress { events, next: Next::Stop };
                        },
                        Some(Payload::Data(data)) => {
                            return Progress { events: none, next: Next::Parse(data) };
                        },
                        None => {},
                    }
                },
                None => {
                    return Progress { events: none, next: Next::Read };
                },
            }
        }
    }

    /// Takes in more bytes of the stream.
    pub fn receive(&mut self, bytes: &[u8]) -> (r: Progress)
        ensures
            (final(self)@, r.deep_view()) == on_text(old(self)@, lossy_text(bytes@)),
            vstd::utf8::valid_utf8(bytes@) ==> (final(self)@, r.deep_view()) == on_text(
                old(self)@,
                vstd::utf8::decode_utf8(bytes@),
            ),
    {
        let text = from_utf8_lossy(bytes);
        self.receive_text(text.as_str())
    }

    /// Takes in more text of the stream.
    pub fn receive_text(&mut self, text: &str) -> (r: Progress)
        ensures
            (final(self)@, r.deep_view()) == on_text(old(self)@, text@),
    {
        if self.stopped {
            let r = Progress { events: Vec::new(), next: Next::Stop };
            assert(r.events.deep_view() =~= Seq::empty());
            return r;
        }
        self.buffer.append(text);
        self.scan()
    }

    /// Takes in the parse of the payload that was asked for; `None` where it is
    /// no chunk.
    pub fn parsed(&mut self, chunk: Option<ChatCompletionChunk>) -> (r: Progress)
        ensures
            (final(self)@, r.deep_view()) == on_parse(old(self)@, chunk.deep_view()),
    {
        if self.stopped {
            let r = Progress { events: Vec::new(), next: Next::Stop };
            assert(r.events.deep_view() =~= Seq::empty());
            return r;
        }
        match chunk {
            Some(chunk) => {
                let mut events = self.apply(&chunk);
                let ghost applied_events = events.deep_view();
                let mut progress = self.scan();
                let ghost scanned_events = progress.events.deep_view();
                events.append(&mut progress.events);
                assert(events.deep_view() =~= applied_events + scanned_events);
                Progress { events, next: progress.next }
            },
            None => self.scan(),
        }
    }

    /// Takes in the end of the stream.
    pub fn end(&mut self) -> (events: Vec<StreamEvent>)
        ensures
            (final(self)@, events.deep_view()) == on_end(old(self)@),
    {
        if self.stopped {
            let events: Vec<StreamEvent> = Vec::new();
            assert(events.deep_view() =~= Seq::empty());
            return events;
        }
        let events = self.flush();
        self.close();
        events
    }

    /// Takes in a failure of the transport: the stream is over, and what is
    /// pending is lost.
    pub fn fail(&mut self, error: String) -> (r: OpenRouterError)
        ensures
            r.deep_view() == OpenRouterErrorView::HttpError(error@),
            final(self)@ == DecoderView::over(),
    {
        self.close();
        OpenRouterError::HttpError(error)
    }
}

} // verus!
