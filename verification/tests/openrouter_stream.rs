use local_agent::openrouter_client::{
    ChatCompletionChunk, FunctionCall, FunctionCallDelta, OpenRouterError, StreamChoice,
    StreamDelta, StreamEvent, ToolCall, ToolCallDelta,
};
use local_agent::openrouter_stream::{read_line, Next, Payload, Progress, StreamDecoder};

fn some(s: &str) -> Option<String> {
    Some(s.to_string())
}

fn text(s: &str) -> StreamEvent {
    StreamEvent::TextDelta(s.to_string())
}

fn call(id: &str, name: &str, arguments: &str) -> StreamEvent {
    StreamEvent::ToolCallComplete(ToolCall {
        id: id.to_string(),
        call_type: "function".to_string(),
        function: FunctionCall { name: name.to_string(), arguments: arguments.to_string() },
    })
}

fn slice(index: u32, id: Option<&str>, name: Option<&str>, arguments: &str) -> ToolCallDelta {
    ToolCallDelta {
        index,
        id: id.map(|id| id.to_string()),
        call_type: None,
        function: Some(FunctionCallDelta {
            name: name.map(|name| name.to_string()),
            arguments: some(arguments),
        }),
    }
}

fn chunk(
    content: Option<&str>,
    tool_calls: Vec<ToolCallDelta>,
    finish_reason: Option<&str>,
) -> ChatCompletionChunk {
    ChatCompletionChunk {
        id: "1".to_string(),
        choices: vec![StreamChoice {
            index: 0,
            delta: StreamDelta {
                role: None,
                content: content.map(|content| content.to_string()),
                tool_calls,
            },
            finish_reason: finish_reason.map(|reason| reason.to_string()),
        }],
    }
}

/// What a payload stands for in these tests: every payload but `bad` is text.
fn parse(data: &str) -> Option<ChatCompletionChunk> {
    if data == "bad" {
        None
    } else {
        Some(chunk(Some(data), Vec::new(), None))
    }
}

fn drive(decoder: &mut StreamDecoder, mut progress: Progress) -> (Vec<StreamEvent>, Next) {
    let mut events = progress.events;
    while let Next::Parse(data) = progress.next {
        progress = decoder.parsed(parse(&data));
        events.append(&mut progress.events);
    }
    (events, progress.next)
}

fn feed(decoder: &mut StreamDecoder, bytes: &[u8]) -> (Vec<StreamEvent>, Next) {
    let progress = decoder.receive(bytes);
    drive(decoder, progress)
}

#[test]
fn lines_carry_payloads() {
    assert_eq!(read_line("data: {}"), Some(Payload::Data("{}".to_string())));
    assert_eq!(read_line("  data: {} \r"), Some(Payload::Data("{}".to_string())));
    assert_eq!(read_line("data:  x"), Some(Payload::Data(" x".to_string())));
    assert_eq!(read_line("data: [DONE]"), Some(Payload::Done));
    assert_eq!(read_line("data:   [DONE]  "), Some(Payload::Done));
    assert_eq!(read_line("data:{}"), None);
    assert_eq!(read_line("data: "), None);
    assert_eq!(read_line(": comment"), None);
    assert_eq!(read_line(""), None);
}

#[test]
fn text_comes_out_line_by_line() {
    let mut decoder = StreamDecoder::new();
    let (events, next) = feed(&mut decoder, b": hi\ndata: a\n\ndata: bad\r\ndata: b\r\ndata: c");
    assert_eq!(events, vec![text("a"), text("b")]);
    assert_eq!(next, Next::Read);
    let (events, next) = feed(&mut decoder, b"d\n");
    assert_eq!(events, vec![text("cd")]);
    assert_eq!(next, Next::Read);
    assert_eq!(decoder.end(), Vec::new());
}

#[test]
fn every_cut_of_a_stream_gives_the_same_events() {
    let stream = "data: a\n\ndata: é€\r\n: x\ndata: bad\ndata: b\ndata: [DONE]\ndata: late\n";
    let (all, _) = feed(&mut StreamDecoder::new(), stream.as_bytes());
    assert_eq!(all, vec![text("a"), text("é€"), text("b")]);
    for (cut, _) in stream.char_indices() {
        let mut decoder = StreamDecoder::new();
        let (mut events, _) = feed(&mut decoder, &stream.as_bytes()[..cut]);
        let (mut later, next) = feed(&mut decoder, &stream.as_bytes()[cut..]);
        events.append(&mut later);
        assert_eq!(events, all);
        assert_eq!(next, Next::Stop);
    }
}

#[test]
fn a_character_cut_in_two_is_replaced() {
    let mut decoder = StreamDecoder::new();
    let bytes = "data: é\n".as_bytes();
    feed(&mut decoder, &bytes[..7]);
    let (events, _) = feed(&mut decoder, &bytes[7..]);
    assert_eq!(events, vec![text("\u{FFFD}\u{FFFD}")]);
}

#[test]
fn bytes_that_are_no_text_are_replaced() {
    let (events, _) = feed(&mut StreamDecoder::new(), b"data: a\xFFb\n");
    assert_eq!(events, vec![text("a\u{FFFD}b")]);
}

#[test]
fn text_can_be_handed_in_as_it_is() {
    let mut decoder = StreamDecoder::new();
    let progress = decoder.receive_text("data: a\n");
    assert_eq!(progress.events, Vec::new());
    assert_eq!(progress.next, Next::Parse("a".to_string()));
    let (events, next) = drive(&mut decoder, progress);
    assert_eq!(events, vec![text("a")]);
    assert_eq!(next, Next::Read);
}

#[test]
fn nothing_follows_the_end_of_a_stream() {
    let mut decoder = StreamDecoder::new();
    let (events, next) = feed(&mut decoder, b"data: [DONE]\ndata: a\n");
    assert_eq!(events, Vec::new());
    assert_eq!(next, Next::Stop);
    let (events, next) = feed(&mut decoder, b"data: b\n");
    assert_eq!(events, Vec::new());
    assert_eq!(next, Next::Stop);
    let progress = decoder.parsed(Some(chunk(Some("x"), Vec::new(), None)));
    assert_eq!(progress.events, Vec::new());
    assert_eq!(decoder.end(), Vec::new());
}

#[test]
fn slices_of_tool_calls_are_put_together_in_the_order_of_their_indices() {
    let mut decoder = StreamDecoder::new();
    decoder.receive(b"data: 1\ndata: 2\ndata: 3\n");
    let progress = decoder.parsed(Some(chunk(
        Some("text"),
        vec![slice(7, Some("b"), Some("grep"), "{\"q\""), slice(2, Some("a"), Some("ls"), "{")],
        None,
    )));
    assert_eq!(progress.events, vec![text("text")]);
    assert_eq!(progress.next, Next::Parse("2".to_string()));
    let progress = decoder.parsed(Some(chunk(
        None,
        vec![slice(7, None, None, ":1}"), slice(2, None, None, "}"), slice(4, None, Some("x"), "")],
        None,
    )));
    assert_eq!(progress.events, Vec::new());
    let progress = decoder.parsed(Some(chunk(Some(""), Vec::new(), Some("tool_calls"))));
    assert_eq!(progress.events, vec![call("a", "ls", "{}"), call("b", "grep", "{\"q\":1}")]);
    assert_eq!(progress.next, Next::Read);
    assert_eq!(decoder.end(), Vec::new());
}

#[test]
fn tool_calls_are_completed_at_the_mark_of_the_end() {
    let mut decoder = StreamDecoder::new();
    decoder.receive(b"data: 1\ndata: [DONE]\n");
    let progress =
        decoder.parsed(Some(chunk(Some("t"), vec![slice(0, Some("a"), Some("ls"), "{}")], None)));
    assert_eq!(progress.events, vec![text("t"), call("a", "ls", "{}")]);
    assert_eq!(progress.next, Next::Stop);
}

#[test]
fn tool_calls_are_completed_where_the_stream_breaks_off() {
    let mut decoder = StreamDecoder::new();
    decoder.receive(b"data: 1\n");
    let progress =
        decoder.parsed(Some(chunk(None, vec![slice(0, Some("a"), Some("ls"), "{}")], Some("stop"))));
    assert_eq!(progress.events, Vec::new());
    assert_eq!(decoder.end(), vec![call("a", "ls", "{}")]);
    assert_eq!(decoder.end(), Vec::new());
}

#[test]
fn a_chunk_without_choices_says_nothing() {
    let mut decoder = StreamDecoder::new();
    decoder.receive(b"data: 1\n");
    let progress =
        decoder.parsed(Some(ChatCompletionChunk { id: "1".to_string(), choices: Vec::new() }));
    assert_eq!(progress.events, Vec::new());
    assert_eq!(progress.next, Next::Read);
}

#[test]
fn only_the_first_choice_counts() {
    let mut decoder = StreamDecoder::new();
    decoder.receive(b"data: 1\n");
    let mut both = chunk(Some("first"), Vec::new(), None);
    both.choices.append(&mut chunk(Some("second"), Vec::new(), None).choices);
    assert_eq!(decoder.parsed(Some(both)).events, vec![text("first")]);
}

#[test]
fn a_failure_of_the_transport_ends_the_stream() {
    let mut decoder = StreamDecoder::new();
    decoder.receive(b"data: 1\n");
    decoder.parsed(Some(chunk(None, vec![slice(0, Some("a"), Some("ls"), "{}")], None)));
    assert_eq!(
        decoder.fail("reset".to_string()),
        OpenRouterError::HttpError("reset".to_string())
    );
    assert_eq!(decoder.end(), Vec::new());
    assert_eq!(decoder.receive(b"data: a\n").next, Next::Stop);
}

#[test]
fn the_text_of_a_stream_is_that_of_its_chunks() {
    let mut decoder = StreamDecoder::new();
    decoder.receive(b"data: 1\ndata: 2\ndata: 3\ndata: [DONE]\n");
    let mut events = Vec::new();
    events.append(&mut decoder.parsed(Some(chunk(Some("Hel"), Vec::new(), None))).events);
    let calls = vec![slice(0, Some("a"), Some("ls"), "{}")];
    events.append(&mut decoder.parsed(Some(chunk(None, calls, Some("tool_calls")))).events);
    events.append(&mut decoder.parsed(Some(chunk(Some("lo"), Vec::new(), None))).events);
    let mut told = String::new();
    for event in &events {
        if let StreamEvent::TextDelta(text) = event {
            told.push_str(text);
        }
    }
    assert_eq!(told, "Hello");
    assert_eq!(events.len(), 3);
}
