use local_agent::local_inference::{
    append_action, plan_exchange, wrap_actions, AIAgentInput, ApiKeys, FreshIds, ModelRoute,
    RequestParams,
};
use local_agent::local_run::{LocalRun, ModelChunk, RunInput, RunStep};
use local_agent::ollama_client::{ChatMessage, StreamChunk};
use local_agent::openrouter_client::{FunctionCall, OpenRouterError, StreamEvent, ToolCall};
use local_agent::proto::{
    Action, AddMessagesToTask, EventType, FinishReason, Message, MessageContent, ResponseEvent,
    StreamFinished, StreamInit, Task, Timestamp,
};

const CLOCK: Timestamp = Timestamp { seconds: 100, nanos: 5 };

fn task(id: &str) -> Task {
    Task {
        id: id.to_string(),
        description: String::new(),
        dependencies: None,
        messages: Vec::new(),
        summary: String::new(),
        server_data: String::new(),
    }
}

fn run(model: &str, tasks: Vec<Task>, key: &str) -> LocalRun {
    let params = RequestParams {
        model: model.to_string(),
        tasks,
        input: vec![AIAgentInput::UserQuery { query: "hello".to_string() }],
        conversation_token: None,
        api_keys: Some(ApiKeys { open_router: key.to_string() }),
        ollama_url: None,
    };
    let ids = FreshIds {
        conversation: "C".to_string(),
        request: "R".to_string(),
        run: "U".to_string(),
        task: "T".to_string(),
        message: "M".to_string(),
    };
    LocalRun::new(plan_exchange(params, ids), "http://usual")
}

fn said(text: &str) -> ModelChunk {
    ModelChunk::Ollama(Ok(StreamChunk::Partial {
        message: ChatMessage { role: "assistant".to_string(), content: text.to_string() },
    }))
}

fn delta(text: &str) -> ModelChunk {
    ModelChunk::OpenRouter(Ok(StreamEvent::TextDelta(text.to_string())))
}

fn finished() -> ModelChunk {
    ModelChunk::Ollama(Ok(StreamChunk::Complete))
}

/// All events that are sent and taken, and the route that was opened, when the
/// reader takes `patience` events.
fn play(
    mut run: LocalRun,
    opened: Result<(), String>,
    chunks: Vec<(bool, ModelChunk)>,
    patience: usize,
) -> (Vec<ResponseEvent>, Option<ModelRoute>) {
    let mut taken = Vec::new();
    let mut route = None;
    let mut opened = Some(opened);
    let mut chunks = chunks.into_iter();
    let mut step = run.step(RunInput::Start);
    loop {
        let input = match step {
            RunStep::Send(event) => {
                if taken.len() < patience {
                    taken.push(event);
                    RunInput::Sent(true)
                } else {
                    RunInput::Sent(false)
                }
            }
            RunStep::ReadClock => RunInput::Clock(CLOCK),
            RunStep::Open(asked) => {
                route = Some(asked);
                RunInput::Opened(opened.take().unwrap())
            }
            RunStep::NextChunk => match chunks.next() {
                Some((cancelled, chunk)) => RunInput::Chunk { cancelled, chunk },
                None => RunInput::EndOfStream,
            },
            RunStep::Stop => return (taken, route),
        };
        step = run.step(input);
    }
}

fn events(run: LocalRun, chunks: Vec<(bool, ModelChunk)>) -> Vec<ResponseEvent> {
    play(run, Ok(()), chunks, usize::MAX).0
}

fn init() -> ResponseEvent {
    ResponseEvent {
        event_type: Some(EventType::Init(StreamInit {
            conversation_id: "C".to_string(),
            request_id: "R".to_string(),
            run_id: "local-U".to_string(),
        })),
    }
}

fn update(action: Action) -> ResponseEvent {
    wrap_actions(vec![action])
}

fn added(task_id: &str) -> ResponseEvent {
    update(Action::AddMessagesToTask(AddMessagesToTask {
        task_id: task_id.to_string(),
        messages: vec![Message {
            id: "M".to_string(),
            task_id: task_id.to_string(),
            request_id: "R".to_string(),
            timestamp: Some(CLOCK),
            server_message_data: String::new(),
            citations: Vec::new(),
            message: Some(MessageContent::AgentOutput { text: String::new() }),
        }],
    }))
}

fn opening() -> Vec<ResponseEvent> {
    vec![
        init(),
        update(Action::BeginTransaction),
        update(Action::CreateTask { task: Some(task("T")) }),
        added("T"),
    ]
}

fn more(text: &str) -> ResponseEvent {
    update(Action::AppendToMessageContent(append_action("T", "M", text)))
}

fn closed(reason: FinishReason) -> ResponseEvent {
    ResponseEvent {
        event_type: Some(EventType::Finished(StreamFinished {
            reason: Some(reason),
            conversation_usage_metadata: None,
            token_usage: Vec::new(),
            should_refresh_model_config: false,
            request_cost: None,
        })),
    }
}

fn transcript(texts: &[&str], reason: FinishReason) -> Vec<ResponseEvent> {
    let mut all = opening();
    for text in texts {
        all.push(more(text));
    }
    all.push(update(Action::CommitTransaction));
    all.push(closed(reason));
    all
}

#[test]
fn an_answer_of_ollama_is_passed_on() {
    let chunks = vec![
        (false, said("Hel")),
        (false, said("")),
        (false, said("lo")),
        (false, finished()),
        (false, said("late")),
    ];
    assert_eq!(
        events(run("ollama:llama3", Vec::new(), ""), chunks),
        transcript(&["Hel", "lo"], FinishReason::Done)
    );
}

#[test]
fn an_answer_of_openrouter_is_passed_on_without_its_tool_calls() {
    let call = ToolCall {
        id: "1".to_string(),
        call_type: "function".to_string(),
        function: FunctionCall { name: "grep".to_string(), arguments: "{}".to_string() },
    };
    let chunks = vec![
        (false, delta("a")),
        (false, ModelChunk::OpenRouter(Ok(StreamEvent::ToolCallComplete(call)))),
        (false, delta("")),
        (false, delta("b")),
    ];
    assert_eq!(
        events(run("openrouter:x/y", Vec::new(), "key"), chunks),
        transcript(&["a", "b"], FinishReason::Done)
    );
}

#[test]
fn the_model_is_asked_where_the_request_says() {
    let (_, route) = play(run("ollama:llama3", Vec::new(), ""), Ok(()), Vec::new(), usize::MAX);
    match route {
        Some(ModelRoute::Ollama { url, model, messages }) => {
            assert_eq!(url, "http://usual");
            assert_eq!(model, "llama3");
            assert_eq!(messages.len(), 2);
            assert_eq!(messages[1].content, "hello");
        }
        other => panic!("{other:?}"),
    }
}

#[test]
fn a_task_that_exists_is_not_created_again() {
    let all = events(run("ollama:llama3", vec![task("old")], ""), Vec::new());
    assert_eq!(
        all,
        vec![
            init(),
            update(Action::BeginTransaction),
            added("old"),
            update(Action::CommitTransaction),
            closed(FinishReason::Done),
        ]
    );
}

#[test]
fn a_cancelled_answer_ends_in_order() {
    let chunks = vec![(false, said("a")), (true, said("b")), (false, said("c"))];
    assert_eq!(
        events(run("ollama:llama3", Vec::new(), ""), chunks),
        transcript(&["a"], FinishReason::Done)
    );
}

#[test]
fn an_answer_that_breaks_off_is_explained() {
    let chunks = vec![(false, said("a")), (false, ModelChunk::Ollama(Err("reset".to_string())))];
    assert_eq!(
        events(run("ollama:llama3", Vec::new(), ""), chunks),
        transcript(
            &["a", "\n\n[local inference error: ollama stream error: reset]"],
            FinishReason::Other
        )
    );
    let error = OpenRouterError::HttpError("reset".to_string());
    let chunks = vec![(false, ModelChunk::OpenRouter(Err(error)))];
    assert_eq!(
        events(run("openrouter:x/y", Vec::new(), "key"), chunks),
        transcript(
            &["\n\n[local inference error: openrouter stream error: HTTP error: reset]"],
            FinishReason::Other
        )
    );
}

#[test]
fn a_model_that_does_not_answer_is_explained() {
    let (all, route) = play(
        run("ollama:llama3", Vec::new(), ""),
        Err("connection refused".to_string()),
        vec![(false, said("a"))],
        usize::MAX,
    );
    assert!(route.is_some());
    assert_eq!(
        all,
        transcript(&["\n\n[local inference error: connection refused]"], FinishReason::Other)
    );
}

#[test]
fn a_request_that_cannot_be_routed_is_explained() {
    let (all, route) =
        play(run("openrouter:x/y", Vec::new(), ""), Ok(()), Vec::new(), usize::MAX);
    assert_eq!(route, None);
    assert_eq!(
        all,
        transcript(
            &["\n\n[local inference error: OpenRouter API key not configured]"],
            FinishReason::Other
        )
    );
    assert_eq!(
        events(run("gpt-4", Vec::new(), "key"), Vec::new()),
        transcript(
            &["\n\n[local inference error: unknown local model id: gpt-4]"],
            FinishReason::Other
        )
    );
}

#[test]
fn a_reader_that_goes_has_seen_the_beginning() {
    let chunks = || vec![(false, said("a")), (false, said("b")), (false, finished())];
    let all = transcript(&["a", "b"], FinishReason::Done);
    for patience in 0..=all.len() + 1 {
        let (taken, _) =
            play(run("ollama:llama3", Vec::new(), ""), Ok(()), chunks(), patience);
        assert_eq!(taken, all[..patience.min(all.len())]);
    }
}

#[test]
fn the_model_is_not_asked_for_a_reader_that_is_gone() {
    for patience in 0..4 {
        let (_, route) =
            play(run("ollama:llama3", Vec::new(), ""), Ok(()), Vec::new(), patience);
        assert_eq!(route, None);
    }
}

#[test]
fn a_reader_that_goes_during_the_answer_counts_as_an_error() {
    let mut run = run("ollama:llama3", vec![task("T")], "");
    run.step(RunInput::Start);
    run.step(RunInput::Sent(true));
    run.step(RunInput::Sent(true));
    run.step(RunInput::Clock(CLOCK));
    run.step(RunInput::Sent(true));
    assert_eq!(run.step(RunInput::Opened(Ok(()))), RunStep::NextChunk);
    let step = run.step(RunInput::Chunk { cancelled: false, chunk: said("a") });
    assert_eq!(step, RunStep::Send(more("a")));
    let step = run.step(RunInput::Sent(false));
    assert_eq!(step, RunStep::Send(more("\n\n[local inference error: receiver dropped]")));
    let step = run.step(RunInput::Sent(false));
    assert_eq!(step, RunStep::Send(update(Action::CommitTransaction)));
    let step = run.step(RunInput::Sent(false));
    assert_eq!(step, RunStep::Send(closed(FinishReason::Other)));
    assert_eq!(run.step(RunInput::Sent(false)), RunStep::Stop);
    assert_eq!(run.step(RunInput::Sent(true)), RunStep::Stop);
}

#[test]
fn a_report_that_was_not_asked_for_ends_the_exchange() {
    let mut run = run("ollama:llama3", Vec::new(), "");
    assert_eq!(run.step(RunInput::EndOfStream), RunStep::Stop);
    assert_eq!(run.step(RunInput::Start), RunStep::Stop);
}
