use local_agent::local_inference::{
    append_action, build_chat_messages, build_system_prompt, current_proto_timestamp,
    extract_user_text, generate_local_output, is_local_model, openrouter_request, plan_exchange,
    proto_timestamp, route_request, wrap_actions, AIAgentInput, ApiKeys, ChatMsg, FreshIds, LocalInferenceError,
    ModelRoute, RequestParams, OLLAMA_ID_PREFIX, OPENROUTER_ID_PREFIX,
};
use local_agent::ollama_client;
use local_agent::openrouter_client;
use local_agent::proto::{
    Action, AppendToMessageContent, ClientAction, EventType, FieldMask, Message, MessageContent,
    ResponseEvent, Task, Timestamp,
};

fn message(content: Option<MessageContent>) -> Message {
    Message {
        id: "m".to_string(),
        task_id: "t".to_string(),
        request_id: String::new(),
        timestamp: None,
        server_message_data: String::new(),
        citations: Vec::new(),
        message: content,
    }
}

fn query(text: &str) -> Message {
    message(Some(MessageContent::UserQuery { query: text.to_string() }))
}

fn output(text: &str) -> Message {
    message(Some(MessageContent::AgentOutput { text: text.to_string() }))
}

fn task(id: &str, messages: Vec<Message>) -> Task {
    Task {
        id: id.to_string(),
        description: String::new(),
        dependencies: None,
        messages,
        summary: String::new(),
        server_data: String::new(),
    }
}

fn msg(role: &str, content: &str) -> ChatMsg {
    ChatMsg { role: role.to_string(), content: content.to_string() }
}

fn ids() -> FreshIds {
    FreshIds {
        conversation: "C".to_string(),
        request: "R".to_string(),
        run: "U".to_string(),
        task: "T".to_string(),
        message: "M".to_string(),
    }
}

fn params(tasks: Vec<Task>) -> RequestParams {
    RequestParams {
        model: "ollama:llama3".to_string(),
        tasks,
        input: vec![AIAgentInput::UserQuery { query: "hello".to_string() }],
        conversation_token: None,
        api_keys: None,
        ollama_url: None,
    }
}

fn is_uuid(text: &str) -> bool {
    let bytes = text.as_bytes();
    bytes.len() == 36
        && (0..36).all(|i| match i {
            8 | 13 | 18 | 23 => bytes[i] == b'-',
            14 => bytes[i] == b'4',
            19 => matches!(bytes[i], b'8' | b'9' | b'a' | b'b'),
            _ => matches!(bytes[i], b'0'..=b'9' | b'a'..=b'f'),
        })
}

#[test]
fn local_models_are_told_by_their_prefix() {
    assert_eq!(OLLAMA_ID_PREFIX, "ollama:");
    assert_eq!(OPENROUTER_ID_PREFIX, "openrouter:");
    assert!(is_local_model("ollama:llama3"));
    assert!(is_local_model("openrouter:x/y"));
    assert!(is_local_model("ollama:"));
    assert!(!is_local_model("gpt-4"));
    assert!(!is_local_model("Ollama:x"));
    assert!(!is_local_model(" ollama:x"));
    assert!(!is_local_model(""));
}

#[test]
fn the_history_becomes_turns_of_the_chat() {
    let tasks = vec![
        task("a", vec![query("q1"), output("a1"), query(""), message(None)]),
        task("b", vec![message(Some(MessageContent::Other)), output(""), query("q2")]),
    ];
    let input = vec![AIAgentInput::UserQuery { query: "now".to_string() }];
    assert_eq!(
        build_chat_messages("be brief", &tasks, &input),
        vec![
            msg("system", "be brief"),
            msg("user", "q1"),
            msg("assistant", "a1"),
            msg("user", "q2"),
            msg("user", "now"),
        ]
    );
    assert_eq!(build_chat_messages("p", &[], &[]), vec![msg("system", "p")]);
}

#[test]
fn the_first_query_that_says_something_is_the_users() {
    let input = vec![
        AIAgentInput::Other,
        AIAgentInput::UserQuery { query: String::new() },
        AIAgentInput::AutoCodeDiffQuery { query: "diff".to_string() },
        AIAgentInput::CreateNewProject { query: "new".to_string() },
    ];
    assert_eq!(extract_user_text(&input), "diff");
    assert_eq!(extract_user_text(&input[3..]), "new");
    assert_eq!(extract_user_text(&input[..2]), "");
}

#[test]
fn the_system_prompt_has_four_lines() {
    assert_eq!(
        build_system_prompt(),
        "You are a helpful AI assistant running inside the Warp terminal.\n\
         The user is in a command-line environment. Keep answers concise and practical.\n\
         You do not currently have access to tool-calling (shell commands, file access).\n\
         Just respond with plain text."
    );
}

#[test]
fn ollama_is_reached_at_the_configured_address_or_the_usual_one() {
    let route = |url: Option<&str>| {
        route_request(
            "ollama:llama3",
            vec![msg("user", "q")],
            None,
            url.map(|url| url.to_string()),
            "http://localhost:11434",
        )
    };
    let expected = |url: &str| {
        Ok(ModelRoute::Ollama {
            url: url.to_string(),
            model: "llama3".to_string(),
            messages: vec![ollama_client::ChatMessage {
                role: "user".to_string(),
                content: "q".to_string(),
            }],
        })
    };
    assert_eq!(route(Some("http://h:1")), expected("http://h:1"));
    assert_eq!(route(Some("")), expected("http://localhost:11434"));
    assert_eq!(route(None), expected("http://localhost:11434"));
}

#[test]
fn openrouter_needs_a_key() {
    let route = |key: Option<&str>| {
        route_request(
            "openrouter:x/y",
            vec![msg("system", "p"), msg("user", "q")],
            key.map(|key| ApiKeys { open_router: key.to_string() }),
            None,
            "http://localhost:11434",
        )
    };
    assert_eq!(
        route(Some("k")),
        Ok(ModelRoute::OpenRouter {
            api_key: "k".to_string(),
            model: "x/y".to_string(),
            messages: vec![
                openrouter_client::ChatMessage::system("p"),
                openrouter_client::ChatMessage::user("q"),
            ],
        })
    );
    assert_eq!(route(Some("")), Err(LocalInferenceError::MissingOpenRouterKey));
    assert_eq!(route(None), Err(LocalInferenceError::MissingOpenRouterKey));
}

#[test]
fn other_models_are_unknown() {
    assert_eq!(
        route_request("gpt-4", Vec::new(), None, None, "u"),
        Err(LocalInferenceError::UnknownModel("gpt-4".to_string()))
    );
}

#[test]
fn errors_of_an_exchange_tell_what_happened() {
    let text = || "x".to_string();
    assert_eq!(LocalInferenceError::ReceiverDropped.message(), "receiver dropped");
    assert_eq!(
        LocalInferenceError::MissingOpenRouterKey.message(),
        "OpenRouter API key not configured"
    );
    assert_eq!(
        LocalInferenceError::UnknownModel(text()).message(),
        "unknown local model id: x"
    );
    assert_eq!(LocalInferenceError::Client(text()).message(), "x");
    assert_eq!(LocalInferenceError::OllamaStream(text()).message(), "ollama stream error: x");
    assert_eq!(
        LocalInferenceError::OpenRouterStream(text()).message(),
        "openrouter stream error: x"
    );
}

#[test]
fn actions_are_wrapped_in_their_order() {
    assert_eq!(
        wrap_actions(vec![Action::BeginTransaction, Action::CommitTransaction]),
        ResponseEvent {
            event_type: Some(EventType::ClientActions {
                actions: vec![
                    ClientAction { action: Some(Action::BeginTransaction) },
                    ClientAction { action: Some(Action::CommitTransaction) },
                ],
            }),
        }
    );
}

#[test]
fn text_is_appended_to_the_output_of_the_agent() {
    assert_eq!(
        append_action("t", "m", "more"),
        AppendToMessageContent {
            task_id: "t".to_string(),
            message: Some(output("more")),
            mask: Some(FieldMask { paths: vec!["agent_output.text".to_string()] }),
        }
    );
}

#[test]
fn time_is_counted_from_the_epoch() {
    assert_eq!(proto_timestamp(Some((5, 7))), Timestamp { seconds: 5, nanos: 7 });
    assert_eq!(proto_timestamp(None), Timestamp { seconds: 0, nanos: 0 });
    assert_eq!(proto_timestamp(Some((u64::MAX, 0))), Timestamp { seconds: -1, nanos: 0 });
    let before = std::time::UNIX_EPOCH.elapsed().unwrap().as_secs() as i64;
    let now = current_proto_timestamp();
    let after = std::time::UNIX_EPOCH.elapsed().unwrap().as_secs() as i64;
    assert!(before <= now.seconds && now.seconds <= after);
    assert!(0 <= now.nanos && now.nanos < 1_000_000_000);
}

#[test]
fn a_new_conversation_gets_a_task() {
    for tasks in [Vec::new(), vec![task("", Vec::new())], vec![task("a", Vec::new()), task("", Vec::new())]] {
        let plan = plan_exchange(params(tasks), ids());
        assert_eq!(plan.task_id, "T");
        assert!(plan.needs_create_task);
    }
}

#[test]
fn a_conversation_goes_on_in_its_last_task() {
    let tasks = vec![task("", Vec::new()), task("a", Vec::new()), task("b", vec![query("q")])];
    let plan = plan_exchange(params(tasks), ids());
    assert_eq!(plan.task_id, "b");
    assert!(!plan.needs_create_task);
    assert_eq!(
        plan.messages,
        vec![msg("system", &build_system_prompt()), msg("user", "q"), msg("user", "hello")]
    );
}

#[test]
fn identifiers_are_used_where_the_request_brings_none() {
    let plan = plan_exchange(params(Vec::new()), ids());
    assert_eq!(plan.conversation_id, "C");
    assert_eq!(plan.request_id, "R");
    assert_eq!(plan.run_id, "local-U");
    assert_eq!(plan.response_message_id, "M");
    assert_eq!(plan.model_id, "ollama:llama3");
    let mut known = params(Vec::new());
    known.conversation_token = Some("token".to_string());
    known.ollama_url = Some("http://h".to_string());
    known.api_keys = Some(ApiKeys { open_router: "k".to_string() });
    let plan = plan_exchange(known, ids());
    assert_eq!(plan.conversation_id, "token");
    assert_eq!(plan.ollama_url, Some("http://h".to_string()));
    assert_eq!(plan.api_keys, Some(ApiKeys { open_router: "k".to_string() }));
}

#[test]
fn fresh_identifiers_are_random_uuids() {
    let first = generate_local_output(params(Vec::new()));
    let second = generate_local_output(params(Vec::new()));
    for plan in [&first, &second] {
        assert!(is_uuid(&plan.conversation_id));
        assert!(is_uuid(&plan.request_id));
        assert!(is_uuid(plan.run_id.strip_prefix("local-").unwrap()));
        assert!(is_uuid(&plan.task_id));
        assert!(is_uuid(&plan.response_message_id));
        assert!(plan.needs_create_task);
    }
    assert_ne!(first.request_id, second.request_id);
}

#[test]
fn an_answer_becomes_a_turn_of_the_next_exchange() {
    let mut last = task("b", vec![query("q2")]);
    last.messages.push(output("answer"));
    let plan = plan_exchange(params(vec![task("a", vec![query("q1")]), last]), ids());
    assert_eq!(
        plan.messages[1..],
        [msg("user", "q1"), msg("user", "q2"), msg("assistant", "answer"), msg("user", "hello")]
    );
}

#[test]
fn histories_of_tasks_follow_one_another() {
    let first = task("a", vec![query("q1"), output("a1")]);
    let second = task("b", vec![output("a2")]);
    let both = build_chat_messages("p", &[first.clone(), second.clone()], &[]);
    let one = build_chat_messages("p", &[first], &[]);
    let other = build_chat_messages("p", &[second], &[]);
    assert_eq!(both[..one.len()], one[..]);
    assert_eq!(both[one.len()..], other[1..]);
}

#[test]
fn openrouter_is_asked_without_tools() {
    let (head, body) = openrouter_request(
        "k".to_string(),
        "x/y",
        vec![openrouter_client::ChatMessage::user("q")],
    );
    assert_eq!(head.url, "https://openrouter.ai/api/v1/chat/completions");
    assert_eq!(head.bearer_token, "k");
    assert_eq!(head.headers.len(), 2);
    assert_eq!(body.model, "x/y");
    assert_eq!(body.messages, vec![openrouter_client::ChatMessage::user("q")]);
    assert_eq!(body.stream, Some(true));
    assert_eq!(body.tools, Vec::new());
}
