use local_agent::openrouter_client::{
    check_chat_status, check_list_models_status, default_tool_type, listed_models,
    streaming_chat_request, ChatMessage, FunctionCall, FunctionCallDelta, ListModelsResponse,
    ModelInfo, OpenRouterClient, OpenRouterError, ToolCall, ToolCallAccum, ToolCallDelta,
    DEFAULT_OPENROUTER_URL, DEFAULT_TIMEOUT_SECS,
};

fn some(s: &str) -> Option<String> {
    Some(s.to_string())
}

#[test]
fn test_tool_call_accum() {
    let mut acc = ToolCallAccum::default();
    acc.id = Some("call_1".to_string());
    acc.name = Some("run_shell_command".to_string());
    acc.arguments = r#"{"command":"ls"}"#.to_string();
    let tc = acc.into_tool_call().unwrap();
    assert_eq!(tc.id, "call_1");
    assert_eq!(tc.function.arguments, r#"{"command":"ls"}"#);
}

#[test]
fn a_tool_call_needs_an_id_and_a_name() {
    let mut without_name = ToolCallAccum::default();
    without_name.id = some("call_1");
    assert_eq!(without_name.into_tool_call(), None);
    let mut without_id = ToolCallAccum::default();
    without_id.name = some("grep");
    assert_eq!(without_id.into_tool_call(), None);
}

#[test]
fn a_tool_call_is_of_type_function_unless_told_otherwise() {
    let mut acc = ToolCallAccum::default();
    acc.id = some("1");
    acc.name = some("grep");
    assert_eq!(acc.clone().into_tool_call().unwrap().call_type, "function");
    acc.call_type = "other".to_string();
    assert_eq!(acc.into_tool_call().unwrap().call_type, "other");
    assert_eq!(default_tool_type(), "function");
}

#[test]
fn slices_replace_names_and_add_up_arguments() {
    let mut acc = ToolCallAccum::default();
    acc.absorb(&ToolCallDelta {
        index: 0,
        id: some("call_1"),
        call_type: some("function"),
        function: Some(FunctionCallDelta { name: some("grep"), arguments: some("{\"a\"") }),
    });
    acc.absorb(&ToolCallDelta {
        index: 0,
        id: some(""),
        call_type: some(""),
        function: Some(FunctionCallDelta { name: some(""), arguments: some(":1}") }),
    });
    acc.absorb(&ToolCallDelta { index: 0, id: None, call_type: None, function: None });
    assert_eq!(
        acc,
        ToolCallAccum {
            id: some("call_1"),
            call_type: "function".to_string(),
            name: some("grep"),
            arguments: "{\"a\":1}".to_string(),
        }
    );
    acc.absorb(&ToolCallDelta { index: 0, id: some("call_2"), call_type: None, function: None });
    assert_eq!(acc.id, some("call_2"));
}

#[test]
fn messages_carry_their_role() {
    let plain = |role: &str, content: &str| ChatMessage {
        role: role.to_string(),
        content: some(content),
        tool_calls: Vec::new(),
        tool_call_id: None,
        name: None,
    };
    assert_eq!(ChatMessage::system("a"), plain("system", "a"));
    assert_eq!(ChatMessage::user("b".to_string()), plain("user", "b"));
    assert_eq!(ChatMessage::assistant_text("c"), plain("assistant", "c"));
    let call = ToolCall {
        id: "1".to_string(),
        call_type: "function".to_string(),
        function: FunctionCall { name: "grep".to_string(), arguments: "{}".to_string() },
    };
    assert_eq!(
        ChatMessage::assistant_tool_calls(vec![call.clone()]),
        ChatMessage {
            role: "assistant".to_string(),
            content: None,
            tool_calls: vec![call],
            tool_call_id: None,
            name: None,
        }
    );
    assert_eq!(
        ChatMessage::tool_result("1", "grep", "out"),
        ChatMessage {
            role: "tool".to_string(),
            content: some("out"),
            tool_calls: Vec::new(),
            tool_call_id: some("1"),
            name: some("grep"),
        }
    );
    assert_eq!(
        ChatMessage::default(),
        ChatMessage {
            role: String::new(),
            content: None,
            tool_calls: Vec::new(),
            tool_call_id: None,
            name: None,
        }
    );
}

#[test]
fn requests_go_to_the_usual_address() {
    assert_eq!(DEFAULT_OPENROUTER_URL, "https://openrouter.ai/api/v1");
    assert_eq!(DEFAULT_TIMEOUT_SECS, 180);
    let head = OpenRouterClient::new("key").list_models_request();
    assert_eq!(head.url, "https://openrouter.ai/api/v1/models");
    assert_eq!(head.bearer_token, "key");
    assert_eq!(head.headers, Vec::new());
}

#[test]
fn slashes_at_the_end_of_an_address_make_no_difference() {
    for base in ["http://h/v1", "http://h/v1/", "http://h/v1///"] {
        let client = OpenRouterClient::with_base_url(base, "key".to_string());
        let head = client.chat_streaming_request();
        assert_eq!(head.url, "http://h/v1/chat/completions");
        assert_eq!(head.bearer_token, "key");
        assert_eq!(
            head.headers,
            vec![
                ("HTTP-Referer".to_string(), "https://warp.dev".to_string()),
                ("X-Title".to_string(), "Warp".to_string()),
            ]
        );
    }
}

#[test]
fn a_streamed_completion_is_asked_for() {
    let request = streaming_chat_request("x/y", vec![ChatMessage::user("Hi")], Vec::new());
    assert_eq!(request.model, "x/y");
    assert_eq!(request.messages, vec![ChatMessage::user("Hi")]);
    assert_eq!(request.stream, Some(true));
    assert_eq!(request.temperature, None);
    assert_eq!(request.max_tokens, None);
    assert_eq!(request.tools, Vec::new());
    assert_eq!(request.tool_choice, None);
}

#[test]
fn only_statuses_of_success_pass() {
    for status in [200u16, 204, 299] {
        assert_eq!(check_list_models_status(status, "x"), Ok(()));
        assert_eq!(check_chat_status(status, "x", None), Ok(()));
    }
    for status in [0u16, 199, 300, 401, 500] {
        assert_eq!(
            check_list_models_status(status, "401 Unauthorized"),
            Err(OpenRouterError::ServerError(
                "Server returned status: 401 Unauthorized".to_string()
            ))
        );
        assert_eq!(
            check_chat_status(status, "401 Unauthorized", some("no key")),
            Err(OpenRouterError::ServerError(
                "Server returned status 401 Unauthorized: no key".to_string()
            ))
        );
        assert_eq!(
            check_chat_status(status, "500", None),
            Err(OpenRouterError::ServerError("Server returned status 500: ".to_string()))
        );
    }
}

#[test]
fn the_models_of_a_list_are_handed_on() {
    let model = ModelInfo {
        id: "x/y".to_string(),
        name: None,
        description: None,
        context_length: Some(4096),
        pricing: None,
    };
    let response = ListModelsResponse { data: vec![model.clone()] };
    assert_eq!(listed_models(Ok(response)), Ok(vec![model]));
    assert_eq!(
        listed_models(Err("expected value".to_string())),
        Err(OpenRouterError::ParseError("expected value".to_string()))
    );
}

#[test]
fn errors_tell_what_happened() {
    let text = || "x".to_string();
    assert_eq!(OpenRouterError::HttpError(text()).message(), "HTTP error: x");
    assert_eq!(OpenRouterError::ServerError(text()).message(), "Server error: x");
    assert_eq!(OpenRouterError::ParseError(text()).message(), "Parse error: x");
    assert_eq!(OpenRouterError::MissingApiKey.message(), "Missing API key");
}
