//! The OpenRouter chat-completions protocol: its messages, and the requests
//! that a client sends.
//!
//! OpenRouter serves models of many providers through one interface in the
//! OpenAI format, tool calling included.

use crate::json::{Json, JsonView};
use crate::text::{lemma_without_trailing_idempotent, trim_end_matches, without_trailing};
use vstd::prelude::*;

verus! {

/// The address at which OpenRouter is reached unless another is given.
pub const DEFAULT_OPENROUTER_URL: &'static str = "https://openrouter.ai/api/v1";

/// How long a request may take, in seconds.
pub const DEFAULT_TIMEOUT_SECS: u64 = 180;

/// The function that a tool call names, with its arguments.
#[derive(Debug, Clone, PartialEq)]
pub struct FunctionCall {
    pub name: String,
    /// The arguments as JSON text.
    pub arguments: String,
}

pub struct FunctionCallView {
    pub name: Seq<char>,
    pub arguments: Seq<char>,
}

impl DeepView for FunctionCall {
    type V = FunctionCallView;

    open spec fn deep_view(&self) -> FunctionCallView {
        FunctionCallView { name: self.name@, arguments: self.arguments@ }
    }
}

/// A tool call made by the model.
#[derive(Debug, Clone, PartialEq)]
pub struct ToolCall {
    pub id: String,
    pub call_type: String,
    pub function: FunctionCall,
}

pub struct ToolCallView {
    pub id: Seq<char>,
    pub call_type: Seq<char>,
    pub function: FunctionCallView,
}

impl DeepView for ToolCall {
    type V = ToolCallView;

    open spec fn deep_view(&self) -> ToolCallView {
        ToolCallView {
            id: self.id@,
            call_type: self.call_type@,
            function: self.function.deep_view(),
        }
    }
}

/// The type of a tool call that names none.
pub fn default_tool_type() -> (r: String)
    ensures
        r@ == "function"@,
{
    String::from("function")
}

/// A chat message, with the tool calls it makes or the one it answers.
#[derive(Debug, Clone, PartialEq)]
pub struct ChatMessage {
    pub role: String,
    pub content: Option<String>,
    /// The tool calls that an assistant makes.
    pub tool_calls: Vec<ToolCall>,
    /// The id of the tool call that a tool answers.
    pub tool_call_id: Option<String>,
    /// The name of the tool that answers.
    pub name: Option<String>,
}

pub struct ChatMessageView {
    pub role: Seq<char>,
    pub content: Option<Seq<char>>,
    pub tool_calls: Seq<ToolCallView>,
    pub tool_call_id: Option<Seq<char>>,
    pub name: Option<Seq<char>>,
}

impl DeepView for ChatMessage {
    type V = ChatMessageView;

    open spec fn deep_view(&self) -> ChatMessageView {
        ChatMessageView {
            role: self.role@,
            content: self.content.deep_view(),
            tool_calls: self.tool_calls.deep_view(),
            tool_call_id: self.tool_call_id.deep_view(),
            name: self.name.deep_view(),
        }
    }
}

/// A message of the given role that says something and has no part in tool
/// calling.
pub open spec fn spoken(role: Seq<char>, content: Seq<char>) -> ChatMessageView {
    ChatMessageView {
        role,
        content: Some(content),
        tool_calls: Seq::empty(),
        tool_call_id: None,
        name: None,
    }
}

impl Default for ChatMessage {
    fn default() -> (r: Self)
        ensures
            r.deep_view() == (ChatMessageView {
                role: Seq::empty(),
                content: None,
                tool_calls: Seq::empty(),
                tool_call_id: None,
                name: None,
            }),
    {
        let r = ChatMessage {
            role: String::new(),
            content: None,
            tool_calls: Vec::new(),
            tool_call_id: None,
            name: None,
        };
        assert(r.tool_calls.deep_view() =~= Seq::empty());
        r
    }
}

impl ChatMessage {
    /// A message of the given role that says something.
    pub fn with_role(role: &str, content: String) -> (r: Self)
        ensures
            r.deep_view() == spoken(role@, content@),
            r.role@ == role@,
            r.content == Some(content),
            r.tool_calls@.len() == 0,
            r.tool_call_id is None,
            r.name is None,
    {
        let r = ChatMessage {
            role: String::from(role),
            content: Some(content),
            tool_calls: Vec::new(),
            tool_call_id: None,
            name: None,
        };
        assert(r.tool_calls.deep_view() =~= Seq::empty());
        r
    }

    pub fn system<T: Into<String>>(content: T) -> (r: Self)
        ensures
            r.content is Some,
            call_ensures(T::into, (content,), r.content->0),
            r.deep_view() == spoken("system"@, r.content->0@),
    {
        Self::with_role("system", content.into())
    }

    pub fn user<T: Into<String>>(content: T) -> (r: Self)
        ensures
            r.content is Some,
            call_ensures(T::into, (content,), r.content->0),
            r.deep_view() == spoken("user"@, r.content->0@),
    {
        Self::with_role("user", content.into())
    }

    pub fn assistant_text<T: Into<String>>(content: T) -> (r: Self)
        ensures
            r.content is Some,
            call_ensures(T::into, (content,), r.content->0),
            r.deep_view() == spoken("assistant"@, r.content->0@),
    {
        Self::with_role("assistant", content.into())
    }

    pub fn assistant_tool_calls(tool_calls: Vec<ToolCall>) -> (r: Self)
        ensures
            r.deep_view() == (ChatMessageView {
                role: "assistant"@,
                content: None,
                tool_calls: tool_calls.deep_view(),
                tool_call_id: None,
                name: None,
            }),
    {
        ChatMessage {
            role: String::from("assistant"),
            content: None,
            tool_calls,
            tool_call_id: None,
            name: None,
        }
    }

    /// What a tool answers to the tool call with the given id.
    pub fn tool_result<I: Into<String>, N: Into<String>, T: Into<String>>(
        tool_call_id: I,
        tool_name: N,
        content: T,
    ) -> (r: Self)
        ensures
            r.content is Some,
            r.tool_call_id is Some,
            r.name is Some,
            call_ensures(I::into, (tool_call_id,), r.tool_call_id->0),
            call_ensures(N::into, (tool_name,), r.name->0),
            call_ensures(T::into, (content,), r.content->0),
            r.deep_view() == (ChatMessageView {
                role: "tool"@,
                content: Some(r.content->0@),
                tool_calls: Seq::empty(),
                tool_call_id: Some(r.tool_call_id->0@),
                name: Some(r.name->0@),
            }),
    {
        let r = ChatMessage {
            role: String::from("tool"),
            content: Some(content.into()),
            tool_calls: Vec::new(),
            tool_call_id: Some(tool_call_id.into()),
            name: Some(tool_name.into()),
        };
        assert(r.tool_calls.deep_view() =~= Seq::empty());
        r
    }
}

/// A function that the model may call.
#[derive(Debug, Clone, PartialEq)]
pub struct FunctionDef {
    pub name: String,
    pub description: String,
    /// The JSON schema of the arguments.
    pub parameters: Json,
}

pub struct FunctionDefView {
    pub name: Seq<char>,
    pub description: Seq<char>,
    pub parameters: JsonView,
}

impl DeepView for FunctionDef {
    type V = FunctionDefView;

    open spec fn deep_view(&self) -> FunctionDefView {
        FunctionDefView {
            name: self.name@,
            description: self.description@,
            parameters: self.parameters@,
        }
    }
}

/// A tool that the model is offered.
#[derive(Debug, Clone, PartialEq)]
pub struct ToolDef {
    pub tool_type: String,
    pub function: FunctionDef,
}

pub struct ToolDefView {
    pub tool_type: Seq<char>,
    pub function: FunctionDefView,
}

impl DeepView for ToolDef {
    type V = ToolDefView;

    open spec fn deep_view(&self) -> ToolDefView {
        ToolDefView { tool_type: self.tool_type@, function: self.function.deep_view() }
    }
}

/// A request for a chat completion.
#[derive(Debug, Clone, PartialEq)]
pub struct ChatRequest {
    pub model: String,
    pub messages: Vec<ChatMessage>,
    pub stream: Option<bool>,
    /// The sampling temperature, as its decimal text.
    pub temperature: Option<String>,
    pub max_tokens: Option<u32>,
    pub tools: Vec<ToolDef>,
    pub tool_choice: Option<Json>,
}

pub struct ChatRequestView {
    pub model: Seq<char>,
    pub messages: Seq<ChatMessageView>,
    pub stream: Option<bool>,
    pub temperature: Option<Seq<char>>,
    pub max_tokens: Option<u32>,
    pub tools: Seq<ToolDefView>,
    pub tool_choice: Option<JsonView>,
}

impl DeepView for ChatRequest {
    type V = ChatRequestView;

    open spec fn deep_view(&self) -> ChatRequestView {
        ChatRequestView {
            model: self.model@,
            messages: self.messages.deep_view(),
            stream: self.stream,
            temperature: self.temperature.deep_view(),
            max_tokens: self.max_tokens,
            tools: self.tools.deep_view(),
            tool_choice: self.tool_choice.deep_view(),
        }
    }
}

/// A model that OpenRouter lists.
#[derive(Debug, Clone, PartialEq)]
pub struct ModelInfo {
    pub id: String,
    pub name: Option<String>,
    pub description: Option<String>,
    pub context_length: Option<u64>,
    pub pricing: Option<Pricing>,
}

#[derive(Debug, Clone, PartialEq)]
pub struct Pricing {
    pub prompt: Option<String>,
    pub completion: Option<String>,
}

#[derive(Debug, Clone, PartialEq)]
pub struct ListModelsResponse {
    pub data: Vec<ModelInfo>,
}

/// The answer to a request that does not stream.
#[derive(Debug, Clone, PartialEq)]
pub struct ChatCompletionResponse {
    pub id: String,
    pub choices: Vec<ChatChoice>,
    pub usage: Option<Usage>,
}

#[derive(Debug, Clone, PartialEq)]
pub struct ChatChoice {
    pub index: u32,
    pub message: ChatMessage,
    pub finish_reason: Option<String>,
}

#[derive(Debug, Clone, PartialEq)]
pub struct Usage {
    pub prompt_tokens: Option<u32>,
    pub completion_tokens: Option<u32>,
    pub total_tokens: Option<u32>,
}

/// One chunk of a streamed answer: text, or slices of tool calls.
#[derive(Debug, Clone, PartialEq)]
pub struct ChatCompletionChunk {
    pub id: String,
    pub choices: Vec<StreamChoice>,
}

pub struct ChatCompletionChunkView {
    pub id: Seq<char>,
    pub choices: Seq<StreamChoiceView>,
}

impl DeepView for ChatCompletionChunk {
    type V = ChatCompletionChunkView;

    open spec fn deep_view(&self) -> ChatCompletionChunkView {
        ChatCompletionChunkView { id: self.id@, choices: self.choices.deep_view() }
    }
}

#[derive(Debug, Clone, PartialEq)]
pub struct StreamChoice {
    pub index: u32,
    pub delta: StreamDelta,
    pub finish_reason: Option<String>,
}

pub struct StreamChoiceView {
    pub index: u32,
    pub delta: StreamDeltaView,
    pub finish_reason: Option<Seq<char>>,
}

impl DeepView for StreamChoice {
    type V = StreamChoiceView;

    open spec fn deep_view(&self) -> StreamChoiceView {
        StreamChoiceView {
            index: self.index,
            delta: self.delta.deep_view(),
            finish_reason: self.finish_reason.deep_view(),
        }
    }
}

#[derive(Debug, Clone, PartialEq)]
pub struct StreamDelta {
    pub role: Option<String>,
    pub content: Option<String>,
    /// Slices of tool calls, to be put together by their index.
    pub tool_calls: Vec<ToolCallDelta>,
}

pub struct StreamDeltaView {
    pub role: Option<Seq<char>>,
    pub content: Option<Seq<char>>,
    pub tool_calls: Seq<ToolCallDeltaView>,
}

impl DeepView for StreamDelta {
    type V = StreamDeltaView;

    open spec fn deep_view(&self) -> StreamDeltaView {
        StreamDeltaView {
            role: self.role.deep_view(),
            content: self.content.deep_view(),
            tool_calls: self.tool_calls.deep_view(),
        }
    }
}

#[derive(Debug, Clone, PartialEq)]
pub struct ToolCallDelta {
    pub index: u32,
    pub id: Option<String>,
    pub call_type: Option<String>,
    pub function: Option<FunctionCallDelta>,
}

pub struct ToolCallDeltaView {
    pub index: u32,
    pub id: Option<Seq<char>>,
    pub call_type: Option<Seq<char>>,
    pub function: Option<FunctionCallDeltaView>,
}

impl DeepView for ToolCallDelta {
    type V = ToolCallDeltaView;

    open spec fn deep_view(&self) -> ToolCallDeltaView {
        ToolCallDeltaView {
            index: self.index,
            id: self.id.deep_view(),
            call_type: self.call_type.deep_view(),
            function: self.function.deep_view(),
        }
    }
}

#[derive(Debug, Clone, PartialEq)]
pub struct FunctionCallDelta {
    pub name: Option<String>,
    pub arguments: Option<String>,
}

pub struct FunctionCallDeltaView {
    pub name: Option<Seq<char>>,
    pub arguments: Option<Seq<char>>,
}

impl DeepView for FunctionCallDelta {
    type V = FunctionCallDeltaView;

    open spec fn deep_view(&self) -> FunctionCallDeltaView {
        FunctionCallDeltaView {
            name: self.name.deep_view(),
            arguments: self.arguments.deep_view(),
        }
    }
}

/// What the caller of a streamed completion is told.
#[derive(Debug, Clone, PartialEq)]
pub enum StreamEvent {
    /// More text of the assistant.
    TextDelta(String),
    /// A tool call all of whose slices have arrived.
    ToolCallComplete(ToolCall),
}

pub enum StreamEventView {
    TextDelta(Seq<char>),
    ToolCallComplete(ToolCallView),
}

impl DeepView for StreamEvent {
    type V = StreamEventView;

    open spec fn deep_view(&self) -> StreamEventView {
        match self {
            StreamEvent::TextDelta(text) => StreamEventView::TextDelta(text@),
            StreamEvent::ToolCallComplete(call) => StreamEventView::ToolCallComplete(
                call.deep_view(),
            ),
        }
    }
}

/// What can go wrong with a request; a failure of the transport or of the
/// parser is kept as its text.
#[derive(Debug, Clone, PartialEq)]
pub enum OpenRouterError {
    HttpError(String),
    ServerError(String),
    ParseError(String),
    MissingApiKey,
}

pub enum OpenRouterErrorView {
    HttpError(Seq<char>),
    ServerError(Seq<char>),
    ParseError(Seq<char>),
    MissingApiKey,
}

impl DeepView for OpenRouterError {
    type V = OpenRouterErrorView;

    open spec fn deep_view(&self) -> OpenRouterErrorView {
        match self {
            OpenRouterError::HttpError(text) => OpenRouterErrorView::HttpError(text@),
            OpenRouterError::ServerError(text) => OpenRouterErrorView::ServerError(text@),
            OpenRouterError::ParseError(text) => OpenRouterErrorView::ParseError(text@),
            OpenRouterError::MissingApiKey => OpenRouterErrorView::MissingApiKey,
        }
    }
}

impl OpenRouterErrorView {
    /// What a reader is told of the error.
    pub open spec fn message(self) -> Seq<char> {
        match self {
            OpenRouterErrorView::HttpError(text) => "HTTP error: "@ + text,
            OpenRouterErrorView::ServerError(text) => "Server error: "@ + text,
            OpenRouterErrorView::ParseError(text) => "Parse error: "@ + text,
            OpenRouterErrorView::MissingApiKey => "Missing API key"@,
        }
    }
}

impl OpenRouterError {
    /// What a reader is told of the error.
    pub fn message(&self) -> (r: String)
        ensures
            r@ == self.deep_view().message(),
    {
        match self {
            OpenRouterError::HttpError(text) => String::from("HTTP error: ").concat(text.as_str()),
            OpenRouterError::ServerError(text) => String::from("Server error: ").concat(
                text.as_str(),
            ),
            OpenRouterError::ParseError(text) => String::from("Parse error: ").concat(
                text.as_str(),
            ),
            OpenRouterError::MissingApiKey => String::from("Missing API key"),
        }
    }
}

/// An HTTP request, apart from its body.
#[derive(Debug, Clone, PartialEq)]
pub struct RequestHead {
    pub url: String,
    /// The token of the `Authorization` header.
    pub bearer_token: String,
    /// Further headers, each a name with its value.
    pub headers: Vec<(String, String)>,
}

pub struct RequestHeadView {
    pub url: Seq<char>,
    pub bearer_token: Seq<char>,
    pub headers: Seq<(Seq<char>, Seq<char>)>,
}

impl DeepView for RequestHead {
    type V = RequestHeadView;

    open spec fn deep_view(&self) -> RequestHeadView {
        RequestHeadView {
            url: self.url@,
            bearer_token: self.bearer_token@,
            headers: self.headers.deep_view(),
        }
    }
}

/// The request for a chat completion at the given address, apart from its body.
pub open spec fn chat_head(base_url: Seq<char>, api_key: Seq<char>) -> RequestHeadView {
    RequestHeadView {
        url: base_url + "/chat/completions"@,
        bearer_token: api_key,
        headers: seq![("HTTP-Referer"@, "https://warp.dev"@), ("X-Title"@, "Warp"@)],
    }
}

/// The body of a request for a streamed completion: everything but the model,
/// the messages and the tools is left to the server.
pub open spec fn streaming_body(
    model: Seq<char>,
    messages: Seq<ChatMessageView>,
    tools: Seq<ToolDefView>,
) -> ChatRequestView {
    ChatRequestView {
        model,
        messages,
        stream: Some(true),
        temperature: None,
        max_tokens: None,
        tools,
        tool_choice: None,
    }
}

/// Whether a status code reports success.
pub open spec fn is_success(status: u16) -> bool {
    200 <= status < 300
}

/// A client of OpenRouter.
#[derive(Debug, Clone)]
pub struct OpenRouterClient {
    base_url: String,
    api_key: String,
}

pub struct OpenRouterClientView {
    pub base_url: Seq<char>,
    pub api_key: Seq<char>,
}

impl View for OpenRouterClient {
    type V = OpenRouterClientView;

    closed spec fn view(&self) -> OpenRouterClientView {
        OpenRouterClientView { base_url: self.base_url@, api_key: self.api_key@ }
    }
}

impl OpenRouterClient {
    /// A client of OpenRouter at its usual address.
    pub fn new<K: Into<String>>(api_key: K) -> (r: Self)
        ensures
            r@.base_url == DEFAULT_OPENROUTER_URL@,
            exists|key: String|
                #[trigger] call_ensures(K::into, (api_key,), key) && r@.api_key == key@,
    {
        proof {
            reveal_strlit("https://openrouter.ai/api/v1");
        }
        Self::with_base_url(DEFAULT_OPENROUTER_URL, api_key)
    }

    /// A client of OpenRouter at the given address; slashes at the end of the
    /// address are dropped.
    pub fn with_base_url<U: Into<String>, K: Into<String>>(base_url: U, api_key: K) -> (r: Self)
        ensures
            exists|url: String|
                #[trigger] call_ensures(U::into, (base_url,), url) && r@.base_url
                    == without_trailing(url@, '/'),
            exists|key: String|
                #[trigger] call_ensures(K::into, (api_key,), key) && r@.api_key == key@,
    {
        let url: String = base_url.into();
        let key: String = api_key.into();
        OpenRouterClient { base_url: trim_end_matches(url.as_str(), '/'), api_key: key }
    }

    /// The request for the list of models.
    pub fn list_models_request(&self) -> (r: RequestHead)
        ensures
            r.deep_view() == (RequestHeadView {
                url: self@.base_url + "/models"@,
                bearer_token: self@.api_key,
                headers: Seq::empty(),
            }),
    {
        let r = RequestHead {
            url: self.base_url.clone().concat("/models"),
            bearer_token: self.api_key.clone(),
            headers: Vec::new(),
        };
        assert(r.headers.deep_view() =~= Seq::empty());
        r
    }

    /// The request for a chat completion, apart from its body.
    pub fn chat_streaming_request(&self) -> (r: RequestHead)
        ensures
            r.deep_view() == chat_head(self@.base_url, self@.api_key),
    {
        let mut headers: Vec<(String, String)> = Vec::new();
        headers.push((String::from("HTTP-Referer"), String::from("https://warp.dev")));
        headers.push((String::from("X-Title"), String::from("Warp")));
        assert(headers.deep_view() =~= seq![
            ("HTTP-Referer"@, "https://warp.dev"@),
            ("X-Title"@, "Warp"@),
        ]);
        RequestHead {
            url: self.base_url.clone().concat("/chat/completions"),
            bearer_token: self.api_key.clone(),
            headers,
        }
    }
}

/// Slashes at the end of an address make no difference, however many there are:
/// where a request is sent, no second slash stands before the path.
pub proof fn trailing_slashes_make_no_difference(base_url: Seq<char>)
    ensures
        without_trailing(base_url.push('/'), '/') == without_trailing(base_url, '/'),
        without_trailing(without_trailing(base_url, '/'), '/') == without_trailing(base_url, '/'),
        without_trailing(base_url, '/').len() > 0 ==> without_trailing(base_url, '/').last() != '/',
{
    assert(base_url.push('/').drop_last() =~= base_url);
    lemma_without_trailing_idempotent(base_url, '/');
}

/// The body of a request for a streamed completion.
pub fn streaming_chat_request(model: &str, messages: Vec<ChatMessage>, tools: Vec<ToolDef>) -> (r:
    ChatRequest)
    ensures
        r.deep_view() == streaming_body(model@, messages.deep_view(), tools.deep_view()),
        r.model@ == model@,
        r.messages == messages,
        r.tools == tools,
        r.stream == Some(true),
        r.temperature is None,
        r.max_tokens is None,
        r.tool_choice is None,
{
    ChatRequest {
        model: String::from(model),
        messages,
        stream: Some(true),
        temperature: None,
        max_tokens: None,
        tools,
        tool_choice: None,
    }
}

/// Whether the answer to a request for the list of models reports success.
/// `status_text` is what a reader is told of the status.
pub fn check_list_models_status(status: u16, status_text: &str) -> (r: Result<(), OpenRouterError>)
    ensures
        r is Ok <==> is_success(status),
        r matches Err(error) ==> error.deep_view() == OpenRouterErrorView::ServerError(
            "Server returned status: "@ + status_text@,
        ),
{
    if 200 <= status && status < 300 {
        Ok(())
    } else {
        Err(
            OpenRouterError::ServerError(
                String::from("Server returned status: ").concat(status_text),
            ),
        )
    }
}

/// The models in the answer to a request for their list, given what the parser
/// made of the body.
pub fn listed_models(parsed: Result<ListModelsResponse, String>) -> (r: Result<
    Vec<ModelInfo>,
    OpenRouterError,
>)
    ensures
        match parsed {
            Ok(response) => r == Ok::<Vec<ModelInfo>, OpenRouterError>(response.data),
            Err(text) => r == Err::<Vec<ModelInfo>, OpenRouterError>(
                OpenRouterError::ParseError(text),
            ),
        },
{
    match parsed {
        Ok(response) => Ok(response.data),
        Err(text) => Err(OpenRouterError::ParseError(text)),
    }
}

/// Whether the answer to a request for a completion reports success. A body
/// that could not be read counts as empty.
pub fn check_chat_status(status: u16, status_text: &str, body: Option<String>) -> (r: Result<
    (),
    OpenRouterError,
>)
    ensures
        r is Ok <==> is_success(status),
        r matches Err(error) ==> error.deep_view() == OpenRouterErrorView::ServerError(
            "Server returned status "@ + status_text@ + ": "@ + match body {
                Some(text) => text@,
                None => Seq::empty(),
            },
        ),
{
    if 200 <= status && status < 300 {
        Ok(())
    } else {
        let mut text = String::from("Server returned status ");
        text.append(status_text);
        text.append(": ");
        match &body {
            Some(body_text) => text.append(body_text.as_str()),
            None => {
                assert(text@ + Seq::<char>::empty() =~= text@);
            },
        }
        Err(OpenRouterError::ServerError(text))
    }
}

/// The slices of one tool call, put together so far.
#[derive(Debug, Clone, PartialEq)]
pub struct ToolCallAccum {
    pub id: Option<String>,
    pub call_type: String,
    pub name: Option<String>,
    pub arguments: String,
}

pub struct ToolCallAccumView {
    pub id: Option<Seq<char>>,
    pub call_type: Seq<char>,
    pub name: Option<Seq<char>>,
    pub arguments: Seq<char>,
}

impl DeepView for ToolCallAccum {
    type V = ToolCallAccumView;

    open spec fn deep_view(&self) -> ToolCallAccumView {
        ToolCallAccumView {
            id: self.id.deep_view(),
            call_type: self.call_type@,
            name: self.name.deep_view(),
            arguments: self.arguments@,
        }
    }
}

/// `value`, unless it is missing or empty.
pub open spec fn non_empty(value: Option<Seq<char>>) -> Option<Seq<char>> {
    match value {
        Some(text) => if text.len() > 0 {
            Some(text)
        } else {
            None
        },
        None => None,
    }
}

/// `newer` where it is there, else `older`.
pub open spec fn replaced<T>(older: T, newer: Option<T>) -> T {
    match newer {
        Some(value) => value,
        None => older,
    }
}

impl ToolCallAccumView {
    /// Nothing has arrived yet.
    pub open spec fn empty() -> ToolCallAccumView {
        ToolCallAccumView {
            id: None,
            call_type: Seq::empty(),
            name: None,
            arguments: Seq::empty(),
        }
    }

    /// With one more slice: an id, a type or a name that is not empty takes the
    /// place of the one before, and the arguments grow at their end.
    pub open spec fn absorbing(self, delta: ToolCallDeltaView) -> ToolCallAccumView {
        let function = match delta.function {
            Some(function) => function,
            None => FunctionCallDeltaView { name: None, arguments: None },
        };
        ToolCallAccumView {
            id: match non_empty(delta.id) {
                Some(id) => Some(id),
                None => self.id,
            },
            call_type: replaced(self.call_type, non_empty(delta.call_type)),
            name: match non_empty(function.name) {
                Some(name) => Some(name),
                None => self.name,
            },
            arguments: self.arguments + replaced(Seq::empty(), function.arguments),
        }
    }

    /// The tool call, once its id and its name are known.
    pub open spec fn completed(self) -> Option<ToolCallView> {
        match (self.id, self.name) {
            (Some(id), Some(name)) => Some(
                ToolCallView {
                    id,
                    call_type: if self.call_type.len() == 0 {
                        "function"@
                    } else {
                        self.call_type
                    },
                    function: FunctionCallView { name, arguments: self.arguments },
                },
            ),
            _ => None,
        }
    }

    /// An id or a name that is known is not empty.
    pub open spec fn well_formed(self) -> bool {
        &&& self.id matches Some(id) ==> id.len() > 0
        &&& self.name matches Some(name) ==> name.len() > 0
    }
}

impl Default for ToolCallAccum {
    fn default() -> (r: Self)
        ensures
            r.deep_view() == ToolCallAccumView::empty(),
    {
        ToolCallAccum {
            id: None,
            call_type: String::new(),
            name: None,
            arguments: String::new(),
        }
    }
}

impl ToolCallAccum {
    /// Takes in one more slice of the tool call.
    pub fn absorb(&mut self, delta: &ToolCallDelta)
        ensures
            final(self).deep_view() == old(self).deep_view().absorbing(delta.deep_view()),
    {
        if let Some(id) = &delta.id {
            if !id.as_str().is_empty() {
                self.id = Some(id.clone());
            }
        }
        if let Some(call_type) = &delta.call_type {
            if !call_type.as_str().is_empty() {
                self.call_type = call_type.clone();
            }
        }
        if let Some(function) = &delta.function {
            if let Some(name) = &function.name {
                if !name.as_str().is_empty() {
                    self.name = Some(name.clone());
                }
            }
            if let Some(arguments) = &function.arguments {
                self.arguments.append(arguments.as_str());
            }
        }
        assert(self.deep_view().arguments =~= old(self).deep_view().absorbing(
            delta.deep_view(),
        ).arguments);
    }

    /// The tool call; `None` while its id or its name is missing.
    pub fn into_tool_call(self) -> (r: Option<ToolCall>)
        ensures
            r.deep_view() == self.deep_view().completed(),
            r is Some <==> self.id is Some && self.name is Some,
            r matches Some(call) ==> {
                &&& self.id == Some(call.id)
                &&& self.name == Some(call.function.name)
                &&& call.function.arguments == self.arguments
                &&& self.call_type@.len() > 0 ==> call.call_type == self.call_type
                &&& self.call_type@.len() == 0 ==> call.call_type@ == "function"@
            },
    {
        let id = match self.id {
            Some(id) => id,
            None => return None,
        };
        let name = match self.name {
            Some(name) => name,
            None => return None,
        };
        let call_type = if self.call_type.as_str().is_empty() {
            default_tool_type()
        } else {
            self.call_type
        };
        Some(ToolCall { id, call_type, function: FunctionCall { name, arguments: self.arguments } })
    }
}

} // verus!
