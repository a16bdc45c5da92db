//! Requests for models that run outside the agent server, with Ollama or with
//! OpenRouter: which model is meant, what it is shown of the conversation, and
//! which updates of the conversation its answer becomes.
//!
//! A local model takes no part in tool calling. It is shown the queries of the
//! user and the answers given so far.

use crate::ids::{is_random_uuid, new_uuid};
use crate::ollama_client;
use crate::openrouter_client;
use crate::proto::{
    Action, ActionView, AddMessagesToTask, AddMessagesToTaskView, AppendToMessageContent,
    AppendToMessageContentView, ClientAction, ClientActionView, EventType, EventTypeView,
    FieldMask, FieldMaskView, FinishReason, Message, MessageContent, MessageContentView,
    MessageView, ResponseEvent, ResponseEventView, StreamFinished, StreamFinishedView, StreamInit,
    StreamInitView, Task, TaskView, Timestamp,
};
use crate::text::{starts_with, strip_prefix};
use vstd::prelude::*;

verus! {

/// What the id of a model begins with that Ollama serves.
pub const OLLAMA_ID_PREFIX: &'static str = "ollama:";

/// What the id of a model begins with that OpenRouter serves.
pub const OPENROUTER_ID_PREFIX: &'static str = "openrouter:";

/// Whether a model is served without the agent server.
pub open spec fn names_local_model(model_id: Seq<char>) -> bool {
    OLLAMA_ID_PREFIX@.is_prefix_of(model_id) || OPENROUTER_ID_PREFIX@.is_prefix_of(model_id)
}

/// Whether a model is served without the agent server.
pub fn is_local_model(model_id: &str) -> (r: bool)
    ensures
        r == names_local_model(model_id@),
{
    starts_with(model_id, OLLAMA_ID_PREFIX) || starts_with(model_id, OPENROUTER_ID_PREFIX)
}

/// One turn of the conversation, as a model is shown it.
#[derive(Debug, Clone, PartialEq)]
pub struct ChatMsg {
    pub role: String,
    pub content: String,
}

pub struct ChatMsgView {
    pub role: Seq<char>,
    pub content: Seq<char>,
}

impl DeepView for ChatMsg {
    type V = ChatMsgView;

    open spec fn deep_view(&self) -> ChatMsgView {
        ChatMsgView { role: self.role@, content: self.content@ }
    }
}

/// What the user puts to the agent.
#[derive(Debug, Clone, PartialEq)]
pub enum AIAgentInput {
    UserQuery { query: String },
    AutoCodeDiffQuery { query: String },
    CreateNewProject { query: String },
    /// Input that carries no query.
    Other,
}

pub enum AIAgentInputView {
    UserQuery { query: Seq<char> },
    AutoCodeDiffQuery { query: Seq<char> },
    CreateNewProject { query: Seq<char> },
    Other,
}

impl DeepView for AIAgentInput {
    type V = AIAgentInputView;

    open spec fn deep_view(&self) -> AIAgentInputView {
        match self {
            AIAgentInput::UserQuery { query } => AIAgentInputView::UserQuery { query: query@ },
            AIAgentInput::AutoCodeDiffQuery { query } => AIAgentInputView::AutoCodeDiffQuery {
                query: query@,
            },
            AIAgentInput::CreateNewProject { query } => AIAgentInputView::CreateNewProject {
                query: query@,
            },
            AIAgentInput::Other => AIAgentInputView::Other,
        }
    }
}

/// The query in an input, empty where there is none.
pub open spec fn query_of(input: AIAgentInputView) -> Seq<char> {
    match input {
        AIAgentInputView::UserQuery { query } => query,
        AIAgentInputView::AutoCodeDiffQuery { query } => query,
        AIAgentInputView::CreateNewProject { query } => query,
        AIAgentInputView::Other => Seq::empty(),
    }
}

/// The first query that is not empty; empty where there is none.
pub open spec fn user_text(input: Seq<AIAgentInputView>) -> Seq<char>
    decreases input.len(),
{
    if input.len() == 0 {
        Seq::empty()
    } else if query_of(input[0]).len() > 0 {
        query_of(input[0])
    } else {
        user_text(input.skip(1))
    }
}

/// The turn that a message of a task stands for; one without text, or of
/// another kind, stands for none.
pub open spec fn turn_of(message: MessageView) -> Option<ChatMsgView> {
    match message.message {
        Some(MessageContentView::UserQuery { query }) => if query.len() > 0 {
            Some(ChatMsgView { role: "user"@, content: query })
        } else {
            None
        },
        Some(MessageContentView::AgentOutput { text }) => if text.len() > 0 {
            Some(ChatMsgView { role: "assistant"@, content: text })
        } else {
            None
        },
        _ => None,
    }
}

/// The turns of the tasks, in order.
pub open spec fn history(tasks: Seq<TaskView>) -> Seq<ChatMsgView>
    decreases tasks.len(),
{
    if tasks.len() == 0 {
        Seq::empty()
    } else {
        history(tasks.drop_last()) + tasks.last().messages.filter_map(
            |message: MessageView| turn_of(message),
        )
    }
}

/// What a model is shown: the system prompt, the conversation so far, and what
/// the user says now.
pub open spec fn chat_messages(
    system_prompt: Seq<char>,
    tasks: Seq<TaskView>,
    input: Seq<AIAgentInputView>,
) -> Seq<ChatMsgView> {
    let current = user_text(input);
    seq![ChatMsgView { role: "system"@, content: system_prompt }] + history(tasks)
        + if current.len() > 0 {
        seq![ChatMsgView { role: "user"@, content: current }]
    } else {
        Seq::empty()
    }
}

/// What a local model is told about its surroundings.
pub const SYSTEM_PROMPT: &'static str = "You are a helpful AI assistant running inside the Warp terminal.\nThe user is in a command-line environment. Keep answers concise and practical.\nYou do not currently have access to tool-calling (shell commands, file access).\nJust respond with plain text.";

pub fn build_system_prompt() -> (r: String)
    ensures
        r@ == SYSTEM_PROMPT@,
{
    String::from(SYSTEM_PROMPT)
}

/// The first query that is not empty; empty where there is none.
pub fn extract_user_text(input: &[AIAgentInput]) -> (r: String)
    ensures
        r@ == user_text(input.deep_view()),
{
    let ghost views = input.deep_view();
    let mut i: usize = 0;
    assert(views.skip(0) =~= views);
    while i < input.len()
        invariant
            i <= input@.len(),
            views == input.deep_view(),
            user_text(views) == user_text(views.skip(i as int)),
        decreases input@.len() - i,
    {
        proof {
            assert(views.skip(i as int)[0] == input@[i as int].deep_view());
            assert(views.skip(i as int).skip(1) =~= views.skip(i as int + 1));
        }
        let query = match &input[i] {
            AIAgentInput::UserQuery { query } => Some(query),
            AIAgentInput::AutoCodeDiffQuery { query } => Some(query),
            AIAgentInput::CreateNewProject { query } => Some(query),
            AIAgentInput::Other => None,
        };
        if let Some(text) = query {
            if !text.as_str().is_empty() {
                return text.clone();
            }
        }
        i = i + 1;
    }
    String::new()
}

/// The turn that a message of a task stands for.
fn read_turn(message: &Message) -> (r: Option<ChatMsg>)
    ensures
        r.deep_view() == turn_of(message.deep_view()),
{
    match &message.message {
        Some(MessageContent::UserQuery { query }) => if !query.as_str().is_empty() {
            Some(ChatMsg { role: String::from("user"), content: query.clone() })
        } else {
            None
        },
        Some(MessageContent::AgentOutput { text }) => if !text.as_str().is_empty() {
            Some(ChatMsg { role: String::from("assistant"), content: text.clone() })
        } else {
            None
        },
        _ => None,
    }
}

/// What a model is shown of the conversation.
pub fn build_chat_messages(system_prompt: &str, tasks: &[Task], input: &[AIAgentInput]) -> (r:
    Vec<ChatMsg>)
    ensures
        r.deep_view() == chat_messages(system_prompt@, tasks.deep_view(), input.deep_view()),
{
    let ghost pick = |message: MessageView| turn_of(message);
    let ghost task_views = tasks.deep_view();
    let ghost head = seq![ChatMsgView { role: "system"@, content: system_prompt@ }];
    let mut messages: Vec<ChatMsg> = Vec::new();
    messages.push(ChatMsg { role: String::from("system"), content: String::from(system_prompt) });
    assert(messages.deep_view() =~= head + history(task_views.take(0)));
    let mut i: usize = 0;
    while i < tasks.len()
        invariant
            i <= tasks@.len(),
            task_views == tasks.deep_view(),
            pick == (|message: MessageView| turn_of(message)),
            messages.deep_view() == head + history(task_views.take(i as int)),
        decreases tasks@.len() - i,
    {
        let task = &tasks[i];
        let ghost views = task.messages.deep_view();
        let ghost so_far = messages.deep_view();
        let mut j: usize = 0;
        assert(messages.deep_view() =~= so_far + views.take(0).filter_map(pick));
        while j < task.messages.len()
            invariant
                j <= task.messages@.len(),
                views == task.messages.deep_view(),
                pick == (|message: MessageView| turn_of(message)),
                messages.deep_view() == so_far + views.take(j as int).filter_map(pick),
            decreases task.messages@.len() - j,
        {
            proof {
                views.lemma_filter_map_take_succ(pick, j as int);
                assert(views[j as int] == task.messages@[j as int].deep_view());
            }
            let ghost before = messages.deep_view();
            if let Some(turn) = read_turn(&task.messages[j]) {
                messages.push(turn);
                assert(messages.deep_view() =~= before + seq![turn.deep_view()]);
            }
            j = j + 1;
            assert(messages.deep_view() =~= so_far + views.take(j as int).filter_map(pick));
        }
        assert(views.take(j as int) =~= views);
        assert(task_views.take(i as int + 1).drop_last() =~= task_views.take(i as int));
        assert(task_views.take(i as int + 1).last() == task.deep_view());
        i = i + 1;
        assert(messages.deep_view() =~= head + history(task_views.take(i as int)));
    }
    assert(task_views.take(i as int) =~= task_views);
    let current = extract_user_text(input);
    let ghost before = messages.deep_view();
    if !current.as_str().is_empty() {
        messages.push(ChatMsg { role: String::from("user"), content: current });
        assert(messages.deep_view() =~= before + seq![
            ChatMsgView { role: "user"@, content: current@ },
        ]);
    } else {
        assert(before + Seq::<ChatMsgView>::empty() =~= before);
    }
    messages
}

/// The keys that the user has configured.
#[derive(Debug, Clone, PartialEq)]
pub struct ApiKeys {
    pub open_router: String,
}

pub struct ApiKeysView {
    pub open_router: Seq<char>,
}

impl DeepView for ApiKeys {
    type V = ApiKeysView;

    open spec fn deep_view(&self) -> ApiKeysView {
        ApiKeysView { open_router: self.open_router@ }
    }
}

/// Why a local run comes to no proper end.
#[derive(Debug, Clone, PartialEq)]
pub enum LocalInferenceError {
    /// Nobody reads the updates any more.
    ReceiverDropped,
    /// The key that OpenRouter asks for is not configured.
    MissingOpenRouterKey,
    /// The id of the model names neither Ollama nor OpenRouter.
    UnknownModel(String),
    /// The model did not begin to answer.
    Client(String),
    /// Ollama broke off its answer.
    OllamaStream(String),
    /// OpenRouter broke off its answer.
    OpenRouterStream(String),
}

pub enum LocalInferenceErrorView {
    ReceiverDropped,
    MissingOpenRouterKey,
    UnknownModel(Seq<char>),
    Client(Seq<char>),
    OllamaStream(Seq<char>),
    OpenRouterStream(Seq<char>),
}

impl DeepView for LocalInferenceError {
    type V = LocalInferenceErrorView;

    open spec fn deep_view(&self) -> LocalInferenceErrorView {
        match self {
            LocalInferenceError::ReceiverDropped => LocalInferenceErrorView::ReceiverDropped,
            LocalInferenceError::MissingOpenRouterKey => {
                LocalInferenceErrorView::MissingOpenRouterKey
            },
            LocalInferenceError::UnknownModel(id) => LocalInferenceErrorView::UnknownModel(id@),
            LocalInferenceError::Client(text) => LocalInferenceErrorView::Client(text@),
            LocalInferenceError::OllamaStream(text) => LocalInferenceErrorView::OllamaStream(text@),
            LocalInferenceError::OpenRouterStream(text) => {
                LocalInferenceErrorView::OpenRouterStream(text@)
            },
        }
    }
}

impl LocalInferenceErrorView {
    /// What a reader is told of the error.
    pub open spec fn message(self) -> Seq<char> {
        match self {
            LocalInferenceErrorView::ReceiverDropped => "receiver dropped"@,
            LocalInferenceErrorView::MissingOpenRouterKey => "OpenRouter API key not configured"@,
            LocalInferenceErrorView::UnknownModel(id) => "unknown local model id: "@ + id,
            LocalInferenceErrorView::Client(text) => text,
            LocalInferenceErrorView::OllamaStream(text) => "ollama stream error: "@ + text,
            LocalInferenceErrorView::OpenRouterStream(text) => "openrouter stream error: "@ + text,
        }
    }
}

impl LocalInferenceError {
    /// What a reader is told of the error.
    pub fn message(&self) -> (r: String)
        ensures
            r@ == self.deep_view().message(),
    {
        match self {
            LocalInferenceError::ReceiverDropped => String::from("receiver dropped"),
            LocalInferenceError::MissingOpenRouterKey => String::from(
                "OpenRouter API key not configured",
            ),
            LocalInferenceError::UnknownModel(id) => String::from(
                "unknown local model id: ",
            ).concat(id.as_str()),
            LocalInferenceError::Client(text) => text.clone(),
            LocalInferenceError::OllamaStream(text) => String::from(
                "ollama stream error: ",
            ).concat(text.as_str()),
            LocalInferenceError::OpenRouterStream(text) => String::from(
                "openrouter stream error: ",
            ).concat(text.as_str()),
        }
    }
}

/// Where a model is reached, and what it is asked.
#[derive(Debug, Clone, PartialEq)]
pub enum ModelRoute {
    Ollama { url: String, model: String, messages: Vec<ollama_client::ChatMessage> },
    OpenRouter { api_key: String, model: String, messages: Vec<openrouter_client::ChatMessage> },
}

pub enum ModelRouteView {
    Ollama { url: Seq<char>, model: Seq<char>, messages: Seq<ollama_client::ChatMessageView> },
    OpenRouter {
        api_key: Seq<char>,
        model: Seq<char>,
        messages: Seq<openrouter_client::ChatMessageView>,
    },
}

impl DeepView for ModelRoute {
    type V = ModelRouteView;

    open spec fn deep_view(&self) -> ModelRouteView {
        match self {
            ModelRoute::Ollama { url, model, messages } => ModelRouteView::Ollama {
                url: url@,
                model: model@,
                messages: messages.deep_view(),
            },
            ModelRoute::OpenRouter { api_key, model, messages } => ModelRouteView::OpenRouter {
                api_key: api_key@,
                model: model@,
                messages: messages.deep_view(),
            },
        }
    }
}

pub open spec fn for_ollama(messages: Seq<ChatMsgView>) -> Seq<ollama_client::ChatMessageView> {
    messages.map_values(
        |m: ChatMsgView| ollama_client::ChatMessageView { role: m.role, content: m.content },
    )
}

pub open spec fn for_openrouter(messages: Seq<ChatMsgView>) -> Seq<
    openrouter_client::ChatMessageView,
> {
    messages.map_values(|m: ChatMsgView| openrouter_client::spoken(m.role, m.content))
}

/// Where the model with the given id is reached: the prefix of the id tells
/// the service, and the rest is the model's own name. Ollama is reached at the
/// configured address, or at its usual one where none is configured; OpenRouter
/// needs a key.
pub open spec fn routed(
    model_id: Seq<char>,
    messages: Seq<ChatMsgView>,
    api_keys: Option<ApiKeysView>,
    ollama_url: Option<Seq<char>>,
    default_ollama_url: Seq<char>,
) -> Result<ModelRouteView, LocalInferenceErrorView> {
    if OLLAMA_ID_PREFIX@.is_prefix_of(model_id) {
        Ok(
            ModelRouteView::Ollama {
                url: match ollama_url {
                    Some(url) => if url.len() > 0 {
                        url
                    } else {
                        default_ollama_url
                    },
                    None => default_ollama_url,
                },
                model: model_id.skip(OLLAMA_ID_PREFIX@.len() as int),
                messages: for_ollama(messages),
            },
        )
    } else if OPENROUTER_ID_PREFIX@.is_prefix_of(model_id) {
        match api_keys {
            Some(keys) => if keys.open_router.len() > 0 {
                Ok(
                    ModelRouteView::OpenRouter {
                        api_key: keys.open_router,
                        model: model_id.skip(OPENROUTER_ID_PREFIX@.len() as int),
                        messages: for_openrouter(messages),
                    },
                )
            } else {
                Err(LocalInferenceErrorView::MissingOpenRouterKey)
            },
            None => Err(LocalInferenceErrorView::MissingOpenRouterKey),
        }
    } else {
        Err(LocalInferenceErrorView::UnknownModel(model_id))
    }
}

/// A route, or why there is none.
pub open spec fn route_view(route: Result<ModelRoute, LocalInferenceError>) -> Result<
    ModelRouteView,
    LocalInferenceErrorView,
> {
    match route {
        Ok(route) => Ok(route.deep_view()),
        Err(error) => Err(error.deep_view()),
    }
}

fn ollama_messages(messages: Vec<ChatMsg>) -> (r: Vec<ollama_client::ChatMessage>)
    ensures
        r.deep_view() == for_ollama(messages.deep_view()),
{
    let ghost views = messages.deep_view();
    let mut out: Vec<ollama_client::ChatMessage> = Vec::new();
    for message in it: messages.into_iter()
        invariant
            it.seq().len() == views.len(),
            out@.len() == it.index(),
            forall|i: int| 0 <= i < views.len() ==> (#[trigger] it.seq()[i]).deep_view() == views[i],
            forall|i: int|
                0 <= i < out@.len() ==> (#[trigger] out@[i]).deep_view() == (
                ollama_client::ChatMessageView { role: views[i].role, content: views[i].content }),
    {
        out.push(ollama_client::ChatMessage { role: message.role, content: message.content });
    }
    assert(out.deep_view() =~= for_ollama(views));
    out
}

fn openrouter_messages(messages: Vec<ChatMsg>) -> (r: Vec<openrouter_client::ChatMessage>)
    ensures
        r.deep_view() == for_openrouter(messages.deep_view()),
{
    let ghost views = messages.deep_view();
    let mut out: Vec<openrouter_client::ChatMessage> = Vec::new();
    for message in it: messages.into_iter()
        invariant
            it.seq().len() == views.len(),
            out@.len() == it.index(),
            forall|i: int| 0 <= i < views.len() ==> (#[trigger] it.seq()[i]).deep_view() == views[i],
            forall|i: int|
                0 <= i < out@.len() ==> (#[trigger] out@[i]).deep_view()
                    == openrouter_client::spoken(views[i].role, views[i].content),
    {
        out.push(
            openrouter_client::ChatMessage::with_role(message.role.as_str(), message.content),
        );
    }
    assert(out.deep_view() =~= for_openrouter(views));
    out
}

/// Where the model with the given id is reached, and what it is asked.
pub fn route_request(
    model_id: &str,
    messages: Vec<ChatMsg>,
    api_keys: Option<ApiKeys>,
    ollama_url: Option<String>,
    default_ollama_url: &str,
) -> (r: Result<ModelRoute, LocalInferenceError>)
    ensures
        route_view(r) == routed(
            model_id@,
            messages.deep_view(),
            api_keys.deep_view(),
            ollama_url.deep_view(),
            default_ollama_url@,
        ),
{
    if let Some(model) = strip_prefix(model_id, OLLAMA_ID_PREFIX) {
        let url = match ollama_url {
            Some(url) => if url.as_str().is_empty() {
                String::from(default_ollama_url)
            } else {
                url
            },
            None => String::from(default_ollama_url),
        };
        Ok(ModelRoute::Ollama { url, model, messages: ollama_messages(messages) })
    } else if let Some(model) = strip_prefix(model_id, OPENROUTER_ID_PREFIX) {
        let api_key = match api_keys {
            Some(keys) => keys.open_router,
            None => return Err(LocalInferenceError::MissingOpenRouterKey),
        };
        if api_key.as_str().is_empty() {
            return Err(LocalInferenceError::MissingOpenRouterKey);
        }
        Ok(ModelRoute::OpenRouter { api_key, model, messages: openrouter_messages(messages) })
    } else {
        Err(LocalInferenceError::UnknownModel(String::from(model_id)))
    }
}

/// The request with which a model at OpenRouter is asked. It offers no tools: a
/// local model takes no part in tool calling.
pub fn openrouter_request(
    api_key: String,
    model: &str,
    messages: Vec<openrouter_client::ChatMessage>,
) -> (r: (openrouter_client::RequestHead, openrouter_client::ChatRequest))
    ensures
        r.0.deep_view() == openrouter_client::chat_head(
            openrouter_client::DEFAULT_OPENROUTER_URL@,
            api_key@,
        ),
        r.1.deep_view() == openrouter_client::streaming_body(
            model@,
            messages.deep_view(),
            Seq::empty(),
        ),
{
    let client = openrouter_client::OpenRouterClient::new(api_key);
    let tools: Vec<openrouter_client::ToolDef> = Vec::new();
    assert(tools.deep_view() =~= Seq::empty());
    (
        client.chat_streaming_request(),
        openrouter_client::streaming_chat_request(model, messages, tools),
    )
}

/// A model is unknown to the router exactly where it is no local model.
pub proof fn unknown_models_are_the_models_that_are_not_local(
    model_id: Seq<char>,
    messages: Seq<ChatMsgView>,
    api_keys: Option<ApiKeysView>,
    ollama_url: Option<Seq<char>>,
    default_ollama_url: Seq<char>,
)
    ensures
        routed(model_id, messages, api_keys, ollama_url, default_ollama_url) == Err::<
            ModelRouteView,
            LocalInferenceErrorView,
        >(LocalInferenceErrorView::UnknownModel(model_id)) <==> !names_local_model(model_id),
{
}

/// An update made of the given actions.
pub open spec fn wrapped(actions: Seq<ActionView>) -> ResponseEventView {
    ResponseEventView {
        event_type: Some(
            EventTypeView::ClientActions {
                actions: actions.map_values(
                    |action: ActionView| ClientActionView { action: Some(action) },
                ),
            },
        ),
    }
}

/// An update made of the given actions.
pub fn wrap_actions(actions: Vec<Action>) -> (r: ResponseEvent)
    ensures
        r.deep_view() == wrapped(actions.deep_view()),
{
    let ghost views = actions.deep_view();
    let mut out: Vec<ClientAction> = Vec::new();
    for action in it: actions.into_iter()
        invariant
            it.seq().len() == views.len(),
            out@.len() == it.index(),
            forall|i: int| 0 <= i < views.len() ==> (#[trigger] it.seq()[i]).deep_view() == views[i],
            forall|i: int|
                0 <= i < out@.len() ==> (#[trigger] out@[i]).deep_view() == (ClientActionView {
                    action: Some(views[i]),
                }),
    {
        out.push(ClientAction { action: Some(action) });
    }
    assert(out.deep_view() =~= views.map_values(
        |action: ActionView| ClientActionView { action: Some(action) },
    ));
    ResponseEvent { event_type: Some(EventType::ClientActions { actions: out }) }
}

/// An update made of one action.
pub(crate) fn wrap_action(action: Action) -> (r: ResponseEvent)
    ensures
        r.deep_view() == wrapped(seq![action.deep_view()]),
{
    let mut actions: Vec<Action> = Vec::new();
    actions.push(action);
    assert(actions.deep_view() =~= seq![action.deep_view()]);
    wrap_actions(actions)
}

/// A message in which the agent says `text`.
pub open spec fn agent_message(
    message_id: Seq<char>,
    task_id: Seq<char>,
    request_id: Seq<char>,
    timestamp: Option<Timestamp>,
    text: Seq<char>,
) -> MessageView {
    MessageView {
        id: message_id,
        task_id,
        request_id,
        timestamp,
        server_message_data: Seq::empty(),
        citations: Seq::empty(),
        message: Some(MessageContentView::AgentOutput { text }),
    }
}

fn new_agent_message(
    message_id: &str,
    task_id: &str,
    request_id: &str,
    timestamp: Option<Timestamp>,
    text: &str,
) -> (r: Message)
    ensures
        r.deep_view() == agent_message(message_id@, task_id@, request_id@, timestamp, text@),
{
    let r = Message {
        id: String::from(message_id),
        task_id: String::from(task_id),
        request_id: String::from(request_id),
        timestamp,
        server_message_data: String::new(),
        citations: Vec::new(),
        message: Some(MessageContent::AgentOutput { text: String::from(text) }),
    };
    assert(r.citations.deep_view() =~= Seq::empty());
    r
}

/// Appends `chunk` to the text of a message of the agent, and touches nothing
/// else of it.
pub open spec fn appended(
    task_id: Seq<char>,
    message_id: Seq<char>,
    chunk: Seq<char>,
) -> AppendToMessageContentView {
    AppendToMessageContentView {
        task_id,
        message: Some(agent_message(message_id, task_id, Seq::empty(), None, chunk)),
        mask: Some(FieldMaskView { paths: seq!["agent_output.text"@] }),
    }
}

/// Appends `chunk` to the text of a message of the agent.
pub fn append_action(task_id: &str, message_id: &str, chunk: &str) -> (r: AppendToMessageContent)
    ensures
        r.deep_view() == appended(task_id@, message_id@, chunk@),
{
    let mut paths: Vec<String> = Vec::new();
    paths.push(String::from("agent_output.text"));
    assert(paths.deep_view() =~= seq!["agent_output.text"@]);
    let empty = String::new();
    AppendToMessageContent {
        task_id: String::from(task_id),
        message: Some(new_agent_message(message_id, task_id, empty.as_str(), None, chunk)),
        mask: Some(FieldMask { paths }),
    }
}

/// The update that appends `chunk` to the answer.
pub open spec fn append_update(
    task_id: Seq<char>,
    message_id: Seq<char>,
    chunk: Seq<char>,
) -> ResponseEventView {
    wrapped(seq![ActionView::AppendToMessageContent(appended(task_id, message_id, chunk))])
}

/// The update that creates an empty task.
pub open spec fn create_update(task_id: Seq<char>) -> ResponseEventView {
    wrapped(
        seq![
            ActionView::CreateTask {
                task: Some(
                    TaskView {
                        id: task_id,
                        description: Seq::empty(),
                        dependencies: None,
                        messages: Seq::empty(),
                        summary: Seq::empty(),
                        server_data: Seq::empty(),
                    },
                ),
            },
        ],
    )
}

/// The update that adds the answer, still empty, to the task.
pub open spec fn answer_update(
    task_id: Seq<char>,
    message_id: Seq<char>,
    request_id: Seq<char>,
    timestamp: Timestamp,
) -> ResponseEventView {
    wrapped(
        seq![
            ActionView::AddMessagesToTask(
                AddMessagesToTaskView {
                    task_id,
                    messages: seq![
                        agent_message(
                            message_id,
                            task_id,
                            request_id,
                            Some(timestamp),
                            Seq::empty(),
                        ),
                    ],
                },
            ),
        ],
    )
}

/// The last event of an exchange.
pub open spec fn finished_event(reason: FinishReason) -> ResponseEventView {
    ResponseEventView {
        event_type: Some(
            EventTypeView::Finished(
                StreamFinishedView {
                    reason: Some(reason),
                    conversation_usage_metadata: None,
                    token_usage: Seq::empty(),
                    should_refresh_model_config: false,
                    request_cost: None,
                },
            ),
        ),
    }
}

/// The first event of an exchange.
pub open spec fn init_event(
    conversation_id: Seq<char>,
    request_id: Seq<char>,
    run_id: Seq<char>,
) -> ResponseEventView {
    ResponseEventView {
        event_type: Some(
            EventTypeView::Init(StreamInitView { conversation_id, request_id, run_id }),
        ),
    }
}

pub(crate) fn start_event(conversation_id: &str, request_id: &str, run_id: &str) -> (r: ResponseEvent)
    ensures
        r.deep_view() == init_event(conversation_id@, request_id@, run_id@),
{
    ResponseEvent {
        event_type: Some(
            EventType::Init(
                StreamInit {
                    conversation_id: String::from(conversation_id),
                    request_id: String::from(request_id),
                    run_id: String::from(run_id),
                },
            ),
        ),
    }
}

pub(crate) fn append_event(task_id: &str, message_id: &str, chunk: &str) -> (r: ResponseEvent)
    ensures
        r.deep_view() == append_update(task_id@, message_id@, chunk@),
{
    wrap_action(Action::AppendToMessageContent(append_action(task_id, message_id, chunk)))
}

pub(crate) fn create_event(task_id: &str) -> (r: ResponseEvent)
    ensures
        r.deep_view() == create_update(task_id@),
{
    let task = Task {
        id: String::from(task_id),
        description: String::new(),
        dependencies: None,
        messages: Vec::new(),
        summary: String::new(),
        server_data: String::new(),
    };
    assert(task.messages.deep_view() =~= Seq::empty());
    wrap_action(Action::CreateTask { task: Some(task) })
}

pub(crate) fn answer_event(task_id: &str, message_id: &str, request_id: &str, timestamp: Timestamp) -> (r:
    ResponseEvent)
    ensures
        r.deep_view() == answer_update(task_id@, message_id@, request_id@, timestamp),
{
    let empty = String::new();
    let mut messages: Vec<Message> = Vec::new();
    messages.push(
        new_agent_message(message_id, task_id, request_id, Some(timestamp), empty.as_str()),
    );
    assert(messages.deep_view() =~= seq![
        agent_message(message_id@, task_id@, request_id@, Some(timestamp), Seq::empty()),
    ]);
    wrap_action(
        Action::AddMessagesToTask(
            AddMessagesToTask { task_id: String::from(task_id), messages },
        ),
    )
}

pub(crate) fn finish_event(reason: FinishReason) -> (r: ResponseEvent)
    ensures
        r.deep_view() == finished_event(reason),
{
    let finished = StreamFinished {
        reason: Some(reason),
        conversation_usage_metadata: None,
        token_usage: Vec::new(),
        should_refresh_model_config: false,
        request_cost: None,
    };
    assert(finished.token_usage.deep_view() =~= Seq::empty());
    ResponseEvent { event_type: Some(EventType::Finished(finished)) }
}

/// The time that has passed since the Unix epoch, in whole seconds and the
/// nanoseconds beyond them, or `None` where the clock stands before the epoch.
///
/// Calls `std::time::SystemTime::elapsed` on `std::time::UNIX_EPOCH`. Of what the
/// clock shows nothing is claimed but that the nanoseconds make up less than a
/// second, which `std::time::Duration::subsec_nanos` promises.
#[verifier::external_body]
fn time_since_epoch() -> (r: Option<(u64, u32)>)
    ensures
        r matches Some(time) ==> time.1 < 1_000_000_000,
{
    match std::time::UNIX_EPOCH.elapsed() {
        Ok(time) => Some((time.as_secs(), time.subsec_nanos())),
        Err(_) => None,
    }
}

/// The point in time that lies the given seconds and nanoseconds after the Unix
/// epoch; the epoch itself where no time is given. Seconds beyond the range of
/// `i64` wrap around.
pub fn proto_timestamp(since_epoch: Option<(u64, u32)>) -> (r: Timestamp)
    ensures
        match since_epoch {
            Some((seconds, nanos)) => r.seconds == seconds as i64 && r.nanos == nanos as i32,
            None => r.seconds == 0 && r.nanos == 0,
        },
{
    match since_epoch {
        Some((seconds, nanos)) => Timestamp { seconds: seconds as i64, nanos: nanos as i32 },
        None => Timestamp { seconds: 0, nanos: 0 },
    }
}

/// The present, as far as the clock tells it.
pub fn current_proto_timestamp() -> (r: Timestamp)
    ensures
        0 <= r.nanos < 1_000_000_000,
{
    proto_timestamp(time_since_epoch())
}

/// A request to a local model.
#[derive(Debug, Clone, PartialEq)]
pub struct RequestParams {
    pub model: String,
    pub tasks: Vec<Task>,
    pub input: Vec<AIAgentInput>,
    pub conversation_token: Option<String>,
    pub api_keys: Option<ApiKeys>,
    pub ollama_url: Option<String>,
}

pub struct RequestParamsView {
    pub model: Seq<char>,
    pub tasks: Seq<TaskView>,
    pub input: Seq<AIAgentInputView>,
    pub conversation_token: Option<Seq<char>>,
    pub api_keys: Option<ApiKeysView>,
    pub ollama_url: Option<Seq<char>>,
}

impl DeepView for RequestParams {
    type V = RequestParamsView;

    open spec fn deep_view(&self) -> RequestParamsView {
        RequestParamsView {
            model: self.model@,
            tasks: self.tasks.deep_view(),
            input: self.input.deep_view(),
            conversation_token: self.conversation_token.deep_view(),
            api_keys: self.api_keys.deep_view(),
            ollama_url: self.ollama_url.deep_view(),
        }
    }
}

/// Identifiers that nothing else goes by.
#[derive(Debug, Clone, PartialEq)]
pub struct FreshIds {
    pub conversation: String,
    pub request: String,
    pub run: String,
    pub task: String,
    pub message: String,
}

pub struct FreshIdsView {
    pub conversation: Seq<char>,
    pub request: Seq<char>,
    pub run: Seq<char>,
    pub task: Seq<char>,
    pub message: Seq<char>,
}

impl DeepView for FreshIds {
    type V = FreshIdsView;

    open spec fn deep_view(&self) -> FreshIdsView {
        FreshIdsView {
            conversation: self.conversation@,
            request: self.request@,
            run: self.run@,
            task: self.task@,
            message: self.message@,
        }
    }
}

impl FreshIdsView {
    /// Each is a random UUID.
    pub open spec fn are_random_uuids(self) -> bool {
        &&& is_random_uuid(self.conversation)
        &&& is_random_uuid(self.request)
        &&& is_random_uuid(self.run)
        &&& is_random_uuid(self.task)
        &&& is_random_uuid(self.message)
    }
}

/// An exchange with a local model, ready to be run.
#[derive(Debug, Clone, PartialEq)]
pub struct ExchangePlan {
    pub conversation_id: String,
    pub request_id: String,
    pub run_id: String,
    pub model_id: String,
    pub messages: Vec<ChatMsg>,
    pub api_keys: Option<ApiKeys>,
    pub ollama_url: Option<String>,
    pub task_id: String,
    /// The task is new to the conversation.
    pub needs_create_task: bool,
    pub response_message_id: String,
}

pub struct ExchangePlanView {
    pub conversation_id: Seq<char>,
    pub request_id: Seq<char>,
    pub run_id: Seq<char>,
    pub model_id: Seq<char>,
    pub messages: Seq<ChatMsgView>,
    pub api_keys: Option<ApiKeysView>,
    pub ollama_url: Option<Seq<char>>,
    pub task_id: Seq<char>,
    pub needs_create_task: bool,
    pub response_message_id: Seq<char>,
}

impl DeepView for ExchangePlan {
    type V = ExchangePlanView;

    open spec fn deep_view(&self) -> ExchangePlanView {
        ExchangePlanView {
            conversation_id: self.conversation_id@,
            request_id: self.request_id@,
            run_id: self.run_id@,
            model_id: self.model_id@,
            messages: self.messages.deep_view(),
            api_keys: self.api_keys.deep_view(),
            ollama_url: self.ollama_url.deep_view(),
            task_id: self.task_id@,
            needs_create_task: self.needs_create_task,
            response_message_id: self.response_message_id@,
        }
    }
}

/// The id of the task that the conversation goes on in: that of its last task.
/// There is none at the start of a conversation.
pub open spec fn existing_task(tasks: Seq<TaskView>) -> Option<Seq<char>> {
    if tasks.len() > 0 && tasks.last().id.len() > 0 {
        Some(tasks.last().id)
    } else {
        None
    }
}

/// The exchange that answers a request, under the given identifiers where the
/// request does not bring its own.
pub open spec fn planned(params: RequestParamsView, ids: FreshIdsView) -> ExchangePlanView {
    ExchangePlanView {
        conversation_id: match params.conversation_token {
            Some(token) => token,
            None => ids.conversation,
        },
        request_id: ids.request,
        run_id: "local-"@ + ids.run,
        model_id: params.model,
        messages: chat_messages(SYSTEM_PROMPT@, params.tasks, params.input),
        api_keys: params.api_keys,
        ollama_url: params.ollama_url,
        task_id: match existing_task(params.tasks) {
            Some(id) => id,
            None => ids.task,
        },
        needs_create_task: existing_task(params.tasks) is None,
        response_message_id: ids.message,
    }
}

/// Prepares the exchange that answers a request, under the given identifiers.
pub fn plan_exchange(params: RequestParams, ids: FreshIds) -> (r: ExchangePlan)
    ensures
        r.deep_view() == planned(params.deep_view(), ids.deep_view()),
{
    let system_prompt = build_system_prompt();
    let messages = build_chat_messages(
        system_prompt.as_str(),
        params.tasks.as_slice(),
        params.input.as_slice(),
    );
    let conversation_id = match params.conversation_token {
        Some(token) => token,
        None => ids.conversation,
    };
    let run_id = String::from("local-").concat(ids.run.as_str());
    let count = params.tasks.len();
    assert(params.tasks.deep_view().len() == count);
    let existing = if count > 0 {
        let id = &params.tasks[count - 1].id;
        assert(params.tasks.deep_view().last().id == id@);
        if id.as_str().is_empty() {
            None
        } else {
            Some(id.clone())
        }
    } else {
        None
    };
    let (task_id, needs_create_task) = match existing {
        Some(id) => (id, false),
        None => (ids.task, true),
    };
    ExchangePlan {
        conversation_id,
        request_id: ids.request,
        run_id,
        model_id: params.model,
        messages,
        api_keys: params.api_keys,
        ollama_url: params.ollama_url,
        task_id,
        needs_create_task,
        response_message_id: ids.message,
    }
}

/// Prepares the exchange that answers a request, under fresh identifiers.
pub fn generate_local_output(params: RequestParams) -> (r: ExchangePlan)
    ensures
        exists|ids: FreshIdsView|
            ids.are_random_uuids() && r.deep_view() == #[trigger] planned(params.deep_view(), ids),
{
    let ids = FreshIds {
        conversation: new_uuid(),
        request: new_uuid(),
        run: new_uuid(),
        task: new_uuid(),
        message: new_uuid(),
    };
    assert(ids.deep_view().are_random_uuids());
    plan_exchange(params, ids)
}

} // verus!
