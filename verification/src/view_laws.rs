//! The models that contracts speak of hold what the values hold: no field is left
//! out, and no text is changed.

use crate::json::{Json, JsonView};
use crate::local_inference::{
    AIAgentInput, AIAgentInputView, ChatMsg, ExchangePlan, FreshIds, LocalInferenceError,
    LocalInferenceErrorView, RequestParams,
};
use crate::local_run::{ModelChunk, ModelChunkView, RunInput, RunInputView};
use crate::ollama_client::{self, StreamChunk, StreamChunkView};
use crate::openrouter_client::{
    ChatCompletionChunk, ChatMessage, FunctionDef, OpenRouterError, OpenRouterErrorView,
    StreamChoice, StreamDelta, StreamEvent, StreamEventView, ToolCall, ToolCallAccum,
    ToolCallDelta, ToolDef,
};
use crate::proto::{
    ApplyFileDiffs, FileGlobV2, Grep, Message, MessageContent, MessageContentView, ReadFiles,
    RunShellCommand, Task, Tool, ToolView,
};
use vstd::prelude::*;

verus! {

/// The text that may be there is the same in both.
pub open spec fn same_text(value: Option<String>, model: Option<Seq<char>>) -> bool {
    match (value, model) {
        (Some(text), Some(characters)) => text@ == characters,
        (None, None) => true,
        _ => false,
    }
}

/// Each text of the list is the same in both.
pub open spec fn same_texts(values: Seq<String>, models: Seq<Seq<char>>) -> bool {
    values.len() == models.len() && forall|i: int|
        0 <= i < values.len() ==> (#[trigger] values[i])@ == models[i]
}

/// What the user asks is kept to the last character.
pub proof fn inputs_are_kept(input: AIAgentInput)
    ensures
        input.deep_view() == match input {
            AIAgentInput::UserQuery { query } => AIAgentInputView::UserQuery { query: query@ },
            AIAgentInput::AutoCodeDiffQuery { query } => AIAgentInputView::AutoCodeDiffQuery {
                query: query@,
            },
            AIAgentInput::CreateNewProject { query } => AIAgentInputView::CreateNewProject {
                query: query@,
            },
            AIAgentInput::Other => AIAgentInputView::Other,
        },
{
}

/// What the messages of a task say is kept to the last character.
pub proof fn tasks_are_kept(task: Task, message: Message)
    ensures
        task.deep_view().id == task.id@,
        task.deep_view().messages.len() == task.messages@.len(),
        forall|i: int|
            0 <= i < task.messages@.len() ==> #[trigger] task.deep_view().messages[i]
                == task.messages@[i].deep_view(),
        message.deep_view().id == message.id@,
        message.deep_view().task_id == message.task_id@,
        message.deep_view().request_id == message.request_id@,
        message.deep_view().timestamp == message.timestamp,
        message.deep_view().message == match message.message {
            Some(MessageContent::UserQuery { query }) => Some(
                MessageContentView::UserQuery { query: query@ },
            ),
            Some(MessageContent::AgentOutput { text }) => Some(
                MessageContentView::AgentOutput { text: text@ },
            ),
            Some(MessageContent::Other) => Some(MessageContentView::Other),
            None => None,
        },
{
}

/// What a request brings is kept.
pub proof fn requests_are_kept(params: RequestParams, ids: FreshIds)
    ensures
        params.deep_view().model == params.model@,
        params.deep_view().tasks.len() == params.tasks@.len(),
        forall|i: int|
            0 <= i < params.tasks@.len() ==> #[trigger] params.deep_view().tasks[i]
                == params.tasks@[i].deep_view(),
        params.deep_view().input.len() == params.input@.len(),
        forall|i: int|
            0 <= i < params.input@.len() ==> #[trigger] params.deep_view().input[i]
                == params.input@[i].deep_view(),
        same_text(params.conversation_token, params.deep_view().conversation_token),
        same_text(params.ollama_url, params.deep_view().ollama_url),
        match (params.api_keys, params.deep_view().api_keys) {
            (Some(keys), Some(model)) => model.open_router == keys.open_router@,
            (None, None) => true,
            _ => false,
        },
        ids.deep_view().conversation == ids.conversation@,
        ids.deep_view().request == ids.request@,
        ids.deep_view().run == ids.run@,
        ids.deep_view().task == ids.task@,
        ids.deep_view().message == ids.message@,
{
}

/// A plan is kept.
pub proof fn plans_are_kept(plan: ExchangePlan, message: ChatMsg)
    ensures
        plan.deep_view().conversation_id == plan.conversation_id@,
        plan.deep_view().request_id == plan.request_id@,
        plan.deep_view().run_id == plan.run_id@,
        plan.deep_view().model_id == plan.model_id@,
        plan.deep_view().messages.len() == plan.messages@.len(),
        forall|i: int|
            0 <= i < plan.messages@.len() ==> #[trigger] plan.deep_view().messages[i]
                == plan.messages@[i].deep_view(),
        same_text(plan.ollama_url, plan.deep_view().ollama_url),
        match (plan.api_keys, plan.deep_view().api_keys) {
            (Some(keys), Some(model)) => model.open_router == keys.open_router@,
            (None, None) => true,
            _ => false,
        },
        plan.deep_view().task_id == plan.task_id@,
        plan.deep_view().needs_create_task == plan.needs_create_task,
        plan.deep_view().response_message_id == plan.response_message_id@,
        message.deep_view().role == message.role@,
        message.deep_view().content == message.content@,
{
}

/// What a model hands over is kept to the last character.
pub proof fn chunks_of_an_answer_are_kept(
    chunk: ModelChunk,
    event: StreamEvent,
    partial: StreamChunk,
    message: ollama_client::ChatMessage,
)
    ensures
        chunk.deep_view() == match chunk {
            ModelChunk::Ollama(Ok(partial)) => ModelChunkView::Ollama(Ok(partial.deep_view())),
            ModelChunk::Ollama(Err(text)) => ModelChunkView::Ollama(Err(text@)),
            ModelChunk::OpenRouter(Ok(event)) => ModelChunkView::OpenRouter(Ok(event.deep_view())),
            ModelChunk::OpenRouter(Err(error)) => ModelChunkView::OpenRouter(
                Err(error.deep_view()),
            ),
        },
        event matches StreamEvent::TextDelta(text) ==> event.deep_view()
            == StreamEventView::TextDelta(text@),
        event matches StreamEvent::ToolCallComplete(call) ==> event.deep_view()
            == StreamEventView::ToolCallComplete(call.deep_view()),
        partial matches StreamChunk::Partial { message } ==> partial.deep_view()
            == (StreamChunkView::Partial { message: message.deep_view() }),
        partial is Complete ==> partial.deep_view() is Complete,
        message.deep_view().role == message.role@,
        message.deep_view().content == message.content@,
{
}

/// What a driver reports is kept.
pub proof fn reports_are_kept(input: RunInput)
    ensures
        input.deep_view() == match input {
            RunInput::Start => RunInputView::Start,
            RunInput::Sent(taken) => RunInputView::Sent(taken),
            RunInput::Clock(time) => RunInputView::Clock(time),
            RunInput::Opened(Ok(_)) => RunInputView::Opened(Ok(())),
            RunInput::Opened(Err(text)) => RunInputView::Opened(Err(text@)),
            RunInput::Chunk { cancelled, chunk } => RunInputView::Chunk {
                cancelled,
                chunk: chunk.deep_view(),
            },
            RunInput::EndOfStream => RunInputView::EndOfStream,
        },
{
}

/// The text of an error is kept to the last character.
pub proof fn errors_are_kept(error: OpenRouterError, local: LocalInferenceError)
    ensures
        error.deep_view() == match error {
            OpenRouterError::HttpError(text) => OpenRouterErrorView::HttpError(text@),
            OpenRouterError::ServerError(text) => OpenRouterErrorView::ServerError(text@),
            OpenRouterError::ParseError(text) => OpenRouterErrorView::ParseError(text@),
            OpenRouterError::MissingApiKey => OpenRouterErrorView::MissingApiKey,
        },
        local.deep_view() == match local {
            LocalInferenceError::ReceiverDropped => LocalInferenceErrorView::ReceiverDropped,
            LocalInferenceError::MissingOpenRouterKey => {
                LocalInferenceErrorView::MissingOpenRouterKey
            },
            LocalInferenceError::UnknownModel(id) => LocalInferenceErrorView::UnknownModel(id@),
            LocalInferenceError::Client(text) => LocalInferenceErrorView::Client(text@),
            LocalInferenceError::OllamaStream(text) => LocalInferenceErrorView::OllamaStream(text@),
            LocalInferenceError::OpenRouterStream(text) => {
                LocalInferenceErrorView::OpenRouterStream(text@)
            },
        },
{
}

/// What a chunk of a stream brings is kept: every choice, every slice and every text.
pub proof fn chunks_of_a_stream_are_kept(
    chunk: ChatCompletionChunk,
    choice: StreamChoice,
    delta: StreamDelta,
    slice: ToolCallDelta,
)
    ensures
        chunk.deep_view().choices.len() == chunk.choices@.len(),
        forall|i: int|
            0 <= i < chunk.choices@.len() ==> #[trigger] chunk.deep_view().choices[i]
                == chunk.choices@[i].deep_view(),
        choice.deep_view().delta == choice.delta.deep_view(),
        same_text(choice.finish_reason, choice.deep_view().finish_reason),
        same_text(delta.content, delta.deep_view().content),
        delta.deep_view().tool_calls.len() == delta.tool_calls@.len(),
        forall|i: int|
            0 <= i < delta.tool_calls@.len() ==> #[trigger] delta.deep_view().tool_calls[i]
                == delta.tool_calls@[i].deep_view(),
        slice.deep_view().index == slice.index,
        same_text(slice.id, slice.deep_view().id),
        same_text(slice.call_type, slice.deep_view().call_type),
        match (slice.function, slice.deep_view().function) {
            (Some(function), Some(model)) => same_text(function.name, model.name) && same_text(
                function.arguments,
                model.arguments,
            ),
            (None, None) => true,
            _ => false,
        },
{
}

/// A tool call of a model is kept.
pub proof fn calls_are_kept(call: ToolCall, accum: ToolCallAccum)
    ensures
        call.deep_view().id == call.id@,
        call.deep_view().call_type == call.call_type@,
        call.deep_view().function.name == call.function.name@,
        call.deep_view().function.arguments == call.function.arguments@,
        same_text(accum.id, accum.deep_view().id),
        same_text(accum.name, accum.deep_view().name),
        accum.deep_view().call_type == accum.call_type@,
        accum.deep_view().arguments == accum.arguments@,
{
}

/// A message and a tool that a model is sent are kept.
pub proof fn messages_and_tools_are_kept(message: ChatMessage, tool: ToolDef, function: FunctionDef)
    ensures
        message.deep_view().role == message.role@,
        same_text(message.content, message.deep_view().content),
        same_text(message.tool_call_id, message.deep_view().tool_call_id),
        same_text(message.name, message.deep_view().name),
        message.deep_view().tool_calls.len() == message.tool_calls@.len(),
        forall|i: int|
            0 <= i < message.tool_calls@.len() ==> #[trigger] message.deep_view().tool_calls[i]
                == message.tool_calls@[i].deep_view(),
        tool.deep_view().tool_type == tool.tool_type@,
        tool.deep_view().function == tool.function.deep_view(),
        function.deep_view().name == function.name@,
        function.deep_view().description == function.description@,
        function.deep_view().parameters == function.parameters@,
{
}

/// What a tool call asks for is kept.
pub proof fn tools_are_kept(
    tool: Tool,
    command: RunShellCommand,
    read: ReadFiles,
    grep: Grep,
    glob: FileGlobV2,
    change: ApplyFileDiffs,
)
    ensures
        tool.deep_view() == match tool {
            Tool::RunShellCommand(command) => ToolView::RunShellCommand(command.deep_view()),
            Tool::ReadFiles(files) => ToolView::ReadFiles(files.deep_view()),
            Tool::Grep(grep) => ToolView::Grep(grep.deep_view()),
            Tool::FileGlobV2(glob) => ToolView::FileGlobV2(glob.deep_view()),
            Tool::ApplyFileDiffs(change) => ToolView::ApplyFileDiffs(change.deep_view()),
            Tool::Other => ToolView::Other,
        },
        command.deep_view().command == command.command@,
        read.deep_view().files.len() == read.files@.len(),
        forall|i: int|
            0 <= i < read.files@.len() ==> (#[trigger] read.deep_view().files[i]).name
                == read.files@[i].name@,
        same_texts(grep.queries@, grep.deep_view().queries),
        grep.deep_view().path == grep.path@,
        same_texts(glob.patterns@, glob.deep_view().patterns),
        glob.deep_view().search_dir == glob.search_dir@,
        change.deep_view().summary == change.summary@,
        change.deep_view().new_files.len() == change.new_files@.len(),
        change.deep_view().diffs.len() == change.diffs@.len(),
        change.deep_view().deleted_files.len() == change.deleted_files@.len(),
{
}

/// A JSON value is kept: every item, every member and every text.
pub proof fn values_are_kept(value: Json)
    ensures
        value is Null ==> value@ is Null,
        value matches Json::Bool(b) ==> value@ == JsonView::Bool(b),
        value matches Json::Number(digits) ==> value@ == JsonView::Number(digits@),
        value matches Json::Text(text) ==> value@ == JsonView::Text(text@),
        value is Array ==> value@ is Array && value@->Array_0.len() == value->Array_0@.len(),
        value is Array ==> forall|i: int|
            0 <= i < value->Array_0@.len() ==> #[trigger] value@->Array_0[i]
                == value->Array_0@[i]@,
        value is Object ==> value@ is Object && value@->Object_0.len() == value->Object_0@.len(),
        value is Object ==> forall|i: int|
            0 <= i < value->Object_0@.len() ==> (#[trigger] value@->Object_0[i]).0
                == value->Object_0@[i].0@ && value@->Object_0[i].1 == value->Object_0@[i].1@,
{
}

} // verus!
