//! Where a model is reached, what an exchange is planned to be, and what its events
//! hold.

use crate::local_inference::{
    agent_message, answer_update, append_update, appended, chat_messages, create_update, existing_task,
    finished_event, init_event, names_local_model, planned, routed, wrapped, ApiKeysView,
    ChatMsgView, FreshIdsView, LocalInferenceErrorView, ModelRouteView, RequestParamsView,
    SYSTEM_PROMPT,
};
use crate::proto::{
    ActionView, AddMessagesToTaskView, EventTypeView, FinishReason, MessageContentView,
    MessageView, ResponseEventView, TaskView, Timestamp,
};
use vstd::prelude::*;

verus! {

proof fn lemma_prefixed(prefix: Seq<char>, name: Seq<char>)
    ensures
        prefix.is_prefix_of(prefix + name),
        (prefix + name).skip(prefix.len() as int) == name,
{
    assert((prefix + name).take(prefix.len() as int) =~= prefix);
    assert((prefix + name).skip(prefix.len() as int) =~= name);
}

/// A model that Ollama serves is local, whatever its name, and so is one that
/// OpenRouter serves; a model whose id begins otherwise is not.
pub proof fn a_model_is_local_by_its_prefix(name: Seq<char>, model_id: Seq<char>)
    ensures
        names_local_model("ollama:"@ + name),
        names_local_model("openrouter:"@ + name),
        names_local_model(model_id) ==> (exists|rest: Seq<char>|
            model_id == #[trigger] ("ollama:"@ + rest)) || (exists|rest: Seq<char>|
            model_id == #[trigger] ("openrouter:"@ + rest)),
{
    lemma_prefixed("ollama:"@, name);
    lemma_prefixed("openrouter:"@, name);
    if "ollama:"@.is_prefix_of(model_id) {
        let rest = model_id.skip("ollama:"@.len() as int);
        assert(model_id =~= "ollama:"@ + rest);
    } else if "openrouter:"@.is_prefix_of(model_id) {
        let rest = model_id.skip("openrouter:"@.len() as int);
        assert(model_id =~= "openrouter:"@ + rest);
    }
}

/// A model of Ollama is asked for by its own name, with every message as it stands,
/// at the address that is configured, or at the usual one where none is.
pub proof fn ollama_is_asked_for_the_model_by_its_name(
    name: Seq<char>,
    messages: Seq<ChatMsgView>,
    api_keys: Option<ApiKeysView>,
    url: Seq<char>,
    usual: Seq<char>,
)
    ensures
        ({
            let configured = routed("ollama:"@ + name, messages, api_keys, Some(url), usual);
            let unconfigured = routed("ollama:"@ + name, messages, api_keys, None, usual);
            &&& configured matches Ok(ModelRouteView::Ollama { url: to, model, messages: asked })
            &&& to == (if url.len() > 0 {
                url
            } else {
                usual
            })
            &&& model == name
            &&& asked.len() == messages.len()
            &&& forall|i: int|
                0 <= i < messages.len() ==> (#[trigger] asked[i]).role == messages[i].role
                    && asked[i].content == messages[i].content
            &&& unconfigured matches Ok(
                ModelRouteView::Ollama { url: other, model: same, messages: likewise },
            )
            &&& other == usual
            &&& same == name
            &&& likewise == asked
        }),
{
    lemma_prefixed("ollama:"@, name);
}

/// A model of OpenRouter is asked for by its own name, with every message as it
/// stands and the key that is configured. Without a key it is not asked.
pub proof fn openrouter_is_asked_for_the_model_by_its_name(
    name: Seq<char>,
    messages: Seq<ChatMsgView>,
    key: Seq<char>,
    ollama_url: Option<Seq<char>>,
    usual: Seq<char>,
)
    ensures
        ({
            let id = "openrouter:"@ + name;
            let route = routed(
                id,
                messages,
                Some(ApiKeysView { open_router: key }),
                ollama_url,
                usual,
            );
            &&& key.len() > 0 ==> {
                &&& route matches Ok(
                    ModelRouteView::OpenRouter { api_key, model, messages: asked },
                )
                &&& api_key == key
                &&& model == name
                &&& asked.len() == messages.len()
                &&& forall|i: int|
                    0 <= i < messages.len() ==> (#[trigger] asked[i]).role == messages[i].role
                        && asked[i].content == Some(messages[i].content)
                        && asked[i].tool_calls.len() == 0 && asked[i].tool_call_id is None
                        && asked[i].name is None
            }
            &&& key.len() == 0 ==> route == Err::<ModelRouteView, LocalInferenceErrorView>(
                LocalInferenceErrorView::MissingOpenRouterKey,
            )
            &&& routed(id, messages, None, ollama_url, usual) == Err::<
                ModelRouteView,
                LocalInferenceErrorView,
            >(LocalInferenceErrorView::MissingOpenRouterKey)
        }),
{
    lemma_prefixed("openrouter:"@, name);
    reveal_strlit("ollama:");
    reveal_strlit("openrouter:");
    let id = "openrouter:"@ + name;
    if "ollama:"@.is_prefix_of(id) {
        assert("ollama:"@[1] == id[1]);
    }
}

/// What is told of an error ends in the text of the error, whole, after the words
/// that tell its kind.
pub proof fn errors_of_an_exchange_are_told_whole(text: Seq<char>)
    ensures
        LocalInferenceErrorView::ReceiverDropped.message() == "receiver dropped"@,
        LocalInferenceErrorView::MissingOpenRouterKey.message()
            == "OpenRouter API key not configured"@,
        LocalInferenceErrorView::UnknownModel(text).message() == "unknown local model id: "@ + text,
        LocalInferenceErrorView::Client(text).message() == text,
        LocalInferenceErrorView::OllamaStream(text).message() == "ollama stream error: "@ + text,
        LocalInferenceErrorView::OpenRouterStream(text).message() == "openrouter stream error: "@
            + text,
{
}

/// An update holds the actions that it was given, all of them and in their order.
pub proof fn an_update_holds_its_actions(actions: Seq<ActionView>)
    ensures
        wrapped(actions).event_type matches Some(EventTypeView::ClientActions { actions: held })
            && held.len() == actions.len() && forall|i: int|
            0 <= i < actions.len() ==> (#[trigger] held[i]).action == Some(actions[i]),
{
}

/// The one action of an update.
pub open spec fn sole_action(event: ResponseEventView, action: ActionView) -> bool {
    event.event_type matches Some(EventTypeView::ClientActions { actions }) && actions.len() == 1
        && actions[0].action == Some(action)
}

/// Text is appended as it stands, to the output of the agent in the message and the
/// task that are meant, and nothing else of the message is touched.
pub proof fn text_is_appended_as_it_stands(
    task_id: Seq<char>,
    message_id: Seq<char>,
    chunk: Seq<char>,
)
    ensures
        sole_action(
            append_update(task_id, message_id, chunk),
            ActionView::AppendToMessageContent(appended(task_id, message_id, chunk)),
        ),
        appended(task_id, message_id, chunk).task_id == task_id,
        appended(task_id, message_id, chunk).message matches Some(message) && message.id
            == message_id && message.task_id == task_id && message.message == Some(
            MessageContentView::AgentOutput { text: chunk },
        ) && message.request_id.len() == 0 && message.timestamp is None
            && message.server_message_data.len() == 0 && message.citations.len() == 0,
        appended(task_id, message_id, chunk).mask matches Some(mask) && mask.paths.len() == 1
            && mask.paths[0] == "agent_output.text"@,
{
}

/// A task is created empty, under the id that it was given.
pub proof fn a_task_is_created_empty(task_id: Seq<char>)
    ensures
        sole_action(
            create_update(task_id),
            ActionView::CreateTask {
                task: Some(
                    TaskView {
                        id: task_id,
                        description: Seq::empty(),
                        dependencies: None,
                        messages: Seq::empty(),
                        summary: Seq::empty(),
                        server_data: Seq::empty(),
                    },
                ),
            },
        ),
{
}

/// The answer is added to its task empty, under the ids that it was given and at
/// the time that it was given.
pub proof fn an_answer_is_added_empty(
    task_id: Seq<char>,
    message_id: Seq<char>,
    request_id: Seq<char>,
    timestamp: Timestamp,
)
    ensures
        sole_action(
            answer_update(task_id, message_id, request_id, timestamp),
            ActionView::AddMessagesToTask(
                AddMessagesToTaskView {
                    task_id,
                    messages: seq![
                        MessageView {
                            id: message_id,
                            task_id,
                            request_id,
                            timestamp: Some(timestamp),
                            server_message_data: Seq::empty(),
                            citations: Seq::empty(),
                            message: Some(
                                MessageContentView::AgentOutput { text: Seq::empty() },
                            ),
                        },
                    ],
                },
            ),
        ),
{
}

/// The stream is opened under the ids that it was given, and closed for the reason
/// that it was given.
pub proof fn a_stream_is_opened_and_closed_as_given(
    conversation_id: Seq<char>,
    request_id: Seq<char>,
    run_id: Seq<char>,
    reason: FinishReason,
)
    ensures
        init_event(conversation_id, request_id, run_id).event_type matches Some(
            EventTypeView::Init(init),
        ) && init.conversation_id == conversation_id && init.request_id == request_id
            && init.run_id == run_id,
        finished_event(reason).event_type matches Some(EventTypeView::Finished(finished))
            && finished.reason == Some(reason) && finished.conversation_usage_metadata is None
            && finished.token_usage.len() == 0 && !finished.should_refresh_model_config
            && finished.request_cost is None,
{
}

/// A message of the agent says what it was given, under the ids that it was given.
pub proof fn the_agent_says_what_it_was_given(
    message_id: Seq<char>,
    task_id: Seq<char>,
    request_id: Seq<char>,
    timestamp: Option<Timestamp>,
    text: Seq<char>,
)
    ensures
        ({
            let message = agent_message(message_id, task_id, request_id, timestamp, text);
            &&& message.id == message_id
            &&& message.task_id == task_id
            &&& message.request_id == request_id
            &&& message.timestamp == timestamp
            &&& message.message == Some(MessageContentView::AgentOutput { text })
        }),
{
}

/// A conversation goes on in its last task, if that has an id.
pub proof fn a_conversation_goes_on_in_its_last_task(tasks: Seq<TaskView>, task: TaskView)
    ensures
        existing_task(Seq::empty()) is None,
        task.id.len() > 0 ==> existing_task(tasks.push(task)) == Some(task.id),
        task.id.len() == 0 ==> existing_task(tasks.push(task)) is None,
{
    assert(tasks.push(task).last() == task);
}

/// An exchange keeps what the request brings: the model, the keys, the address and,
/// where they are there, the conversation and the task. Every other identifier is a
/// fresh one, each used for one thing.
pub proof fn a_plan_keeps_what_the_request_brings(params: RequestParamsView, ids: FreshIdsView)
    ensures
        planned(params, ids).model_id == params.model,
        planned(params, ids).api_keys == params.api_keys,
        planned(params, ids).ollama_url == params.ollama_url,
        params.conversation_token matches Some(token) ==> planned(params, ids).conversation_id
            == token,
        params.conversation_token is None ==> planned(params, ids).conversation_id
            == ids.conversation,
        planned(params, ids).request_id == ids.request,
        planned(params, ids).run_id == "local-"@ + ids.run,
        planned(params, ids).response_message_id == ids.message,
        planned(params, ids).messages == chat_messages(SYSTEM_PROMPT@, params.tasks, params.input),
        ({
            let goes_on = params.tasks.len() > 0 && params.tasks.last().id.len() > 0;
            &&& goes_on ==> planned(params, ids).task_id == params.tasks.last().id
            &&& !goes_on ==> planned(params, ids).task_id == ids.task
            &&& planned(params, ids).needs_create_task == !goes_on
        }),
{
}

} // verus!
