//! What the messages, requests and errors of the OpenRouter client hold.

use crate::openrouter_client::{
    chat_head, is_success, spoken, streaming_body, ChatMessageView, OpenRouterErrorView,
    ToolCallAccumView, ToolCallDeltaView, ToolDefView,
};
use vstd::prelude::*;

verus! {

/// A message says what it was given, in the role that it was given, and nothing
/// else.
pub proof fn a_message_says_what_it_was_given(role: Seq<char>, content: Seq<char>)
    ensures
        spoken(role, content).role == role,
        spoken(role, content).content == Some(content),
        spoken(role, content).tool_calls.len() == 0,
        spoken(role, content).tool_call_id is None,
        spoken(role, content).name is None,
{
}

/// The body of a request holds exactly what it was given: the model, every
/// message and every tool. It asks for a stream and for nothing else.
pub proof fn a_request_holds_what_it_was_given(
    model: Seq<char>,
    messages: Seq<ChatMessageView>,
    tools: Seq<ToolDefView>,
)
    ensures
        streaming_body(model, messages, tools).model == model,
        streaming_body(model, messages, tools).messages == messages,
        streaming_body(model, messages, tools).tools == tools,
        streaming_body(model, messages, tools).stream == Some(true),
        streaming_body(model, messages, tools).temperature is None,
        streaming_body(model, messages, tools).max_tokens is None,
        streaming_body(model, messages, tools).tool_choice is None,
{
}

/// A request goes below the address that it was given, carries the key that it was
/// given, and says who asks.
pub proof fn a_request_goes_where_it_is_sent(base_url: Seq<char>, api_key: Seq<char>)
    ensures
        base_url.is_prefix_of(chat_head(base_url, api_key).url),
        chat_head(base_url, api_key).url.skip(base_url.len() as int) == "/chat/completions"@,
        chat_head(base_url, api_key).bearer_token == api_key,
        chat_head(base_url, api_key).headers.len() == 2,
        chat_head(base_url, api_key).headers[0] == ("HTTP-Referer"@, "https://warp.dev"@),
        chat_head(base_url, api_key).headers[1] == ("X-Title"@, "Warp"@),
{
    let url = chat_head(base_url, api_key).url;
    assert(url.take(base_url.len() as int) =~= base_url);
    assert(url.skip(base_url.len() as int) =~= "/chat/completions"@);
}

/// Success is reported by the statuses of the two hundreds, and by no other.
pub proof fn success_is_told_by_the_two_hundreds(status: u16)
    ensures
        is_success(status) <==> status / 100 == 2,
{
}

/// What is told of an error ends in the text of the error, whole, after the words
/// that tell its kind.
pub proof fn errors_are_told_whole(text: Seq<char>)
    ensures
        OpenRouterErrorView::HttpError(text).message() == "HTTP error: "@ + text,
        OpenRouterErrorView::ServerError(text).message() == "Server error: "@ + text,
        OpenRouterErrorView::ParseError(text).message() == "Parse error: "@ + text,
        OpenRouterErrorView::MissingApiKey.message() == "Missing API key"@,
{
}

/// A tool call is complete exactly where its id and its name are known. It then
/// holds what was gathered, character for character.
pub proof fn a_complete_call_holds_what_was_gathered(accum: ToolCallAccumView)
    ensures
        accum.completed() is Some <==> accum.id is Some && accum.name is Some,
        accum.completed() matches Some(call) ==> {
            &&& accum.id == Some(call.id)
            &&& accum.name == Some(call.function.name)
            &&& call.function.arguments == accum.arguments
            &&& accum.call_type.len() > 0 ==> call.call_type == accum.call_type
            &&& accum.call_type.len() == 0 ==> call.call_type == "function"@
        },
{
}

/// A slice adds its arguments to the end of what was gathered, as they stand. An id,
/// a type or a name that is not empty takes the place of the one before; what the
/// slice does not bring stays.
pub proof fn a_slice_adds_to_what_was_gathered(accum: ToolCallAccumView, delta: ToolCallDeltaView)
    ensures
        delta.function matches Some(function) ==> {
            &&& function.arguments matches Some(arguments) ==> accum.absorbing(delta).arguments
                == accum.arguments + arguments
            &&& function.arguments is None ==> accum.absorbing(delta).arguments == accum.arguments
            &&& accum.absorbing(delta).name == (match function.name {
                Some(name) if name.len() > 0 => Some(name),
                _ => accum.name,
            })
        },
        delta.function is None ==> accum.absorbing(delta).arguments == accum.arguments
            && accum.absorbing(delta).name == accum.name,
        accum.absorbing(delta).id == match delta.id {
            Some(id) if id.len() > 0 => Some(id),
            _ => accum.id,
        },
        accum.absorbing(delta).call_type == match delta.call_type {
            Some(call_type) if call_type.len() > 0 => call_type,
            _ => accum.call_type,
        },
{
    assert(accum.arguments + Seq::<char>::empty() =~= accum.arguments);
}

} // verus!
