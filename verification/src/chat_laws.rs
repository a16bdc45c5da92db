//! What a model is shown of a conversation, whatever the conversation.

use crate::local_inference::{
    agent_message, chat_messages, history, turn_of, user_text, AIAgentInputView, ChatMsgView,
};
use crate::proto::{MessageContentView, MessageView, TaskView, Timestamp};
use vstd::prelude::*;

verus! {

/// A turn in which the user or the assistant says something.
pub open spec fn says_something(turn: ChatMsgView) -> bool {
    (turn.role == "user"@ || turn.role == "assistant"@) && turn.content.len() > 0
}

/// The turns that the messages of a task stand for.
spec fn turns(messages: Seq<MessageView>) -> Seq<ChatMsgView> {
    messages.filter_map(|message: MessageView| turn_of(message))
}

proof fn lemma_turns_say_something(messages: Seq<MessageView>)
    ensures
        forall|i: int|
            0 <= i < turns(messages).len() ==> says_something(#[trigger] turns(messages)[i]),
    decreases messages.len(),
{
    if messages.len() > 0 {
        let earlier = turns(messages.drop_last());
        lemma_turns_say_something(messages.drop_last());
        assert forall|i: int| 0 <= i < turns(messages).len() implies says_something(
            #[trigger] turns(messages)[i],
        ) by {
            if i < earlier.len() {
                assert(turns(messages)[i] == earlier[i]);
            }
        }
    }
}

proof fn lemma_history_says_something(tasks: Seq<TaskView>)
    ensures
        forall|i: int| 0 <= i < history(tasks).len() ==> says_something(#[trigger] history(tasks)[i]),
    decreases tasks.len(),
{
    if tasks.len() > 0 {
        lemma_history_says_something(tasks.drop_last());
        lemma_turns_say_something(tasks.last().messages);
        let earlier = history(tasks.drop_last());
        let last = turns(tasks.last().messages);
        assert forall|i: int| 0 <= i < history(tasks).len() implies says_something(
            #[trigger] history(tasks)[i],
        ) by {
            if i < earlier.len() {
                assert(history(tasks)[i] == earlier[i]);
            } else {
                assert(history(tasks)[i] == last[i - earlier.len()]);
            }
        }
    }
}

/// A model is shown the system prompt first, then only turns in which the user or
/// the assistant says something, and last what the user says now, if anything.
pub proof fn a_chat_is_a_prompt_and_turns(
    system_prompt: Seq<char>,
    tasks: Seq<TaskView>,
    input: Seq<AIAgentInputView>,
)
    ensures
        ({
            let messages = chat_messages(system_prompt, tasks, input);
            &&& messages.len() >= 1
            &&& messages[0] == (ChatMsgView { role: "system"@, content: system_prompt })
            &&& forall|i: int| 1 <= i < messages.len() ==> says_something(#[trigger] messages[i])
            &&& user_text(input).len() > 0 ==> messages.last() == (ChatMsgView {
                role: "user"@,
                content: user_text(input),
            })
        }),
{
    let messages = chat_messages(system_prompt, tasks, input);
    lemma_history_says_something(tasks);
    assert forall|i: int| 1 <= i < messages.len() implies says_something(#[trigger] messages[i]) by {
        if i <= history(tasks).len() {
            assert(messages[i] == history(tasks)[i - 1]);
        }
    }
}

/// The history of tasks is that of the earlier tasks, followed by that of the
/// later ones.
pub proof fn histories_follow_one_another(earlier: Seq<TaskView>, later: Seq<TaskView>)
    ensures
        history(earlier + later) == history(earlier) + history(later),
    decreases later.len(),
{
    if later.len() == 0 {
        assert(earlier + later =~= earlier);
        assert(history(earlier) + history(later) =~= history(earlier));
    } else {
        histories_follow_one_another(earlier, later.drop_last());
        assert((earlier + later).drop_last() =~= earlier + later.drop_last());
        assert((earlier + later).last() == later.last());
        assert(history(earlier + later) =~= history(earlier) + history(later));
    }
}

/// An answer that an exchange has written to the task of the conversation is the
/// last turn of the assistant that the next exchange shows the model.
pub proof fn an_answer_becomes_a_turn(
    tasks: Seq<TaskView>,
    message_id: Seq<char>,
    request_id: Seq<char>,
    timestamp: Option<Timestamp>,
    text: Seq<char>,
)
    requires
        tasks.len() > 0,
        text.len() > 0,
    ensures
        ({
            let task = tasks.last();
            let answer = agent_message(message_id, task.id, request_id, timestamp, text);
            let answered = TaskView { messages: task.messages.push(answer), ..task };
            history(tasks.drop_last().push(answered)) == history(tasks).push(
                ChatMsgView { role: "assistant"@, content: text },
            )
        }),
{
    let task = tasks.last();
    let answer = agent_message(message_id, task.id, request_id, timestamp, text);
    let answered = TaskView { messages: task.messages.push(answer), ..task };
    let pick = |message: MessageView| turn_of(message);
    assert(task.messages.push(answer).drop_last() =~= task.messages);
    assert(tasks.drop_last().push(answered).drop_last() =~= tasks.drop_last());
    assert(answered.messages.filter_map(pick) =~= task.messages.filter_map(pick).push(
        ChatMsgView { role: "assistant"@, content: text },
    ));
    assert(history(tasks.drop_last().push(answered)) =~= history(tasks).push(
        ChatMsgView { role: "assistant"@, content: text },
    ));
}

/// The user asks `query`.
pub open spec fn asks(input: AIAgentInputView, query: Seq<char>) -> bool {
    ||| input == AIAgentInputView::UserQuery { query }
    ||| input == AIAgentInputView::AutoCodeDiffQuery { query }
    ||| input == AIAgentInputView::CreateNewProject { query }
}

/// The user asks nothing.
pub open spec fn is_silent(input: AIAgentInputView) -> bool {
    input is Other || asks(input, Seq::empty())
}

proof fn lemma_first_query(input: Seq<AIAgentInputView>, k: int, query: Seq<char>)
    requires
        0 <= k < input.len(),
        asks(input[k], query),
        query.len() > 0,
        forall|i: int| 0 <= i < k ==> is_silent(#[trigger] input[i]),
    ensures
        user_text(input) == query,
    decreases k,
{
    if k > 0 {
        assert(is_silent(input[0]));
        assert forall|i: int| 0 <= i < k - 1 implies is_silent(#[trigger] input.skip(1)[i]) by {
            assert(input.skip(1)[i] == input[i + 1]);
        }
        lemma_first_query(input.skip(1), k - 1, query);
    }
}

proof fn lemma_no_query(input: Seq<AIAgentInputView>)
    requires
        forall|i: int| 0 <= i < input.len() ==> is_silent(#[trigger] input[i]),
    ensures
        user_text(input).len() == 0,
    decreases input.len(),
{
    if input.len() > 0 {
        assert(is_silent(input[0]));
        assert forall|i: int| 0 <= i < input.skip(1).len() implies is_silent(
            #[trigger] input.skip(1)[i],
        ) by {
            assert(input.skip(1)[i] == input[i + 1]);
        }
        lemma_no_query(input.skip(1));
    }
}

/// The first thing that the user asks is the last message of the chat, to the last
/// character; it comes right after the conversation so far.
pub proof fn the_query_of_the_user_comes_last_and_whole(
    system_prompt: Seq<char>,
    tasks: Seq<TaskView>,
    input: Seq<AIAgentInputView>,
    k: int,
    query: Seq<char>,
)
    requires
        0 <= k < input.len(),
        asks(input[k], query),
        query.len() > 0,
        forall|i: int| 0 <= i < k ==> is_silent(#[trigger] input[i]),
    ensures
        chat_messages(system_prompt, tasks, input).last() == (ChatMsgView {
            role: "user"@,
            content: query,
        }),
        chat_messages(system_prompt, tasks, input).drop_last() == seq![
            ChatMsgView { role: "system"@, content: system_prompt },
        ] + history(tasks),
{
    lemma_first_query(input, k, query);
    let messages = chat_messages(system_prompt, tasks, input);
    assert(messages.drop_last() =~= seq![ChatMsgView { role: "system"@, content: system_prompt }]
        + history(tasks));
}

/// Where the user asks nothing, the chat is the prompt and the conversation so far.
pub proof fn a_silent_user_adds_nothing(
    system_prompt: Seq<char>,
    tasks: Seq<TaskView>,
    input: Seq<AIAgentInputView>,
)
    requires
        forall|i: int| 0 <= i < input.len() ==> is_silent(#[trigger] input[i]),
    ensures
        chat_messages(system_prompt, tasks, input) == seq![
            ChatMsgView { role: "system"@, content: system_prompt },
        ] + history(tasks),
{
    lemma_no_query(input);
    assert(chat_messages(system_prompt, tasks, input) =~= seq![
        ChatMsgView { role: "system"@, content: system_prompt },
    ] + history(tasks));
}

/// What the messages of a task say, each to the last character: the queries of the
/// user and the answers of the agent that are not empty.
pub open spec fn said_in(messages: Seq<MessageView>) -> Seq<ChatMsgView>
    decreases messages.len(),
{
    if messages.len() == 0 {
        Seq::empty()
    } else {
        said_in(messages.drop_last()) + match messages.last().message {
            Some(MessageContentView::UserQuery { query }) if query.len() > 0 => seq![
                ChatMsgView { role: "user"@, content: query },
            ],
            Some(MessageContentView::AgentOutput { text }) if text.len() > 0 => seq![
                ChatMsgView { role: "assistant"@, content: text },
            ],
            _ => Seq::empty(),
        }
    }
}

proof fn lemma_turns_are_said(messages: Seq<MessageView>)
    ensures
        turns(messages) == said_in(messages),
    decreases messages.len(),
{
    if messages.len() > 0 {
        lemma_turns_are_said(messages.drop_last());
        assert(turns(messages) =~= said_in(messages));
    }
}

/// The history of a further task is what its messages say, in their order.
pub proof fn a_history_is_what_was_said(tasks: Seq<TaskView>, task: TaskView)
    ensures
        history(Seq::empty()) == Seq::<ChatMsgView>::empty(),
        history(tasks.push(task)) == history(tasks) + said_in(task.messages),
{
    lemma_turns_are_said(task.messages);
    assert(tasks.push(task).drop_last() =~= tasks);
}

} // verus!
