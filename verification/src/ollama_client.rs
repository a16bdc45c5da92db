//! The messages of the Ollama chat protocol.

use crate::json::{Json, JsonView};
use vstd::prelude::*;

verus! {

/// A chat message.
#[derive(Debug, Clone, PartialEq)]
pub struct ChatMessage {
    pub role: String,
    pub content: String,
}

pub struct ChatMessageView {
    pub role: Seq<char>,
    pub content: Seq<char>,
}

impl DeepView for ChatMessage {
    type V = ChatMessageView;

    open spec fn deep_view(&self) -> ChatMessageView {
        ChatMessageView { role: self.role@, content: self.content@ }
    }
}

/// A function that the model may call.
#[derive(Debug, Clone, PartialEq)]
pub struct FunctionDef {
    pub name: String,
    pub description: String,
    /// The JSON schema of the arguments.
    pub parameters: Json,
}

pub struct FunctionDefView {
    pub name: Seq<char>,
    pub description: Seq<char>,
    pub parameters: JsonView,
}

impl DeepView for FunctionDef {
    type V = FunctionDefView;

    open spec fn deep_view(&self) -> FunctionDefView {
        FunctionDefView {
            name: self.name@,
            description: self.description@,
            parameters: self.parameters@,
        }
    }
}

/// A tool that the model is offered.
#[derive(Debug, Clone, PartialEq)]
pub struct ToolDef {
    pub tool_type: String,
    pub function: FunctionDef,
}

pub struct ToolDefView {
    pub tool_type: Seq<char>,
    pub function: FunctionDefView,
}

impl DeepView for ToolDef {
    type V = ToolDefView;

    open spec fn deep_view(&self) -> ToolDefView {
        ToolDefView { tool_type: self.tool_type@, function: self.function.deep_view() }
    }
}

/// One chunk of a streamed answer.
#[derive(Debug, Clone, PartialEq)]
pub enum StreamChunk {
    /// More of the answer.
    Partial { message: ChatMessage },
    /// The answer is complete.
    Complete,
}

pub enum StreamChunkView {
    Partial { message: ChatMessageView },
    Complete,
}

impl DeepView for StreamChunk {
    type V = StreamChunkView;

    open spec fn deep_view(&self) -> StreamChunkView {
        match self {
            StreamChunk::Partial { message } => StreamChunkView::Partial {
                message: message.deep_view(),
            },
            StreamChunk::Complete => StreamChunkView::Complete,
        }
    }
}

} // verus!
