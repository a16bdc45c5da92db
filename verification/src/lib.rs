//! Local inference for a terminal agent: the rules by which a request for a
//! locally routed model is turned into chat messages, a model stream is turned
//! into task updates, and the tool calls of a model are understood.

pub mod call_laws;
pub mod chat_laws;
pub mod client_laws;
pub mod ids;
pub mod inference_laws;
pub mod json;
pub mod local_inference;
pub mod local_run;
pub mod local_tools;
pub mod ollama_client;
pub mod openrouter_client;
pub mod openrouter_stream;
pub mod proto;
pub mod run_laws;
pub mod stream_laws;
pub mod text;
pub mod text_laws;
pub mod tool_laws;
pub mod tool_schemas;
pub mod understanding_laws;
pub mod view_laws;
