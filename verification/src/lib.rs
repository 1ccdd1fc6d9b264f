//! A verified client library for a chat-completion HTTP API.
//!
//! The library owns everything that can be stated and proved: the request and
//! response data model, the JSON wire format for both directions, the error
//! taxonomy, and the bounded-retry control flow of a call. The actual HTTP
//! transport is left to the embedding program, which feeds each attempt's
//! outcome back into the verified state machine.

pub mod chat;
pub mod flow;
pub mod json;
pub mod num;
pub mod openai;
pub mod parse;
pub mod ser;
mod text;
pub mod urls;

pub use flow::run;
pub use openai::OpenAIClient;
