//! Reply generation: prompts, request bodies and the reply stream.

pub mod client;
pub mod mock;
pub mod prompt;
pub mod openai_responses;
