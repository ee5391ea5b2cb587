//! Prompt orchestration for an educational assistant.
//!
//! The library turns typed educational requests into natural-language model
//! prompts, normalizes and threads caller-supplied chat history behind a fixed
//! system instruction, and parses semi-structured model output back into a
//! typed question/answer pair with a fixed sentinel fallback. It is pure text
//! processing: the model gateway and the hosting environment live outside it.

pub mod chat;
pub mod parse;
pub mod prompts;
pub mod text;
