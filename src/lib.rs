//! Commit-message and pull-request text generation around a language model:
//! configuration, prompt construction, provider selection and reply parsing.

pub mod config;
pub mod text;
pub mod suggestions;
pub mod prompt;
pub mod llm;
pub mod git;
pub mod commands;
