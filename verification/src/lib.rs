//! Core logic of the Edith voice assistant: permission guard, conversation
//! memory, tool registry, the assistant's decision loop, the Ollama message
//! format, the built-in and web tools, and the voice helpers' text protocols.

pub mod security;
pub mod brain;
pub mod config;
pub mod conversation;
pub mod assistant;
pub mod json;
pub mod tools;
pub mod text;
pub mod voice;
