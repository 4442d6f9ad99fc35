//! The rules of an interactive scripting shell that talks to a language-model
//! service: how a conversation history becomes a chat request, how the
//! service's answer becomes the text handed back to a script, how the target
//! configuration is replaced, how tool descriptors are rendered, and how the
//! lines typed at the prompt are understood.
//!
//! Nothing here performs input or output. The program around this library
//! reads lines, sends requests and prints; it hands plain values in and gets
//! plain values back.

pub mod chat;
pub mod config;
pub mod repl;
pub mod text;
pub mod tool;
