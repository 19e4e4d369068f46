//! Core logic of a chat-bot front end that relays user messages to a hosted
//! language model: a session-state resolver driven by two expiring store keys,
//! a prompt catalog, a rolling chat-history buffer, a reply chunker, and the
//! decision logic of the input assembler and the command handler.

pub mod assembler;
pub mod catalog;
pub mod commands;
pub mod chunker;
pub mod history;
pub mod session;
pub mod text;
pub mod topic;
