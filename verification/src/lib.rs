//! A client for a chat-completion service: the conversation, the request and
//! response of one completion call, the turn-taking of a session, and the
//! text shown on the console.

pub mod api;
pub mod conversation;
pub mod json;
pub mod session;
pub mod theme;
pub mod wire;
