//! Conversation/session engine and streaming-response delivery pipeline
//! for a chat-completion API client.

pub mod error;
pub mod message;
pub mod role;
pub mod conversation;
pub mod abort;
pub mod wire;
pub mod text;
pub mod stream;
pub mod config;
pub mod dispatch;
