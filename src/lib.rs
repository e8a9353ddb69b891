//! Core logic of a live-stream companion bot: chat stream framing and
//! classification, the chat session state machine with its rate-limited
//! send queue, and the notification queue with its completion barrier over
//! the connected display clients.

pub mod access_tokens;
pub mod assets;
pub mod chat;
pub mod classify;
pub mod database;
pub mod events;
pub mod frame;
pub mod notify;
pub mod route;
pub mod secrets;
pub mod session;
pub mod text;
