//! A chat room: a registry of users with unique names, the handling of
//! the protocol messages that clients send, and the client-side decisions
//! of what to send and what to show.
pub mod protocol;
pub mod users;
pub mod messages;
pub mod server;
pub mod text;
pub mod client;
