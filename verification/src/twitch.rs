//! Twitch chat: the Redis channels that carry chat messages, and the channel
//! and credentials the chat client connects with.

pub mod chat;
pub mod config;
