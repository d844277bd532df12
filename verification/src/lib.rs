pub mod chat_service;
pub mod config;
pub mod redisclient;
pub mod string_map;
pub mod twitch;
