//! A chat-bot shell for Matrix: an ordered chain of message plugins, a
//! controller that accepts invitations and retries with growing delays, and
//! the bot that puts an event of the sync stream before the right one of the
//! two. The library decides; sending, joining and sleeping are its caller's.

pub mod autojoin;
pub mod bot;
pub mod chain;
pub mod config;
pub mod event;
pub mod greeting;
pub mod handler;
pub mod plugins;

pub use bot::MatrixBot;
pub use greeting::hello_world;
