//! Plugins that come with the bot.

pub mod uuid;
