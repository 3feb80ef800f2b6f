//! A personal watch-later bot for Telegram, as a verified library.
//!
//! Users send links or text; the bot stores each as a [`ContentItem`] under a
//! [`Key`], and later hands back a random unread item, all unread items, or
//! the items one user submitted. Items are marked read once consumed.
//!
//! The library holds the rules: the item record, the key-value store
//! contract with its in-memory backend, the callback and command grammar,
//! the Markdown escaping, and the handlers, which turn an incoming event
//! into a list of [`Action`]s for the caller to carry out.

pub mod bot;
pub mod config;
pub mod content_item;
pub mod listeners;
pub mod messages;
pub mod storage;
pub mod text;
