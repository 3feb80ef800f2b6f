//! What the bot is told at start: where to store and how to listen.

use std::ops::Deref;
use std::sync::Arc;
use vstd::prelude::*;

verus! {

/// Available storage types
#[derive(Debug, Clone, Copy, PartialEq, Eq)]
pub enum StorageKind {
    InMemory,
    Redis,
}

/// Bot listening modes
#[derive(Debug, Clone, Copy, PartialEq, Eq)]
pub enum BotMode {
    Polling,
    Webhook,
}

/// The settings, as read.
#[derive(Debug)]
pub struct ConfigInner {
    pub storage: StorageKind,
    pub bot_mode: BotMode,
    pub redis_url: Option<String>,
    /// The address that the webhook server binds to.
    pub bind_to: Option<String>,
    /// The address under which Telegram reaches the webhook.
    pub webhook_url: Option<String>,
}

impl Clone for ConfigInner {
    fn clone(&self) -> (res: Self)
        ensures
            res.storage == self.storage,
            res.bot_mode == self.bot_mode,
            res.redis_url == self.redis_url,
            res.bind_to == self.bind_to,
            res.webhook_url == self.webhook_url,
    {
        ConfigInner {
            storage: self.storage,
            bot_mode: self.bot_mode,
            redis_url: self.redis_url.clone(),
            bind_to: self.bind_to.clone(),
            webhook_url: self.webhook_url.clone(),
        }
    }
}

/// The settings, shared by all who read them.
#[derive(Debug)]
pub struct Config(Arc<ConfigInner>);

impl Config {
    /// The settings inside.
    pub closed spec fn inner(&self) -> ConfigInner {
        *self.0
    }

    /// Wraps settings for sharing.
    pub fn new(inner: ConfigInner) -> (config: Self)
        ensures
            config.inner() == inner,
    {
        Config(Arc::new(inner))
    }
}

impl Clone for Config {
    fn clone(&self) -> (res: Self)
        ensures
            res.inner() == self.inner(),
    {
        Config(self.0.clone())
    }
}

impl Deref for Config {
    type Target = ConfigInner;

    fn deref(&self) -> (inner: &ConfigInner)
        ensures
            *inner == self.inner(),
    {
        &*self.0
    }
}

} // verus!
