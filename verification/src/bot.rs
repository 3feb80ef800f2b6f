//! What the bot understands and what it does about it: callbacks, commands
//! and the handlers that answer them.
//!
//! A handler does not talk to Telegram. It reads and writes the store, and
//! hands back the [`Action`]s that its caller is to carry out in order,
//! stopping at the first that fails.

use crate::bot::callbacks::{callback_of, payload_of, Callback, CallbackView};
use crate::bot::commands::{command_of, Command};
use crate::content_item::{ContentItem, ItemView};
use crate::messages::tg_escaped;
use crate::storage::{Key, StorageError};
use vstd::prelude::*;
use vstd::string::StringExecFns;

pub mod callbacks;
pub mod commands;
pub mod handlers;

verus! {

/// One thing that the bot does in a chat.
#[derive(Debug, PartialEq, Eq)]
pub enum Action {
    /// Send a message.
    Send { text: String },
    /// Send the message of an item, with one button under it.
    SendItem { text: String, button: String, payload: String },
    /// Show that the bot is typing.
    Typing,
    /// Wait before the next action.
    Pause { millis: u64 },
    /// Tell Telegram that the callback was dealt with.
    AnswerCallback,
}

/// The mathematical value of an [`Action`].
pub ghost enum ActionView {
    Send { text: Seq<char> },
    SendItem { text: Seq<char>, button: Seq<char>, payload: Seq<char> },
    Typing,
    Pause { millis: u64 },
    AnswerCallback,
}

impl View for Action {
    type V = ActionView;

    open spec fn view(&self) -> ActionView {
        match self {
            Action::Send { text } => ActionView::Send { text: text@ },
            Action::SendItem { text, button, payload } => ActionView::SendItem {
                text: text@,
                button: button@,
                payload: payload@,
            },
            Action::Typing => ActionView::Typing,
            Action::Pause { millis } => ActionView::Pause { millis: *millis },
            Action::AnswerCallback => ActionView::AnswerCallback,
        }
    }
}

/// The values of a list of actions.
pub open spec fn action_views(actions: Seq<Action>) -> Seq<ActionView> {
    Seq::new(actions.len(), |i: int| actions[i]@)
}

/// Why a handler gave up.
#[derive(Debug, PartialEq, Eq)]
pub enum HandlerError {
    /// The update belongs to no chat.
    NoChat,
    /// The store failed.
    Storage(StorageError),
}

/// What a handler hands back: the actions to carry out, and the error to
/// report once they are done, if the handler gave up.
#[derive(Debug, PartialEq, Eq)]
pub struct Reply {
    pub actions: Vec<Action>,
    pub failure: Option<HandlerError>,
}

/// The message that shows an item, with the button that marks it as
/// watched.
pub open spec fn item_action(key: Seq<char>, item: ItemView) -> ActionView {
    ActionView::SendItem {
        text: tg_escaped(item.message_source()),
        button: "☑️ Mark as watched"@,
        payload: payload_of(CallbackView::MarkAsRead(key)),
    }
}

/// Send a message to chat, with a button to mark the item as watched
pub fn send_item_to_chat(item: &ContentItem, key: &Key) -> (action: Action)
    ensures
        action@ == item_action(key@, item@),
{
    Action::SendItem {
        text: item.to_message_text(),
        button: String::from_str("☑️ Mark as watched"),
        payload: Callback::mark_as_read(key).to_payload(),
    }
}

/// Which handler an update goes to.
#[derive(Debug)]
pub enum Route {
    /// A command, to `handle_command`.
    Command(Command),
    /// A pressed button, to `handle_callback`.
    Callback(Callback),
    /// Any other text, to `add_new_entry`.
    NewEntry,
    /// No handler takes the update.
    Nothing,
}

/// The mathematical value of a [`Route`].
pub ghost enum RouteView {
    Command(Command),
    Callback(CallbackView),
    NewEntry,
    Nothing,
}

impl View for Route {
    type V = RouteView;

    open spec fn view(&self) -> RouteView {
        match self {
            Route::Command(command) => RouteView::Command(*command),
            Route::Callback(callback) => RouteView::Callback(callback@),
            Route::NewEntry => RouteView::NewEntry,
            Route::Nothing => RouteView::Nothing,
        }
    }
}

/// Where a message goes. One without text or without a known sender goes
/// nowhere; one that asks this bot for a command goes to the command;
/// every other text is a new entry.
pub open spec fn message_route(text: Option<&str>, has_author: bool, bot_name: Seq<char>) -> RouteView {
    match text {
        Some(text) => if !has_author {
            RouteView::Nothing
        } else {
            match command_of(text@, bot_name) {
                Some(command) => RouteView::Command(command),
                None => RouteView::NewEntry,
            }
        },
        None => RouteView::Nothing,
    }
}

/// Finds the handler for a message with the given text, if it has any,
/// sent to the bot named `bot_name`.
pub fn route_message(text: Option<&str>, has_author: bool, bot_name: &str) -> (route: Route)
    ensures
        route@ == message_route(text, has_author, bot_name@),
{
    match text {
        Some(text) => {
            if !has_author {
                Route::Nothing
            } else {
                match Command::parse(text, bot_name) {
                    Some(command) => Route::Command(command),
                    None => Route::NewEntry,
                }
            }
        },
        None => Route::Nothing,
    }
}

/// Where a pressed button goes: to the callback that its payload stands
/// for, or nowhere where it carries none or one that stands for nothing.
pub open spec fn callback_route(data: Option<&str>) -> RouteView {
    match data {
        Some(data) => match callback_of(data@) {
            Some(callback) => RouteView::Callback(callback),
            None => RouteView::Nothing,
        },
        None => RouteView::Nothing,
    }
}

/// Finds the handler for a pressed button with the given payload.
pub fn route_callback(data: Option<&str>) -> (route: Route)
    ensures
        route@ == callback_route(data),
{
    match data {
        Some(data) => match Callback::from_payload(data) {
            Some(callback) => Route::Callback(callback),
            None => Route::Nothing,
        },
        None => Route::Nothing,
    }
}

} // verus!
