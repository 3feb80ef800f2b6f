//! The record that the bot keeps for each submission.

use crate::messages::{tg_escape, tg_escaped};
use time::OffsetDateTime;
use vstd::prelude::*;
use vstd::string::StringExecFns;

verus! {

/// `time::OffsetDateTime`, a date and time with an offset from UTC. The
/// library carries such values and reads nothing of them.
#[verifier::external_type_specification]
#[verifier::external_body]
pub struct ExOffsetDateTime(time::OffsetDateTime);

/// A stored submission: who sent it, what was sent, and when it was read,
/// if it was.
#[derive(Debug, PartialEq, Eq)]
pub struct ContentItem {
    /// Author of an item
    author: String,
    /// URL of an item
    content: String,
    /// Whether the user has read the content item and when, in UTC
    read_at: Option<OffsetDateTime>,
}

/// The mathematical value of a [`ContentItem`].
pub ghost struct ItemView {
    pub author: Seq<char>,
    pub content: Seq<char>,
    pub read_at: Option<OffsetDateTime>,
}

impl ItemView {
    /// An item counts as read once it carries a time of reading.
    pub open spec fn is_read(self) -> bool {
        self.read_at is Some
    }

    /// This item, read at `at`.
    pub open spec fn read(self, at: OffsetDateTime) -> ItemView {
        ItemView { read_at: Some(at), ..self }
    }

    /// The text that is sent for this item, before escaping.
    pub open spec fn message_source(self) -> Seq<char> {
        "suggested by @"@ + self.author + ":\n\n"@ + self.content
    }
}

impl View for ContentItem {
    type V = ItemView;

    closed spec fn view(&self) -> ItemView {
        ItemView { author: self.author@, content: self.content@, read_at: self.read_at }
    }
}

impl Clone for ContentItem {
    fn clone(&self) -> (res: Self)
        ensures
            res@ == self@,
    {
        ContentItem {
            author: self.author.clone(),
            content: self.content.clone(),
            read_at: self.read_at,
        }
    }
}

impl ContentItem {
    /// Constructor method, newly created ContentItem presumes to be unread
    pub fn new(author: &str, content: &str) -> (item: Self)
        ensures
            item@ == (ItemView { author: author@, content: content@, read_at: None }),
    {
        Self { author: String::from_str(author), content: String::from_str(content), read_at: None }
    }

    pub fn author(&self) -> (r: &str)
        ensures
            r@ == self@.author,
    {
        self.author.as_str()
    }

    pub fn content(&self) -> (r: &str)
        ensures
            r@ == self@.content,
    {
        self.content.as_str()
    }

    pub fn set_content(&mut self, content: &str)
        ensures
            final(self)@ == (ItemView { content: content@, ..old(self)@ }),
    {
        self.content = String::from_str(content);
    }

    /// When the item was read, if it was.
    pub fn read_at(&self) -> (r: Option<OffsetDateTime>)
        ensures
            r == self@.read_at,
    {
        self.read_at
    }

    pub fn is_read(&self) -> (r: bool)
        ensures
            r == self@.is_read(),
    {
        self.read_at.is_some()
    }

    pub fn set_read(&mut self, read_at: OffsetDateTime)
        ensures
            final(self)@ == old(self)@.read(read_at),
    {
        self.read_at = Some(read_at);
    }

    pub fn set_unread(&mut self)
        ensures
            final(self)@ == (ItemView { read_at: None, ..old(self)@ }),
    {
        self.read_at = None;
    }

    /// The text of the message that shows this item in a chat, escaped for
    /// Telegram.
    pub fn to_message_text(&self) -> (text: String)
        ensures
            text@ == tg_escaped(self@.message_source()),
    {
        let mut text = String::from_str("suggested by @");
        text.append(self.author.as_str());
        text.append(":\n\n");
        text.append(self.content.as_str());
        tg_escape(text.as_str())
    }
}

} // verus!
