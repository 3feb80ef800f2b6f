//! The payload of an inline button, and what it asks for.

use crate::storage::Key;
use crate::text::{decimal, lemma_decimal_i32, lemma_split_at, split_at_first, split_once, str_eq};
use vstd::prelude::*;
use vstd::string::StringExecFns;

verus! {

/// Callbacks are used to handle user interaction with bot.
///
/// Currently the only callback type is `mark-as-read`, more may be added in the future.
#[derive(Debug)]
pub enum Callback {
    MarkAsRead(Key),
}

/// The mathematical value of a [`Callback`].
pub ghost enum CallbackView {
    MarkAsRead(Seq<char>),
}

impl View for Callback {
    type V = CallbackView;

    open spec fn view(&self) -> CallbackView {
        match self {
            Callback::MarkAsRead(key) => CallbackView::MarkAsRead(key@),
        }
    }
}

impl Clone for Callback {
    fn clone(&self) -> (res: Self)
        ensures
            res@ == self@,
    {
        match self {
            Callback::MarkAsRead(key) => Callback::MarkAsRead(key.clone()),
        }
    }
}

/// The word that names the kind of a callback.
pub open spec fn kind_of(callback: CallbackView) -> Seq<char> {
    match callback {
        CallbackView::MarkAsRead(_) => "mark-as-read"@,
    }
}

/// The payload that stands for a callback: its kind, a colon, and its key.
pub open spec fn payload_of(callback: CallbackView) -> Seq<char> {
    match callback {
        CallbackView::MarkAsRead(key) => (kind_of(callback) + ":"@) + key,
    }
}

/// The callback that a payload stands for: the text before the first colon
/// names the kind, the text after it is the key. A payload without a colon
/// or of an unknown kind stands for none.
pub open spec fn callback_of(payload: Seq<char>) -> Option<CallbackView> {
    match split_at_first(payload, ':') {
        Some((kind, data)) => if kind == "mark-as-read"@ {
            Some(CallbackView::MarkAsRead(data))
        } else {
            None
        },
        None => None,
    }
}

/// The value of a callback that may be missing.
pub open spec fn callback_view(callback: Option<Callback>) -> Option<CallbackView> {
    match callback {
        Some(callback) => Some(callback@),
        None => None,
    }
}

/// A payload written for a callback reads back as that callback, whatever
/// the key holds.
pub proof fn law_payload_round_trip(callback: CallbackView)
    ensures
        callback_of(payload_of(callback)) == Some(callback),
{
    reveal_strlit("mark-as-read");
    reveal_strlit(":");
    match callback {
        CallbackView::MarkAsRead(key) => {
            let kind = "mark-as-read"@;
            let payload = payload_of(callback);
            assert(payload.len() == 13 + key.len());
            assert(payload[12] == ':');
            assert forall|j: int| 0 <= j < 12 implies payload[j] != ':' by {
                assert(payload[j] == kind[j]);
            }
            lemma_split_at(payload, ':', 12);
            assert(payload.take(12) =~= kind);
            assert(payload.skip(13) =~= key);
        },
    }
}

/// Telegram takes no payload of more than this many bytes.
pub const PAYLOAD_LIMIT: usize = 64;

/// The payload that marks an item as read fits into Telegram's limit where
/// the item is stored under the number of a message: written in UTF-8 it
/// takes a byte for each character, 24 at most.
pub proof fn law_payload_fits(message_id: i32)
    ensures
        vstd::utf8::encode_utf8(
            payload_of(CallbackView::MarkAsRead(decimal(message_id as int))),
        ).len() <= PAYLOAD_LIMIT,
{
    reveal_strlit("mark-as-read");
    reveal_strlit(":");
    let key = decimal(message_id as int);
    let payload = payload_of(CallbackView::MarkAsRead(key));
    lemma_decimal_i32(message_id);
    assert(payload.len() == 13 + key.len());
    assert forall|i: int| 0 <= i < payload.len() implies '\0' <= #[trigger] payload[i]
        <= '\u{7f}' by {
        if i < 12 {
            assert(payload[i] == "mark-as-read"@[i]);
        } else if i == 12 {
            assert(payload[i] == ':');
        } else {
            assert(payload[i] == key[i - 13]);
        }
    }
    vstd::utf8::is_ascii_chars_encode_utf8(payload);
}

impl Callback {
    /// Get callback kind as &str
    pub fn kind_as_str(&self) -> (kind: &str)
        ensures
            kind@ == kind_of(self@),
    {
        match self {
            Callback::MarkAsRead(_) => "mark-as-read",
        }
    }

    /// Transform callback to payload for sending to TG API
    pub fn to_payload(&self) -> (res: String)
        ensures
            res@ == payload_of(self@),
    {
        match self {
            Callback::MarkAsRead(key) => {
                let mut res = String::from_str(self.kind_as_str());
                res.append(":");
                res.append(key.as_ref());
                res
            },
        }
    }

    /// Create callback item with `mark-as-read` kind
    pub fn mark_as_read(key: &Key) -> (callback: Self)
        ensures
            callback@ == CallbackView::MarkAsRead(key@),
    {
        Callback::MarkAsRead(key.clone())
    }

    /// Create callback from TG CallbackQuery payload
    pub fn from_payload(payload: &str) -> (callback: Option<Self>)
        ensures
            callback_view(callback) == callback_of(payload@),
    {
        match split_once(payload, ':') {
            Some((kind, data)) => {
                if str_eq(kind.as_str(), "mark-as-read") {
                    let key = Key::from(data);
                    Some(Callback::MarkAsRead(key))
                } else {
                    None
                }
            },
            None => None,
        }
    }
}

} // verus!
