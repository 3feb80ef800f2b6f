//! The handlers: what the bot does on a command, on a pressed button and
//! on a plain message.

use crate::bot::callbacks::Callback;
use crate::bot::commands::Command;
use crate::bot::{action_views, item_action, send_item_to_chat, Action, ActionView, HandlerError, Reply};
use crate::content_item::{ContentItem, ItemView};
use crate::messages::{tg_escape, tg_escaped};
use crate::storage::items::{by_author, distinct_keys, map_of, unread, Contents, ItemMap, Pairs};
use crate::storage::{marked, Key, StorageBackend, StorageError};
use crate::text::{decimal, signed_decimal, str_eq, unsigned_decimal};
use vstd::prelude::*;
use vstd::string::StringExecFns;

verus! {

/// How long the bot waits between two items of a listing, in milliseconds.
pub const PAUSE_MILLIS: u64 = 250;

/// The name that the bot knows a user by: the username, or the user's
/// number in decimal where there is none.
pub open spec fn author_of(username: Option<&str>, user_id: u64) -> Seq<char> {
    match username {
        Some(name) => name@,
        None => decimal(user_id as int),
    }
}

/// The name that the bot knows a user by.
pub fn author_name(username: Option<&str>, user_id: u64) -> (author: String)
    ensures
        author@ == author_of(username, user_id),
{
    match username {
        Some(name) => String::from_str(name),
        None => unsigned_decimal(user_id),
    }
}

/// The key of the item made from the message with the number `message_id`.
pub fn message_key(message_id: i32) -> (key: Key)
    ensures
        key@ == decimal(message_id as int),
{
    Key::from(signed_decimal(message_id as i64))
}

/// For whom the bot keeps its list, as it tells `author`.
pub open spec fn keepers(author: Seq<char>) -> Seq<char> {
    if author == "utterstep"@ {
        "you and @anna_kha"@
    } else if author == "anna_kha"@ {
        "you and @utterstep (btw, he loves you)"@
    } else {
        "@utterstep and @anna_kha"@
    }
}

/// Whose list it is, as the bot tells `author`.
pub open spec fn whose(author: Seq<char>) -> Seq<char> {
    if author == "utterstep"@ || author == "anna_kha"@ {
        "your"@
    } else {
        "their"@
    }
}

/// The greeting for `author`, before escaping.
pub open spec fn welcome_text(author: Seq<char>) -> Seq<char> {
    "Hello, @"@ + author + "! I'm a bot for "@ + keepers(author) + " to keep "@ + whose(author)
        + " watch list.\n\nJust send me anything and I'll add it to the list!"@
}

/// Writes the greeting for `author`, before escaping.
pub fn welcome(author: &str) -> (text: String)
    ensures
        text@ == welcome_text(author@),
{
    let first = str_eq(author, "utterstep");
    let second = str_eq(author, "anna_kha");
    let mut text = String::from_str("Hello, @");
    text.append(author);
    text.append("! I'm a bot for ");
    if first {
        text.append("you and @anna_kha");
    } else if second {
        text.append("you and @utterstep (btw, he loves you)");
    } else {
        text.append("@utterstep and @anna_kha");
    }
    text.append(" to keep ");
    if first || second {
        text.append("your");
    } else {
        text.append("their");
    }
    text.append(" watch list.\n\nJust send me anything and I'll add it to the list!");
    text
}

/// What the bot does for each item of a listing, item after item: it shows
/// that it is typing, sends the item, and waits.
pub open spec fn rounds(pairs: Pairs) -> Seq<ActionView>
    decreases pairs.len(),
{
    if pairs.len() == 0 {
        Seq::empty()
    } else {
        rounds(pairs.drop_last()) + seq![
            ActionView::Typing,
            item_action(pairs.last().0, pairs.last().1),
            ActionView::Pause { millis: PAUSE_MILLIS },
        ]
    }
}

/// A listing of `pairs`: a word that there is nothing, where there is
/// nothing; else a round for each item and a closing word.
pub open spec fn listing_of(pairs: Pairs) -> Seq<ActionView> {
    if pairs.len() == 0 {
        seq![ActionView::Send { text: "You have no entries yet"@ }]
    } else {
        rounds(pairs).push(ActionView::Send { text: tg_escaped("That's all!"@) })
    }
}

/// The actions that list `items`, in the order in which the map holds them.
pub fn listing(items: &ItemMap) -> (actions: Vec<Action>)
    ensures
        action_views(actions@) == listing_of(items.pairs()),
        distinct_keys(items.pairs()),
{
    let mut actions: Vec<Action> = Vec::new();
    let n = items.len();
    if n == 0 {
        actions.push(Action::Send { text: String::from_str("You have no entries yet") });
        assert(action_views(actions@) =~= listing_of(items.pairs()));
        return actions;
    }
    let ghost pairs = items.pairs();
    let mut i: usize = 0;
    assert(action_views(actions@) =~= rounds(pairs.take(0)));
    while i < n
        invariant
            pairs == items.pairs(),
            n == pairs.len(),
            i <= n,
            action_views(actions@) == rounds(pairs.take(i as int)),
        decreases n - i,
    {
        let ghost before = action_views(actions@);
        let shown = send_item_to_chat(items.item_at(i), items.key_at(i));
        actions.push(Action::Typing);
        actions.push(shown);
        actions.push(Action::Pause { millis: PAUSE_MILLIS });
        proof {
            let next = pairs.take(i + 1);
            assert(next.drop_last() =~= pairs.take(i as int));
            assert(next.last() == pairs[i as int]);
            assert(action_views(actions@) =~= before + seq![
                ActionView::Typing,
                item_action(pairs[i as int].0, pairs[i as int].1),
                ActionView::Pause { millis: PAUSE_MILLIS },
            ]);
        }
        i += 1;
    }
    let ghost shown = action_views(actions@);
    actions.push(Action::Send { text: tg_escape("That's all!") });
    proof {
        assert(pairs.take(n as int) =~= pairs);
        assert(action_views(actions@) =~= shown.push(
            ActionView::Send { text: tg_escaped("That's all!"@) },
        ));
    }
    actions
}

/// `actions` list the items of `m`, in some order.
pub open spec fn lists(m: Contents, actions: Seq<ActionView>) -> bool {
    exists|pairs: Pairs|
        distinct_keys(pairs) && map_of(pairs) == m && actions == #[trigger] listing_of(pairs)
}

/// `actions` show typing and then one item of `m`, or a word that there is
/// nothing where `m` is empty.
pub open spec fn offers_one(m: Contents, actions: Seq<ActionView>) -> bool {
    if m == Map::<Seq<char>, ItemView>::empty() {
        actions == seq![ActionView::Typing, ActionView::Send { text: "You have no entries yet"@ }]
    } else {
        exists|key: Seq<char>|
            m.contains_key(key) && actions == seq![
                ActionView::Typing,
                #[trigger] item_action(key, m[key]),
            ]
    }
}

/// `actions` are what the bot does on `command` from `author`, over a
/// store that holds `m`.
pub open spec fn answers(
    command: Command,
    author: Seq<char>,
    m: Contents,
    actions: Seq<ActionView>,
) -> bool {
    match command {
        Command::Start => actions == seq![
            ActionView::Send { text: tg_escaped(welcome_text(author)) },
        ],
        Command::AllMy => lists(by_author(unread(m), author), actions),
        Command::Random => offers_one(unread(m), actions),
        Command::Unread => lists(unread(m), actions),
    }
}

/// What had been done when the store failed on `command`: on a request for
/// a random item the bot has shown that it is typing; else nothing.
pub open spec fn done_before_failure(command: Command) -> Seq<ActionView> {
    match command {
        Command::Random => seq![ActionView::Typing],
        _ => Seq::empty(),
    }
}

fn give_up(actions: Vec<Action>, e: StorageError) -> (reply: Reply)
    ensures
        reply.actions == actions,
        reply.failure == Some(HandlerError::Storage(e)),
{
    Reply { actions, failure: Some(HandlerError::Storage(e)) }
}

fn done(actions: Vec<Action>) -> (reply: Reply)
    ensures
        reply.actions == actions,
        reply.failure is None,
{
    Reply { actions, failure: None }
}

/// Answers a command of the user with the given username and number.
///
/// `/start` greets; `/all_my` lists the unread items of the user;
/// `/unread` lists all unread items; `/random` shows one unread item. The
/// store is only read, and the greeting does not read it: `/start` is
/// answered whatever the state of the store.
pub fn handle_command<B: StorageBackend>(
    storage: &B,
    username: Option<&str>,
    user_id: u64,
    command: Command,
) -> (reply: Reply)
    ensures
        command == Command::Start ==> reply.failure is None,
        storage.reliable() ==> reply.failure is None,
        reply.failure is None ==> answers(
            command,
            author_of(username, user_id),
            storage.contents(),
            action_views(reply.actions@),
        ),
        reply.failure matches Some(e) ==> e is Storage && !(e->Storage_0 is NotFound)
            && action_views(reply.actions@) == done_before_failure(command),
{
    let author = author_name(username, user_id);
    let mut actions: Vec<Action> = Vec::new();
    match command {
        Command::Start => {
            actions.push(Action::Send { text: tg_escape(welcome(author.as_str()).as_str()) });
            assert(action_views(actions@) =~= seq![
                ActionView::Send { text: tg_escaped(welcome_text(author@)) },
            ]);
            done(actions)
        },
        Command::AllMy => {
            match storage.get_user_items(author.as_str()) {
                Ok(items) => {
                    let actions = listing(&items);
                    assert(listing_of(items.pairs()) == action_views(actions@));
                    done(actions)
                },
                Err(e) => {
                    assert(action_views(actions@) =~= done_before_failure(command));
                    give_up(actions, e)
                },
            }
        },
        Command::Random => {
            actions.push(Action::Typing);
            match storage.get_random() {
                Ok(Some(picked)) => {
                    let shown = send_item_to_chat(&picked.1, &picked.0);
                    actions.push(shown);
                    proof {
                        let m = unread(storage.contents());
                        assert(m.contains_key(picked.0@));
                        assert(m != Map::<Seq<char>, ItemView>::empty());
                        assert(action_views(actions@) =~= seq![
                            ActionView::Typing,
                            item_action(picked.0@, m[picked.0@]),
                        ]);
                    }
                    done(actions)
                },
                Ok(None) => {
                    actions.push(Action::Send { text: String::from_str("You have no entries yet") });
                    assert(action_views(actions@) =~= seq![
                        ActionView::Typing,
                        ActionView::Send { text: "You have no entries yet"@ },
                    ]);
                    done(actions)
                },
                Err(e) => {
                    assert(action_views(actions@) =~= done_before_failure(command));
                    give_up(actions, e)
                },
            }
        },
        Command::Unread => {
            match storage.get_all() {
                Ok(items) => {
                    let actions = listing(&items);
                    assert(listing_of(items.pairs()) == action_views(actions@));
                    done(actions)
                },
                Err(e) => {
                    assert(action_views(actions@) =~= done_before_failure(command));
                    give_up(actions, e)
                },
            }
        },
    }
}

/// What the bot says once an item is marked as watched, and that it tells
/// Telegram the button was dealt with.
pub open spec fn thanks() -> Seq<ActionView> {
    seq![
        ActionView::Send { text: tg_escaped("Great! I hope you liked it 😊"@) },
        ActionView::AnswerCallback,
    ]
}

/// Deals with a pressed button. `has_chat` says whether the update belongs
/// to a chat; one that does not is an error, the only one of its kind, and
/// the store is left alone.
/// Else the item that the callback names is marked as read, and the bot
/// thanks; where the store fails or holds no such item, nothing is sent.
pub fn handle_callback<B: StorageBackend>(
    storage: &mut B,
    has_chat: bool,
    callback: Callback,
) -> (reply: Reply)
    ensures
        final(storage).reliable() == old(storage).reliable(),
        !has_chat <==> reply.failure == Some(HandlerError::NoChat),
        !has_chat ==> final(storage).contents() == old(storage).contents(),
        has_chat && old(storage).reliable() ==> (reply.failure is None <==> old(
            storage,
        ).contents().contains_key(callback@->MarkAsRead_0)),
        has_chat && old(storage).reliable() && reply.failure is Some ==> reply.failure == Some(
            HandlerError::Storage(StorageError::NotFound),
        ),
        reply.failure is None ==> action_views(reply.actions@) == thanks() && marked(
            old(storage).contents(),
            final(storage).contents(),
            callback@->MarkAsRead_0,
        ),
        reply.failure is Some ==> reply.actions@.len() == 0,
        reply.failure is Some ==> final(storage).contents() == old(storage).contents() || marked(
            old(storage).contents(),
            final(storage).contents(),
            callback@->MarkAsRead_0,
        ),
        reply.failure == Some(HandlerError::Storage(StorageError::NotFound)) ==> !old(
            storage,
        ).contents().contains_key(callback@->MarkAsRead_0) && final(storage).contents() == old(
            storage,
        ).contents(),
{
    let mut actions: Vec<Action> = Vec::new();
    if !has_chat {
        return Reply { actions, failure: Some(HandlerError::NoChat) };
    }
    match callback {
        Callback::MarkAsRead(key) => {
            match storage.mark_as_read(&key) {
                Ok(()) => {
                    actions.push(Action::Send { text: tg_escape("Great! I hope you liked it 😊") });
                    actions.push(Action::AnswerCallback);
                    assert(action_views(actions@) =~= thanks());
                    done(actions)
                },
                Err(e) => give_up(actions, e),
            }
        },
    }
}

/// Whether a message is skipped because it answers somebody else: it
/// replies to a message whose sender is known and is not the bot.
pub open spec fn answers_another(replied_to: Option<u64>, me: u64) -> bool {
    replied_to matches Some(sender) && sender != me
}

/// What the bot says once an item is saved.
pub open spec fn saved() -> Seq<ActionView> {
    seq![ActionView::Send { text: tg_escaped("Saved! 🎉"@) }]
}

/// Takes a plain message in as a new item.
///
/// `me` is the bot's own number; `replied_to` is the number of the sender
/// of the message that this one replies to, if it replies to one whose
/// sender is known. A reply to somebody else is skipped: nothing is stored
/// and nothing is sent. Else the text is stored as an unread item of its
/// author, under the message's number in decimal, and the bot confirms.
pub fn add_new_entry<B: StorageBackend>(
    storage: &mut B,
    me: u64,
    message_id: i32,
    replied_to: Option<u64>,
    username: Option<&str>,
    user_id: u64,
    text: &str,
) -> (reply: Reply)
    ensures
        final(storage).reliable() == old(storage).reliable(),
        answers_another(replied_to, me) ==> reply.failure is None && reply.actions@.len() == 0
            && final(storage).contents() == old(storage).contents(),
        !answers_another(replied_to, me) && old(storage).reliable() ==> reply.failure is None,
        !answers_another(replied_to, me) && reply.failure is None ==> action_views(reply.actions@)
            == saved() && final(storage).contents() == old(storage).contents().insert(
            decimal(message_id as int),
            ItemView { author: author_of(username, user_id), content: text@, read_at: None },
        ),
        reply.failure matches Some(e) ==> e is Storage && !(e->Storage_0 is NotFound)
            && reply.actions@.len() == 0,
        reply.failure is Some ==> final(storage).contents() == old(storage).contents() || final(storage).contents()
            == old(storage).contents().insert(
            decimal(message_id as int),
            ItemView { author: author_of(username, user_id), content: text@, read_at: None },
        ),
{
    let mut actions: Vec<Action> = Vec::new();
    match replied_to {
        Some(sender) => {
            if sender != me {
                return done(actions);
            }
        },
        None => {},
    }
    let author = author_name(username, user_id);
    let content_item = ContentItem::new(author.as_str(), text);
    let key = message_key(message_id);
    match storage.set(&key, content_item) {
        Ok(()) => {
            actions.push(Action::Send { text: tg_escape("Saved! 🎉") });
            assert(action_views(actions@) =~= saved());
            done(actions)
        },
        Err(e) => give_up(actions, e),
    }
}

} // verus!
