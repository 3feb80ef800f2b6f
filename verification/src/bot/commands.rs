//! The commands that the bot answers, and how a message names one.

use crate::text::{eq_ignore_ascii_case, same_ignoring_ascii_case, split_at_first, split_once, str_eq};
use vstd::prelude::*;

verus! {

/// Available commands
#[derive(Debug, PartialEq, Eq, Clone, Copy)]
pub enum Command {
    /// /start command
    Start,
    /// Get all items created by current user
    AllMy,
    /// Get random item from collection
    Random,
    /// Get all unread items
    Unread,
}

/// The text before the first `sep` in `s`; all of `s` where it holds none.
pub open spec fn before_first(s: Seq<char>, sep: char) -> Seq<char> {
    match split_at_first(s, sep) {
        Some((head, _)) => head,
        None => s,
    }
}

/// The bot that a command word is addressed to: what stands between its
/// first `@` and its second, or its end. A word without `@` names none.
pub open spec fn addressee(word: Seq<char>) -> Option<Seq<char>> {
    match split_at_first(word, '@') {
        Some((_, rest)) => Some(before_first(rest, '@')),
        None => None,
    }
}

/// The command that a word names.
pub open spec fn command_named(name: Seq<char>) -> Option<Command> {
    if name == "/start"@ {
        Some(Command::Start)
    } else if name == "/all_my"@ {
        Some(Command::AllMy)
    } else if name == "/random"@ {
        Some(Command::Random)
    } else if name == "/unread"@ {
        Some(Command::Unread)
    } else {
        None
    }
}

/// The command that a message asks for. Its first word, up to the first
/// space, is read: the part before an `@` names the command, and a part
/// after it must name this bot, in any case of ASCII letters. What follows
/// the first word is not read.
pub open spec fn command_of(text: Seq<char>, bot_name: Seq<char>) -> Option<Command> {
    let word = before_first(text, ' ');
    match addressee(word) {
        Some(bot) => if same_ignoring_ascii_case(bot, bot_name) {
            command_named(before_first(word, '@'))
        } else {
            None
        },
        None => command_named(word),
    }
}

fn head_of(s: &str, sep: char) -> (head: String)
    ensures
        head@ == before_first(s@, sep),
{
    match split_once(s, sep) {
        Some((head, _)) => head,
        None => {
            let head = s.to_owned();
            head
        },
    }
}

fn named(name: &str) -> (command: Option<Command>)
    ensures
        command == command_named(name@),
{
    if str_eq(name, "/start") {
        Some(Command::Start)
    } else if str_eq(name, "/all_my") {
        Some(Command::AllMy)
    } else if str_eq(name, "/random") {
        Some(Command::Random)
    } else if str_eq(name, "/unread") {
        Some(Command::Unread)
    } else {
        None
    }
}

impl Command {
    /// The word that asks for this command.
    pub open spec fn name_spec(self) -> Seq<char> {
        match self {
            Command::Start => "/start"@,
            Command::AllMy => "/all_my"@,
            Command::Random => "/random"@,
            Command::Unread => "/unread"@,
        }
    }

    /// What the command does, in words for the user.
    pub open spec fn description_spec(self) -> Seq<char> {
        match self {
            Command::Start => "Start the bot"@,
            Command::AllMy => "Get all items created by current user"@,
            Command::Random => "Get random item from collection"@,
            Command::Unread => "Get all unread items"@,
        }
    }

    /// The word that asks for this command.
    pub fn name(self) -> (name: &'static str)
        ensures
            name@ == self.name_spec(),
    {
        match self {
            Command::Start => "/start",
            Command::AllMy => "/all_my",
            Command::Random => "/random",
            Command::Unread => "/unread",
        }
    }

    /// What the command does, in words for the user.
    pub fn description(self) -> (description: &'static str)
        ensures
            description@ == self.description_spec(),
    {
        match self {
            Command::Start => "Start the bot",
            Command::AllMy => "Get all items created by current user",
            Command::Random => "Get random item from collection",
            Command::Unread => "Get all unread items",
        }
    }

    /// Every command, in the order in which the bot lists them.
    pub fn all() -> (commands: Vec<Command>)
        ensures
            commands@ == seq![Command::Start, Command::AllMy, Command::Random, Command::Unread],
    {
        let mut commands: Vec<Command> = Vec::new();
        commands.push(Command::Start);
        commands.push(Command::AllMy);
        commands.push(Command::Random);
        commands.push(Command::Unread);
        assert(commands@ =~= seq![Command::Start, Command::AllMy, Command::Random, Command::Unread]);
        commands
    }

    /// Reads the command that a message asks of the bot named `bot_name`.
    pub fn parse(text: &str, bot_name: &str) -> (command: Option<Command>)
        ensures
            command == command_of(text@, bot_name@),
    {
        let word = head_of(text, ' ');
        match split_once(word.as_str(), '@') {
            Some((name, rest)) => {
                let bot = head_of(rest.as_str(), '@');
                if eq_ignore_ascii_case(bot.as_str(), bot_name) {
                    named(name.as_str())
                } else {
                    None
                }
            },
            None => named(word.as_str()),
        }
    }
}

/// Each command is read back from its own word.
pub proof fn law_command_names(command: Command)
    ensures
        command_named(command.name_spec()) == Some(command),
{
    reveal_strlit("/start");
    reveal_strlit("/all_my");
    reveal_strlit("/random");
    reveal_strlit("/unread");
    assert("/start"@ != "/all_my"@) by {
        assert("/start"@[1] != "/all_my"@[1]);
    }
    assert("/start"@ != "/random"@) by {
        assert("/start"@[1] != "/random"@[1]);
    }
    assert("/start"@ != "/unread"@) by {
        assert("/start"@[1] != "/unread"@[1]);
    }
    assert("/all_my"@ != "/random"@) by {
        assert("/all_my"@[1] != "/random"@[1]);
    }
    assert("/all_my"@ != "/unread"@) by {
        assert("/all_my"@[1] != "/unread"@[1]);
    }
    assert("/random"@ != "/unread"@) by {
        assert("/random"@[1] != "/unread"@[1]);
    }
}

} // verus!
