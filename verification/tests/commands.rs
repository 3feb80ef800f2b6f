use clockwork_orange::bot::commands::Command;

#[test]
fn parse_reads_each_command() {
    assert_eq!(Command::parse("/start", "bot"), Some(Command::Start));
    assert_eq!(Command::parse("/all_my", "bot"), Some(Command::AllMy));
    assert_eq!(Command::parse("/random", "bot"), Some(Command::Random));
    assert_eq!(Command::parse("/unread", "bot"), Some(Command::Unread));
}

#[test]
fn parse_reads_its_own_names() {
    for command in Command::all() {
        assert_eq!(Command::parse(command.name(), "bot"), Some(command));
    }
}

#[test]
fn parse_takes_the_bot_name_in_any_case() {
    assert_eq!(Command::parse("/random@watch_bot", "watch_bot"), Some(Command::Random));
    assert_eq!(Command::parse("/random@Watch_Bot", "watch_bot"), Some(Command::Random));
    assert_eq!(Command::parse("/unread@WATCH_BOT rest", "watch_bot"), Some(Command::Unread));
}

#[test]
fn parse_refuses_another_bot() {
    assert_eq!(Command::parse("/random@other_bot", "watch_bot"), None);
    assert_eq!(Command::parse("/random@", "watch_bot"), None);
    assert_eq!(Command::parse("/random@watch_bot1", "watch_bot"), None);
}

#[test]
fn parse_reads_the_name_up_to_the_second_at() {
    assert_eq!(Command::parse("/start@watch_bot@other", "watch_bot"), Some(Command::Start));
    assert_eq!(Command::parse("/start@other@watch_bot", "watch_bot"), None);
}

#[test]
fn parse_does_not_read_past_the_first_word() {
    assert_eq!(Command::parse("/start now", "bot"), Some(Command::Start));
    assert_eq!(Command::parse("/all_my  @other", "bot"), Some(Command::AllMy));
    assert_eq!(Command::parse("/start\nnow", "bot"), None);
}

#[test]
fn parse_refuses_what_is_no_command() {
    assert_eq!(Command::parse("", "bot"), None);
    assert_eq!(Command::parse("start", "bot"), None);
    assert_eq!(Command::parse("/Start", "bot"), None);
    assert_eq!(Command::parse("/allmy", "bot"), None);
    assert_eq!(Command::parse(" /start", "bot"), None);
    assert_eq!(Command::parse("/help", "bot"), None);
    assert_eq!(Command::parse("https://example.com", "bot"), None);
}

#[test]
fn names_and_descriptions() {
    assert_eq!(Command::Start.name(), "/start");
    assert_eq!(Command::AllMy.name(), "/all_my");
    assert_eq!(Command::Random.name(), "/random");
    assert_eq!(Command::Unread.name(), "/unread");
    assert_eq!(Command::Start.description(), "Start the bot");
    assert_eq!(Command::AllMy.description(), "Get all items created by current user");
    assert_eq!(Command::Random.description(), "Get random item from collection");
    assert_eq!(Command::Unread.description(), "Get all unread items");
}

#[test]
fn all_lists_the_four_commands() {
    assert_eq!(
        Command::all(),
        vec![Command::Start, Command::AllMy, Command::Random, Command::Unread]
    );
}
