use clockwork_orange::messages::{escape_text, replacements, tg_escape, MdNode};

#[test]
fn test_basic() {
    let graph = "123";
    // the template kept as `test/stats_for_today.md`
    let message = format!(
        "Присылаю статистику по ответам всех за сегодня:\n\n```\n  %\n{graph}\n```",
        graph = graph
    );

    assert_eq!(
        message,
        "Присылаю статистику по ответам всех за сегодня:\n\n```\n  %\n123\n```"
    );
    assert_eq!(
        tg_escape(&message),
        "Присылаю статистику по ответам всех за сегодня:\n\n```\n  %\n123\n```"
    );
}

#[test]
fn test_md_escape() {
    assert_eq!(
        tg_escape("Скоро тебе придёт статистика за сегодня, а в целом – доступную стату можно посмотреть по запросу /get_stat :)"),
        r#"Скоро тебе придёт статистика за сегодня, а в целом – доступную стату можно посмотреть по запросу /get\_stat :\)"#
    );
}

#[test]
fn escape_text_outside_code() {
    assert_eq!(escape_text("a_b*c[d]e(f)g~h`i>j#k+l-m=n|o{p}q.r!s\\t", false),
        "a\\_b\\*c\\[d\\]e\\(f\\)g\\~h\\`i\\>j\\#k\\+l\\-m\\=n\\|o\\{p\\}q\\.r\\!s\\\\t");
}

#[test]
fn escape_text_inside_code() {
    assert_eq!(escape_text("a_b*c`d\\e.f", true), "a_b*c\\`d\\\\e.f");
}

#[test]
fn tg_escape_of_nothing() {
    assert_eq!(tg_escape(""), "");
}

#[test]
fn tg_escape_plain_text() {
    assert_eq!(tg_escape("That's all!"), "That's all\\!");
    assert_eq!(tg_escape("Saved! 🎉"), "Saved\\! 🎉");
}

#[test]
fn tg_escape_keeps_paragraphs() {
    assert_eq!(tg_escape("one.\n\ntwo."), "one\\.\n\ntwo\\.");
}

#[test]
fn tg_escape_inline_code_by_the_rule_for_text() {
    assert_eq!(tg_escape("use `a_b` here"), "use `a\\_b` here");
}

#[test]
fn tg_escape_code_block_by_the_rule_for_code() {
    assert_eq!(tg_escape("```\na`b\\c_d\n```"), "\n```\na\\`b\\\\c_d\n```");
}

#[test]
fn tg_escape_leaves_markup_in_place() {
    assert_eq!(tg_escape("~~gone~~ *em* **strong**"), "~~gone~~ *em* **strong**");
}

#[test]
fn tg_escape_text_after_a_code_block_is_text_again() {
    assert_eq!(tg_escape("```\nx_y\n```\n\na_b"), "\n```\nx_y\n```\n\na\\_b");
}

#[test]
fn replacements_follow_code_blocks() {
    let nodes = vec![
        MdNode::Other,
        MdNode::Text("a_b`".to_string()),
        MdNode::Code("c.d".to_string()),
        MdNode::CodeBlockStart,
        MdNode::Text("a_b`".to_string()),
        MdNode::Code("c.d\\".to_string()),
        MdNode::CodeBlockEnd,
        MdNode::Text("e!".to_string()),
    ];
    assert_eq!(
        replacements(&nodes),
        vec!["", "a\\_b\\`", "c\\.d", "", "a_b\\`", "c.d\\\\", "", "e\\!"]
    );
}

#[test]
fn replacements_of_no_nodes() {
    assert_eq!(replacements(&Vec::new()), Vec::<String>::new());
}

#[test]
fn escape_text_agrees_with_the_patterns() {
    let outside = regex::Regex::new(r"[_*\[\]()~`>#+\-=|{}\.!\\]").unwrap();
    let inside = regex::Regex::new(r"[`\\]").unwrap();
    let samples = [
        "",
        "plain",
        "_*[]()~`>#+-=|{}.!\\",
        "a\\b`c",
        "https://en.wikipedia.org/wiki/Nausica%C3%A4_of_the_Valley_of_the_Wind_(film)",
        "Скоро тебе придёт статистика за сегодня :)",
        "\"'$%&,/:;<?@^",
    ];
    for text in samples {
        let by_pattern = outside.replace_all(text, |caps: &regex::Captures| format!("\\{}", &caps[0]));
        assert_eq!(escape_text(text, false), by_pattern);
        let by_pattern = inside.replace_all(text, |caps: &regex::Captures| format!("\\{}", &caps[0]));
        assert_eq!(escape_text(text, true), by_pattern);
    }
}
