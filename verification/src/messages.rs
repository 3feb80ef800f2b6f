//! Escaping of message text for Telegram's flavour of Markdown.
//!
//! A message is parsed as Markdown, the text of each text and inline-code
//! node is escaped by the rule that holds where the node stands (inside a
//! code block or outside), and the nodes are written back as Markdown.

use crate::text::to_chars;
use pulldown_cmark::{Event, Options, Parser, Tag};
use vstd::prelude::*;

verus! {

/// The characters that Telegram wants escaped outside code.
pub open spec fn is_markup(c: char) -> bool {
    ||| c == '_'
    ||| c == '*'
    ||| c == '['
    ||| c == ']'
    ||| c == '('
    ||| c == ')'
    ||| c == '~'
    ||| c == '`'
    ||| c == '>'
    ||| c == '#'
    ||| c == '+'
    ||| c == '-'
    ||| c == '='
    ||| c == '|'
    ||| c == '{'
    ||| c == '}'
    ||| c == '.'
    ||| c == '!'
    ||| c == '\\'
}

/// The characters that Telegram wants escaped inside a code block.
pub open spec fn is_code_markup(c: char) -> bool {
    c == '`' || c == '\\'
}

/// Whether `c` gets a backslash, inside a code block or outside.
pub open spec fn needs_escape(c: char, inside_code: bool) -> bool {
    if inside_code {
        is_code_markup(c)
    } else {
        is_markup(c)
    }
}

/// One character, after a backslash where the rule asks for one.
pub open spec fn escaped_char(c: char, inside_code: bool) -> Seq<char> {
    if needs_escape(c, inside_code) {
        seq!['\\', c]
    } else {
        seq![c]
    }
}

/// `s` with a backslash before each character that needs one.
pub open spec fn escaped(s: Seq<char>, inside_code: bool) -> Seq<char>
    decreases s.len(),
{
    if s.len() == 0 {
        Seq::empty()
    } else {
        escaped(s.drop_last(), inside_code) + escaped_char(s.last(), inside_code)
    }
}

fn char_needs_escape(c: char, inside_code: bool) -> (r: bool)
    ensures
        r == needs_escape(c, inside_code),
{
    if inside_code {
        c == '`' || c == '\\'
    } else {
        c == '_' || c == '*' || c == '[' || c == ']' || c == '(' || c == ')' || c == '~' || c == '`'
            || c == '>' || c == '#' || c == '+' || c == '-' || c == '=' || c == '|' || c == '{'
            || c == '}' || c == '.' || c == '!' || c == '\\'
    }
}

/// Puts a backslash before each character of `s` that Telegram wants
/// escaped, by the rule for code blocks or the rule for other text.
pub fn escape_text(s: &str, inside_code: bool) -> (r: String)
    ensures
        r@ == escaped(s@, inside_code),
{
    let chars = to_chars(s);
    let mut out = String::new();
    let mut i: usize = 0;
    while i < chars.len()
        invariant
            chars@ == s@,
            i <= chars.len(),
            out@ == escaped(s@.take(i as int), inside_code),
        decreases chars.len() - i,
    {
        let c = chars[i];
        proof {
            let next = s@.take(i + 1);
            assert(next.drop_last() =~= s@.take(i as int));
            assert(next.last() == c);
        }
        if char_needs_escape(c, inside_code) {
            out.push('\\');
        }
        out.push(c);
        i += 1;
    }
    assert(s@.take(s@.len() as int) =~= s@);
    out
}

/// What the escaping reads of a Markdown node.
pub enum MdNode {
    /// A code block opens.
    CodeBlockStart,
    /// A code block closes.
    CodeBlockEnd,
    /// A run of text.
    Text(String),
    /// Inline code.
    Code(String),
    /// Any other node.
    Other,
}

/// The mathematical value of an [`MdNode`].
pub ghost enum MdNodeView {
    CodeBlockStart,
    CodeBlockEnd,
    Text(Seq<char>),
    Code(Seq<char>),
    Other,
}

impl View for MdNode {
    type V = MdNodeView;

    open spec fn view(&self) -> MdNodeView {
        match self {
            MdNode::CodeBlockStart => MdNodeView::CodeBlockStart,
            MdNode::CodeBlockEnd => MdNodeView::CodeBlockEnd,
            MdNode::Text(t) => MdNodeView::Text(t@),
            MdNode::Code(t) => MdNodeView::Code(t@),
            MdNode::Other => MdNodeView::Other,
        }
    }
}

/// The values of a list of nodes.
pub open spec fn node_views(nodes: Seq<MdNode>) -> Seq<MdNodeView> {
    Seq::new(nodes.len(), |i: int| nodes[i]@)
}

/// The values of a list of strings.
pub open spec fn text_views(texts: Seq<String>) -> Seq<Seq<char>> {
    Seq::new(texts.len(), |i: int| texts[i]@)
}

/// Whether a reader who has passed `nodes` stands inside a code block: the
/// last code block boundary among them, if any, opens one.
pub open spec fn inside_code_after(nodes: Seq<MdNodeView>) -> bool
    decreases nodes.len(),
{
    if nodes.len() == 0 {
        false
    } else {
        match nodes.last() {
            MdNodeView::CodeBlockStart => true,
            MdNodeView::CodeBlockEnd => false,
            _ => inside_code_after(nodes.drop_last()),
        }
    }
}

/// The text that node `i` is written back with: the escaped text of a text
/// or inline-code node, by the rule that holds at its place. Other nodes
/// carry no text.
pub open spec fn replacement_text(nodes: Seq<MdNodeView>, i: int) -> Seq<char> {
    match nodes[i] {
        MdNodeView::Text(t) => escaped(t, inside_code_after(nodes.take(i))),
        MdNodeView::Code(t) => escaped(t, inside_code_after(nodes.take(i))),
        _ => Seq::empty(),
    }
}

/// The replacement text of every node, in order.
pub open spec fn replacement_texts(nodes: Seq<MdNodeView>) -> Seq<Seq<char>> {
    Seq::new(nodes.len(), |i: int| replacement_text(nodes, i))
}

/// Computes the text that each node is written back with.
pub fn replacements(nodes: &Vec<MdNode>) -> (texts: Vec<String>)
    ensures
        texts.len() == nodes.len(),
        text_views(texts@) == replacement_texts(node_views(nodes@)),
{
    let ghost views = node_views(nodes@);
    let mut texts: Vec<String> = Vec::new();
    let mut inside_code = false;
    let mut i: usize = 0;
    while i < nodes.len()
        invariant
            views == node_views(nodes@),
            i <= nodes.len(),
            texts.len() == i,
            inside_code == inside_code_after(views.take(i as int)),
            forall|j: int| 0 <= j < i ==> (#[trigger] texts@[j])@ == replacement_text(views, j),
        decreases nodes.len() - i,
    {
        proof {
            let next = views.take(i + 1);
            assert(next.drop_last() =~= views.take(i as int));
            assert(next.last() == views[i as int]);
        }
        let text = match &nodes[i] {
            MdNode::CodeBlockStart => {
                inside_code = true;
                String::new()
            },
            MdNode::CodeBlockEnd => {
                inside_code = false;
                String::new()
            },
            MdNode::Text(t) => escape_text(t.as_str(), inside_code),
            MdNode::Code(t) => escape_text(t.as_str(), inside_code),
            MdNode::Other => String::new(),
        };
        texts.push(text);
        i += 1;
    }
    assert(text_views(texts@) =~= replacement_texts(views));
    texts
}

/// The nodes that `pulldown_cmark` reads `text` as, with strikethrough
/// switched on or off.
pub uninterp spec fn parsed_markdown(text: Seq<char>, strikethrough: bool) -> Seq<MdNodeView>;

/// The Markdown that `pulldown_cmark_to_cmark` writes for the nodes of
/// `text`, where each text or inline-code node holds the text given for it
/// in `texts`, and code blocks are fenced by `fence` backticks.
pub uninterp spec fn rendered_markdown(
    text: Seq<char>,
    strikethrough: bool,
    fence: usize,
    texts: Seq<Seq<char>>,
) -> Seq<char>;

/// Calls `pulldown_cmark::Parser::new_ext` and hands out, for each event it
/// yields, what the escaping reads of it. The parser is a function of the
/// text and the options alone; the contract gives its result a name.
#[verifier::external_body]
fn parse_markdown(text: &str, strikethrough: bool) -> (nodes: Vec<MdNode>)
    ensures
        node_views(nodes@) == parsed_markdown(text@, strikethrough),
{
    let mut options = Options::empty();
    options.set(Options::ENABLE_STRIKETHROUGH, strikethrough);
    Parser::new_ext(text, options).map(|event| match event {
        Event::Start(Tag::CodeBlock(_)) => MdNode::CodeBlockStart,
        Event::End(Tag::CodeBlock(_)) => MdNode::CodeBlockEnd,
        Event::Text(t) => MdNode::Text(t.into_string()),
        Event::Code(t) => MdNode::Code(t.into_string()),
        _ => MdNode::Other,
    }).collect()
}

/// Calls `pulldown_cmark_to_cmark::cmark_with_options` on the events of
/// `text`, with the text of each text and inline-code event replaced by its
/// entry in `texts`. The events borrow from `text`, so they are read again
/// here. Writing fails only where the buffer does, and a `String` never
/// does. The result is a function of the arguments alone; the contract
/// gives it a name.
#[verifier::external_body]
fn render_markdown(text: &str, strikethrough: bool, fence: usize, texts: Vec<String>) -> (res: String)
    requires
        texts.len() == parsed_markdown(text@, strikethrough).len(),
    ensures
        res@ == rendered_markdown(text@, strikethrough, fence, text_views(texts@)),
{
    let mut options = Options::empty();
    options.set(Options::ENABLE_STRIKETHROUGH, strikethrough);
    let events = Parser::new_ext(text, options).zip(texts).map(|(event, text)| match event {
        Event::Text(_) => Event::Text(text.into()),
        Event::Code(_) => Event::Code(text.into()),
        other => other,
    });
    let style = pulldown_cmark_to_cmark::Options { code_block_token_count: fence, ..Default::default() };
    let mut res = String::new();
    pulldown_cmark_to_cmark::cmark_with_options(events, &mut res, style).expect("writing to string failed!");
    res
}

/// `text` escaped for Telegram: read as Markdown with strikethrough, every
/// text and inline-code node escaped by the rule for its place, and written
/// back with code blocks fenced by three backticks.
pub open spec fn tg_escaped(text: Seq<char>) -> Seq<char> {
    rendered_markdown(text, true, 3, replacement_texts(parsed_markdown(text, true)))
}

/// Escapes `text` by Telegram's rules for Markdown.
pub fn tg_escape(text: &str) -> (res: String)
    ensures
        res@ == tg_escaped(text@),
{
    let nodes = parse_markdown(text, true);
    let texts = replacements(&nodes);
    assert(node_views(nodes@).len() == nodes.len());
    render_markdown(text, true, 3, texts)
}

} // verus!
