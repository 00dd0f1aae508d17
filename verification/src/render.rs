//! Markdown to inline-styled HTML. pulldown-cmark parses; this module turns its
//! event stream into HTML where every element carries its theme style inline.
//! Images, formulas (`$…$`, `$$…$$`) and Mermaid diagrams, which WeChat cannot
//! show, become numbered placeholders sharing one sequence in document order;
//! formulas and diagrams carry their source as the caption. The placeholder
//! text is always Chinese, since it is addressed to the article's readers.
use vstd::prelude::*;
use pulldown_cmark::{CodeBlockKind, Event, Options, Parser, Tag, TagEnd};
use crate::highlight::{highlight_code_with, highlight_of, load_code_sets, CodeSets};
use crate::text::{attr_escaped, decimal, decimal_string, escape_attr, escape_html, escaped, first_word, first_word_of, same_text};
use crate::theme::{level_style, Theme, ThemeModel};

verus! {

#[verifier::external_type_specification]
#[verifier::external_body]
pub struct ExEvent<'a>(Event<'a>);

#[verifier::external_type_specification]
#[verifier::external_body]
pub struct ExTag<'a>(Tag<'a>);

#[verifier::external_type_specification]
#[verifier::external_body]
pub struct ExTagEnd(TagEnd);

/// Tags that carry no data the renderer reads.
#[derive(Clone, Copy, PartialEq, Eq, Debug, Structural)]
pub enum MdUnit {
    Paragraph,
    BlockQuote,
    Item,
    Table,
    TableHead,
    TableRow,
    TableCell,
    Emphasis,
    Strong,
    Strikethrough,
    /// Any other tag (HTML blocks, footnote definitions, definition lists, metadata).
    Other,
}

/// The start of a tagged element; `S` is the string type (`String`, or
/// `Seq<char>` in specifications).
#[derive(Clone, PartialEq, Eq, Debug)]
pub enum MdStart<S> {
    Unit(MdUnit),
    /// A heading of level 1 to 6.
    Heading(u8),
    /// A fenced code block with its info string.
    FencedCode(S),
    IndentedCode,
    /// A list; ordered lists carry the number of their first item.
    List(Option<u64>),
    /// A link with its destination.
    Link(S),
    /// An image with its destination.
    Image(S),
}

/// The end of a tagged element.
#[derive(Clone, Copy, PartialEq, Eq, Debug)]
pub enum MdEnd {
    Unit(MdUnit),
    Heading(u8),
    CodeBlock,
    /// The end of a list, `true` for an ordered one.
    List(bool),
    Link,
    Image,
}

/// One Markdown event, as the renderer reads it.
#[derive(Clone, PartialEq, Eq, Debug)]
pub enum MdEvent<S> {
    Start(MdStart<S>),
    End(MdEnd),
    Text(S),
    /// Inline code.
    Code(S),
    /// Raw HTML, block or inline.
    Html(S),
    SoftBreak,
    HardBreak,
    Rule,
    /// A task list checkbox, `true` when checked.
    TaskListMarker(bool),
    /// A formula, inline or display, with its TeX source.
    Math(S),
    /// Any other event (footnote references).
    Other,
}

impl View for MdStart<String> {
    type V = MdStart<Seq<char>>;

    open spec fn view(&self) -> MdStart<Seq<char>> {
        match self {
            MdStart::Unit(u) => MdStart::Unit(*u),
            MdStart::Heading(l) => MdStart::Heading(*l),
            MdStart::FencedCode(info) => MdStart::FencedCode(info@),
            MdStart::IndentedCode => MdStart::IndentedCode,
            MdStart::List(n) => MdStart::List(*n),
            MdStart::Link(u) => MdStart::Link(u@),
            MdStart::Image(u) => MdStart::Image(u@),
        }
    }
}

impl View for MdEvent<String> {
    type V = MdEvent<Seq<char>>;

    open spec fn view(&self) -> MdEvent<Seq<char>> {
        match self {
            MdEvent::Start(t) => MdEvent::Start(t@),
            MdEvent::End(t) => MdEvent::End(*t),
            MdEvent::Text(s) => MdEvent::Text(s@),
            MdEvent::Code(s) => MdEvent::Code(s@),
            MdEvent::Html(s) => MdEvent::Html(s@),
            MdEvent::SoftBreak => MdEvent::SoftBreak,
            MdEvent::HardBreak => MdEvent::HardBreak,
            MdEvent::Rule => MdEvent::Rule,
            MdEvent::TaskListMarker(c) => MdEvent::TaskListMarker(*c),
            MdEvent::Math(s) => MdEvent::Math(s@),
            MdEvent::Other => MdEvent::Other,
        }
    }
}

/// The events of a whole event vector.
pub open spec fn events_view(v: Seq<MdEvent<String>>) -> Seq<MdEvent<Seq<char>>> {
    v.map_values(|e: MdEvent<String>| e@)
}

/// pulldown-cmark's event stream for `md`, with tables, strikethrough, task
/// lists, footnotes and math enabled, each event read as an `MdEvent`.
pub uninterp spec fn markdown_events(md: Seq<char>) -> Seq<MdEvent<Seq<char>>>;

/// Reads a pulldown-cmark tag end that carries no data, variant by variant.
#[verifier::external_body]
fn md_unit(e: TagEnd) -> MdUnit {
    match e {
        TagEnd::Paragraph => MdUnit::Paragraph,
        TagEnd::BlockQuote(_) => MdUnit::BlockQuote,
        TagEnd::Item => MdUnit::Item,
        TagEnd::Table => MdUnit::Table,
        TagEnd::TableHead => MdUnit::TableHead,
        TagEnd::TableRow => MdUnit::TableRow,
        TagEnd::TableCell => MdUnit::TableCell,
        TagEnd::Emphasis => MdUnit::Emphasis,
        TagEnd::Strong => MdUnit::Strong,
        TagEnd::Strikethrough => MdUnit::Strikethrough,
        _ => MdUnit::Other,
    }
}

/// Reads a pulldown-cmark start tag, variant by variant; tags without data go
/// through their tag end (`Tag::to_end`).
#[verifier::external_body]
fn md_start(t: Tag) -> MdStart<String> {
    match t {
        Tag::Heading { level, .. } => MdStart::Heading(level as u8),
        Tag::CodeBlock(CodeBlockKind::Fenced(info)) => MdStart::FencedCode(info.into_string()),
        Tag::CodeBlock(CodeBlockKind::Indented) => MdStart::IndentedCode,
        Tag::List(n) => MdStart::List(n),
        Tag::Link { dest_url, .. } => MdStart::Link(dest_url.into_string()),
        Tag::Image { dest_url, .. } => MdStart::Image(dest_url.into_string()),
        t => MdStart::Unit(md_unit(t.to_end())),
    }
}

/// Reads a pulldown-cmark tag end, variant by variant.
#[verifier::external_body]
fn md_end(e: TagEnd) -> MdEnd {
    match e {
        TagEnd::Heading(level) => MdEnd::Heading(level as u8),
        TagEnd::CodeBlock => MdEnd::CodeBlock,
        TagEnd::List(ordered) => MdEnd::List(ordered),
        TagEnd::Link => MdEnd::Link,
        TagEnd::Image => MdEnd::Image,
        e => MdEnd::Unit(md_unit(e)),
    }
}

/// Reads a pulldown-cmark event, variant by variant.
#[verifier::external_body]
fn md_event(e: Event) -> MdEvent<String> {
    match e {
        Event::Start(t) => MdEvent::Start(md_start(t)),
        Event::End(e) => MdEvent::End(md_end(e)),
        Event::Text(s) => MdEvent::Text(s.into_string()),
        Event::Code(s) => MdEvent::Code(s.into_string()),
        Event::Html(s) | Event::InlineHtml(s) => MdEvent::Html(s.into_string()),
        Event::SoftBreak => MdEvent::SoftBreak,
        Event::HardBreak => MdEvent::HardBreak,
        Event::Rule => MdEvent::Rule,
        Event::TaskListMarker(checked) => MdEvent::TaskListMarker(checked),
        Event::InlineMath(s) | Event::DisplayMath(s) => MdEvent::Math(s.into_string()),
        _ => MdEvent::Other,
    }
}

/// Parses Markdown with pulldown-cmark (`Parser::new_ext`, with tables,
/// strikethrough, task lists, footnotes and math); claims that the events read are
/// `markdown_events` of the text.
#[verifier::external_body]
fn parse_markdown(md: &str) -> (r: Vec<MdEvent<String>>)
    ensures
        events_view(r@) == markdown_events(md@),
{
    let opts = Options::ENABLE_TABLES | Options::ENABLE_STRIKETHROUGH | Options::ENABLE_TASKLISTS
        | Options::ENABLE_FOOTNOTES | Options::ENABLE_MATH;
    Parser::new_ext(md, opts).map(md_event).collect()
}

/// The numbered placeholder that stands for image `n` (fixed Chinese text, and
/// the image source as a caption).
pub open spec fn placeholder_of(t: ThemeModel, n: nat, src: Seq<char>) -> Seq<char> {
    "<section style=\""@ + t.placeholder + "\"><p style=\""@ + t.placeholder_label + "\">"@
        + "【此处插入图片 "@ + decimal(n) + "】"@ + "</p><p style=\""@ + t.placeholder_caption
        + "\">"@ + escaped(src) + "</p></section>"@
}

/// Appends `a`, `b`, `c` to `out`.
fn push3(out: &mut String, a: &str, b: &str, c: &str)
    ensures
        final(out)@ == old(out)@ + a@ + b@ + c@,
{
    out.append(a);
    out.append(b);
    out.append(c);
}

/// Appends `a` to `e` to `out`.
fn push5(out: &mut String, a: &str, b: &str, c: &str, d: &str, e: &str)
    ensures
        final(out)@ == old(out)@ + a@ + b@ + c@ + d@ + e@,
{
    out.append(a);
    out.append(b);
    out.append(c);
    out.append(d);
    out.append(e);
}

/// The numbered placeholder block for image `n`.
pub fn placeholder_html(t: &Theme, n: usize, src: &str) -> (r: String)
    ensures
        r@ == placeholder_of(t@, n as nat, src@),
{
    let mut out = String::new();
    push5(&mut out, "<section style=\"", t.placeholder.as_str(), "\"><p style=\"", t.placeholder_label.as_str(), "\">");
    let num = decimal_string(n as u64);
    push3(&mut out, "【此处插入图片 ", num.as_str(), "】");
    let cap = escape_html(src);
    push5(&mut out, "</p><p style=\"", t.placeholder_caption.as_str(), "\">", cap.as_str(), "</p></section>");
    out
}

/// The style of heading level `level` (1 to 5; any other level takes H6's).
pub fn heading_style(t: &Theme, level: u8) -> (r: &str)
    ensures
        r@ == level_style(t@, level as int),
{
    if level == 1 {
        t.h1.as_str()
    } else if level == 2 {
        t.h2.as_str()
    } else if level == 3 {
        t.h3.as_str()
    } else if level == 4 {
        t.h4.as_str()
    } else if level == 5 {
        t.h5.as_str()
    } else {
        t.h6.as_str()
    }
}

/// What the renderer knows between events: the HTML so far, the image count,
/// whether it is inside a code block, a diagram, an image or a table head, whether a
/// table body is open, the body row count of the current table and its parity,
/// and the language and text of the current code block.
pub struct RenderState {
    pub out: Seq<char>,
    pub counter: nat,
    pub in_code: bool,
    pub in_diagram: bool,
    pub in_image: bool,
    pub in_thead: bool,
    pub tbody_open: bool,
    pub body_row: nat,
    pub row_alt: bool,
    pub code_lang: Seq<char>,
    pub code_buf: Seq<char>,
}

/// The state before the first event.
pub open spec fn initial_state() -> RenderState {
    RenderState {
        out: Seq::empty(),
        counter: 0,
        in_code: false,
        in_diagram: false,
        in_image: false,
        in_thead: false,
        tbody_open: false,
        body_row: 0,
        row_alt: false,
        code_lang: Seq::empty(),
        code_buf: Seq::empty(),
    }
}

/// `<name style="style">`.
pub open spec fn open_tag(name: Seq<char>, style: Seq<char>) -> Seq<char> {
    "<"@ + name + " style=\""@ + style + "\">"@
}

/// The effect of a start tag.
pub open spec fn start_step(s: RenderState, tag: MdStart<Seq<char>>, t: ThemeModel) -> RenderState {
    match tag {
        MdStart::Heading(level) => RenderState {
            out: s.out + "<h"@ + decimal(level as nat) + " style=\""@ + level_style(t, level as int)
                + "\">"@,
            ..s
        },
        MdStart::FencedCode(info) => if first_word(info) == "mermaid"@ {
            RenderState {
                in_code: true,
                in_diagram: true,
                code_buf: Seq::empty(),
                code_lang: first_word(info),
                ..s
            }
        } else {
            RenderState {
                in_code: true,
                in_diagram: false,
                code_buf: Seq::empty(),
                code_lang: first_word(info),
                out: s.out + "<pre style=\""@ + t.pre + "\"><code style=\""@ + t.code + "\">"@,
                ..s
            }
        },
        MdStart::IndentedCode => RenderState {
            in_code: true,
            in_diagram: false,
            code_buf: Seq::empty(),
            code_lang: Seq::empty(),
            out: s.out + "<pre style=\""@ + t.pre + "\"><code style=\""@ + t.code + "\">"@,
            ..s
        },
        MdStart::Link(url) => RenderState {
            out: s.out + "<a style=\""@ + t.a + "\" href=\""@ + attr_escaped(url) + "\">"@,
            ..s
        },
        MdStart::Image(url) => RenderState {
            counter: s.counter + 1,
            out: s.out + placeholder_of(t, s.counter + 1, url),
            in_image: true,
            ..s
        },
        MdStart::List(Some(start)) => RenderState {
            out: s.out + "<ol style=\""@ + t.ol + "\" start=\""@ + decimal(start as nat) + "\">"@,
            ..s
        },
        MdStart::List(None) => RenderState { out: s.out + open_tag("ul"@, t.ul), ..s },
        MdStart::Unit(u) => match u {
            MdUnit::Paragraph => RenderState { out: s.out + open_tag("p"@, t.p), ..s },
            MdUnit::Strong => RenderState { out: s.out + open_tag("strong"@, t.strong), ..s },
            MdUnit::Emphasis => RenderState { out: s.out + open_tag("em"@, t.em), ..s },
            MdUnit::Strikethrough => RenderState { out: s.out + open_tag("del"@, t.del), ..s },
            MdUnit::Item => RenderState { out: s.out + open_tag("li"@, t.li), ..s },
            MdUnit::BlockQuote => RenderState {
                out: s.out + open_tag("blockquote"@, t.blockquote),
                ..s
            },
            MdUnit::Table => RenderState {
                body_row: 0,
                row_alt: false,
                out: s.out + open_tag("table"@, t.table),
                ..s
            },
            MdUnit::TableHead => RenderState {
                in_thead: true,
                out: s.out + "<thead><tr>"@,
                ..s
            },
            MdUnit::TableRow => RenderState {
                body_row: s.body_row + 1,
                row_alt: (s.body_row + 1) % 2 == 0,
                out: s.out + "<tr>"@,
                ..s
            },
            MdUnit::TableCell => RenderState {
                out: s.out + if s.in_thead {
                    open_tag("th"@, t.th)
                } else if s.row_alt {
                    open_tag("td"@, t.td_alt)
                } else {
                    open_tag("td"@, t.td)
                },
                ..s
            },
            MdUnit::Other => s,
        },
    }
}

/// The effect of an end tag.
pub open spec fn end_step(s: RenderState, tag: MdEnd, t: ThemeModel) -> RenderState {
    match tag {
        MdEnd::Heading(level) => RenderState {
            out: s.out + "</h"@ + decimal(level as nat) + ">"@,
            ..s
        },
        MdEnd::CodeBlock => if s.in_diagram {
            RenderState {
                in_code: false,
                in_diagram: false,
                counter: s.counter + 1,
                out: s.out + placeholder_of(t, s.counter + 1, s.code_buf),
                code_buf: Seq::empty(),
                code_lang: Seq::empty(),
                ..s
            }
        } else {
            RenderState {
                in_code: false,
                out: s.out + highlight_of(s.code_buf, s.code_lang, t.code_dark) + "</code></pre>"@,
                code_buf: Seq::empty(),
                code_lang: Seq::empty(),
                ..s
            }
        },
        MdEnd::Link => RenderState { out: s.out + "</a>"@, ..s },
        MdEnd::Image => RenderState { in_image: false, ..s },
        MdEnd::List(true) => RenderState { out: s.out + "</ol>"@, ..s },
        MdEnd::List(false) => RenderState { out: s.out + "</ul>"@, ..s },
        MdEnd::Unit(u) => match u {
            MdUnit::Paragraph => RenderState { out: s.out + "</p>"@, ..s },
            MdUnit::Strong => RenderState { out: s.out + "</strong>"@, ..s },
            MdUnit::Emphasis => RenderState { out: s.out + "</em>"@, ..s },
            MdUnit::Strikethrough => RenderState { out: s.out + "</del>"@, ..s },
            MdUnit::Item => RenderState { out: s.out + "</li>"@, ..s },
            MdUnit::BlockQuote => RenderState { out: s.out + "</blockquote>"@, ..s },
            MdUnit::TableHead => RenderState {
                in_thead: false,
                tbody_open: true,
                out: s.out + "</tr></thead><tbody>"@,
                ..s
            },
            MdUnit::TableRow => RenderState { out: s.out + "</tr>"@, ..s },
            MdUnit::TableCell => RenderState {
                out: s.out + if s.in_thead {
                    "</th>"@
                } else {
                    "</td>"@
                },
                ..s
            },
            MdUnit::Table => RenderState {
                out: if s.tbody_open {
                    s.out + "</tbody>"@ + "</table>"@
                } else {
                    s.out + "</table>"@
                },
                tbody_open: false,
                ..s
            },
            MdUnit::Other => s,
        },
    }
}

/// The effect of one event.
pub open spec fn render_step(s: RenderState, e: MdEvent<Seq<char>>, t: ThemeModel) -> RenderState {
    match e {
        MdEvent::Start(tag) => start_step(s, tag, t),
        MdEvent::End(tag) => end_step(s, tag, t),
        MdEvent::Text(txt) => if s.in_code {
            RenderState { code_buf: s.code_buf + txt, ..s }
        } else if !s.in_image {
            RenderState { out: s.out + escaped(txt), ..s }
        } else {
            s
        },
        MdEvent::Code(txt) => RenderState {
            out: s.out + "<code style=\""@ + t.code_inline + "\">"@ + escaped(txt) + "</code>"@,
            ..s
        },
        MdEvent::SoftBreak => RenderState { out: s.out + "\n"@, ..s },
        MdEvent::HardBreak => RenderState { out: s.out + "<br/>"@, ..s },
        MdEvent::Rule => RenderState { out: s.out + "<hr style=\""@ + t.hr + "\"/>"@, ..s },
        MdEvent::Html(h) => RenderState { out: s.out + escaped(h), ..s },
        MdEvent::TaskListMarker(checked) => RenderState {
            out: s.out + "<span style=\""@ + t.code_inline + "\">"@ + (if checked {
                "☑"@
            } else {
                "☐"@
            }) + "</span> "@,
            ..s
        },
        MdEvent::Math(src) => if s.in_image {
            s
        } else {
            RenderState {
                counter: s.counter + 1,
                out: s.out + placeholder_of(t, s.counter + 1, src),
                ..s
            }
        },
        MdEvent::Other => s,
    }
}

/// The state after a sequence of events.
pub open spec fn render_run(events: Seq<MdEvent<Seq<char>>>, t: ThemeModel) -> RenderState
    decreases events.len(),
{
    if events.len() == 0 {
        initial_state()
    } else {
        render_step(render_run(events.drop_last(), t), events.last(), t)
    }
}

/// The HTML of an event sequence.
pub open spec fn rendered(events: Seq<MdEvent<Seq<char>>>, t: ThemeModel) -> Seq<char> {
    render_run(events, t).out
}

struct Renderer {
    out: String,
    counter: usize,
    in_code: bool,
    in_diagram: bool,
    in_image: bool,
    in_thead: bool,
    tbody_open: bool,
    body_row: usize,
    row_alt: bool,
    code_lang: String,
    code_buf: String,
}

impl View for Renderer {
    type V = RenderState;

    closed spec fn view(&self) -> RenderState {
        RenderState {
            out: self.out@,
            counter: self.counter as nat,
            in_code: self.in_code,
            in_diagram: self.in_diagram,
            in_image: self.in_image,
            in_thead: self.in_thead,
            tbody_open: self.tbody_open,
            body_row: self.body_row as nat,
            row_alt: self.row_alt,
            code_lang: self.code_lang@,
            code_buf: self.code_buf@,
        }
    }
}

fn open_tag_into(out: &mut String, name: &str, style: &str)
    ensures
        final(out)@ == old(out)@ + open_tag(name@, style@),
{
    push5(out, "<", name, " style=\"", style, "\">");
}

fn start_into(st: &mut Renderer, tag: &MdStart<String>, t: &Theme)
    requires
        old(st).counter < usize::MAX,
        old(st).body_row < usize::MAX,
    ensures
        final(st)@ == start_step(old(st)@, tag@, t@),
{
    match tag {
        MdStart::Heading(level) => {
            let l = decimal_string(*level as u64);
            push3(&mut st.out, "<h", l.as_str(), " style=\"");
            st.out.append(heading_style(t, *level));
            st.out.append("\">");
        },
        MdStart::FencedCode(info) => {
            st.in_code = true;
            st.code_buf = String::new();
            st.code_lang = first_word_of(info.as_str());
            if same_text(st.code_lang.as_str(), "mermaid") {
                st.in_diagram = true;
            } else {
                st.in_diagram = false;
                push5(&mut st.out, "<pre style=\"", t.pre.as_str(), "\"><code style=\"", t.code.as_str(), "\">");
            }
        },
        MdStart::IndentedCode => {
            st.in_code = true;
            st.in_diagram = false;
            st.code_buf = String::new();
            st.code_lang = String::new();
            push5(&mut st.out, "<pre style=\"", t.pre.as_str(), "\"><code style=\"", t.code.as_str(), "\">");
        },
        MdStart::Link(url) => {
            let href = escape_attr(url.as_str());
            push5(&mut st.out, "<a style=\"", t.a.as_str(), "\" href=\"", href.as_str(), "\">");
        },
        MdStart::Image(url) => {
            st.counter = st.counter + 1;
            let ph = placeholder_html(t, st.counter, url.as_str());
            st.out.append(ph.as_str());
            st.in_image = true;
        },
        MdStart::List(Some(start)) => {
            let n = decimal_string(*start);
            push5(&mut st.out, "<ol style=\"", t.ol.as_str(), "\" start=\"", n.as_str(), "\">");
        },
        MdStart::List(None) => open_tag_into(&mut st.out, "ul", t.ul.as_str()),
        MdStart::Unit(u) => match u {
            MdUnit::Paragraph => open_tag_into(&mut st.out, "p", t.p.as_str()),
            MdUnit::Strong => open_tag_into(&mut st.out, "strong", t.strong.as_str()),
            MdUnit::Emphasis => open_tag_into(&mut st.out, "em", t.em.as_str()),
            MdUnit::Strikethrough => open_tag_into(&mut st.out, "del", t.del.as_str()),
            MdUnit::Item => open_tag_into(&mut st.out, "li", t.li.as_str()),
            MdUnit::BlockQuote => open_tag_into(&mut st.out, "blockquote", t.blockquote.as_str()),
            MdUnit::Table => {
                st.body_row = 0;
                st.row_alt = false;
                open_tag_into(&mut st.out, "table", t.table.as_str());
            },
            MdUnit::TableHead => {
                st.in_thead = true;
                st.out.append("<thead><tr>");
            },
            MdUnit::TableRow => {
                st.body_row = st.body_row + 1;
                st.row_alt = st.body_row % 2 == 0;
                st.out.append("<tr>");
            },
            MdUnit::TableCell => {
                if st.in_thead {
                    open_tag_into(&mut st.out, "th", t.th.as_str());
                } else if st.row_alt {
                    open_tag_into(&mut st.out, "td", t.td_alt.as_str());
                } else {
                    open_tag_into(&mut st.out, "td", t.td.as_str());
                }
            },
            MdUnit::Other => {},
        },
    }
}


fn end_into(st: &mut Renderer, tag: &MdEnd, t: &Theme, cache: &mut Option<CodeSets>)
    requires
        old(st).counter < usize::MAX,
    ensures
        final(st)@ == end_step(old(st)@, *tag, t@),
        final(st).counter <= old(st).counter + 1,
        final(st).body_row == old(st).body_row,
{
    match tag {
        MdEnd::Heading(level) => {
            let l = decimal_string(*level as u64);
            push3(&mut st.out, "</h", l.as_str(), ">");
        },
        MdEnd::CodeBlock => {
            if st.in_diagram {
                st.counter = st.counter + 1;
                let ph = placeholder_html(t, st.counter, st.code_buf.as_str());
                st.out.append(ph.as_str());
                st.in_diagram = false;
            } else {
                if cache.is_none() {
                    *cache = Some(load_code_sets());
                }
                let html = match cache {
                    Some(sets) => highlight_code_with(sets, st.code_buf.as_str(), st.code_lang.as_str(), t.code_dark),
                    None => String::new(),
                };
                st.out.append(html.as_str());
                st.out.append("</code></pre>");
            }
            st.in_code = false;
            st.code_buf = String::new();
            st.code_lang = String::new();
        },
        MdEnd::Link => st.out.append("</a>"),
        MdEnd::Image => st.in_image = false,
        MdEnd::List(true) => st.out.append("</ol>"),
        MdEnd::List(false) => st.out.append("</ul>"),
        MdEnd::Unit(u) => match u {
            MdUnit::Paragraph => st.out.append("</p>"),
            MdUnit::Strong => st.out.append("</strong>"),
            MdUnit::Emphasis => st.out.append("</em>"),
            MdUnit::Strikethrough => st.out.append("</del>"),
            MdUnit::Item => st.out.append("</li>"),
            MdUnit::BlockQuote => st.out.append("</blockquote>"),
            MdUnit::TableHead => {
                st.in_thead = false;
                st.tbody_open = true;
                st.out.append("</tr></thead><tbody>");
            },
            MdUnit::TableRow => st.out.append("</tr>"),
            MdUnit::TableCell => {
                if st.in_thead {
                    st.out.append("</th>");
                } else {
                    st.out.append("</td>");
                }
            },
            MdUnit::Table => {
                if st.tbody_open {
                    st.out.append("</tbody>");
                    st.tbody_open = false;
                }
                st.out.append("</table>");
            },
            MdUnit::Other => {},
        },
    }
}

fn step_into(st: &mut Renderer, e: &MdEvent<String>, t: &Theme, cache: &mut Option<CodeSets>)
    requires
        old(st).counter < usize::MAX,
        old(st).body_row < usize::MAX,
    ensures
        final(st)@ == render_step(old(st)@, e@, t@),
        final(st).counter <= old(st).counter + 1,
        final(st).body_row <= old(st).body_row + 1,
{
    match e {
        MdEvent::Start(tag) => start_into(st, tag, t),
        MdEvent::End(tag) => end_into(st, tag, t, cache),
        MdEvent::Text(txt) => {
            if st.in_code {
                st.code_buf.append(txt.as_str());
            } else if !st.in_image {
                let esc = escape_html(txt.as_str());
                st.out.append(esc.as_str());
            }
        },
        MdEvent::Code(txt) => {
            let esc = escape_html(txt.as_str());
            push5(&mut st.out, "<code style=\"", t.code_inline.as_str(), "\">", esc.as_str(), "</code>");
        },
        MdEvent::SoftBreak => st.out.append("\n"),
        MdEvent::HardBreak => st.out.append("<br/>"),
        MdEvent::Rule => push3(&mut st.out, "<hr style=\"", t.hr.as_str(), "\"/>"),
        MdEvent::Html(h) => {
            let esc = escape_html(h.as_str());
            st.out.append(esc.as_str());
        },
        MdEvent::TaskListMarker(checked) => {
            let mark = if *checked {
                "☑"
            } else {
                "☐"
            };
            push5(&mut st.out, "<span style=\"", t.code_inline.as_str(), "\">", mark, "</span> ");
        },
        MdEvent::Math(src) => {
            if !st.in_image {
                st.counter = st.counter + 1;
                let ph = placeholder_html(t, st.counter, src.as_str());
                st.out.append(ph.as_str());
            }
        },
        MdEvent::Other => {},
    }
}

/// Renders an event sequence to inline-styled HTML with theme `t`.
pub fn render_events(events: &Vec<MdEvent<String>>, t: &Theme) -> (r: String)
    ensures
        r@ == rendered(events_view(events@), t@),
{
    let mut cache: Option<CodeSets> = None;
    render_events_cached(events, t, &mut cache)
}

/// Renders an event sequence with theme `t`, highlighting code with the code
/// sets in `cache`, which it loads at the first code block if there are none.
pub fn render_events_cached(events: &Vec<MdEvent<String>>, t: &Theme, cache: &mut Option<CodeSets>) -> (r: String)
    ensures
        r@ == rendered(events_view(events@), t@),
{
    let ghost ev = events_view(events@);
    let mut st = Renderer {
        out: String::new(),
        counter: 0,
        in_code: false,
        in_diagram: false,
        in_image: false,
        in_thead: false,
        tbody_open: false,
        body_row: 0,
        row_alt: false,
        code_lang: String::new(),
        code_buf: String::new(),
    };
    assert(ev.take(0) == Seq::<MdEvent<Seq<char>>>::empty());
    let mut i: usize = 0;
    while i < events.len()
        invariant
            i <= events@.len(),
            ev == events_view(events@),
            st@ == render_run(ev.take(i as int), t@),
            st.counter <= i,
            st.body_row <= i,
        decreases events.len() - i,
    {
        step_into(&mut st, &events[i], t, cache);
        assert(ev.take(i + 1).drop_last() == ev.take(i as int));
        assert(ev[i as int] == events@[i as int]@);
        i = i + 1;
    }
    assert(ev.take(events@.len() as int) == ev);
    st.out
}

/// Renders Markdown to inline-styled HTML with theme `t`: every element carries
/// its style inline, images, formulas and Mermaid diagrams become numbered
/// placeholders, fenced code is highlighted, raw HTML is escaped.
pub fn render_markdown(md: &str, t: &Theme) -> (r: String)
    ensures
        r@ == rendered(markdown_events(md@), t@),
{
    let events = parse_markdown(md);
    render_events(&events, t)
}

/// Renders Markdown as `render_markdown` does, highlighting code with the
/// code sets kept in `cache` (loaded there at the first code block if absent).
pub fn render_markdown_cached(md: &str, t: &Theme, cache: &mut Option<CodeSets>) -> (r: String)
    ensures
        r@ == rendered(markdown_events(md@), t@),
{
    let events = parse_markdown(md);
    render_events_cached(&events, t, cache)
}


/// The standalone document of an article: a complete HTML page with print CSS
/// (page margins, backgrounds kept when printing, no page breaks inside
/// blocks), the escaped title, and the article HTML verbatim.
pub open spec fn standalone_document_of(content: Seq<char>, title: Seq<char>) -> Seq<char> {
    "<!DOCTYPE html>\n<html lang=\"zh-CN\">\n<head>\n<meta charset=\"utf-8\">\n<meta name=\"viewport\" content=\"width=device-width, initial-scale=1\">\n<title>"@ + escaped(title)
        + "</title>\n<style>\n@page { margin: 18mm; }\nhtml, body { margin: 0; padding: 0; }\nbody { background: #fff; color: #1a1a1a; -webkit-print-color-adjust: exact; print-color-adjust: exact; }\n.doc { max-width: 820px; margin: 0 auto; padding: 24px; }\n.doc pre { white-space: pre-wrap; word-wrap: break-word; }\n.doc img, .doc pre, .doc blockquote, .doc table { break-inside: avoid; page-break-inside: avoid; }\n.doc h1, .doc h2, .doc h3, .doc h4, .doc h5, .doc h6 { break-after: avoid; page-break-after: avoid; }\n</style>\n</head>\n<body>\n<div class=\"doc\">\n"@
        + content + "\n</div>\n</body>\n</html>"@
}

/// Wraps inline-styled article HTML into a page that opens and prints on its
/// own (the single-file HTML export and the PDF export share it).
pub fn standalone_document(content_html: &str, title: &str) -> (r: String)
    ensures
        r@ == standalone_document_of(content_html@, title@),
{
    let t = escape_html(title);
    let mut out = String::new();
    push5(
        &mut out,
        "<!DOCTYPE html>\n<html lang=\"zh-CN\">\n<head>\n<meta charset=\"utf-8\">\n<meta name=\"viewport\" content=\"width=device-width, initial-scale=1\">\n<title>",
        t.as_str(),
        "</title>\n<style>\n@page { margin: 18mm; }\nhtml, body { margin: 0; padding: 0; }\nbody { background: #fff; color: #1a1a1a; -webkit-print-color-adjust: exact; print-color-adjust: exact; }\n.doc { max-width: 820px; margin: 0 auto; padding: 24px; }\n.doc pre { white-space: pre-wrap; word-wrap: break-word; }\n.doc img, .doc pre, .doc blockquote, .doc table { break-inside: avoid; page-break-inside: avoid; }\n.doc h1, .doc h2, .doc h3, .doc h4, .doc h5, .doc h6 { break-after: avoid; page-break-after: avoid; }\n</style>\n</head>\n<body>\n<div class=\"doc\">\n",
        content_html,
        "\n</div>\n</body>\n</html>",
    );
    out
}

} // verus!
