//! Syntax highlighting of fenced code blocks into inline-coloured spans, through
//! syntect: WeChat strips classes, so every colour must be an inline style.
//! Unknown or missing languages fall back to escaped plain text.
use vstd::prelude::*;
use syntect::easy::HighlightLines;
use syntect::highlighting::ThemeSet;
use syntect::html::{styled_line_to_highlighted_html, IncludeBackground};
use syntect::parsing::SyntaxSet;
use crate::text::{escape_html, escaped, push_char, trim, trimmed};

verus! {

#[verifier::external_type_specification]
#[verifier::external_body]
pub struct ExSyntaxSet(SyntaxSet);

#[verifier::external_type_specification]
#[verifier::external_body]
pub struct ExThemeSet(ThemeSet);

/// syntect's bundled syntax definitions (the variant whose lines keep their
/// newline) and bundled colour themes. Built only by `load_code_sets`, so every
/// lookup below is a lookup in the bundled data.
pub struct CodeSets {
    syntaxes: SyntaxSet,
    themes: ThemeSet,
}

/// The name of the bundled syntax that `find_syntax_by_token` finds for a
/// code block language (by file extension, then by name without regard to
/// ASCII case).
pub uninterp spec fn syntax_by_token(lang: Seq<char>) -> Option<Seq<char>>;

/// The name of the bundled syntax that `find_syntax_by_extension` finds for a
/// file extension (compared without regard to ASCII case).
pub uninterp spec fn syntax_by_extension(ext: Seq<char>) -> Option<Seq<char>>;

/// Whether `find_syntax_by_name` finds a bundled syntax of that name.
pub uninterp spec fn syntax_named(name: Seq<char>) -> bool;

/// Whether the bundled themes have a theme of that key.
pub uninterp spec fn theme_known(name: Seq<char>) -> bool;

/// syntect's highlighting of consecutive lines with the bundled syntax named
/// `syntax` and the bundled theme `theme`: for each line, the inline-coloured
/// HTML of its styled ranges (foreground only), or nothing where syntect
/// reports an error.
pub uninterp spec fn highlighted_lines(
    syntax: Seq<char>,
    theme: Seq<char>,
    lines: Seq<Seq<char>>,
) -> Seq<Option<Seq<char>>>;

/// The text of an optional string.
pub open spec fn opt_view(o: Option<String>) -> Option<Seq<char>> {
    match o {
        Some(s) => Some(s@),
        None => None,
    }
}

/// Loads syntect's bundled syntaxes (`SyntaxSet::load_defaults_newlines`).
#[verifier::external_body]
fn load_default_syntaxes() -> (r: SyntaxSet) {
    SyntaxSet::load_defaults_newlines()
}

/// Loads syntect's bundled themes (`ThemeSet::load_defaults`).
#[verifier::external_body]
fn load_default_themes() -> (r: ThemeSet) {
    ThemeSet::load_defaults()
}

/// Loads the bundled syntaxes and themes; they are large, so a caller that
/// highlights often loads them once and keeps them.
pub fn load_code_sets() -> (r: CodeSets) {
    CodeSets { syntaxes: load_default_syntaxes(), themes: load_default_themes() }
}

/// `SyntaxSet::find_syntax_by_token`, giving the name of the syntax found;
/// claims that it is `syntax_by_token` of the token, and that looking that
/// name up finds a syntax (it is the name of one).
#[verifier::external_body]
fn find_by_token(sets: &CodeSets, lang: &str) -> (r: Option<String>)
    ensures
        opt_view(r) == syntax_by_token(lang@),
        r matches Some(n) ==> syntax_named(n@),
{
    sets.syntaxes.find_syntax_by_token(lang).map(|s| s.name.clone())
}

/// `SyntaxSet::find_syntax_by_extension`, giving the name of the syntax found;
/// claims that it is `syntax_by_extension` of the extension, and that looking
/// that name up finds a syntax.
#[verifier::external_body]
fn find_by_extension(sets: &CodeSets, ext: &str) -> (r: Option<String>)
    ensures
        opt_view(r) == syntax_by_extension(ext@),
        r matches Some(n) ==> syntax_named(n@),
{
    sets.syntaxes.find_syntax_by_extension(ext).map(|s| s.name.clone())
}

/// Whether the bundled themes have the key `name` (`BTreeMap::contains_key`
/// on `ThemeSet::themes`); claims that this is `theme_known`, and, as
/// `ThemeSet::load_defaults` documents its keys, that both `base16-ocean`
/// palettes are there.
#[verifier::external_body]
fn has_theme(sets: &CodeSets, name: &str) -> (r: bool)
    ensures
        r == theme_known(name@),
        (name@ == "base16-ocean.dark"@ || name@ == "base16-ocean.light"@) ==> r,
{
    sets.themes.themes.contains_key(name)
}

/// The first key of the bundled themes (`BTreeMap::keys().next()`); claims
/// only that a key found names a theme.
#[verifier::external_body]
fn first_theme(sets: &CodeSets) -> (r: Option<String>)
    ensures
        r matches Some(k) ==> theme_known(k@),
{
    sets.themes.themes.keys().next().cloned()
}

/// Highlights consecutive lines with one `HighlightLines` state
/// (`highlight_line`, then `styled_line_to_highlighted_html` without
/// background), the syntax found by `find_syntax_by_name` and the theme of key
/// `theme`; claims one result per line, equal to `highlighted_lines`.
#[verifier::external_body]
fn highlight_lines(
    sets: &CodeSets,
    syntax: &str,
    theme: &str,
    lines: &Vec<String>,
) -> (r: Vec<Option<String>>)
    requires
        syntax_named(syntax@),
        theme_known(theme@),
    ensures
        r@.len() == lines@.len(),
        forall|i: int|
            0 <= i < r@.len() ==> #[trigger] opt_view(r@[i]) == highlighted_lines(
                syntax@,
                theme@,
                lines@.map_values(|l: String| l@),
            )[i],
{
    let (Some(syntax), Some(theme)) = (sets.syntaxes.find_syntax_by_name(syntax), sets.themes.themes.get(theme)) else { return Vec::new() };
    let mut h = HighlightLines::new(syntax, theme);
    lines.iter().map(|l| {
        h.highlight_line(l, &sets.syntaxes).and_then(|v| styled_line_to_highlighted_html(&v, IncludeBackground::No)).ok()
    }).collect()
}

/// The bundled syntax for a code block language: by token, else by extension.
pub open spec fn syntax_of(lang: Seq<char>) -> Option<Seq<char>> {
    match syntax_by_token(lang) {
        Some(n) => Some(n),
        None => syntax_by_extension(lang),
    }
}

/// The palette for a code background: dark or light `base16-ocean`.
pub open spec fn palette_of(dark: bool) -> Seq<char> {
    if dark {
        "base16-ocean.dark"@
    } else {
        "base16-ocean.light"@
    }
}

fn syntax_for(sets: &CodeSets, lang: &str) -> (r: Option<String>)
    ensures
        opt_view(r) == syntax_of(lang@),
        r matches Some(n) ==> syntax_named(n@),
{
    match find_by_token(sets, lang) {
        Some(n) => Some(n),
        None => find_by_extension(sets, lang),
    }
}

/// The pieces of `s` cut after each newline, newline kept; `cur` is the piece
/// under way (`str::split_inclusive('\n')` when `cur` is empty).
pub open spec fn inclusive_lines_from(s: Seq<char>, cur: Seq<char>) -> Seq<Seq<char>>
    decreases s.len(),
{
    if s.len() == 0 {
        if cur.len() == 0 {
            Seq::empty()
        } else {
            seq![cur]
        }
    } else if s[0] == '\n' {
        seq![cur.push('\n')] + inclusive_lines_from(s.drop_first(), Seq::empty())
    } else {
        inclusive_lines_from(s.drop_first(), cur.push(s[0]))
    }
}

/// The lines of `s`, each with its newline (`str::split_inclusive('\n')`).
pub open spec fn inclusive_lines(s: Seq<char>) -> Seq<Seq<char>> {
    inclusive_lines_from(s, Seq::empty())
}

/// Cuts `s` after each newline, keeping the newlines.
pub fn split_inclusive_lines(s: &str) -> (r: Vec<String>)
    ensures
        r@.map_values(|l: String| l@) == inclusive_lines(s@),
{
    let mut pieces: Vec<String> = Vec::new();
    let mut cur = String::new();
    let ghost src = s@;
    assert(src.skip(0) == src);
    assert(pieces@.map_values(|l: String| l@) == Seq::<Seq<char>>::empty());
    for c in it: s.chars()
        invariant
            it.seq() == src,
            pieces@.map_values(|l: String| l@) + inclusive_lines_from(
                src.skip(it.index() as int),
                cur@,
            ) == inclusive_lines(src),
    {
        let ghost i = it.index() as int;
        assert(src.skip(i).drop_first() == src.skip(i + 1));
        assert(src.skip(i)[0] == c);
        if c == '\n' {
            push_char(&mut cur, c);
            let ghost before = pieces@.map_values(|l: String| l@);
            pieces.push(cur);
            assert(pieces@.map_values(|l: String| l@) == before.push(cur@));
            cur = String::new();
            assert(before + (seq![cur@.push('\n')] + inclusive_lines_from(src.skip(i + 1), Seq::empty()))
                == before.push(cur@.push('\n')) + inclusive_lines_from(src.skip(i + 1), Seq::empty()));
        } else {
            push_char(&mut cur, c);
        }
    }
    assert(src.skip(src.len() as int) == Seq::<char>::empty());
    if !cur.as_str().is_empty() {
        pieces.push(cur);
    }
    pieces
}

/// The highlighted HTML of a code block: escaped text when the language is
/// blank or no bundled syntax matches it, otherwise each line's highlighted
/// spans in the palette for the code background, or that line escaped where
/// highlighting fails.
pub open spec fn highlight_of(code: Seq<char>, lang: Seq<char>, dark: bool) -> Seq<char> {
    let l = trimmed(lang);
    if l.len() == 0 {
        escaped(code)
    } else {
        match syntax_of(l) {
            None => escaped(code),
            Some(syntax) => joined_lines(
                inclusive_lines(code),
                highlighted_lines(syntax, palette_of(dark), inclusive_lines(code)),
                inclusive_lines(code).len() as int,
            ),
        }
    }
}

/// The first `n` lines, each as its highlighted HTML or, failing that, escaped.
pub open spec fn joined_lines(
    lines: Seq<Seq<char>>,
    html: Seq<Option<Seq<char>>>,
    n: int,
) -> Seq<char>
    decreases n,
{
    if n <= 0 {
        Seq::empty()
    } else {
        joined_lines(lines, html, n - 1) + match html[n - 1] {
            Some(h) => h,
            None => escaped(lines[n - 1]),
        }
    }
}

/// Highlights a code block into inline-coloured spans with loaded code sets:
/// dark palette (`base16-ocean.dark`) on dark code backgrounds, light palette
/// otherwise, falling back to the first bundled theme; foreground colours
/// only, the background stays the theme's `pre`.
pub fn highlight_code_with(sets: &CodeSets, code: &str, lang: &str, dark: bool) -> (r: String)
    ensures
        r@ == highlight_of(code@, lang@, dark),
{
    let l = trim(lang);
    if l.as_str().is_empty() {
        return escape_html(code);
    }
    let syntax = match syntax_for(sets, l.as_str()) {
        Some(n) => n,
        None => {
            return escape_html(code);
        },
    };
    let name = if dark {
        "base16-ocean.dark"
    } else {
        "base16-ocean.light"
    };
    proof {
        reveal_strlit("base16-ocean.dark");
        reveal_strlit("base16-ocean.light");
    }
    let theme = if has_theme(sets, name) {
        name.to_owned()
    } else {
        match first_theme(sets) {
            Some(k) => k,
            None => {
                return escape_html(code);
            },
        }
    };
    assert(theme@ == palette_of(dark));
    let lines = split_inclusive_lines(code);
    let html = highlight_lines(sets, syntax.as_str(), theme.as_str(), &lines);
    let ghost lv = lines@.map_values(|x: String| x@);
    let mut out = String::new();
    let mut i: usize = 0;
    while i < lines.len()
        invariant
            i <= lines@.len(),
            html@.len() == lines@.len(),
            lv == lines@.map_values(|x: String| x@),
            forall|k: int|
                0 <= k < html@.len() ==> #[trigger] opt_view(html@[k]) == highlighted_lines(
                    syntax@,
                    theme@,
                    lv,
                )[k],
            out@ == joined_lines(lv, highlighted_lines(syntax@, theme@, lv), i as int),
        decreases lines.len() - i,
    {
        assert(opt_view(html@[i as int]) == highlighted_lines(syntax@, theme@, lv)[i as int]);
        assert(lv[i as int] == lines@[i as int]@);
        match &html[i] {
            Some(h) => out.append(h.as_str()),
            None => {
                let e = escape_html(lines[i].as_str());
                out.append(e.as_str());
            },
        }
        i = i + 1;
    }
    out
}

/// Highlights a code block, loading the bundled code sets for this one call.
pub fn highlight_code(code: &str, lang: &str, dark: bool) -> (r: String)
    ensures
        r@ == highlight_of(code@, lang@, dark),
{
    let sets = load_code_sets();
    highlight_code_with(&sets, code, lang, dark)
}

} // verus!
