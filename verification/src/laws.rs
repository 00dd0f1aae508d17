//! Properties that span functions: what one call undoes of another, and what
//! holds of every theme the library builds.
use vstd::prelude::*;
use vstd::utf8::{encode_utf8, is_ascii_chars, is_ascii_chars_encode_utf8};
use crate::clipboard::{cf_header, cf_html_of, cf_post, cf_pre, cf_template, pad10};
use crate::config::{other_than, replaced_opt, safe_url, url_char, with_root, without_root};
use crate::render::{placeholder_of, render_run, render_step, standalone_document_of, MdEnd, MdEvent, MdStart, MdUnit};
use crate::highlight::highlight_of;
use crate::text::{decimal, digit_char, drop_trailing_white, escape_char, escaped, is_white_space, skip_white, trimmed};
use crate::workspace::{ascii_lower, last_dot_before, md_name, same_ignoring_ascii_case, search_result, DocModel};
use crate::theme::{
    align_css_of, build_of, dark_hex_panics, quote_style_of, trim_hashes, heading_style_of, level_style, head_from_of, head_token_of, params_applied, preset, theme_catalogue, quote_from_of,
    quote_token_of, rule_from_of, rule_token_of, spec_of_tokens, table_from_of,
    table_token_of, tokens_of, HeadStyle, QuoteStyle, RuleStyle, SpecModel, TableStyle,
    ThemeModel, ThemeSpecModel,
};

verus! {

/// Reading back the token of a head layout gives the layout.
pub proof fn law_head_token_round_trip(h: HeadStyle)
    ensures
        head_from_of(head_token_of(h)) == h,
{
    reveal_strlit("academic");
    reveal_strlit("bar");
    reveal_strlit("block");
    reveal_strlit("book");
    reveal_strlit("bracket");
    reveal_strlit("magazine");
    reveal_strlit("pill");
    reveal_strlit("underline");
    match h {
        HeadStyle::Bar => {
            assert("bar"@.len() != "underline"@.len());
            assert("bar"@.len() != "block"@.len());
            assert("bar"@.len() != "pill"@.len());
            assert("bar"@.len() != "bracket"@.len());
            assert("bar"@.len() != "academic"@.len());
            assert("bar"@.len() != "magazine"@.len());
            assert("bar"@.len() != "book"@.len());
        },
        HeadStyle::Underline => {
        },
        HeadStyle::Block => {
            assert("block"@.len() != "underline"@.len());
        },
        HeadStyle::Pill => {
            assert("pill"@.len() != "underline"@.len());
            assert("pill"@.len() != "block"@.len());
        },
        HeadStyle::Bracket => {
            assert("bracket"@.len() != "underline"@.len());
            assert("bracket"@.len() != "block"@.len());
            assert("bracket"@.len() != "pill"@.len());
        },
        HeadStyle::Academic => {
            assert("academic"@.len() != "underline"@.len());
            assert("academic"@.len() != "block"@.len());
            assert("academic"@.len() != "pill"@.len());
            assert("academic"@.len() != "bracket"@.len());
        },
        HeadStyle::Magazine => {
            assert("magazine"@.len() != "underline"@.len());
            assert("magazine"@.len() != "block"@.len());
            assert("magazine"@.len() != "pill"@.len());
            assert("magazine"@.len() != "bracket"@.len());
            assert("magazine"@[0] != "academic"@[0]);
        },
        HeadStyle::Book => {
            assert("book"@.len() != "underline"@.len());
            assert("book"@.len() != "block"@.len());
            assert("book"@[0] != "pill"@[0]);
            assert("book"@.len() != "bracket"@.len());
            assert("book"@.len() != "academic"@.len());
            assert("book"@.len() != "magazine"@.len());
        },
    }
}
/// Reading back the token of a quote layout gives the layout.
pub proof fn law_quote_token_round_trip(q: QuoteStyle)
    ensures
        quote_from_of(quote_token_of(q)) == q,
{
    reveal_strlit("bar");
    reveal_strlit("card");
    reveal_strlit("rule");
    match q {
        QuoteStyle::Bar => {
            assert("bar"@.len() != "card"@.len());
            assert("bar"@.len() != "rule"@.len());
        },
        QuoteStyle::Card => {
        },
        QuoteStyle::Rule => {
            assert("rule"@[0] != "card"@[0]);
        },
    }
}
/// Reading back the token of a table layout gives the layout.
pub proof fn law_table_token_round_trip(t: TableStyle)
    ensures
        table_from_of(table_token_of(t)) == t,
{
    reveal_strlit("grid");
    reveal_strlit("striped");
    reveal_strlit("three_line");
    match t {
        TableStyle::Grid => {
            assert("grid"@.len() != "striped"@.len());
            assert("grid"@.len() != "three_line"@.len());
        },
        TableStyle::Striped => {
        },
        TableStyle::ThreeLine => {
            assert("three_line"@.len() != "striped"@.len());
        },
    }
}
/// Reading back the token of a rule layout gives the layout.
pub proof fn law_rule_token_round_trip(r: RuleStyle)
    ensures
        rule_from_of(rule_token_of(r)) == r,
{
    reveal_strlit("dashed");
    reveal_strlit("double");
    reveal_strlit("solid");
    match r {
        RuleStyle::Solid => {
            assert("solid"@.len() != "dashed"@.len());
            assert("solid"@.len() != "double"@.len());
        },
        RuleStyle::Dashed => {
        },
        RuleStyle::Double => {
            assert("double"@[1] != "dashed"@[1]);
        },
    }
}
/// Writing a specification as tokens and reading it back gives the same
/// specification.
pub proof fn law_spec_tokens_round_trip(s: SpecModel)
    ensures
        spec_of_tokens(tokens_of(s)) == s,
{
    law_head_token_round_trip(s.head);
    law_quote_token_round_trip(s.quote);
    law_table_token_round_trip(s.table);
    law_rule_token_round_trip(s.rule);
}

/// An editable copy of a preset (`ThemeSpec::from_preset`) renders exactly as
/// the preset itself (`themed`), whatever the global parameters.
pub proof fn law_preset_copy_renders_as_preset(id: Seq<char>, p: (Seq<char>, nat, Seq<char>))
    ensures
        params_applied(build_of(spec_of_tokens(tokens_of(preset(id)))), p) == params_applied(
            build_of(preset(id)),
            p,
        ),
{
    law_spec_tokens_round_trip(preset(id));
}

/// The font size, in pixels, of heading level `level` under layout `kind`.
pub open spec fn heading_size(kind: HeadStyle, level: int) -> nat {
    match kind {
        HeadStyle::Bar => {
            if level == 1 {
                26
            } else if level == 2 {
                22
            } else if level == 3 {
                19
            } else if level == 4 {
                17
            } else if level == 5 {
                15
            } else {
                14
            }
        },
        HeadStyle::Underline => {
            if level == 1 {
                26
            } else if level == 2 {
                22
            } else if level == 3 {
                19
            } else if level == 4 {
                17
            } else if level == 5 {
                15
            } else {
                14
            }
        },
        HeadStyle::Block => {
            if level == 1 {
                26
            } else if level == 2 {
                21
            } else if level == 3 {
                19
            } else if level == 4 {
                17
            } else if level == 5 {
                15
            } else {
                14
            }
        },
        HeadStyle::Pill => {
            if level == 1 {
                26
            } else if level == 2 {
                21
            } else if level == 3 {
                19
            } else if level == 4 {
                17
            } else if level == 5 {
                15
            } else {
                14
            }
        },
        HeadStyle::Bracket => {
            if level == 1 {
                26
            } else if level == 2 {
                21
            } else if level == 3 {
                19
            } else if level == 4 {
                17
            } else if level == 5 {
                15
            } else {
                14
            }
        },
        HeadStyle::Academic => {
            if level == 1 {
                24
            } else if level == 2 {
                20
            } else if level == 3 {
                17
            } else if level == 4 {
                15
            } else if level == 5 {
                14
            } else {
                13
            }
        },
        HeadStyle::Magazine => {
            if level == 1 {
                30
            } else if level == 2 {
                24
            } else if level == 3 {
                20
            } else if level == 4 {
                17
            } else if level == 5 {
                15
            } else {
                13
            }
        },
        HeadStyle::Book => {
            if level == 1 {
                28
            } else if level == 2 {
                22
            } else if level == 3 {
                19
            } else if level == 4 {
                17
            } else if level == 5 {
                15
            } else {
                14
            }
        },
    }
}

/// Every heading style opens with `font-size:NNpx;`: its two size digits sit at
/// positions 10 and 11.
proof fn lemma_heading_size_digits(
    kind: HeadStyle,
    level: int,
    accent: Seq<char>,
    head: Seq<char>,
    soft: Seq<char>,
    border: Seq<char>,
)
    requires
        1 <= level <= 6,
    ensures
        heading_style_of(kind, level, accent, head, soft, border).len() > 11,
        heading_style_of(kind, level, accent, head, soft, border)[10] == digit_char(
            heading_size(kind, level) / 10,
        ),
        heading_style_of(kind, level, accent, head, soft, border)[11] == digit_char(
            heading_size(kind, level) % 10,
        ),
{
    match kind {
        HeadStyle::Bar => {
            if level == 1 {
                reveal_strlit("font-size:26px;font-weight:bold;color:");
            } else if level == 2 {
                reveal_strlit("font-size:22px;font-weight:bold;color:");
            } else if level == 3 {
                reveal_strlit("font-size:19px;font-weight:bold;color:");
            } else if level == 4 {
                reveal_strlit("font-size:17px;font-weight:bold;color:");
            } else if level == 5 {
                reveal_strlit("font-size:15px;font-weight:bold;color:");
            } else {
                reveal_strlit("font-size:14px;font-weight:bold;color:");
            }
        },
        HeadStyle::Underline => {
            if level == 1 {
                reveal_strlit("font-size:26px;font-weight:bold;color:");
            } else if level == 2 {
                reveal_strlit("font-size:22px;font-weight:bold;color:");
            } else if level == 3 {
                reveal_strlit("font-size:19px;font-weight:bold;color:");
            } else if level == 4 {
                reveal_strlit("font-size:17px;font-weight:bold;color:");
            } else if level == 5 {
                reveal_strlit("font-size:15px;font-weight:bold;color:");
            } else {
                reveal_strlit("font-size:14px;font-weight:bold;color:");
            }
        },
        HeadStyle::Block => {
            if level == 1 {
                reveal_strlit("font-size:26px;font-weight:bold;color:#ffffff;background:");
            } else if level == 2 {
                reveal_strlit("font-size:21px;font-weight:bold;color:#ffffff;background:");
            } else if level == 3 {
                reveal_strlit("font-size:19px;font-weight:bold;color:");
            } else if level == 4 {
                reveal_strlit("font-size:17px;font-weight:bold;color:");
            } else if level == 5 {
                reveal_strlit("font-size:15px;font-weight:bold;color:");
            } else {
                reveal_strlit("font-size:14px;font-weight:bold;color:");
            }
        },
        HeadStyle::Pill => {
            if level == 1 {
                reveal_strlit("font-size:26px;font-weight:bold;color:");
            } else if level == 2 {
                reveal_strlit("font-size:21px;font-weight:bold;color:");
            } else if level == 3 {
                reveal_strlit("font-size:19px;font-weight:bold;color:");
            } else if level == 4 {
                reveal_strlit("font-size:17px;font-weight:bold;color:");
            } else if level == 5 {
                reveal_strlit("font-size:15px;font-weight:bold;color:");
            } else {
                reveal_strlit("font-size:14px;font-weight:bold;color:");
            }
        },
        HeadStyle::Bracket => {
            if level == 1 {
                reveal_strlit("font-size:26px;font-weight:bold;color:");
            } else if level == 2 {
                reveal_strlit("font-size:21px;font-weight:bold;color:");
            } else if level == 3 {
                reveal_strlit("font-size:19px;font-weight:bold;color:");
            } else if level == 4 {
                reveal_strlit("font-size:17px;font-weight:bold;color:");
            } else if level == 5 {
                reveal_strlit("font-size:15px;font-weight:bold;color:");
            } else {
                reveal_strlit("font-size:14px;font-weight:bold;color:");
            }
        },
        HeadStyle::Academic => {
            if level == 1 {
                reveal_strlit("font-size:24px;font-weight:bold;color:");
            } else if level == 2 {
                reveal_strlit("font-size:20px;font-weight:bold;color:");
            } else if level == 3 {
                reveal_strlit("font-size:17px;font-weight:bold;font-style:italic;color:");
            } else if level == 4 {
                reveal_strlit("font-size:15px;font-weight:bold;color:");
            } else if level == 5 {
                reveal_strlit("font-size:14px;font-weight:bold;color:");
            } else {
                reveal_strlit("font-size:13px;font-weight:bold;color:");
            }
        },
        HeadStyle::Magazine => {
            if level == 1 {
                reveal_strlit("font-size:30px;font-weight:bold;color:");
            } else if level == 2 {
                reveal_strlit("font-size:24px;font-weight:bold;color:");
            } else if level == 3 {
                reveal_strlit("font-size:20px;font-weight:bold;color:");
            } else if level == 4 {
                reveal_strlit("font-size:17px;font-weight:bold;color:");
            } else if level == 5 {
                reveal_strlit("font-size:15px;font-weight:bold;color:");
            } else {
                reveal_strlit("font-size:13px;font-weight:bold;color:");
            }
        },
        HeadStyle::Book => {
            if level == 1 {
                reveal_strlit("font-size:28px;font-weight:bold;color:");
            } else if level == 2 {
                reveal_strlit("font-size:22px;font-weight:bold;color:");
            } else if level == 3 {
                reveal_strlit("font-size:19px;font-weight:bold;color:");
            } else if level == 4 {
                reveal_strlit("font-size:17px;font-weight:bold;font-style:italic;color:");
            } else if level == 5 {
                reveal_strlit("font-size:15px;font-weight:bold;color:");
            } else {
                reveal_strlit("font-size:14px;font-style:italic;color:");
            }
        },
    }
}

/// Under every heading layout the font size steps down strictly from H1 to H6,
/// and every size has two digits.
pub proof fn law_heading_sizes_step_down(kind: HeadStyle, i: int, j: int)
    requires
        1 <= i < j <= 6,
    ensures
        heading_size(kind, i) > heading_size(kind, j),
        10 <= heading_size(kind, j),
        heading_size(kind, i) < 100,
{
}

/// The six heading levels of every theme, preset or custom, with or without
/// global parameters, have pairwise different styles.
pub proof fn law_heading_levels_distinct(
    s: SpecModel,
    p: (Seq<char>, nat, Seq<char>),
    i: int,
    j: int,
)
    requires
        1 <= i < j <= 6,
    ensures
        level_style(params_applied(build_of(s), p), i) != level_style(
            params_applied(build_of(s), p),
            j,
        ),
{
    let a = heading_style_of(s.head, i, s.accent, s.head_c, s.soft, s.border);
    let b = heading_style_of(s.head, j, s.accent, s.head_c, s.soft, s.border);
    lemma_heading_size_digits(s.head, i, s.accent, s.head_c, s.soft, s.border);
    lemma_heading_size_digits(s.head, j, s.accent, s.head_c, s.soft, s.border);
    law_heading_sizes_step_down(s.head, i, j);
    let t = params_applied(build_of(s), p);
    let ff = "font-family:"@ + crate::theme::font_stack_of(p.0) + ";"@;
    assert(level_style(t, i) == a + ff);
    assert(level_style(t, j) == b + ff);
    let si = heading_size(s.head, i);
    let sj = heading_size(s.head, j);
    assert(si / 10 != sj / 10 || si % 10 != sj % 10);
    if si / 10 != sj / 10 {
        assert((a + ff)[10] != (b + ff)[10]);
    } else {
        assert((a + ff)[11] != (b + ff)[11]);
    }
}

/// Every id outside the preset catalogue selects the default theme (vivid
/// orange), as the id `default` itself does.
pub proof fn law_unknown_preset_is_default(id: Seq<char>)
    requires
        forall|i: int| 0 <= i < theme_catalogue().len() ==> id != #[trigger] theme_catalogue()[i].0,
    ensures
        preset(id) == preset("default"@),
{
    reveal_strlit("default");
    reveal_strlit("wechat");
    reveal_strlit("minimal");
    reveal_strlit("purple");
    reveal_strlit("teal");
    reveal_strlit("crimson");
    reveal_strlit("forest");
    reveal_strlit("morandi");
    reveal_strlit("business");
    reveal_strlit("tech");
    reveal_strlit("academic");
    reveal_strlit("research");
    reveal_strlit("workplace");
    reveal_strlit("report");
    reveal_strlit("paper");
    reveal_strlit("magazine");
    reveal_strlit("book");
    assert(id != theme_catalogue()[1].0);
    assert("default"@.len() != "wechat"@.len());
    assert(id != theme_catalogue()[2].0);
    assert("default"@[0] != "minimal"@[0]);
    assert(id != theme_catalogue()[3].0);
    assert("default"@.len() != "purple"@.len());
    assert(id != theme_catalogue()[4].0);
    assert("default"@.len() != "teal"@.len());
    assert(id != theme_catalogue()[5].0);
    assert("default"@[0] != "crimson"@[0]);
    assert(id != theme_catalogue()[6].0);
    assert("default"@.len() != "forest"@.len());
    assert(id != theme_catalogue()[7].0);
    assert("default"@[0] != "morandi"@[0]);
    assert(id != theme_catalogue()[8].0);
    assert("default"@.len() != "business"@.len());
    assert(id != theme_catalogue()[9].0);
    assert("default"@.len() != "tech"@.len());
    assert(id != theme_catalogue()[10].0);
    assert("default"@.len() != "academic"@.len());
    assert(id != theme_catalogue()[11].0);
    assert("default"@.len() != "research"@.len());
    assert(id != theme_catalogue()[12].0);
    assert("default"@.len() != "workplace"@.len());
    assert(id != theme_catalogue()[13].0);
    assert("default"@.len() != "report"@.len());
    assert(id != theme_catalogue()[14].0);
    assert("default"@.len() != "paper"@.len());
    assert(id != theme_catalogue()[15].0);
    assert("default"@.len() != "magazine"@.len());
    assert(id != theme_catalogue()[16].0);
    assert("default"@.len() != "book"@.len());
}

/// Adding a workspace root twice lists it once: adding is idempotent.
pub proof fn law_add_root_idempotent(ws: Seq<Seq<char>>, root: Seq<char>)
    ensures
        with_root(with_root(ws, root), root) == with_root(ws, root),
        with_root(ws, root).contains(root),
{
    if !ws.contains(root) {
        assert(ws.push(root)[ws.len() as int] == root);
    }
}

proof fn lemma_kept_roots_were_listed(ws: Seq<Seq<char>>, root: Seq<char>, x: Seq<char>)
    requires
        without_root(ws, root).contains(x),
    ensures
        ws.contains(x),
        x != root,
    decreases ws.len(),
{
    let pred = other_than(root);
    if ws.len() == 0 {
        assert(ws.filter(pred) == ws);
    } else {
        let d = ws.drop_last();
        assert(ws == d.push(ws.last()));
        d.lemma_filter_push(ws.last(), pred);
        if without_root(d, root).contains(x) {
            lemma_kept_roots_were_listed(d, root, x);
            let i = choose|i: int| 0 <= i < d.len() && d[i] == x;
            assert(ws[i] == x);
        } else {
            assert(ws[ws.len() - 1] == x);
        }
    }
}

/// Removing a root leaves no occurrence of it and keeps every other root.
pub proof fn law_removed_root_is_gone(ws: Seq<Seq<char>>, root: Seq<char>, other: Seq<char>)
    requires
        other != root,
    ensures
        !without_root(ws, root).contains(root),
        without_root(ws, root).contains(other) == ws.contains(other),
{
    if without_root(ws, root).contains(root) {
        lemma_kept_roots_were_listed(ws, root, root);
    }
    if without_root(ws, root).contains(other) {
        lemma_kept_roots_were_listed(ws, root, other);
    }
    if ws.contains(other) {
        let i = choose|i: int| 0 <= i < ws.len() && ws[i] == other;
        ws.lemma_filter_contains(other_than(root), i);
    }
}

/// Removing a root undoes adding it.
pub proof fn law_remove_undoes_add(ws: Seq<Seq<char>>, root: Seq<char>)
    ensures
        without_root(with_root(ws, root), root) == without_root(ws, root),
{
    if !ws.contains(root) {
        ws.lemma_filter_push(root, other_than(root));
    }
}

/// Saving two changes of one preference one after the other leaves what saving
/// the later one alone over the earlier would: the later present value wins.
pub proof fn law_later_preference_wins<T>(saved: Option<T>, first: Option<T>, second: Option<T>)
    ensures
        replaced_opt(replaced_opt(saved, first), second) == replaced_opt(
            saved,
            replaced_opt(first, second),
        ),
        replaced_opt(saved, None) == saved,
{
}

/// A link that may be opened holds none of the characters a command shell
/// gives a meaning: `& | < > ^ %`, spaces, quotes, brackets or semicolons.
pub proof fn law_safe_url_has_no_shell_metacharacters(url: Seq<char>, i: int)
    requires
        safe_url(url),
        0 <= i < url.len(),
    ensures
        url[i] != '&' && url[i] != '|' && url[i] != '<' && url[i] != '>' && url[i] != '^' && url[i]
            != '%' && url[i] != ' ' && url[i] != '"' && url[i] != '\'' && url[i] != '(' && url[i]
            != ')' && url[i] != ';' && url[i] != '\t' && url[i] != '\n',
{
    assert(url_char(url[i]));
}

proof fn lemma_escaped_no_angle(s: Seq<char>)
    ensures
        forall|k: int| 0 <= k < escaped(s).len() ==> #[trigger] escaped(s)[k] != '<' && escaped(s)[k] != '>',
    decreases s.len(),
{
    reveal_strlit("&amp;");
    reveal_strlit("&lt;");
    reveal_strlit("&gt;");
    if s.len() > 0 {
        lemma_escaped_no_angle(s.drop_last());
        let a = escaped(s.drop_last());
        let b = escape_char(s.last());
        assert forall|k: int| 0 <= k < (a + b).len() implies #[trigger] (a + b)[k] != '<' && (a + b)[k] != '>' by {
            if k >= a.len() {
                assert((a + b)[k] == b[k - a.len()]);
            } else {
                assert((a + b)[k] == a[k]);
            }
        }
    }
}

/// The exported document holds the article verbatim, and its title can open or
/// close no tag: the escaped title holds no `<` and no `>`.
pub proof fn law_document_embeds_article(content: Seq<char>, title: Seq<char>)
    ensures
        ({
            let doc = standalone_document_of(content, title);
            let start = doc.len() - content.len() - "\n</div>\n</body>\n</html>"@.len();
            &&& 0 <= start
            &&& doc.subrange(start, start + content.len()) == content
        }),
        forall|k: int| 0 <= k < escaped(title).len() ==> #[trigger] escaped(title)[k] != '<' && escaped(title)[k] != '>',
{
    lemma_escaped_no_angle(title);
    let doc = standalone_document_of(content, title);
    let tail = "\n</div>\n</body>\n</html>"@;
    let head = doc.take(doc.len() - content.len() - tail.len());
    assert(doc == head + content + tail);
    assert(doc.subrange(head.len() as int, (head.len() + content.len()) as int) == content);
}

spec fn pow10(k: nat) -> nat
    decreases k,
{
    if k == 0 {
        1
    } else {
        10 * pow10((k - 1) as nat)
    }
}

proof fn lemma_decimal_len_bound(n: nat, k: nat)
    requires
        k >= 1,
        n < pow10(k),
    ensures
        decimal(n).len() <= k,
    decreases n,
{
    if n >= 10 {
        assert(k >= 2) by {
            if k == 1 {
                assert(pow10(1) == 10 * pow10(0));
            }
        }
        assert(pow10(k) == 10 * pow10((k - 1) as nat));
        assert(n / 10 < pow10((k - 1) as nat));
        lemma_decimal_len_bound(n / 10, (k - 1) as nat);
    }
}

proof fn lemma_decimal_ascii(n: nat)
    ensures
        is_ascii_chars(decimal(n)),
    decreases n,
{
    if n >= 10 {
        lemma_decimal_ascii(n / 10);
    }
}

proof fn lemma_pad10(n: nat)
    requires
        n < 10_000_000_000,
    ensures
        pad10(n).len() == 10,
        is_ascii_chars(pad10(n)),
{
    lemma_decimal_ascii(n);
    assert(pow10(10) == 10_000_000_000) by {
        reveal_with_fuel(pow10, 11);
    }
    lemma_decimal_len_bound(n, 10);
}

proof fn lemma_ascii_concat(a: Seq<char>, b: Seq<char>)
    requires
        is_ascii_chars(a),
        is_ascii_chars(b),
    ensures
        is_ascii_chars(a + b),
{
    assert forall|i: int| 0 <= i < (a + b).len() implies '\0' <= #[trigger] (a + b)[i] <= '\u{7f}' by {
        if i < a.len() {
            assert((a + b)[i] == a[i]);
        } else {
            assert((a + b)[i] == b[i - a.len()]);
        }
    }
}

/// The CF_HTML header says where the parts of the stream lie: whenever the
/// offsets fit ten digits, the header is exactly `StartHTML` bytes long, the
/// bytes from `StartFragment` to `EndFragment` are the fragment, those from
/// `StartHTML` to `EndHTML` are the HTML part, and one NUL byte ends the stream.
pub proof fn law_cf_html_offsets_locate_fragment(frag: Seq<u8>)
    requires
        encode_utf8(cf_template()).len() + encode_utf8(cf_pre()).len() + frag.len() + encode_utf8(
            cf_post(),
        ).len() < 10_000_000_000,
    ensures
        ({
            let start_html = encode_utf8(cf_template()).len();
            let start_fragment = start_html + encode_utf8(cf_pre()).len();
            let end_fragment = start_fragment + frag.len();
            let end_html = end_fragment + encode_utf8(cf_post()).len();
            let b = cf_html_of(frag);
            &&& encode_utf8(cf_header(start_html, end_html, start_fragment, end_fragment)).len()
                == start_html
            &&& b.subrange(start_fragment as int, end_fragment as int) == frag
            &&& b.subrange(start_html as int, end_html as int) == encode_utf8(cf_pre()) + frag
                + encode_utf8(cf_post())
            &&& b.len() == end_html + 1
            &&& b[end_html as int] == 0u8
        }),
{
    reveal_strlit("Version:0.9\r\nStartHTML:0000000000\r\nEndHTML:0000000000\r\nStartFragment:0000000000\r\nEndFragment:0000000000\r\n");
    reveal_strlit("<html><body>\r\n<!--StartFragment-->");
    reveal_strlit("<!--EndFragment-->\r\n</body></html>");
    reveal_strlit("Version:0.9\r\nStartHTML:");
    reveal_strlit("\r\nEndHTML:");
    reveal_strlit("\r\nStartFragment:");
    reveal_strlit("\r\nEndFragment:");
    reveal_strlit("\r\n");
    is_ascii_chars_encode_utf8(cf_template());
    is_ascii_chars_encode_utf8(cf_pre());
    is_ascii_chars_encode_utf8(cf_post());
    let start_html = encode_utf8(cf_template()).len();
    let start_fragment = start_html + encode_utf8(cf_pre()).len();
    let end_fragment = start_fragment + frag.len();
    let end_html = end_fragment + encode_utf8(cf_post()).len();
    lemma_pad10(start_html);
    lemma_pad10(start_fragment);
    lemma_pad10(end_fragment);
    lemma_pad10(end_html);
    let p1 = "Version:0.9\r\nStartHTML:"@;
    let p2 = "\r\nEndHTML:"@;
    let p3 = "\r\nStartFragment:"@;
    let p4 = "\r\nEndFragment:"@;
    let p5 = "\r\n"@;
    let h = cf_header(start_html, end_html, start_fragment, end_fragment);
    lemma_ascii_concat(p1, pad10(start_html));
    lemma_ascii_concat(p1 + pad10(start_html), p2);
    lemma_ascii_concat(p1 + pad10(start_html) + p2, pad10(end_html));
    lemma_ascii_concat(p1 + pad10(start_html) + p2 + pad10(end_html), p3);
    lemma_ascii_concat(p1 + pad10(start_html) + p2 + pad10(end_html) + p3, pad10(start_fragment));
    lemma_ascii_concat(p1 + pad10(start_html) + p2 + pad10(end_html) + p3 + pad10(start_fragment), p4);
    lemma_ascii_concat(
        p1 + pad10(start_html) + p2 + pad10(end_html) + p3 + pad10(start_fragment) + p4,
        pad10(end_fragment),
    );
    lemma_ascii_concat(
        p1 + pad10(start_html) + p2 + pad10(end_html) + p3 + pad10(start_fragment) + p4 + pad10(
            end_fragment,
        ),
        p5,
    );
    is_ascii_chars_encode_utf8(h);
    let eh = encode_utf8(h);
    let ep = encode_utf8(cf_pre());
    let eq = encode_utf8(cf_post());
    let b = cf_html_of(frag);
    assert(b == eh + ep + frag + eq + seq![0u8]);
    assert(b.subrange(start_fragment as int, end_fragment as int) == frag);
    assert(b.subrange(start_html as int, end_html as int) == ep + frag + eq);
}

/// A search never returns more hits than its limit, and a query of white space
/// only or a zero limit finds nothing.
pub proof fn law_search_within_limit(docs: Seq<DocModel>, query: Seq<char>, limit: nat)
    ensures
        search_result(docs, query, limit).len() <= limit,
        trimmed(query).len() == 0 ==> search_result(docs, query, limit).len() == 0,
        limit == 0 ==> search_result(docs, query, limit).len() == 0,
{
}

/// Images, formulas and Mermaid diagrams share one placeholder counter, which
/// starts at 0: the event at position `j` either leaves the counter as it is,
/// or raises it by one and appends the placeholder of the new number, with
/// the image source, the formula source or the diagram source as caption.
pub proof fn law_placeholders_share_one_counter(events: Seq<MdEvent<Seq<char>>>, t: ThemeModel, j: int)
    requires
        0 <= j < events.len(),
    ensures
        render_run(events.take(0), t).counter == 0,
        ({
            let s = render_run(events.take(j), t);
            let s1 = render_run(events.take(j + 1), t);
            &&& s1.counter == s.counter || s1.counter == s.counter + 1
            &&& (events[j] matches MdEvent::Start(MdStart::Image(url)) ==> s1.counter == s.counter + 1
                && s1.out == s.out + placeholder_of(t, s.counter + 1, url))
            &&& (events[j] matches MdEvent::Math(src) ==> !s.in_image ==> s1.counter == s.counter + 1
                && s1.out == s.out + placeholder_of(t, s.counter + 1, src))
            &&& (events[j] == MdEvent::<Seq<char>>::End(MdEnd::CodeBlock) && s.in_diagram ==> s1.counter
                == s.counter + 1 && s1.out == s.out + placeholder_of(t, s.counter + 1, s.code_buf))
            &&& (s1.counter == s.counter + 1 ==> (events[j] is Start && events[j]->Start_0 is Image)
                || events[j] is Math || (events[j] == MdEvent::<Seq<char>>::End(MdEnd::CodeBlock)
                && s.in_diagram))
        }),
{
    assert(events.take(0) == Seq::<MdEvent<Seq<char>>>::empty());
    let pre = events.take(j + 1);
    assert(pre.drop_last() == events.take(j));
    assert(pre.last() == events[j]);
}

/// A fenced code block whose language is `mermaid` opens no code block: it
/// is a diagram, kept as source until its end becomes a placeholder.
pub proof fn law_mermaid_fence_is_a_diagram(s: crate::render::RenderState, info: Seq<char>, t: ThemeModel)
    requires
        crate::text::first_word(info) == "mermaid"@,
    ensures
        render_step(s, MdEvent::Start(MdStart::FencedCode(info)), t).out == s.out,
        render_step(s, MdEvent::Start(MdStart::FencedCode(info)), t).in_diagram,
{
}

proof fn lemma_step_keeps_output(s: crate::render::RenderState, e: MdEvent<Seq<char>>, t: ThemeModel)
    ensures
        render_step(s, e, t).out.len() >= s.out.len(),
        forall|k: int| 0 <= k < s.out.len() ==> #[trigger] render_step(s, e, t).out[k] == s.out[k],
{
}

/// Rendering only appends: the HTML of the first `i` events is a prefix of the
/// HTML of the first `j >= i` events.
pub proof fn law_render_only_appends(events: Seq<MdEvent<Seq<char>>>, t: ThemeModel, i: int, j: int)
    requires
        0 <= i <= j <= events.len(),
    ensures
        render_run(events.take(i), t).out.len() <= render_run(events.take(j), t).out.len(),
        forall|k: int| 0 <= k < render_run(events.take(i), t).out.len() ==> #[trigger] render_run(events.take(j), t).out[k]
            == render_run(events.take(i), t).out[k],
    decreases j - i,
{
    if i < j {
        law_render_only_appends(events, t, i, j - 1);
        let pre = events.take(j);
        assert(pre.drop_last() == events.take(j - 1));
        lemma_step_keeps_output(render_run(events.take(j - 1), t), pre.last(), t);
    }
}

/// A code block without a language, or with one syntect does not know, is
/// its text escaped, whatever the palette.
pub proof fn law_unknown_language_is_plain_text(code: Seq<char>, lang: Seq<char>, dark: bool)
    requires
        crate::text::trimmed(lang).len() == 0 || crate::highlight::syntax_of(crate::text::trimmed(lang)) is None,
    ensures
        highlight_of(code, lang, dark) == escaped(code),
{
}

/// An unknown layout token in a custom specification selects the default
/// layout of its kind, as the default token does.
pub proof fn law_unknown_tokens_fall_back(s: ThemeSpecModel, head: Seq<char>, quote: Seq<char>, table: Seq<char>, rule: Seq<char>)
    requires
        head != "underline"@ && head != "block"@ && head != "pill"@ && head != "bracket"@ && head
            != "academic"@ && head != "magazine"@ && head != "book"@,
        quote != "card"@ && quote != "rule"@,
        table != "striped"@ && table != "three_line"@,
        rule != "dashed"@ && rule != "double"@,
    ensures
        spec_of_tokens(ThemeSpecModel { head, quote, table, rule, ..s }) == spec_of_tokens(
            ThemeSpecModel { head: "bar"@, quote: "bar"@, table: "grid"@, rule: "solid"@, ..s },
        ),
{
    reveal_strlit("bar");
    reveal_strlit("grid");
    reveal_strlit("solid");
    reveal_strlit("underline");
    reveal_strlit("block");
    reveal_strlit("pill");
    reveal_strlit("bracket");
    reveal_strlit("academic");
    reveal_strlit("magazine");
    reveal_strlit("book");
    reveal_strlit("card");
    reveal_strlit("rule");
    reveal_strlit("striped");
    reveal_strlit("three_line");
    reveal_strlit("dashed");
    reveal_strlit("double");
    assert("bar"@.len() != "underline"@.len());
    assert("bar"@ != "underline"@);
    assert("bar"@.len() != "block"@.len());
    assert("bar"@ != "block"@);
    assert("bar"@.len() != "pill"@.len());
    assert("bar"@ != "pill"@);
    assert("bar"@.len() != "bracket"@.len());
    assert("bar"@ != "bracket"@);
    assert("bar"@.len() != "academic"@.len());
    assert("bar"@ != "academic"@);
    assert("bar"@.len() != "magazine"@.len());
    assert("bar"@ != "magazine"@);
    assert("bar"@.len() != "book"@.len());
    assert("bar"@ != "book"@);
    assert("bar"@.len() != "card"@.len());
    assert("bar"@ != "card"@);
    assert("bar"@.len() != "rule"@.len());
    assert("bar"@ != "rule"@);
    assert("grid"@.len() != "striped"@.len());
    assert("grid"@ != "striped"@);
    assert("grid"@.len() != "three_line"@.len());
    assert("grid"@ != "three_line"@);
    assert("solid"@.len() != "dashed"@.len());
    assert("solid"@ != "dashed"@);
    assert("solid"@.len() != "double"@.len());
    assert("solid"@ != "double"@);
}

/// The global parameters only append to a theme's styles: every style of the
/// parametrised theme begins with the theme's own.
pub proof fn law_parameters_only_append(t: ThemeModel, p: (Seq<char>, nat, Seq<char>))
    ensures
        ({
            let a = params_applied(t, p);
            &&& a.p.take(t.p.len() as int) == t.p
            &&& a.li.take(t.li.len() as int) == t.li
            &&& a.blockquote.take(t.blockquote.len() as int) == t.blockquote
            &&& a.td.take(t.td.len() as int) == t.td
            &&& a.td_alt.take(t.td_alt.len() as int) == t.td_alt
            &&& a.th.take(t.th.len() as int) == t.th
            &&& a.h1.take(t.h1.len() as int) == t.h1
            &&& a.h6.take(t.h6.len() as int) == t.h6
            &&& a.strong == t.strong && a.pre == t.pre && a.code == t.code && a.code_dark == t.code_dark
        }),
{
    let a = params_applied(t, p);
    assert(a.p.take(t.p.len() as int) == t.p);
    assert(a.li.take(t.li.len() as int) == t.li);
    assert(a.blockquote.take(t.blockquote.len() as int) == t.blockquote);
    assert(a.td.take(t.td.len() as int) == t.td);
    assert(a.td_alt.take(t.td_alt.len() as int) == t.td_alt);
    assert(a.th.take(t.th.len() as int) == t.th);
    assert(a.h1.take(t.h1.len() as int) == t.h1);
    assert(a.h6.take(t.h6.len() as int) == t.h6);
}

proof fn lemma_skip_white_starts_dark(s: Seq<char>)
    ensures
        skip_white(s).len() > 0 ==> !is_white_space(skip_white(s)[0]),
    decreases s.len(),
{
    if s.len() > 0 && is_white_space(s[0]) {
        lemma_skip_white_starts_dark(s.drop_first());
    }
}

proof fn lemma_drop_trailing_is_prefix(s: Seq<char>)
    ensures
        drop_trailing_white(s).len() <= s.len(),
        drop_trailing_white(s) == s.take(drop_trailing_white(s).len() as int),
        drop_trailing_white(s).len() > 0 ==> !is_white_space(drop_trailing_white(s).last()),
    decreases s.len(),
{
    if s.len() > 0 && is_white_space(s.last()) {
        lemma_drop_trailing_is_prefix(s.drop_last());
        let d = drop_trailing_white(s.drop_last());
        assert(s.drop_last().take(d.len() as int) == s.take(d.len() as int));
    } else {
        assert(s.take(s.len() as int) == s);
    }
}

proof fn lemma_skip_white_of_dark(s: Seq<char>)
    requires
        s.len() > 0 ==> !is_white_space(s[0]),
    ensures
        skip_white(s) == s,
{
}

proof fn lemma_drop_trailing_of_dark(s: Seq<char>)
    requires
        s.len() > 0 ==> !is_white_space(s.last()),
    ensures
        drop_trailing_white(s) == s,
{
}

/// Trimming twice trims no more than trimming once.
pub proof fn law_trim_idempotent(s: Seq<char>)
    ensures
        trimmed(trimmed(s)) == trimmed(s),
{
    let a = skip_white(s);
    lemma_skip_white_starts_dark(s);
    lemma_drop_trailing_is_prefix(a);
    let t = drop_trailing_white(a);
    if t.len() > 0 {
        assert(t[0] == a[0]);
    }
    lemma_skip_white_of_dark(t);
    lemma_drop_trailing_of_dark(t);
}

/// White space around a query changes nothing in the search.
pub proof fn law_query_whitespace_is_ignored(docs: Seq<DocModel>, query: Seq<char>, limit: nat)
    ensures
        search_result(docs, trimmed(query), limit) == search_result(docs, query, limit),
{
    law_trim_idempotent(query);
}

/// Only the paper and book presets indent the first line of paragraphs, and
/// they have the largest line heights (1.9 and 1.95; every other preset has
/// 1.7 to 1.85).
pub proof fn law_only_paper_and_book_indent(id: Seq<char>)
    ensures
        preset(id).indent <==> (id == "paper"@ || id == "book"@),
        preset("paper"@).lh == "1.9"@,
        preset("book"@).lh == "1.95"@,
        !(id == "paper"@ || id == "book"@) ==> (preset(id).lh == "1.7"@ || preset(id).lh == "1.75"@
            || preset(id).lh == "1.8"@ || preset(id).lh == "1.85"@),
{
    reveal_strlit("paper");
    reveal_strlit("book");
    reveal_strlit("wechat");
    reveal_strlit("minimal");
    reveal_strlit("purple");
    reveal_strlit("teal");
    reveal_strlit("crimson");
    reveal_strlit("forest");
    reveal_strlit("morandi");
    reveal_strlit("business");
    reveal_strlit("tech");
    reveal_strlit("academic");
    reveal_strlit("research");
    reveal_strlit("workplace");
    reveal_strlit("report");
    reveal_strlit("magazine");
    assert("paper"@.len() != "wechat"@.len());
    assert("paper"@.len() != "minimal"@.len());
    assert("paper"@.len() != "purple"@.len());
    assert("paper"@.len() != "teal"@.len());
    assert("paper"@.len() != "crimson"@.len());
    assert("paper"@.len() != "forest"@.len());
    assert("paper"@.len() != "morandi"@.len());
    assert("paper"@.len() != "business"@.len());
    assert("paper"@.len() != "tech"@.len());
    assert("paper"@.len() != "academic"@.len());
    assert("paper"@.len() != "research"@.len());
    assert("paper"@.len() != "workplace"@.len());
    assert("paper"@.len() != "report"@.len());
    assert("book"@.len() != "wechat"@.len());
    assert("book"@.len() != "minimal"@.len());
    assert("book"@.len() != "purple"@.len());
    assert("book"@[0] != "teal"@[0]);
    assert("book"@.len() != "crimson"@.len());
    assert("book"@.len() != "forest"@.len());
    assert("book"@.len() != "morandi"@.len());
    assert("book"@.len() != "business"@.len());
    assert("book"@[0] != "tech"@[0]);
    assert("book"@.len() != "academic"@.len());
    assert("book"@.len() != "research"@.len());
    assert("book"@.len() != "workplace"@.len());
    assert("book"@.len() != "report"@.len());
    assert("book"@.len() != "paper"@.len());
    assert("book"@.len() != "magazine"@.len());
}

/// A table alternates its row colours exactly under the striped layout
/// (whenever the soft colour is not plain white, the odd rows' colour).
pub proof fn law_only_striped_tables_alternate(s: SpecModel)
    requires
        s.soft != "#ffffff"@,
    ensures
        (build_of(s).td_alt != build_of(s).td) <==> s.table == TableStyle::Striped,
{
    reveal_strlit("#ffffff");
    reveal_strlit(";padding:8px 10px;background:#ffffff;");
    reveal_strlit(";padding:8px 10px;background:");
    reveal_strlit(";");
    if s.table == TableStyle::Striped {
        let t = build_of(s);
        let pre = "border:1px solid "@ + s.border;
        let l1 = ";padding:8px 10px;background:#ffffff;"@;
        let l2 = ";padding:8px 10px;background:"@;
        assert(t.td == pre + l1);
        assert(t.td_alt == pre + l2 + s.soft + ";"@);
        if t.td_alt == t.td {
            let n = pre.len() + l2.len();
            assert(s.soft.len() == 7);
            assert forall|k: int| 0 <= k < 7 implies s.soft[k] == "#ffffff"@[k] by {
                assert(t.td_alt[n + k] == s.soft[k]);
                assert(t.td[n + k] == l1[l2.len() + k]);
            }
            assert(s.soft == "#ffffff"@);
        }
    }
}

/// How many times `c` occurs in `s`.
pub open spec fn occurrences(s: Seq<char>, c: char) -> nat
    decreases s.len(),
{
    if s.len() == 0 {
        0
    } else {
        occurrences(s.drop_last(), c) + if s.last() == c {
            1nat
        } else {
            0nat
        }
    }
}

/// Escaping lengthens a text by four characters for each `&` and three for
/// each `<` or `>`, and leaves no `<` or `>` in it.
pub proof fn law_escape_length(s: Seq<char>)
    ensures
        escaped(s).len() == s.len() + 4 * occurrences(s, '&') + 3 * (occurrences(s, '<')
            + occurrences(s, '>')),
        forall|k: int| 0 <= k < escaped(s).len() ==> #[trigger] escaped(s)[k] != '<' && escaped(s)[k] != '>',
    decreases s.len(),
{
    reveal_strlit("&amp;");
    reveal_strlit("&lt;");
    reveal_strlit("&gt;");
    lemma_escaped_no_angle(s);
    if s.len() > 0 {
        law_escape_length(s.drop_last());
    }
}

/// A text with the entities `&amp;`, `&lt;` and `&gt;` read back as the
/// characters they stand for, from left to right.
pub open spec fn unescaped(r: Seq<char>) -> Seq<char>
    decreases r.len(),
{
    if r.len() == 0 {
        Seq::empty()
    } else if r.len() >= 5 && r.take(5) == "&amp;"@ {
        seq!['&'] + unescaped(r.skip(5))
    } else if r.len() >= 4 && r.take(4) == "&lt;"@ {
        seq!['<'] + unescaped(r.skip(4))
    } else if r.len() >= 4 && r.take(4) == "&gt;"@ {
        seq!['>'] + unescaped(r.skip(4))
    } else {
        seq![r[0]] + unescaped(r.skip(1))
    }
}

proof fn lemma_escaped_front(c: char, s: Seq<char>)
    ensures
        escaped(seq![c] + s) == escape_char(c) + escaped(s),
    decreases s.len(),
{
    let t = seq![c] + s;
    if s.len() == 0 {
        assert(t.drop_last() == Seq::<char>::empty());
        assert(t == seq![c]);
        assert(escaped(Seq::<char>::empty()) == Seq::<char>::empty());
        assert(escape_char(c) + Seq::<char>::empty() == escape_char(c));
    } else {
        assert(t.drop_last() == seq![c] + s.drop_last());
        assert(t.last() == s.last());
        lemma_escaped_front(c, s.drop_last());
        assert(escape_char(c) + escaped(s.drop_last()) + escape_char(s.last()) == escape_char(c) + (
        escaped(s.drop_last()) + escape_char(s.last())));
    }
}

proof fn lemma_unescape_entity(c: char, x: Seq<char>)
    ensures
        unescaped(escape_char(c) + x) == seq![c] + unescaped(x),
{
    reveal_strlit("&amp;");
    reveal_strlit("&lt;");
    reveal_strlit("&gt;");
    let r = escape_char(c) + x;
    if c == '&' {
        assert(r.take(5) == "&amp;"@);
        assert(r.skip(5) == x);
    } else if c == '<' {
        assert(r[1] == 'l');
        assert(r.take(4) == "&lt;"@);
        assert(r.skip(4) == x);
    } else if c == '>' {
        assert(r[1] == 'g');
        assert(r.take(4) == "&gt;"@);
        assert(r.skip(4) == x);
    } else {
        assert(r[0] == c);
        assert(r.skip(1) == x);
        if r.len() >= 5 {
            assert(r.take(5)[0] != "&amp;"@[0]);
        }
        if r.len() >= 4 {
            assert(r.take(4)[0] != "&lt;"@[0]);
            assert(r.take(4)[0] != "&gt;"@[0]);
        }
    }
}

/// Reading the entities of an escaped text back gives the text: escaping
/// loses nothing.
pub proof fn law_escape_round_trip(s: Seq<char>)
    ensures
        unescaped(escaped(s)) == s,
    decreases s.len(),
{
    if s.len() > 0 {
        let rest = s.drop_first();
        assert(s == seq![s[0]] + rest);
        lemma_escaped_front(s[0], rest);
        lemma_unescape_entity(s[0], escaped(rest));
        law_escape_round_trip(rest);
    } else {
        assert(escaped(s) == Seq::<char>::empty());
    }
}

proof fn lemma_trim_hashes_suffix(b: Seq<u8>)
    ensures
        trim_hashes(b).len() <= b.len(),
        trim_hashes(b) == b.skip(b.len() - trim_hashes(b).len()),
    decreases b.len(),
{
    if b.len() > 0 && b[0] == 0x23 {
        lemma_trim_hashes_suffix(b.drop_first());
        let t = trim_hashes(b.drop_first());
        assert(b.drop_first().skip(b.len() - 1 - t.len()) == b.skip(b.len() - t.len()));
    } else {
        assert(b.skip(0) == b);
    }
}

/// A colour written in ASCII can always be read as three channels.
proof fn lemma_ascii_colour_readable(hex: Seq<char>)
    requires
        is_ascii_chars(hex),
    ensures
        !dark_hex_panics(hex),
{
    is_ascii_chars_encode_utf8(hex);
    vstd::utf8::is_ascii_chars_nat_bound(hex);
    let e = encode_utf8(hex);
    assert forall|j: int| 0 <= j < e.len() implies e[j] < 0x80 by {
        let c = hex[j];
        assert((c as nat) < 128);
        assert(e[j] == c as u8);
        let u = c as u32;
        assert(u < 128);
        assert((u as u8) < 0x80) by (bit_vector)
            requires
                u < 128,
        ;
    }
    lemma_trim_hashes_suffix(e);
    let h = trim_hashes(e);
    if h.len() == 6 {
        assert(h[2] == e[e.len() - 6 + 2]);
        assert(h[4] == e[e.len() - 6 + 4]);
    }
}

/// Every preset's code background can be read as a colour, so an editable copy
/// of a preset always builds, and it builds the preset itself.
pub proof fn law_preset_copies_build(id: Seq<char>)
    ensures
        !dark_hex_panics(preset(id).code_bg),
        build_of(spec_of_tokens(tokens_of(preset(id)))) == build_of(preset(id)),
{
    reveal_strlit("#282c34");
    reveal_strlit("#f5f5f5");
    reveal_strlit("#241f31");
    reveal_strlit("#16282a");
    reveal_strlit("#2a1a1e");
    reveal_strlit("#1b2a20");
    reveal_strlit("#2e2a26");
    reveal_strlit("#232a36");
    reveal_strlit("#1e2430");
    reveal_strlit("#0f1b26");
    reveal_strlit("#1f2233");
    reveal_strlit("#1f2637");
    reveal_strlit("#27272a");
    reveal_strlit("#2a1c26");
    lemma_ascii_colour_readable(preset(id).code_bg);
    law_spec_tokens_round_trip(preset(id));
}

/// The placeholder counter after the first `i` events.
pub open spec fn placeholders_after(events: Seq<MdEvent<Seq<char>>>, t: ThemeModel, i: int) -> nat {
    render_run(events.take(i), t).counter
}

proof fn lemma_counter_monotone(events: Seq<MdEvent<Seq<char>>>, t: ThemeModel, i: int, j: int)
    requires
        0 <= i <= j <= events.len(),
    ensures
        placeholders_after(events, t, i) <= placeholders_after(events, t, j),
    decreases j - i,
{
    if i < j {
        lemma_counter_monotone(events, t, i, j - 1);
        law_placeholders_share_one_counter(events, t, j - 1);
    }
}

proof fn lemma_number_reached(events: Seq<MdEvent<Seq<char>>>, t: ThemeModel, k: nat, i: int) -> (j: int)
    requires
        0 <= i <= events.len(),
        1 <= k <= placeholders_after(events, t, i),
    ensures
        0 <= j < i,
        placeholders_after(events, t, j) == k - 1,
        placeholders_after(events, t, j + 1) == k,
    decreases i,
{
    if i == 0 {
        law_placeholders_share_one_counter(events, t, 0);
        assert(events.take(0) == Seq::<MdEvent<Seq<char>>>::empty());
        assert(false);
        0
    } else {
        law_placeholders_share_one_counter(events, t, i - 1);
        if placeholders_after(events, t, i - 1) >= k {
            lemma_number_reached(events, t, k, i - 1)
        } else {
            i - 1
        }
    }
}

/// Rendering places the placeholder numbers 1 to n, where n is the final
/// count, each exactly once and in increasing order: number `k` is appended
/// by exactly one event, and by an earlier event than number `k + 1`.
pub proof fn law_each_number_placed_once(events: Seq<MdEvent<Seq<char>>>, t: ThemeModel, k: nat)
    requires
        1 <= k <= render_run(events, t).counter,
    ensures
        exists|j: int|
            0 <= j < events.len() && placeholders_after(events, t, j) == k - 1
                && #[trigger] placeholders_after(events, t, j + 1) == k,
        forall|j1: int, j2: int|
            0 <= j1 < events.len() && 0 <= j2 < events.len() && placeholders_after(events, t, j1) == k - 1
                && #[trigger] placeholders_after(events, t, j1 + 1) == k && placeholders_after(events, t, j2)
                == k - 1 && #[trigger] placeholders_after(events, t, j2 + 1) == k ==> j1 == j2,
        forall|j1: int, j2: int|
            0 <= j1 < events.len() && 0 <= j2 < events.len() && placeholders_after(events, t, j1) == k - 1
                && #[trigger] placeholders_after(events, t, j1 + 1) == k && placeholders_after(events, t, j2)
                == k && #[trigger] placeholders_after(events, t, j2 + 1) == k + 1 ==> j1 < j2,
{
    assert(events.take(events.len() as int) == events);
    let j = lemma_number_reached(events, t, k, events.len() as int);
    assert forall|j1: int, j2: int|
        0 <= j1 < events.len() && 0 <= j2 < events.len() && placeholders_after(events, t, j1) == k - 1
            && #[trigger] placeholders_after(events, t, j1 + 1) == k && placeholders_after(events, t, j2) == k
            - 1 && #[trigger] placeholders_after(events, t, j2 + 1) == k implies j1 == j2 by {
        if j1 < j2 {
            lemma_counter_monotone(events, t, j1 + 1, j2);
        } else if j2 < j1 {
            lemma_counter_monotone(events, t, j2 + 1, j1);
        }
    }
    assert forall|j1: int, j2: int|
        0 <= j1 < events.len() && 0 <= j2 < events.len() && placeholders_after(events, t, j1) == k - 1
            && #[trigger] placeholders_after(events, t, j1 + 1) == k && placeholders_after(events, t, j2) == k
            && #[trigger] placeholders_after(events, t, j2 + 1) == k + 1 implies j1 < j2 by {
        if j2 <= j1 {
            lemma_counter_monotone(events, t, j2 + 1, j1);
        }
    }
}

proof fn lemma_preset_ids_distinct()
    ensures
        "wechat"@ != "minimal"@,
        "wechat"@ != "purple"@,
        "wechat"@ != "teal"@,
        "wechat"@ != "crimson"@,
        "wechat"@ != "forest"@,
        "wechat"@ != "morandi"@,
        "wechat"@ != "business"@,
        "wechat"@ != "tech"@,
        "wechat"@ != "academic"@,
        "wechat"@ != "research"@,
        "wechat"@ != "workplace"@,
        "wechat"@ != "report"@,
        "wechat"@ != "paper"@,
        "wechat"@ != "magazine"@,
        "wechat"@ != "book"@,
        "minimal"@ != "purple"@,
        "minimal"@ != "teal"@,
        "minimal"@ != "crimson"@,
        "minimal"@ != "forest"@,
        "minimal"@ != "morandi"@,
        "minimal"@ != "business"@,
        "minimal"@ != "tech"@,
        "minimal"@ != "academic"@,
        "minimal"@ != "research"@,
        "minimal"@ != "workplace"@,
        "minimal"@ != "report"@,
        "minimal"@ != "paper"@,
        "minimal"@ != "magazine"@,
        "minimal"@ != "book"@,
        "purple"@ != "teal"@,
        "purple"@ != "crimson"@,
        "purple"@ != "forest"@,
        "purple"@ != "morandi"@,
        "purple"@ != "business"@,
        "purple"@ != "tech"@,
        "purple"@ != "academic"@,
        "purple"@ != "research"@,
        "purple"@ != "workplace"@,
        "purple"@ != "report"@,
        "purple"@ != "paper"@,
        "purple"@ != "magazine"@,
        "purple"@ != "book"@,
        "teal"@ != "crimson"@,
        "teal"@ != "forest"@,
        "teal"@ != "morandi"@,
        "teal"@ != "business"@,
        "teal"@ != "tech"@,
        "teal"@ != "academic"@,
        "teal"@ != "research"@,
        "teal"@ != "workplace"@,
        "teal"@ != "report"@,
        "teal"@ != "paper"@,
        "teal"@ != "magazine"@,
        "teal"@ != "book"@,
        "crimson"@ != "forest"@,
        "crimson"@ != "morandi"@,
        "crimson"@ != "business"@,
        "crimson"@ != "tech"@,
        "crimson"@ != "academic"@,
        "crimson"@ != "research"@,
        "crimson"@ != "workplace"@,
        "crimson"@ != "report"@,
        "crimson"@ != "paper"@,
        "crimson"@ != "magazine"@,
        "crimson"@ != "book"@,
        "forest"@ != "morandi"@,
        "forest"@ != "business"@,
        "forest"@ != "tech"@,
        "forest"@ != "academic"@,
        "forest"@ != "research"@,
        "forest"@ != "workplace"@,
        "forest"@ != "report"@,
        "forest"@ != "paper"@,
        "forest"@ != "magazine"@,
        "forest"@ != "book"@,
        "morandi"@ != "business"@,
        "morandi"@ != "tech"@,
        "morandi"@ != "academic"@,
        "morandi"@ != "research"@,
        "morandi"@ != "workplace"@,
        "morandi"@ != "report"@,
        "morandi"@ != "paper"@,
        "morandi"@ != "magazine"@,
        "morandi"@ != "book"@,
        "business"@ != "tech"@,
        "business"@ != "academic"@,
        "business"@ != "research"@,
        "business"@ != "workplace"@,
        "business"@ != "report"@,
        "business"@ != "paper"@,
        "business"@ != "magazine"@,
        "business"@ != "book"@,
        "tech"@ != "academic"@,
        "tech"@ != "research"@,
        "tech"@ != "workplace"@,
        "tech"@ != "report"@,
        "tech"@ != "paper"@,
        "tech"@ != "magazine"@,
        "tech"@ != "book"@,
        "academic"@ != "research"@,
        "academic"@ != "workplace"@,
        "academic"@ != "report"@,
        "academic"@ != "paper"@,
        "academic"@ != "magazine"@,
        "academic"@ != "book"@,
        "research"@ != "workplace"@,
        "research"@ != "report"@,
        "research"@ != "paper"@,
        "research"@ != "magazine"@,
        "research"@ != "book"@,
        "workplace"@ != "report"@,
        "workplace"@ != "paper"@,
        "workplace"@ != "magazine"@,
        "workplace"@ != "book"@,
        "report"@ != "paper"@,
        "report"@ != "magazine"@,
        "report"@ != "book"@,
        "paper"@ != "magazine"@,
        "paper"@ != "book"@,
        "magazine"@ != "book"@,
{
    reveal_strlit("wechat");
    reveal_strlit("minimal");
    reveal_strlit("purple");
    reveal_strlit("teal");
    reveal_strlit("crimson");
    reveal_strlit("forest");
    reveal_strlit("morandi");
    reveal_strlit("business");
    reveal_strlit("tech");
    reveal_strlit("academic");
    reveal_strlit("research");
    reveal_strlit("workplace");
    reveal_strlit("report");
    reveal_strlit("paper");
    reveal_strlit("magazine");
    reveal_strlit("book");
    assert("wechat"@.len() != "minimal"@.len());
    assert("wechat"@[0] != "purple"@[0]);
    assert("wechat"@.len() != "teal"@.len());
    assert("wechat"@.len() != "crimson"@.len());
    assert("wechat"@[0] != "forest"@[0]);
    assert("wechat"@.len() != "morandi"@.len());
    assert("wechat"@.len() != "business"@.len());
    assert("wechat"@.len() != "tech"@.len());
    assert("wechat"@.len() != "academic"@.len());
    assert("wechat"@.len() != "research"@.len());
    assert("wechat"@.len() != "workplace"@.len());
    assert("wechat"@[0] != "report"@[0]);
    assert("wechat"@.len() != "paper"@.len());
    assert("wechat"@.len() != "magazine"@.len());
    assert("wechat"@.len() != "book"@.len());
    assert("minimal"@.len() != "purple"@.len());
    assert("minimal"@.len() != "teal"@.len());
    assert("minimal"@[0] != "crimson"@[0]);
    assert("minimal"@.len() != "forest"@.len());
    assert("minimal"@[1] != "morandi"@[1]);
    assert("minimal"@.len() != "business"@.len());
    assert("minimal"@.len() != "tech"@.len());
    assert("minimal"@.len() != "academic"@.len());
    assert("minimal"@.len() != "research"@.len());
    assert("minimal"@.len() != "workplace"@.len());
    assert("minimal"@.len() != "report"@.len());
    assert("minimal"@.len() != "paper"@.len());
    assert("minimal"@.len() != "magazine"@.len());
    assert("minimal"@.len() != "book"@.len());
    assert("purple"@.len() != "teal"@.len());
    assert("purple"@.len() != "crimson"@.len());
    assert("purple"@[0] != "forest"@[0]);
    assert("purple"@.len() != "morandi"@.len());
    assert("purple"@.len() != "business"@.len());
    assert("purple"@.len() != "tech"@.len());
    assert("purple"@.len() != "academic"@.len());
    assert("purple"@.len() != "research"@.len());
    assert("purple"@.len() != "workplace"@.len());
    assert("purple"@[0] != "report"@[0]);
    assert("purple"@.len() != "paper"@.len());
    assert("purple"@.len() != "magazine"@.len());
    assert("purple"@.len() != "book"@.len());
    assert("teal"@.len() != "crimson"@.len());
    assert("teal"@.len() != "forest"@.len());
    assert("teal"@.len() != "morandi"@.len());
    assert("teal"@.len() != "business"@.len());
    assert("teal"@[2] != "tech"@[2]);
    assert("teal"@.len() != "academic"@.len());
    assert("teal"@.len() != "research"@.len());
    assert("teal"@.len() != "workplace"@.len());
    assert("teal"@.len() != "report"@.len());
    assert("teal"@.len() != "paper"@.len());
    assert("teal"@.len() != "magazine"@.len());
    assert("teal"@[0] != "book"@[0]);
    assert("crimson"@.len() != "forest"@.len());
    assert("crimson"@[0] != "morandi"@[0]);
    assert("crimson"@.len() != "business"@.len());
    assert("crimson"@.len() != "tech"@.len());
    assert("crimson"@.len() != "academic"@.len());
    assert("crimson"@.len() != "research"@.len());
    assert("crimson"@.len() != "workplace"@.len());
    assert("crimson"@.len() != "report"@.len());
    assert("crimson"@.len() != "paper"@.len());
    assert("crimson"@.len() != "magazine"@.len());
    assert("crimson"@.len() != "book"@.len());
    assert("forest"@.len() != "morandi"@.len());
    assert("forest"@.len() != "business"@.len());
    assert("forest"@.len() != "tech"@.len());
    assert("forest"@.len() != "academic"@.len());
    assert("forest"@.len() != "research"@.len());
    assert("forest"@.len() != "workplace"@.len());
    assert("forest"@[0] != "report"@[0]);
    assert("forest"@.len() != "paper"@.len());
    assert("forest"@.len() != "magazine"@.len());
    assert("forest"@.len() != "book"@.len());
    assert("morandi"@.len() != "business"@.len());
    assert("morandi"@.len() != "tech"@.len());
    assert("morandi"@.len() != "academic"@.len());
    assert("morandi"@.len() != "research"@.len());
    assert("morandi"@.len() != "workplace"@.len());
    assert("morandi"@.len() != "report"@.len());
    assert("morandi"@.len() != "paper"@.len());
    assert("morandi"@.len() != "magazine"@.len());
    assert("morandi"@.len() != "book"@.len());
    assert("business"@.len() != "tech"@.len());
    assert("business"@[0] != "academic"@[0]);
    assert("business"@[0] != "research"@[0]);
    assert("business"@.len() != "workplace"@.len());
    assert("business"@.len() != "report"@.len());
    assert("business"@.len() != "paper"@.len());
    assert("business"@[0] != "magazine"@[0]);
    assert("business"@.len() != "book"@.len());
    assert("tech"@.len() != "academic"@.len());
    assert("tech"@.len() != "research"@.len());
    assert("tech"@.len() != "workplace"@.len());
    assert("tech"@.len() != "report"@.len());
    assert("tech"@.len() != "paper"@.len());
    assert("tech"@.len() != "magazine"@.len());
    assert("tech"@[0] != "book"@[0]);
    assert("academic"@[0] != "research"@[0]);
    assert("academic"@.len() != "workplace"@.len());
    assert("academic"@.len() != "report"@.len());
    assert("academic"@.len() != "paper"@.len());
    assert("academic"@[0] != "magazine"@[0]);
    assert("academic"@.len() != "book"@.len());
    assert("research"@.len() != "workplace"@.len());
    assert("research"@.len() != "report"@.len());
    assert("research"@.len() != "paper"@.len());
    assert("research"@[0] != "magazine"@[0]);
    assert("research"@.len() != "book"@.len());
    assert("workplace"@.len() != "report"@.len());
    assert("workplace"@.len() != "paper"@.len());
    assert("workplace"@.len() != "magazine"@.len());
    assert("workplace"@.len() != "book"@.len());
    assert("report"@.len() != "paper"@.len());
    assert("report"@.len() != "magazine"@.len());
    assert("report"@.len() != "book"@.len());
    assert("paper"@.len() != "magazine"@.len());
    assert("paper"@.len() != "book"@.len());
    assert("magazine"@.len() != "book"@.len());
}

/// The layouts of every preset: heading, quote, table and rule layout of each
/// of the sixteen named presets, and of the default theme for every other id.
pub proof fn law_preset_layouts(id: Seq<char>)
    ensures
        id == "wechat"@ ==> (preset(id).head, preset(id).quote, preset(id).table, preset(id).rule) == (HeadStyle::Pill, QuoteStyle::Bar, TableStyle::Grid, RuleStyle::Solid),
        id == "minimal"@ ==> (preset(id).head, preset(id).quote, preset(id).table, preset(id).rule) == (HeadStyle::Underline, QuoteStyle::Rule, TableStyle::ThreeLine, RuleStyle::Solid),
        id == "purple"@ ==> (preset(id).head, preset(id).quote, preset(id).table, preset(id).rule) == (HeadStyle::Block, QuoteStyle::Card, TableStyle::Grid, RuleStyle::Solid),
        id == "teal"@ ==> (preset(id).head, preset(id).quote, preset(id).table, preset(id).rule) == (HeadStyle::Bar, QuoteStyle::Bar, TableStyle::Striped, RuleStyle::Solid),
        id == "crimson"@ ==> (preset(id).head, preset(id).quote, preset(id).table, preset(id).rule) == (HeadStyle::Pill, QuoteStyle::Card, TableStyle::Grid, RuleStyle::Dashed),
        id == "forest"@ ==> (preset(id).head, preset(id).quote, preset(id).table, preset(id).rule) == (HeadStyle::Underline, QuoteStyle::Bar, TableStyle::ThreeLine, RuleStyle::Solid),
        id == "morandi"@ ==> (preset(id).head, preset(id).quote, preset(id).table, preset(id).rule) == (HeadStyle::Bracket, QuoteStyle::Rule, TableStyle::Grid, RuleStyle::Solid),
        id == "business"@ ==> (preset(id).head, preset(id).quote, preset(id).table, preset(id).rule) == (HeadStyle::Bracket, QuoteStyle::Bar, TableStyle::Striped, RuleStyle::Solid),
        id == "tech"@ ==> (preset(id).head, preset(id).quote, preset(id).table, preset(id).rule) == (HeadStyle::Block, QuoteStyle::Card, TableStyle::Striped, RuleStyle::Solid),
        id == "academic"@ ==> (preset(id).head, preset(id).quote, preset(id).table, preset(id).rule) == (HeadStyle::Academic, QuoteStyle::Rule, TableStyle::ThreeLine, RuleStyle::Solid),
        id == "research"@ ==> (preset(id).head, preset(id).quote, preset(id).table, preset(id).rule) == (HeadStyle::Underline, QuoteStyle::Card, TableStyle::ThreeLine, RuleStyle::Solid),
        id == "workplace"@ ==> (preset(id).head, preset(id).quote, preset(id).table, preset(id).rule) == (HeadStyle::Bar, QuoteStyle::Card, TableStyle::Striped, RuleStyle::Solid),
        id == "report"@ ==> (preset(id).head, preset(id).quote, preset(id).table, preset(id).rule) == (HeadStyle::Bar, QuoteStyle::Bar, TableStyle::Striped, RuleStyle::Double),
        id == "paper"@ ==> (preset(id).head, preset(id).quote, preset(id).table, preset(id).rule) == (HeadStyle::Academic, QuoteStyle::Rule, TableStyle::ThreeLine, RuleStyle::Solid),
        id == "magazine"@ ==> (preset(id).head, preset(id).quote, preset(id).table, preset(id).rule) == (HeadStyle::Magazine, QuoteStyle::Card, TableStyle::Striped, RuleStyle::Dashed),
        id == "book"@ ==> (preset(id).head, preset(id).quote, preset(id).table, preset(id).rule) == (HeadStyle::Book, QuoteStyle::Rule, TableStyle::Grid, RuleStyle::Solid),
        (id != "wechat"@ && id != "minimal"@ && id != "purple"@ && id != "teal"@ && id != "crimson"@ && id != "forest"@ && id != "morandi"@ && id != "business"@ && id != "tech"@ && id != "academic"@ && id != "research"@ && id != "workplace"@ && id != "report"@ && id != "paper"@ && id != "magazine"@ && id != "book"@) ==> (preset(id).head, preset(id).quote, preset(id).table, preset(id).rule) == (HeadStyle::Bar, QuoteStyle::Bar, TableStyle::Grid, RuleStyle::Solid),
{
    lemma_preset_ids_distinct();
}

/// Three-line tables (top rule, header rule, bottom rule, no vertical rules)
/// belong to exactly the minimal, forest, academic, research and paper
/// presets; the striped layout to exactly teal, business, tech, workplace,
/// report and magazine; every other id has a full grid.
pub proof fn law_preset_table_layouts(id: Seq<char>)
    ensures
        preset(id).table == TableStyle::ThreeLine <==> (id == "minimal"@ || id == "forest"@ || id == "academic"@ || id == "research"@ || id == "paper"@),
        preset(id).table == TableStyle::Striped <==> (id == "teal"@ || id == "business"@ || id == "tech"@ || id == "workplace"@ || id == "report"@ || id == "magazine"@),
{
    lemma_preset_ids_distinct();
}

/// Each layout's token is the layout's own name, and that name reads back as
/// the layout; every other text reads as the layout's default.
pub proof fn law_layout_tokens_are_their_names(h: Seq<char>, q: Seq<char>, tb: Seq<char>, r: Seq<char>)
    ensures
        head_token_of(HeadStyle::Bar) == "bar"@ && head_token_of(HeadStyle::Underline) == "underline"@
            && head_token_of(HeadStyle::Block) == "block"@ && head_token_of(HeadStyle::Pill) == "pill"@
            && head_token_of(HeadStyle::Bracket) == "bracket"@ && head_token_of(HeadStyle::Academic)
            == "academic"@ && head_token_of(HeadStyle::Magazine) == "magazine"@ && head_token_of(
            HeadStyle::Book,
        ) == "book"@,
        quote_token_of(QuoteStyle::Bar) == "bar"@ && quote_token_of(QuoteStyle::Card) == "card"@
            && quote_token_of(QuoteStyle::Rule) == "rule"@,
        table_token_of(TableStyle::Grid) == "grid"@ && table_token_of(TableStyle::Striped)
            == "striped"@ && table_token_of(TableStyle::ThreeLine) == "three_line"@,
        rule_token_of(RuleStyle::Solid) == "solid"@ && rule_token_of(RuleStyle::Dashed) == "dashed"@
            && rule_token_of(RuleStyle::Double) == "double"@,
        head_from_of(h) == (if h == "underline"@ {
            HeadStyle::Underline
        } else if h == "block"@ {
            HeadStyle::Block
        } else if h == "pill"@ {
            HeadStyle::Pill
        } else if h == "bracket"@ {
            HeadStyle::Bracket
        } else if h == "academic"@ {
            HeadStyle::Academic
        } else if h == "magazine"@ {
            HeadStyle::Magazine
        } else if h == "book"@ {
            HeadStyle::Book
        } else {
            HeadStyle::Bar
        }),
        quote_from_of(q) == (if q == "card"@ {
            QuoteStyle::Card
        } else if q == "rule"@ {
            QuoteStyle::Rule
        } else {
            QuoteStyle::Bar
        }),
        table_from_of(tb) == (if tb == "striped"@ {
            TableStyle::Striped
        } else if tb == "three_line"@ {
            TableStyle::ThreeLine
        } else {
            TableStyle::Grid
        }),
        rule_from_of(r) == (if r == "dashed"@ {
            RuleStyle::Dashed
        } else if r == "double"@ {
            RuleStyle::Double
        } else {
            RuleStyle::Solid
        }),
{
}

/// What the quote layouts look like: a bar has a 4px left border, a card a
/// 1px border all round and italic text, a rule layout only top and bottom
/// borders around centred italic text.
pub proof fn law_quote_layouts_look(accent: Seq<char>, soft: Seq<char>, border: Seq<char>, r: nat)
    ensures
        quote_style_of(QuoteStyle::Bar, accent, soft, border, r).take(22) == "border-left:4px solid "@,
        quote_style_of(QuoteStyle::Card, accent, soft, border, r).take(17) == "border:1px solid "@,
        ({
            let c = quote_style_of(QuoteStyle::Card, accent, soft, border, r);
            c.subrange(c.len() - 18, c.len() as int) == "font-style:italic;"@
        }),
        quote_style_of(QuoteStyle::Rule, accent, soft, border, r).take(21) == "border-top:1px solid "@,
        ({
            let w = quote_style_of(QuoteStyle::Rule, accent, soft, border, r);
            w.subrange(w.len() - 36, w.len() as int) == "font-style:italic;text-align:center;"@
        }),
{
    reveal_strlit("border-left:4px solid ");
    reveal_strlit("border:1px solid ");
    reveal_strlit("border-top:1px solid ");
    reveal_strlit("font-style:italic;");
    reveal_strlit("font-style:italic;text-align:center;");
    reveal_strlit("px;margin:18px 0;font-style:italic;");
    reveal_strlit(";color:#6a7079;padding:12px 6px;margin:18px 0;font-style:italic;text-align:center;");
    let a = quote_style_of(QuoteStyle::Bar, accent, soft, border, r);
    assert(a.take(22) == "border-left:4px solid "@);
    let c = quote_style_of(QuoteStyle::Card, accent, soft, border, r);
    assert(c.take(17) == "border:1px solid "@);
    let cs = "px;margin:18px 0;font-style:italic;"@;
    assert(c.subrange(c.len() - 18, c.len() as int) == cs.subrange(cs.len() - 18, cs.len() as int));
    let w = quote_style_of(QuoteStyle::Rule, accent, soft, border, r);
    assert(w.take(21) == "border-top:1px solid "@);
    let ws = ";color:#6a7079;padding:12px 6px;margin:18px 0;font-style:italic;text-align:center;"@;
    assert(w.subrange(w.len() - 36, w.len() as int) == ws.subrange(ws.len() - 36, ws.len() as int));
}

/// Each of the four alignment tokens gives the CSS alignment of the same name;
/// every other token gives `left`.
pub proof fn law_alignment_tokens(a: Seq<char>)
    ensures
        align_css_of(a) == (if a == "center"@ || a == "right"@ || a == "justify"@ {
            a
        } else {
            "left"@
        }),
        align_css_of("left"@) == "left"@,
        align_css_of("justify"@) == "justify"@,
{
}

/// Code in a language syntect knows is highlighted with `base16-ocean.dark`
/// on a dark code background and with `base16-ocean.light` on a light one.
pub proof fn law_palette_follows_background(code: Seq<char>, lang: Seq<char>, syntax: Seq<char>)
    requires
        crate::text::trimmed(lang).len() > 0,
        crate::highlight::syntax_of(crate::text::trimmed(lang)) == Some(syntax),
    ensures
        highlight_of(code, lang, true) == crate::highlight::joined_lines(
            crate::highlight::inclusive_lines(code),
            crate::highlight::highlighted_lines(syntax, "base16-ocean.dark"@, crate::highlight::inclusive_lines(code)),
            crate::highlight::inclusive_lines(code).len() as int,
        ),
        highlight_of(code, lang, false) == crate::highlight::joined_lines(
            crate::highlight::inclusive_lines(code),
            crate::highlight::highlighted_lines(syntax, "base16-ocean.light"@, crate::highlight::inclusive_lines(code)),
            crate::highlight::inclusive_lines(code).len() as int,
        ),
{
}

/// Table rows alternate starting from white: after a table opens, body rows
/// are counted from 1, and every cell of an odd body row carries the theme's
/// `td` style, every cell of an even one its `td_alt` style.
pub proof fn law_table_rows_alternate_from_first(s: crate::render::RenderState, t: ThemeModel)
    ensures
        render_step(s, MdEvent::Start(MdStart::Unit(MdUnit::Table)), t).body_row == 0,
        ({
            let row = render_step(s, MdEvent::Start(MdStart::Unit(MdUnit::TableRow)), t);
            let cell = render_step(row, MdEvent::Start(MdStart::Unit(MdUnit::TableCell)), t);
            &&& row.body_row == s.body_row + 1
            &&& !s.in_thead ==> cell.out == row.out + crate::render::open_tag(
                "td"@,
                if row.body_row % 2 == 1 {
                    t.td
                } else {
                    t.td_alt
                },
            )
        }),
{
}

/// What the renderer writes for each kind of event: every element opens with
/// its own tag name and the theme's style for that element, closes with the
/// matching tag, text is escaped (kept for the highlighter inside code, dropped
/// inside an image's alt text), and raw HTML is escaped rather than passed on.
pub proof fn law_elements_carry_their_styles(s: crate::render::RenderState, t: ThemeModel, x: Seq<char>)
    ensures
        render_step(s, MdEvent::Start(MdStart::Unit(MdUnit::Paragraph)), t).out == s.out + crate::render::open_tag("p"@, t.p),
        render_step(s, MdEvent::Start(MdStart::Unit(MdUnit::Strong)), t).out == s.out + crate::render::open_tag("strong"@, t.strong),
        render_step(s, MdEvent::Start(MdStart::Unit(MdUnit::Emphasis)), t).out == s.out + crate::render::open_tag("em"@, t.em),
        render_step(s, MdEvent::Start(MdStart::Unit(MdUnit::Strikethrough)), t).out == s.out + crate::render::open_tag("del"@, t.del),
        render_step(s, MdEvent::Start(MdStart::Unit(MdUnit::Item)), t).out == s.out + crate::render::open_tag("li"@, t.li),
        render_step(s, MdEvent::Start(MdStart::Unit(MdUnit::BlockQuote)), t).out == s.out + crate::render::open_tag("blockquote"@, t.blockquote),
        render_step(s, MdEvent::Start(MdStart::Unit(MdUnit::Table)), t).out == s.out + crate::render::open_tag("table"@, t.table),
        render_step(s, MdEvent::Start(MdStart::List(None)), t).out == s.out + crate::render::open_tag("ul"@, t.ul),
        render_step(s, MdEvent::End(MdEnd::Unit(MdUnit::Paragraph)), t).out == s.out + "</p>"@,
        render_step(s, MdEvent::End(MdEnd::Unit(MdUnit::Strong)), t).out == s.out + "</strong>"@,
        render_step(s, MdEvent::End(MdEnd::Unit(MdUnit::Emphasis)), t).out == s.out + "</em>"@,
        render_step(s, MdEvent::End(MdEnd::Unit(MdUnit::Strikethrough)), t).out == s.out + "</del>"@,
        render_step(s, MdEvent::End(MdEnd::Unit(MdUnit::Item)), t).out == s.out + "</li>"@,
        render_step(s, MdEvent::End(MdEnd::Unit(MdUnit::BlockQuote)), t).out == s.out + "</blockquote>"@,
        render_step(s, MdEvent::End(MdEnd::List(false)), t).out == s.out + "</ul>"@,
        render_step(s, MdEvent::End(MdEnd::List(true)), t).out == s.out + "</ol>"@,
        render_step(s, MdEvent::End(MdEnd::Link), t).out == s.out + "</a>"@,
        render_step(s, MdEvent::Code(x), t).out == s.out + "<code style=\""@ + t.code_inline + "\">"@ + escaped(x) + "</code>"@,
        render_step(s, MdEvent::Html(x), t).out == s.out + escaped(x),
        render_step(s, MdEvent::SoftBreak, t).out == s.out + "\n"@,
        render_step(s, MdEvent::HardBreak, t).out == s.out + "<br/>"@,
        render_step(s, MdEvent::Rule, t).out == s.out + "<hr style=\""@ + t.hr + "\"/>"@,
        render_step(s, MdEvent::Start(MdStart::Link(x)), t).out == s.out + "<a style=\""@ + t.a + "\" href=\""@ + crate::text::attr_escaped(x) + "\">"@,
        !s.in_code && !s.in_image ==> render_step(s, MdEvent::Text(x), t).out == s.out + escaped(x),
        s.in_code ==> render_step(s, MdEvent::Text(x), t).code_buf == s.code_buf + x
            && render_step(s, MdEvent::Text(x), t).out == s.out,
        !s.in_code && s.in_image ==> render_step(s, MdEvent::Text(x), t) == s,
        crate::render::open_tag(x, s.out) == "<"@ + x + " style=\""@ + s.out + "\">"@,
{
}

/// Heading level `k` opens `<hk>` with the theme's style for level `k`.
pub proof fn law_heading_levels_use_their_styles(s: crate::render::RenderState, t: ThemeModel, level: u8)
    requires
        1 <= level <= 6,
    ensures
        render_step(s, MdEvent::Start(MdStart::Heading(level)), t).out == s.out + "<h"@ + decimal(level as nat)
            + " style=\""@ + (if level == 1 {
            t.h1
        } else if level == 2 {
            t.h2
        } else if level == 3 {
            t.h3
        } else if level == 4 {
            t.h4
        } else if level == 5 {
            t.h5
        } else {
            t.h6
        }) + "\">"@,
        render_step(s, MdEvent::End(MdEnd::Heading(level)), t).out == s.out + "</h"@ + decimal(level as nat) + ">"@,
        decimal(level as nat) == seq![digit_char(level as nat)],
{
}

/// What the table layouts look like: a grid draws 1px borders round every
/// cell and does not alternate; a striped table has white odd rows and
/// soft-coloured even rows; a three-line table draws no cell borders at all.
pub proof fn law_table_layouts_look(accent: Seq<char>, soft: Seq<char>, head_c: Seq<char>, border: Seq<char>)
    ensures
        ({
            let g = crate::theme::table_styles_of(TableStyle::Grid, accent, soft, head_c, border);
            &&& g.2 == g.3
            &&& g.2 == "border:1px solid "@ + border + ";padding:8px 10px;"@
        }),
        ({
            let st = crate::theme::table_styles_of(TableStyle::Striped, accent, soft, head_c, border);
            &&& st.2 == "border:1px solid "@ + border + ";padding:8px 10px;background:#ffffff;"@
            &&& st.3 == "border:1px solid "@ + border + ";padding:8px 10px;background:"@ + soft + ";"@
        }),
        ({
            let th = crate::theme::table_styles_of(TableStyle::ThreeLine, accent, soft, head_c, border);
            &&& th.2 == "border:none;padding:8px 10px;"@
            &&& th.3 == th.2
            &&& th.1.take(12) == "border:none;"@
        }),
{
    reveal_strlit("border:none;");
    reveal_strlit("border:none;border-bottom:1px solid ");
    let th = crate::theme::table_styles_of(TableStyle::ThreeLine, accent, soft, head_c, border);
    assert(th.1.take(12) == "border:none;"@);
}

/// The rule layouts: a 1px solid, a 1px dashed or a 3px double top border.
pub proof fn law_rule_layouts_look(border: Seq<char>)
    ensures
        crate::theme::rule_style_of(RuleStyle::Solid, border) == "border:none;border-top:1px solid "@ + border + ";margin:24px 0;"@,
        crate::theme::rule_style_of(RuleStyle::Dashed, border) == "border:none;border-top:1px dashed "@ + border + ";margin:24px 0;"@,
        crate::theme::rule_style_of(RuleStyle::Double, border) == "border:none;border-top:3px double "@ + border + ";margin:26px 0;"@,
{
}

/// The shape language: blocks and pills are round (10px), books soft (6px),
/// bars, bracket rules and magazines square (4px), underlines and academic
/// headings crisp (2px); code blocks and placeholders use two pixels more.
pub proof fn law_corner_radii(s: SpecModel)
    ensures
        crate::theme::radius_of(HeadStyle::Block) == 10 && crate::theme::radius_of(HeadStyle::Pill) == 10,
        crate::theme::radius_of(HeadStyle::Book) == 6,
        crate::theme::radius_of(HeadStyle::Bar) == 4 && crate::theme::radius_of(HeadStyle::Bracket) == 4
            && crate::theme::radius_of(HeadStyle::Magazine) == 4,
        crate::theme::radius_of(HeadStyle::Underline) == 2 && crate::theme::radius_of(HeadStyle::Academic) == 2,
        build_of(s).placeholder == "border:2px dashed "@ + s.ph_border + ";background:"@ + s.ph_bg + ";color:"@
            + s.ph_fg + ";text-align:center;padding:16px;margin:16px 0;border-radius:"@ + decimal(
            crate::theme::radius_of(s.head) + 2,
        ) + "px;"@,
{
}

/// The global parameters: the font family goes to body text, list items,
/// quotes, table cells and all six headings; the font size to body text and
/// list items only; the alignment to body text only.
pub proof fn law_parameter_targets(t: ThemeModel, p: (Seq<char>, nat, Seq<char>))
    ensures
        ({
            let a = params_applied(t, p);
            let ff = "font-family:"@ + crate::theme::font_stack_of(p.0) + ";"@;
            let fs = "font-size:"@ + decimal(p.1) + "px;"@;
            let al = "text-align:"@ + align_css_of(p.2) + ";"@;
            &&& a.p == t.p + ff + fs + al
            &&& a.li == t.li + ff + fs
            &&& a.blockquote == t.blockquote + ff && a.td == t.td + ff && a.td_alt == t.td_alt + ff && a.th == t.th + ff
            &&& a.h1 == t.h1 + ff && a.h2 == t.h2 + ff && a.h3 == t.h3 + ff && a.h4 == t.h4 + ff && a.h5 == t.h5 + ff
                && a.h6 == t.h6 + ff
            &&& a.strong == t.strong && a.em == t.em && a.del == t.del && a.code_inline == t.code_inline
                && a.pre == t.pre && a.code == t.code && a.code_dark == t.code_dark && a.ul == t.ul && a.ol == t.ol
                && a.a == t.a && a.table == t.table && a.hr == t.hr && a.placeholder == t.placeholder
                && a.placeholder_label == t.placeholder_label && a.placeholder_caption == t.placeholder_caption
        }),
{
}

/// A placeholder is a section whose label reads `【此处插入图片 N】` with its
/// number, followed by its escaped source as caption.
pub proof fn law_placeholder_text(t: ThemeModel, n: nat, src: Seq<char>)
    ensures
        placeholder_of(t, n, src) == "<section style=\""@ + t.placeholder + "\"><p style=\""@ + t.placeholder_label
            + "\">【此处插入图片 "@ + decimal(n) + "】</p><p style=\""@ + t.placeholder_caption + "\">"@
            + escaped(src) + "</p></section>"@,
{
    reveal_strlit("\">");
    reveal_strlit("【此处插入图片 ");
    reveal_strlit("\">【此处插入图片 ");
    reveal_strlit("】");
    reveal_strlit("</p><p style=\"");
    reveal_strlit("】</p><p style=\"");
    let a = "<section style=\""@ + t.placeholder + "\"><p style=\""@ + t.placeholder_label;
    assert(a + "\">"@ + "【此处插入图片 "@ == a + "\">【此处插入图片 "@);
    assert(a + "\">【此处插入图片 "@ + decimal(n) + "】"@ + "</p><p style=\""@ == a + "\">【此处插入图片 "@ + decimal(n)
        + "】</p><p style=\""@);
}

/// A hit's snippet is its trimmed line cut to at most 160 characters: the
/// whole trimmed line when it is that short, else its first 160 characters.
pub proof fn law_snippets_are_cut_at_160(line: Seq<char>)
    ensures
        crate::workspace::snippet_of(line).len() <= 160,
        crate::workspace::snippet_of(line) == trimmed(line).take(crate::workspace::snippet_of(line).len() as int),
        trimmed(line).len() <= 160 ==> crate::workspace::snippet_of(line) == trimmed(line),
        trimmed(line).len() > 160 ==> crate::workspace::snippet_of(line).len() == 160,
{
    assert(trimmed(line).take(trimmed(line).len() as int) == trimmed(line));
}

/// Lines are numbered from 1: a query found on a document's first line gives
/// a first hit numbered 1, with that line's snippet; lines without the query
/// give no hit.
pub proof fn law_hit_lines_count_from_one(name: Seq<char>, path: Seq<char>, lines: Seq<Seq<char>>, q: Seq<char>)
    requires
        lines.len() > 0,
    ensures
        crate::workspace::occurs_in(q, crate::workspace::lowercase(lines[0])) ==> crate::workspace::line_hits(name, path, lines, q, 0)[0]
            == (name, path, 1nat, crate::workspace::snippet_of(lines[0])),
        !crate::workspace::occurs_in(q, crate::workspace::lowercase(lines[0])) ==> crate::workspace::line_hits(name, path, lines, q, 0)
            == crate::workspace::line_hits(name, path, lines.drop_first(), q, 1),
{
}

/// The CF_HTML header is 105 bytes long, the HTML part opens with 34 bytes
/// before the fragment and closes with 34 after it.
pub proof fn law_cf_html_layout_sizes()
    ensures
        encode_utf8(cf_template()).len() == 105,
        encode_utf8(cf_pre()).len() == 34,
        encode_utf8(cf_post()).len() == 34,
{
    reveal_strlit("Version:0.9\r\nStartHTML:0000000000\r\nEndHTML:0000000000\r\nStartFragment:0000000000\r\nEndFragment:0000000000\r\n");
    reveal_strlit("<html><body>\r\n<!--StartFragment-->");
    reveal_strlit("<!--EndFragment-->\r\n</body></html>");
    is_ascii_chars_encode_utf8(cf_template());
    is_ascii_chars_encode_utf8(cf_pre());
    is_ascii_chars_encode_utf8(cf_post());
}

/// The characters a safe link may hold are exactly ASCII letters, digits and
/// `: / . - _`.
pub proof fn law_link_characters(c: char)
    ensures
        url_char(c) <==> (('a' <= c <= 'z') || ('A' <= c <= 'Z') || ('0' <= c <= '9') || c == ':' || c == '/'
            || c == '.' || c == '-' || c == '_'),
{
}

/// The palette of every preset: line height, accent, soft, heading, link,
/// code, inline-code, border and placeholder colours of each of the sixteen
/// named presets, and of the default theme for every other id.
pub proof fn law_preset_palettes(id: Seq<char>)
    ensures
        id == "wechat"@ ==> (preset(id).indent == false && preset(id).lh == "1.75"@ && preset(id).accent == "#07c160"@ && preset(id).soft == "#eafaf1"@ && preset(id).head_c == "#1a1a1a"@ && preset(id).link == "#576b95"@ && preset(id).code_bg == "#282c34"@ && preset(id).code_fg == "#abb2bf"@ && preset(id).inline_bg == "#eef7f1"@ && preset(id).inline_fg == "#0a7a43"@ && preset(id).border == "#d7ece0"@ && preset(id).ph_border == "#07c160"@ && preset(id).ph_bg == "#eafaf1"@ && preset(id).ph_fg == "#0a7a43"@),
        id == "minimal"@ ==> (preset(id).indent == false && preset(id).lh == "1.7"@ && preset(id).accent == "#333333"@ && preset(id).soft == "#f5f5f5"@ && preset(id).head_c == "#000000"@ && preset(id).link == "#000000"@ && preset(id).code_bg == "#f5f5f5"@ && preset(id).code_fg == "#333333"@ && preset(id).inline_bg == "#f2f2f2"@ && preset(id).inline_fg == "#333333"@ && preset(id).border == "#cccccc"@ && preset(id).ph_border == "#999999"@ && preset(id).ph_bg == "#f5f5f5"@ && preset(id).ph_fg == "#333333"@),
        id == "purple"@ ==> (preset(id).indent == false && preset(id).lh == "1.75"@ && preset(id).accent == "#7c3aed"@ && preset(id).soft == "#f5f0ff"@ && preset(id).head_c == "#241a3a"@ && preset(id).link == "#7c3aed"@ && preset(id).code_bg == "#241f31"@ && preset(id).code_fg == "#dcd6f0"@ && preset(id).inline_bg == "#f3eeff"@ && preset(id).inline_fg == "#6d28d9"@ && preset(id).border == "#ddd3f2"@ && preset(id).ph_border == "#7c3aed"@ && preset(id).ph_bg == "#f5f0ff"@ && preset(id).ph_fg == "#5b21b6"@),
        id == "teal"@ ==> (preset(id).indent == false && preset(id).lh == "1.75"@ && preset(id).accent == "#0d9488"@ && preset(id).soft == "#e9f7f5"@ && preset(id).head_c == "#10312e"@ && preset(id).link == "#0f766e"@ && preset(id).code_bg == "#16282a"@ && preset(id).code_fg == "#cfe9e5"@ && preset(id).inline_bg == "#e6f4f2"@ && preset(id).inline_fg == "#0f766e"@ && preset(id).border == "#cfe6e2"@ && preset(id).ph_border == "#0d9488"@ && preset(id).ph_bg == "#e9f7f5"@ && preset(id).ph_fg == "#0f766e"@),
        id == "crimson"@ ==> (preset(id).indent == false && preset(id).lh == "1.75"@ && preset(id).accent == "#e11d48"@ && preset(id).soft == "#fdeef2"@ && preset(id).head_c == "#33121c"@ && preset(id).link == "#be123c"@ && preset(id).code_bg == "#2a1a1e"@ && preset(id).code_fg == "#f0d6dc"@ && preset(id).inline_bg == "#fdeaef"@ && preset(id).inline_fg == "#be123c"@ && preset(id).border == "#f0d3da"@ && preset(id).ph_border == "#e11d48"@ && preset(id).ph_bg == "#fdeef2"@ && preset(id).ph_fg == "#be123c"@),
        id == "forest"@ ==> (preset(id).indent == false && preset(id).lh == "1.8"@ && preset(id).accent == "#2f855a"@ && preset(id).soft == "#ecf7f0"@ && preset(id).head_c == "#14301f"@ && preset(id).link == "#276749"@ && preset(id).code_bg == "#1b2a20"@ && preset(id).code_fg == "#d3e9da"@ && preset(id).inline_bg == "#e8f4ec"@ && preset(id).inline_fg == "#276749"@ && preset(id).border == "#d2e7da"@ && preset(id).ph_border == "#2f855a"@ && preset(id).ph_bg == "#ecf7f0"@ && preset(id).ph_fg == "#276749"@),
        id == "morandi"@ ==> (preset(id).indent == false && preset(id).lh == "1.85"@ && preset(id).accent == "#a98467"@ && preset(id).soft == "#f4efe9"@ && preset(id).head_c == "#4a4238"@ && preset(id).link == "#8a7259"@ && preset(id).code_bg == "#2e2a26"@ && preset(id).code_fg == "#e3dcd2"@ && preset(id).inline_bg == "#efe9e1"@ && preset(id).inline_fg == "#7c6650"@ && preset(id).border == "#e0d7cb"@ && preset(id).ph_border == "#a98467"@ && preset(id).ph_bg == "#f4efe9"@ && preset(id).ph_fg == "#7c6650"@),
        id == "business"@ ==> (preset(id).indent == false && preset(id).lh == "1.7"@ && preset(id).accent == "#2f5597"@ && preset(id).soft == "#eef2f9"@ && preset(id).head_c == "#1f2937"@ && preset(id).link == "#2f5597"@ && preset(id).code_bg == "#232a36"@ && preset(id).code_fg == "#d7dde8"@ && preset(id).inline_bg == "#eef2f9"@ && preset(id).inline_fg == "#2f5597"@ && preset(id).border == "#d3dbe8"@ && preset(id).ph_border == "#2f5597"@ && preset(id).ph_bg == "#eef2f9"@ && preset(id).ph_fg == "#2f5597"@),
        id == "tech"@ ==> (preset(id).indent == false && preset(id).lh == "1.7"@ && preset(id).accent == "#2f6fed"@ && preset(id).soft == "#eef3fe"@ && preset(id).head_c == "#16233d"@ && preset(id).link == "#2f6fed"@ && preset(id).code_bg == "#1e2430"@ && preset(id).code_fg == "#d6deeb"@ && preset(id).inline_bg == "#eef1f6"@ && preset(id).inline_fg == "#2f6fed"@ && preset(id).border == "#d5dcec"@ && preset(id).ph_border == "#2f6fed"@ && preset(id).ph_bg == "#eef3fe"@ && preset(id).ph_fg == "#1e40af"@),
        id == "academic"@ ==> (preset(id).indent == false && preset(id).lh == "1.85"@ && preset(id).accent == "#2c5282"@ && preset(id).soft == "#eef2f8"@ && preset(id).head_c == "#1a202c"@ && preset(id).link == "#2c5282"@ && preset(id).code_bg == "#232a36"@ && preset(id).code_fg == "#dbe2ee"@ && preset(id).inline_bg == "#eef2f8"@ && preset(id).inline_fg == "#2c5282"@ && preset(id).border == "#d3dae6"@ && preset(id).ph_border == "#2c5282"@ && preset(id).ph_bg == "#eef2f8"@ && preset(id).ph_fg == "#2c5282"@),
        id == "research"@ ==> (preset(id).indent == false && preset(id).lh == "1.75"@ && preset(id).accent == "#0369a1"@ && preset(id).soft == "#e8f3fa"@ && preset(id).head_c == "#0c2233"@ && preset(id).link == "#0369a1"@ && preset(id).code_bg == "#0f1b26"@ && preset(id).code_fg == "#cfe3f0"@ && preset(id).inline_bg == "#e8f3fa"@ && preset(id).inline_fg == "#0369a1"@ && preset(id).border == "#cfe1ee"@ && preset(id).ph_border == "#0369a1"@ && preset(id).ph_bg == "#e8f3fa"@ && preset(id).ph_fg == "#0369a1"@),
        id == "workplace"@ ==> (preset(id).indent == false && preset(id).lh == "1.75"@ && preset(id).accent == "#4f46e5"@ && preset(id).soft == "#eef0fe"@ && preset(id).head_c == "#1e1b4b"@ && preset(id).link == "#4f46e5"@ && preset(id).code_bg == "#1f2233"@ && preset(id).code_fg == "#dcdff5"@ && preset(id).inline_bg == "#eef0fe"@ && preset(id).inline_fg == "#4338ca"@ && preset(id).border == "#d6d9f5"@ && preset(id).ph_border == "#4f46e5"@ && preset(id).ph_bg == "#eef0fe"@ && preset(id).ph_fg == "#4338ca"@),
        id == "report"@ ==> (preset(id).indent == false && preset(id).lh == "1.7"@ && preset(id).accent == "#1d4ed8"@ && preset(id).soft == "#eaf0fe"@ && preset(id).head_c == "#111827"@ && preset(id).link == "#1d4ed8"@ && preset(id).code_bg == "#1f2637"@ && preset(id).code_fg == "#dbe4f5"@ && preset(id).inline_bg == "#eaf0fe"@ && preset(id).inline_fg == "#1d4ed8"@ && preset(id).border == "#d2dcf2"@ && preset(id).ph_border == "#1d4ed8"@ && preset(id).ph_bg == "#eaf0fe"@ && preset(id).ph_fg == "#1d4ed8"@),
        id == "paper"@ ==> (preset(id).indent == true && preset(id).lh == "1.9"@ && preset(id).accent == "#3f3f46"@ && preset(id).soft == "#f2f2f3"@ && preset(id).head_c == "#18181b"@ && preset(id).link == "#3f3f46"@ && preset(id).code_bg == "#27272a"@ && preset(id).code_fg == "#e4e4e7"@ && preset(id).inline_bg == "#f2f2f3"@ && preset(id).inline_fg == "#3f3f46"@ && preset(id).border == "#dcdcdf"@ && preset(id).ph_border == "#3f3f46"@ && preset(id).ph_bg == "#f2f2f3"@ && preset(id).ph_fg == "#3f3f46"@),
        id == "magazine"@ ==> (preset(id).indent == false && preset(id).lh == "1.7"@ && preset(id).accent == "#db2777"@ && preset(id).soft == "#fdecf3"@ && preset(id).head_c == "#1f2937"@ && preset(id).link == "#be185d"@ && preset(id).code_bg == "#2a1c26"@ && preset(id).code_fg == "#f3d9e6"@ && preset(id).inline_bg == "#fdecf3"@ && preset(id).inline_fg == "#be185d"@ && preset(id).border == "#f2d5e2"@ && preset(id).ph_border == "#db2777"@ && preset(id).ph_bg == "#fdecf3"@ && preset(id).ph_fg == "#be185d"@),
        id == "book"@ ==> (preset(id).indent == true && preset(id).lh == "1.95"@ && preset(id).accent == "#8a5a2b"@ && preset(id).soft == "#f5efe6"@ && preset(id).head_c == "#3f2d1c"@ && preset(id).link == "#8a5a2b"@ && preset(id).code_bg == "#2e2a26"@ && preset(id).code_fg == "#e6ddcd"@ && preset(id).inline_bg == "#f5efe6"@ && preset(id).inline_fg == "#7c5326"@ && preset(id).border == "#e0d6c5"@ && preset(id).ph_border == "#8a5a2b"@ && preset(id).ph_bg == "#f5efe6"@ && preset(id).ph_fg == "#7c5326"@),
        (id != "wechat"@ && id != "minimal"@ && id != "purple"@ && id != "teal"@ && id != "crimson"@ && id != "forest"@ && id != "morandi"@ && id != "business"@ && id != "tech"@ && id != "academic"@ && id != "research"@ && id != "workplace"@ && id != "report"@ && id != "paper"@ && id != "magazine"@ && id != "book"@) ==> (preset(id).indent == false && preset(id).lh == "1.75"@ && preset(id).accent == "#ff6a00"@ && preset(id).soft == "#fff3ea"@ && preset(id).head_c == "#1a1a1a"@ && preset(id).link == "#576b95"@ && preset(id).code_bg == "#282c34"@ && preset(id).code_fg == "#abb2bf"@ && preset(id).inline_bg == "#fff1e6"@ && preset(id).inline_fg == "#c2410c"@ && preset(id).border == "#dddddd"@ && preset(id).ph_border == "#ff8a3d"@ && preset(id).ph_bg == "#fff6ef"@ && preset(id).ph_fg == "#b3541e"@),
{
    lemma_preset_ids_distinct();
}

/// The heading styles of every layout, level by level: size, weight, colour
/// and decoration as the layout designs them (`#98a0ab` is the dimmed colour
/// of the smallest levels).
pub proof fn law_heading_templates(accent: Seq<char>, head: Seq<char>, soft: Seq<char>, border: Seq<char>)
    ensures
        crate::theme::heading_style_of(HeadStyle::Bar, 1, accent, head, soft, border) == "font-size:26px;font-weight:bold;color:"@ + head + ";text-align:center;letter-spacing:1px;margin:30px 0 18px;"@,
        crate::theme::heading_style_of(HeadStyle::Bar, 2, accent, head, soft, border) == "font-size:22px;font-weight:bold;color:"@ + accent + ";border-left:5px solid "@ + accent + ";background:"@ + soft + ";padding:6px 0 6px 12px;line-height:1.4;margin:28px 0 14px;"@,
        crate::theme::heading_style_of(HeadStyle::Bar, 3, accent, head, soft, border) == "font-size:19px;font-weight:bold;color:"@ + head + ";border-left:3px solid "@ + accent + ";padding-left:10px;margin:24px 0 12px;"@,
        crate::theme::heading_style_of(HeadStyle::Bar, 4, accent, head, soft, border) == "font-size:17px;font-weight:bold;color:"@ + accent + ";margin:20px 0 10px;"@,
        crate::theme::heading_style_of(HeadStyle::Bar, 5, accent, head, soft, border) == "font-size:15px;font-weight:bold;color:"@ + head + ";letter-spacing:0.5px;margin:18px 0 8px;"@,
        crate::theme::heading_style_of(HeadStyle::Bar, 6, accent, head, soft, border) == "font-size:14px;font-weight:bold;color:"@ + "#98a0ab"@ + ";letter-spacing:1px;margin:16px 0 8px;"@,
        crate::theme::heading_style_of(HeadStyle::Underline, 1, accent, head, soft, border) == "font-size:26px;font-weight:bold;color:"@ + head + ";text-align:center;letter-spacing:1px;margin:30px 0 18px;"@,
        crate::theme::heading_style_of(HeadStyle::Underline, 2, accent, head, soft, border) == "font-size:22px;font-weight:bold;color:"@ + head + ";border-bottom:2px solid "@ + accent + ";padding-bottom:8px;margin:28px 0 14px;"@,
        crate::theme::heading_style_of(HeadStyle::Underline, 3, accent, head, soft, border) == "font-size:19px;font-weight:bold;color:"@ + accent + ";border-bottom:1px solid "@ + border + ";padding-bottom:6px;margin:24px 0 12px;"@,
        crate::theme::heading_style_of(HeadStyle::Underline, 4, accent, head, soft, border) == "font-size:17px;font-weight:bold;color:"@ + head + ";margin:20px 0 10px;"@,
        crate::theme::heading_style_of(HeadStyle::Underline, 5, accent, head, soft, border) == "font-size:15px;font-weight:bold;color:"@ + accent + ";margin:18px 0 8px;"@,
        crate::theme::heading_style_of(HeadStyle::Underline, 6, accent, head, soft, border) == "font-size:14px;font-weight:bold;color:"@ + "#98a0ab"@ + ";letter-spacing:1px;margin:16px 0 8px;"@,
        crate::theme::heading_style_of(HeadStyle::Block, 1, accent, head, soft, border) == "font-size:26px;font-weight:bold;color:#ffffff;background:"@ + accent + ";text-align:center;padding:12px 16px;border-radius:8px;letter-spacing:1px;margin:30px 0 18px;"@,
        crate::theme::heading_style_of(HeadStyle::Block, 2, accent, head, soft, border) == "font-size:21px;font-weight:bold;color:#ffffff;background:"@ + accent + ";padding:8px 14px;border-radius:6px;margin:28px 0 14px;"@,
        crate::theme::heading_style_of(HeadStyle::Block, 3, accent, head, soft, border) == "font-size:19px;font-weight:bold;color:"@ + accent + ";background:"@ + soft + ";padding:6px 12px;border-radius:6px;margin:24px 0 12px;"@,
        crate::theme::heading_style_of(HeadStyle::Block, 4, accent, head, soft, border) == "font-size:17px;font-weight:bold;color:"@ + head + ";border-left:4px solid "@ + accent + ";padding-left:10px;margin:20px 0 10px;"@,
        crate::theme::heading_style_of(HeadStyle::Block, 5, accent, head, soft, border) == "font-size:15px;font-weight:bold;color:"@ + accent + ";margin:18px 0 8px;"@,
        crate::theme::heading_style_of(HeadStyle::Block, 6, accent, head, soft, border) == "font-size:14px;font-weight:bold;color:"@ + "#98a0ab"@ + ";letter-spacing:1px;margin:16px 0 8px;"@,
        crate::theme::heading_style_of(HeadStyle::Pill, 1, accent, head, soft, border) == "font-size:26px;font-weight:bold;color:"@ + head + ";text-align:center;letter-spacing:1px;margin:30px 0 18px;"@,
        crate::theme::heading_style_of(HeadStyle::Pill, 2, accent, head, soft, border) == "font-size:21px;font-weight:bold;color:"@ + accent + ";background:"@ + soft + ";text-align:center;padding:9px 18px;border-radius:14px;margin:28px 0 14px;"@,
        crate::theme::heading_style_of(HeadStyle::Pill, 3, accent, head, soft, border) == "font-size:19px;font-weight:bold;color:"@ + accent + ";background:"@ + soft + ";padding:5px 12px;border-radius:10px;margin:24px 0 12px;"@,
        crate::theme::heading_style_of(HeadStyle::Pill, 4, accent, head, soft, border) == "font-size:17px;font-weight:bold;color:"@ + head + ";border-left:4px solid "@ + accent + ";border-radius:2px;padding-left:10px;margin:20px 0 10px;"@,
        crate::theme::heading_style_of(HeadStyle::Pill, 5, accent, head, soft, border) == "font-size:15px;font-weight:bold;color:"@ + accent + ";margin:18px 0 8px;"@,
        crate::theme::heading_style_of(HeadStyle::Pill, 6, accent, head, soft, border) == "font-size:14px;font-weight:bold;color:"@ + "#98a0ab"@ + ";letter-spacing:1px;margin:16px 0 8px;"@,
        crate::theme::heading_style_of(HeadStyle::Bracket, 1, accent, head, soft, border) == "font-size:26px;font-weight:bold;color:"@ + head + ";text-align:center;letter-spacing:2px;margin:30px 0 18px;"@,
        crate::theme::heading_style_of(HeadStyle::Bracket, 2, accent, head, soft, border) == "font-size:21px;font-weight:bold;color:"@ + head + ";text-align:center;border-top:1px solid "@ + accent + ";border-bottom:1px solid "@ + accent + ";padding:8px 0;letter-spacing:1px;margin:28px 0 14px;"@,
        crate::theme::heading_style_of(HeadStyle::Bracket, 3, accent, head, soft, border) == "font-size:19px;font-weight:bold;color:"@ + accent + ";border-bottom:1px dotted "@ + border + ";padding-bottom:5px;margin:24px 0 12px;"@,
        crate::theme::heading_style_of(HeadStyle::Bracket, 4, accent, head, soft, border) == "font-size:17px;font-weight:bold;color:"@ + head + ";letter-spacing:0.5px;margin:20px 0 10px;"@,
        crate::theme::heading_style_of(HeadStyle::Bracket, 5, accent, head, soft, border) == "font-size:15px;font-weight:bold;color:"@ + accent + ";margin:18px 0 8px;"@,
        crate::theme::heading_style_of(HeadStyle::Bracket, 6, accent, head, soft, border) == "font-size:14px;font-weight:bold;color:"@ + "#98a0ab"@ + ";letter-spacing:1px;margin:16px 0 8px;"@,
        crate::theme::heading_style_of(HeadStyle::Academic, 1, accent, head, soft, border) == "font-size:24px;font-weight:bold;color:"@ + head + ";text-align:center;letter-spacing:0.5px;margin:32px 0 20px;"@,
        crate::theme::heading_style_of(HeadStyle::Academic, 2, accent, head, soft, border) == "font-size:20px;font-weight:bold;color:"@ + head + ";border-bottom:1px solid "@ + border + ";padding-bottom:6px;margin:28px 0 14px;"@,
        crate::theme::heading_style_of(HeadStyle::Academic, 3, accent, head, soft, border) == "font-size:17px;font-weight:bold;font-style:italic;color:"@ + head + ";margin:24px 0 12px;"@,
        crate::theme::heading_style_of(HeadStyle::Academic, 4, accent, head, soft, border) == "font-size:15px;font-weight:bold;color:"@ + accent + ";margin:20px 0 10px;"@,
        crate::theme::heading_style_of(HeadStyle::Academic, 5, accent, head, soft, border) == "font-size:14px;font-weight:bold;color:"@ + head + ";margin:18px 0 8px;"@,
        crate::theme::heading_style_of(HeadStyle::Academic, 6, accent, head, soft, border) == "font-size:13px;font-weight:bold;color:"@ + "#98a0ab"@ + ";letter-spacing:1px;margin:16px 0 8px;"@,
        crate::theme::heading_style_of(HeadStyle::Magazine, 1, accent, head, soft, border) == "font-size:30px;font-weight:bold;color:"@ + accent + ";line-height:1.2;letter-spacing:0.5px;margin:30px 0 18px;"@,
        crate::theme::heading_style_of(HeadStyle::Magazine, 2, accent, head, soft, border) == "font-size:24px;font-weight:bold;color:"@ + head + ";border-bottom:3px solid "@ + accent + ";padding-bottom:6px;margin:28px 0 14px;"@,
        crate::theme::heading_style_of(HeadStyle::Magazine, 3, accent, head, soft, border) == "font-size:20px;font-weight:bold;color:"@ + accent + ";margin:24px 0 12px;"@,
        crate::theme::heading_style_of(HeadStyle::Magazine, 4, accent, head, soft, border) == "font-size:17px;font-weight:bold;color:"@ + head + ";border-left:4px solid "@ + accent + ";padding-left:10px;margin:20px 0 10px;"@,
        crate::theme::heading_style_of(HeadStyle::Magazine, 5, accent, head, soft, border) == "font-size:15px;font-weight:bold;color:"@ + accent + ";letter-spacing:0.5px;margin:18px 0 8px;"@,
        crate::theme::heading_style_of(HeadStyle::Magazine, 6, accent, head, soft, border) == "font-size:13px;font-weight:bold;color:"@ + "#98a0ab"@ + ";letter-spacing:1.5px;margin:16px 0 8px;"@,
        crate::theme::heading_style_of(HeadStyle::Book, 1, accent, head, soft, border) == "font-size:28px;font-weight:bold;color:"@ + head + ";text-align:center;letter-spacing:2px;margin:34px 0 22px;"@,
        crate::theme::heading_style_of(HeadStyle::Book, 2, accent, head, soft, border) == "font-size:22px;font-weight:bold;color:"@ + head + ";text-align:center;border-bottom:1px solid "@ + border + ";padding-bottom:8px;margin:30px 0 16px;"@,
        crate::theme::heading_style_of(HeadStyle::Book, 3, accent, head, soft, border) == "font-size:19px;font-weight:bold;color:"@ + accent + ";margin:26px 0 12px;"@,
        crate::theme::heading_style_of(HeadStyle::Book, 4, accent, head, soft, border) == "font-size:17px;font-weight:bold;font-style:italic;color:"@ + head + ";margin:22px 0 10px;"@,
        crate::theme::heading_style_of(HeadStyle::Book, 5, accent, head, soft, border) == "font-size:15px;font-weight:bold;color:"@ + accent + ";margin:18px 0 8px;"@,
        crate::theme::heading_style_of(HeadStyle::Book, 6, accent, head, soft, border) == "font-size:14px;font-style:italic;color:"@ + "#98a0ab"@ + ";margin:16px 0 8px;"@,
{
}

proof fn lemma_font_tokens_distinct()
    ensures
        "serif"@ != "mono"@,
        "serif"@ != "kai"@,
        "serif"@ != "song"@,
        "serif"@ != "hei"@,
        "serif"@ != "fangsong"@,
        "serif"@ != "yahei"@,
        "serif"@ != "pingfang"@,
        "serif"@ != "arial"@,
        "serif"@ != "georgia"@,
        "serif"@ != "times"@,
        "serif"@ != "verdana"@,
        "serif"@ != "tahoma"@,
        "serif"@ != "trebuchet"@,
        "serif"@ != "courier"@,
        "serif"@ != "consolas"@,
        "serif"@ != "cambria"@,
        "mono"@ != "kai"@,
        "mono"@ != "song"@,
        "mono"@ != "hei"@,
        "mono"@ != "fangsong"@,
        "mono"@ != "yahei"@,
        "mono"@ != "pingfang"@,
        "mono"@ != "arial"@,
        "mono"@ != "georgia"@,
        "mono"@ != "times"@,
        "mono"@ != "verdana"@,
        "mono"@ != "tahoma"@,
        "mono"@ != "trebuchet"@,
        "mono"@ != "courier"@,
        "mono"@ != "consolas"@,
        "mono"@ != "cambria"@,
        "kai"@ != "song"@,
        "kai"@ != "hei"@,
        "kai"@ != "fangsong"@,
        "kai"@ != "yahei"@,
        "kai"@ != "pingfang"@,
        "kai"@ != "arial"@,
        "kai"@ != "georgia"@,
        "kai"@ != "times"@,
        "kai"@ != "verdana"@,
        "kai"@ != "tahoma"@,
        "kai"@ != "trebuchet"@,
        "kai"@ != "courier"@,
        "kai"@ != "consolas"@,
        "kai"@ != "cambria"@,
        "song"@ != "hei"@,
        "song"@ != "fangsong"@,
        "song"@ != "yahei"@,
        "song"@ != "pingfang"@,
        "song"@ != "arial"@,
        "song"@ != "georgia"@,
        "song"@ != "times"@,
        "song"@ != "verdana"@,
        "song"@ != "tahoma"@,
        "song"@ != "trebuchet"@,
        "song"@ != "courier"@,
        "song"@ != "consolas"@,
        "song"@ != "cambria"@,
        "hei"@ != "fangsong"@,
        "hei"@ != "yahei"@,
        "hei"@ != "pingfang"@,
        "hei"@ != "arial"@,
        "hei"@ != "georgia"@,
        "hei"@ != "times"@,
        "hei"@ != "verdana"@,
        "hei"@ != "tahoma"@,
        "hei"@ != "trebuchet"@,
        "hei"@ != "courier"@,
        "hei"@ != "consolas"@,
        "hei"@ != "cambria"@,
        "fangsong"@ != "yahei"@,
        "fangsong"@ != "pingfang"@,
        "fangsong"@ != "arial"@,
        "fangsong"@ != "georgia"@,
        "fangsong"@ != "times"@,
        "fangsong"@ != "verdana"@,
        "fangsong"@ != "tahoma"@,
        "fangsong"@ != "trebuchet"@,
        "fangsong"@ != "courier"@,
        "fangsong"@ != "consolas"@,
        "fangsong"@ != "cambria"@,
        "yahei"@ != "pingfang"@,
        "yahei"@ != "arial"@,
        "yahei"@ != "georgia"@,
        "yahei"@ != "times"@,
        "yahei"@ != "verdana"@,
        "yahei"@ != "tahoma"@,
        "yahei"@ != "trebuchet"@,
        "yahei"@ != "courier"@,
        "yahei"@ != "consolas"@,
        "yahei"@ != "cambria"@,
        "pingfang"@ != "arial"@,
        "pingfang"@ != "georgia"@,
        "pingfang"@ != "times"@,
        "pingfang"@ != "verdana"@,
        "pingfang"@ != "tahoma"@,
        "pingfang"@ != "trebuchet"@,
        "pingfang"@ != "courier"@,
        "pingfang"@ != "consolas"@,
        "pingfang"@ != "cambria"@,
        "arial"@ != "georgia"@,
        "arial"@ != "times"@,
        "arial"@ != "verdana"@,
        "arial"@ != "tahoma"@,
        "arial"@ != "trebuchet"@,
        "arial"@ != "courier"@,
        "arial"@ != "consolas"@,
        "arial"@ != "cambria"@,
        "georgia"@ != "times"@,
        "georgia"@ != "verdana"@,
        "georgia"@ != "tahoma"@,
        "georgia"@ != "trebuchet"@,
        "georgia"@ != "courier"@,
        "georgia"@ != "consolas"@,
        "georgia"@ != "cambria"@,
        "times"@ != "verdana"@,
        "times"@ != "tahoma"@,
        "times"@ != "trebuchet"@,
        "times"@ != "courier"@,
        "times"@ != "consolas"@,
        "times"@ != "cambria"@,
        "verdana"@ != "tahoma"@,
        "verdana"@ != "trebuchet"@,
        "verdana"@ != "courier"@,
        "verdana"@ != "consolas"@,
        "verdana"@ != "cambria"@,
        "tahoma"@ != "trebuchet"@,
        "tahoma"@ != "courier"@,
        "tahoma"@ != "consolas"@,
        "tahoma"@ != "cambria"@,
        "trebuchet"@ != "courier"@,
        "trebuchet"@ != "consolas"@,
        "trebuchet"@ != "cambria"@,
        "courier"@ != "consolas"@,
        "courier"@ != "cambria"@,
        "consolas"@ != "cambria"@,
{
    reveal_strlit("serif");
    reveal_strlit("mono");
    reveal_strlit("kai");
    reveal_strlit("song");
    reveal_strlit("hei");
    reveal_strlit("fangsong");
    reveal_strlit("yahei");
    reveal_strlit("pingfang");
    reveal_strlit("arial");
    reveal_strlit("georgia");
    reveal_strlit("times");
    reveal_strlit("verdana");
    reveal_strlit("tahoma");
    reveal_strlit("trebuchet");
    reveal_strlit("courier");
    reveal_strlit("consolas");
    reveal_strlit("cambria");
    assert("serif"@.len() != "mono"@.len());
    assert("serif"@.len() != "kai"@.len());
    assert("serif"@.len() != "song"@.len());
    assert("serif"@.len() != "hei"@.len());
    assert("serif"@.len() != "fangsong"@.len());
    assert("serif"@[0] != "yahei"@[0]);
    assert("serif"@.len() != "pingfang"@.len());
    assert("serif"@[0] != "arial"@[0]);
    assert("serif"@.len() != "georgia"@.len());
    assert("serif"@[0] != "times"@[0]);
    assert("serif"@.len() != "verdana"@.len());
    assert("serif"@.len() != "tahoma"@.len());
    assert("serif"@.len() != "trebuchet"@.len());
    assert("serif"@.len() != "courier"@.len());
    assert("serif"@.len() != "consolas"@.len());
    assert("serif"@.len() != "cambria"@.len());
    assert("mono"@.len() != "kai"@.len());
    assert("mono"@[0] != "song"@[0]);
    assert("mono"@.len() != "hei"@.len());
    assert("mono"@.len() != "fangsong"@.len());
    assert("mono"@.len() != "yahei"@.len());
    assert("mono"@.len() != "pingfang"@.len());
    assert("mono"@.len() != "arial"@.len());
    assert("mono"@.len() != "georgia"@.len());
    assert("mono"@.len() != "times"@.len());
    assert("mono"@.len() != "verdana"@.len());
    assert("mono"@.len() != "tahoma"@.len());
    assert("mono"@.len() != "trebuchet"@.len());
    assert("mono"@.len() != "courier"@.len());
    assert("mono"@.len() != "consolas"@.len());
    assert("mono"@.len() != "cambria"@.len());
    assert("kai"@.len() != "song"@.len());
    assert("kai"@[0] != "hei"@[0]);
    assert("kai"@.len() != "fangsong"@.len());
    assert("kai"@.len() != "yahei"@.len());
    assert("kai"@.len() != "pingfang"@.len());
    assert("kai"@.len() != "arial"@.len());
    assert("kai"@.len() != "georgia"@.len());
    assert("kai"@.len() != "times"@.len());
    assert("kai"@.len() != "verdana"@.len());
    assert("kai"@.len() != "tahoma"@.len());
    assert("kai"@.len() != "trebuchet"@.len());
    assert("kai"@.len() != "courier"@.len());
    assert("kai"@.len() != "consolas"@.len());
    assert("kai"@.len() != "cambria"@.len());
    assert("song"@.len() != "hei"@.len());
    assert("song"@.len() != "fangsong"@.len());
    assert("song"@.len() != "yahei"@.len());
    assert("song"@.len() != "pingfang"@.len());
    assert("song"@.len() != "arial"@.len());
    assert("song"@.len() != "georgia"@.len());
    assert("song"@.len() != "times"@.len());
    assert("song"@.len() != "verdana"@.len());
    assert("song"@.len() != "tahoma"@.len());
    assert("song"@.len() != "trebuchet"@.len());
    assert("song"@.len() != "courier"@.len());
    assert("song"@.len() != "consolas"@.len());
    assert("song"@.len() != "cambria"@.len());
    assert("hei"@.len() != "fangsong"@.len());
    assert("hei"@.len() != "yahei"@.len());
    assert("hei"@.len() != "pingfang"@.len());
    assert("hei"@.len() != "arial"@.len());
    assert("hei"@.len() != "georgia"@.len());
    assert("hei"@.len() != "times"@.len());
    assert("hei"@.len() != "verdana"@.len());
    assert("hei"@.len() != "tahoma"@.len());
    assert("hei"@.len() != "trebuchet"@.len());
    assert("hei"@.len() != "courier"@.len());
    assert("hei"@.len() != "consolas"@.len());
    assert("hei"@.len() != "cambria"@.len());
    assert("fangsong"@.len() != "yahei"@.len());
    assert("fangsong"@[0] != "pingfang"@[0]);
    assert("fangsong"@.len() != "arial"@.len());
    assert("fangsong"@.len() != "georgia"@.len());
    assert("fangsong"@.len() != "times"@.len());
    assert("fangsong"@.len() != "verdana"@.len());
    assert("fangsong"@.len() != "tahoma"@.len());
    assert("fangsong"@.len() != "trebuchet"@.len());
    assert("fangsong"@.len() != "courier"@.len());
    assert("fangsong"@[0] != "consolas"@[0]);
    assert("fangsong"@.len() != "cambria"@.len());
    assert("yahei"@.len() != "pingfang"@.len());
    assert("yahei"@[0] != "arial"@[0]);
    assert("yahei"@.len() != "georgia"@.len());
    assert("yahei"@[0] != "times"@[0]);
    assert("yahei"@.len() != "verdana"@.len());
    assert("yahei"@.len() != "tahoma"@.len());
    assert("yahei"@.len() != "trebuchet"@.len());
    assert("yahei"@.len() != "courier"@.len());
    assert("yahei"@.len() != "consolas"@.len());
    assert("yahei"@.len() != "cambria"@.len());
    assert("pingfang"@.len() != "arial"@.len());
    assert("pingfang"@.len() != "georgia"@.len());
    assert("pingfang"@.len() != "times"@.len());
    assert("pingfang"@.len() != "verdana"@.len());
    assert("pingfang"@.len() != "tahoma"@.len());
    assert("pingfang"@.len() != "trebuchet"@.len());
    assert("pingfang"@.len() != "courier"@.len());
    assert("pingfang"@[0] != "consolas"@[0]);
    assert("pingfang"@.len() != "cambria"@.len());
    assert("arial"@.len() != "georgia"@.len());
    assert("arial"@[0] != "times"@[0]);
    assert("arial"@.len() != "verdana"@.len());
    assert("arial"@.len() != "tahoma"@.len());
    assert("arial"@.len() != "trebuchet"@.len());
    assert("arial"@.len() != "courier"@.len());
    assert("arial"@.len() != "consolas"@.len());
    assert("arial"@.len() != "cambria"@.len());
    assert("georgia"@.len() != "times"@.len());
    assert("georgia"@[0] != "verdana"@[0]);
    assert("georgia"@.len() != "tahoma"@.len());
    assert("georgia"@.len() != "trebuchet"@.len());
    assert("georgia"@[0] != "courier"@[0]);
    assert("georgia"@.len() != "consolas"@.len());
    assert("georgia"@[0] != "cambria"@[0]);
    assert("times"@.len() != "verdana"@.len());
    assert("times"@.len() != "tahoma"@.len());
    assert("times"@.len() != "trebuchet"@.len());
    assert("times"@.len() != "courier"@.len());
    assert("times"@.len() != "consolas"@.len());
    assert("times"@.len() != "cambria"@.len());
    assert("verdana"@.len() != "tahoma"@.len());
    assert("verdana"@.len() != "trebuchet"@.len());
    assert("verdana"@[0] != "courier"@[0]);
    assert("verdana"@.len() != "consolas"@.len());
    assert("verdana"@[0] != "cambria"@[0]);
    assert("tahoma"@.len() != "trebuchet"@.len());
    assert("tahoma"@.len() != "courier"@.len());
    assert("tahoma"@.len() != "consolas"@.len());
    assert("tahoma"@.len() != "cambria"@.len());
    assert("trebuchet"@.len() != "courier"@.len());
    assert("trebuchet"@.len() != "consolas"@.len());
    assert("trebuchet"@.len() != "cambria"@.len());
    assert("courier"@.len() != "consolas"@.len());
    assert("courier"@[1] != "cambria"@[1]);
    assert("consolas"@.len() != "cambria"@.len());
}

/// The font stack of every font token (system fonts with CJK fallbacks and a
/// generic family last); every other token gives the system sans-serif stack.
pub proof fn law_font_stacks(token: Seq<char>)
    ensures
        token == "serif"@ ==> crate::theme::font_stack_of(token) == "Georgia,'Times New Roman','Songti SC','SimSun',serif"@,
        token == "mono"@ ==> crate::theme::font_stack_of(token) == "Consolas,'Courier New',monospace"@,
        token == "kai"@ ==> crate::theme::font_stack_of(token) == "'Kaiti SC','KaiTi','STKaiti',serif"@,
        token == "song"@ ==> crate::theme::font_stack_of(token) == "'Songti SC','SimSun',serif"@,
        token == "hei"@ ==> crate::theme::font_stack_of(token) == "'Heiti SC','SimHei','Microsoft YaHei',sans-serif"@,
        token == "fangsong"@ ==> crate::theme::font_stack_of(token) == "'FangSong','STFangsong','FangSong_GB2312',serif"@,
        token == "yahei"@ ==> crate::theme::font_stack_of(token) == "'Microsoft YaHei','微软雅黑','PingFang SC',sans-serif"@,
        token == "pingfang"@ ==> crate::theme::font_stack_of(token) == "'PingFang SC','Hiragino Sans GB','Microsoft YaHei',sans-serif"@,
        token == "arial"@ ==> crate::theme::font_stack_of(token) == "Arial,Helvetica,'PingFang SC','Microsoft YaHei',sans-serif"@,
        token == "georgia"@ ==> crate::theme::font_stack_of(token) == "Georgia,'Times New Roman',serif"@,
        token == "times"@ ==> crate::theme::font_stack_of(token) == "'Times New Roman',Times,serif"@,
        token == "verdana"@ ==> crate::theme::font_stack_of(token) == "Verdana,Geneva,Tahoma,sans-serif"@,
        token == "tahoma"@ ==> crate::theme::font_stack_of(token) == "Tahoma,Verdana,'Segoe UI',sans-serif"@,
        token == "trebuchet"@ ==> crate::theme::font_stack_of(token) == "'Trebuchet MS','Lucida Grande',sans-serif"@,
        token == "courier"@ ==> crate::theme::font_stack_of(token) == "'Courier New',Courier,monospace"@,
        token == "consolas"@ ==> crate::theme::font_stack_of(token) == "Consolas,'Cascadia Mono','Courier New',monospace"@,
        token == "cambria"@ ==> crate::theme::font_stack_of(token) == "Cambria,Georgia,serif"@,
        (token != "serif"@ && token != "mono"@ && token != "kai"@ && token != "song"@ && token != "hei"@ && token != "fangsong"@ && token != "yahei"@ && token != "pingfang"@ && token != "arial"@ && token != "georgia"@ && token != "times"@ && token != "verdana"@ && token != "tahoma"@ && token != "trebuchet"@ && token != "courier"@ && token != "consolas"@ && token != "cambria"@) ==> crate::theme::font_stack_of(token) == "-apple-system,BlinkMacSystemFont,'Segoe UI','PingFang SC','Microsoft YaHei',sans-serif"@,
{
    lemma_font_tokens_distinct();
}

/// What the quote layouts write, with the corner radius `r` of the theme.
pub proof fn law_quote_templates(accent: Seq<char>, soft: Seq<char>, border: Seq<char>, r: nat)
    ensures
        quote_style_of(QuoteStyle::Bar, accent, soft, border, r) == "border-left:4px solid "@ + accent + ";background:"@ + soft + ";color:#5a6069;padding:10px 14px;border-radius:"@ + decimal(r) + "px;margin:16px 0;"@,
        quote_style_of(QuoteStyle::Card, accent, soft, border, r) == "border:1px solid "@ + border + ";background:"@ + soft + ";color:#5a6069;padding:12px 16px;border-radius:"@ + decimal(r + 2) + "px;margin:18px 0;font-style:italic;"@,
        quote_style_of(QuoteStyle::Rule, accent, soft, border, r) == "border-top:1px solid "@ + border + ";border-bottom:1px solid "@ + border + ";color:#6a7079;padding:12px 6px;margin:18px 0;font-style:italic;text-align:center;"@,
{
}

/// What the table layouts write for the table, its header cells, and its
/// odd and even body cells.
pub proof fn law_table_templates(accent: Seq<char>, soft: Seq<char>, head_c: Seq<char>, border: Seq<char>)
    ensures
        crate::theme::table_styles_of(TableStyle::Grid, accent, soft, head_c, border) == (
            "border-collapse:collapse;width:100%;margin:16px 0;border:1px solid "@ + border + ";"@,
            "border:1px solid "@ + border + ";background:"@ + soft + ";padding:8px 10px;text-align:left;font-weight:bold;color:"@ + head_c + ";"@,
            "border:1px solid "@ + border + ";padding:8px 10px;"@,
            "border:1px solid "@ + border + ";padding:8px 10px;"@,
        ),
        crate::theme::table_styles_of(TableStyle::Striped, accent, soft, head_c, border) == (
            "border-collapse:collapse;width:100%;margin:16px 0;border:1px solid "@ + border + ";"@,
            "border:1px solid "@ + border + ";background:"@ + accent + ";color:#ffffff;padding:8px 10px;text-align:left;font-weight:bold;"@,
            "border:1px solid "@ + border + ";padding:8px 10px;background:#ffffff;"@,
            "border:1px solid "@ + border + ";padding:8px 10px;background:"@ + soft + ";"@,
        ),
        crate::theme::table_styles_of(TableStyle::ThreeLine, accent, soft, head_c, border) == (
            "border-collapse:collapse;width:100%;margin:18px 0;border-top:2px solid "@ + head_c + ";border-bottom:2px solid "@ + head_c + ";"@,
            "border:none;border-bottom:1px solid "@ + head_c + ";padding:8px 10px;text-align:left;font-weight:bold;color:"@ + head_c + ";"@,
            "border:none;padding:8px 10px;"@,
            "border:none;padding:8px 10px;"@,
        ),
{
}

/// What a theme built from a specification writes for its other elements:
/// paragraph line height and indent, bold in the accent colour, inline code
/// and code blocks in their colours with the layout's corner radius (3 to 4px
/// for inline code), links in the link colour, the dark-background test on the
/// code colour, and the fixed list, item and placeholder text styles.
pub proof fn law_theme_elements(s: SpecModel)
    ensures
        ({
            let t = build_of(s);
            let r = crate::theme::radius_of(s.head);
            &&& t.p == "margin:12px 0;line-height:"@ + s.lh + ";"@ + (if s.indent { "text-indent:2em;"@ } else { Seq::<char>::empty() })
            &&& t.strong == "color:"@ + s.accent + ";font-weight:bold;"@
            &&& t.em == "font-style:italic;"@
            &&& t.del == "text-decoration:line-through;color:#999999;"@
            &&& t.code_inline == "background:"@ + s.inline_bg + ";color:"@ + s.inline_fg + ";padding:2px 5px;border-radius:"@ + decimal(if r < 3 { 3 } else if r > 4 { 4 } else { r }) + "px;font-family:Consolas,monospace;font-size:14px;"@
            &&& t.pre == "background:"@ + s.code_bg + ";color:"@ + s.code_fg + ";padding:14px;border-radius:"@ + decimal(r + 2) + "px;overflow:auto;font-family:Consolas,'Liberation Mono',Menlo,monospace;font-size:14px;line-height:1.6;margin:16px 0;"@
            &&& t.code == "font-family:Consolas,'Liberation Mono',Menlo,monospace;font-size:14px;"@
            &&& t.code_dark == crate::theme::dark_hex(s.code_bg)
            &&& t.blockquote == quote_style_of(s.quote, s.accent, s.soft, s.border, r)
            &&& t.ul == "margin:12px 0;padding-left:24px;"@
            &&& t.ol == "margin:12px 0;padding-left:24px;"@
            &&& t.li == "margin:6px 0;line-height:1.75;"@
            &&& t.a == "color:"@ + s.link + ";text-decoration:none;"@
            &&& (t.table, t.th, t.td, t.td_alt) == crate::theme::table_styles_of(s.table, s.accent, s.soft, s.head_c, s.border)
            &&& t.hr == crate::theme::rule_style_of(s.rule, s.border)
            &&& t.placeholder_label == "margin:0;font-size:15px;font-weight:bold;"@
            &&& t.placeholder_caption == "margin:6px 0 0;font-size:12px;opacity:0.8;"@
            &&& t.h1 == crate::theme::heading_style_of(s.head, 1, s.accent, s.head_c, s.soft, s.border)
            &&& t.h6 == crate::theme::heading_style_of(s.head, 6, s.accent, s.head_c, s.soft, s.border)
        }),
{
    reveal_strlit("text-indent:2em;");
    reveal_strlit(";");
    let t = build_of(s);
    if !s.indent {
        assert("margin:12px 0;line-height:"@ + s.lh + ";"@ + Seq::<char>::empty() == "margin:12px 0;line-height:"@ + s.lh + ";"@);
    }
}

/// The exported document: a complete HTML page in Chinese with UTF-8 and a
/// viewport, the escaped title, print CSS (18mm page margins, backgrounds kept
/// when printing, no page breaks inside images, code, quotes and tables or
/// after headings), and the article inside a centred 820px column.
pub proof fn law_document_template(content: Seq<char>, title: Seq<char>)
    ensures
        standalone_document_of(content, title) == "<!DOCTYPE html>\n<html lang=\"zh-CN\">\n<head>\n<meta charset=\"utf-8\">\n<meta name=\"viewport\" content=\"width=device-width, initial-scale=1\">\n<title>"@ + escaped(title) + "</title>\n<style>\n@page { margin: 18mm; }\nhtml, body { margin: 0; padding: 0; }\nbody { background: #fff; color: #1a1a1a; -webkit-print-color-adjust: exact; print-color-adjust: exact; }\n.doc { max-width: 820px; margin: 0 auto; padding: 24px; }\n.doc pre { white-space: pre-wrap; word-wrap: break-word; }\n.doc img, .doc pre, .doc blockquote, .doc table { break-inside: avoid; page-break-inside: avoid; }\n.doc h1, .doc h2, .doc h3, .doc h4, .doc h5, .doc h6 { break-after: avoid; page-break-after: avoid; }\n</style>\n</head>\n<body>\n<div class=\"doc\">\n"@ + content + "\n</div>\n</body>\n</html>"@,
{
}

/// The preset catalogue in menu order: id, Chinese name, English name and
/// category of each of the 17 presets, the 8 colour themes first.
pub proof fn law_catalogue()
    ensures
        crate::theme::theme_catalogue() == seq![
        ("default"@, "活力橙"@, "Vivid Orange"@, "color"@),
        ("wechat"@, "微信绿"@, "WeChat Green"@, "color"@),
        ("minimal"@, "极简黑白"@, "Minimal Mono"@, "color"@),
        ("purple"@, "暗夜紫"@, "Royal Purple"@, "color"@),
        ("teal"@, "清新青"@, "Fresh Teal"@, "color"@),
        ("crimson"@, "暖阳红"@, "Warm Crimson"@, "color"@),
        ("forest"@, "森林绿"@, "Forest Green"@, "color"@),
        ("morandi"@, "莫兰迪"@, "Morandi Mist"@, "color"@),
        ("business"@, "商务"@, "Business"@, "publish"@),
        ("tech"@, "科技"@, "Tech"@, "publish"@),
        ("academic"@, "学术"@, "Academic"@, "publish"@),
        ("research"@, "科研"@, "Research"@, "publish"@),
        ("workplace"@, "职场"@, "Workplace"@, "publish"@),
        ("report"@, "报告"@, "Report"@, "publish"@),
        ("paper"@, "论文"@, "Paper"@, "publish"@),
        ("magazine"@, "杂志"@, "Magazine"@, "publish"@),
        ("book"@, "书籍"@, "Book"@, "publish"@),
    ],
{
}

/// A language is looked up by token first, and by extension only when the
/// token finds nothing.
pub proof fn law_syntax_lookup_order(lang: Seq<char>)
    ensures
        crate::highlight::syntax_by_token(lang) is Some ==> crate::highlight::syntax_of(lang) == crate::highlight::syntax_by_token(lang),
        crate::highlight::syntax_by_token(lang) is None ==> crate::highlight::syntax_of(lang) == crate::highlight::syntax_by_extension(lang),
{
}

/// A fenced code block takes its language from the first word of its info
/// string.
pub proof fn law_code_language_is_first_word(s: crate::render::RenderState, info: Seq<char>, t: ThemeModel)
    ensures
        render_step(s, MdEvent::Start(MdStart::FencedCode(info)), t).code_lang == crate::text::first_word(info),
        render_step(s, MdEvent::Start(MdStart::FencedCode(info)), t).in_code,
        crate::text::first_word(info) != "mermaid"@ ==> render_step(s, MdEvent::Start(MdStart::FencedCode(info)), t).out
            == s.out + "<pre style=\""@ + t.pre + "\"><code style=\""@ + t.code + "\">"@,
{
}

proof fn lemma_lines_carry(a: Seq<char>, rest: Seq<char>, cur: Seq<char>)
    requires
        forall|i: int| 0 <= i < a.len() ==> a[i] != '\n',
    ensures
        crate::workspace::lines_from(a + rest, cur) == crate::workspace::lines_from(rest, cur + a),
    decreases a.len(),
{
    if a.len() > 0 {
        let x = a + rest;
        assert(x[0] == a[0]);
        assert(x.drop_first() == a.drop_first() + rest);
        lemma_lines_carry(a.drop_first(), rest, cur.push(a[0]));
        assert(cur.push(a[0]) + a.drop_first() == cur + a);
    } else {
        assert(a + rest == rest);
        assert(cur + a == cur);
    }
}

/// A text's lines end at each `\n`, which is dropped together with one `\r`
/// just before it: a text made of a line `a` free of `\n`, a `\n`, and a rest
/// has `a` (without a final `\r`) as first line, then the lines of the rest.
pub proof fn law_lines_split_at_newlines(a: Seq<char>, rest: Seq<char>)
    requires
        forall|i: int| 0 <= i < a.len() ==> a[i] != '\n',
    ensures
        crate::workspace::text_lines(a + seq!['\n'] + rest) == seq![crate::workspace::strip_cr(a)] + crate::workspace::text_lines(rest),
        a.len() > 0 ==> crate::workspace::text_lines(a) == seq![a],
{
    lemma_lines_carry(a, seq!['\n'] + rest, Seq::empty());
    let x = seq!['\n'] + rest;
    assert(x[0] == '\n');
    assert(x.drop_first() == rest);
    assert(Seq::<char>::empty() + a == a);
    assert(a + seq!['\n'] + rest == a + x);
    lemma_lines_carry(a, Seq::empty(), Seq::empty());
    assert(a + Seq::<char>::empty() == a);
}

/// Opening the clipboard is retried after each failure, 20 ms apart, until 15
/// attempts have failed; an attempt that opens it leads to writing.
pub proof fn law_clipboard_retries(attempts: nat)
    ensures
        crate::clipboard::open_action(attempts, true) == crate::clipboard::OpenAction::Write,
        crate::clipboard::open_action(attempts, false) == crate::clipboard::OpenAction::PauseAndRetry <==> attempts < 15,
        crate::clipboard::open_action(attempts, false) == crate::clipboard::OpenAction::PauseAndFail <==> attempts >= 15,
{
}

/// UTF-16 encodes a character below U+10000 as itself, and any other as a
/// high and a low surrogate that decode back to it.
pub proof fn law_utf16_units_decode(c: char)
    ensures
        (c as u32) < 0x10000 ==> crate::clipboard::utf16_units(c) == seq![(c as u32) as u16],
        (c as u32) >= 0x10000 ==> ({
            let u = crate::clipboard::utf16_units(c);
            &&& u.len() == 2
            &&& 0xD800 <= u[0] < 0xDC00
            &&& 0xDC00 <= u[1] < 0xE000
            &&& (u[0] - 0xD800) * 0x400 + (u[1] - 0xDC00) + 0x10000 == c as u32
        }),
{
    let v = c as u32;
    if v >= 0x10000 {
        assert(v <= 0x10FFFF);
        let w = (v - 0x10000) as int;
        assert(w / 0x400 < 0x400) by (nonlinear_arith)
            requires
                0 <= w <= 0xFFFFF,
        ;
        assert(w == (w / 0x400) * 0x400 + w % 0x400) by (nonlinear_arith)
            requires
                0 <= w,
        ;
    }
}

/// Each UTF-16 unit becomes two bytes, low byte first.
pub proof fn law_little_endian(units: Seq<u16>, u: u16)
    ensures
        crate::clipboard::le_bytes(units.push(u)) == crate::clipboard::le_bytes(units) + seq![(u % 256) as u8, (u / 256) as u8],
        crate::clipboard::le_bytes(units).len() == 2 * units.len(),
    decreases units.len(),
{
    assert(units.push(u).drop_last() == units);
    if units.len() > 0 {
        law_little_endian(units.drop_last(), units.last());
        assert(units.drop_last().push(units.last()) == units);
    }
}

/// The value of a string of decimal digits.
pub open spec fn digits_value(d: Seq<char>) -> nat
    decreases d.len(),
{
    if d.len() == 0 {
        0
    } else {
        10 * digits_value(d.drop_last()) + ((d.last() as u32) - ('0' as u32)) as nat
    }
}

/// A number is written with the ASCII digits, most significant first, with no
/// leading zero, and the digits read back as the number.
pub proof fn law_decimal_reads_back(n: nat)
    ensures
        digits_value(decimal(n)) == n,
        decimal(n).len() > 0,
        forall|i: int| 0 <= i < decimal(n).len() ==> '0' <= #[trigger] decimal(n)[i] <= '9',
        decimal(n).len() > 1 ==> decimal(n)[0] != '0',
        decimal(n).len() > 1 <==> n >= 10,
    decreases n,
{
    if n >= 10 {
        law_decimal_reads_back(n / 10);
        let d = decimal(n);
        assert(d.drop_last() == decimal(n / 10));
        assert(d[0] == decimal(n / 10)[0]);
        lemma_digit_code(n % 10);
        if n / 10 < 10 {
            lemma_digit_code(n / 10);
            assert(decimal(n / 10)[0] == digit_char(n / 10));
            assert(n / 10 > 0);
        }
        assert(d.last() == digit_char(n % 10));
        assert(digits_value(d) == 10 * digits_value(decimal(n / 10)) + n % 10);
    } else {
        lemma_digit_code(n);
        let d = decimal(n);
        assert(d.drop_last() == Seq::<char>::empty());
        assert(digits_value(d) == 10 * digits_value(Seq::<char>::empty()) + n);
    }
}

proof fn lemma_digit_code(d: nat)
    requires
        d < 10,
    ensures
        digit_char(d) as u32 == 48 + d,
        d > 0 ==> digit_char(d) != '0',
{
}

proof fn lemma_last_dot_at(x: Seq<char>, i: int, k: int)
    requires
        0 <= i < k <= x.len(),
        x[i] == '.',
        forall|j: int| i < j < k ==> x[j] != '.',
    ensures
        last_dot_before(x, k) == i,
    decreases k,
{
    if k - 1 > i {
        lemma_last_dot_at(x, i, k - 1);
    }
}

proof fn lemma_no_dot(x: Seq<char>, k: int)
    requires
        0 <= k <= x.len(),
        forall|j: int| 0 <= j < k ==> x[j] != '.',
    ensures
        last_dot_before(x, k) == -1,
    decreases k,
{
    if k > 0 {
        lemma_no_dot(x, k - 1);
    }
}

/// A file is a Markdown document exactly when its name is a non-empty stem, a
/// dot and the extension `md` or `markdown` in any ASCII case; a name without
/// a dot, or whose only dot begins it, is none.
pub proof fn law_markdown_names(stem: Seq<char>, ext: Seq<char>)
    requires
        forall|j: int| 0 <= j < ext.len() ==> ext[j] != '.',
    ensures
        stem.len() > 0 ==> (md_name(stem + seq!['.'] + ext) <==> (same_ignoring_ascii_case(ext, seq!['m', 'd'])
            || same_ignoring_ascii_case(ext, seq!['m', 'a', 'r', 'k', 'd', 'o', 'w', 'n']))),
        !md_name(ext),
        !md_name(seq!['.'] + ext),
        ascii_lower('M') == 'm' && ascii_lower('D') == 'd' && ascii_lower('m') == 'm',
{
    lemma_no_dot(ext, ext.len() as int);
    let y = seq!['.'] + ext;
    assert forall|j: int| 0 < j < y.len() implies y[j] != '.' by {
        assert(y[j] == ext[j - 1]);
    }
    lemma_last_dot_at(y, 0, y.len() as int);
    if stem.len() > 0 {
        let x = stem + seq!['.'] + ext;
        let i = stem.len() as int;
        assert(x[i] == '.');
        assert forall|j: int| i < j < x.len() implies x[j] != '.' by {
            assert(x[j] == ext[j - i - 1]);
        }
        lemma_last_dot_at(x, i, x.len() as int);
        assert(x.skip(i + 1) == ext);
        if x == seq!['.', '.'] {
            assert(x[0] == '.');
            assert(x.len() == 2);
            assert(ext.len() == 0);
            assert(stem.len() == 1);
            assert(x[i] == '.');
        }
    }
}

/// An entry is hidden when its name begins with a dot, or when its Windows
/// attributes carry the hidden bit (0x2) or the system bit (0x4); no other
/// attribute hides it.
pub proof fn law_hidden_entries(name: Seq<char>, a: u32)
    ensures
        (name.len() > 0 && name[0] == '.') ==> crate::workspace::hidden_entry(name, None) && crate::workspace::hidden_entry(name, Some(a)),
        !(name.len() > 0 && name[0] == '.') ==> !crate::workspace::hidden_entry(name, None),
        !(name.len() > 0 && name[0] == '.') ==> (crate::workspace::hidden_entry(name, Some(a)) <==> (a & 6 != 0)),
{
    assert((a & 6 != 0) <==> (a & 2 != 0 || a & 4 != 0)) by (bit_vector);
}

/// Among ASCII characters, exactly tab, line feed, vertical tab, form feed,
/// carriage return and space are white space; the ideographic space U+3000
/// and the no-break space U+00A0 are white space too.
pub proof fn law_white_space(c: char)
    ensures
        (c as u32) < 128 ==> (is_white_space(c) <==> (c == '\t' || c == '\n' || c == '\u{b}' || c == '\u{c}'
            || c == '\r' || c == ' ')),
        is_white_space('\u{3000}') && is_white_space('\u{a0}'),
{
}

proof fn lemma_colour_bytes(hex: Seq<char>)
    requires
        is_ascii_chars(hex),
        hex.len() == 7,
        hex[0] == '#',
        hex[1] != '#',
    ensures
        trim_hashes(encode_utf8(hex)) == encode_utf8(hex).drop_first(),
        encode_utf8(hex).len() == 7,
        forall|i: int| 0 <= i < 7 ==> #[trigger] encode_utf8(hex)[i] == (hex[i] as u32) as u8,
{
    is_ascii_chars_encode_utf8(hex);
    let e = encode_utf8(hex);
    assert forall|i: int| 0 <= i < 7 implies #[trigger] e[i] == (hex[i] as u32) as u8 by {
        assert(e[i] == hex[i] as u8);
    }
    assert(e[0] == 0x23u8);
    assert(e[1] != 0x23u8) by {
        vstd::utf8::is_ascii_chars_nat_bound(hex);
        let u = hex[1] as u32;
        assert(u < 128);
        assert(u != 35);
        assert((u as u8) != 0x23u8) by (bit_vector)
            requires
                u < 128,
                u != 35,
        ;
    }
    assert(e.drop_first()[0] == e[1]);
    assert(trim_hashes(e.drop_first()) == e.drop_first());
    assert(trim_hashes(e) == trim_hashes(e.drop_first()));
}

/// Every preset but the minimal one has a dark code background, so its code
/// is highlighted with the dark palette; the minimal preset's is light.
pub proof fn law_preset_code_backgrounds(id: Seq<char>)
    ensures
        crate::theme::dark_hex(preset(id).code_bg) <==> id != "minimal"@,
{
    law_preset_palettes(id);
    lemma_preset_ids_distinct();
    let h = preset(id).code_bg;
    reveal_strlit("#282c34");
    reveal_strlit("#f5f5f5");
    reveal_strlit("#241f31");
    reveal_strlit("#16282a");
    reveal_strlit("#2a1a1e");
    reveal_strlit("#1b2a20");
    reveal_strlit("#2e2a26");
    reveal_strlit("#232a36");
    reveal_strlit("#1e2430");
    reveal_strlit("#0f1b26");
    reveal_strlit("#1f2233");
    reveal_strlit("#1f2637");
    reveal_strlit("#27272a");
    reveal_strlit("#2a1c26");
    reveal_strlit("minimal");
    lemma_colour_bytes(h);
    let e = encode_utf8(h);
    assert((('0' as u32) as u8) == 0x30u8 && (('1' as u32) as u8) == 0x31u8 && (('2' as u32) as u8) == 0x32u8
        && (('3' as u32) as u8) == 0x33u8 && (('4' as u32) as u8) == 0x34u8 && (('5' as u32) as u8) == 0x35u8
        && (('6' as u32) as u8) == 0x36u8 && (('7' as u32) as u8) == 0x37u8 && (('8' as u32) as u8) == 0x38u8
        && (('9' as u32) as u8) == 0x39u8 && (('a' as u32) as u8) == 0x61u8 && (('b' as u32) as u8) == 0x62u8
        && (('c' as u32) as u8) == 0x63u8 && (('e' as u32) as u8) == 0x65u8 && (('f' as u32) as u8) == 0x66u8);
}

/// A query occurs in any text that holds it between two other texts, the
/// empty query occurs everywhere, and a query never occurs in a shorter text.
pub proof fn law_occurrence(needle: Seq<char>, before: Seq<char>, after: Seq<char>, hay: Seq<char>)
    ensures
        crate::workspace::occurs_in(needle, before + needle + after),
        crate::workspace::occurs_in(Seq::empty(), hay),
        hay.len() < needle.len() ==> !crate::workspace::occurs_in(needle, hay),
{
    let x = before + needle + after;
    assert(x.subrange(before.len() as int, (before.len() + needle.len()) as int) == needle);
    let e = Seq::<char>::empty();
    assert(hay.subrange(0, 0 + e.len() as int) == e);
}

/// Names are ordered character by character: a name comes before every
/// longer name it begins, and at the first differing character the smaller
/// character comes first; directories come before files.
pub proof fn law_tree_order(a: Seq<char>, b: Seq<char>, x: char, y: char, d: crate::workspace::EntryModel, f: crate::workspace::EntryModel)
    requires
        d.2,
        !f.2,
    ensures
        crate::workspace::name_le(a, a + b),
        x < y ==> crate::workspace::name_le(seq![x] + a, seq![y] + b) && !crate::workspace::name_le(seq![y] + b, seq![x] + a),
        crate::workspace::entry_le(d, f) && !crate::workspace::entry_le(f, d),
    decreases a.len(),
{
    if a.len() > 0 {
        law_tree_order(a.drop_first(), b, x, y, d, f);
        assert((a + b).drop_first() == a.drop_first() + b);
        assert((a + b)[0] == a[0]);
    }
    let l = seq![x] + a;
    let r = seq![y] + b;
    assert(l[0] == x);
    assert(r[0] == y);
}

/// Escaping for an attribute leaves no double quote, `<` or `>`.
pub proof fn law_attribute_escape_is_safe(s: Seq<char>)
    ensures
        forall|k: int| 0 <= k < crate::text::attr_escaped(s).len() ==> #[trigger] crate::text::attr_escaped(s)[k] != '"'
            && crate::text::attr_escaped(s)[k] != '<' && crate::text::attr_escaped(s)[k] != '>',
    decreases s.len(),
{
    reveal_strlit("&amp;");
    reveal_strlit("&lt;");
    reveal_strlit("&gt;");
    reveal_strlit("&quot;");
    if s.len() > 0 {
        law_attribute_escape_is_safe(s.drop_last());
        let a = crate::text::attr_escaped(s.drop_last());
        let b = crate::text::escape_attr_char(s.last());
        assert forall|k: int| 0 <= k < (a + b).len() implies #[trigger] (a + b)[k] != '"' && (a + b)[k] != '<' && (a + b)[k] != '>' by {
            if k >= a.len() {
                assert((a + b)[k] == b[k - a.len()]);
            } else {
                assert((a + b)[k] == a[k]);
            }
        }
    }
}

/// The table markup: the header row sits in `<thead>` with `th` cells, the
/// body in `<tbody>`, which the table's end closes; ordered lists carry their
/// start number; task boxes show ☑ or ☐.
pub proof fn law_table_and_list_markup(s: crate::render::RenderState, t: ThemeModel, start: u64, checked: bool)
    ensures
        render_step(s, MdEvent::Start(MdStart::Unit(MdUnit::TableHead)), t).out == s.out + "<thead><tr>"@,
        render_step(s, MdEvent::Start(MdStart::Unit(MdUnit::TableHead)), t).in_thead,
        s.in_thead ==> render_step(s, MdEvent::Start(MdStart::Unit(MdUnit::TableCell)), t).out == s.out + crate::render::open_tag("th"@, t.th),
        s.in_thead ==> render_step(s, MdEvent::End(MdEnd::Unit(MdUnit::TableCell)), t).out == s.out + "</th>"@,
        !s.in_thead ==> render_step(s, MdEvent::End(MdEnd::Unit(MdUnit::TableCell)), t).out == s.out + "</td>"@,
        render_step(s, MdEvent::End(MdEnd::Unit(MdUnit::TableHead)), t).out == s.out + "</tr></thead><tbody>"@,
        render_step(s, MdEvent::End(MdEnd::Unit(MdUnit::TableHead)), t).tbody_open,
        render_step(s, MdEvent::Start(MdStart::Unit(MdUnit::TableRow)), t).out == s.out + "<tr>"@,
        render_step(s, MdEvent::End(MdEnd::Unit(MdUnit::TableRow)), t).out == s.out + "</tr>"@,
        s.tbody_open ==> render_step(s, MdEvent::End(MdEnd::Unit(MdUnit::Table)), t).out == s.out + "</tbody>"@ + "</table>"@,
        !s.tbody_open ==> render_step(s, MdEvent::End(MdEnd::Unit(MdUnit::Table)), t).out == s.out + "</table>"@,
        render_step(s, MdEvent::Start(MdStart::List(Some(start))), t).out == s.out + "<ol style=\""@ + t.ol + "\" start=\""@ + decimal(start as nat) + "\">"@,
        render_step(s, MdEvent::TaskListMarker(checked), t).out == s.out + "<span style=\""@ + t.code_inline + "\">"@ + (if checked { "☑"@ } else { "☐"@ }) + "</span> "@,
{
}

/// The CF_HTML parts: the version line and the four offset keys, each number
/// written with at least ten digits (zeros in front), the HTML part's opening
/// and closing around the fragment.
pub proof fn law_cf_html_parts(a: nat, b: nat, c: nat, d: nat, n: nat)
    ensures
        cf_header(a, b, c, d) == "Version:0.9\r\nStartHTML:"@ + pad10(a) + "\r\nEndHTML:"@ + pad10(b) + "\r\nStartFragment:"@
            + pad10(c) + "\r\nEndFragment:"@ + pad10(d) + "\r\n"@,
        cf_pre() == "<html><body>\r\n<!--StartFragment-->"@,
        cf_post() == "<!--EndFragment-->\r\n</body></html>"@,
        decimal(n).len() < 10 ==> pad10(n) == Seq::new((10 - decimal(n).len()) as nat, |i: int| '0') + decimal(n),
        decimal(n).len() >= 10 ==> pad10(n) == decimal(n),
        n < 10_000_000_000 ==> pad10(n).len() == 10,
{
    if n < 10_000_000_000 {
        lemma_pad10(n);
    }
}

/// The tree lists exactly the entries that are not hidden and are directories
/// or Markdown documents.
pub proof fn law_listed_entries(e: crate::workspace::EntryModel)
    ensures
        crate::workspace::listed(e) <==> (!crate::workspace::hidden_entry(e.0, e.3) && (e.2 || md_name(e.0))),
        crate::workspace::hidden_entry(e.0, e.3) ==> !crate::workspace::listed(e),
{
}

/// A link that may be opened begins with `https://` and has something after it.
pub proof fn law_safe_links_are_https(url: Seq<char>)
    ensures
        safe_url(url) ==> url.len() > 8 && url.take(8) == seq!['h', 't', 't', 'p', 's', ':', '/', '/'],
        safe_url(url) <==> (url.len() > 8 && url.take(8) == "https://"@ && forall|i: int| 0 <= i < url.len() ==> url_char(#[trigger] url[i])),
{
    reveal_strlit("https://");
}

proof fn lemma_inclusive_carry(a: Seq<char>, rest: Seq<char>, cur: Seq<char>)
    requires
        forall|i: int| 0 <= i < a.len() ==> a[i] != '\n',
    ensures
        crate::highlight::inclusive_lines_from(a + rest, cur) == crate::highlight::inclusive_lines_from(rest, cur + a),
    decreases a.len(),
{
    if a.len() > 0 {
        let x = a + rest;
        assert(x[0] == a[0]);
        assert(x.drop_first() == a.drop_first() + rest);
        lemma_inclusive_carry(a.drop_first(), rest, cur.push(a[0]));
        assert(cur.push(a[0]) + a.drop_first() == cur + a);
    } else {
        assert(a + rest == rest);
        assert(cur + a == cur);
    }
}

/// Code is highlighted line by line, each line keeping its `\n`; a line whose
/// highlighting fails is written escaped.
pub proof fn law_code_lines(a: Seq<char>, rest: Seq<char>, lines: Seq<Seq<char>>, html: Seq<Option<Seq<char>>>, n: int)
    requires
        forall|i: int| 0 <= i < a.len() ==> a[i] != '\n',
        0 <= n,
    ensures
        crate::highlight::inclusive_lines(a + seq!['\n'] + rest) == seq![a.push('\n')] + crate::highlight::inclusive_lines(rest),
        crate::highlight::joined_lines(lines, html, n + 1) == crate::highlight::joined_lines(lines, html, n) + match html[n] {
            Some(h) => h,
            None => escaped(lines[n]),
        },
{
    lemma_inclusive_carry(a, seq!['\n'] + rest, Seq::empty());
    let x = seq!['\n'] + rest;
    assert(x[0] == '\n');
    assert(x.drop_first() == rest);
    assert(Seq::<char>::empty() + a == a);
    assert(a + seq!['\n'] + rest == a + x);
}

/// A present preference replaces the saved one; an absent one keeps it.
pub proof fn law_present_values_replace<T>(saved: T, v: T, saved_opt: Option<T>)
    ensures
        crate::config::replaced(saved, Some(v)) == v,
        crate::config::replaced(saved, None) == saved,
        replaced_opt(saved_opt, Some(v)) == Some(v),
        replaced_opt(saved_opt, None) == saved_opt,
{
}

/// A request with a custom specification renders with that specification,
/// whatever preset it names; without one, with the named preset.
pub proof fn law_custom_specification_wins(id: Seq<char>, spec: crate::theme::ThemeSpec, p: (Seq<char>, nat, Seq<char>))
    ensures
        crate::config::resolved_theme_model(id, Some(spec), p) == params_applied(build_of(spec_of_tokens(spec@)), p),
        crate::config::resolved_theme_model(id, None, p) == params_applied(build_of(preset(id)), p),
{
}

/// Hits come document by document, in the documents' order.
pub proof fn law_hits_in_document_order(docs: Seq<DocModel>, d: DocModel, q: Seq<char>)
    ensures
        crate::workspace::all_hits(docs.push(d), q) == crate::workspace::all_hits(docs, q) + crate::workspace::doc_hits(d, q),
        crate::workspace::all_hits(Seq::empty(), q).len() == 0,
{
    assert(docs.push(d).drop_last() == docs);
}

/// A colour is dark exactly when its luminance sum 299r + 587g + 114b is below
/// half of its largest value 255000, except where the sum is exactly half and
/// double-precision rounding falls below one half; black is dark, white is not.
pub proof fn law_dark_colours(r: nat, g: nat, b: nat)
    ensures
        crate::theme::rounds_below_half(r, g, b) ==> 299 * r + 587 * g + 114 * b == 127500,
        crate::theme::dark_hex("#000000"@),
        !crate::theme::dark_hex("#ffffff"@),
{
    reveal_strlit("#000000");
    reveal_strlit("#ffffff");
    lemma_colour_bytes("#000000"@);
    lemma_colour_bytes("#ffffff"@);
    assert((('0' as u32) as u8) == 0x30u8 && (('f' as u32) as u8) == 0x66u8);
}

/// A code block's end writes its collected text highlighted for its language
/// on the theme's code background, then closes `</code></pre>`, and clears
/// the block's language and text.
pub proof fn law_code_block_end(s: crate::render::RenderState, t: ThemeModel)
    requires
        !s.in_diagram,
    ensures
        render_step(s, MdEvent::End(MdEnd::CodeBlock), t).out == s.out + highlight_of(s.code_buf, s.code_lang, t.code_dark)
            + "</code></pre>"@,
        !render_step(s, MdEvent::End(MdEnd::CodeBlock), t).in_code,
        render_step(s, MdEvent::End(MdEnd::CodeBlock), t).code_buf.len() == 0,
        render_step(s, MdEvent::End(MdEnd::CodeBlock), t).counter == s.counter,
{
}

} // verus!
