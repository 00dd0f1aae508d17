//! The application's settings and the decisions of its commands that are not
//! I/O: merging saved preferences, the list of workspace roots, which theme a
//! request renders with, the exported document, and which external links may
//! be opened.
use vstd::prelude::*;
use crate::render::{markdown_events, render_markdown, rendered, standalone_document, standalone_document_of};
use crate::text::same_text;
use crate::theme::{
    build_of, dark_hex_panics, params_applied, preset, spec_of_tokens, themed, themed_spec, Theme,
    ThemeModel, ThemeParams, ThemeSpec,
};

verus! {

/// A theme saved by the visual theme editor: its id, its Chinese and English
/// names, and its specification.
pub struct CustomTheme {
    pub id: String,
    pub name_zh: String,
    pub name_en: String,
    pub spec: ThemeSpec,
}

/// The saved settings: workspace roots, interface preferences, global
/// typesetting parameters and custom themes.
pub struct Config {
    pub workspaces: Vec<String>,
    pub locale: Option<String>,
    pub theme: Option<String>,
    pub editor_theme: Option<String>,
    pub ui_font_family: Option<String>,
    pub ui_font_size: Option<u32>,
    pub wx_dark: Option<bool>,
    pub params: ThemeParams,
    pub custom_themes: Vec<CustomTheme>,
}

/// A change of preferences: each field that is present replaces the saved one.
pub struct Prefs {
    pub locale: Option<String>,
    pub theme: Option<String>,
    pub editor_theme: Option<String>,
    pub ui_font_family: Option<String>,
    pub ui_font_size: Option<u32>,
    pub wx_dark: Option<bool>,
    pub params: Option<ThemeParams>,
    pub custom_themes: Option<Vec<CustomTheme>>,
}

/// The texts of a list of strings.
pub open spec fn texts(v: Seq<String>) -> Seq<Seq<char>> {
    v.map_values(|s: String| s@)
}

/// `new` where it is present, else `old`.
pub open spec fn replaced<T>(old: T, new: Option<T>) -> T {
    match new {
        Some(v) => v,
        None => old,
    }
}

/// `new` where it is present, else `old` (for optional settings).
pub open spec fn replaced_opt<T>(old: Option<T>, new: Option<T>) -> Option<T> {
    match new {
        Some(v) => Some(v),
        None => old,
    }
}

impl Default for Config {
    /// No workspace, no saved preference, the default parameters, no custom theme.
    fn default() -> (r: Config)
        ensures
            r.workspaces@.len() == 0,
            r.locale is None,
            r.theme is None,
            r.editor_theme is None,
            r.ui_font_family is None,
            r.ui_font_size is None,
            r.wx_dark is None,
            r.params@ == ("sans"@, 16nat, "left"@),
            r.custom_themes@.len() == 0,
    {
        Config {
            workspaces: Vec::new(),
            locale: None,
            theme: None,
            editor_theme: None,
            ui_font_family: None,
            ui_font_size: None,
            wx_dark: None,
            params: ThemeParams::default(),
            custom_themes: Vec::new(),
        }
    }
}

/// The saved settings with a change of preferences applied: each field the
/// change holds replaces the saved one, the others and the workspace roots stay.
pub fn merge_prefs(c: Config, p: Prefs) -> (r: Config)
    ensures
        r.workspaces == c.workspaces,
        r.locale == replaced_opt(c.locale, p.locale),
        r.theme == replaced_opt(c.theme, p.theme),
        r.editor_theme == replaced_opt(c.editor_theme, p.editor_theme),
        r.ui_font_family == replaced_opt(c.ui_font_family, p.ui_font_family),
        r.ui_font_size == replaced_opt(c.ui_font_size, p.ui_font_size),
        r.wx_dark == replaced_opt(c.wx_dark, p.wx_dark),
        r.params == replaced(c.params, p.params),
        r.custom_themes == replaced(c.custom_themes, p.custom_themes),
{
    let mut c = c;
    if let Some(l) = p.locale {
        c.locale = Some(l);
    }
    if let Some(t) = p.theme {
        c.theme = Some(t);
    }
    if let Some(e) = p.editor_theme {
        c.editor_theme = Some(e);
    }
    if let Some(f) = p.ui_font_family {
        c.ui_font_family = Some(f);
    }
    if let Some(s) = p.ui_font_size {
        c.ui_font_size = Some(s);
    }
    if let Some(d) = p.wx_dark {
        c.wx_dark = Some(d);
    }
    if let Some(pp) = p.params {
        c.params = pp;
    }
    if let Some(ct) = p.custom_themes {
        c.custom_themes = ct;
    }
    c
}

fn holds_text(v: &Vec<String>, s: &str) -> (r: bool)
    ensures
        r == texts(v@).contains(s@),
{
    let mut i: usize = 0;
    while i < v.len()
        invariant
            i <= v.len(),
            forall|k: int| 0 <= k < i ==> texts(v@)[k] != s@,
        decreases v.len() - i,
    {
        if same_text(v[i].as_str(), s) {
            assert(texts(v@)[i as int] == s@);
            return true;
        }
        i = i + 1;
    }
    false
}

/// The workspace roots with `root` appended, unless it is already listed.
pub open spec fn with_root(ws: Seq<Seq<char>>, root: Seq<char>) -> Seq<Seq<char>> {
    if ws.contains(root) {
        ws
    } else {
        ws.push(root)
    }
}

/// Whether a listed root differs from `root`.
pub open spec fn other_than(root: Seq<char>) -> spec_fn(Seq<char>) -> bool {
    |w: Seq<char>| w != root
}

/// The workspace roots without any occurrence of `root`.
pub open spec fn without_root(ws: Seq<Seq<char>>, root: Seq<char>) -> Seq<Seq<char>> {
    ws.filter(other_than(root))
}

/// Adds a workspace root unless it is already listed; says whether it was added
/// (the settings need saving only then).
pub fn add_workspace_root(c: &mut Config, root: String) -> (added: bool)
    ensures
        added == !texts(old(c).workspaces@).contains(root@),
        texts(final(c).workspaces@) == with_root(texts(old(c).workspaces@), root@),
        final(c).locale == old(c).locale,
        final(c).theme == old(c).theme,
        final(c).editor_theme == old(c).editor_theme,
        final(c).ui_font_family == old(c).ui_font_family,
        final(c).ui_font_size == old(c).ui_font_size,
        final(c).wx_dark == old(c).wx_dark,
        final(c).params == old(c).params,
        final(c).custom_themes == old(c).custom_themes,
{
    if holds_text(&c.workspaces, root.as_str()) {
        false
    } else {
        let ghost before = c.workspaces@;
        c.workspaces.push(root);
        assert(texts(c.workspaces@) == texts(before).push(c.workspaces@.last()@));
        true
    }
}

/// Removes every occurrence of a workspace root from the list.
pub fn remove_workspace_root(c: &mut Config, path: &str)
    ensures
        texts(final(c).workspaces@) == without_root(texts(old(c).workspaces@), path@),
        final(c).locale == old(c).locale,
        final(c).theme == old(c).theme,
        final(c).editor_theme == old(c).editor_theme,
        final(c).ui_font_family == old(c).ui_font_family,
        final(c).ui_font_size == old(c).ui_font_size,
        final(c).wx_dark == old(c).wx_dark,
        final(c).params == old(c).params,
        final(c).custom_themes == old(c).custom_themes,
{
    let ghost orig = texts(c.workspaces@);
    let ghost keep = other_than(path@);
    let mut rest: Vec<String> = Vec::new();
    std::mem::swap(&mut rest, &mut c.workspaces);
    let mut kept: Vec<String> = Vec::new();
    let ghost mut k: int = 0;
    assert(orig.take(0) == Seq::<Seq<char>>::empty());
    assert(Seq::<Seq<char>>::empty().filter(keep) == Seq::<Seq<char>>::empty());
    assert(texts(kept@) == Seq::<Seq<char>>::empty());
    while rest.len() > 0
        invariant
            0 <= k <= orig.len(),
            texts(rest@) == orig.skip(k),
            texts(kept@) == orig.take(k).filter(keep),
            keep == other_than(path@),
            c.workspaces@.len() == 0,
            c.locale == old(c).locale,
            c.theme == old(c).theme,
            c.editor_theme == old(c).editor_theme,
            c.ui_font_family == old(c).ui_font_family,
            c.ui_font_size == old(c).ui_font_size,
            c.wx_dark == old(c).wx_dark,
            c.params == old(c).params,
            c.custom_themes == old(c).custom_themes,
        decreases rest.len(),
    {
        let ghost before = rest@;
        let w = rest.remove(0);
        proof {
            assert(texts(before).len() == before.len());
            assert(texts(before)[0] == before[0]@);
            assert(w@ == orig[k]);
            assert(texts(rest@) == texts(before).drop_first());
            assert(orig.take(k + 1) == orig.take(k).push(orig[k]));
            orig.take(k).lemma_filter_push(orig[k], keep);
        }
        if !same_text(w.as_str(), path) {
            let ghost prev = kept@;
            kept.push(w);
            assert(texts(kept@) == texts(prev).push(orig[k]));
        }
        proof {
            k = k + 1;
        }
    }
    assert(orig.take(k) == orig);
    c.workspaces = kept;
}

/// The model of the theme a request renders with: the custom specification
/// when there is one, else the preset `theme`, with the global parameters.
pub open spec fn resolved_theme_model(theme: Seq<char>, spec: Option<ThemeSpec>, params: (Seq<char>, nat, Seq<char>)) -> ThemeModel {
    match spec {
        Some(s) => params_applied(build_of(spec_of_tokens(s@)), params),
        None => params_applied(build_of(preset(theme)), params),
    }
}

/// Whether a request's custom specification, if any, can be built.
pub open spec fn spec_buildable(spec: Option<ThemeSpec>) -> bool {
    match spec {
        Some(s) => !dark_hex_panics(s.code_bg@),
        None => true,
    }
}

/// The theme a request renders with: the visual editor's specification when
/// there is one, else the preset of that id, with the global parameters.
pub fn resolve_theme(theme: &str, spec: &Option<ThemeSpec>, params: &ThemeParams) -> (t: Theme)
    requires
        spec_buildable(*spec),
    ensures
        t@ == resolved_theme_model(theme@, *spec, params@),
{
    match spec {
        Some(s) => themed_spec(s, params),
        None => themed(theme, params),
    }
}

/// The standalone document of a Markdown article: rendered with the resolved
/// theme, then wrapped into a page with print CSS and the escaped title.
pub fn build_document(md: &str, theme: &str, params: &ThemeParams, spec: &Option<ThemeSpec>, title: &str) -> (r: String)
    requires
        spec_buildable(*spec),
    ensures
        r@ == standalone_document_of(
            rendered(markdown_events(md@), resolved_theme_model(theme@, *spec, params@)),
            title@,
        ),
{
    let t = resolve_theme(theme, spec, params);
    let body = render_markdown(md, &t);
    standalone_document(body.as_str(), title)
}

/// The characters a link that may be opened is made of: ASCII letters and
/// digits and `: / . - _`, none of which a command shell treats specially.
pub open spec fn url_char(c: char) -> bool {
    ('a' <= c && c <= 'z') || ('A' <= c && c <= 'Z') || ('0' <= c && c <= '9') || c == ':' || c == '/'
        || c == '.' || c == '-' || c == '_'
}

/// Whether an external link may be opened: it begins with `https://`, has
/// something after it, and is made of link characters only.
pub open spec fn safe_url(url: Seq<char>) -> bool {
    &&& url.len() > 8
    &&& url.take(8) == "https://"@
    &&& forall|i: int| 0 <= i < url.len() ==> url_char(#[trigger] url[i])
}

/// Whether an external link may be opened in the system browser.
pub fn is_safe_external_url(url: &str) -> (r: bool)
    ensures
        r == safe_url(url@),
{
    let v = crate::text::chars_of(url);
    let prefix = "https://";
    proof {
        reveal_strlit("https://");
    }
    if v.len() <= 8 {
        return false;
    }
    let p = crate::text::chars_of(prefix);
    let mut i: usize = 0;
    while i < 8
        invariant
            i <= 8,
            v@ == url@,
            v@.len() > 8,
            p@ == "https://"@,
            p@.len() == 8,
            forall|k: int| 0 <= k < i ==> v@[k] == p@[k],
        decreases 8 - i,
    {
        if v[i] != p[i] {
            assert(v@.take(8)[i as int] != "https://"@[i as int]);
            return false;
        }
        i = i + 1;
    }
    assert(v@.take(8) == "https://"@);
    let mut j: usize = 0;
    while j < v.len()
        invariant
            j <= v.len(),
            v@ == url@,
            v@.len() > 8,
            v@.take(8) == "https://"@,
            forall|k: int| 0 <= k < j ==> url_char(#[trigger] v@[k]),
        decreases v.len() - j,
    {
        let c = v[j];
        let ok = ('a' <= c && c <= 'z') || ('A' <= c && c <= 'Z') || ('0' <= c && c <= '9') || c == ':'
            || c == '/' || c == '.' || c == '-' || c == '_';
        if !ok {
            assert(!url_char(v@[j as int]));
            return false;
        }
        j = j + 1;
    }
    true
}

} // verus!
