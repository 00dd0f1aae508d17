use mwmd::config::{
    add_workspace_root, build_document, is_safe_external_url, merge_prefs, remove_workspace_root,
    resolve_theme, Config, CustomTheme, Prefs,
};
use mwmd::render::{render_markdown, standalone_document};
use mwmd::theme::{themed, themed_spec, ThemeParams, ThemeSpec};

fn no_prefs() -> Prefs {
    Prefs {
        locale: None,
        theme: None,
        editor_theme: None,
        ui_font_family: None,
        ui_font_size: None,
        wx_dark: None,
        params: None,
        custom_themes: None,
    }
}

#[test]
fn default_config_is_empty() {
    let c = Config::default();
    assert!(c.workspaces.is_empty());
    assert!(c.locale.is_none() && c.theme.is_none() && c.wx_dark.is_none());
    assert_eq!(c.params.font_size, 16);
    assert!(c.custom_themes.is_empty());
}

#[test]
fn present_preferences_replace_saved_ones() {
    let mut c = Config::default();
    c.workspaces.push("/w".to_string());
    c.locale = Some("zh".to_string());
    c.theme = Some("tech".to_string());
    let mut p = no_prefs();
    p.theme = Some("paper".to_string());
    p.ui_font_size = Some(14);
    p.params = Some(ThemeParams { font_family: "serif".into(), font_size: 18, align: "center".into() });
    p.custom_themes = Some(vec![CustomTheme {
        id: "mine".into(),
        name_zh: "我的".into(),
        name_en: "Mine".into(),
        spec: ThemeSpec::from_preset("wechat"),
    }]);
    let r = merge_prefs(c, p);
    assert_eq!(r.workspaces, vec!["/w".to_string()]);
    assert_eq!(r.locale.as_deref(), Some("zh"));
    assert_eq!(r.theme.as_deref(), Some("paper"));
    assert_eq!(r.ui_font_size, Some(14));
    assert_eq!(r.params.font_size, 18);
    assert_eq!(r.custom_themes.len(), 1);
    let unchanged = merge_prefs(r, no_prefs());
    assert_eq!(unchanged.theme.as_deref(), Some("paper"));
    assert_eq!(unchanged.custom_themes[0].id, "mine");
}

#[test]
fn workspace_roots_are_added_once_and_removed_entirely() {
    let mut c = Config::default();
    assert!(add_workspace_root(&mut c, "/a".to_string()));
    assert!(add_workspace_root(&mut c, "/b".to_string()));
    assert!(!add_workspace_root(&mut c, "/a".to_string()));
    assert_eq!(c.workspaces, vec!["/a".to_string(), "/b".to_string()]);
    c.workspaces.push("/a".to_string());
    remove_workspace_root(&mut c, "/a");
    assert_eq!(c.workspaces, vec!["/b".to_string()]);
    remove_workspace_root(&mut c, "/missing");
    assert_eq!(c.workspaces, vec!["/b".to_string()]);
}

#[test]
fn remove_undoes_add_on_a_list() {
    let mut c = Config::default();
    c.workspaces = vec!["/x".to_string(), "/y".to_string()];
    add_workspace_root(&mut c, "/z".to_string());
    remove_workspace_root(&mut c, "/z");
    assert_eq!(c.workspaces, vec!["/x".to_string(), "/y".to_string()]);
}

#[test]
fn external_links_are_restricted() {
    assert!(is_safe_external_url("https://github.com/sandinsnow/MWMD/releases"));
    assert!(is_safe_external_url("https://a"));
    assert!(!is_safe_external_url("https://"));
    assert!(!is_safe_external_url("http://github.com"));
    assert!(!is_safe_external_url("https://a.b/?x=1&y=2"));
    assert!(!is_safe_external_url("https://a.b/ c"));
    assert!(!is_safe_external_url("https://a.b/\"x"));
    assert!(!is_safe_external_url("https://例子.com"));
    assert!(!is_safe_external_url("HTTPS://a.b"));
}

#[test]
fn theme_resolution_prefers_custom_specification() {
    let p = ThemeParams::default();
    let spec = ThemeSpec::from_preset("academic");
    let custom = resolve_theme("tech", &Some(spec.clone()), &p);
    assert_eq!(custom.h1, themed_spec(&spec, &p).h1);
    let preset = resolve_theme("tech", &None, &p);
    assert_eq!(preset.h1, themed("tech", &p).h1);
    assert_ne!(custom.h1, preset.h1);
}

#[test]
fn exported_document_wraps_rendered_article() {
    let p = ThemeParams::default();
    let doc = build_document("# Hi\n\ntext\n", "minimal", &p, &None, "T <1>");
    let body = render_markdown("# Hi\n\ntext\n", &themed("minimal", &p));
    assert_eq!(doc, standalone_document(&body, "T <1>"));
    assert!(doc.contains("<title>T &lt;1&gt;</title>"));
    assert!(doc.contains(&body));
}
