use mwmd::clipboard::{open_step, OpenAction, OPEN_ATTEMPTS};
use mwmd::config::{merge_prefs, Config, Prefs};
use mwmd::text::trim;
use mwmd::workspace::{search_content, Document};
use mwmd::render::{render_events, MdEnd, MdEvent, MdStart, MdUnit};
use mwmd::theme::{available_themes, themed, themed_spec, Theme, ThemeParams, ThemeSpec};

fn prefs_with_theme(theme: Option<&str>, locale: Option<&str>) -> Prefs {
    Prefs {
        locale: locale.map(|s| s.to_string()),
        theme: theme.map(|s| s.to_string()),
        editor_theme: None,
        ui_font_family: None,
        ui_font_size: None,
        wx_dark: None,
        params: None,
        custom_themes: None,
    }
}

#[test]
fn later_saved_preference_wins() {
    let c = merge_prefs(Config::default(), prefs_with_theme(Some("tech"), Some("en")));
    let c = merge_prefs(c, prefs_with_theme(Some("paper"), None));
    assert_eq!(c.theme.as_deref(), Some("paper"));
    assert_eq!(c.locale.as_deref(), Some("en"));
}

#[test]
fn rendering_events_only_appends() {
    let events: Vec<MdEvent<String>> = vec![
        MdEvent::Start(MdStart::Heading(2)),
        MdEvent::Text("Title".to_string()),
        MdEvent::End(MdEnd::Heading(2)),
        MdEvent::Start(MdStart::Unit(MdUnit::Paragraph)),
        MdEvent::Start(MdStart::Image("a.png".to_string())),
        MdEvent::Text("alt".to_string()),
        MdEvent::End(MdEnd::Image),
        MdEvent::Html("<b>".to_string()),
        MdEvent::Start(MdStart::Image("b.png".to_string())),
        MdEvent::End(MdEnd::Image),
        MdEvent::End(MdEnd::Unit(MdUnit::Paragraph)),
    ];
    let t = Theme::by_id("default");
    let full = render_events(&events, &t);
    for i in 0..=events.len() {
        let part = render_events(&events[..i].to_vec(), &t);
        assert!(full.starts_with(&part), "{}", i);
    }
    assert!(full.contains("【此处插入图片 1】"));
    assert!(full.contains("【此处插入图片 2】"));
    assert!(full.find("【此处插入图片 1】").unwrap() < full.find("【此处插入图片 2】").unwrap());
    assert!(!full.contains(">alt"));
    assert!(full.contains("&lt;b&gt;"));
}

#[test]
fn unknown_layout_tokens_equal_defaults() {
    let p = ThemeParams::default();
    let mut odd = ThemeSpec::from_preset("magazine");
    odd.head = "not-a-style".into();
    odd.quote = "?".into();
    odd.table = "".into();
    odd.rule = "wavy".into();
    let mut plain = ThemeSpec::from_preset("magazine");
    plain.head = "bar".into();
    plain.quote = "bar".into();
    plain.table = "grid".into();
    plain.rule = "solid".into();
    let a = themed_spec(&odd, &p);
    let b = themed_spec(&plain, &p);
    assert_eq!(a.h1, b.h1);
    assert_eq!(a.h2, b.h2);
    assert_eq!(a.blockquote, b.blockquote);
    assert_eq!(a.td, b.td);
    assert_eq!(a.hr, b.hr);
}

#[test]
fn parameters_only_append_to_styles() {
    let p = ThemeParams { font_family: "serif".into(), font_size: 17, align: "right".into() };
    for m in available_themes() {
        let base = Theme::by_id(&m.id);
        let t = themed(&m.id, &p);
        assert!(t.p.starts_with(&base.p));
        assert!(t.li.starts_with(&base.li));
        assert!(t.h3.starts_with(&base.h3));
        assert!(t.td.starts_with(&base.td));
        assert_eq!(t.strong, base.strong);
        assert_eq!(t.pre, base.pre);
        assert!(t.p.ends_with("font-size:17px;text-align:right;"));
    }
}

#[test]
fn query_whitespace_and_repeated_trim_change_nothing() {
    for s in ["  a b  ", "\u{3000}x\t", "", "   ", "q"] {
        assert_eq!(trim(&trim(s)), trim(s));
    }
    let docs = vec![Document { name: "a.md".into(), path: "/a.md".into(), content: "One World\ntwo\n".into() }];
    let plain = search_content(&docs, "world", 10);
    let padded = search_content(&docs, " \t world \u{3000}", 10);
    assert_eq!(plain.len(), 1);
    assert_eq!(padded.len(), 1);
    assert_eq!(plain[0].line, padded[0].line);
    assert_eq!(plain[0].snippet, padded[0].snippet);
}

#[test]
fn clipboard_open_retries_then_fails() {
    assert_eq!(open_step(1, true), OpenAction::Write);
    assert_eq!(open_step(15, true), OpenAction::Write);
    assert_eq!(open_step(1, false), OpenAction::PauseAndRetry);
    assert_eq!(open_step(14, false), OpenAction::PauseAndRetry);
    assert_eq!(open_step(OPEN_ATTEMPTS, false), OpenAction::PauseAndFail);
    let mut attempts = 0;
    loop {
        attempts += 1;
        match open_step(attempts, false) {
            OpenAction::PauseAndRetry => continue,
            OpenAction::PauseAndFail => break,
            OpenAction::Write => unreachable!(),
        }
    }
    assert_eq!(attempts, 15);
}

#[test]
fn escaping_round_trips() {
    for s in ["", "a<b>&c", "&amp;lt;", "<<>>&&", "中文 & <x>", "&lt;"] {
        let r = mwmd::text::escape_html(s);
        assert!(!r.contains('<') && !r.contains('>'));
        assert_eq!(r.replace("&lt;", "<").replace("&gt;", ">").replace("&amp;", "&"), s);
    }
}

#[test]
fn preset_copies_build_the_preset() {
    for m in available_themes() {
        let a = ThemeSpec::from_preset(&m.id).to_theme();
        let b = Theme::by_id(&m.id);
        for (x, y) in [
            (&a.h1, &b.h1), (&a.h2, &b.h2), (&a.h3, &b.h3), (&a.h4, &b.h4), (&a.h5, &b.h5), (&a.h6, &b.h6),
            (&a.p, &b.p), (&a.strong, &b.strong), (&a.em, &b.em), (&a.del, &b.del),
            (&a.code_inline, &b.code_inline), (&a.pre, &b.pre), (&a.code, &b.code),
            (&a.blockquote, &b.blockquote), (&a.ul, &b.ul), (&a.ol, &b.ol), (&a.li, &b.li), (&a.a, &b.a),
            (&a.table, &b.table), (&a.th, &b.th), (&a.td, &b.td), (&a.td_alt, &b.td_alt), (&a.hr, &b.hr),
            (&a.placeholder, &b.placeholder), (&a.placeholder_label, &b.placeholder_label),
            (&a.placeholder_caption, &b.placeholder_caption),
        ] {
            assert_eq!(x, y, "{}", m.id);
        }
        assert_eq!(a.code_dark, b.code_dark);
    }
}
