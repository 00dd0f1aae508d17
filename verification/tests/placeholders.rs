use mwmd::highlight::load_code_sets;
use mwmd::render::{render_markdown, render_markdown_cached};
use mwmd::theme::{themed, Theme, ThemeParams};

#[test]
fn display_formula_becomes_numbered_placeholder() {
    let html = render_markdown("$$E=mc^2$$\n", &Theme::by_id("default"));
    assert!(html.contains("【此处插入图片 1】"), "{}", html);
    assert!(html.contains("E=mc^2"));
    assert!(!html.contains("$$"));
}

#[test]
fn images_formulas_and_diagrams_share_one_sequence() {
    let md = "![a](a.png)\n\nText $x^2$ here.\n\n```mermaid\ngraph TD\nA-->B\n```\n\n![b](b.png)\n";
    let html = render_markdown(md, &themed("tech", &ThemeParams::default()));
    let mut last = 0;
    for n in 1..=4 {
        let label = format!("【此处插入图片 {}】", n);
        let at = html.find(&label).unwrap_or_else(|| panic!("missing {}: {}", label, html));
        assert!(at >= last, "{} out of order", label);
        assert_eq!(html.matches(&label).count(), 1);
        last = at;
    }
    assert!(!html.contains("【此处插入图片 5】"));
    assert!(html.contains("x^2"));
    assert!(html.contains("graph TD\nA--&gt;B\n"));
    assert!(!html.contains("<pre"), "a diagram opens no code block: {}", html);
    assert!(!html.contains("<img"));
}

#[test]
fn cached_code_sets_render_the_same() {
    let t = themed("default", &ThemeParams::default());
    let md = "```rust\nlet x = 1;\n```\n\n```python\nx = 1\n```\n";
    let mut cache = None;
    let a = render_markdown_cached(md, &t, &mut cache);
    assert!(cache.is_some());
    let b = render_markdown_cached(md, &t, &mut cache);
    assert_eq!(a, b);
    assert_eq!(a, render_markdown(md, &t));
    let mut preloaded = Some(load_code_sets());
    assert_eq!(render_markdown_cached(md, &t, &mut preloaded), a);
}

#[test]
fn escaping_length_and_preset_line_heights() {
    let s = "a<b>&c";
    assert_eq!(mwmd::text::escape_html(s).len(), s.len() + 4 + 3 * 2);
    for m in mwmd::theme::available_themes() {
        let t = themed(&m.id, &ThemeParams::default());
        assert_eq!(t.p.contains("text-indent:2em"), m.id == "paper" || m.id == "book", "{}", m.id);
        let striped = t.td != t.td_alt;
        assert_eq!(striped, mwmd::theme::ThemeSpec::from_preset(&m.id).table == "striped", "{}", m.id);
    }
}
