use mwmd::highlight::{highlight_code, split_inclusive_lines};
use mwmd::render::{heading_style, placeholder_html, render_markdown};
use mwmd::text::{decimal_string, escape_attr, escape_html, first_word_of, trim};
use mwmd::theme::{
    align_css, available_themes, font_stack, hex_splits_char, is_dark_hex, themed, themed_spec, Theme,
    ThemeParams, ThemeSpec,
};

fn luminance_is_dark(r: u32, g: u32, b: u32) -> bool {
    let lum = (0.299 * r as f64 + 0.587 * g as f64 + 0.114 * b as f64) / 255.0;
    lum < 0.5
}

#[test]
fn escaping_replaces_markup_characters() {
    assert_eq!(escape_html("a<b>&\"c\""), "a&lt;b&gt;&amp;\"c\"");
    assert_eq!(escape_attr("x\"<y>&"), "x&quot;&lt;y&gt;&amp;");
    assert_eq!(escape_html(""), "");
}

#[test]
fn decimal_numerals_match_display() {
    for n in [0u64, 7, 10, 99, 100, 12345, u64::MAX] {
        assert_eq!(decimal_string(n), format!("{}", n));
    }
}

#[test]
fn trim_and_first_word_follow_std() {
    for s in ["  hello world  ", "\u{3000}全角\u{3000}", "\t\n", "", "one", " \u{a0}x y\u{2028}"] {
        assert_eq!(trim(s), s.trim());
        assert_eq!(first_word_of(s), s.split_whitespace().next().unwrap_or(""));
    }
}

#[test]
fn dark_hex_agrees_with_double_precision_luminance() {
    let mut r = 0u32;
    while r < 256 {
        let mut g = 0u32;
        while g < 256 {
            let mut b = 0u32;
            while b < 256 {
                let hex = format!("#{:02x}{:02x}{:02x}", r, g, b);
                assert_eq!(is_dark_hex(&hex), luminance_is_dark(r, g, b), "{}", hex);
                b += 3;
            }
            g += 3;
        }
        r += 3;
    }
    let halves = [
        (0, 204, 68), (12, 174, 191), (120, 132, 124), (255, 51, 187), (240, 60, 180),
        (194, 118, 2), (147, 93, 254),
    ];
    for (r, g, b) in halves {
        let hex = format!("{:02X}{:02X}{:02X}", r, g, b);
        assert_eq!(is_dark_hex(&hex), luminance_is_dark(r, g, b), "{}", hex);
    }
}

#[test]
fn dark_hex_edge_cases() {
    assert!(is_dark_hex("#fff"));
    assert!(is_dark_hex(""));
    assert!(!is_dark_hex("##ffffff"));
    assert!(is_dark_hex("#zzzzzz"));
    assert_eq!(is_dark_hex("+f+f+f"), luminance_is_dark(15, 15, 15));
    assert!(hex_splits_char("#aé123"));
    assert!(hex_splits_char("12aé3"));
    assert!(!hex_splits_char("#é1234"));
    assert!(!hex_splits_char("#ffffff"));
}

#[test]
fn tokens_and_parameters_fall_back() {
    assert_eq!(align_css("center"), "center");
    assert_eq!(align_css("middle"), "left");
    assert!(font_stack("serif").contains("Georgia"));
    assert_eq!(font_stack("nope"), font_stack("sans"));
    let p = ThemeParams::default();
    assert_eq!(p.font_size, 16);
    assert_eq!(p.font_family, "sans");
    assert_eq!(p.align, "left");
}

#[test]
fn unknown_preset_renders_as_default() {
    let p = ThemeParams::default();
    let a = themed("no-such-theme", &p);
    let b = themed("default", &p);
    assert_eq!(a.h1, b.h1);
    assert_eq!(a.h2, b.h2);
    assert_eq!(a.p, b.p);
    assert_eq!(a.code_dark, b.code_dark);
}

fn heading_size(style: &str) -> u32 {
    assert!(style.starts_with("font-size:"));
    style[10..12].parse().unwrap()
}

#[test]
fn heading_sizes_step_down_in_every_theme() {
    let p = ThemeParams::default();
    for m in available_themes() {
        let t = themed(&m.id, &p);
        let sizes: Vec<u32> = [&t.h1, &t.h2, &t.h3, &t.h4, &t.h5, &t.h6].iter().map(|s| heading_size(s)).collect();
        for k in 1..sizes.len() {
            assert!(sizes[k] < sizes[k - 1], "{} {:?}", m.id, sizes);
        }
        for level in 1u8..=6 {
            assert!(heading_style(&t, level).starts_with("font-size:"));
        }
    }
}

#[test]
fn preset_copy_renders_as_preset_with_parameters() {
    let p = ThemeParams { font_family: "mono".into(), font_size: 15, align: "justify".into() };
    for m in available_themes() {
        let a = themed_spec(&ThemeSpec::from_preset(&m.id), &p);
        let b = themed(&m.id, &p);
        assert_eq!(a.h1, b.h1);
        assert_eq!(a.td, b.td);
        assert_eq!(a.blockquote, b.blockquote);
        assert_eq!(a.pre, b.pre);
        assert_eq!(a.code_dark, b.code_dark);
    }
}

#[test]
fn catalogue_lists_distinct_ids() {
    let list = available_themes();
    let mut ids: Vec<String> = list.iter().map(|m| m.id.clone()).collect();
    assert_eq!(ids[0], "default");
    ids.sort();
    ids.dedup();
    assert_eq!(ids.len(), 17);
    assert!(list.iter().all(|m| !m.name_zh.is_empty() && !m.name_en.is_empty() && !m.category.is_empty()));
}

#[test]
fn placeholder_carries_number_and_escaped_source() {
    let t = Theme::by_id("default");
    let html = placeholder_html(&t, 3, "a\"b<c>.png");
    assert!(html.contains("【此处插入图片 3】"));
    assert!(html.contains("a\"b&lt;c&gt;.png"));
}

#[test]
fn raw_html_and_inline_markup_are_escaped_and_styled() {
    let t = themed("default", &ThemeParams::default());
    let html = render_markdown("<script>x</script>\n\n*e* ~~d~~ `c` [l](http://a.b)\n", &t);
    assert!(!html.contains("<script>"));
    assert!(html.contains("&lt;script&gt;"));
    assert!(html.contains("<em style="));
    assert!(html.contains("<code style="));
    assert!(html.contains("<a "));
}

#[test]
fn highlighted_code_keeps_text_and_lines() {
    let html = highlight_code("let a = 1;\nlet b = \"<x>\";\n", "rust", true);
    assert!(html.contains("<span style="));
    assert!(html.contains("&lt;x&gt;"));
    let plain = highlight_code("a < b\n", "no-such-language", false);
    assert_eq!(plain, "a &lt; b\n");
    assert_eq!(split_inclusive_lines("a\nb\r\nc"), vec!["a\n".to_string(), "b\r\n".to_string(), "c".to_string()]);
    assert!(split_inclusive_lines("").is_empty());
}
