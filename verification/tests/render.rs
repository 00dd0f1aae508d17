use mwmd::render::{render_markdown, standalone_document};
use mwmd::theme::{available_themes, themed, themed_spec, Theme, ThemeParams, ThemeSpec};

#[test]
fn placeholder_numbering_and_inline_styles() {
    let md = "# T\n\n![a](x.png)\n\n![b](y.png)\n\n| a | b |\n|---|---|\n| 1 | 2 |\n";
    let html = render_markdown(md, &Theme::by_id("default"));
    assert!(html.contains("【此处插入图片 1】"));
    assert!(html.contains("【此处插入图片 2】"));
    assert!(html.contains("style=\""));
    assert!(html.contains("<table"));
    assert!(html.contains("border:1px solid #dddddd"));
    assert!(!html.contains("<img"), "不应输出真实 img 标签");
}

#[test]
fn placeholder_is_always_chinese() {
    let html = render_markdown("![a](x.png)\n", &Theme::by_id("default"));
    assert!(html.contains("【此处插入图片 1】"));
    assert!(!html.contains("Insert image"));
}

#[test]
fn params_inject_font_size_and_align() {
    let p = ThemeParams { font_family: "serif".into(), font_size: 18, align: "center".into() };
    let t = themed("default", &p);
    let html = render_markdown("hello\n", &t);
    assert!(html.contains("font-size:18px"));
    assert!(html.contains("text-align:center"));
    assert!(html.contains("Georgia"));
}

#[test]
fn six_heading_levels_are_distinct() {
    let t = themed("default", &ThemeParams::default());
    let md = "# 1\n\n## 2\n\n### 3\n\n#### 4\n\n##### 5\n\n###### 6\n";
    let html = render_markdown(md, &t);
    for tag in ["h1", "h2", "h3", "h4", "h5", "h6"] {
        assert!(html.contains(&format!("<{} ", tag)), "缺少 {tag}");
    }
    let levels = [&t.h1, &t.h2, &t.h3, &t.h4, &t.h5, &t.h6];
    for i in 0..levels.len() {
        for j in (i + 1)..levels.len() {
            assert_ne!(levels[i], levels[j], "h{} 与 h{} 样式重复", i + 1, j + 1);
        }
    }
}

#[test]
fn themes_have_varied_heading_layouts() {
    let p = ThemeParams::default();
    let h2s: Vec<String> = available_themes().iter().map(|m| themed(&m.id, &p).h2).collect();
    let mut uniq = h2s.clone();
    uniq.sort();
    uniq.dedup();
    assert_eq!(uniq.len(), h2s.len(), "存在重复的 H2 版式");
    let joined = h2s.join("\n");
    assert!(joined.contains("border-left"), "缺少竖条版式");
    assert!(joined.contains("border-bottom"), "缺少下划线/双线版式");
    assert!(joined.contains("color:#ffffff"), "缺少色块填充版式");
    assert!(joined.contains("border-top"), "缺少双线版式");
}

#[test]
fn three_line_table_has_no_vertical_rules() {
    let t = themed("academic", &ThemeParams::default());
    let md = "| a | b |\n|---|---|\n| 1 | 2 |\n";
    let html = render_markdown(md, &t);
    assert!(t.td.starts_with("border:none;"), "三线表单元格应无竖线，实为 {}", t.td);
    assert!(t.table.contains("border-top:2px solid"), "三线表应有顶线");
    assert!(html.contains("<td style=\"border:none;"));
}

#[test]
fn striped_table_alternates_rows() {
    let t = themed("tech", &ThemeParams::default());
    let md = "| a | b |\n|---|---|\n| 1 | 2 |\n| 3 | 4 |\n";
    let html = render_markdown(md, &t);
    assert!(t.td.contains("background:#ffffff"), "奇数行应白底");
    assert!(t.td_alt.contains("background:#eef3fe"), "偶数行应着色");
    assert!(html.contains("background:#ffffff"), "应出现白底单元格");
    assert!(html.contains("background:#eef3fe"), "应出现斑马底单元格");
}

#[test]
fn paper_theme_indents_body() {
    let t = themed("paper", &ThemeParams::default());
    assert!(t.p.contains("text-indent:2em"), "论文主题正文应首行缩进");
    let html = render_markdown("段落\n", &t);
    assert!(html.contains("text-indent:2em"));
}

#[test]
fn fenced_code_is_syntax_highlighted() {
    let t = themed("default", &ThemeParams::default());
    let md = "```rust\nfn main() { let x = 1; }\n```\n";
    let html = render_markdown(md, &t);
    assert!(html.contains("<pre style="), "应保留 pre 包裹");
    assert!(html.contains("<code style="), "应保留 code 包裹");
    assert!(html.contains("</code></pre>"), "应正确闭合");
    assert!(html.contains("<span style="), "应输出内联样式 span：{}", html);
    assert!(html.contains("color:#"), "span 应含内联颜色（微信剥离 class，必须内联）：{}", html);
}

#[test]
fn code_without_language_stays_plain_and_escaped() {
    let t = themed("default", &ThemeParams::default());
    let md = "```\nplain <text> & more\n```\n";
    let html = render_markdown(md, &t);
    assert!(html.contains("plain &lt;text&gt; &amp; more"), "无语言应转义为纯文本：{}", html);
    assert!(!html.contains("<span style="), "无语言不应高亮：{}", html);
}

#[test]
fn code_palette_matches_block_background() {
    assert!(!themed("minimal", &ThemeParams::default()).code_dark, "minimal 代码底应判为浅色");
    assert!(themed("default", &ThemeParams::default()).code_dark, "default 代码底应判为深色");
}

#[test]
fn all_themes_render() {
    let list = available_themes();
    assert_eq!(list.len(), 17, "应有 17 套主题");
    for m in list {
        let html = render_markdown("# H\n\n**b** text\n\n> q\n\n---\n", &themed(&m.id, &ThemeParams::default()));
        assert!(html.contains("<h1"), "主题 {} 应渲染 h1", m.id);
        assert!(html.contains("<blockquote"), "主题 {} 应渲染引用", m.id);
    }
}

#[test]
fn standalone_document_wraps_content_for_print() {
    let body = render_markdown("# H <x>\n", &themed("default", &ThemeParams::default()));
    let doc = standalone_document(&body, "My Title & More");
    assert!(doc.starts_with("<!DOCTYPE html>"), "应为完整文档");
    assert!(doc.contains("<title>My Title &amp; More</title>"), "标题应转义");
    assert!(doc.contains("@page"), "应含打印分页 CSS");
    assert!(doc.contains("print-color-adjust: exact"), "应强制打印保留底色");
    assert!(doc.contains(&body), "应原样内嵌渲染结果");
    assert!(doc.trim_end().ends_with("</html>"));
}

#[test]
fn custom_spec_from_preset_matches_preset_theme() {
    let p = ThemeParams::default();
    for m in available_themes() {
        let spec = ThemeSpec::from_preset(&m.id);
        assert_eq!(
            themed_spec(&spec, &p).h2,
            themed(&m.id, &p).h2,
            "from_preset({}) 应等价于预设主题",
            m.id
        );
    }
}

#[test]
fn custom_spec_edits_propagate_to_output() {
    let p = ThemeParams::default();
    let mut spec = ThemeSpec::from_preset("wechat");
    spec.accent = "#123456".into();
    let t = themed_spec(&spec, &p);
    assert!(t.strong.contains("#123456"), "自定义强调色应生效：{}", t.strong);
    let html = render_markdown("**b**\n", &t);
    assert!(html.contains("#123456"), "渲染输出应含自定义强调色：{}", html);
}

#[test]
fn custom_spec_enum_tokens_select_layouts_and_unknown_falls_back() {
    let p = ThemeParams::default();
    let mut spec = ThemeSpec::default();
    spec.head = "academic".into();
    spec.table = "three_line".into();
    let t = themed_spec(&spec, &p);
    assert!(t.h1.contains("text-align:center"), "学术版式 H1 应居中：{}", t.h1);
    assert!(t.td.starts_with("border:none;"), "三线表单元格应无竖线：{}", t.td);
    spec.head = "not-a-style".into();
    let _ = themed_spec(&spec, &p);
}
