use mwmd::workspace::{arrange_entries, is_hidden_path, is_md, root_node, search_content, Document, Entry};

fn doc(name: &str, path: &str, content: &str) -> Document {
    Document { name: name.to_string(), path: path.to_string(), content: content.to_string() }
}

fn entry(name: &str, is_dir: bool, attributes: Option<u32>) -> Entry {
    Entry { name: name.to_string(), path: format!("/w/{}", name), is_dir, attributes }
}

fn markdown_only(docs: Vec<Document>) -> Vec<Document> {
    docs.into_iter().filter(|d| is_md(&d.name)).collect()
}

#[test]
fn search_matches_lines_case_insensitively_with_line_numbers() {
    let docs = markdown_only(vec![
        doc("a.md", "/w/a.md", "Hello World\nsecond LINE\nno match here\nworld again"),
        doc("ignore.txt", "/w/ignore.txt", "World in txt"),
        doc("b.md", "/w/sub/b.md", "nothing\nWorld peace"),
    ]);
    let hits = search_content(&docs, "world", 500);
    assert_eq!(hits.len(), 3);
    assert!(hits.iter().all(|h| h.path.ends_with(".md")));
    let a: Vec<_> = hits.iter().filter(|h| h.name == "a.md").collect();
    assert_eq!(a.len(), 2);
    assert_eq!(a[0].line, 1);
    assert_eq!(a[1].line, 4);
    let b = hits.iter().find(|h| h.name == "b.md").unwrap();
    assert_eq!(b.line, 2);
    assert_eq!(b.snippet, "World peace");
    assert_eq!(b.path, "/w/sub/b.md");
}

#[test]
fn search_empty_query_and_limit_are_respected() {
    let docs = vec![doc("a.md", "/w/a.md", "x\nx\nx\nx\nx")];
    assert!(search_content(&docs, "   ", 500).is_empty());
    assert_eq!(search_content(&docs, "x", 2).len(), 2);
    assert!(search_content(&docs, "x", 0).is_empty());
    let again = vec![doc("a.md", "/w/a.md", "x\nx"), doc("b.md", "/w/b.md", "x")];
    let hits = search_content(&again, "x", 3);
    assert_eq!(hits.len(), 3);
    assert_eq!(hits[2].name, "b.md");
}

#[test]
fn content_search_lines_snippets_and_unicode_case() {
    let long = format!("  {}needle{}  ", "a".repeat(10), "b".repeat(200));
    let text = format!("first\r\n  Ärger IM Büro  \r\n\n{}\nlast\r", long);
    let docs = vec![doc("c.md", "/w/c.md", &text)];
    let hits = search_content(&docs, "  ärger im ", 10);
    assert_eq!(hits.len(), 1);
    assert_eq!(hits[0].line, 2);
    assert_eq!(hits[0].snippet, "Ärger IM Büro");
    let hits = search_content(&docs, "NEEDLE", 10);
    assert_eq!(hits.len(), 1);
    assert_eq!(hits[0].line, 4);
    assert_eq!(hits[0].snippet.chars().count(), 160);
    assert!(hits[0].snippet.starts_with("aaaaaaaaaaneedle"));
    let hits = search_content(&docs, "last\r", 10);
    assert_eq!(hits.len(), 1);
    assert_eq!(hits[0].line, 5);
    assert_eq!(hits[0].snippet, "last");
    for (i, line) in text.lines().enumerate() {
        if !line.trim().is_empty() {
            let found = search_content(&docs, line.trim(), 100);
            assert!(found.iter().any(|h| h.line == i + 1));
        }
    }
}

#[test]
fn markdown_names_by_extension() {
    for yes in ["a.md", "A.MD", "notes.markdown", "x.Markdown", "..md", "a.b.md"] {
        assert!(is_md(yes), "{}", yes);
    }
    for no in [".md", "md", "a.txt", "a.", "..", "a.mdx", "a.md.bak", ""] {
        assert!(!is_md(no), "{}", no);
    }
}

#[test]
fn hidden_entries_by_name_or_attributes() {
    assert!(is_hidden_path(".git", None));
    assert!(!is_hidden_path("docs", None));
    assert!(is_hidden_path("docs", Some(0x2)));
    assert!(is_hidden_path("docs", Some(0x4)));
    assert!(!is_hidden_path("docs", Some(0x1 | 0x10 | 0x20)));
}

#[test]
fn tree_lists_directories_first_then_documents() {
    let entries = vec![
        entry("zeta.md", false, None),
        entry("notes", true, None),
        entry("image.png", false, None),
        entry(".hidden", true, None),
        entry("Alpha.md", false, None),
        entry("archive", true, Some(0x2)),
        entry("beta.markdown", false, None),
        entry("assets", true, None),
    ];
    let names: Vec<String> = arrange_entries(entries).into_iter().map(|e| e.name).collect();
    assert_eq!(names, vec!["assets", "notes", "Alpha.md", "beta.markdown", "zeta.md"]);
}

#[test]
fn workspace_root_node_names() {
    let n = root_node("/home/me/notes", Some("notes".to_string()), Vec::new());
    assert_eq!(n.name, "notes");
    assert_eq!(n.path, "/home/me/notes");
    assert!(n.is_dir);
    assert!(n.children.unwrap().is_empty());
    let r = root_node("C:\\", None, Vec::new());
    assert_eq!(r.name, "C:\\");
}
