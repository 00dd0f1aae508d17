use mwmd::clipboard::{build_cf_html, clipboard_payloads, to_wide_null, utf16le_null, wide, OPEN_ATTEMPTS};

fn header_number(stream: &[u8], key: &str) -> usize {
    let text = String::from_utf8_lossy(stream);
    let at = text.find(key).unwrap() + key.len();
    text[at..at + 10].parse().unwrap()
}

#[test]
fn wide_strings_are_utf16_with_nul() {
    for s in ["", "HTML Format", "中文", "emoji 😀"] {
        let mut expected: Vec<u16> = s.encode_utf16().collect();
        expected.push(0);
        assert_eq!(to_wide_null(s), expected);
        assert_eq!(wide(s), expected);
    }
}

#[test]
fn plain_text_payload_is_little_endian_utf16() {
    assert_eq!(utf16le_null("A中"), vec![0x41, 0x00, 0x2D, 0x4E, 0x00, 0x00]);
    assert_eq!(utf16le_null("😀"), vec![0x3D, 0xD8, 0x00, 0xDE, 0x00, 0x00]);
    assert_eq!(utf16le_null(""), vec![0, 0]);
}

#[test]
fn cf_html_offsets_locate_fragment() {
    for fragment in ["", "<p style=\"color:red\">hi</p>", "中文 <b>粗</b>"] {
        let b = build_cf_html(fragment);
        assert!(b.starts_with(b"Version:0.9\r\nStartHTML:"));
        let start_html = header_number(&b, "StartHTML:");
        let end_html = header_number(&b, "EndHTML:");
        let start_fragment = header_number(&b, "StartFragment:");
        let end_fragment = header_number(&b, "EndFragment:");
        assert_eq!(start_html, 105);
        assert_eq!(start_fragment, 139);
        assert_eq!(&b[start_fragment..end_fragment], fragment.as_bytes());
        assert!(b[start_html..end_html].starts_with(b"<html><body>\r\n<!--StartFragment-->"));
        assert!(b[start_html..end_html].ends_with(b"<!--EndFragment-->\r\n</body></html>"));
        assert_eq!(b.len(), end_html + 1);
        assert_eq!(b[end_html], 0);
    }
}

#[test]
fn copy_payloads_pair_html_and_text() {
    let (html, text) = clipboard_payloads("<b>x</b>", "wxmd");
    assert_eq!(html, build_cf_html("<b>x</b>"));
    assert_eq!(text, utf16le_null("wxmd"));
    assert_eq!(OPEN_ATTEMPTS, 15);
}
