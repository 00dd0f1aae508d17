//! The Windows clipboard payloads: the "HTML Format" (CF_HTML) byte stream that
//! WeChat's editor needs to keep inline styles on paste, and the NUL-terminated
//! UTF-16 text of the plain-text fallback. Writing them to the clipboard is the
//! application's part.
use vstd::prelude::*;
use vstd::utf8::encode_utf8;
use vstd::string::StringSliceAdditionalSpecFns;
use crate::text::{decimal, decimal_string, push_char};

verus! {

/// The UTF-16 code units of one character: one unit below U+10000, else a
/// surrogate pair.
pub open spec fn utf16_units(c: char) -> Seq<u16> {
    let v = c as u32;
    if v < 0x10000 {
        seq![v as u16]
    } else {
        seq![(0xD800 + (v - 0x10000) / 0x400) as u16, (0xDC00 + (v - 0x10000) % 0x400) as u16]
    }
}

/// The UTF-16 encoding of a character sequence.
pub open spec fn utf16(s: Seq<char>) -> Seq<u16>
    decreases s.len(),
{
    if s.len() == 0 {
        Seq::empty()
    } else {
        utf16(s.drop_last()) + utf16_units(s.last())
    }
}

/// The little-endian bytes of UTF-16 code units.
pub open spec fn le_bytes(units: Seq<u16>) -> Seq<u8>
    decreases units.len(),
{
    if units.len() == 0 {
        Seq::empty()
    } else {
        le_bytes(units.drop_last()) + seq![(units.last() % 256) as u8, (units.last() / 256) as u8]
    }
}

/// `s` as UTF-16 code units followed by a NUL unit (a Windows wide string).
pub fn to_wide_null(s: &str) -> (r: Vec<u16>)
    ensures
        r@ == utf16(s@).push(0u16),
{
    let mut v: Vec<u16> = Vec::new();
    let ghost src = s@;
    for c in it: s.chars()
        invariant
            it.seq() == src,
            v@ == utf16(src.take(it.index() as int)),
    {
        let ghost i = it.index() as int;
        assert(src.take(i + 1).drop_last() == src.take(i));
        let u = c as u32;
        if u < 0x10000 {
            v.push(u as u16);
        } else {
            let w = u - 0x10000;
            v.push((0xD800 + w / 0x400) as u16);
            v.push((0xDC00 + w % 0x400) as u16);
        }
    }
    assert(src.take(src.len() as int) == src);
    v.push(0);
    v
}

/// `s` as NUL-terminated UTF-16, little-endian bytes (the `CF_UNICODETEXT` payload).
pub fn utf16le_null(s: &str) -> (r: Vec<u8>)
    ensures
        r@ == le_bytes(utf16(s@).push(0u16)),
{
    let units = to_wide_null(s);
    let mut b: Vec<u8> = Vec::new();
    let mut i: usize = 0;
    assert(units@.take(0) == Seq::<u16>::empty());
    while i < units.len()
        invariant
            i <= units@.len(),
            b@ == le_bytes(units@.take(i as int)),
        decreases units.len() - i,
    {
        let w = units[i];
        assert(units@.take(i + 1).drop_last() == units@.take(i as int));
        b.push((w % 256) as u8);
        b.push((w / 256) as u8);
        i = i + 1;
    }
    assert(units@.take(units@.len() as int) == units@);
    b
}

/// `n` in decimal, left-padded with zeros to at least ten digits (`{:010}`).
pub open spec fn pad10(n: nat) -> Seq<char> {
    let d = decimal(n);
    if d.len() < 10 {
        Seq::new((10 - d.len()) as nat, |i: int| '0') + d
    } else {
        d
    }
}

fn pad10_string(n: usize) -> (r: String)
    ensures
        r@ == pad10(n as nat),
{
    let d = decimal_string(n as u64);
    let len = d.as_str().unicode_len();
    if len < 10 {
        let mut s = String::new();
        let mut k: usize = 0;
        while k < 10 - len
            invariant
                k <= 10 - len,
                s@ == Seq::new(k as nat, |i: int| '0'),
            decreases 10 - len - k,
        {
            push_char(&mut s, '0');
            k = k + 1;
            assert(s@ =~= Seq::new(k as nat, |i: int| '0'));
        }
        s.append(d.as_str());
        s
    } else {
        d
    }
}

/// The CF_HTML header template; its numbers are rewritten, ten digits each.
pub open spec fn cf_template() -> Seq<char> {
    "Version:0.9\r\nStartHTML:0000000000\r\nEndHTML:0000000000\r\nStartFragment:0000000000\r\nEndFragment:0000000000\r\n"@
}

/// What precedes the fragment in the HTML part.
pub open spec fn cf_pre() -> Seq<char> {
    "<html><body>\r\n<!--StartFragment-->"@
}

/// What follows the fragment in the HTML part.
pub open spec fn cf_post() -> Seq<char> {
    "<!--EndFragment-->\r\n</body></html>"@
}

/// The header with the offsets of the HTML part and of the fragment.
pub open spec fn cf_header(start_html: nat, end_html: nat, start_fragment: nat, end_fragment: nat) -> Seq<char> {
    "Version:0.9\r\nStartHTML:"@ + pad10(start_html) + "\r\nEndHTML:"@ + pad10(end_html)
        + "\r\nStartFragment:"@ + pad10(start_fragment) + "\r\nEndFragment:"@ + pad10(
        end_fragment,
    ) + "\r\n"@
}

/// The CF_HTML byte stream of a fragment whose UTF-8 bytes are `frag`: the
/// header with byte offsets computed from the template's length, the HTML part
/// with the fragment between its markers, and a final NUL.
pub open spec fn cf_html_of(frag: Seq<u8>) -> Seq<u8> {
    let header_len = encode_utf8(cf_template()).len();
    let start_html = header_len;
    let start_fragment = header_len + encode_utf8(cf_pre()).len();
    let end_fragment = start_fragment + frag.len();
    let end_html = end_fragment + encode_utf8(cf_post()).len();
    encode_utf8(cf_header(start_html, end_html, start_fragment, end_fragment)) + encode_utf8(
        cf_pre(),
    ) + frag + encode_utf8(cf_post()) + seq![0u8]
}

fn append_bytes(out: &mut Vec<u8>, b: &[u8])
    ensures
        final(out)@ == old(out)@ + b@,
{
    let mut i: usize = 0;
    while i < b.len()
        invariant
            i <= b@.len(),
            out@ == old(out)@ + b@.take(i as int),
        decreases b.len() - i,
    {
        out.push(b[i]);
        i = i + 1;
        assert(out@ == old(out)@ + b@.take(i as int));
    }
    assert(b@.take(b@.len() as int) == b@);
}

/// Builds the Windows "HTML Format" (CF_HTML) bytes for an HTML fragment.
pub fn build_cf_html(fragment: &str) -> (r: Vec<u8>)
    requires
        fragment.spec_bytes().len() + 200 <= usize::MAX,
    ensures
        r@ == cf_html_of(fragment.spec_bytes()),
{
    let template = "Version:0.9\r\nStartHTML:0000000000\r\nEndHTML:0000000000\r\nStartFragment:0000000000\r\nEndFragment:0000000000\r\n";
    let pre = "<html><body>\r\n<!--StartFragment-->";
    let post = "<!--EndFragment-->\r\n</body></html>";
    proof {
        reveal_strlit("Version:0.9\r\nStartHTML:0000000000\r\nEndHTML:0000000000\r\nStartFragment:0000000000\r\nEndFragment:0000000000\r\n");
        reveal_strlit("<html><body>\r\n<!--StartFragment-->");
        reveal_strlit("<!--EndFragment-->\r\n</body></html>");
        vstd::utf8::is_ascii_chars_encode_utf8(template@);
        vstd::utf8::is_ascii_chars_encode_utf8(pre@);
        vstd::utf8::is_ascii_chars_encode_utf8(post@);
    }
    let header_len: usize = template.len();
    let start_html: usize = header_len;
    let start_fragment: usize = header_len + pre.len();
    let end_fragment: usize = start_fragment + fragment.len();
    let end_html: usize = end_fragment + post.len();
    let mut header = "Version:0.9\r\nStartHTML:".to_owned();
    let a = pad10_string(start_html);
    header.append(a.as_str());
    header.append("\r\nEndHTML:");
    let b = pad10_string(end_html);
    header.append(b.as_str());
    header.append("\r\nStartFragment:");
    let c = pad10_string(start_fragment);
    header.append(c.as_str());
    header.append("\r\nEndFragment:");
    let d = pad10_string(end_fragment);
    header.append(d.as_str());
    header.append("\r\n");
    assert(header@ == cf_header(start_html as nat, end_html as nat, start_fragment as nat, end_fragment as nat));
    let mut out: Vec<u8> = Vec::new();
    append_bytes(&mut out, header.as_str().as_bytes());
    append_bytes(&mut out, pre.as_bytes());
    append_bytes(&mut out, fragment.as_bytes());
    append_bytes(&mut out, post.as_bytes());
    out.push(0);
    proof {
        let hl = encode_utf8(cf_template()).len();
        let sf = hl + encode_utf8(cf_pre()).len();
        let ef = sf + fragment.spec_bytes().len();
        let eh = ef + encode_utf8(cf_post()).len();
        assert(header@ == cf_header(hl, eh, sf, ef));
    }
    assert(out@ == cf_html_of(fragment.spec_bytes()));
    out
}

/// `s` as a NUL-terminated wide string for the WebView2 calls of the PDF export.
pub fn wide(s: &str) -> (r: Vec<u16>)
    ensures
        r@ == utf16(s@).push(0u16),
{
    to_wide_null(s)
}

/// How many times opening the clipboard is tried, 20 ms apart, before copying
/// fails: another process may hold it for a moment.
pub const OPEN_ATTEMPTS: u32 = 15;

/// What to do after an attempt to open the clipboard.
#[derive(Clone, Copy, PartialEq, Eq, Debug, Structural)]
pub enum OpenAction {
    /// The clipboard is open: write the payloads.
    Write,
    /// Wait 20 ms, then try again.
    PauseAndRetry,
    /// Wait 20 ms, then give up: copying fails.
    PauseAndFail,
}

/// The action after `attempts` attempts to open the clipboard, the last of
/// which opened it or not: a failed attempt is followed by a pause, and by
/// another attempt while fewer than `OPEN_ATTEMPTS` have been made.
pub open spec fn open_action(attempts: nat, opened: bool) -> OpenAction {
    if opened {
        OpenAction::Write
    } else if attempts < OPEN_ATTEMPTS {
        OpenAction::PauseAndRetry
    } else {
        OpenAction::PauseAndFail
    }
}

/// Decides what follows an attempt to open the clipboard.
pub fn open_step(attempts: u32, opened: bool) -> (a: OpenAction)
    ensures
        a == open_action(attempts as nat, opened),
{
    if opened {
        OpenAction::Write
    } else if attempts < OPEN_ATTEMPTS {
        OpenAction::PauseAndRetry
    } else {
        OpenAction::PauseAndFail
    }
}

/// What copying an article puts on the clipboard: the CF_HTML bytes of the
/// inline-styled fragment, and the plain-text fallback as NUL-terminated
/// UTF-16LE bytes.
pub fn clipboard_payloads(fragment: &str, plain: &str) -> (r: (Vec<u8>, Vec<u8>))
    requires
        fragment.spec_bytes().len() + 200 <= usize::MAX,
    ensures
        r.0@ == cf_html_of(fragment.spec_bytes()),
        r.1@ == le_bytes(utf16(plain@).push(0u16)),
{
    (build_cf_html(fragment), utf16le_null(plain))
}

} // verus!
