//! Workspace documents: the entries the file tree shows, and the line-by-line
//! full-text search over the Markdown documents of the workspace roots.
//! Reading directories and files is the application's part; it hands the
//! library names, flags and contents.
use vstd::prelude::*;
use crate::text::{chars_of, string_of, trim, trimmed};

verus! {

/// A node of the workspace tree: a directory with its children, or a document.
pub struct Node {
    pub name: String,
    pub path: String,
    pub is_dir: bool,
    pub children: Option<Vec<Node>>,
}

/// One hit of the full-text search: the file, the 1-based line number, and the
/// trimmed line cut to 160 characters.
pub struct SearchHit {
    pub name: String,
    pub path: String,
    pub line: usize,
    pub snippet: String,
}

/// A search hit as plain values: file name, path, line number, snippet.
pub type HitModel = (Seq<char>, Seq<char>, nat, Seq<char>);

impl View for SearchHit {
    type V = HitModel;

    open spec fn view(&self) -> HitModel {
        (self.name@, self.path@, self.line as nat, self.snippet@)
    }
}

/// A document handed to the search: its file name, its path and its text.
pub struct Document {
    pub name: String,
    pub path: String,
    pub content: String,
}

/// A document as plain values: file name, path, text.
pub type DocModel = (Seq<char>, Seq<char>, Seq<char>);

impl View for Document {
    type V = DocModel;

    open spec fn view(&self) -> DocModel {
        (self.name@, self.path@, self.content@)
    }
}

/// The views of a sequence of hits.
pub open spec fn hits_view(v: Seq<SearchHit>) -> Seq<HitModel> {
    v.map_values(|h: SearchHit| h@)
}

/// The views of a sequence of documents.
pub open spec fn docs_view(v: Seq<Document>) -> Seq<DocModel> {
    v.map_values(|d: Document| d@)
}

/// What `str::to_lowercase` returns for a text: the Unicode lower-case mapping,
/// a function of the text alone.
pub uninterp spec fn lowercase(s: Seq<char>) -> Seq<char>;

/// Lower-cases a text (`str::to_lowercase`); claims that the result is
/// `lowercase` of the text, and, since every character lower-cases to one or
/// more characters, that it is empty exactly when the text is.
#[verifier::external_body]
fn to_lower(s: &str) -> (r: String)
    ensures
        r@ == lowercase(s@),
        r@.len() == 0 <==> s@.len() == 0,
{
    s.to_lowercase()
}

/// A line without one trailing carriage return.
pub open spec fn strip_cr(line: Seq<char>) -> Seq<char> {
    if line.len() > 0 && line.last() == '\r' {
        line.drop_last()
    } else {
        line
    }
}

/// The lines of the rest `s` of a text, `cur` being the part of the current line
/// already read: a line ends at `\n`, which is dropped with one `\r` before it;
/// a last line without `\n` keeps what it has, and an empty one does not count.
pub open spec fn lines_from(s: Seq<char>, cur: Seq<char>) -> Seq<Seq<char>>
    decreases s.len(),
{
    if s.len() == 0 {
        if cur.len() == 0 {
            Seq::empty()
        } else {
            seq![cur]
        }
    } else if s[0] == '\n' {
        seq![strip_cr(cur)] + lines_from(s.drop_first(), Seq::empty())
    } else {
        lines_from(s.drop_first(), cur.push(s[0]))
    }
}

/// The lines of a text, as `str::lines` gives them.
pub open spec fn text_lines(s: Seq<char>) -> Seq<Seq<char>> {
    lines_from(s, Seq::empty())
}

/// Whether `needle` occurs in `hay` as a contiguous run.
pub open spec fn occurs_in(needle: Seq<char>, hay: Seq<char>) -> bool {
    exists|i: int| 0 <= i <= hay.len() - needle.len() && #[trigger] hay.subrange(i, i + needle.len()) == needle
}

/// The first `n` elements of `s`, or all of it when it is shorter.
pub open spec fn at_most<T>(s: Seq<T>, n: nat) -> Seq<T> {
    if s.len() <= n {
        s
    } else {
        s.take(n as int)
    }
}

/// The snippet shown for a hit: the trimmed line, at most 160 characters.
pub open spec fn snippet_of(line: Seq<char>) -> Seq<char> {
    at_most(trimmed(line), 160)
}

/// The hits of a document's lines `lines`, the first of which is line `n + 1`,
/// for the lower-cased query `q`.
pub open spec fn line_hits(name: Seq<char>, path: Seq<char>, lines: Seq<Seq<char>>, q: Seq<char>, n: nat) -> Seq<HitModel>
    decreases lines.len(),
{
    if lines.len() == 0 {
        Seq::empty()
    } else {
        (if occurs_in(q, lowercase(lines[0])) {
            seq![(name, path, n + 1, snippet_of(lines[0]))]
        } else {
            Seq::empty()
        }) + line_hits(name, path, lines.drop_first(), q, n + 1)
    }
}

/// The hits of one document for the lower-cased query `q`, in line order.
pub open spec fn doc_hits(d: DocModel, q: Seq<char>) -> Seq<HitModel> {
    line_hits(d.0, d.1, text_lines(d.2), q, 0)
}

/// The hits of the documents in their order, each document's in line order.
pub open spec fn all_hits(docs: Seq<DocModel>, q: Seq<char>) -> Seq<HitModel>
    decreases docs.len(),
{
    if docs.len() == 0 {
        Seq::empty()
    } else {
        all_hits(docs.drop_last(), q) + doc_hits(docs.last(), q)
    }
}

/// The query as it is matched: trimmed, then lower-cased.
pub open spec fn search_key(query: Seq<char>) -> Seq<char> {
    lowercase(trimmed(query))
}

/// The result of a search: nothing for a query of white space only or a zero
/// limit, else the first `limit` hits.
pub open spec fn search_result(docs: Seq<DocModel>, query: Seq<char>, limit: nat) -> Seq<HitModel> {
    let q = search_key(query);
    if trimmed(query).len() == 0 || limit == 0 {
        Seq::empty()
    } else {
        at_most(all_hits(docs, q), limit)
    }
}

proof fn lemma_hits_prepend(name: Seq<char>, path: Seq<char>, l: Seq<char>, rest: Seq<Seq<char>>, q: Seq<char>, n: nat)
    ensures
        line_hits(name, path, seq![l] + rest, q, n) == (if occurs_in(q, lowercase(l)) {
            seq![(name, path, n + 1, snippet_of(l))]
        } else {
            Seq::<HitModel>::empty()
        }) + line_hits(name, path, rest, q, n + 1),
{
    let s = seq![l] + rest;
    assert(s[0] == l);
    assert(s.drop_first() == rest);
}

proof fn lemma_all_hits_prefix(docs: Seq<DocModel>, q: Seq<char>, d: int)
    requires
        0 <= d <= docs.len(),
    ensures
        all_hits(docs.take(d), q).len() <= all_hits(docs, q).len(),
        all_hits(docs, q).take(all_hits(docs.take(d), q).len() as int) == all_hits(docs.take(d), q),
    decreases docs.len(),
{
    if d == docs.len() {
        assert(docs.take(d) == docs);
        assert(all_hits(docs, q).take(all_hits(docs, q).len() as int) == all_hits(docs, q));
    } else {
        let s = docs.drop_last();
        assert(s.take(d) == docs.take(d));
        lemma_all_hits_prefix(s, q, d);
        let a = all_hits(s.take(d), q);
        let b = all_hits(s, q);
        assert((b + doc_hits(docs.last(), q)).take(a.len() as int) == b.take(a.len() as int));
    }
}

/// Whether `needle` occurs in `hay`.
fn occurs(needle: &Vec<char>, hay: &Vec<char>) -> (r: bool)
    ensures
        r == occurs_in(needle@, hay@),
{
    if needle.len() > hay.len() {
        return false;
    }
    let mut i: usize = 0;
    let last = hay.len() - needle.len();
    while i <= last
        invariant
            last == hay.len() - needle.len(),
            needle.len() <= hay.len(),
            0 <= i <= last + 1,
            forall|k: int| 0 <= k < i ==> #[trigger] hay@.subrange(k, k + needle@.len()) != needle@,
        decreases last + 1 - i,
    {
        let mut j: usize = 0;
        while j < needle.len() && hay[i + j] == needle[j]
            invariant
                i <= last,
                last == hay.len() - needle.len(),
                j <= needle.len(),
                forall|k: int| 0 <= k < j ==> hay@[i + k] == needle@[k],
            decreases needle.len() - j,
        {
            j = j + 1;
        }
        if j == needle.len() {
            assert(hay@.subrange(i as int, i + needle@.len()) == needle@);
            return true;
        }
        assert(hay@.subrange(i as int, i + needle@.len())[j as int] != needle@[j as int]);
        i = i + 1;
    }
    proof {
        if needle@.len() <= hay@.len() {
            assert forall|k: int| 0 <= k <= hay@.len() - needle@.len() implies #[trigger] hay@.subrange(
                k,
                k + needle@.len(),
            ) != needle@ by {}
        }
    }
    false
}

/// The hit of line `v[from..to]`, numbered `n + 1`, if it holds the query.
fn line_hit(d: &Document, v: &Vec<char>, from: usize, to: usize, q: &Vec<char>, n: usize) -> (r: Option<SearchHit>)
    requires
        from <= to <= v.len(),
        n < usize::MAX,
    ensures
        (match r {
            Some(h) => occurs_in(q@, lowercase(v@.subrange(from as int, to as int))) && h@ == (
                d.name@,
                d.path@,
                (n + 1) as nat,
                snippet_of(v@.subrange(from as int, to as int)),
            ),
            None => !occurs_in(q@, lowercase(v@.subrange(from as int, to as int))),
        }),
{
    let line = string_of(v, from, to);
    let low = to_lower(line.as_str());
    let lowv = chars_of(low.as_str());
    if occurs(q, &lowv) {
        let t = trim(line.as_str());
        let tv = chars_of(t.as_str());
        let cut: usize = if tv.len() <= 160 { tv.len() } else { 160 };
        let snippet = string_of(&tv, 0, cut);
        assert(tv@.subrange(0, cut as int) == snippet_of(line@)) by {
            if tv@.len() <= 160 {
                assert(tv@.subrange(0, cut as int) == tv@);
            }
        }
        Some(SearchHit { name: d.name.clone(), path: d.path.clone(), line: n + 1, snippet })
    } else {
        None
    }
}

/// Appends the hits of one document, stopping once there are `limit` hits.
fn search_doc(d: &Document, q: &Vec<char>, limit: usize, hits: &mut Vec<SearchHit>)
    requires
        old(hits)@.len() < limit,
    ensures
        hits_view(final(hits)@) == at_most(hits_view(old(hits)@) + doc_hits(d@, q@), limit as nat),
{
    let v = chars_of(d.content.as_str());
    let ghost name = d.name@;
    let ghost path = d.path@;
    let ghost total = doc_hits(d@, q@);
    let ghost before = hits_view(hits@);
    let mut i: usize = 0;
    let mut start: usize = 0;
    let mut n: usize = 0;
    let ghost mut done: Seq<HitModel> = Seq::empty();
    assert(v@.skip(0) == v@);
    assert(v@.subrange(0, 0) == Seq::<char>::empty());
    assert(before + done == before);
    assert(done + total == total);
    while i < v.len()
        invariant
            v@ == d.content@,
            before == hits_view(old(hits)@),
            total == doc_hits(d@, q@),
            name == d.name@,
            path == d.path@,
            n <= start <= i <= v.len(),
            hits@.len() < limit,
            hits_view(hits@) == before + done,
            total == done + line_hits(
                name,
                path,
                lines_from(v@.skip(i as int), v@.subrange(start as int, i as int)),
                q@,
                n as nat,
            ),
        decreases v.len() - i,
    {
        let ghost rest = v@.skip(i as int);
        let ghost cur = v@.subrange(start as int, i as int);
        assert(rest[0] == v@[i as int]);
        assert(rest.drop_first() == v@.skip(i + 1));
        if v[i] == '\n' {
            let end: usize = if i > start && v[i - 1] == '\r' { i - 1 } else { i };
            assert(v@.subrange(start as int, end as int) == strip_cr(cur));
            proof {
                lemma_hits_prepend(name, path, strip_cr(cur), lines_from(v@.skip(i + 1), Seq::empty()), q@, n as nat);
            }
            let h = line_hit(d, &v, start, end, q, n);
            assert(v@.subrange(i + 1, i + 1) == Seq::<char>::empty());
            match h {
                Some(hit) => {
                    let ghost prev = hits@;
                    hits.push(hit);
                    proof {
                        assert(hits_view(hits@) == hits_view(prev).push(hit@));
                        done = done + seq![hit@];
                        assert(hits_view(hits@) == before + done);
                        assert(total == done + line_hits(name, path, lines_from(v@.skip(i + 1), v@.subrange(i + 1, i + 1)), q@, (n + 1) as nat));
                    }
                    if hits.len() >= limit {
                        proof {
                            let all = before + total;
                            assert(all.take(limit as int) == hits_view(hits@));
                        }
                        return;
                    }
                },
                None => {
                    proof {
                        assert(total == done + line_hits(name, path, lines_from(v@.skip(i + 1), v@.subrange(i + 1, i + 1)), q@, (n + 1) as nat));
                    }
                },
            }
            n = n + 1;
            start = i + 1;
        } else {
            assert(cur.push(v@[i as int]) == v@.subrange(start as int, i + 1));
        }
        i = i + 1;
    }
    assert(v@.skip(i as int) == Seq::<char>::empty());
    if start < v.len() {
        proof {
            let cur = v@.subrange(start as int, i as int);
            assert(lines_from(Seq::<char>::empty(), cur) == seq![cur] + Seq::<Seq<char>>::empty());
            lemma_hits_prepend(name, path, cur, Seq::empty(), q@, n as nat);
        }
        let h = line_hit(d, &v, start, v.len(), q, n);
        match h {
            Some(hit) => {
                let ghost prev = hits@;
                hits.push(hit);
                proof {
                    assert(hits_view(hits@) == hits_view(prev).push(hit@));
                    assert(hits_view(hits@) == before + (done + seq![hit@]));
                }
            },
            None => {},
        }
    }
    proof {
        assert(hits_view(hits@) == before + total);
    }
}

/// The index of the last `.` among the first `k` characters of `n`, or -1.
pub open spec fn last_dot_before(n: Seq<char>, k: int) -> int
    decreases k,
{
    if k <= 0 {
        -1
    } else if n[k - 1] == '.' {
        k - 1
    } else {
        last_dot_before(n, k - 1)
    }
}

/// The extension of a file name, as `Path::extension` finds it: what follows
/// the last `.`, unless that dot begins the name or the name is `..`.
pub open spec fn extension_of(name: Seq<char>) -> Option<Seq<char>> {
    let i = last_dot_before(name, name.len() as int);
    if name == seq!['.', '.'] || i <= 0 {
        None
    } else {
        Some(name.skip(i + 1))
    }
}

/// A character with ASCII upper-case letters mapped to lower case.
pub open spec fn ascii_lower(c: char) -> char {
    if 'A' <= c && c <= 'Z' {
        ((c as u8) + 32) as char
    } else {
        c
    }
}

/// Whether two texts are equal when ASCII letters are compared without case.
pub open spec fn same_ignoring_ascii_case(a: Seq<char>, b: Seq<char>) -> bool {
    a.len() == b.len() && forall|i: int| 0 <= i < a.len() ==> ascii_lower(#[trigger] a[i]) == ascii_lower(b[i])
}

/// Whether a file name names a Markdown document: its extension is `md` or
/// `markdown`, in any ASCII case.
pub open spec fn md_name(name: Seq<char>) -> bool {
    match extension_of(name) {
        Some(e) => same_ignoring_ascii_case(e, seq!['m', 'd']) || same_ignoring_ascii_case(
            e,
            seq!['m', 'a', 'r', 'k', 'd', 'o', 'w', 'n'],
        ),
        None => false,
    }
}

fn lower_ascii(c: char) -> (r: char)
    ensures
        r == ascii_lower(c),
{
    if 'A' <= c && c <= 'Z' {
        ((c as u8) + 32) as char
    } else {
        c
    }
}

fn same_ascii_case_free(a: &Vec<char>, from: usize, b: &Vec<char>) -> (r: bool)
    requires
        from <= a.len(),
    ensures
        r == same_ignoring_ascii_case(a@.skip(from as int), b@),
{
    if a.len() - from != b.len() {
        return false;
    }
    let mut i: usize = 0;
    while i < b.len()
        invariant
            a.len() - from == b.len(),
            from <= a.len(),
            i <= b.len(),
            forall|k: int| 0 <= k < i ==> ascii_lower(#[trigger] a@.skip(from as int)[k]) == ascii_lower(b@[k]),
        decreases b.len() - i,
    {
        assert(a@.skip(from as int)[i as int] == a@[from + i]);
        if lower_ascii(a[from + i]) != lower_ascii(b[i]) {
            return false;
        }
        i = i + 1;
    }
    true
}

/// Whether a file name names a Markdown document (`.md` or `.markdown`, in any
/// ASCII case), as the workspace tree and the search select them.
pub fn is_md(name: &str) -> (r: bool)
    ensures
        r == md_name(name@),
{
    let v = chars_of(name);
    let mut k: usize = v.len();
    while k > 0 && v[k - 1] != '.'
        invariant
            k <= v.len(),
            last_dot_before(v@, v@.len() as int) == last_dot_before(v@, k as int),
        decreases k,
    {
        k = k - 1;
    }
    if k <= 1 || (v.len() == 2 && v[0] == '.' && v[1] == '.') {
        proof {
            if v@.len() == 2 && v@[0] == '.' && v@[1] == '.' {
                assert(v@ == seq!['.', '.']);
            }
        }
        return false;
    }
    assert(v@ != seq!['.', '.']) by {
        if v@ == seq!['.', '.'] {
            assert(v@.len() == 2 && v@[0] == '.' && v@[1] == '.');
        }
    }
    let md = vec!['m', 'd'];
    let markdown = vec!['m', 'a', 'r', 'k', 'd', 'o', 'w', 'n'];
    assert(md@ == seq!['m', 'd']);
    assert(markdown@ == seq!['m', 'a', 'r', 'k', 'd', 'o', 'w', 'n']);
    same_ascii_case_free(&v, k, &md) || same_ascii_case_free(&v, k, &markdown)
}

/// Whether an entry is hidden from the workspace: its name begins with `.`, or
/// its Windows file attributes (when there are any) mark it hidden (0x2) or
/// system (0x4).
pub open spec fn hidden_entry(name: Seq<char>, attributes: Option<u32>) -> bool {
    (name.len() > 0 && name[0] == '.') || match attributes {
        Some(a) => a & 2 != 0 || a & 4 != 0,
        None => false,
    }
}

/// Whether an entry is hidden from the workspace tree and the search.
pub fn is_hidden_path(name: &str, attributes: Option<u32>) -> (r: bool)
    ensures
        r == hidden_entry(name@, attributes),
{
    let v = chars_of(name);
    let dot = v.len() > 0 && v[0] == '.';
    match attributes {
        Some(a) => dot || a & 2 != 0 || a & 4 != 0,
        None => dot,
    }
}

/// A directory entry as the application reads it: its file name, its path,
/// whether it is a directory, and its Windows file attributes when it has any.
pub struct Entry {
    pub name: String,
    pub path: String,
    pub is_dir: bool,
    pub attributes: Option<u32>,
}

/// A directory entry as plain values.
pub type EntryModel = (Seq<char>, Seq<char>, bool, Option<u32>);

impl View for Entry {
    type V = EntryModel;

    open spec fn view(&self) -> EntryModel {
        (self.name@, self.path@, self.is_dir, self.attributes)
    }
}

/// The views of a sequence of entries.
pub open spec fn entries_view(v: Seq<Entry>) -> Seq<EntryModel> {
    v.map_values(|e: Entry| e@)
}

/// Lexicographic order of names, character by character (the order of their
/// UTF-8 bytes).
pub open spec fn name_le(a: Seq<char>, b: Seq<char>) -> bool
    decreases a.len(),
{
    if a.len() == 0 {
        true
    } else if b.len() == 0 {
        false
    } else if a[0] != b[0] {
        a[0] < b[0]
    } else {
        name_le(a.drop_first(), b.drop_first())
    }
}

/// The tree's order: directories before files, each by name.
pub open spec fn entry_le(a: EntryModel, b: EntryModel) -> bool {
    (a.2 && !b.2) || (a.2 == b.2 && name_le(a.0, b.0))
}

/// Whether the tree lists an entry: it is not hidden, and it is a directory or
/// a Markdown document.
pub open spec fn listed(e: EntryModel) -> bool {
    !hidden_entry(e.0, e.3) && (e.2 || md_name(e.0))
}

proof fn lemma_name_le_total(a: Seq<char>, b: Seq<char>)
    ensures
        name_le(a, b) || name_le(b, a),
    decreases a.len(),
{
    if a.len() > 0 && b.len() > 0 && a[0] == b[0] {
        lemma_name_le_total(a.drop_first(), b.drop_first());
    }
}

proof fn lemma_name_le_transitive(a: Seq<char>, b: Seq<char>, c: Seq<char>)
    requires
        name_le(a, b),
        name_le(b, c),
    ensures
        name_le(a, c),
    decreases a.len(),
{
    if a.len() > 0 && a[0] == b[0] && b[0] == c[0] {
        lemma_name_le_transitive(a.drop_first(), b.drop_first(), c.drop_first());
    }
}

proof fn lemma_name_le_skip(a: Seq<char>, b: Seq<char>, i: int)
    requires
        0 <= i <= a.len(),
        i <= b.len(),
        forall|k: int| 0 <= k < i ==> a[k] == b[k],
    ensures
        name_le(a, b) == name_le(a.skip(i), b.skip(i)),
    decreases i,
{
    if i > 0 {
        let a1 = a.drop_first();
        let b1 = b.drop_first();
        assert forall|k: int| 0 <= k < i - 1 implies a1[k] == b1[k] by {
            assert(a[k + 1] == b[k + 1]);
        }
        lemma_name_le_skip(a1, b1, i - 1);
        assert(a1.skip(i - 1) == a.skip(i));
        assert(b1.skip(i - 1) == b.skip(i));
    } else {
        assert(a.skip(0) == a);
        assert(b.skip(0) == b);
    }
}

fn names_in_order(a: &str, b: &str) -> (r: bool)
    ensures
        r == name_le(a@, b@),
{
    let x = chars_of(a);
    let y = chars_of(b);
    let mut i: usize = 0;
    while i < x.len() && i < y.len() && x[i] == y[i]
        invariant
            i <= x.len(),
            i <= y.len(),
            forall|k: int| 0 <= k < i ==> x@[k] == y@[k],
        decreases x.len() - i,
    {
        i = i + 1;
    }
    proof {
        lemma_name_le_skip(x@, y@, i as int);
        if i < x.len() && i < y.len() {
            assert(x@.skip(i as int)[0] == x@[i as int]);
            assert(y@.skip(i as int)[0] == y@[i as int]);
        }
    }
    if i == x.len() {
        true
    } else if i == y.len() {
        false
    } else {
        x[i] < y[i]
    }
}

fn entries_in_order(a: &Entry, b: &Entry) -> (r: bool)
    ensures
        r == entry_le(a@, b@),
{
    (a.is_dir && !b.is_dir) || (a.is_dir == b.is_dir && names_in_order(a.name.as_str(), b.name.as_str()))
}

/// The entries of one directory as the tree lists them: hidden entries and
/// files other than Markdown documents left out, directories first, then by
/// name.
pub fn arrange_entries(entries: Vec<Entry>) -> (r: Vec<Entry>)
    ensures
        forall|i: int, j: int| 0 <= i < j < r@.len() ==> entry_le(#[trigger] r@[i]@, #[trigger] r@[j]@),
        entries_view(r@).to_multiset() == entries_view(entries@).filter(|e: EntryModel| listed(e)).to_multiset(),
{
    let ghost orig = entries_view(entries@);
    let ghost pred = |e: EntryModel| listed(e);
    let mut rest = entries;
    let mut out: Vec<Entry> = Vec::new();
    let ghost mut k: int = 0;
    proof {
        assert(orig.take(0) == Seq::<EntryModel>::empty());
        assert(Seq::<EntryModel>::empty().filter(pred) == Seq::<EntryModel>::empty());
        assert(entries_view(out@) == Seq::<EntryModel>::empty());
    }
    while rest.len() > 0
        invariant
            0 <= k <= orig.len(),
            entries_view(rest@) == orig.skip(k),
            entries_view(out@).to_multiset() == orig.take(k).filter(pred).to_multiset(),
            forall|i: int, j: int| 0 <= i < j < out@.len() ==> entry_le(#[trigger] out@[i]@, #[trigger] out@[j]@),
            pred == (|e: EntryModel| listed(e)),
        decreases rest.len(),
    {
        let ghost before = rest@;
        let e = rest.remove(0);
        proof {
            assert(entries_view(before).len() == before.len());
            assert(k < orig.len());
            assert(entries_view(before)[0] == before[0]@);
            assert(e@ == orig[k]);
            assert(entries_view(rest@) == entries_view(before).drop_first());
            assert(entries_view(rest@) == orig.skip(k + 1));
            assert(orig.take(k + 1) == orig.take(k).push(orig[k]));
            orig.take(k).lemma_filter_push(orig[k], pred);
        }
        let shown = !is_hidden_path(e.name.as_str(), e.attributes) && (e.is_dir || is_md(e.name.as_str()));
        if shown {
            let mut pos: usize = out.len();
            while pos > 0 && !entries_in_order(&out[pos - 1], &e)
                invariant
                    pos <= out@.len(),
                    forall|j: int| pos <= j < out@.len() ==> !entry_le(#[trigger] out@[j]@, e@),
                decreases pos,
            {
                pos = pos - 1;
            }
            let ghost old_out = out@;
            out.insert(pos, e);
            proof {
                assert(entries_view(out@) == entries_view(old_out).insert(pos as int, e@));
                vstd::seq_lib::to_multiset_insert(entries_view(old_out), pos as int, e@);
                assert forall|i: int, j: int| 0 <= i < j < out@.len() implies entry_le(#[trigger] out@[i]@, #[trigger] out@[j]@) by {
                    lemma_entry_order(old_out, e@, pos as int, i, j);
                }
                vstd::seq_lib::to_multiset_build(orig.take(k).filter(pred), orig[k]);
            }
        }
        proof {
            k = k + 1;
        }
    }
    proof {
        assert(orig.skip(k).len() == 0);
        assert(orig.take(k) == orig);
    }
    out
}

proof fn lemma_entry_le_total(a: EntryModel, b: EntryModel)
    ensures
        entry_le(a, b) || entry_le(b, a),
{
    lemma_name_le_total(a.0, b.0);
}

proof fn lemma_entry_le_transitive(a: EntryModel, b: EntryModel, c: EntryModel)
    requires
        entry_le(a, b),
        entry_le(b, c),
    ensures
        entry_le(a, c),
{
    if a.2 == b.2 && b.2 == c.2 {
        lemma_name_le_transitive(a.0, b.0, c.0);
    }
}

proof fn lemma_entry_order(old_out: Seq<Entry>, e: EntryModel, pos: int, i: int, j: int)
    requires
        0 <= pos <= old_out.len(),
        forall|a: int, b: int| 0 <= a < b < old_out.len() ==> entry_le(#[trigger] old_out[a]@, #[trigger] old_out[b]@),
        forall|b: int| pos <= b < old_out.len() ==> !entry_le(#[trigger] old_out[b]@, e),
        pos > 0 ==> entry_le(old_out[pos - 1]@, e),
        0 <= i < j < old_out.len() + 1,
    ensures
        ({
            let s = entries_view(old_out).insert(pos, e);
            entry_le(s[i], s[j])
        }),
{
    let s = entries_view(old_out).insert(pos, e);
    if i < pos && j == pos {
        if i < pos - 1 {
            lemma_entry_le_transitive(old_out[i]@, old_out[pos - 1]@, e);
        }
    } else if i == pos {
        lemma_entry_le_total(old_out[j - 1]@, e);
    } else if i < pos && j > pos {
        assert(entry_le(old_out[i]@, old_out[j - 1]@));
    } else if i > pos {
        assert(entry_le(old_out[i - 1]@, old_out[j - 1]@));
    }
}

/// The tree node of a workspace root: named by the root's last path component,
/// or by the whole root where it has none, and holding the root's listing.
pub fn root_node(root: &str, file_name: Option<String>, children: Vec<Node>) -> (r: Node)
    ensures
        r.name@ == (match file_name {
            Some(n) => n@,
            None => root@,
        }),
        r.path@ == root@,
        r.is_dir,
        r.children == Some(children),
{
    let name = match file_name {
        Some(n) => n,
        None => root.to_owned(),
    };
    Node { name, path: root.to_owned(), is_dir: true, children: Some(children) }
}

/// Full-text search over documents, taken in the order given: each line that
/// holds the trimmed query, compared after lower-casing both, is a hit with its
/// 1-based line number and its trimmed text cut to 160 characters. A blank
/// query or a zero limit finds nothing; at most `limit` hits are returned.
pub fn search_content(docs: &Vec<Document>, query: &str, limit: usize) -> (r: Vec<SearchHit>)
    ensures
        hits_view(r@) == search_result(docs_view(docs@), query@, limit as nat),
{
    let t = trim(query);
    let q = to_lower(t.as_str());
    let qv = chars_of(q.as_str());
    let mut hits: Vec<SearchHit> = Vec::new();
    if qv.len() == 0 || limit == 0 {
        return hits;
    }
    let ghost all_docs = docs_view(docs@);
    let mut d: usize = 0;
    assert(all_docs.take(0) == Seq::<DocModel>::empty());
    while d < docs.len() && hits.len() < limit
        invariant
            all_docs == docs_view(docs@),
            qv@ == search_key(query@),
            d <= docs.len(),
            hits_view(hits@) == at_most(all_hits(all_docs.take(d as int), qv@), limit as nat),
        decreases docs.len() - d,
    {
        proof {
            let s = all_docs.take(d + 1);
            assert(s.drop_last() == all_docs.take(d as int));
            assert(s.last() == docs@[d as int]@);
        }
        search_doc(&docs[d], &qv, limit, &mut hits);
        d = d + 1;
    }
    proof {
        lemma_all_hits_prefix(all_docs, qv@, d as int);
        if d == docs.len() {
            assert(all_docs.take(d as int) == all_docs);
        }
    }
    hits
}

} // verus!
