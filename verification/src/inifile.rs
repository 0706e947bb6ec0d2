//! The ini-style configuration artifact: a document of named sections holding
//! key-value entries, with a verified writer, parser, and update operation.
//! Rendering and parsing are exact inverses on well-formed documents, so a
//! written configuration file can always be read back unchanged.
use vstd::prelude::*;
use vstd::pervasive::VecAdditionalExecFns;

use crate::errors::Exception;
use crate::strutil::find_char;
use crate::strutil::lemma_find_char_bounds;
use crate::strutil::lemma_find_char_is;
use crate::strutil::split_chars;
use crate::strutil::split_str;
use crate::strutil::str_eq;

verus! {

/// The mathematical value of one entry: key and value.
pub type EntryView = (Seq<char>, Seq<char>);

/// The mathematical value of one section: name and entries in order.
pub type SectionView = (Seq<char>, Seq<EntryView>);

/// One `key=value` entry of a configuration file.
#[derive(Debug)]
pub struct IniEntry {
    pub key: String,
    pub value: String,
}

/// One `[name]` section and its entries, in file order.
#[derive(Debug)]
pub struct IniSection {
    pub name: String,
    pub entries: Vec<IniEntry>,
}

/// A configuration document: its sections in file order.
#[derive(Debug)]
pub struct IniDoc {
    pub sections: Vec<IniSection>,
}

impl View for IniEntry {
    type V = EntryView;

    open spec fn view(&self) -> EntryView {
        (self.key@, self.value@)
    }
}

/// The mathematical value of a run of entries.
pub open spec fn entries_view(entries: &Vec<IniEntry>) -> Seq<EntryView> {
    Seq::new(entries@.len(), |i: int| entries@[i]@)
}

impl View for IniSection {
    type V = SectionView;

    open spec fn view(&self) -> SectionView {
        (self.name@, entries_view(&self.entries))
    }
}

impl View for IniDoc {
    type V = Seq<SectionView>;

    open spec fn view(&self) -> Seq<SectionView> {
        Seq::new(self.sections@.len(), |i: int| self.sections@[i]@)
    }
}

/// The position of the first section named `name`; the document length when
/// there is none.
pub open spec fn find_section(doc: Seq<SectionView>, name: Seq<char>) -> int
    decreases doc.len(),
{
    if doc.len() == 0 {
        0
    } else if doc[0].0 == name {
        0
    } else {
        1 + find_section(doc.drop_first(), name)
    }
}

/// `find_section` returns the first matching position, or the length when
/// there is none.
pub proof fn lemma_find_section(doc: Seq<SectionView>, name: Seq<char>)
    ensures
        0 <= find_section(doc, name) <= doc.len(),
        find_section(doc, name) < doc.len() ==> doc[find_section(doc, name)].0 == name,
        forall|j: int| 0 <= j < find_section(doc, name) ==> doc[j].0 != name,
    decreases doc.len(),
{
    if doc.len() > 0 && doc[0].0 != name {
        lemma_find_section(doc.drop_first(), name);
        assert forall|j: int| 0 <= j < find_section(doc, name) implies doc[j].0 != name by {
            if j > 0 {
                assert(doc.drop_first()[j - 1] == doc[j]);
            }
        }
    }
}

/// The position of the first entry keyed `key`; the entry count when there
/// is none.
pub open spec fn find_key(entries: Seq<EntryView>, key: Seq<char>) -> int
    decreases entries.len(),
{
    if entries.len() == 0 {
        0
    } else if entries[0].0 == key {
        0
    } else {
        1 + find_key(entries.drop_first(), key)
    }
}

/// `find_key` returns the first matching position, or the length when there
/// is none.
pub proof fn lemma_find_key(entries: Seq<EntryView>, key: Seq<char>)
    ensures
        0 <= find_key(entries, key) <= entries.len(),
        find_key(entries, key) < entries.len() ==> entries[find_key(entries, key)].0 == key,
        forall|j: int| 0 <= j < find_key(entries, key) ==> entries[j].0 != key,
    decreases entries.len(),
{
    if entries.len() > 0 && entries[0].0 != key {
        lemma_find_key(entries.drop_first(), key);
        assert forall|j: int| 0 <= j < find_key(entries, key) implies entries[j].0 != key by {
            if j > 0 {
                assert(entries.drop_first()[j - 1] == entries[j]);
            }
        }
    }
}

/// The document after `key` is set to `value` in the section named `name`:
/// the first entry under that key is replaced, a missing key is appended to
/// the section, and a missing section is appended to the document.
pub open spec fn spec_set(
    doc: Seq<SectionView>,
    name: Seq<char>,
    key: Seq<char>,
    value: Seq<char>,
) -> Seq<SectionView> {
    let i = find_section(doc, name);
    if i == doc.len() as int {
        doc.push((name, seq![(key, value)]))
    } else {
        let es = doc[i].1;
        let j = find_key(es, key);
        if j == es.len() as int {
            doc.update(i, (doc[i].0, es.push((key, value))))
        } else {
            doc.update(i, (doc[i].0, es.update(j, (key, value))))
        }
    }
}

/// The value of `key` in the first section named `name`, when both exist.
pub open spec fn spec_get(doc: Seq<SectionView>, name: Seq<char>, key: Seq<char>) -> Option<
    Seq<char>,
> {
    let i = find_section(doc, name);
    if i == doc.len() as int {
        None
    } else {
        let es = doc[i].1;
        let j = find_key(es, key);
        if j == es.len() as int {
            None
        } else {
            Some(es[j].1)
        }
    }
}

/// The position of the first entry keyed `key`, or the entry count when
/// there is none.
fn find_key_idx(entries: &Vec<IniEntry>, key: &str) -> (r: usize)
    ensures
        r == find_key(entries_view(entries), key@),
{
    proof {
        lemma_find_key(entries_view(entries), key@);
    }
    let m = entries.len();
    let mut j: usize = 0;
    while j < m
        invariant
            0 <= j <= m,
            m == entries@.len(),
            forall|t: int| 0 <= t < j ==> entries_view(entries)[t].0 != key@,
        decreases m - j,
    {
        if str_eq(entries[j].key.as_str(), key) {
            proof {
                assert(entries_view(entries)[j as int].0 == key@);
                lemma_find_key(entries_view(entries), key@);
            }
            return j;
        }
        proof {
            assert(entries_view(entries)[j as int] == entries@[j as int]@);
        }
        j = j + 1;
    }
    proof {
        lemma_find_key(entries_view(entries), key@);
    }
    m
}

impl IniDoc {
    /// The empty document.
    pub fn new() -> (r: Self)
        ensures
            r@ == Seq::<SectionView>::empty(),
    {
        let r = IniDoc { sections: Vec::new() };
        proof {
            assert(r@ =~= Seq::<SectionView>::empty());
        }
        r
    }

    /// The position of the first section named `section`, or the section
    /// count when there is none.
    fn find_section_idx(&self, section: &str) -> (r: usize)
        ensures
            r == find_section(self@, section@),
            r <= self@.len(),
    {
        proof {
            lemma_find_section(self@, section@);
        }
        let n = self.sections.len();
        let mut i: usize = 0;
        while i < n
            invariant
                0 <= i <= n,
                n == self.sections@.len(),
                forall|j: int| 0 <= j < i ==> self@[j].0 != section@,
            decreases n - i,
        {
            if str_eq(self.sections[i].name.as_str(), section) {
                proof {
                    assert(self@[i as int].0 == section@);
                    lemma_find_section(self@, section@);
                }
                return i;
            }
            proof {
                assert(self@[i as int] == self.sections@[i as int]@);
            }
            i = i + 1;
        }
        proof {
            lemma_find_section(self@, section@);
        }
        n
    }

    /// Sets `key` to `value` in the section named `section`: replaces the
    /// first entry under that key, appends a missing key to the section, and
    /// appends a missing section to the document.
    pub fn set(&mut self, section: &str, key: &str, value: &str)
        ensures
            final(self)@ == spec_set(old(self)@, section@, key@, value@),
    {
        let ghost old_doc = self@;
        let i = self.find_section_idx(section);
        proof {
            lemma_find_section(old_doc, section@);
        }
        let entry = IniEntry { key: String::from_str(key), value: String::from_str(value) };
        if i == self.sections.len() {
            let mut entries: Vec<IniEntry> = Vec::new();
            entries.push(entry);
            let sec = IniSection { name: String::from_str(section), entries };
            proof {
                assert(sec@.1 =~= seq![(key@, value@)]);
            }
            self.sections.push(sec);
            proof {
                assert(self@ =~= spec_set(old_doc, section@, key@, value@));
            }
        } else {
            let ghost es = old_doc[i as int].1;
            let mut sec = IniSection { name: String::new(), entries: Vec::new() };
            self.sections.set_and_swap(i, &mut sec);
            proof {
                assert(sec@ == old_doc[i as int]);
                assert(es =~= entries_view(&sec.entries));
            }
            let j = find_key_idx(&sec.entries, key);
            let m = sec.entries.len();
            proof {
                lemma_find_key(es, key@);
            }
            if j == m {
                sec.entries.push(entry);
                proof {
                    assert(sec@.1 =~= es.push((key@, value@)));
                }
            } else {
                sec.entries.set(j, entry);
                proof {
                    assert(sec@.1 =~= es.update(j as int, (key@, value@)));
                }
            }
            self.sections.set(i, sec);
            proof {
                assert(self@ =~= spec_set(old_doc, section@, key@, value@));
            }
        }
    }

    /// The value of `key` in the first section named `section`, when both
    /// exist.
    pub fn get(&self, section: &str, key: &str) -> (r: Option<String>)
        ensures
            spec_get(self@, section@, key@) matches Some(v) ==> (r matches Some(s) && s@ == v),
            spec_get(self@, section@, key@) is None ==> r is None,
    {
        let i = self.find_section_idx(section);
        proof {
            lemma_find_section(self@, section@);
        }
        if i == self.sections.len() {
            return None;
        }
        let sec = &self.sections[i];
        proof {
            assert(sec@ == self@[i as int]);
            assert(entries_view(&sec.entries) == self@[i as int].1);
            lemma_find_key(self@[i as int].1, key@);
        }
        let j = find_key_idx(&sec.entries, key);
        if j == sec.entries.len() {
            None
        } else {
            proof {
                assert(entries_view(&sec.entries)[j as int] == sec.entries@[j as int]@);
            }
            Some(sec.entries[j].value.clone())
        }
    }

    /// How many entries the first section named `section` holds; zero when
    /// there is no such section.
    pub fn section_key_count(&self, section: &str) -> (r: usize)
        ensures
            find_section(self@, section@) < self@.len() ==> r == self@[find_section(
                self@,
                section@,
            )].1.len(),
            find_section(self@, section@) == self@.len() ==> r == 0,
    {
        let i = self.find_section_idx(section);
        proof {
            lemma_find_section(self@, section@);
        }
        if i == self.sections.len() {
            0
        } else {
            proof {
                assert(self@[i as int] == self.sections@[i as int]@);
            }
            self.sections[i].entries.len()
        }
    }
}

/// The file text of one entry: `key=value` and a line break.
pub open spec fn render_entry(e: EntryView) -> Seq<char> {
    e.0 + "="@ + e.1 + "\n"@
}

/// The file text of a run of entries.
pub open spec fn render_entries(es: Seq<EntryView>) -> Seq<char>
    decreases es.len(),
{
    if es.len() == 0 {
        Seq::empty()
    } else {
        render_entry(es[0]) + render_entries(es.drop_first())
    }
}

/// The file text of one section: its header line and its entries.
pub open spec fn render_section(s: SectionView) -> Seq<char> {
    "["@ + s.0 + "]\n"@ + render_entries(s.1)
}

/// The file text of a document.
pub open spec fn render_doc(d: Seq<SectionView>) -> Seq<char>
    decreases d.len(),
{
    if d.len() == 0 {
        Seq::empty()
    } else {
        render_section(d[0]) + render_doc(d.drop_first())
    }
}

proof fn lemma_render_entries_snoc(es: Seq<EntryView>, e: EntryView)
    ensures
        render_entries(es.push(e)) == render_entries(es) + render_entry(e),
    decreases es.len(),
{
    let p = es.push(e);
    if es.len() == 0 {
        assert(p[0] == e);
        assert(p.drop_first() =~= Seq::<EntryView>::empty());
        assert(render_entries(p.drop_first()) == Seq::<char>::empty());
        assert(render_entries(p) == render_entry(e) + render_entries(p.drop_first()));
        assert(render_entries(p) =~= render_entries(es) + render_entry(e));
    } else {
        assert(p[0] == es[0]);
        assert(p.drop_first() =~= es.drop_first().push(e));
        lemma_render_entries_snoc(es.drop_first(), e);
        assert(render_entries(p) == render_entry(es[0]) + (render_entries(es.drop_first())
            + render_entry(e)));
        assert(render_entries(p) =~= render_entries(es) + render_entry(e));
    }
}

proof fn lemma_render_doc_snoc(d: Seq<SectionView>, s: SectionView)
    ensures
        render_doc(d.push(s)) == render_doc(d) + render_section(s),
    decreases d.len(),
{
    let p = d.push(s);
    if d.len() == 0 {
        assert(p[0] == s);
        assert(p.drop_first() =~= Seq::<SectionView>::empty());
        assert(render_doc(p.drop_first()) == Seq::<char>::empty());
        assert(render_doc(p) == render_section(s) + render_doc(p.drop_first()));
        assert(render_doc(p) =~= render_doc(d) + render_section(s));
    } else {
        assert(p[0] == d[0]);
        assert(p.drop_first() =~= d.drop_first().push(s));
        lemma_render_doc_snoc(d.drop_first(), s);
        assert(render_doc(p) == render_section(d[0]) + (render_doc(d.drop_first())
            + render_section(s)));
        assert(render_doc(p) =~= render_doc(d) + render_section(s));
    }
}

impl IniDoc {
    /// The document's file text: each section as a header line followed by
    /// its `key=value` lines.
    pub fn render(&self) -> (r: String)
        ensures
            r@ == render_doc(self@),
    {
        let mut out = String::new();
        let n = self.sections.len();
        proof {
            assert(self@.take(0) =~= Seq::<SectionView>::empty());
        }
        let mut i: usize = 0;
        while i < n
            invariant
                0 <= i <= n,
                n == self.sections@.len(),
                out@ == render_doc(self@.take(i as int)),
            decreases n - i,
        {
            let sec = &self.sections[i];
            out.append("[");
            out.append(sec.name.as_str());
            out.append("]\n");
            let m = sec.entries.len();
            let ghost es = self@[i as int].1;
            proof {
                assert(sec@ == self@[i as int]);
                assert(es.take(0) =~= Seq::<EntryView>::empty());
                assert(out@ =~= render_doc(self@.take(i as int)) + "["@ + sec@.0 + "]\n"@
                    + render_entries(es.take(0)));
            }
            let mut j: usize = 0;
            while j < m
                invariant
                    0 <= j <= m,
                    0 <= i < n,
                    n == self.sections@.len(),
                    m == sec.entries@.len(),
                    sec@ == self@[i as int],
                    es == self@[i as int].1,
                    out@ == render_doc(self@.take(i as int)) + "["@ + sec@.0 + "]\n"@
                        + render_entries(es.take(j as int)),
                decreases m - j,
            {
                let e = &sec.entries[j];
                out.append(e.key.as_str());
                out.append("=");
                out.append(e.value.as_str());
                out.append("\n");
                proof {
                    assert(es[j as int] == sec.entries@[j as int]@);
                    assert(es.take(j + 1) =~= es.take(j as int).push(es[j as int]));
                    lemma_render_entries_snoc(es.take(j as int), es[j as int]);
                    assert(render_entry(es[j as int]) =~= e.key@ + "="@ + e.value@ + "\n"@);
                    assert(out@ =~= render_doc(self@.take(i as int)) + "["@ + sec@.0 + "]\n"@
                        + render_entries(es.take(j + 1)));
                }
                j = j + 1;
            }
            proof {
                assert(es.take(m as int) =~= es);
                assert(self@.take(i + 1) =~= self@.take(i as int).push(self@[i as int]));
                lemma_render_doc_snoc(self@.take(i as int), self@[i as int]);
                assert(render_section(self@[i as int]) =~= "["@ + sec@.0 + "]\n"@
                    + render_entries(es));
                assert(out@ =~= render_doc(self@.take(i + 1)));
            }
            i = i + 1;
        }
        proof {
            assert(self@.take(n as int) =~= self@);
        }
        out
    }
}

/// Whether a line is a section header: it is bracketed.
pub open spec fn is_header_line(l: Seq<char>) -> bool {
    l.len() >= 2 && l[0] == '[' && l[l.len() - 1] == ']'
}

/// The parse of a run of lines onto the sections read so far: empty lines
/// are skipped, a header line opens a section, a `key=value` line (split at
/// its first `=`) extends the last open section, and anything else fails.
pub open spec fn parse_lines(lines: Seq<Seq<char>>, acc: Seq<SectionView>) -> Option<
    Seq<SectionView>,
>
    decreases lines.len(),
{
    if lines.len() == 0 {
        Some(acc)
    } else {
        let l = lines[0];
        let rest = lines.drop_first();
        if l.len() == 0 {
            parse_lines(rest, acc)
        } else if is_header_line(l) {
            parse_lines(rest, acc.push((l.subrange(1, l.len() - 1), Seq::empty())))
        } else {
            let j = find_char(l, '=', 0);
            if j == l.len() as int || acc.len() == 0 {
                None
            } else {
                let last = acc[acc.len() - 1];
                let entry = (l.subrange(0, j), l.subrange(j + 1, l.len() as int));
                parse_lines(rest, acc.update(acc.len() - 1, (last.0, last.1.push(entry))))
            }
        }
    }
}

/// The document a file text parses to, when it parses.
pub open spec fn spec_parse(s: Seq<char>) -> Option<Seq<SectionView>> {
    parse_lines(split_chars(s, '\n'), Seq::empty())
}

/// Parses a configuration file text. The result is exactly `spec_parse` of
/// the input: a parse failure (a non-empty line that is neither a header nor
/// `key=value` under an open section) is a configuration-file error.
pub fn parse_ini(input: &str) -> (r: Result<IniDoc, Exception>)
    ensures
        spec_parse(input@) matches Some(d) ==> (r matches Ok(doc) && doc@ == d),
        spec_parse(input@) is None ==> (r matches Err(e) && e is IniException),
{
    let lines = split_str(input, '\n');
    let n = lines.len();
    let mut doc = IniDoc::new();
    proof {
        assert(lines.deep_view().subrange(0, n as int) =~= lines.deep_view());
    }
    let mut i: usize = 0;
    while i < n
        invariant
            0 <= i <= n,
            n == lines@.len(),
            lines.deep_view() == split_chars(input@, '\n'),
            parse_lines(split_chars(input@, '\n'), Seq::empty()) == parse_lines(
                lines.deep_view().subrange(i as int, n as int),
                doc@,
            ),
        decreases n - i,
    {
        let ghost doc0 = doc@;
        let line: &String = &lines[i];
        let ghost l = lines.deep_view()[i as int];
        let ghost restv = lines.deep_view().subrange(i as int, n as int);
        proof {
            assert(l == lines@[i as int]@);
            assert(l == line@);
            assert(restv[0] == l);
            assert(restv.drop_first() =~= lines.deep_view().subrange(i + 1, n as int));
        }
        let len = line.as_str().unicode_len();
        if len == 0 {
            // an empty line is skipped
        } else if len >= 2 && line.as_str().get_char(0) == '[' && line.as_str().get_char(len - 1)
            == ']' {
            proof {
                assert(is_header_line(l));
            }
            let name = line.as_str().substring_char(1, len - 1);
            let sec = IniSection { name: String::from_str(name), entries: Vec::new() };
            proof {
                assert(sec@.1 =~= Seq::<EntryView>::empty());
            }
            doc.sections.push(sec);
            proof {
                assert(doc@ =~= doc0.push((l.subrange(1, l.len() - 1), Seq::empty())));
            }
        } else {
            proof {
                assert(!is_header_line(l));
            }
            let mut k: usize = 0;
            while k < len && line.as_str().get_char(k) != '='
                invariant
                    0 <= k <= len,
                    len == l.len(),
                    l == line@,
                    find_char(l, '=', 0) == find_char(l, '=', k as int),
                decreases len - k,
            {
                k = k + 1;
            }
            proof {
                lemma_find_char_bounds(l, '=', k as int);
                assert(find_char(l, '=', 0) == k as int);
            }
            if k == len {
                return Err(
                    Exception::IniException(
                        String::from_str("configuration line is neither a header nor key=value"),
                    ),
                );
            }
            if doc.sections.len() == 0 {
                proof {
                    assert(doc0.len() == 0);
                }
                return Err(
                    Exception::IniException(
                        String::from_str("configuration entry stands before any section"),
                    ),
                );
            }
            let keypart = String::from_str(line.as_str().substring_char(0, k));
            let valpart = String::from_str(line.as_str().substring_char(k + 1, len));
            let idx = doc.sections.len() - 1;
            let mut sec = IniSection { name: String::new(), entries: Vec::new() };
            doc.sections.set_and_swap(idx, &mut sec);
            proof {
                assert(sec@ == doc0[doc0.len() - 1]);
            }
            let ghost old_sec = sec@;
            sec.entries.push(IniEntry { key: keypart, value: valpart });
            proof {
                let entry = (l.subrange(0, k as int), l.subrange(k + 1, l.len() as int));
                assert(sec@.1 =~= old_sec.1.push(entry));
            }
            doc.sections.set(idx, sec);
            proof {
                let entry = (l.subrange(0, k as int), l.subrange(k + 1, l.len() as int));
                let last = doc0[doc0.len() - 1];
                assert(doc@ =~= doc0.update(doc0.len() - 1, (last.0, last.1.push(entry))));
            }
        }
        i = i + 1;
    }
    proof {
        assert(lines.deep_view().subrange(n as int, n as int) =~= Seq::<Seq<char>>::empty());
    }
    Ok(doc)
}

/// An entry the file format can carry faithfully: no line break anywhere, no
/// `=` in the key, and a key that cannot be mistaken for a header line.
pub open spec fn wf_entry(e: EntryView) -> bool {
    &&& (forall|j: int| 0 <= j < e.0.len() ==> e.0[j] != '\n' && e.0[j] != '=')
    &&& (forall|j: int| 0 <= j < e.1.len() ==> e.1[j] != '\n')
    &&& (e.0.len() > 0 ==> e.0[0] != '[')
}

/// A section the file format can carry faithfully: no line break in the
/// name, every entry well-formed.
pub open spec fn wf_section(s: SectionView) -> bool {
    &&& (forall|j: int| 0 <= j < s.0.len() ==> s.0[j] != '\n')
    &&& (forall|i: int| 0 <= i < s.1.len() ==> wf_entry(#[trigger] s.1[i]))
}

/// A document the file format can carry faithfully.
pub open spec fn wf_doc(d: Seq<SectionView>) -> bool {
    forall|i: int| 0 <= i < d.len() ==> wf_section(#[trigger] d[i])
}

proof fn lemma_split_line(a: Seq<char>, b: Seq<char>)
    requires
        forall|j: int| 0 <= j < a.len() ==> a[j] != '\n',
    ensures
        split_chars(a + seq!['\n'] + b, '\n') == seq![a] + split_chars(b, '\n'),
{
    let s = a + seq!['\n'] + b;
    assert(s[a.len() as int] == '\n');
    assert forall|j: int| 0 <= j < a.len() implies s[j] != '\n' by {
        assert(s[j] == a[j]);
    }
    lemma_find_char_is(s, '\n', 0, a.len() as int);
    assert(s.subrange(0, a.len() as int) =~= a);
    assert(s.subrange(a.len() as int + 1, s.len() as int) =~= b);
    assert(split_chars(s, '\n') == seq![a] + split_chars(b, '\n'));
}

proof fn lemma_parse_render_entries(es: Seq<EntryView>, tail: Seq<char>, acc: Seq<SectionView>)
    requires
        acc.len() > 0,
        forall|i: int| 0 <= i < es.len() ==> wf_entry(#[trigger] es[i]),
    ensures
        parse_lines(split_chars(render_entries(es) + tail, '\n'), acc) == parse_lines(
            split_chars(tail, '\n'),
            acc.update(acc.len() - 1, (acc[acc.len() - 1].0, acc[acc.len() - 1].1 + es)),
        ),
    decreases es.len(),
{
    let last = acc[acc.len() - 1];
    if es.len() == 0 {
        assert(render_entries(es) + tail =~= tail);
        assert(last.1 + es =~= last.1);
        assert(acc.update(acc.len() - 1, (last.0, last.1 + es)) =~= acc);
    } else {
        let e = es[0];
        let line = e.0 + "="@ + e.1;
        reveal_strlit("=");
        reveal_strlit("\n");
        assert(render_entries(es) == render_entry(e) + render_entries(es.drop_first()));
        assert(render_entries(es) + tail =~= line + seq!['\n'] + (render_entries(es.drop_first())
            + tail));
        assert forall|j: int| 0 <= j < line.len() implies line[j] != '\n' by {
            if j < e.0.len() {
                assert(line[j] == e.0[j]);
            } else if j == e.0.len() {
                assert(line[j] == '=');
            } else {
                assert(line[j] == e.1[j - e.0.len() - 1]);
            }
        }
        lemma_split_line(line, render_entries(es.drop_first()) + tail);
        let lines = seq![line] + split_chars(render_entries(es.drop_first()) + tail, '\n');
        assert(split_chars(render_entries(es) + tail, '\n') == lines);
        // the first line is a key=value line, not a header
        assert(line.len() >= 1);
        if e.0.len() > 0 {
            assert(line[0] == e.0[0]);
            assert(line[0] != '[');
        } else {
            assert(line[0] == '=');
            assert(line[0] != '[');
        }
        assert(!is_header_line(line));
        assert(line[e.0.len() as int] == '=');
        assert forall|j: int| 0 <= j < e.0.len() implies line[j] != '=' by {
            assert(line[j] == e.0[j]);
        }
        lemma_find_char_is(line, '=', 0, e.0.len() as int);
        // one parse step consumes the line into the last section
        assert(lines[0] == line);
        assert(lines.drop_first() =~= split_chars(render_entries(es.drop_first()) + tail, '\n'));
        let entry = (line.subrange(0, e.0.len() as int), line.subrange(
            e.0.len() as int + 1,
            line.len() as int,
        ));
        assert(entry.0 =~= e.0);
        assert(entry.1 =~= e.1);
        assert(entry == e);
        let acc1 = acc.update(acc.len() - 1, (last.0, last.1.push(e)));
        assert(parse_lines(lines, acc) == parse_lines(
            split_chars(render_entries(es.drop_first()) + tail, '\n'),
            acc1,
        ));
        lemma_parse_render_entries(es.drop_first(), tail, acc1);
        let last1 = acc1[acc1.len() - 1];
        assert(last1 == (last.0, last.1.push(e)));
        assert(last1.1 + es.drop_first() =~= last.1 + es);
        assert(acc1.update(acc1.len() - 1, (last1.0, last1.1 + es.drop_first())) =~= acc.update(
            acc.len() - 1,
            (last.0, last.1 + es),
        ));
    }
}

proof fn lemma_parse_render_doc(d: Seq<SectionView>, acc: Seq<SectionView>)
    requires
        wf_doc(d),
    ensures
        parse_lines(split_chars(render_doc(d), '\n'), acc) == Some(acc + d),
    decreases d.len(),
{
    if d.len() == 0 {
        assert(render_doc(d) == Seq::<char>::empty());
        let lines = split_chars(Seq::<char>::empty(), '\n');
        assert(lines == seq![Seq::<char>::empty()]);
        assert(lines[0].len() == 0);
        assert(lines.drop_first() =~= Seq::<Seq<char>>::empty());
        assert(parse_lines(Seq::<Seq<char>>::empty(), acc) == Some(acc));
        assert(parse_lines(lines, acc) == parse_lines(lines.drop_first(), acc));
        assert(parse_lines(lines, acc) == Some(acc));
        assert(acc + d =~= acc);
    } else {
        let s = d[0];
        reveal_strlit("[");
        reveal_strlit("]");
        reveal_strlit("]\n");
        reveal_strlit("\n");
        let header = "["@ + s.0 + "]"@;
        assert(render_doc(d) == render_section(s) + render_doc(d.drop_first()));
        assert(render_doc(d) =~= header + seq!['\n'] + (render_entries(s.1) + render_doc(
            d.drop_first(),
        )));
        assert forall|j: int| 0 <= j < header.len() implies header[j] != '\n' by {
            if j == 0 {
                assert(header[j] == '[');
            } else if j <= s.0.len() {
                assert(header[j] == s.0[j - 1]);
            } else {
                assert(header[j] == ']');
            }
        }
        lemma_split_line(header, render_entries(s.1) + render_doc(d.drop_first()));
        let lines = seq![header] + split_chars(render_entries(s.1) + render_doc(d.drop_first()),
            '\n');
        assert(split_chars(render_doc(d), '\n') == lines);
        assert(header.len() >= 2);
        assert(header[0] == '[');
        assert(header[header.len() - 1] == ']');
        assert(is_header_line(header));
        assert(lines[0] == header);
        assert(lines.drop_first() =~= split_chars(render_entries(s.1) + render_doc(
            d.drop_first(),
        ), '\n'));
        assert(header.subrange(1, header.len() - 1) =~= s.0);
        let acc1 = acc.push((header.subrange(1, header.len() - 1), Seq::<EntryView>::empty()));
        assert(acc1 == acc.push((s.0, Seq::<EntryView>::empty())));
        assert(parse_lines(lines, acc) == parse_lines(
            split_chars(render_entries(s.1) + render_doc(d.drop_first()), '\n'),
            acc1,
        ));
        assert(wf_section(s));
        lemma_parse_render_entries(s.1, render_doc(d.drop_first()), acc1);
        let last1 = acc1[acc1.len() - 1];
        assert(last1 == (s.0, Seq::<EntryView>::empty()));
        assert(last1.1 + s.1 =~= s.1);
        assert(s == (s.0, s.1));
        assert(acc1.update(acc1.len() - 1, (last1.0, last1.1 + s.1)) =~= acc.push(s));
        assert(parse_lines(lines, acc) == parse_lines(
            split_chars(render_doc(d.drop_first()), '\n'),
            acc.push(s),
        ));
        assert(wf_doc(d.drop_first())) by {
            assert forall|i: int| 0 <= i < d.drop_first().len() implies wf_section(
                #[trigger] d.drop_first()[i],
            ) by {
                assert(d.drop_first()[i] == d[i + 1]);
            }
        }
        lemma_parse_render_doc(d.drop_first(), acc.push(s));
        assert(acc.push(s) + d.drop_first() =~= acc + d);
    }
}

/// Law: rendering and parsing are exact inverses. A document whose names,
/// keys and values the file format can carry faithfully parses back from its
/// own file text unchanged.
pub proof fn lemma_render_parse_round_trip(d: Seq<SectionView>)
    requires
        wf_doc(d),
    ensures
        spec_parse(render_doc(d)) == Some(d),
{
    lemma_parse_render_doc(d, Seq::<SectionView>::empty());
    assert(Seq::<SectionView>::empty() + d =~= d);
}

} // verus!
