//! The manifest's declarative format, as a mathematical grammar over the
//! character sequence, and the verified parser that follows it.
//!
//! The format is line oriented. A line is blank (only whitespace, or a
//! comment starting with `#`), a section header `[name]`, or an entry
//! `key = value` where the value is a quoted string, `true`, `false`, a
//! list of quoted strings in brackets (a trailing comma is allowed), or an
//! integer-shaped number (an optional minus sign, then digits). A key or
//! section name is one or more ASCII letters, digits, `_` or `-`.
//! Anything else makes the whole document ill-formed.

use vstd::prelude::*;
use vstd::string::StrSliceExecFns;
use crate::document::{
    DocumentView, EntryView, RawDocument, RawEntry, RawSection, RawValue, SectionView, ValueView,
    views_of_entries, views_of_sections, views_of_strings,
};

verus! {

pub open spec fn is_ws(c: char) -> bool {
    c == ' ' || c == '\t' || c == '\r'
}

pub open spec fn is_digit(c: char) -> bool {
    '0' as u32 <= c as u32 && c as u32 <= '9' as u32
}

pub open spec fn is_key_char(c: char) -> bool {
    ('a' as u32 <= c as u32 && c as u32 <= 'z' as u32)
    || ('A' as u32 <= c as u32 && c as u32 <= 'Z' as u32)
    || ('0' as u32 <= c as u32 && c as u32 <= '9' as u32)
    || c == '_' || c == '-'
}

/// First position at or after `i`, up to `le`, that is not whitespace.
pub open spec fn spec_skip_ws(t: Seq<char>, i: int, le: int) -> int
    decreases le - i,
{
    if i < le && le <= t.len() && is_ws(t[i]) {
        spec_skip_ws(t, i + 1, le)
    } else {
        i
    }
}

/// First position at or after `i`, up to `le`, that is not a key character.
pub open spec fn spec_scan_key(t: Seq<char>, i: int, le: int) -> int
    decreases le - i,
{
    if i < le && le <= t.len() && is_key_char(t[i]) {
        spec_scan_key(t, i + 1, le)
    } else {
        i
    }
}

/// First position at or after `i`, up to `le`, holding `c`; `le` if none does.
pub open spec fn spec_scan_to(t: Seq<char>, i: int, le: int, c: char) -> int
    decreases le - i,
{
    if i < le && le <= t.len() && t[i] != c {
        spec_scan_to(t, i + 1, le, c)
    } else {
        i
    }
}

/// First position at or after `i`, up to `le`, that is not a digit.
pub open spec fn spec_scan_digits(t: Seq<char>, i: int, le: int) -> int
    decreases le - i,
{
    if i < le && le <= t.len() && is_digit(t[i]) {
        spec_scan_digits(t, i + 1, le)
    } else {
        i
    }
}

/// Position of the next line break at or after `i`; the text's end if none.
pub open spec fn spec_line_end(t: Seq<char>, i: int) -> int
    decreases t.len() - i,
{
    if 0 <= i && i < t.len() && t[i] != '\n' {
        spec_line_end(t, i + 1)
    } else {
        i
    }
}

/// Only whitespace, possibly followed by a comment, remains before `le`.
pub open spec fn spec_rest_ok(t: Seq<char>, i: int, le: int) -> bool {
    let j = spec_skip_ws(t, i, le);
    j >= le || t[j] == '#'
}

pub proof fn lemma_line_end_bounds(t: Seq<char>, i: int)
    requires
        0 <= i,
    ensures
        i <= spec_line_end(t, i),
        i <= t.len() ==> spec_line_end(t, i) <= t.len(),
    decreases t.len() - i,
{
    if 0 <= i && i < t.len() && t[i] != '\n' {
        lemma_line_end_bounds(t, i + 1);
    }
}

/// Progress of a scan through a bracketed list of quoted strings.
pub enum ListScanView {
    Seek,
    InText(int),
    AfterText,
}

/// The strings of a bracketed list starting inside the brackets at `i`,
/// together with the position after the closing bracket.
pub open spec fn spec_list(
    t: Seq<char>,
    i: int,
    le: int,
    acc: Seq<Seq<char>>,
    st: ListScanView,
) -> Option<(Seq<Seq<char>>, int)>
    decreases le - i,
{
    if !(0 <= i && i < le && le <= t.len()) {
        None
    } else {
        let c = t[i];
        match st {
            ListScanView::Seek => if c == ']' {
                Some((acc, i + 1))
            } else if c == '"' {
                spec_list(t, i + 1, le, acc, ListScanView::InText(i + 1))
            } else if is_ws(c) {
                spec_list(t, i + 1, le, acc, ListScanView::Seek)
            } else {
                None
            },
            ListScanView::InText(p) => if c == '"' {
                spec_list(t, i + 1, le, acc.push(t.subrange(p, i)), ListScanView::AfterText)
            } else {
                spec_list(t, i + 1, le, acc, ListScanView::InText(p))
            },
            ListScanView::AfterText => if c == ',' {
                spec_list(t, i + 1, le, acc, ListScanView::Seek)
            } else if c == ']' {
                Some((acc, i + 1))
            } else if is_ws(c) {
                spec_list(t, i + 1, le, acc, ListScanView::AfterText)
            } else {
                None
            },
        }
    }
}

/// The value starting at `d`, with the position after it.
pub open spec fn spec_value(t: Seq<char>, d: int, le: int) -> Option<(ValueView, int)> {
    if !(0 <= d && d < le && le <= t.len()) {
        None
    } else if t[d] == '"' {
        let j = spec_scan_to(t, d + 1, le, '"');
        if j < le {
            Some((ValueView::Text(t.subrange(d + 1, j)), j + 1))
        } else {
            None
        }
    } else if t[d] == '[' {
        match spec_list(t, d + 1, le, Seq::empty(), ListScanView::Seek) {
            Some((items, n)) => Some((ValueView::Items(items), n)),
            None => None,
        }
    } else if d + 4 <= le && t[d] == 't' && t[d + 1] == 'r' && t[d + 2] == 'u' && t[d + 3] == 'e' {
        Some((ValueView::Flag(true), d + 4))
    } else if d + 5 <= le && t[d] == 'f' && t[d + 1] == 'a' && t[d + 2] == 'l' && t[d + 3] == 's'
        && t[d + 4] == 'e' {
        Some((ValueView::Flag(false), d + 5))
    } else if is_digit(t[d]) || (t[d] == '-' && d + 2 <= le && is_digit(t[d + 1])) {
        let j = spec_scan_digits(
            t,
            if t[d] == '-' {
                d + 1
            } else {
                d
            },
            le,
        );
        Some((ValueView::Number(t.subrange(d, j)), j))
    } else {
        None
    }
}

/// What one line of the manifest means.
pub enum LineView {
    Blank,
    Header(Seq<char>),
    Entry(Seq<char>, ValueView),
    Bad,
}

/// The meaning of the line spanning `[ls, le)`.
pub open spec fn spec_line(t: Seq<char>, ls: int, le: int) -> LineView {
    let a = spec_skip_ws(t, ls, le);
    if a >= le || le > t.len() || a < 0 {
        LineView::Blank
    } else if t[a] == '#' {
        LineView::Blank
    } else if t[a] == '[' {
        let b = spec_scan_key(t, a + 1, le);
        if b > a + 1 && b < le && t[b] == ']' && spec_rest_ok(t, b + 1, le) {
            LineView::Header(t.subrange(a + 1, b))
        } else {
            LineView::Bad
        }
    } else {
        let b = spec_scan_key(t, a, le);
        if b == a {
            LineView::Bad
        } else {
            let c = spec_skip_ws(t, b, le);
            if c >= le || t[c] != '=' {
                LineView::Bad
            } else {
                match spec_value(t, spec_skip_ws(t, c + 1, le), le) {
                    None => LineView::Bad,
                    Some((v, n)) => if spec_rest_ok(t, n, le) {
                        LineView::Entry(t.subrange(a, b), v)
                    } else {
                        LineView::Bad
                    },
                }
            }
        }
    }
}

pub open spec fn close_sections(
    secs: Seq<SectionView>,
    cur: Option<SectionView>,
) -> Seq<SectionView> {
    match cur {
        Some(s) => secs.push(s),
        None => secs,
    }
}

/// The document denoted by the text from position `i` on, given the entries
/// and sections gathered so far and the section still open, if any.
pub open spec fn spec_build(
    t: Seq<char>,
    i: int,
    top: Seq<EntryView>,
    secs: Seq<SectionView>,
    cur: Option<SectionView>,
) -> Option<DocumentView>
    decreases t.len() - i + 1,
    when 0 <= i
    via spec_build_decreases
{
    if i >= t.len() {
        Some(DocumentView { top, sections: close_sections(secs, cur) })
    } else {
        let le = spec_line_end(t, i);
        match spec_line(t, i, le) {
            LineView::Bad => None,
            LineView::Blank => spec_build(t, le + 1, top, secs, cur),
            LineView::Header(n) => spec_build(
                t,
                le + 1,
                top,
                close_sections(secs, cur),
                Some(SectionView { name: n, entries: Seq::empty() }),
            ),
            LineView::Entry(k, v) => {
                let e = EntryView { key: k, value: v };
                match cur {
                    None => spec_build(t, le + 1, top.push(e), secs, None),
                    Some(sec) => spec_build(
                        t,
                        le + 1,
                        top,
                        secs,
                        Some(SectionView { name: sec.name, entries: sec.entries.push(e) }),
                    ),
                }
            },
        }
    }
}

#[via_fn]
proof fn spec_build_decreases(
    t: Seq<char>,
    i: int,
    top: Seq<EntryView>,
    secs: Seq<SectionView>,
    cur: Option<SectionView>,
) {
    if 0 <= i && i < t.len() {
        lemma_line_end_bounds(t, i);
    }
}

/// The document the whole text denotes, if it is well formed.
pub open spec fn spec_document(t: Seq<char>) -> Option<DocumentView> {
    spec_build(t, 0, Seq::empty(), Seq::empty(), None)
}

fn char_is_ws(c: char) -> (b: bool)
    ensures
        b == is_ws(c),
{
    c == ' ' || c == '\t' || c == '\r'
}

fn char_is_key(c: char) -> (b: bool)
    ensures
        b == is_key_char(c),
{
    (c >= 'a' && c <= 'z') || (c >= 'A' && c <= 'Z') || (c >= '0' && c <= '9') || c == '_'
        || c == '-'
}

fn exec_skip_ws(s: &str, i: usize, le: usize) -> (r: usize)
    requires
        i <= le <= s@.len(),
    ensures
        r as int == spec_skip_ws(s@, i as int, le as int),
        i <= r <= le,
{
    let mut j: usize = i;
    while j < le && char_is_ws(s.get_char(j))
        invariant
            i <= j <= le,
            le <= s@.len(),
            spec_skip_ws(s@, i as int, le as int) == spec_skip_ws(s@, j as int, le as int),
        decreases le - j,
    {
        j += 1;
    }
    j
}

fn exec_scan_key(s: &str, i: usize, le: usize) -> (r: usize)
    requires
        i <= le <= s@.len(),
    ensures
        r as int == spec_scan_key(s@, i as int, le as int),
        i <= r <= le,
{
    let mut j: usize = i;
    while j < le && char_is_key(s.get_char(j))
        invariant
            i <= j <= le,
            le <= s@.len(),
            spec_scan_key(s@, i as int, le as int) == spec_scan_key(s@, j as int, le as int),
        decreases le - j,
    {
        j += 1;
    }
    j
}

fn exec_scan_to(s: &str, i: usize, le: usize, c: char) -> (r: usize)
    requires
        i <= le <= s@.len(),
    ensures
        r as int == spec_scan_to(s@, i as int, le as int, c),
        i <= r <= le,
{
    let mut j: usize = i;
    while j < le && s.get_char(j) != c
        invariant
            i <= j <= le,
            le <= s@.len(),
            spec_scan_to(s@, i as int, le as int, c) == spec_scan_to(s@, j as int, le as int, c),
        decreases le - j,
    {
        j += 1;
    }
    j
}

fn char_is_digit(c: char) -> (b: bool)
    ensures
        b == is_digit(c),
{
    c >= '0' && c <= '9'
}

fn exec_scan_digits(s: &str, i: usize, le: usize) -> (r: usize)
    requires
        i <= le <= s@.len(),
    ensures
        r as int == spec_scan_digits(s@, i as int, le as int),
        i <= r <= le,
{
    let mut j: usize = i;
    while j < le && char_is_digit(s.get_char(j))
        invariant
            i <= j <= le,
            le <= s@.len(),
            spec_scan_digits(s@, i as int, le as int) == spec_scan_digits(s@, j as int, le as int),
        decreases le - j,
    {
        j += 1;
    }
    j
}

fn exec_line_end(s: &str, i: usize) -> (r: usize)
    requires
        i <= s@.len(),
    ensures
        r as int == spec_line_end(s@, i as int),
        i <= r <= s@.len(),
{
    let n = s.unicode_len();
    let mut j: usize = i;
    while j < n && s.get_char(j) != '\n'
        invariant
            i <= j <= n,
            n == s@.len(),
            spec_line_end(s@, i as int) == spec_line_end(s@, j as int),
        decreases n - j,
    {
        j += 1;
    }
    j
}

fn exec_rest_ok(s: &str, i: usize, le: usize) -> (r: bool)
    requires
        i <= le <= s@.len(),
    ensures
        r == spec_rest_ok(s@, i as int, le as int),
{
    let j = exec_skip_ws(s, i, le);
    j >= le || s.get_char(j) == '#'
}

enum ListScan {
    Seek,
    InText(usize),
    AfterText,
}

impl ListScan {
    spec fn view_at(&self) -> ListScanView {
        match self {
            ListScan::Seek => ListScanView::Seek,
            ListScan::InText(p) => ListScanView::InText(*p as int),
            ListScan::AfterText => ListScanView::AfterText,
        }
    }
}

/// Parses a bracketed list of quoted strings, starting just inside the brackets.
fn parse_list(s: &str, i0: usize, le: usize) -> (r: Option<(Vec<String>, usize)>)
    requires
        i0 <= le <= s@.len(),
    ensures
        match spec_list(s@, i0 as int, le as int, Seq::empty(), ListScanView::Seek) {
            Some(p) => r is Some && views_of_strings(r.unwrap().0@) == p.0 && r.unwrap().1 as int
                == p.1,
            None => r is None,
        },
{
    let mut acc: Vec<String> = Vec::new();
    let mut st = ListScan::Seek;
    let mut i: usize = i0;
    proof {
        assert(views_of_strings(acc@) =~= Seq::<Seq<char>>::empty());
    }
    while i < le
        invariant
            i0 <= i <= le,
            le <= s@.len(),
            st matches ListScan::InText(p) ==> i0 < p <= i,
            spec_list(s@, i as int, le as int, views_of_strings(acc@), st.view_at())
                == spec_list(s@, i0 as int, le as int, Seq::empty(), ListScanView::Seek),
        decreases le - i,
    {
        let c = s.get_char(i);
        match st {
            ListScan::Seek => {
                if c == ']' {
                    return Some((acc, i + 1));
                } else if c == '"' {
                    st = ListScan::InText(i + 1);
                } else if char_is_ws(c) {
                } else {
                    return None;
                }
            },
            ListScan::InText(p) => {
                if c == '"' {
                    let item = s.substring_char(p, i).to_owned();
                    let ghost prev = acc@;
                    acc.push(item);
                    proof {
                        lemma_views_of_strings_push(prev, acc@[prev.len() as int]);
                        assert(views_of_strings(acc@) =~= views_of_strings(prev).push(
                            s@.subrange(p as int, i as int),
                        ));
                    }
                    st = ListScan::AfterText;
                } else {
                    st = ListScan::InText(p);
                }
            },
            ListScan::AfterText => {
                if c == ',' {
                    st = ListScan::Seek;
                } else if c == ']' {
                    return Some((acc, i + 1));
                } else if char_is_ws(c) {
                } else {
                    return None;
                }
            },
        }
        i += 1;
    }
    None
}

/// Element-wise view of pushing one string.
proof fn lemma_views_of_strings_push(v: Seq<String>, x: String)
    ensures
        views_of_strings(v.push(x)) == views_of_strings(v).push(x@),
{
    assert forall|i: int| 0 <= i < v.push(x).len() implies views_of_strings(v.push(x))[i]
        == views_of_strings(v).push(x@)[i] by {
        assert(views_of_strings(v.push(x))[i] == v.push(x)[i]@);
        if i < v.len() {
            assert(v.push(x)[i] == v[i]);
            assert(views_of_strings(v)[i] == v[i]@);
        }
    }
    assert(views_of_strings(v.push(x)) =~= views_of_strings(v).push(x@));
}

/// Parses the value starting at `d`, returning it with the position after it.
fn parse_value(s: &str, d: usize, le: usize) -> (r: Option<(RawValue, usize)>)
    requires
        d <= le <= s@.len(),
    ensures
        match spec_value(s@, d as int, le as int) {
            Some(p) => r is Some && r.unwrap().0@ == p.0 && r.unwrap().1 as int == p.1
                && r.unwrap().1 <= le,
            None => r is None,
        },
{
    if d >= le {
        return None;
    }
    let c = s.get_char(d);
    if c == '"' {
        let j = exec_scan_to(s, d + 1, le, '"');
        if j < le {
            Some((RawValue::Text(s.substring_char(d + 1, j).to_owned()), j + 1))
        } else {
            None
        }
    } else if c == '[' {
        match parse_list(s, d + 1, le) {
            Some((items, n)) => {
                proof {
                    lemma_list_end_bounds(s@, d as int + 1, le as int, Seq::empty(),
                        ListScanView::Seek);
                }
                Some((RawValue::Items(items), n))
            },
            None => None,
        }
    } else if c == 't' && le - d >= 4 && s.get_char(d + 1) == 'r' && s.get_char(d + 2) == 'u'
        && s.get_char(d + 3) == 'e' {
        Some((RawValue::Flag(true), d + 4))
    } else if c == 'f' && le - d >= 5 && s.get_char(d + 1) == 'a' && s.get_char(d + 2) == 'l'
        && s.get_char(d + 3) == 's' && s.get_char(d + 4) == 'e' {
        Some((RawValue::Flag(false), d + 5))
    } else if char_is_digit(c) || (c == '-' && le - d >= 2 && char_is_digit(s.get_char(d + 1))) {
        let first = if c == '-' {
            d + 1
        } else {
            d
        };
        let j = exec_scan_digits(s, first, le);
        Some((RawValue::Number(s.substring_char(d, j).to_owned()), j))
    } else {
        None
    }
}

/// A successful list scan never ends past the line it scans.
proof fn lemma_list_end_bounds(
    t: Seq<char>,
    i: int,
    le: int,
    acc: Seq<Seq<char>>,
    st: ListScanView,
)
    ensures
        spec_list(t, i, le, acc, st) matches Some(p) ==> p.1 <= le,
    decreases le - i,
{
    if 0 <= i && i < le && le <= t.len() {
        let c = t[i];
        match st {
            ListScanView::Seek => {
                if c == ']' {
                } else if c == '"' {
                    lemma_list_end_bounds(t, i + 1, le, acc, ListScanView::InText(i + 1));
                } else if is_ws(c) {
                    lemma_list_end_bounds(t, i + 1, le, acc, ListScanView::Seek);
                }
            },
            ListScanView::InText(p) => {
                if c == '"' {
                    lemma_list_end_bounds(t, i + 1, le, acc.push(t.subrange(p, i)),
                        ListScanView::AfterText);
                } else {
                    lemma_list_end_bounds(t, i + 1, le, acc, ListScanView::InText(p));
                }
            },
            ListScanView::AfterText => {
                if c == ',' {
                    lemma_list_end_bounds(t, i + 1, le, acc, ListScanView::Seek);
                } else if c == ']' {
                } else if is_ws(c) {
                    lemma_list_end_bounds(t, i + 1, le, acc, ListScanView::AfterText);
                }
            },
        }
    }
}

/// What one parsed line of the manifest holds.
pub enum LineParse {
    Blank,
    Header(String),
    Entry(String, RawValue),
    Bad,
}

impl View for LineParse {
    type V = LineView;

    open spec fn view(&self) -> LineView {
        match self {
            LineParse::Blank => LineView::Blank,
            LineParse::Header(n) => LineView::Header(n@),
            LineParse::Entry(k, v) => LineView::Entry(k@, v@),
            LineParse::Bad => LineView::Bad,
        }
    }
}

/// Parses the line spanning `[ls, le)`.
fn parse_line(s: &str, ls: usize, le: usize) -> (r: LineParse)
    requires
        ls <= le <= s@.len(),
    ensures
        r@ == spec_line(s@, ls as int, le as int),
{
    let a = exec_skip_ws(s, ls, le);
    if a >= le {
        return LineParse::Blank;
    }
    let c = s.get_char(a);
    if c == '#' {
        return LineParse::Blank;
    }
    if c == '[' {
        let b = exec_scan_key(s, a + 1, le);
        if b > a + 1 && b < le && s.get_char(b) == ']' && exec_rest_ok(s, b + 1, le) {
            return LineParse::Header(s.substring_char(a + 1, b).to_owned());
        }
        return LineParse::Bad;
    }
    let b = exec_scan_key(s, a, le);
    if b == a {
        return LineParse::Bad;
    }
    let cp = exec_skip_ws(s, b, le);
    if cp >= le || s.get_char(cp) != '=' {
        return LineParse::Bad;
    }
    let d = exec_skip_ws(s, cp + 1, le);
    match parse_value(s, d, le) {
        None => LineParse::Bad,
        Some((v, n)) => {
            if exec_rest_ok(s, n, le) {
                LineParse::Entry(s.substring_char(a, b).to_owned(), v)
            } else {
                LineParse::Bad
            }
        },
    }
}

pub open spec fn view_of_cur(cur: Option<RawSection>) -> Option<SectionView> {
    match cur {
        Some(s) => Some(s@),
        None => None,
    }
}

proof fn lemma_views_of_entries_push(v: Seq<RawEntry>, x: RawEntry)
    ensures
        views_of_entries(v.push(x)) == views_of_entries(v).push(x@),
{
    assert forall|i: int| 0 <= i < v.push(x).len() implies views_of_entries(v.push(x))[i]
        == views_of_entries(v).push(x@)[i] by {
        assert(views_of_entries(v.push(x))[i] == v.push(x)[i]@);
        if i < v.len() {
            assert(v.push(x)[i] == v[i]);
            assert(views_of_entries(v)[i] == v[i]@);
        }
    }
    assert(views_of_entries(v.push(x)) =~= views_of_entries(v).push(x@));
}

proof fn lemma_views_of_sections_push(v: Seq<RawSection>, x: RawSection)
    ensures
        views_of_sections(v.push(x)) == views_of_sections(v).push(x@),
{
    assert forall|i: int| 0 <= i < v.push(x).len() implies views_of_sections(v.push(x))[i]
        == views_of_sections(v).push(x@)[i] by {
        assert(views_of_sections(v.push(x))[i] == v.push(x)[i]@);
        if i < v.len() {
            assert(v.push(x)[i] == v[i]);
            assert(views_of_sections(v)[i] == v[i]@);
        }
    }
    assert(views_of_sections(v.push(x)) =~= views_of_sections(v).push(x@));
}

/// Parses a whole manifest text into the generic document, or nothing where
/// the text is not well formed under the format above. The format is the
/// subset of a manifest's surface that the schema reads — quoted strings
/// without escapes, booleans, string lists, integer-shaped numbers, plain
/// `[name]` headers — so a manifest leaning on more (escaped quotes, dotted
/// or nested sections, dates) is reported as invalid rather than resolved.
pub fn parse_document(s: &str) -> (r: Option<RawDocument>)
    ensures
        match spec_document(s@) {
            Some(d) => r is Some && r.unwrap()@ == d,
            None => r is None,
        },
{
    let n = s.unicode_len();
    let mut top: Vec<RawEntry> = Vec::new();
    let mut secs: Vec<RawSection> = Vec::new();
    let mut cur: Option<RawSection> = None;
    let mut i: usize = 0;
    proof {
        assert(views_of_entries(top@) =~= Seq::<EntryView>::empty());
        assert(views_of_sections(secs@) =~= Seq::<SectionView>::empty());
    }
    while i < n
        invariant
            i <= n,
            n == s@.len(),
            spec_build(s@, i as int, views_of_entries(top@), views_of_sections(secs@),
                view_of_cur(cur)) == spec_document(s@),
        decreases n - i,
    {
        let le = exec_line_end(s, i);
        let ghost old_top = views_of_entries(top@);
        let ghost old_secs = views_of_sections(secs@);
        let ghost old_cur = view_of_cur(cur);
        match parse_line(s, i, le) {
            LineParse::Bad => {
                return None;
            },
            LineParse::Blank => {},
            LineParse::Header(name) => {
                let prev = cur;
                let fresh: Vec<RawEntry> = Vec::new();
                proof {
                    assert(views_of_entries(fresh@) =~= Seq::<EntryView>::empty());
                }
                cur = Some(RawSection { name, entries: fresh });
                if let Some(sec) = prev {
                    let ghost pv = secs@;
                    secs.push(sec);
                    proof {
                        lemma_views_of_sections_push(pv, secs@[pv.len() as int]);
                    }
                }
                proof {
                    assert(views_of_sections(secs@) == close_sections(old_secs, old_cur));
                }
            },
            LineParse::Entry(key, value) => {
                let e = RawEntry { key, value };
                match cur {
                    None => {
                        let ghost pv = top@;
                        top.push(e);
                        proof {
                            lemma_views_of_entries_push(pv, top@[pv.len() as int]);
                        }
                        cur = None;
                    },
                    Some(mut sec) => {
                        let ghost pv = sec.entries@;
                        sec.entries.push(e);
                        proof {
                            lemma_views_of_entries_push(pv, sec.entries@[pv.len() as int]);
                        }
                        cur = Some(sec);
                    },
                }
            },
        }
        proof {
            if le as int + 1 > n as int {
                assert(spec_build(s@, le as int + 1, views_of_entries(top@),
                    views_of_sections(secs@), view_of_cur(cur)) == spec_build(s@, n as int,
                    views_of_entries(top@), views_of_sections(secs@), view_of_cur(cur)));
            }
        }
        i = if le < n {
            le + 1
        } else {
            n
        };
    }
    if let Some(sec) = cur {
        let ghost pv = secs@;
        secs.push(sec);
        proof {
            lemma_views_of_sections_push(pv, secs@[pv.len() as int]);
        }
    }
    Some(RawDocument { top, sections: secs })
}

} // verus!
