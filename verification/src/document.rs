//! The generic, loosely typed document a manifest is first parsed into,
//! before any archetype- or language-specific validation looks at it.

use vstd::prelude::*;
use crate::strutil::str_eq;

verus! {

/// A value a manifest entry can carry: a quoted string, a boolean, a list
/// of quoted strings, or an integer-shaped number, kept as its digits (no
/// field of the schema is numeric, so such an entry counts as absent).
#[derive(Debug)]
pub enum RawValue {
    Text(String),
    Flag(bool),
    Items(Vec<String>),
    Number(String),
}

/// One `key = value` entry of a manifest.
#[derive(Debug)]
pub struct RawEntry {
    pub key: String,
    pub value: RawValue,
}

/// One named `[section]` of a manifest with the entries below it.
#[derive(Debug)]
pub struct RawSection {
    pub name: String,
    pub entries: Vec<RawEntry>,
}

/// A whole manifest: the entries above the first section header, then the
/// sections in order of appearance. No schema has been applied yet.
#[derive(Debug)]
pub struct RawDocument {
    pub top: Vec<RawEntry>,
    pub sections: Vec<RawSection>,
}

pub enum ValueView {
    Text(Seq<char>),
    Flag(bool),
    Items(Seq<Seq<char>>),
    Number(Seq<char>),
}

pub struct EntryView {
    pub key: Seq<char>,
    pub value: ValueView,
}

pub struct SectionView {
    pub name: Seq<char>,
    pub entries: Seq<EntryView>,
}

pub struct DocumentView {
    pub top: Seq<EntryView>,
    pub sections: Seq<SectionView>,
}

pub open spec fn views_of_strings(v: Seq<String>) -> Seq<Seq<char>> {
    v.map_values(|s: String| s@)
}

pub open spec fn views_of_entries(v: Seq<RawEntry>) -> Seq<EntryView> {
    v.map_values(|e: RawEntry| e@)
}

pub open spec fn views_of_sections(v: Seq<RawSection>) -> Seq<SectionView> {
    v.map_values(|s: RawSection| s@)
}

impl View for RawValue {
    type V = ValueView;

    open spec fn view(&self) -> ValueView {
        match self {
            RawValue::Text(s) => ValueView::Text(s@),
            RawValue::Flag(b) => ValueView::Flag(*b),
            RawValue::Items(v) => ValueView::Items(views_of_strings(v@)),
            RawValue::Number(n) => ValueView::Number(n@),
        }
    }
}

impl View for RawEntry {
    type V = EntryView;

    open spec fn view(&self) -> EntryView {
        EntryView { key: self.key@, value: self.value@ }
    }
}

impl View for RawSection {
    type V = SectionView;

    open spec fn view(&self) -> SectionView {
        SectionView { name: self.name@, entries: views_of_entries(self.entries@) }
    }
}

impl View for RawDocument {
    type V = DocumentView;

    open spec fn view(&self) -> DocumentView {
        DocumentView {
            top: views_of_entries(self.top@),
            sections: views_of_sections(self.sections@),
        }
    }
}

/// The value of the first entry named `k`, if any.
pub open spec fn find_value(es: Seq<EntryView>, k: Seq<char>) -> Option<ValueView>
    decreases es.len(),
{
    if es.len() == 0 {
        None
    } else if es[0].key == k {
        Some(es[0].value)
    } else {
        find_value(es.drop_first(), k)
    }
}

/// The entries of the first section named `n`, if any.
pub open spec fn find_section(ss: Seq<SectionView>, n: Seq<char>) -> Option<Seq<EntryView>>
    decreases ss.len(),
{
    if ss.len() == 0 {
        None
    } else if ss[0].name == n {
        Some(ss[0].entries)
    } else {
        find_section(ss.drop_first(), n)
    }
}

/// The string carried by entry `k`; an entry of another kind counts as absent.
pub open spec fn str_value(es: Seq<EntryView>, k: Seq<char>) -> Option<Seq<char>> {
    match find_value(es, k) {
        Some(ValueView::Text(s)) => Some(s),
        _ => None,
    }
}

/// The boolean carried by entry `k`; an entry of another kind counts as absent.
pub open spec fn bool_value(es: Seq<EntryView>, k: Seq<char>) -> Option<bool> {
    match find_value(es, k) {
        Some(ValueView::Flag(b)) => Some(b),
        _ => None,
    }
}

/// The string list carried by entry `k`; an entry of another kind counts as absent.
pub open spec fn list_value(es: Seq<EntryView>, k: Seq<char>) -> Option<Seq<Seq<char>>> {
    match find_value(es, k) {
        Some(ValueView::Items(v)) => Some(v),
        _ => None,
    }
}

/// The entries of section `n`, or no entries where the section is absent.
pub open spec fn section_or_empty(doc: DocumentView, n: Seq<char>) -> Seq<EntryView> {
    match find_section(doc.sections, n) {
        Some(es) => es,
        None => Seq::empty(),
    }
}

/// First entry named `k` among `es`, by linear search.
pub fn lookup_value<'a>(es: &'a Vec<RawEntry>, k: &str) -> (r: Option<&'a RawValue>)
    ensures
        match find_value(views_of_entries(es@), k@) {
            Some(v) => r is Some && r.unwrap()@ == v,
            None => r is None,
        },
{
    let ghost evs = views_of_entries(es@);
    proof {
        assert(evs.skip(0) =~= evs);
    }
    let mut j: usize = 0;
    while j < es.len()
        invariant
            j <= es@.len(),
            evs == views_of_entries(es@),
            evs.len() == es@.len(),
            find_value(evs, k@) == find_value(evs.skip(j as int), k@),
        decreases es@.len() - j,
    {
        proof {
            assert(evs.skip(j as int)[0] == evs[j as int]);
            assert(evs.skip(j as int).drop_first() =~= evs.skip(j as int + 1));
        }
        if str_eq(es[j].key.as_str(), k) {
            return Some(&es[j].value);
        }
        j += 1;
    }
    proof {
        assert(evs.skip(j as int) =~= Seq::<EntryView>::empty());
    }
    None
}

/// First section named `n`, by linear search.
pub fn lookup_section<'a>(doc: &'a RawDocument, n: &str) -> (r: Option<&'a Vec<RawEntry>>)
    ensures
        match find_section(doc@.sections, n@) {
            Some(es) => r is Some && views_of_entries(r.unwrap()@) == es,
            None => r is None,
        },
{
    let ghost svs = views_of_sections(doc.sections@);
    proof {
        assert(svs.skip(0) =~= svs);
    }
    let mut j: usize = 0;
    while j < doc.sections.len()
        invariant
            j <= doc.sections@.len(),
            svs == doc@.sections,
            svs.len() == doc.sections@.len(),
            find_section(svs, n@) == find_section(svs.skip(j as int), n@),
        decreases doc.sections@.len() - j,
    {
        proof {
            assert(svs.skip(j as int)[0] == svs[j as int]);
            assert(svs.skip(j as int).drop_first() =~= svs.skip(j as int + 1));
        }
        if str_eq(doc.sections[j].name.as_str(), n) {
            return Some(&doc.sections[j].entries);
        }
        j += 1;
    }
    proof {
        assert(svs.skip(j as int) =~= Seq::<SectionView>::empty());
    }
    None
}

/// The string of entry `k` as an owned copy, per `str_value`.
pub fn lookup_str(es: &Vec<RawEntry>, k: &str) -> (r: Option<String>)
    ensures
        match str_value(views_of_entries(es@), k@) {
            Some(s) => r is Some && r.unwrap()@ == s,
            None => r is None,
        },
{
    match lookup_value(es, k) {
        Some(RawValue::Text(s)) => Some(s.clone()),
        _ => None,
    }
}

/// The boolean of entry `k`, per `bool_value`.
pub fn lookup_bool(es: &Vec<RawEntry>, k: &str) -> (r: Option<bool>)
    ensures
        r == bool_value(views_of_entries(es@), k@),
{
    match lookup_value(es, k) {
        Some(RawValue::Flag(b)) => Some(*b),
        _ => None,
    }
}

/// The string list of entry `k` as an owned copy, per `list_value`.
pub fn lookup_list(es: &Vec<RawEntry>, k: &str) -> (r: Option<Vec<String>>)
    ensures
        match list_value(views_of_entries(es@), k@) {
            Some(v) => r is Some && views_of_strings(r.unwrap()@) == v,
            None => r is None,
        },
{
    match lookup_value(es, k) {
        Some(RawValue::Items(v)) => Some(clone_strings(v)),
        _ => None,
    }
}

/// An element-wise copy of a vector of strings.
pub fn clone_strings(v: &Vec<String>) -> (r: Vec<String>)
    ensures
        views_of_strings(r@) == views_of_strings(v@),
{
    let mut out: Vec<String> = Vec::new();
    let mut j: usize = 0;
    while j < v.len()
        invariant
            j <= v@.len(),
            views_of_strings(out@) =~= views_of_strings(v@).take(j as int),
        decreases v@.len() - j,
    {
        let ghost prev = out@;
        out.push(v[j].clone());
        proof {
            assert(views_of_strings(prev).len() == prev.len());
            assert(views_of_strings(v@).take(j as int).len() == j as int);
            assert(prev.len() == j as int);
            assert(out@ == prev.push(out@[j as int]));
            assert(out@.len() == j as int + 1);
            assert forall|i: int| 0 <= i < out@.len() implies views_of_strings(out@)[i]
                == views_of_strings(v@).take(j as int + 1)[i] by {
                assert(views_of_strings(out@)[i] == out@[i]@);
                assert(views_of_strings(v@)[i] == v@[i]@);
                if i < j as int {
                    assert(out@[i] == prev[i]);
                    assert(views_of_strings(prev)[i] == prev[i]@);
                    assert(views_of_strings(prev)[i] == views_of_strings(v@).take(j as int)[i]);
                }
            }
            assert(views_of_strings(out@) =~= views_of_strings(v@).take(j as int + 1));
        }
        j += 1;
    }
    proof {
        assert(views_of_strings(v@).take(v@.len() as int) =~= views_of_strings(v@));
    }
    out
}

} // verus!
