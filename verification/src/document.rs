//! Schema-less documents: the tree of values that settings, message trees and
//! command payloads are made of.

use vstd::prelude::*;
use crate::text::str_eq;

verus! {

/// A number of a document. A real number is held by its IEEE-754 bits, so that
/// it passes through unchanged.
#[derive(Clone, Copy, Debug, PartialEq, Eq)]
pub enum Numeral {
    Unsigned(u64),
    Negative(i64),
    Real(u64),
}

/// The mathematical value of a [`Document`].
pub enum DocView {
    Null,
    Bool(bool),
    Number(Numeral),
    Text(Seq<char>),
    List(Seq<DocView>),
    Record(Seq<(Seq<char>, DocView)>),
}

/// A schema-less value. A record is a list of named entries; a name is looked
/// up from the front, so of two entries with one name the first counts.
#[derive(Debug, PartialEq, Eq)]
pub enum Document {
    Null,
    Bool(bool),
    Number(Numeral),
    Text(String),
    List(Vec<Document>),
    Record(Vec<(String, Document)>),
}

/// The values of a list of documents.
pub open spec fn list_view(items: Seq<Document>) -> Seq<DocView>
    decreases items,
{
    Seq::new(
        items.len(),
        |i: int|
            if 0 <= i < items.len() {
                items[i].view()
            } else {
                DocView::Null
            },
    )
}

/// The values of the entries of a record.
pub open spec fn entries_view(entries: Seq<(String, Document)>) -> Seq<(Seq<char>, DocView)>
    decreases entries,
{
    Seq::new(
        entries.len(),
        |i: int|
            if 0 <= i < entries.len() {
                (entries[i].0@, entries[i].1.view())
            } else {
                (Seq::empty(), DocView::Null)
            },
    )
}

impl View for Document {
    type V = DocView;

    open spec fn view(&self) -> DocView
        decreases self,
    {
        match self {
            Document::Null => DocView::Null,
            Document::Bool(b) => DocView::Bool(*b),
            Document::Number(n) => DocView::Number(*n),
            Document::Text(s) => DocView::Text(s@),
            Document::List(items) => DocView::List(list_view(items@)),
            Document::Record(entries) => DocView::Record(entries_view(entries@)),
        }
    }
}

/// The value of an optional document.
pub open spec fn opt_doc(item: Option<Document>) -> Option<DocView> {
    match item {
        Some(d) => Some(d@),
        None => None,
    }
}

/// The value of an optional reference to a document.
pub open spec fn opt_ref(item: Option<&Document>) -> Option<DocView> {
    match item {
        Some(d) => Some(d@),
        None => None,
    }
}

/// The position of the first entry named `key`.
pub open spec fn find_key(entries: Seq<(Seq<char>, DocView)>, key: Seq<char>) -> Option<int>
    decreases entries.len(),
{
    if entries.len() == 0 {
        None
    } else if entries.last().0 == key && find_key(entries.drop_last(), key) is None {
        Some(entries.len() - 1)
    } else {
        find_key(entries.drop_last(), key)
    }
}

/// The entries with the entry named `key` set to `value`: replaced where the
/// name occurs, added at the end where it does not.
pub open spec fn set_key(
    entries: Seq<(Seq<char>, DocView)>,
    key: Seq<char>,
    value: DocView,
) -> Seq<(Seq<char>, DocView)> {
    match find_key(entries, key) {
        Some(i) => entries.update(i, (key, value)),
        None => entries.push((key, value)),
    }
}

/// The value of the first entry named `key`.
pub open spec fn lookup(entries: Seq<(Seq<char>, DocView)>, key: Seq<char>) -> Option<DocView> {
    match find_key(entries, key) {
        Some(i) => Some(entries[i].1),
        None => None,
    }
}

/// The entries with one more at the end, where there is a value to add.
#[verifier::opaque]
pub open spec fn put(
    entries: Seq<(Seq<char>, DocView)>,
    key: Seq<char>,
    value: Option<DocView>,
) -> Seq<(Seq<char>, DocView)> {
    match value {
        Some(v) => entries.push((key, v)),
        None => entries,
    }
}

/// The entries of a record that is written from a list of names, each with
/// the value to write or with nothing: the names that have a value, in the
/// order of the list.
pub open spec fn build(fields: Seq<(Seq<char>, Option<DocView>)>) -> Seq<(Seq<char>, DocView)>
    decreases fields.len(),
{
    if fields.len() == 0 {
        Seq::empty()
    } else {
        put(build(fields.drop_last()), fields.last().0, fields.last().1)
    }
}

/// Whether the names of a list of fields are pairwise different.
pub open spec fn distinct_names(fields: Seq<(Seq<char>, Option<DocView>)>) -> bool {
    forall|a: int, b: int|
        0 <= a < fields.len() && 0 <= b < fields.len() && a != b ==> (#[trigger] fields[a]).0 != (
        #[trigger] fields[b]).0
}

impl DocView {
    /// The text of a text document.
    pub open spec fn as_text(self) -> Option<Seq<char>> {
        match self {
            DocView::Text(s) => Some(s),
            _ => None,
        }
    }

    /// The items of a list document.
    pub open spec fn as_list(self) -> Option<Seq<DocView>> {
        match self {
            DocView::List(items) => Some(items),
            _ => None,
        }
    }

    /// The value of a number that is a non-negative integer.
    pub open spec fn as_unsigned(self) -> Option<u64> {
        match self {
            DocView::Number(Numeral::Unsigned(n)) => Some(n),
            _ => None,
        }
    }

    /// The value of the first entry named `key`, where this is a record that
    /// has one.
    pub open spec fn get(self, key: Seq<char>) -> Option<DocView> {
        match self {
            DocView::Record(entries) => lookup(entries, key),
            _ => None,
        }
    }

    /// The text of the entry named `key`, where it is a text.
    pub open spec fn get_text(self, key: Seq<char>) -> Option<Seq<char>> {
        match self.get(key) {
            Some(DocView::Text(s)) => Some(s),
            _ => None,
        }
    }
}

/// What `find_key` finds: the first position with the name, or nothing where
/// no entry has the name.
pub proof fn lemma_find_key(entries: Seq<(Seq<char>, DocView)>, key: Seq<char>)
    ensures
        match find_key(entries, key) {
            Some(i) => 0 <= i < entries.len() && entries[i].0 == key && forall|j: int|
                0 <= j < i ==> (#[trigger] entries[j]).0 != key,
            None => forall|j: int| 0 <= j < entries.len() ==> (#[trigger] entries[j]).0 != key,
        },
    decreases entries.len(),
{
    if entries.len() > 0 {
        let front = entries.drop_last();
        lemma_find_key(front, key);
        assert(forall|j: int| 0 <= j < front.len() ==> front[j] == entries[j]);
    }
}

/// A position that holds the name and has no earlier entry with it is the one
/// that `find_key` finds.
pub proof fn lemma_find_key_is(entries: Seq<(Seq<char>, DocView)>, key: Seq<char>, i: int)
    requires
        0 <= i < entries.len(),
        entries[i].0 == key,
        forall|j: int| 0 <= j < i ==> (#[trigger] entries[j]).0 != key,
    ensures
        find_key(entries, key) == Some(i),
{
    lemma_find_key(entries, key);
}

/// Where no entry has the name, `find_key` finds nothing.
pub proof fn lemma_find_key_none(entries: Seq<(Seq<char>, DocView)>, key: Seq<char>)
    requires
        forall|j: int| 0 <= j < entries.len() ==> (#[trigger] entries[j]).0 != key,
    ensures
        find_key(entries, key) is None,
{
    lemma_find_key(entries, key);
}

/// Looking a name up after an entry was added at the end: an earlier entry
/// with the name still counts; else the new entry, where it has the name.
pub proof fn lemma_lookup_put(
    entries: Seq<(Seq<char>, DocView)>,
    k: Seq<char>,
    v: Option<DocView>,
    key: Seq<char>,
)
    ensures
        lookup(put(entries, k, v), key) == (match lookup(entries, key) {
            Some(x) => Some(x),
            None => if k == key {
                v
            } else {
                None
            },
        }),
{
    reveal(put);
    lemma_find_key(entries, key);
    if v is Some {
        assert(entries.push((k, v->0)).drop_last() =~= entries);
    }
}

/// One more field at the end of the list is one more `put`.
pub proof fn lemma_build_push(
    fields: Seq<(Seq<char>, Option<DocView>)>,
    name: Seq<char>,
    value: Option<DocView>,
)
    ensures
        build(fields.push((name, value))) == put(build(fields), name, value),
{
    assert(fields.push((name, value)).drop_last() =~= fields);
}

/// A name that no field has is not in the record built from the fields.
pub proof fn lemma_build_lookup_none(fields: Seq<(Seq<char>, Option<DocView>)>, key: Seq<char>)
    requires
        forall|a: int| 0 <= a < fields.len() ==> (#[trigger] fields[a]).0 != key,
    ensures
        lookup(build(fields), key) is None,
    decreases fields.len(),
{
    if fields.len() == 0 {
        lemma_find_key(build(fields), key);
    } else {
        let front = fields.drop_last();
        assert(forall|a: int| 0 <= a < front.len() ==> front[a] == fields[a]);
        lemma_build_lookup_none(front, key);
        lemma_lookup_put(build(front), fields.last().0, fields.last().1, key);
    }
}

/// In the record built from fields with different names, each name has the
/// value of its field, and is absent where the field has none.
pub proof fn lemma_build_lookup(fields: Seq<(Seq<char>, Option<DocView>)>, i: int)
    requires
        distinct_names(fields),
        0 <= i < fields.len(),
    ensures
        lookup(build(fields), fields[i].0) == fields[i].1,
    decreases fields.len(),
{
    let front = fields.drop_last();
    let key = fields[i].0;
    assert(forall|a: int| 0 <= a < front.len() ==> front[a] == fields[a]);
    lemma_lookup_put(build(front), fields.last().0, fields.last().1, key);
    if i == fields.len() - 1 {
        lemma_build_lookup_none(front, key);
    } else {
        assert(front[i] == fields[i]);
        lemma_build_lookup(front, i);
        if lookup(build(front), key) is None {
            assert(fields.last().0 != key);
        }
    }
}

/// Looking a name up after `set_key`: the name that was set has the new
/// value, every other name has the value it had.
pub proof fn lemma_lookup_set_key(
    entries: Seq<(Seq<char>, DocView)>,
    k: Seq<char>,
    v: DocView,
    key: Seq<char>,
)
    ensures
        lookup(set_key(entries, k, v), key) == (if k == key {
            Some(v)
        } else {
            lookup(entries, key)
        }),
{
    lemma_find_key(entries, k);
    lemma_find_key(entries, key);
    let after = set_key(entries, k, v);
    lemma_find_key(after, key);
    match find_key(entries, k) {
        Some(i) => {
            assert(after.len() == entries.len());
            assert(after[i] == (k, v));
            assert(forall|j: int| 0 <= j < entries.len() && j != i ==> after[j] == entries[j]);
            if k == key {
                assert(find_key(after, key) == Some(i));
            } else {
                match find_key(entries, key) {
                    Some(a) => {
                        assert(after[a].0 == key);
                        assert(find_key(after, key) == Some(a));
                    },
                    None => {
                        assert(find_key(after, key) is None);
                    },
                }
            }
        },
        None => {
            assert(after.drop_last() =~= entries);
        },
    }
}

/// The position of the first entry named `key`.
pub fn find_entry(entries: &Vec<(String, Document)>, key: &str) -> (found: Option<usize>)
    ensures
        match found {
            Some(i) => i < entries.len() && find_key(entries_view(entries@), key@) == Some(
                i as int,
            ),
            None => find_key(entries_view(entries@), key@) is None,
        },
{
    let mut i: usize = 0;
    while i < entries.len()
        invariant
            i <= entries.len(),
            forall|j: int| 0 <= j < i ==> (#[trigger] entries_view(entries@)[j]).0 != key@,
        decreases entries.len() - i,
    {
        if str_eq(entries[i].0.as_str(), key) {
            proof {
                lemma_find_key_is(entries_view(entries@), key@, i as int);
            }
            return Some(i);
        }
        i += 1;
    }
    proof {
        lemma_find_key_none(entries_view(entries@), key@);
    }
    None
}

impl Document {
    /// The text of a text document.
    pub fn as_str(&self) -> (text: Option<&str>)
        ensures
            match text {
                Some(s) => self@.as_text() == Some(s@),
                None => self@.as_text() is None,
            },
    {
        match self {
            Document::Text(s) => Some(s.as_str()),
            _ => None,
        }
    }

    /// The items of a list document.
    pub fn as_array(&self) -> (items: Option<&Vec<Document>>)
        ensures
            match items {
                Some(v) => *self == Document::List(*v) && self@.as_list() == Some(list_view(v@)),
                None => self@.as_list() is None,
            },
    {
        match self {
            Document::List(items) => Some(items),
            _ => None,
        }
    }

    /// The value of a number that is a non-negative integer.
    pub fn as_u64(&self) -> (value: Option<u64>)
        ensures
            value == self@.as_unsigned(),
    {
        match self {
            Document::Number(Numeral::Unsigned(n)) => Some(*n),
            _ => None,
        }
    }

    /// Whether this is the null document.
    pub fn is_null(&self) -> (null: bool)
        ensures
            null == (self@ is Null),
    {
        match self {
            Document::Null => true,
            _ => false,
        }
    }

    /// The value of the first entry named `key`, where this is a record that
    /// has one.
    pub fn get(&self, key: &str) -> (value: Option<&Document>)
        ensures
            match value {
                Some(v) => self@.get(key@) == Some(v@) && decreases_to!(self => v),
                None => self@.get(key@) is None,
            },
    {
        match self {
            Document::Record(entries) => match find_entry(entries, key) {
                Some(i) => {
                    Some(&entries[i].1)
                },
                None => None,
            },
            _ => None,
        }
    }

    /// The value of the first entry named `key`, as `get` returns it.
    pub fn field(&self, key: &str) -> (value: Option<&Document>)
        ensures
            opt_ref(value) == self@.get(key@),
    {
        self.get(key)
    }

    /// The text of the entry named `key`, where it is a text.
    pub fn get_str(&self, key: &str) -> (text: Option<&str>)
        ensures
            match text {
                Some(s) => self@.get_text(key@) == Some(s@),
                None => self@.get_text(key@) is None,
            },
    {
        match self.get(key) {
            Some(v) => v.as_str(),
            None => None,
        }
    }

    /// Sets the entry named `key` of a record: replaces the value of the first
    /// entry with that name, or adds an entry at the end. Anything but a
    /// record becomes a record with this one entry.
    pub fn insert(&mut self, key: String, value: Document)
        ensures
            final(self)@ == (match old(self)@ {
                DocView::Record(entries) => DocView::Record(set_key(entries, key@, value@)),
                _ => DocView::Record(seq![(key@, value@)]),
            }),
    {
        match self {
            Document::Record(entries) => {
                let ghost before = entries_view(entries@);
                match find_entry(entries, key.as_str()) {
                    Some(i) => {
                        entries[i] = (key, value);
                        assert(entries_view(entries@) =~= before.update(i as int, (key@, value@)));
                    },
                    None => {
                        entries.push((key, value));
                        assert(entries_view(entries@) =~= before.push((key@, value@)));
                    },
                }
            },
            _ => {
                let mut entries: Vec<(String, Document)> = Vec::new();
                entries.push((key, value));
                assert(entries_view(entries@) =~= seq![(key@, value@)]);
                *self = Document::Record(entries);
            },
        }
    }

    /// A text document with the characters of `text`.
    pub fn text(text: &str) -> (doc: Document)
        ensures
            doc@ == DocView::Text(text@),
    {
        Document::Text(String::from_str(text))
    }

    /// The number document of a non-negative integer.
    pub fn unsigned(value: u64) -> (doc: Document)
        ensures
            doc@ == DocView::Number(Numeral::Unsigned(value)),
    {
        Document::Number(Numeral::Unsigned(value))
    }

    /// The record without entries.
    pub fn empty_record() -> (doc: Document)
        ensures
            doc@ == DocView::Record(Seq::empty()),
    {
        let doc = Document::Record(Vec::new());
        assert(doc@->Record_0 =~= Seq::empty());
        doc
    }

    /// The list without items.
    pub fn empty_list() -> (doc: Document)
        ensures
            doc@ == DocView::List(Seq::empty()),
    {
        let doc = Document::List(Vec::new());
        assert(doc@->List_0 =~= Seq::empty());
        doc
    }
}

impl Clone for Document {
    /// A copy with the same value.
    fn clone(&self) -> (copy: Document)
        ensures
            copy@ == self@,
        decreases self,
    {
        match self {
            Document::Null => Document::Null,
            Document::Bool(b) => Document::Bool(*b),
            Document::Number(n) => Document::Number(*n),
            Document::Text(s) => Document::Text(s.clone()),
            Document::List(items) => {
                let mut copy: Vec<Document> = Vec::new();
                let mut i: usize = 0;
                while i < items.len()
                    invariant
                        i <= items.len(),
                        *self == Document::List(*items),
                        copy@.len() == i,
                        forall|j: int| 0 <= j < i ==> (#[trigger] copy@[j])@ == items@[j]@,
                    decreases items.len() - i,
                {
                    assert(decreases_to!(self => self->List_0[i as int]));
                    copy.push(items[i].clone());
                    i += 1;
                }
                assert(list_view(copy@) =~= list_view(items@));
                Document::List(copy)
            },
            Document::Record(entries) => {
                let mut copy: Vec<(String, Document)> = Vec::new();
                let mut i: usize = 0;
                while i < entries.len()
                    invariant
                        i <= entries.len(),
                        *self == Document::Record(*entries),
                        copy@.len() == i,
                        forall|j: int|
                            0 <= j < i ==> (#[trigger] copy@[j]).0@ == entries@[j].0@ && copy@[j].1@
                                == entries@[j].1@,
                    decreases entries.len() - i,
                {
                    assert(decreases_to!(self => self->Record_0[i as int].1));
                    copy.push((entries[i].0.clone(), entries[i].1.clone()));
                    i += 1;
                }
                assert(entries_view(copy@) =~= entries_view(entries@));
                Document::Record(copy)
            },
        }
    }
}

/// Copies a list of documents.
pub fn clone_list(items: &Vec<Document>) -> (copy: Vec<Document>)
    ensures
        list_view(copy@) == list_view(items@),
{
    let mut copy: Vec<Document> = Vec::new();
    let mut i: usize = 0;
    while i < items.len()
        invariant
            i <= items.len(),
            copy@.len() == i,
            forall|j: int| 0 <= j < i ==> (#[trigger] copy@[j])@ == items@[j]@,
        decreases items.len() - i,
    {
        copy.push(items[i].clone());
        i += 1;
    }
    copy
}

/// Adds an entry at the end of a record's entries.
pub fn push_entry(entries: &mut Vec<(String, Document)>, key: &str, value: Document)
    ensures
        entries_view(final(entries)@) == entries_view(old(entries)@).push((key@, value@)),
{
    entries.push((String::from_str(key), value));
}

/// Adds an entry at the end of a record's entries, where there is a value to
/// add.
pub fn put_entry(entries: &mut Vec<(String, Document)>, key: &str, value: Option<Document>)
    ensures
        entries_view(final(entries)@) == put(entries_view(old(entries)@), key@, opt_doc(value)),
{
    reveal(put);
    match value {
        Some(v) => push_entry(entries, key, v),
        None => {},
    }
}

/// Writes one field of a record that is being built from a list of fields.
pub(crate) fn put_field(
    entries: &mut Vec<(String, Document)>,
    Ghost(fields): Ghost<Seq<(Seq<char>, Option<DocView>)>>,
    key: &str,
    value: Option<Document>,
)
    requires
        entries_view(old(entries)@) == build(fields),
    ensures
        entries_view(final(entries)@) == build(fields.push((key@, opt_doc(value)))),
{
    proof {
        lemma_build_push(fields, key@, opt_doc(value));
    }
    put_entry(entries, key, value);
}

} // verus!
