//! The boundary with `serde_json`: reading a text, and taking what was read
//! apart one level at a time, so that the conversion into a [`Document`] is
//! verified code.

use vstd::prelude::*;
use crate::document::{entries_view, list_view, DocView, Document, Numeral};

verus! {

/// `serde_json::Value`, carried as it is: nothing is known of what it holds
/// but through the functions below.
#[verifier::external_type_specification]
#[verifier::external_body]
pub struct ExValue(serde_json::Value);

/// `serde_json::Number`, carried as it is.
#[verifier::external_type_specification]
#[verifier::external_body]
pub struct ExNumber(serde_json::Number);

/// `serde_json::Error`, carried as it is.
#[verifier::external_type_specification]
#[verifier::external_body]
pub struct ExError(serde_json::Error);

/// The document that a `serde_json::Value` holds.
pub uninterp spec fn value_document(value: serde_json::Value) -> DocView;

/// The number that a `serde_json::Number` holds.
pub uninterp spec fn number_value(number: serde_json::Number) -> Numeral;

/// The document that `serde_json::from_str` reads from a text, where it reads
/// one.
pub uninterp spec fn json_text_document(text: Seq<char>) -> Option<DocView>;

/// One level of a `serde_json::Value`: its variant, with the children still
/// unconverted.
pub enum Unpacked {
    Null,
    Bool(bool),
    Number(serde_json::Number),
    Text(String),
    List(Vec<serde_json::Value>),
    Record(Vec<(String, serde_json::Value)>),
}

impl Unpacked {
    /// The document that this level stands for.
    pub open spec fn document(self) -> DocView {
        match self {
            Unpacked::Null => DocView::Null,
            Unpacked::Bool(b) => DocView::Bool(b),
            Unpacked::Number(n) => DocView::Number(number_value(n)),
            Unpacked::Text(s) => DocView::Text(s@),
            Unpacked::List(items) => DocView::List(
                Seq::new(items@.len(), |i: int| value_document(items@[i])),
            ),
            Unpacked::Record(entries) => DocView::Record(
                Seq::new(entries@.len(), |i: int| (entries@[i].0@, value_document(entries@[i].1))),
            ),
        }
    }
}

/// `serde_json::from_str` at type `Value`. What it reads depends on the text
/// alone: the value that holds the text's document, or an error where the
/// text is not JSON.
#[verifier::external_body]
pub(crate) fn parse_value(text: &str) -> (parsed: Result<serde_json::Value, serde_json::Error>)
    ensures
        parsed matches Ok(v) ==> json_text_document(text@) == Some(value_document(v)),
        parsed is Err ==> json_text_document(text@) is None,
{
    serde_json::from_str::<serde_json::Value>(text)
}

/// `serde_json::Error`'s `to_string`: the error in words. Nothing is said of
/// the words.
#[verifier::external_body]
pub(crate) fn error_text(error: &serde_json::Error) -> (words: String) {
    error.to_string()
}

/// Takes a `serde_json::Value` apart by matching on its variant and moving
/// the fields out; the entries of an object come from `Map::into_iter`, in
/// the order in which the map walks them. What comes out holds the same
/// document as the value did.
#[verifier::external_body]
pub(crate) fn unpack_value(value: serde_json::Value) -> (level: Unpacked)
    ensures
        level.document() == value_document(value),
{
    match value {
        serde_json::Value::Null => Unpacked::Null,
        serde_json::Value::Bool(b) => Unpacked::Bool(b),
        serde_json::Value::Number(n) => Unpacked::Number(n),
        serde_json::Value::String(s) => Unpacked::Text(s),
        serde_json::Value::Array(items) => Unpacked::List(items),
        serde_json::Value::Object(map) => Unpacked::Record(map.into_iter().collect()),
    }
}

/// `serde_json::Number::as_u64`: the value of a number that is a non-negative
/// integer.
#[verifier::external_body]
pub(crate) fn number_as_u64(number: &serde_json::Number) -> (value: Option<u64>)
    ensures
        value == (match number_value(*number) {
            Numeral::Unsigned(u) => Some(u),
            _ => None,
        }),
{
    number.as_u64()
}

/// `serde_json::Number::as_i64`: the value of a number that is an integer
/// within `i64`. A number that is not a non-negative integer and has such a
/// value is a negative integer.
#[verifier::external_body]
pub(crate) fn number_as_i64(number: &serde_json::Number) -> (value: Option<i64>)
    ensures
        !(number_value(*number) is Unsigned) ==> value == (match number_value(*number) {
            Numeral::Negative(i) => Some(i),
            _ => None,
        }),
{
    number.as_i64()
}

/// `serde_json::Number::as_f64`, by the bits of what it returns: for a number
/// that is no integer, the bits of the real number it holds.
#[verifier::external_body]
pub(crate) fn number_bits(number: &serde_json::Number) -> (bits: Option<u64>)
    ensures
        number_value(*number) matches Numeral::Real(b) ==> bits == Some(b),
{
    number.as_f64().map(|x| x.to_bits())
}

/// Converts a parsed number.
pub fn number_of(number: &serde_json::Number) -> (n: Numeral)
    ensures
        n == number_value(*number),
{
    match number_as_u64(number) {
        Some(u) => Numeral::Unsigned(u),
        None => match number_as_i64(number) {
            Some(i) => Numeral::Negative(i),
            None => match number_bits(number) {
                Some(b) => Numeral::Real(b),
                None => Numeral::Unsigned(0),
            },
        },
    }
}

/// Converts a parsed value into a document.
pub fn document_of_value(value: serde_json::Value) -> (doc: Document)
    ensures
        doc@ == value_document(value),
    decreases value_document(value),
{
    match unpack_value(value) {
        Unpacked::Null => Document::Null,
        Unpacked::Bool(b) => Document::Bool(b),
        Unpacked::Number(n) => Document::Number(number_of(&n)),
        Unpacked::Text(s) => Document::Text(s),
        Unpacked::List(items) => {
            let ghost whole = value_document(value);
            let ghost children = items@;
            let mut docs: Vec<Document> = Vec::new();
            for item in it: items
                invariant
                    it.seq() == children,
                    whole == value_document(value),
                    whole == DocView::List(
                        Seq::new(children.len(), |i: int| value_document(children[i])),
                    ),
                    docs@.len() == it.index(),
                    forall|j: int|
                        0 <= j < docs@.len() ==> (#[trigger] docs@[j])@ == value_document(
                            children[j],
                        ),
            {
                assert(decreases_to!(whole => whole->List_0[it.index() as int]));
                let d = document_of_value(item);
                docs.push(d);
            }
            assert(list_view(docs@) =~= whole->List_0);
            Document::List(docs)
        },
        Unpacked::Record(entries) => {
            let ghost whole = value_document(value);
            let ghost children = entries@;
            let mut docs: Vec<(String, Document)> = Vec::new();
            for entry in it: entries
                invariant
                    it.seq() == children,
                    whole == value_document(value),
                    whole == DocView::Record(
                        Seq::new(
                            children.len(),
                            |i: int| (children[i].0@, value_document(children[i].1)),
                        ),
                    ),
                    docs@.len() == it.index(),
                    forall|j: int|
                        0 <= j < docs@.len() ==> (#[trigger] docs@[j]).0@ == children[j].0@
                            && docs@[j].1@ == value_document(children[j].1),
            {
                assert(decreases_to!(whole => whole->Record_0[it.index() as int].1));
                let d = document_of_value(entry.1);
                docs.push((entry.0, d));
            }
            assert(entries_view(docs@) =~= whole->Record_0);
            Document::Record(docs)
        },
    }
}

/// Why a text could not be read as a document.
#[derive(Debug, PartialEq, Eq)]
pub struct ParseError {
    /// The parser's complaint, in words.
    pub message: String,
}

/// Reads a JSON text into a document. It fails exactly on the texts that
/// `serde_json` refuses.
pub fn parse_document(text: &str) -> (parsed: Result<Document, ParseError>)
    ensures
        match parsed {
            Ok(doc) => json_text_document(text@) == Some(doc@),
            Err(_) => json_text_document(text@) is None,
        },
{
    match parse_value(text) {
        Ok(value) => Ok(document_of_value(value)),
        Err(error) => Err(ParseError { message: error_text(&error) }),
    }
}

} // verus!
