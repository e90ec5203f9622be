//! JSON documents written in the source as text with the handler `json`.
use vstd::prelude::*;

use crate::error::{about, ErrorKind, ErrorView, ValkyrieError};
use crate::literal::characters;
use crate::value::{ValkyrieValue, ValueView};

verus! {

/// The opening brackets a JSON text may hold. The reader descends once for
/// each array and object that is open at a time, and a text cannot nest
/// deeper than it has opening brackets.
pub const JSON_BRACKET_LIMIT: usize = 1024;

/// Whether a character opens an array or an object.
pub open spec fn opens(c: char) -> bool {
    c == '[' || c == '{'
}

/// The number of opening brackets in a text.
pub open spec fn openings(text: Seq<char>) -> nat
    decreases text.len(),
{
    if text.len() == 0 {
        0
    } else {
        openings(text.drop_last()) + if opens(text.last()) {
            1nat
        } else {
            0nat
        }
    }
}

/// What reading a text as JSON5 comes to: the document, written as compact
/// JSON, or the message of the error that the reader gave.
pub uninterp spec fn json5_document(text: Seq<char>) -> Result<Seq<char>, Seq<char>>;

/// `json5::from_str` into a `serde_json::Value`, which is then written back
/// with `to_string`; an error is handed on as its message. The contract only
/// names the result: the same text always reads as the same document. The
/// reader recurses into nested arrays and objects without a bound of its
/// own, so texts with many brackets are kept from it.
#[verifier::external_body]
fn read_json5(text: &str) -> (read: Result<String, String>)
    requires
        openings(text@) <= JSON_BRACKET_LIMIT,
    ensures
        match json5_document(text@) {
            Ok(document) => read matches Ok(json) && json@ == document,
            Err(message) => read matches Err(said) && said@ == message,
        },
{
    match json5::from_str::<serde_json::Value>(text) {
        Ok(document) => Ok(document.to_string()),
        Err(error) => Err(error.to_string()),
    }
}

/// The value of a text read as JSON5, given what the reader made of it: the
/// document as a JSON value, or a malformed literal with the reader's message.
pub open spec fn json_outcome(read: Result<Seq<char>, Seq<char>>) -> Result<ValueView, ErrorView> {
    match read {
        Ok(document) => Ok(ValueView::Json(document)),
        Err(message) => Err(about(ErrorKind::MalformedLiteral, message)),
    }
}

/// What a text with the handler `json` evaluates to: a text with more
/// opening brackets than the limit is malformed as it stands; any other is
/// what the reader makes of it.
pub open spec fn json_literal(text: Seq<char>) -> Result<ValueView, ErrorView> {
    if openings(text) > JSON_BRACKET_LIMIT {
        Err(about(ErrorKind::MalformedLiteral, text))
    } else {
        json_outcome(json5_document(text))
    }
}

/// Counts the opening brackets of a text, up to one more than the limit.
pub fn count_openings(text: &str) -> (count: usize)
    ensures
        count == if openings(text@) > JSON_BRACKET_LIMIT {
            JSON_BRACKET_LIMIT + 1
        } else {
            openings(text@) as int
        },
{
    let chars = characters(text);
    let mut count: usize = 0;
    let mut i: usize = 0;
    assert(text@.take(0) =~= Seq::<char>::empty());
    while i < chars.len()
        invariant
            i <= chars.len(),
            chars@ == text@,
            count <= JSON_BRACKET_LIMIT,
            count == openings(text@.take(i as int)),
        decreases chars.len() - i,
    {
        proof {
            assert(text@.take(i + 1).drop_last() =~= text@.take(i as int));
            assert(text@.take(i + 1).last() == text@[i as int]);
        }
        if chars[i] == '[' || chars[i] == '{' {
            if count == JSON_BRACKET_LIMIT {
                proof {
                    lemma_openings_grow(text@, i + 1);
                }
                return JSON_BRACKET_LIMIT + 1;
            }
            count += 1;
        }
        i += 1;
    }
    assert(text@.take(i as int) =~= text@);
    count
}

/// A text has at least as many opening brackets as any of its beginnings.
pub proof fn lemma_openings_grow(text: Seq<char>, k: int)
    requires
        0 <= k <= text.len(),
    ensures
        openings(text.take(k)) <= openings(text),
    decreases text.len(),
{
    if k == text.len() {
        assert(text.take(k) =~= text);
    } else {
        lemma_openings_grow(text.drop_last(), k);
        assert(text.drop_last().take(k) =~= text.take(k));
    }
}

/// Turns what the JSON5 reader gave into a value or an error.
pub fn json_value(read: Result<String, String>) -> (value: Result<ValkyrieValue, ValkyrieError>)
    ensures
        match json_outcome(
            match read {
                Ok(json) => Ok(json@),
                Err(said) => Err(said@),
            },
        ) {
            Ok(v) => value matches Ok(made) && made@ == v,
            Err(e) => value matches Err(error) && error@ == e,
        },
{
    match read {
        Ok(json) => Ok(ValkyrieValue::Json(json)),
        Err(said) => Err(ValkyrieError::custom(ErrorKind::MalformedLiteral, said.as_str())),
    }
}

/// Reads a text as JSON5 and gives the document as a value.
pub fn execute_json(text: &str) -> (value: Result<ValkyrieValue, ValkyrieError>)
    ensures
        match json_literal(text@) {
            Ok(v) => value matches Ok(made) && made@ == v,
            Err(e) => value matches Err(error) && error@ == e,
        },
{
    if count_openings(text) > JSON_BRACKET_LIMIT {
        Err(ValkyrieError::custom(ErrorKind::MalformedLiteral, text))
    } else {
        json_value(read_json5(text))
    }
}

} // verus!
