//! The generic JSON value the decoder consumes, and the parsing collaborator
//! that produces it from response text.

use vstd::prelude::*;
use vstd::utf8::{decode_utf8, encode_utf8, encode_utf8_decode_utf8};

use crate::query::Error;

verus! {

/// A parsed JSON document: the generic structured value handed to the
/// decoder. An object holds ordered key-value pairs; the parsing collaborator
/// delivers them sorted by key, a document's duplicate keys already collapsed
/// to the last occurrence (serde_json's default map). A number that is not an
/// unsigned 64-bit integer is kept only as the fact that it was some other
/// kind of number: no field of the answer schema accepts one, so its value
/// would never be read.
#[derive(Debug, PartialEq)]
pub enum JsonValue {
    /// JSON `null`.
    Null,
    /// A JSON boolean.
    Bool(bool),
    /// A JSON number that is an unsigned 64-bit integer.
    UInt(u64),
    /// A JSON number of any other kind.
    OtherNumber,
    /// A JSON string.
    Str(String),
    /// A JSON array.
    Array(Vec<JsonValue>),
    /// A JSON object, as ordered key-value pairs.
    Object(Vec<(String, JsonValue)>),
}

/// The value of the first field of an object that carries the given key, if
/// any field does.
pub open spec fn lookup(fields: Seq<(String, JsonValue)>, key: Seq<char>) -> Option<JsonValue>
    decreases fields.len(),
{
    if fields.len() == 0 {
        None
    } else if fields[0].0@ == key {
        Some(fields[0].1)
    } else {
        lookup(fields.drop_first(), key)
    }
}

/// Whether two strings spell the same characters, decided byte by byte on
/// their UTF-8 encodings.
pub fn str_eq(a: &str, b: &str) -> (r: bool)
    ensures
        r == (a@ == b@),
{
    let ab = a.as_bytes();
    let bb = b.as_bytes();
    if ab.len() != bb.len() {
        proof {
            if a@ == b@ {
                assert(encode_utf8(a@) == encode_utf8(b@));
            }
        }
        return false;
    }
    let mut i: usize = 0;
    while i < ab.len()
        invariant
            ab@ == encode_utf8(a@),
            bb@ == encode_utf8(b@),
            ab@.len() == bb@.len(),
            i <= ab@.len(),
            forall|j: int| 0 <= j < i ==> ab@[j] == bb@[j],
        decreases ab@.len() - i,
    {
        if ab[i] != bb[i] {
            proof {
                if a@ == b@ {
                    assert(encode_utf8(a@) == encode_utf8(b@));
                }
            }
            return false;
        }
        i = i + 1;
    }
    proof {
        assert(ab@ =~= bb@);
        encode_utf8_decode_utf8(a@);
        encode_utf8_decode_utf8(b@);
        assert(a@ == decode_utf8(encode_utf8(a@)));
        assert(b@ == decode_utf8(encode_utf8(b@)));
    }
    true
}

/// Finds the first field of an object that carries the given key.
pub fn get_field<'a>(fields: &'a Vec<(String, JsonValue)>, key: &str) -> (r: Option<&'a JsonValue>)
    ensures
        match r {
            Some(v) => lookup(fields@, key@) == Some(*v),
            None => lookup(fields@, key@) is None,
        },
{
    let mut i: usize = 0;
    proof {
        assert(fields@.skip(0) =~= fields@);
    }
    while i < fields.len()
        invariant
            i <= fields@.len(),
            lookup(fields@.skip(i as int), key@) == lookup(fields@, key@),
        decreases fields@.len() - i,
    {
        proof {
            assert(fields@.skip(i as int)[0] == fields@[i as int]);
        }
        if str_eq(fields[i].0.as_str(), key) {
            return Some(&fields[i].1);
        }
        proof {
            assert(fields@.skip(i as int).drop_first() =~= fields@.skip(i as int + 1));
        }
        i = i + 1;
    }
    proof {
        assert(fields@.skip(fields@.len() as int) =~= Seq::<(String, JsonValue)>::empty());
    }
    None
}

/// Whether a string is a well-formed JSON document. Named, not defined: only
/// the parsing collaborator decides it.
pub uninterp spec fn json_well_formed(s: Seq<char>) -> bool;

/// The generic value that a well-formed document parses to. Named, not
/// defined: it is the parsing collaborator's reading of the text, a function
/// of the input characters alone.
pub uninterp spec fn json_doc_of(s: Seq<char>) -> JsonValue;

/// Relies on `serde_json::from_str`: it returns `Ok` exactly when it accepts
/// the input as one well-formed JSON document, and both that acceptance and
/// the parsed value (here carried over variant by variant, see
/// [`value_to_json`]) are functions of the input characters alone.
#[verifier::external_body]
fn parse_collaborator(s: &str) -> (r: Option<JsonValue>)
    ensures
        r is Some <==> json_well_formed(s@),
        r is Some ==> r->Some_0 == json_doc_of(s@),
{
    match serde_json::from_str::<serde_json::Value>(s) {
        Ok(v) => Some(value_to_json(v)),
        Err(_) => None,
    }
}

/// Relies on the variants of `serde_json::Value` and on
/// `serde_json::Number::as_u64`: each variant of the parsed document is
/// carried over one-for-one into this crate's JSON type; a number that is not
/// an unsigned 64-bit integer becomes [`JsonValue::OtherNumber`].
#[verifier::external_body]
fn value_to_json(v: serde_json::Value) -> JsonValue {
    match v {
        serde_json::Value::Null => JsonValue::Null,
        serde_json::Value::Bool(b) => JsonValue::Bool(b),
        serde_json::Value::Number(n) => match n.as_u64() {
            Some(u) => JsonValue::UInt(u),
            None => JsonValue::OtherNumber,
        },
        serde_json::Value::String(s) => JsonValue::Str(s),
        serde_json::Value::Array(a) => JsonValue::Array(a.into_iter().map(value_to_json).collect()),
        serde_json::Value::Object(m) => JsonValue::Object(
            m.into_iter().map(|(k, w)| (k, value_to_json(w))).collect(),
        ),
    }
}

/// The type of a parsed document, so that the parsing collaborator can be
/// named in this crate's signatures.
#[verifier::external_type_specification]
#[verifier::external_body]
pub struct ExSerdeValue(serde_json::Value);

/// Parses response text into a generic JSON value — the collaborator's
/// reading of the text — or reports the distinct JSON syntax error exactly
/// when the text is not well-formed JSON.
pub fn parse_json(s: &str) -> (r: Result<JsonValue, Error>)
    ensures
        r is Ok <==> json_well_formed(s@),
        r is Ok ==> r->Ok_0 == json_doc_of(s@),
        r is Err ==> r->Err_0 == Error::JsonSyntax,
{
    match parse_collaborator(s) {
        Some(v) => Ok(v),
        None => Err(Error::JsonSyntax),
    }
}

} // verus!
