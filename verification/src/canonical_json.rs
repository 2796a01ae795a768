//! Canonical JSON: the encoding whose bytes are authenticated with a backup.
//! An object's keys come in their sorted order and numbers in plain decimal
//! notation, so that equal records give equal bytes on every machine.

use vstd::prelude::*;

verus! {

/// The canonical JSON encoding of an object with the given members: those
/// whose value is a string, and those whose value is an integer.
pub uninterp spec fn canonical_json_object(
    texts: Seq<(Seq<char>, Seq<char>)>,
    numbers: Seq<(Seq<char>, i64)>,
) -> Seq<u8>;

/// Encodes an object as canonical JSON.
///
/// Trusted: stands for the serialisation of a `serde_json::Value::Object`
/// through a `serde_json::Serializer` with `olpc_cjson::CanonicalFormatter`.
/// The members are handed over as they are, each under its key. The encoder
/// succeeds: it writes into a vector, which takes every byte, and the
/// formatter refuses floating-point numbers only, of which an object of
/// strings and integers holds none. Its bytes depend on the members alone.
#[verifier::external_body]
pub(crate) fn encode_object(texts: &Vec<(String, String)>, numbers: &Vec<(String, i64)>) -> (r:
    Option<Vec<u8>>)
    ensures
        r is Some,
        r matches Some(bytes) ==> bytes@ == canonical_json_object(
            texts.deep_view(),
            numbers.deep_view(),
        ),
{
    let mut object = serde_json::Map::new();
    for (key, text) in texts {
        object.insert(key.clone(), serde_json::Value::String(text.clone()));
    }
    for (key, number) in numbers {
        object.insert(key.clone(), serde_json::Value::Number((*number).into()));
    }
    let mut bytes = Vec::new();
    let mut serializer = serde_json::Serializer::with_formatter(
        &mut bytes,
        olpc_cjson::CanonicalFormatter::new(),
    );
    serde::Serialize::serialize(&serde_json::Value::Object(object), &mut serializer).ok()?;
    Some(bytes)
}

} // verus!
