use vstd::prelude::*;
use crate::text::{chars_of, push_str};

verus! {

/// The boolean that serde_json finds at a JSON pointer in a document, if any.
pub uninterp spec fn json_bool_at(body: Seq<u8>, pointer: Seq<char>) -> Option<bool>;

/// The unsigned integer that serde_json finds at a JSON pointer in a document, if any.
pub uninterp spec fn json_u64_at(body: Seq<u8>, pointer: Seq<char>) -> Option<u64>;

/// The signed integer that serde_json finds at a JSON pointer in a document, if any.
pub uninterp spec fn json_i64_at(body: Seq<u8>, pointer: Seq<char>) -> Option<i64>;

/// The string that serde_json finds at a JSON pointer in a document, if any.
pub uninterp spec fn json_str_at(body: Seq<u8>, pointer: Seq<char>) -> Option<Seq<char>>;

/// Relies on `serde_json::from_slice`, `Value::pointer` and `Value::as_bool`: the boolean
/// at the pointer, or `None` where the document does not parse or holds no boolean there.
#[verifier::external_body]
pub fn bool_at(body: &[u8], pointer: &str) -> (r: Option<bool>)
    ensures
        r == json_bool_at(body@, pointer@),
{
    serde_json::from_slice::<serde_json::Value>(body).ok()?.pointer(pointer)?.as_bool()
}

/// Relies on `serde_json::from_slice`, `Value::pointer` and `Value::as_u64`: the unsigned
/// integer at the pointer, or `None` where the document does not parse or holds none there.
#[verifier::external_body]
pub fn u64_at(body: &[u8], pointer: &str) -> (r: Option<u64>)
    ensures
        r == json_u64_at(body@, pointer@),
{
    serde_json::from_slice::<serde_json::Value>(body).ok()?.pointer(pointer)?.as_u64()
}

/// Relies on `serde_json::from_slice`, `Value::pointer` and `Value::as_i64`: the signed
/// integer at the pointer, or `None` where the document does not parse or holds none there.
#[verifier::external_body]
pub fn i64_at(body: &[u8], pointer: &str) -> (r: Option<i64>)
    ensures
        r == json_i64_at(body@, pointer@),
{
    serde_json::from_slice::<serde_json::Value>(body).ok()?.pointer(pointer)?.as_i64()
}

/// Relies on `serde_json::from_slice`, `Value::pointer` and `Value::as_str`: the string at
/// the pointer, or `None` where the document does not parse or holds no string there.
#[verifier::external_body]
pub fn str_at(body: &[u8], pointer: &str) -> (r: Option<String>)
    ensures
        match r {
            Some(s) => json_str_at(body@, pointer@) == Some(s@),
            None => json_str_at(body@, pointer@).is_none(),
        },
{
    Some(serde_json::from_slice::<serde_json::Value>(body).ok()?.pointer(pointer)?.as_str()?.to_owned())
}

} // verus!

verus! {

/// The length of the array that serde_json finds at a JSON pointer in a document, if any.
pub uninterp spec fn json_array_len_at(body: Seq<u8>, pointer: Seq<char>) -> Option<usize>;

/// The number that serde_json finds at a JSON pointer in a document, as serde_json writes it.
pub uninterp spec fn json_number_text_at(body: Seq<u8>, pointer: Seq<char>) -> Option<Seq<char>>;

/// Relies on `serde_json::from_slice`, `Value::pointer` and `Value::as_array`: the number
/// of elements of the array at the pointer, or `None` where there is no array there.
#[verifier::external_body]
pub fn array_len_at(body: &[u8], pointer: &str) -> (r: Option<usize>)
    ensures
        r == json_array_len_at(body@, pointer@),
{
    Some(serde_json::from_slice::<serde_json::Value>(body).ok()?.pointer(pointer)?.as_array()?.len())
}

/// Relies on `serde_json::from_slice`, `Value::pointer` and `Number`'s `to_string`: the
/// number at the pointer in JSON's notation, or `None` where there is no number there.
#[verifier::external_body]
pub fn number_text_at(body: &[u8], pointer: &str) -> (r: Option<String>)
    ensures
        match r {
            Some(s) => json_number_text_at(body@, pointer@) == Some(s@),
            None => json_number_text_at(body@, pointer@).is_none(),
        },
{
    match serde_json::from_slice::<serde_json::Value>(body).ok()?.pointer(pointer)? {
        serde_json::Value::Number(n) => Some(n.to_string()),
        _ => None,
    }
}

/// A key written as one reference token of a JSON pointer: `~` becomes `~0`, `/` becomes `~1`.
pub open spec fn pointer_token(key: Seq<char>) -> Seq<char>
    decreases key.len(),
{
    if key.len() == 0 {
        Seq::empty()
    } else {
        let c = key.last();
        pointer_token(key.drop_last()) + if c == '~' {
            "~0"@
        } else if c == '/' {
            "~1"@
        } else {
            seq![c]
        }
    }
}

/// Appends `key` written as a reference token of a JSON pointer.
pub fn push_token(out: &mut Vec<char>, key: &str)
    ensures
        final(out)@ == old(out)@ + pointer_token(key@),
{
    let cs = chars_of(key);
    let mut i: usize = 0;
    while i < cs.len()
        invariant
            i <= cs.len(),
            cs@ == key@,
            out@ == old(out)@ + pointer_token(cs@.take(i as int)),
        decreases cs.len() - i,
    {
        assert(cs@.take(i as int + 1).drop_last() == cs@.take(i as int));
        let c = cs[i];
        if c == '~' {
            push_str(out, "~0");
        } else if c == '/' {
            push_str(out, "~1");
        } else {
            out.push(c);
        }
        assert(out@ == old(out)@ + pointer_token(cs@.take(i as int + 1)));
        i = i + 1;
    }
    assert(cs@.take(cs.len() as int) == cs@);
}

} // verus!

verus! {

/// A reply whose top-level `code` is zero: the remote side reports success.
pub open spec fn reply_ok(body: Seq<u8>) -> bool {
    json_i64_at(body, "/code"@) == Some(0i64)
}

/// Whether the reply's top-level `code` is zero.
pub fn reply_code_ok(body: &[u8]) -> (r: bool)
    ensures
        r == reply_ok(body@),
{
    match i64_at(body, "/code") {
        Some(c) => c == 0,
        None => false,
    }
}

} // verus!
