//! MessagePack, the chat platform's encoding: read by `rmp_serde` into a
//! document, written piece by piece by `rmp`.

use vstd::prelude::*;

verus! {

/// The document that `rmp_serde::from_slice` reads from the bytes, or
/// nothing where they do not encode one.
pub uninterp spec fn msgpack_parsed(body: Seq<u8>) -> Option<serde_json::Value>;

/// The bytes that `rmp::encode::write_map_len` writes: the head of a map
/// of `len` entries.
pub uninterp spec fn msgpack_map_len(len: u32) -> Seq<u8>;

/// The bytes that `rmp::encode::write_array_len` writes: the head of an
/// array of `len` elements.
pub uninterp spec fn msgpack_array_len(len: u32) -> Seq<u8>;

/// The bytes that `rmp::encode::write_str` writes for a text. They encode
/// the text where its length in bytes fits 32 bits.
pub uninterp spec fn msgpack_str(text: Seq<char>) -> Seq<u8>;

/// The bytes that `rmp::encode::write_sint` writes for an integer.
pub uninterp spec fn msgpack_sint(value: i64) -> Seq<u8>;

/// `rmp_serde::from_slice` for a `serde_json::Value`: the document that the
/// bytes encode.
#[verifier::external_body]
pub(crate) fn parse(body: &[u8]) -> (r: Option<serde_json::Value>)
    ensures
        r == msgpack_parsed(body@),
{
    rmp_serde::from_slice::<serde_json::Value>(body).ok()
}

/// `rmp::encode::write_map_len` into a vector, which takes every write.
#[verifier::external_body]
pub(crate) fn write_map_len(buf: &mut Vec<u8>, len: u32)
    ensures
        final(buf)@ == old(buf)@ + msgpack_map_len(len),
{
    let _ = rmp::encode::write_map_len(buf, len);
}

/// `rmp::encode::write_array_len` into a vector, which takes every write.
#[verifier::external_body]
pub(crate) fn write_array_len(buf: &mut Vec<u8>, len: u32)
    ensures
        final(buf)@ == old(buf)@ + msgpack_array_len(len),
{
    let _ = rmp::encode::write_array_len(buf, len);
}

/// `rmp::encode::write_str` into a vector, which takes every write.
#[verifier::external_body]
pub(crate) fn write_str(buf: &mut Vec<u8>, text: &str)
    ensures
        final(buf)@ == old(buf)@ + msgpack_str(text@),
{
    let _ = rmp::encode::write_str(buf, text);
}

/// `rmp::encode::write_sint` into a vector, which takes every write.
#[verifier::external_body]
pub(crate) fn write_sint(buf: &mut Vec<u8>, value: i64)
    ensures
        final(buf)@ == old(buf)@ + msgpack_sint(value),
{
    let _ = rmp::encode::write_sint(buf, value);
}

} // verus!
