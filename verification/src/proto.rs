//! Protobuf fields.

use vstd::prelude::*;

verus! {

/// The message that holds one 32-bit integer in its first field.
pub uninterp spec fn int32_message(value: i32) -> Seq<u8>;

/// What reading a message for the 32-bit integer in its first field gives.
pub uninterp spec fn int32_read(bytes: Seq<u8>) -> Result<i32, Seq<char>>;

/// The bytes of one length-delimited field.
pub uninterp spec fn bytes_field(tag: u32, value: Seq<u8>) -> Seq<u8>;

/// What reading a field's key gives: its tag, its wire type and the bytes after it.
pub uninterp spec fn field_key(bytes: Seq<u8>) -> Result<(u32, u8, Seq<u8>), Seq<char>>;

/// What reading the value of a length-delimited field gives: the value and the bytes after it.
pub uninterp spec fn field_bytes(wire: u8, bytes: Seq<u8>) -> Result<
    (Seq<u8>, Seq<u8>),
    Seq<char>,
>;

/// What passing over the value of a field leaves.
pub uninterp spec fn field_skipped(wire: u8, tag: u32, bytes: Seq<u8>) -> Result<
    Seq<u8>,
    Seq<char>,
>;

/// The largest tag that a field can have.
pub const MAX_TAG: u32 = 0x1fff_ffff;

/// The wire type of a length-delimited field.
pub const LENGTH_DELIMITED: u8 = 2;

/// `prost::Message::encode_to_vec` on an `i32`, which encodes it as the integer in field 1. The
/// result is named.
#[verifier::external_body]
pub(crate) fn write_int32(value: i32) -> (out: Vec<u8>)
    ensures
        out@ == int32_message(value),
{
    prost::Message::encode_to_vec(&value)
}

/// A message read as its integer, or as what is said where it is none.
pub open spec fn int32_outcome(result: Result<i32, String>) -> Result<i32, Seq<char>> {
    match result {
        Ok(value) => Ok(value),
        Err(message) => Err(message@),
    }
}

/// A message that was written from an integer is read as that integer.
pub open spec fn int32_reads_back(bytes: Seq<u8>, read: Result<i32, Seq<char>>) -> bool {
    forall|value: i32|
        bytes == #[trigger] int32_message(value) ==> read == Ok::<i32, Seq<char>>(value)
}

/// `prost::Message::decode` of an `i32`, which reads the integer in field 1, skips other fields,
/// and gives zero where field 1 is absent. The result is named; what was written is read back.
#[verifier::external_body]
pub(crate) fn read_int32(bytes: &[u8]) -> (out: Result<i32, String>)
    ensures
        int32_outcome(out) == int32_read(bytes@),
        int32_reads_back(bytes@, int32_outcome(out)),
{
    match <i32 as prost::Message>::decode(bytes) {
        Ok(value) => Ok(value),
        Err(error) => Err(error.to_string()),
    }
}

/// `prost::encoding::bytes::encode` appends one length-delimited field. What it appends is named,
/// and is never empty.
#[verifier::external_body]
pub(crate) fn write_bytes_field(tag: u32, value: &Vec<u8>, out: &mut Vec<u8>)
    requires
        1 <= tag <= MAX_TAG,
    ensures
        final(out)@ == old(out)@ + bytes_field(tag, value@),
        final(out)@.len() > old(out)@.len(),
{
    prost::encoding::bytes::encode(tag, value, out)
}

/// A key read as its parts, or as what is said where there is none.
pub open spec fn key_outcome(result: Result<(u32, u8, &[u8]), String>) -> Result<
    (u32, u8, Seq<u8>),
    Seq<char>,
> {
    match result {
        Ok((tag, wire, rest)) => Ok((tag, wire, rest@)),
        Err(message) => Err(message@),
    }
}

/// Before a field that was written lies its key, and after the key its value.
pub open spec fn key_reads_back(
    bytes: Seq<u8>,
    read: Result<(u32, u8, Seq<u8>), Seq<char>>,
) -> bool {
    forall|tag: u32, value: Seq<u8>, rest: Seq<u8>|
        1 <= tag <= MAX_TAG && bytes == #[trigger] (bytes_field(tag, value) + rest) ==> (
        read matches Ok((t, w, r)) && t == tag && w == LENGTH_DELIMITED && field_bytes(
            LENGTH_DELIMITED,
            r,
        ) == Ok::<(Seq<u8>, Seq<u8>), Seq<char>>((value, rest)))
}

/// `prost::encoding::decode_key` reads a field's key and moves past it. The result is named. It
/// takes at least one byte, and before a length-delimited field that was written it gives the
/// field's tag and leaves its value to be read.
#[verifier::external_body]
pub(crate) fn read_key(bytes: &[u8]) -> (out: Result<(u32, u8, &[u8]), String>)
    ensures
        key_outcome(out) == field_key(bytes@),
        out matches Ok((tag, wire, rest)) ==> rest@.len() < bytes@.len(),
        key_reads_back(bytes@, key_outcome(out)),
{
    let mut rest: &[u8] = bytes;
    match prost::encoding::decode_key(&mut rest) {
        Ok((tag, wire)) => Ok((tag, wire as u8, rest)),
        Err(error) => Err(error.to_string()),
    }
}

/// A value read with the bytes after it, or what is said where there is none.
pub open spec fn bytes_outcome(result: Result<(Vec<u8>, &[u8]), String>) -> Result<
    (Seq<u8>, Seq<u8>),
    Seq<char>,
> {
    match result {
        Ok((value, rest)) => Ok((value@, rest@)),
        Err(message) => Err(message@),
    }
}

/// `prost::encoding::bytes::merge` reads the value of a length-delimited field and moves past it.
/// The result is named, and nothing is put back.
#[verifier::external_body]
pub(crate) fn read_bytes(wire: u8, bytes: &[u8]) -> (out: Result<(Vec<u8>, &[u8]), String>)
    ensures
        bytes_outcome(out) == field_bytes(wire, bytes@),
        out matches Ok((value, rest)) ==> rest@.len() <= bytes@.len(),
{
    let kind = match prost::encoding::WireType::try_from(u64::from(wire)) {
        Ok(kind) => kind,
        Err(error) => return Err(error.to_string()),
    };
    let mut value: Vec<u8> = Vec::new();
    let mut rest: &[u8] = bytes;
    let context = prost::encoding::DecodeContext::default();
    match prost::encoding::bytes::merge(kind, &mut value, &mut rest, context) {
        Ok(()) => Ok((value, rest)),
        Err(error) => Err(error.to_string()),
    }
}

/// The bytes left, or what is said where the field cannot be passed.
pub open spec fn rest_outcome(result: Result<&[u8], String>) -> Result<Seq<u8>, Seq<char>> {
    match result {
        Ok(rest) => Ok(rest@),
        Err(message) => Err(message@),
    }
}

/// `prost::encoding::skip_field` moves past the value of a field. The result is named, and nothing
/// is put back.
#[verifier::external_body]
pub(crate) fn skip_field(wire: u8, tag: u32, bytes: &[u8]) -> (out: Result<&[u8], String>)
    ensures
        rest_outcome(out) == field_skipped(wire, tag, bytes@),
        out matches Ok(rest) ==> rest@.len() <= bytes@.len(),
{
    let kind = match prost::encoding::WireType::try_from(u64::from(wire)) {
        Ok(kind) => kind,
        Err(error) => return Err(error.to_string()),
    };
    let mut rest: &[u8] = bytes;
    let context = prost::encoding::DecodeContext::default();
    match prost::encoding::skip_field(kind, tag, &mut rest, context) {
        Ok(()) => Ok(rest),
        Err(error) => Err(error.to_string()),
    }
}

} // verus!
