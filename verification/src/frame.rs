//! The byte layout of a heartbeat datagram.
//!
//! A datagram holds two text fields one after the other: the sender's name,
//! then the sending time. Each field is its length in bytes as a 64-bit
//! little-endian integer, followed by that many bytes of UTF-8. Nothing marks
//! the end of the datagram, so bytes after the second field are ignored.
//!
//! The layout is stated here as spec functions, the bytes themselves are
//! written and read by `bincode`, and the properties of the layout are proved
//! from the spec functions alone.

use vstd::bytes::lemma_auto_spec_u64_to_from_le_bytes;
use vstd::bytes::spec_u64_from_le_bytes;
use vstd::bytes::spec_u64_to_le_bytes;
use vstd::prelude::*;
use vstd::utf8::decode_utf8;
use vstd::utf8::decode_utf8_encode_utf8;
use vstd::utf8::encode_utf8;
use vstd::utf8::encode_utf8_decode_utf8;
use vstd::utf8::encode_utf8_valid_utf8;
use vstd::utf8::valid_utf8;

verus! {

/// The number of bytes that hold a field's length.
pub open spec fn prefix_len() -> int {
    8
}

/// A text whose length in bytes can be written in the length prefix.
pub open spec fn fits(text: Seq<char>) -> bool {
    encode_utf8(text).len() <= u64::MAX
}

/// One field: the length prefix, then the text as UTF-8.
pub open spec fn field(text: Seq<char>) -> Seq<u8> {
    spec_u64_to_le_bytes(encode_utf8(text).len() as u64) + encode_utf8(text)
}

/// A whole datagram: the name field, then the time field.
pub open spec fn frame(name: Seq<char>, time: Seq<char>) -> Seq<u8> {
    field(name) + field(time)
}

/// Reads one field from the front of `bytes`: the text, and the bytes that
/// follow the field. `None` where the prefix is incomplete, where it
/// announces more bytes than there are, or where the bytes it announces are
/// not UTF-8.
pub open spec fn read_field(bytes: Seq<u8>) -> Option<(Seq<char>, Seq<u8>)> {
    if bytes.len() < prefix_len() {
        None
    } else {
        let len = spec_u64_from_le_bytes(bytes.subrange(0, prefix_len())) as int;
        let end = prefix_len() + len;
        if bytes.len() < end {
            None
        } else if !valid_utf8(bytes.subrange(prefix_len(), end)) {
            None
        } else {
            Some(
                (
                    decode_utf8(bytes.subrange(prefix_len(), end)),
                    bytes.subrange(end, bytes.len() as int),
                ),
            )
        }
    }
}

/// Reads a whole datagram: the name and the time text, or `None` where
/// either field cannot be read.
pub open spec fn read_frame(bytes: Seq<u8>) -> Option<(Seq<char>, Seq<char>)> {
    match read_field(bytes) {
        None => None,
        Some((name, rest)) => match read_field(rest) {
            None => None,
            Some((time, _)) => Some((name, time)),
        },
    }
}

/// The error of `bincode`, of which nothing is looked at.
#[verifier::external_type_specification]
#[verifier::external_body]
pub struct ExBincodeErrorKind(bincode::ErrorKind);

/// Writes a datagram: `bincode::serialize` on the pair of the two texts.
///
/// Trusted: `bincode::serialize` writes integers at fixed width and little
/// endian, a string as its length in bytes in eight bytes followed by its
/// bytes, and a pair (as a struct) as its first part followed by its second,
/// with nothing in between: the bytes are [`frame`] of the two texts. It
/// writes into memory and sets no size limit, so it reports no error.
#[verifier::external_body]
pub(crate) fn bincode_write(name: &str, time: &str) -> (r: Result<Vec<u8>, bincode::Error>)
    ensures
        r is Ok,
        r matches Ok(bytes) ==> bytes@ == frame(name@, time@),
{
    bincode::serialize(&(name, time))
}

/// Reads a datagram: `bincode::deserialize` into a pair of strings.
///
/// Trusted: `bincode::deserialize` reads a string as eight bytes of length
/// and then that many bytes, which must be there and be UTF-8, reads a pair
/// as one string after the other, and does not look at what follows. It
/// succeeds exactly where [`read_frame`] finds two texts, and returns them.
#[verifier::external_body]
pub(crate) fn bincode_read(bytes: &[u8]) -> (r: Result<(String, String), bincode::Error>)
    ensures
        r is Ok <==> read_frame(bytes@) is Some,
        r matches Ok(texts) ==> read_frame(bytes@) == Some((texts.0@, texts.1@)),
{
    bincode::deserialize::<(String, String)>(bytes)
}

/// A field is as long as its prefix and its text together.
pub proof fn lemma_field_len(text: Seq<char>)
    ensures
        field(text).len() == prefix_len() + encode_utf8(text).len(),
{
    lemma_auto_spec_u64_to_from_le_bytes();
}

/// A field that was written is read back, whatever follows it.
pub proof fn lemma_field_reads_back(text: Seq<char>, rest: Seq<u8>)
    requires
        fits(text),
    ensures
        read_field(field(text) + rest) == Some((text, rest)),
{
    lemma_auto_spec_u64_to_from_le_bytes();
    let utf8 = encode_utf8(text);
    let prefix = spec_u64_to_le_bytes(utf8.len() as u64);
    let bytes = field(text) + rest;
    let end = prefix_len() + utf8.len();
    assert(bytes.subrange(0, prefix_len()) =~= prefix);
    assert(bytes.subrange(prefix_len(), end) =~= utf8);
    encode_utf8_valid_utf8(text);
    encode_utf8_decode_utf8(text);
}

/// Whatever is read as a field is the field of the text that was read,
/// followed by the rest that was read: no two texts are read from the same
/// bytes, and no bytes are read as a text that they do not spell.
pub proof fn lemma_field_read_is_field(bytes: Seq<u8>)
    requires
        read_field(bytes) is Some,
    ensures
        read_field(bytes) matches Some((text, rest)) && fits(text) && bytes == field(text) + rest,
{
    lemma_auto_spec_u64_to_from_le_bytes();
    let prefix = bytes.subrange(0, prefix_len());
    let len = spec_u64_from_le_bytes(prefix) as int;
    let end = prefix_len() + len;
    decode_utf8_encode_utf8(bytes.subrange(prefix_len(), end));
}

/// No proper prefix of a field is read as a field.
pub proof fn lemma_cut_field_rejected(text: Seq<char>, k: int)
    requires
        fits(text),
        0 <= k < field(text).len(),
    ensures
        read_field(field(text).subrange(0, k)) is None,
{
    lemma_auto_spec_u64_to_from_le_bytes();
    let utf8 = encode_utf8(text);
    let prefix = spec_u64_to_le_bytes(utf8.len() as u64);
    let cut = field(text).subrange(0, k);
    if k >= prefix_len() {
        assert(cut.subrange(0, prefix_len()) =~= prefix);
    }
}

/// Round trip of the layout: a datagram that was written is read back as the
/// two texts it was written from, whatever bytes follow it.
pub proof fn lemma_frame_round_trip(name: Seq<char>, time: Seq<char>, trailing: Seq<u8>)
    requires
        fits(name),
        fits(time),
    ensures
        read_frame(frame(name, time) + trailing) == Some((name, time)),
{
    assert(frame(name, time) + trailing =~= field(name) + (field(time) + trailing));
    lemma_field_reads_back(name, field(time) + trailing);
    lemma_field_reads_back(time, trailing);
}

/// A truncated datagram is rejected: no proper prefix of a datagram that was
/// written is read as a datagram.
pub proof fn lemma_truncated_frame_rejected(name: Seq<char>, time: Seq<char>, k: int)
    requires
        fits(name),
        fits(time),
        0 <= k < frame(name, time).len(),
    ensures
        read_frame(frame(name, time).subrange(0, k)) is None,
{
    let cut = frame(name, time).subrange(0, k);
    let first = field(name).len() as int;
    if k < first {
        assert(cut =~= field(name).subrange(0, k));
        lemma_cut_field_rejected(name, k);
    } else {
        let rest = field(time).subrange(0, k - first);
        assert(cut =~= field(name) + rest);
        lemma_field_reads_back(name, rest);
        lemma_cut_field_rejected(time, k - first);
    }
}

/// Nothing is invented on reading: bytes that are read as a datagram begin
/// with the very datagram that is written from the two texts read.
pub proof fn lemma_frame_read_is_frame(bytes: Seq<u8>)
    requires
        read_frame(bytes) is Some,
    ensures
        read_frame(bytes) matches Some((name, time)) && fits(name) && fits(time) && frame(
            name,
            time,
        ).len() <= bytes.len() && bytes.subrange(0, frame(name, time).len() as int) == frame(
            name,
            time,
        ),
{
    let (_, rest) = read_field(bytes)->0;
    lemma_field_read_is_field(bytes);
    lemma_field_read_is_field(rest);
}

} // verus!
