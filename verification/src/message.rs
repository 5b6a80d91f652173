//! Copying the runtime's error message out of the runtime's memory.
//!
//! The runtime keeps its message as bytes that end with a zero byte, and keeps
//! them only until the next call into it. The copy made here is an owned
//! string, so it outlives them.

use vstd::prelude::*;
use vstd::slice::slice_subrange;
use vstd::utf8::{
    decode_utf8, encode_utf8, encode_utf8_decode_utf8, encode_utf8_valid_utf8, is_ascii_chars,
    is_ascii_chars_encode_utf8, valid_utf8,
};

verus! {

/// What `String::from_utf8_lossy` makes of bytes that are not UTF-8.
pub uninterp spec fn lossy_utf8(bytes: Seq<u8>) -> Seq<char>;

/// The characters that `bytes` are read as: the characters that they encode
/// where they are UTF-8, else what the lossy decoding makes of them.
pub open spec fn lossy_text(bytes: Seq<u8>) -> Seq<char> {
    if valid_utf8(bytes) {
        decode_utf8(bytes)
    } else {
        lossy_utf8(bytes)
    }
}

/// Calls `String::from_utf8_lossy`, which reads `bytes` as UTF-8 and puts
/// U+FFFD in the place of whatever is not, and takes the result as an owned
/// string. The contract claims two things of it, neither of them proved here:
/// bytes that are UTF-8 come out as the characters they encode, and for other
/// bytes the result depends on the bytes alone.
#[verifier::external_body]
fn decode_lossy(bytes: &[u8]) -> (text: String)
    ensures
        valid_utf8(bytes@) ==> text@ == decode_utf8(bytes@),
        !valid_utf8(bytes@) ==> text@ == lossy_utf8(bytes@),
{
    String::from_utf8_lossy(bytes).into_owned()
}

/// How many bytes of `bytes` come before its first zero byte; all of them
/// where none is zero.
pub open spec fn text_len(bytes: Seq<u8>) -> nat
    decreases bytes.len(),
{
    if bytes.len() == 0 || bytes[0] == 0 {
        0
    } else {
        1 + text_len(bytes.skip(1))
    }
}

/// The bytes of the text that `bytes` holds: those before the first zero byte.
pub open spec fn text_bytes(bytes: Seq<u8>) -> Seq<u8> {
    bytes.take(text_len(bytes) as int)
}

/// The message as this crate hands it on: none where the runtime had none,
/// else the text of its bytes, decoded.
pub open spec fn copied(raw: Option<Seq<u8>>) -> Option<Seq<char>> {
    match raw {
        Some(bytes) => Some(lossy_text(text_bytes(bytes))),
        None => None,
    }
}

/// The characters of an optional string.
pub open spec fn text_view(message: Option<String>) -> Option<Seq<char>> {
    match message {
        Some(text) => Some(text@),
        None => None,
    }
}

/// The bytes of an optional byte vector.
pub open spec fn bytes_view(raw: Option<Vec<u8>>) -> Option<Seq<u8>> {
    match raw {
        Some(bytes) => Some(bytes@),
        None => None,
    }
}

/// `text_len` is where the text ends: no byte before it is zero, and the byte
/// at it, if there is one, is zero. No other position is like that.
pub proof fn lemma_text_len(bytes: Seq<u8>)
    ensures
        text_len(bytes) <= bytes.len(),
        forall|i: int| 0 <= i < text_len(bytes) ==> bytes[i] != 0,
        text_len(bytes) < bytes.len() ==> bytes[text_len(bytes) as int] == 0,
        forall|n: int|
            0 <= n <= bytes.len() && (forall|i: int| 0 <= i < n ==> bytes[i] != 0) && (n
                < bytes.len() ==> bytes[n] == 0) ==> n == text_len(bytes),
    decreases bytes.len(),
{
    if bytes.len() == 0 || bytes[0] == 0 {
    } else {
        let rest = bytes.skip(1);
        lemma_text_len(rest);
        assert forall|i: int| 0 <= i < text_len(bytes) implies bytes[i] != 0 by {
            if i > 0 {
                assert(rest[i - 1] == bytes[i]);
            }
        }
        if text_len(bytes) < bytes.len() {
            assert(rest[text_len(rest) as int] == bytes[text_len(bytes) as int]);
        }
        assert forall|n: int|
            0 <= n <= bytes.len() && (forall|i: int| 0 <= i < n ==> bytes[i] != 0) && (n
                < bytes.len() ==> bytes[n] == 0) implies n == text_len(bytes) by {
            assert(n > 0);
            assert forall|i: int| 0 <= i < n - 1 implies rest[i] != 0 by {
                assert(rest[i] == bytes[i + 1]);
            }
            if n - 1 < rest.len() {
                assert(rest[n - 1] == bytes[n]);
            }
        }
    }
}

/// Bytes below 128 are read as the characters with those codes, one for one.
pub proof fn lemma_ascii_is_verbatim(bytes: Seq<u8>)
    requires
        forall|i: int| 0 <= i < bytes.len() ==> bytes[i] < 128,
    ensures
        valid_utf8(bytes),
        lossy_text(bytes) == Seq::new(bytes.len(), |i: int| bytes[i] as char),
{
    let chars = Seq::new(bytes.len(), |i: int| bytes[i] as char);
    assert(is_ascii_chars(chars));
    is_ascii_chars_encode_utf8(chars);
    assert(encode_utf8(chars) =~= bytes);
    encode_utf8_valid_utf8(chars);
    encode_utf8_decode_utf8(chars);
}

/// The length of the text in `bytes`.
pub fn text_length(bytes: &[u8]) -> (n: usize)
    ensures
        n == text_len(bytes@),
        n <= bytes@.len(),
{
    let mut n: usize = 0;
    while n < bytes.len() && bytes[n] != 0
        invariant
            n <= bytes@.len(),
            forall|i: int| 0 <= i < n ==> bytes@[i] != 0,
        decreases bytes@.len() - n,
    {
        n += 1;
    }
    proof {
        lemma_text_len(bytes@);
    }
    n
}

/// Copies the runtime's message into an owned string. `raw` is what the
/// runtime's message pointer leads to: nothing where the pointer is null, else
/// the bytes behind it. The text ends before the first zero byte; what is not
/// UTF-8 in it is replaced, not refused.
pub fn copy_message(raw: Option<Vec<u8>>) -> (message: Option<String>)
    ensures
        text_view(message) == copied(bytes_view(raw)),
        message is Some <==> raw is Some,
{
    match raw {
        Some(bytes) => {
            let n: usize = text_length(bytes.as_slice());
            let text = slice_subrange(bytes.as_slice(), 0, n);
            assert(text@ == text_bytes(bytes@));
            Some(decode_lossy(text))
        },
        None => None,
    }
}

} // verus!
