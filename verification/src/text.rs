//! Text on its way to and from the engine, which reads and writes zero-terminated
//! strings.
use crate::error::LWGeomError;
use vstd::prelude::*;
use vstd::slice::slice_subrange;
use vstd::string::StringSliceAdditionalSpecFns;
use vstd::utf8::{
    decode_utf8, encode_utf8, encode_utf8_decode_utf8, encode_utf8_valid_utf8, valid_utf8,
};

verus! {

/// No byte of `bytes` is zero.
pub open spec fn nul_free(bytes: Seq<u8>) -> bool {
    forall|i: int| 0 <= i < bytes.len() ==> bytes[i] != 0
}

/// The first zero byte of `bytes` is at `position`.
pub open spec fn first_nul_at(bytes: Seq<u8>, position: int) -> bool {
    &&& 0 <= position < bytes.len()
    &&& bytes[position] == 0
    &&& nul_free(bytes.take(position))
}

/// The bytes of a buffer that ends in a terminator, without the terminator. An
/// empty buffer holds no text.
pub open spec fn before_terminator(buffer: Seq<u8>) -> Seq<u8> {
    if buffer.len() == 0 {
        buffer
    } else {
        buffer.drop_last()
    }
}

/// The text that `String::from_utf8_lossy` makes of `bytes`.
pub uninterp spec fn lossy_text(bytes: Seq<u8>) -> Seq<char>;

/// `String::from_utf8_lossy`, with the result made an owned `String`. Bytes that
/// are valid UTF-8 are decoded as they stand; in other bytes each invalid
/// sequence gives way to U+FFFD, which the contract only names.
#[verifier::external_body]
fn from_utf8_lossy(bytes: &[u8]) -> (s: String)
    ensures
        s@ == lossy_text(bytes@),
        valid_utf8(bytes@) ==> s@ == decode_utf8(bytes@),
{
    String::from_utf8_lossy(bytes).into_owned()
}

/// The bytes of `text` followed by a terminating zero, as the engine reads text.
/// Text that holds a zero byte cannot be handed over: the error names the
/// position of the first one.
pub fn c_string(text: &str) -> (r: Result<Vec<u8>, LWGeomError>)
    ensures
        match r {
            Ok(bytes) => nul_free(text.spec_bytes()) && bytes@ == text.spec_bytes().push(0),
            Err(e) => e matches LWGeomError::NulError(position) && first_nul_at(
                text.spec_bytes(),
                position as int,
            ),
        },
{
    let source = text.as_bytes();
    let mut bytes: Vec<u8> = Vec::new();
    let mut i: usize = 0;
    while i < source.len()
        invariant
            i <= source@.len(),
            source@ == text.spec_bytes(),
            bytes@ == source@.take(i as int),
            nul_free(source@.take(i as int)),
        decreases source@.len() - i,
    {
        let b: u8 = source[i];
        if b == 0 {
            return Err(LWGeomError::NulError(i));
        }
        bytes.push(b);
        assert(source@.take(i + 1) =~= source@.take(i as int).push(b));
        i = i + 1;
    }
    assert(source@.take(i as int) =~= source@);
    bytes.push(0);
    Ok(bytes)
}

/// The text in a buffer that the engine wrote: the bytes before the terminator,
/// decoded as UTF-8, with U+FFFD in place of what is no UTF-8.
pub fn text_of_buffer(buffer: &Vec<u8>) -> (s: String)
    ensures
        s@ == lossy_text(before_terminator(buffer@)),
        valid_utf8(before_terminator(buffer@)) ==> s@ == decode_utf8(before_terminator(buffer@)),
{
    let n: usize = buffer.len();
    if n == 0 {
        assert(buffer@ =~= before_terminator(buffer@));
        from_utf8_lossy(buffer.as_slice())
    } else {
        let body = slice_subrange(buffer.as_slice(), 0, n - 1);
        assert(body@ =~= before_terminator(buffer@));
        from_utf8_lossy(body)
    }
}

/// Text comes back as it went: the buffer made of the bytes of `text` and a
/// terminator holds, before the terminator, valid UTF-8 that decodes to `text`.
pub proof fn lemma_text_round_trip(text: Seq<char>)
    ensures
        before_terminator(encode_utf8(text).push(0)) == encode_utf8(text),
        valid_utf8(before_terminator(encode_utf8(text).push(0))),
        decode_utf8(before_terminator(encode_utf8(text).push(0))) == text,
{
    assert(encode_utf8(text).push(0).drop_last() =~= encode_utf8(text));
    encode_utf8_valid_utf8(text);
    encode_utf8_decode_utf8(text);
}

} // verus!
