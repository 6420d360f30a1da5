//! Byte strings and their text.

use vstd::prelude::*;
use vstd::string::*;
use vstd::utf8::*;

verus! {

/// Append a slice of bytes.
pub fn push_bytes(out: &mut Vec<u8>, more: &[u8])
    ensures
        final(out)@ == old(out)@ + more@,
{
    let ghost before = out@;
    for i in 0..more.len()
        invariant
            out@ == before + more@.take(i as int),
    {
        out.push(more[i]);
        assert(before + more@.take(i + 1) =~= (before + more@.take(i as int)).push(more@[i as int]));
    }
    assert(more@.take(more@.len() as int) =~= more@);
}

/// A copy of a slice of bytes.
pub fn copied(bytes: &[u8]) -> (out: Vec<u8>)
    ensures
        out@ == bytes@,
{
    let mut out: Vec<u8> = Vec::new();
    push_bytes(&mut out, bytes);
    out
}

/// The text of a byte string, with replacement characters where it is not
/// UTF-8.
pub uninterp spec fn lossy_utf8(bytes: Seq<u8>) -> Seq<char>;

/// `String::from_utf8_lossy`: the text of the bytes. Bytes that are valid
/// UTF-8 are decoded; which replacement characters stand for invalid ones is
/// left to the name.
#[verifier::external_body]
pub(crate) fn text_lossy(bytes: &[u8]) -> (out: String)
    ensures
        out@ == lossy_utf8(bytes@),
        valid_utf8(bytes@) ==> out@ == decode_utf8(bytes@),
{
    String::from_utf8_lossy(bytes).into_owned()
}

/// `std::str::from_utf8`: the text of the bytes, when they are valid UTF-8.
#[verifier::external_body]
pub(crate) fn text_of_utf8(bytes: &[u8]) -> (out: Option<String>)
    ensures
        match out {
            Some(s) => valid_utf8(bytes@) && s@ == decode_utf8(bytes@),
            None => !valid_utf8(bytes@),
        },
{
    std::str::from_utf8(bytes).ok().map(str::to_string)
}

} // verus!
