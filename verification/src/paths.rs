//! Paths as the library holds them: the bytes of the operating system's
//! encoding of the path, and the text that a path is shown as.

use vstd::prelude::*;
use vstd::slice::slice_to_vec;
use vstd::utf8::{decode_utf8, encode_utf8, valid_utf8};

verus! {

/// The text that `bytes` read as when every invalid UTF-8 sequence in them
/// is replaced by U+FFFD.
pub uninterp spec fn lossy_text(bytes: Seq<u8>) -> Seq<char>;

/// The text that the bytes of a path are shown as. Calls
/// `String::from_utf8_lossy`: its result is named `lossy_text`, and bytes that
/// are valid UTF-8 read as the characters they encode. How each invalid
/// sequence is replaced is not stated.
#[verifier::external_body]
pub(crate) fn path_text(bytes: &[u8]) -> (text: String)
    ensures
        text@ == lossy_text(bytes@),
        valid_utf8(bytes@) ==> text@ == decode_utf8(bytes@),
{
    String::from_utf8_lossy(bytes).into_owned()
}

/// The bytes of the path written as `text`: its UTF-8 encoding.
pub fn path_bytes(text: &str) -> (bytes: Vec<u8>)
    ensures
        bytes@ == encode_utf8(text@),
{
    slice_to_vec(text.as_bytes())
}

/// The bytes of a path written as text are empty exactly when the text is.
pub proof fn path_bytes_empty(text: Seq<char>)
    ensures
        encode_utf8(text).len() == 0 <==> text.len() == 0,
{
    broadcast use vstd::utf8::encode_utf8_decode_utf8;

    if encode_utf8(text).len() == 0 {
        assert(encode_utf8(text) =~= Seq::<u8>::empty());
        assert(decode_utf8(Seq::<u8>::empty()) =~= Seq::<char>::empty());
    }
}

} // verus!
