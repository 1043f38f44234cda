use vstd::prelude::*;
use crate::error::Error;

verus! {

/// The characters that `b` encodes in UTF-8, where `b` is valid UTF-8.
pub uninterp spec fn utf8_text(b: Seq<u8>) -> Option<Seq<char>>;

/// Relies on `String::from_utf8`: the decoded text where the bytes are valid
/// UTF-8, and an error otherwise.
#[verifier::external_body]
fn decode_utf8(b: Vec<u8>) -> (r: Option<String>)
    ensures
        r is Some <==> utf8_text(b@) is Some,
        r matches Some(s) ==> utf8_text(b@) == Some(s@),
{
    String::from_utf8(b).ok()
}

/// A file's contents as text; an error where they are not valid UTF-8.
pub fn read_text(bytes: Vec<u8>) -> (r: Result<String, Error>)
    ensures
        r is Ok <==> utf8_text(bytes@) is Some,
        r matches Ok(s) ==> utf8_text(bytes@) == Some(s@),
        r matches Err(e) ==> e is Etc && e->Etc_0@ == "Utf8Error"@,
{
    match decode_utf8(bytes) {
        Some(s) => Ok(s),
        None => Err(Error::Etc(String::from_str("Utf8Error"))),
    }
}

} // verus!
