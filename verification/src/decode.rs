//! From the bytes that a tool has written to the text that they encode.

use vstd::prelude::*;
use vstd::utf8::{decode_utf8, valid_utf8};

verus! {

/// The error of `String::from_utf8`, which is carried and never looked into.
#[verifier::external_type_specification]
#[verifier::external_body]
pub struct ExFromUtf8Error(std::string::FromUtf8Error);

/// `String::from_utf8` succeeds on the byte sequences that are UTF-8, and on
/// no others, and then gives the text that the bytes encode.
pub assume_specification[ String::from_utf8 ](bytes: Vec<u8>) -> (text: Result<
    String,
    std::string::FromUtf8Error,
>)
    ensures
        text is Ok <==> valid_utf8(bytes@),
        text matches Ok(decoded) ==> decoded@ == decode_utf8(bytes@),
;

/// The text of an output: what its bytes encode, where there is an output
/// and it is UTF-8.
pub open spec fn output_text(output: Option<Vec<u8>>) -> Option<Seq<char>> {
    match output {
        Some(bytes) => if valid_utf8(bytes@) {
            Some(decode_utf8(bytes@))
        } else {
            None
        },
        None => None,
    }
}

/// Reads an output as text. There is none where the tool gave no output, or
/// one that is not UTF-8.
pub fn decode(output: Option<Vec<u8>>) -> (text: Option<String>)
    ensures
        text is Some <==> output_text(output) is Some,
        text matches Some(decoded) ==> Some(decoded@) == output_text(output),
{
    match output {
        Some(bytes) => match String::from_utf8(bytes) {
            Ok(decoded) => Some(decoded),
            Err(_) => None,
        },
        None => None,
    }
}

} // verus!
