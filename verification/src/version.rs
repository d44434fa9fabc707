//! The version of a tool, read from what the tool prints when asked for it.

use crate::decode::{decode, output_text};
use crate::text::{is_blank, is_word, lemma_tokens_of_two_fields, tokens, words};
use vstd::prelude::*;
use vstd::string::StringExecFns;
use vstd::utf8::{encode_utf8, encode_utf8_decode_utf8, encode_utf8_valid_utf8};

verus! {

/// What stands for the version of a tool that gave none.
pub const NOT_PRESENT: &'static str = "not present";

/// The version that an output shows: its second token. Where there is no
/// output, or it is not text, or it has no second token, this is
/// `NOT_PRESENT`.
pub open spec fn version_text(output: Option<Vec<u8>>) -> Seq<char> {
    match output_text(output) {
        Some(text) => if tokens(text).len() >= 2 {
            tokens(text)[1]
        } else {
            NOT_PRESENT@
        },
        None => NOT_PRESENT@,
    }
}

/// Finds the second token of a text, if it has two.
pub fn second_token(text: &str) -> (token: Option<String>)
    ensures
        token is Some <==> tokens(text@).len() >= 2,
        token matches Some(found) ==> found@ == tokens(text@)[1],
{
    let all = words(text);
    if all.len() >= 2 {
        Some(all[1].clone())
    } else {
        None
    }
}

/// Reads the version of a tool from what it printed when asked, `None`
/// standing for a tool that could not be run.
pub fn extract_version(output: Option<Vec<u8>>) -> (version: String)
    ensures
        version@ == version_text(output),
        output is None ==> version@ == NOT_PRESENT@,
        output_text(output) matches Some(text) ==> version@ == if tokens(text).len() >= 2 {
            tokens(text)[1]
        } else {
            NOT_PRESENT@
        },
{
    match decode(output) {
        Some(text) => match second_token(text.as_str()) {
            Some(found) => found,
            None => String::from_str(NOT_PRESENT),
        },
        None => String::from_str(NOT_PRESENT),
    }
}

/// Of an output of two fields, the version is the second field: where a
/// tool printed a word, whitespace, a second word and then at most
/// whitespace, the version read from it is the second word.
pub proof fn lemma_version_of_two_fields(
    output: Vec<u8>,
    name: Seq<char>,
    gap: Seq<char>,
    version: Seq<char>,
    tail: Seq<char>,
)
    requires
        output@ == encode_utf8(name + gap + version + tail),
        is_word(name),
        is_blank(gap),
        gap.len() > 0,
        is_word(version),
        is_blank(tail),
    ensures
        version_text(Some(output)) == version,
{
    let text = name + gap + version + tail;
    encode_utf8_valid_utf8(text);
    encode_utf8_decode_utf8(text);
    lemma_tokens_of_two_fields(name, gap, version, tail);
}

/// Of an output with fewer than two tokens, the version is `NOT_PRESENT`,
/// as it is of an output that is not text and of a tool that gave none.
pub proof fn lemma_version_not_present(output: Option<Vec<u8>>)
    requires
        output_text(output) matches Some(text) ==> tokens(text).len() <= 1,
    ensures
        version_text(output) == NOT_PRESENT@,
{
}

} // verus!
