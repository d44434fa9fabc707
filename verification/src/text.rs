//! Characters, whitespace and whitespace-delimited tokens.

use vstd::prelude::*;
use vstd::string::{StrSliceExecFns, StringExecFns};

verus! {

/// Whether `c` is whitespace: one of the code points that Unicode marks
/// as `White_Space`.
pub open spec fn is_white_space(c: char) -> bool {
    let n = c as u32;
    ||| 0x09 <= n <= 0x0D
    ||| n == 0x20
    ||| n == 0x85
    ||| n == 0xA0
    ||| n == 0x1680
    ||| 0x2000 <= n <= 0x200A
    ||| n == 0x2028
    ||| n == 0x2029
    ||| n == 0x202F
    ||| n == 0x205F
    ||| n == 0x3000
}

/// Tells whether a character separates tokens.
pub fn is_space(c: char) -> (space: bool)
    ensures
        space == is_white_space(c),
{
    let n: u32 = c as u32;
    (0x09 <= n && n <= 0x0D) || n == 0x20 || n == 0x85 || n == 0xA0 || n == 0x1680 || (0x2000 <= n
        && n <= 0x200A) || n == 0x2028 || n == 0x2029 || n == 0x202F || n == 0x205F || n == 0x3000
}

/// The texts that a list of strings holds.
pub open spec fn views(lines: Seq<String>) -> Seq<Seq<char>> {
    Seq::new(lines.len(), |i: int| lines[i]@)
}

/// The characters of a text, one by one.
pub fn chars_of(text: &str) -> (chars: Vec<char>)
    ensures
        chars@ == text@,
{
    broadcast use vstd::string::group_string_axioms;

    let mut chars: Vec<char> = Vec::new();
    let letters = text.chars();
    for c in it: letters
        invariant
            it.seq() == text@,
            chars@ == it.seq().take(it.index()),
    {
        chars.push(c);
    }
    chars
}

/// The number of characters before the first whitespace of a text, or of
/// the whole text where it holds none.
pub open spec fn word_len(text: Seq<char>) -> nat
    decreases text.len(),
{
    if text.len() == 0 || is_white_space(text[0]) {
        0
    } else {
        1 + word_len(text.skip(1))
    }
}

/// The tokens of a text: its longest stretches without whitespace, in
/// order.
pub open spec fn tokens(text: Seq<char>) -> Seq<Seq<char>>
    decreases text.len(),
    via tokens_decreases
{
    if text.len() == 0 {
        Seq::empty()
    } else if is_white_space(text[0]) {
        tokens(text.skip(1))
    } else {
        let n = word_len(text) as int;
        seq![text.take(n)] + tokens(text.skip(n))
    }
}

#[via_fn]
proof fn tokens_decreases(text: Seq<char>) {
    lemma_word_len_bound(text);
}

/// A word is no longer than the text that it begins.
proof fn lemma_word_len_bound(text: Seq<char>)
    ensures
        word_len(text) <= text.len(),
    decreases text.len(),
{
    if text.len() > 0 && !is_white_space(text[0]) {
        lemma_word_len_bound(text.skip(1));
    }
}

/// A stretch without whitespace that ends the text, or that whitespace
/// follows, is the word that begins the text.
proof fn lemma_word_len(text: Seq<char>, n: int)
    requires
        0 <= n <= text.len(),
        forall|i: int| 0 <= i < n ==> !is_white_space(text[i]),
        n == text.len() || is_white_space(text[n]),
    ensures
        word_len(text) == n,
    decreases n,
{
    if n > 0 {
        lemma_word_len(text.skip(1), n - 1);
    }
}

/// Splits a text into its tokens.
pub fn words(text: &str) -> (out: Vec<String>)
    ensures
        views(out@) == tokens(text@),
{
    let chars = chars_of(text);
    let len = chars.len();
    let mut out: Vec<String> = Vec::new();
    let mut i: usize = 0;
    assert(text@.skip(0) == text@);
    while i < len
        invariant
            chars@ == text@,
            len == chars@.len(),
            i <= len,
            views(out@) + tokens(text@.skip(i as int)) == tokens(text@),
        decreases len - i,
    {
        let ghost rest = text@.skip(i as int);
        if is_space(chars[i]) {
            assert(rest.skip(1) == text@.skip(i + 1));
            i = i + 1;
        } else {
            let start = i;
            while i < len && !is_space(chars[i])
                invariant
                    len == chars@.len(),
                    start <= i <= len,
                    forall|k: int| start <= k < i ==> !is_white_space(chars@[k]),
                decreases len - i,
            {
                i = i + 1;
            }
            let word = String::from_str(text.substring_char(start, i));
            proof {
                lemma_word_len(rest, i - start);
                assert(rest.take(i - start) == word@);
                assert(rest.skip(i - start) == text@.skip(i as int));
            }
            out.push(word);
        }
    }
    out
}

/// Whether a text is a word: not empty, and without whitespace.
pub open spec fn is_word(text: Seq<char>) -> bool {
    text.len() > 0 && forall|i: int| 0 <= i < text.len() ==> !is_white_space(text[i])
}

/// Whether a text is nothing but whitespace.
pub open spec fn is_blank(text: Seq<char>) -> bool {
    forall|i: int| 0 <= i < text.len() ==> is_white_space(text[i])
}

/// Whitespace in front of a text adds no token to it.
pub proof fn lemma_tokens_behind_blank(blank: Seq<char>, rest: Seq<char>)
    requires
        is_blank(blank),
    ensures
        tokens(blank + rest) == tokens(rest),
    decreases blank.len(),
{
    if blank.len() > 0 {
        assert((blank + rest).skip(1) == blank.skip(1) + rest);
        lemma_tokens_behind_blank(blank.skip(1), rest);
    }
}

/// A word in front of a text that does not go on with it is the first
/// token, and the tokens of the text follow.
pub proof fn lemma_tokens_behind_word(word: Seq<char>, rest: Seq<char>)
    requires
        is_word(word),
        rest.len() == 0 || is_white_space(rest[0]),
    ensures
        tokens(word + rest) == seq![word] + tokens(rest),
{
    let text = word + rest;
    lemma_word_len(text, word.len() as int);
    assert(text.take(word.len() as int) == word);
    assert(text.skip(word.len() as int) == rest);
}

/// A text of two words, with whitespace between them and maybe behind them,
/// has these two words as its tokens.
pub proof fn lemma_tokens_of_two_fields(
    first: Seq<char>,
    gap: Seq<char>,
    second: Seq<char>,
    tail: Seq<char>,
)
    requires
        is_word(first),
        is_blank(gap),
        gap.len() > 0,
        is_word(second),
        is_blank(tail),
    ensures
        tokens(first + gap + second + tail) == seq![first, second],
{
    let behind_first = gap + (second + tail);
    assert(first + gap + second + tail == first + behind_first);
    lemma_tokens_behind_word(first, behind_first);
    lemma_tokens_behind_blank(gap, second + tail);
    lemma_tokens_behind_word(second, tail);
    lemma_tokens_behind_blank(tail, Seq::empty());
}

} // verus!
