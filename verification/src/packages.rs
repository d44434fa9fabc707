//! The number of installed packages, counted in the listing that the package
//! manager prints.
//!
//! The listing names each package on a line of its own and sets what
//! belongs to a package on indented lines below it. So the lines that are
//! not indented are counted.

use crate::decode::{decode, output_text};
use crate::text::chars_of;
use vstd::prelude::*;
use vstd::utf8::{encode_utf8, encode_utf8_decode_utf8, encode_utf8_valid_utf8};

verus! {

/// The number of characters before the first line feed of a text, or of
/// the whole text where it holds none.
pub open spec fn line_len(text: Seq<char>) -> nat
    decreases text.len(),
{
    if text.len() == 0 || text[0] == '\n' {
        0
    } else {
        1 + line_len(text.skip(1))
    }
}

/// The lines of a text: what stands between its line feeds. What follows the
/// last line feed is a line only if it is not empty.
pub open spec fn lines(text: Seq<char>) -> Seq<Seq<char>>
    decreases text.len(),
{
    if text.len() == 0 {
        Seq::empty()
    } else {
        let n = line_len(text);
        if n < text.len() {
            seq![text.take(n as int)] + lines(text.skip(n as int + 1))
        } else {
            seq![text]
        }
    }
}

/// Whether a line begins with four spaces.
pub open spec fn is_indented(line: Seq<char>) -> bool {
    line.len() >= 4 && line[0] == ' ' && line[1] == ' ' && line[2] == ' ' && line[3] == ' '
}

/// The number of lines that are not indented.
pub open spec fn top_level(lines: Seq<Seq<char>>) -> nat {
    lines.filter(|line: Seq<char>| !is_indented(line)).len()
}

/// The number of packages that a listing names: that of its lines that are
/// not indented, and none where there is no listing to read.
pub open spec fn package_count(listing: Option<Vec<u8>>) -> nat {
    match output_text(listing) {
        Some(text) => top_level(lines(text)),
        None => 0,
    }
}

/// A stretch without a line feed that ends the text, or that a line feed
/// follows, is the first line.
proof fn lemma_line_len(text: Seq<char>, n: int)
    requires
        0 <= n <= text.len(),
        forall|i: int| 0 <= i < n ==> text[i] != '\n',
        n == text.len() || text[n] == '\n',
    ensures
        line_len(text) == n,
    decreases n,
{
    if n > 0 {
        lemma_line_len(text.skip(1), n - 1);
    }
}

/// The lines from a place on are the line that begins there and the lines
/// behind its line feed.
proof fn lemma_lines_from(text: Seq<char>, start: int, end: int)
    requires
        0 <= start < text.len(),
        start <= end <= text.len(),
        forall|i: int| start <= i < end ==> text[i] != '\n',
        end == text.len() || text[end] == '\n',
    ensures
        lines(text.skip(start)) == seq![text.subrange(start, end)] + if end < text.len() {
            lines(text.skip(end + 1))
        } else {
            Seq::empty()
        },
{
    let rest = text.skip(start);
    lemma_line_len(rest, end - start);
    assert(rest.take(end - start) == text.subrange(start, end));
    if end < text.len() {
        assert(rest.skip(end - start + 1) == text.skip(end + 1));
    }
}

/// A line in front of others counts where it is not indented.
proof fn lemma_top_level_behind(first: Seq<char>, rest: Seq<Seq<char>>)
    ensures
        top_level(seq![first] + rest) == top_level(rest) + if is_indented(first) {
            0nat
        } else {
            1nat
        },
        top_level(Seq::empty()) == 0,
{
    rest.lemma_filter_prepend(first, |line: Seq<char>| !is_indented(line));
    reveal(Seq::filter);
}

/// Counts the lines of a text that are not indented.
pub fn count_top_level(text: &str) -> (count: usize)
    ensures
        count == top_level(lines(text@)),
{
    let chars = chars_of(text);
    let len = chars.len();
    let mut count: usize = 0;
    let mut start: usize = 0;
    assert(text@.skip(0) == text@);
    while start < len
        invariant
            chars@ == text@,
            len == chars@.len(),
            start <= len,
            count <= start,
            count + top_level(lines(text@.skip(start as int))) == top_level(lines(text@)),
        decreases len - start,
    {
        let mut end: usize = start;
        while end < len && chars[end] != '\n'
            invariant
                len == chars@.len(),
                start <= end <= len,
                forall|i: int| start <= i < end ==> chars@[i] != '\n',
            decreases len - end,
        {
            end = end + 1;
        }
        let indented = end - start >= 4 && chars[start] == ' ' && chars[start + 1] == ' '
            && chars[start + 2] == ' ' && chars[start + 3] == ' ';
        proof {
            let line = text@.subrange(start as int, end as int);
            let behind = if end < len {
                lines(text@.skip(end + 1))
            } else {
                Seq::empty()
            };
            lemma_lines_from(text@, start as int, end as int);
            lemma_top_level_behind(line, behind);
        }
        if !indented {
            count = count + 1;
        }
        start = if end < len {
            end + 1
        } else {
            end
        };
    }
    proof {
        lemma_top_level_behind(Seq::empty(), Seq::empty());
    }
    count
}

/// Counts the packages in the listing of the package manager. The count
/// is 0 where the listing could not be had, or is not text.
pub fn count_packages(listing: Option<Vec<u8>>) -> (count: usize)
    ensures
        count == package_count(listing),
        listing is None ==> count == 0,
        output_text(listing) matches Some(text) ==> count == top_level(lines(text)),
{
    match decode(listing) {
        Some(text) => count_top_level(text.as_str()),
        None => 0,
    }
}

/// Whether a text holds no line feed.
pub open spec fn is_line(text: Seq<char>) -> bool {
    forall|i: int| 0 <= i < text.len() ==> text[i] != '\n'
}

/// The text in which each of the entries is followed by a line feed.
pub open spec fn listing_of(entries: Seq<Seq<char>>) -> Seq<char>
    decreases entries.len(),
{
    if entries.len() == 0 {
        Seq::empty()
    } else {
        entries[0] + seq!['\n'] + listing_of(entries.skip(1))
    }
}

/// The lines of a text in which a line feed follows each entry are the
/// entries.
pub proof fn lemma_lines_of_listing(entries: Seq<Seq<char>>)
    requires
        forall|i: int| 0 <= i < entries.len() ==> is_line(#[trigger] entries[i]),
    ensures
        lines(listing_of(entries)) == entries,
    decreases entries.len(),
{
    if entries.len() > 0 {
        let first = entries[0];
        let rest = entries.skip(1);
        let text = listing_of(entries);
        lemma_line_len(text, first.len() as int);
        assert(text.take(first.len() as int) == first);
        assert(text.skip(first.len() as int + 1) == listing_of(rest));
        lemma_lines_of_listing(rest);
    }
}

/// Of a listing in which a line feed follows each entry, the number of
/// packages is the number of entries that are not indented.
pub proof fn lemma_count_of_listing(listing: Vec<u8>, entries: Seq<Seq<char>>)
    requires
        listing@ == encode_utf8(listing_of(entries)),
        forall|i: int| 0 <= i < entries.len() ==> is_line(#[trigger] entries[i]),
    ensures
        package_count(Some(listing)) == top_level(entries),
{
    let text = listing_of(entries);
    encode_utf8_valid_utf8(text);
    encode_utf8_decode_utf8(text);
    lemma_lines_of_listing(entries);
}

} // verus!
