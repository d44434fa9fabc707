//! The banner beside the art, or alone.

use crate::args::{art_mode, wants_plain};
use crate::banner::{info_lines, is_banner, LINES};
use crate::facts::{HostFacts, ToolFacts};
use crate::paint::{face, paint, Tint};
use crate::text::views;
use vstd::prelude::*;
use vstd::string::StringExecFns;

verus! {

/// The art: a crab, row by row. It has a row for each line of the banner.
pub const FERRIS_ART: [&'static str; 15] = [
    "                                              ",
    "              ▄   ▓▄ ▄▓▓  ▓▓                  ",
    "            ▄  ▓▓▓▓▓▓▓▓▓▓▓▓▓▓▓▓▓▓  ▄          ",
    "           ▐▓▓▓▓▓▓▓▓▓▓▓▓▓▓▓▓▓▓▓▓▓▓▓▓          ",
    "        ▓▓▓▓▓▓▓▓▓▓▓▓▓▓▓▓▓▓▓▓▓▓▓▓▓▓▓▓▓▓▓▌      ",
    "      ▄▄▓▓▓▓▓▓▓▓▓▓▓▓▓▓▓▓▓▓▓▓▓▓▓▓▓▓▓▓▓▓▓▄▄▄    ",
    "      ▓▓▓▓▓▓▓▓▓▓▓▓▓▓▓▓▓▓▓▓▓▓▓▓▓▓▓▓▓▓▓▓▓▓▓▌    ",
    "   ▐▓▓▓▓▓▓▓▓▓▓▓▓▓▓▓▀▓▄▒▓▓▓▓▓▀▓▄▓▓▓▓▓▓▓▓▓▓▓▓▓  ",
    "    ▐▓▓▓▓▓▓▓▓▓▓▓▓▓▌ ▐██▒▓▓▒▌ ██▌▓▓▓▓▓▓▓▓▓▓▓   ",
    "  ▄▓▓▓▓▓▓▓▓▓▓▓▓▓▓▓█████▒▓▓▒████▌▓▓▓▓▓▓▓▓▓▓▓▓▓▄",
    " ▓▓▓▌▀▓▓▓▓▓▓▓▓▓▓▒▄▄▌▒▓▓▓▓▓▒▒▄▒▒▓▓▓▓▒▒▓▓▀▀▓▀▓▓▓",
    "  ▀▓▓▄ ▀▄ ▀▓▓▀▓▀▒▓▓▓▒▀▓▒▓▓▀▒▓▓▓▒▀▓▀▓▒▓▀  ▀ ▐▓▀",
    "    ▓▄  ▄  ▀▓▓▓▓▓▀▀▀         ▓▓▓▓▓▀    ▀ ▄▓   ",
    "      ▀       ▀▓▓▓▓▄▄     ▄▄▓▓▓▀         ▀    ",
    "                 ▀▀▀▀     ▀▀▀                 ",
];

/// The art has as many rows as the banner has lines, so that with the art
/// every line of the banner has its row and every row its line.
pub proof fn lemma_art_fits_banner()
    ensures
        FERRIS_ART@.len() == LINES,
{
}

/// What stands between a row of the art and the line beside it.
pub const GAP: &'static str = "   ";

/// A row of the art in bright red, in one of its two faces, then the gap,
/// then a line.
pub open spec fn beside_face(row: Seq<char>, line: Seq<char>, colouring: bool) -> Seq<char> {
    face(row, Tint::BrightRed.code(), colouring) + GAP@ + line
}

/// Whether `out` shows `line` beside the row of the art.
pub open spec fn is_beside(out: Seq<char>, row: Seq<char>, line: Seq<char>) -> bool {
    exists|colouring: bool| out == beside_face(row, line, colouring)
}

/// Whether `out` is what is to be printed for the lines `info`. With the
/// art, each line stands beside the row of the art that has its place, as
/// far as both the lines and the rows go. Without it, the lines stand as
/// they are.
pub open spec fn is_rendered(out: Seq<Seq<char>>, art: bool, info: Seq<Seq<char>>) -> bool {
    if art {
        &&& out.len() == if info.len() < FERRIS_ART@.len() {
            info.len()
        } else {
            FERRIS_ART@.len()
        }
        &&& forall|i: int|
            0 <= i < out.len() ==> is_beside(#[trigger] out[i], FERRIS_ART[i]@, info[i])
    } else {
        out == info
    }
}

/// Sets a line beside a row of the art as it came from the styling.
pub fn beside(row: &str, line: &str) -> (out: String)
    ensures
        out@ == row@ + GAP@ + line@,
{
    let mut out = String::from_str(row);
    out.append(GAP);
    out.append(line);
    out
}

/// Lays out what is to be printed, line by line: the lines of the banner
/// beside the art, which is bright red, or the lines alone.
pub fn render(art: bool, info: &[String]) -> (out: Vec<String>)
    ensures
        is_rendered(views(out@), art, views(info@)),
        info@.len() == LINES ==> out@.len() == LINES,
{
    let mut out: Vec<String> = Vec::new();
    let mut i: usize = 0;
    if art {
        while i < info.len() && i < FERRIS_ART.len()
            invariant
                i <= info@.len(),
                i <= FERRIS_ART@.len(),
                out@.len() == i,
                forall|k: int|
                    0 <= k < i ==> is_beside(#[trigger] out@[k]@, FERRIS_ART[k]@, info@[k]@),
            decreases info@.len() - i,
        {
            let row = paint(FERRIS_ART[i], Tint::BrightRed);
            let line = beside(row.as_str(), info[i].as_str());
            proof {
                let colouring = row@ != FERRIS_ART[i as int]@;
                assert(line@ == beside_face(FERRIS_ART[i as int]@, info@[i as int]@, colouring));
            }
            out.push(line);
            i = i + 1;
        }
    } else {
        while i < info.len()
            invariant
                i <= info@.len(),
                out@.len() == i,
                forall|k: int| 0 <= k < i ==> #[trigger] out@[k]@ == info@[k]@,
            decreases info@.len() - i,
        {
            out.push(info[i].clone());
            i = i + 1;
        }
        assert(views(out@) =~= views(info@));
    }
    out
}

/// Whether `out` is what the program prints for these arguments and these
/// facts: the banner, beside the art unless the arguments ask for the banner
/// alone.
pub open spec fn is_screen(
    out: Seq<Seq<char>>,
    args: Seq<Seq<char>>,
    host: HostFacts,
    tools: ToolFacts,
) -> bool {
    exists|info: Seq<Seq<char>>|
        #[trigger] is_banner(info, host, tools) && is_rendered(out, !wants_plain(args), info)
}

/// Lays out everything that the program prints, from its arguments and from
/// the facts that it has gathered.
pub fn screen(args: &[String], host: &HostFacts, tools: &ToolFacts) -> (out: Vec<String>)
    ensures
        is_screen(views(out@), views(args@), *host, *tools),
        out@.len() == LINES,
{
    let info = info_lines(host, tools);
    render(art_mode(args), info.as_slice())
}

} // verus!
