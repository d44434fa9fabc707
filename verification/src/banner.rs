//! The lines of the banner.

use crate::facts::{HostFacts, ToolFacts};
use crate::number::{decimal, decimal_text};
use crate::paint::{bold, bold_code, bright_red_bold, face, paint, Tint};
use crate::size::{memory_text, size_text, usage, WHOLE_DECIMALS};
use crate::text::views;
use vstd::prelude::*;
use vstd::string::{StrSliceExecFns, StringExecFns};

verus! {

/// The number of lines of the banner.
pub const LINES: usize = 15;

/// What stands between the user's name and the machine's.
pub const AT: &'static str = "@";

/// The one character of which the rule under the heading is made.
pub const RULE: &'static str = "═";

/// One cell of a palette.
pub const BLOCK: &'static str = "███";

/// The label of the compiler's version.
pub const RUSTC_LABEL: &'static str = "  rustc: ";

/// The label of the toolchain installer's version.
pub const RUSTUP_LABEL: &'static str = " rustup: ";

/// The label of the package manager's version.
pub const CARGO_LABEL: &'static str = "  cargo: ";

/// The label of the number of installed packages.
pub const CRATES_LABEL: &'static str = " crates: ";

/// The label of the operating system.
pub const OS_LABEL: &'static str = "     os: ";

/// The label of the kernel's version.
pub const KERNEL_LABEL: &'static str = " kernel: ";

/// The label of the processor.
pub const CPU_LABEL: &'static str = "    cpu: ";

/// The label of the memory.
pub const RAM_LABEL: &'static str = "    ram: ";

/// A rule of `n` characters.
pub open spec fn rule(n: nat) -> Seq<char> {
    Seq::new(n, |i: int| '═')
}

/// The heading, `user@host`, with each of its three parts in one of its two
/// faces: the names in bold bright red, the sign between them in bold.
pub open spec fn heading_face(
    username: Seq<char>,
    hostname: Seq<char>,
    user_on: bool,
    at_on: bool,
    host_on: bool,
) -> Seq<char> {
    face(username, Tint::BrightRed.bold_code(), user_on) + face(AT@, bold_code(), at_on) + face(
        hostname,
        Tint::BrightRed.bold_code(),
        host_on,
    )
}

/// Whether `line` is the heading for these two names.
pub open spec fn is_heading(line: Seq<char>, username: Seq<char>, hostname: Seq<char>) -> bool {
    exists|user_on: bool, at_on: bool, host_on: bool|
        line == heading_face(username, hostname, user_on, at_on, host_on)
}

/// A value behind its label, the label in bright red and in one of its two
/// faces.
pub open spec fn labeled_face(label: Seq<char>, value: Seq<char>, colouring: bool) -> Seq<char> {
    face(label, Tint::BrightRed.code(), colouring) + value
}

/// Whether `line` shows `value` behind `label`.
pub open spec fn is_labeled(line: Seq<char>, label: Seq<char>, value: Seq<char>) -> bool {
    exists|colouring: bool| line == labeled_face(label, value, colouring)
}

/// A palette: one block for each colour, in the order given, each block in
/// one of its two faces.
pub open spec fn palette_face(tints: Seq<Tint>, colouring: Seq<bool>) -> Seq<char>
    recommends
        colouring.len() == tints.len(),
{
    Seq::new(tints.len(), |i: int| face(BLOCK@, tints[i].code(), colouring[i])).flatten()
}

/// Whether `line` is a palette of these colours.
pub open spec fn is_palette(line: Seq<char>, tints: Seq<Tint>) -> bool {
    exists|colouring: Seq<bool>|
        colouring.len() == tints.len() && line == palette_face(tints, colouring)
}

/// The colours of the bright palette, in order.
pub open spec fn bright_palette() -> Seq<Tint> {
    seq![
        Tint::BrightRed,
        Tint::BrightYellow,
        Tint::BrightGreen,
        Tint::BrightCyan,
        Tint::BrightBlue,
        Tint::BrightMagenta,
        Tint::BrightBlack,
        Tint::BrightWhite,
    ]
}

/// The colours of the dark palette, in order.
pub open spec fn dark_palette() -> Seq<Tint> {
    seq![
        Tint::Red,
        Tint::Yellow,
        Tint::Green,
        Tint::Cyan,
        Tint::Blue,
        Tint::Magenta,
        Tint::Black,
        Tint::White,
    ]
}

/// Whether `lines` is the banner for these facts: fifteen lines, which are,
/// in order, a blank one, the heading, the rule, the versions of the
/// compiler, of the toolchain installer and of the package manager, the
/// number of installed packages, the operating system, the kernel, the
/// processor, the memory, a blank one, the two palettes and a blank one.
pub open spec fn is_banner(lines: Seq<Seq<char>>, host: HostFacts, tools: ToolFacts) -> bool {
    &&& lines.len() == LINES
    &&& lines[0] == Seq::<char>::empty()
    &&& is_heading(lines[1], host.username@, host.hostname@)
    &&& lines[2] == rule(host.username@.len() + host.hostname@.len() + 1)
    &&& is_labeled(lines[3], RUSTC_LABEL@, tools.rustc@)
    &&& is_labeled(lines[4], RUSTUP_LABEL@, tools.rustup@)
    &&& is_labeled(lines[5], CARGO_LABEL@, tools.cargo@)
    &&& is_labeled(lines[6], CRATES_LABEL@, decimal(tools.crates as nat))
    &&& is_labeled(lines[7], OS_LABEL@, host.os@)
    &&& is_labeled(lines[8], KERNEL_LABEL@, host.kernel@)
    &&& is_labeled(lines[9], CPU_LABEL@, host.cpu@)
    &&& is_labeled(
        lines[10],
        RAM_LABEL@,
        usage(
            size_text(host.used_memory, WHOLE_DECIMALS),
            size_text(host.total_memory, WHOLE_DECIMALS),
        ),
    )
    &&& lines[11] == Seq::<char>::empty()
    &&& is_palette(lines[12], bright_palette())
    &&& is_palette(lines[13], dark_palette())
    &&& lines[14] == Seq::<char>::empty()
}

/// Sets the three parts of a heading side by side.
pub fn heading_of(user: &str, at: &str, host: &str) -> (line: String)
    ensures
        line@ == user@ + at@ + host@,
{
    let mut line = String::from_str(user);
    line.append(at);
    line.append(host);
    line
}

/// Writes the heading: the user's name and the machine's in bold bright red,
/// with a bold `@` between them.
pub fn heading(username: &str, hostname: &str) -> (line: String)
    ensures
        is_heading(line@, username@, hostname@),
{
    let user = bright_red_bold(username);
    let at = bold(AT);
    let host = bright_red_bold(hostname);
    let line = heading_of(user.as_str(), at.as_str(), host.as_str());
    proof {
        let user_on = user@ != username@;
        let at_on = at@ != AT@;
        let host_on = host@ != hostname@;
        assert(line@ == heading_face(username@, hostname@, user_on, at_on, host_on));
    }
    line
}

/// Makes a rule longer by `count` characters.
fn lengthen(line: &mut String, count: usize)
    ensures
        final(line)@ == old(line)@ + rule(count as nat),
{
    proof {
        reveal_strlit("═");
    }
    let ghost before = line@;
    let mut done: usize = 0;
    while done < count
        invariant
            done <= count,
            line@ == before + rule(done as nat),
            RULE@ == seq!['═'],
        decreases count - done,
    {
        line.append(RULE);
        done = done + 1;
    }
}

/// Draws the rule under the heading: as long as the heading is, counted in
/// characters, which is the two names and the sign between them.
pub fn separator(username: &str, hostname: &str) -> (line: String)
    ensures
        line@ == rule(username@.len() + hostname@.len() + 1),
        line@.len() == username@.len() + hostname@.len() + 1,
{
    let mut line = String::new();
    lengthen(&mut line, username.unicode_len());
    lengthen(&mut line, 1);
    lengthen(&mut line, hostname.unicode_len());
    line
}

/// Sets a value behind its label as it came from the styling.
pub fn tagged(tag: &str, value: &str) -> (line: String)
    ensures
        line@ == tag@ + value@,
{
    let mut line = String::from_str(tag);
    line.append(value);
    line
}

/// Writes a value behind its label, the label in bright red.
pub fn labeled(label: &str, value: &str) -> (line: String)
    ensures
        is_labeled(line@, label@, value@),
{
    let tag = paint(label, Tint::BrightRed);
    let line = tagged(tag.as_str(), value);
    proof {
        let colouring = tag@ != label@;
        assert(line@ == labeled_face(label@, value@, colouring));
    }
    line
}

/// Writes a palette: one block for each of the colours, in their order.
pub fn palette(tints: &Vec<Tint>) -> (line: String)
    ensures
        is_palette(line@, tints@),
{
    let mut line = String::new();
    let ghost mut colouring: Seq<bool> = Seq::empty();
    let mut done: usize = 0;
    while done < tints.len()
        invariant
            done <= tints.len(),
            colouring.len() == done,
            line@ == palette_face(tints@.take(done as int), colouring),
        decreases tints.len() - done,
    {
        let block = paint(BLOCK, tints[done]);
        proof {
            let on = block@ != BLOCK@;
            let before = Seq::new(
                done as nat,
                |i: int| face(BLOCK@, tints@.take(done as int)[i].code(), colouring[i]),
            );
            let grown = colouring.push(on);
            let after = Seq::new(
                (done + 1) as nat,
                |i: int| face(BLOCK@, tints@.take(done + 1)[i].code(), grown[i]),
            );
            assert(after =~= before.push(block@));
            before.lemma_flatten_push(block@);
            colouring = grown;
        }
        line.append(block.as_str());
        done = done + 1;
    }
    proof {
        assert(tints@.take(done as int) =~= tints@);
    }
    line
}

/// The colours of the bright palette.
pub fn bright_tints() -> (tints: Vec<Tint>)
    ensures
        tints@ == bright_palette(),
{
    let tints = vec![
        Tint::BrightRed,
        Tint::BrightYellow,
        Tint::BrightGreen,
        Tint::BrightCyan,
        Tint::BrightBlue,
        Tint::BrightMagenta,
        Tint::BrightBlack,
        Tint::BrightWhite,
    ];
    tints
}

/// The colours of the dark palette.
pub fn dark_tints() -> (tints: Vec<Tint>)
    ensures
        tints@ == dark_palette(),
{
    let tints = vec![
        Tint::Red,
        Tint::Yellow,
        Tint::Green,
        Tint::Cyan,
        Tint::Blue,
        Tint::Magenta,
        Tint::Black,
        Tint::White,
    ];
    tints
}

/// Writes the banner: its fifteen lines, in order.
pub fn info_lines(host: &HostFacts, tools: &ToolFacts) -> (lines: Vec<String>)
    ensures
        lines@.len() == LINES,
        lines@[2]@.len() == host.username@.len() + host.hostname@.len() + 1,
        is_banner(views(lines@), *host, *tools),
{
    let crates = decimal_text(tools.crates);
    let memory = memory_text(host.used_memory, host.total_memory);
    let mut lines: Vec<String> = Vec::new();
    lines.push(String::new());
    lines.push(heading(host.username.as_str(), host.hostname.as_str()));
    lines.push(separator(host.username.as_str(), host.hostname.as_str()));
    lines.push(labeled(RUSTC_LABEL, tools.rustc.as_str()));
    lines.push(labeled(RUSTUP_LABEL, tools.rustup.as_str()));
    lines.push(labeled(CARGO_LABEL, tools.cargo.as_str()));
    lines.push(labeled(CRATES_LABEL, crates.as_str()));
    lines.push(labeled(OS_LABEL, host.os.as_str()));
    lines.push(labeled(KERNEL_LABEL, host.kernel.as_str()));
    lines.push(labeled(CPU_LABEL, host.cpu.as_str()));
    lines.push(labeled(RAM_LABEL, memory.as_str()));
    lines.push(String::new());
    lines.push(palette(&bright_tints()));
    lines.push(palette(&dark_tints()));
    lines.push(String::new());
    lines
}

} // verus!
