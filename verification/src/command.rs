//! Command lines: a program and its arguments in one text.

use crate::text::{lemma_tokens_behind_blank, lemma_tokens_behind_word, tokens, views, words};
use vstd::prelude::*;

verus! {

/// The command line that asks the compiler for its version.
pub const RUSTC_VERSION: &'static str = "rustc  -V";

/// The command line that asks the package manager for its version.
pub const CARGO_VERSION: &'static str = "cargo  -V";

/// The command line that asks the toolchain installer for its version.
pub const RUSTUP_VERSION: &'static str = "rustup -V";

/// The command line that asks the package manager to list what it has
/// installed.
pub const CARGO_LISTING: &'static str = "cargo install --list";

/// Each of the four command lines names a program and so can be split: the
/// compiler, the package manager and the toolchain installer are each
/// asked with the one argument `-V`, and the package manager is asked to
/// list with the two arguments `install` and `--list`.
pub proof fn lemma_commands_name_programs()
    ensures
        tokens(RUSTC_VERSION@).len() > 0,
        tokens(CARGO_VERSION@).len() > 0,
        tokens(RUSTUP_VERSION@).len() > 0,
        tokens(CARGO_LISTING@).len() > 0,
        tokens(RUSTC_VERSION@) == seq![seq!['r', 'u', 's', 't', 'c'], seq!['-', 'V']],
        tokens(CARGO_VERSION@) == seq![seq!['c', 'a', 'r', 'g', 'o'], seq!['-', 'V']],
        tokens(RUSTUP_VERSION@) == seq![seq!['r', 'u', 's', 't', 'u', 'p'], seq!['-', 'V']],
        tokens(CARGO_LISTING@) == seq![
            seq!['c', 'a', 'r', 'g', 'o'],
            seq!['i', 'n', 's', 't', 'a', 'l', 'l'],
            seq!['-', '-', 'l', 'i', 's', 't'],
        ],
{
    reveal_strlit("rustc  -V");
    reveal_strlit("cargo  -V");
    reveal_strlit("rustup -V");
    reveal_strlit("cargo install --list");
    let flag = seq!['-', 'V'];
    let none = Seq::<char>::empty();
    lemma_tokens_behind_word(flag, none);

    let rustc = seq!['r', 'u', 's', 't', 'c'];
    lemma_tokens_behind_blank(seq![' ', ' '], flag + none);
    lemma_tokens_behind_word(rustc, seq![' ', ' '] + (flag + none));
    assert(RUSTC_VERSION@ == rustc + (seq![' ', ' '] + (flag + none)));

    let cargo = seq!['c', 'a', 'r', 'g', 'o'];
    lemma_tokens_behind_word(cargo, seq![' ', ' '] + (flag + none));
    assert(CARGO_VERSION@ == cargo + (seq![' ', ' '] + (flag + none)));

    let rustup = seq!['r', 'u', 's', 't', 'u', 'p'];
    lemma_tokens_behind_blank(seq![' '], flag + none);
    lemma_tokens_behind_word(rustup, seq![' '] + (flag + none));
    assert(RUSTUP_VERSION@ == rustup + (seq![' '] + (flag + none)));

    let install = seq!['i', 'n', 's', 't', 'a', 'l', 'l'];
    let list = seq!['-', '-', 'l', 'i', 's', 't'];
    lemma_tokens_behind_word(list, none);
    lemma_tokens_behind_blank(seq![' '], list + none);
    lemma_tokens_behind_word(install, seq![' '] + (list + none));
    lemma_tokens_behind_blank(seq![' '], install + (seq![' '] + (list + none)));
    lemma_tokens_behind_word(cargo, seq![' '] + (install + (seq![' '] + (list + none))));
    assert(CARGO_LISTING@ == cargo + (seq![' '] + (install + (seq![' '] + (list + none)))));
}

/// Tells whether a command line names a program at all.
pub fn names_program(command: &str) -> (named: bool)
    ensures
        named == (tokens(command@).len() > 0),
{
    words(command).len() > 0
}

/// Splits a command line into the program, which is its first token, and
/// the arguments, which are the others.
pub fn split_command(command: &str) -> (parts: (String, Vec<String>))
    requires
        tokens(command@).len() > 0,
    ensures
        parts.0@ == tokens(command@)[0],
        views(parts.1@) == tokens(command@).skip(1),
{
    let mut arguments = words(command);
    let program = arguments.remove(0);
    (program, arguments)
}

} // verus!
