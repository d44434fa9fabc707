//! The arguments of the program.

use crate::text::views;
use vstd::prelude::*;
use vstd::string::StringExecFns;

verus! {

/// The flag that asks for the banner without the art.
pub const PLAIN_FLAG: &'static str = "-s";

/// Whether the arguments ask for the banner alone: there are two of them,
/// the program's name and the flag.
pub open spec fn wants_plain(args: Seq<Seq<char>>) -> bool {
    args.len() == 2 && args[1] == PLAIN_FLAG@
}

/// Tells from the arguments of the program, its own name first, whether the
/// art is to be shown.
pub fn art_mode(args: &[String]) -> (art: bool)
    ensures
        art == !wants_plain(views(args@)),
{
    if args.len() == 2 {
        let flag = String::from_str(PLAIN_FLAG);
        !(args[1] == flag)
    } else {
        true
    }
}

} // verus!
