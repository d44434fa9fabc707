//! Sizes in bytes, written for people.

use vstd::prelude::*;
use vstd::string::StringExecFns;

verus! {

/// What `humansize` writes for a number of bytes in decimal units, that
/// is in powers of 1000: the number of units, with two decimals, or with
/// `zeroes` decimals where it is whole, then a space and the unit.
pub uninterp spec fn size_text(bytes: u64, zeroes: u8) -> Seq<char>;

/// `make_format` of `humansize`, called with the crate's options `DECIMAL`
/// after `decimal_zeroes` has set their number of decimals for whole values,
/// and the formatter it returns applied to `bytes`. The result is a function
/// of the two arguments alone, and nothing more is claimed of it.
#[verifier::external_body]
fn human_size(bytes: u64, zeroes: u8) -> (text: String)
    ensures
        text@ == size_text(bytes, zeroes),
{
    humansize::make_format(humansize::DECIMAL.decimal_zeroes(usize::from(zeroes)))(bytes)
}

/// The number of decimals shown for a whole number of units.
pub const WHOLE_DECIMALS: u8 = 1;

/// What stands between the memory in use and the memory in all.
pub const USE_ARROW: &'static str = " » ";

/// The memory in use and the memory in all, in one text.
pub open spec fn usage(used: Seq<char>, total: Seq<char>) -> Seq<char> {
    used + USE_ARROW@ + total
}

/// Joins the two sizes of a memory report.
pub fn usage_text(used: &str, total: &str) -> (text: String)
    ensures
        text@ == usage(used@, total@),
{
    let mut text = String::from_str(used);
    text.append(USE_ARROW);
    text.append(total);
    text
}

/// Writes how much of the memory is in use: both sizes in decimal units, the
/// one in use first.
pub fn memory_text(used: u64, total: u64) -> (text: String)
    ensures
        text@ == usage(size_text(used, WHOLE_DECIMALS), size_text(total, WHOLE_DECIMALS)),
{
    let used_text = human_size(used, WHOLE_DECIMALS);
    let total_text = human_size(total, WHOLE_DECIMALS);
    usage_text(used_text.as_str(), total_text.as_str())
}

} // verus!
