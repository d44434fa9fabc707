//! A terminal banner of host and toolchain facts, beside a small piece of art.
//!
//! The crate turns what a program has learnt about its machine (user, host,
//! kernel, processor, memory, the versions of a few developer tools) into the
//! fixed list of lines of the banner, and pairs that list with the art. Reading
//! the machine and writing to the terminal are left to the caller.

pub mod args;
pub mod banner;
pub mod command;
pub mod decode;
pub mod facts;
pub mod number;
pub mod packages;
pub mod paint;
pub mod render;
pub mod size;
pub mod text;
pub mod version;
