//! What the banner reports: facts of the host and of the toolchain.

use crate::packages::{count_packages, package_count};
use crate::version::{extract_version, version_text};
use vstd::prelude::*;
use vstd::string::StringExecFns;

verus! {

/// What stands for a name that the system did not give.
pub const UNKNOWN_NAME: &'static str = "unknown";

/// What stands for a kernel version that the system did not give.
pub const UNKNOWN_KERNEL: &'static str = "Unknown";

/// A text that was found, or else what stands for it.
pub open spec fn text_or(found: Option<String>, fallback: Seq<char>) -> Seq<char> {
    match found {
        Some(text) => text@,
        None => fallback,
    }
}

/// Puts the fallback in the place of a text that was not found.
pub fn known_or(found: Option<String>, fallback: &str) -> (text: String)
    ensures
        text@ == text_or(found, fallback@),
{
    match found {
        Some(text) => text,
        None => String::from_str(fallback),
    }
}

/// Facts of the machine and of who uses it.
#[derive(Clone, Debug)]
pub struct HostFacts {
    /// The name of the user.
    pub username: String,
    /// The name of the machine.
    pub hostname: String,
    /// The name of the operating system's distribution.
    pub os: String,
    /// The version of the kernel.
    pub kernel: String,
    /// The brand of the processor.
    pub cpu: String,
    /// The size of the memory, in bytes.
    pub total_memory: u64,
    /// The size of the memory in use, in bytes.
    pub used_memory: u64,
}

/// Facts of the toolchain: the version of each tool, and the number of
/// installed packages.
#[derive(Clone, Debug)]
pub struct ToolFacts {
    /// The version of the compiler.
    pub rustc: String,
    /// The version of the toolchain installer.
    pub rustup: String,
    /// The version of the package manager.
    pub cargo: String,
    /// The number of packages that the package manager has installed.
    pub crates: usize,
}

impl HostFacts {
    /// Gathers the facts of the host from what the system gave. A name that
    /// it did not give becomes `UNKNOWN_NAME`, a kernel version
    /// `UNKNOWN_KERNEL`.
    pub fn new(
        username: Option<String>,
        hostname: Option<String>,
        os: String,
        kernel: Option<String>,
        cpu: String,
        total_memory: u64,
        used_memory: u64,
    ) -> (facts: HostFacts)
        ensures
            facts.username@ == text_or(username, UNKNOWN_NAME@),
            facts.hostname@ == text_or(hostname, UNKNOWN_NAME@),
            facts.os@ == os@,
            facts.kernel@ == text_or(kernel, UNKNOWN_KERNEL@),
            facts.cpu@ == cpu@,
            facts.total_memory == total_memory,
            facts.used_memory == used_memory,
    {
        HostFacts {
            username: known_or(username, UNKNOWN_NAME),
            hostname: known_or(hostname, UNKNOWN_NAME),
            os,
            kernel: known_or(kernel, UNKNOWN_KERNEL),
            cpu,
            total_memory,
            used_memory,
        }
    }
}

impl ToolFacts {
    /// Gathers the facts of the toolchain from what its tools printed: the
    /// compiler, the toolchain installer and the package manager when asked
    /// for their version, and the package manager when asked to list what
    /// it has installed. `None` stands for a tool that could not be run.
    pub fn new(
        rustc: Option<Vec<u8>>,
        rustup: Option<Vec<u8>>,
        cargo: Option<Vec<u8>>,
        listing: Option<Vec<u8>>,
    ) -> (tools: ToolFacts)
        ensures
            tools.rustc@ == version_text(rustc),
            tools.rustup@ == version_text(rustup),
            tools.cargo@ == version_text(cargo),
            tools.crates == package_count(listing),
    {
        ToolFacts {
            rustc: extract_version(rustc),
            rustup: extract_version(rustup),
            cargo: extract_version(cargo),
            crates: count_packages(listing),
        }
    }
}

} // verus!
