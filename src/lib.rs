//! Page-cache introspection and device-mapper fault-table synthesis.
use vstd::prelude::*;
use vstd::string::*;

pub mod args;
pub mod devicemapper;
pub mod mount;
pub mod pagemap;
pub mod session;
pub mod text;

use crate::text::{find_either, parse_u32_in, scan_to, u32_of};

verus! {

/// A kernel release, as `major.minor.patch`.
#[derive(Debug, Clone, Copy, PartialEq, Eq, Structural)]
pub struct KernelVersion {
    pub major: u32,
    pub minor: u32,
    pub patch: u32,
}

/// The version at the head of a kernel release string such as `6.16.5-arch1-1`: the
/// first three fields, cut at `.` or `-`, each an unsigned decimal number that fits in
/// 32 bits. A release with fewer than three fields has none.
pub open spec fn version_of(s: Seq<char>) -> Option<KernelVersion> {
    let first = scan_to(s, 0, '.', '-');
    let second = scan_to(s, first + 1, '.', '-');
    let third = scan_to(s, second + 1, '.', '-');
    if first < s.len() && second < s.len() {
        match (
            u32_of(s.subrange(0, first)),
            u32_of(s.subrange(first + 1, second)),
            u32_of(s.subrange(second + 1, third)),
        ) {
            (Some(major), Some(minor), Some(patch)) => Some(KernelVersion { major, minor, patch }),
            _ => None,
        }
    } else {
        None
    }
}

/// Relies on nix's `uname`: the release field of the running kernel, when the call
/// succeeds.
#[verifier::external_body]
fn kernel_release() -> (r: Option<String>) {
    match nix::sys::utsname::uname() {
        Ok(u) => Some(u.release().to_string_lossy().into_owned()),
        Err(_) => None,
    }
}

impl KernelVersion {
    /// Reads the version at the head of a kernel release string.
    pub fn from_release(release: &str) -> (r: Option<KernelVersion>)
        ensures
            r == version_of(release@),
    {
        let n = release.unicode_len();
        let first = find_either(release, 0, '.', '-');
        if first == n {
            return None;
        }
        let second = find_either(release, first + 1, '.', '-');
        if second == n {
            return None;
        }
        let third = find_either(release, second + 1, '.', '-');
        let major = match parse_u32_in(release, 0, first) {
            Some(v) => v,
            None => {
                return None;
            },
        };
        let minor = match parse_u32_in(release, first + 1, second) {
            Some(v) => v,
            None => {
                return None;
            },
        };
        let patch = match parse_u32_in(release, second + 1, third) {
            Some(v) => v,
            None => {
                return None;
            },
        };
        Some(KernelVersion { major, minor, patch })
    }

    /// The version of the running kernel, or `None` when it cannot be read or its
    /// release string does not start with three numbers.
    pub fn current() -> (r: Option<KernelVersion>) {
        match kernel_release() {
            Some(release) => KernelVersion::from_release(release.as_str()),
            None => None,
        }
    }

    /// Is this release `maj.min` or newer (the patch level is not compared)?
    pub fn at_least(&self, maj: u32, min: u32) -> (r: bool)
        ensures
            r == (self.major > maj || (self.major == maj && self.minor >= min)),
    {
        self.major > maj || (self.major == maj && self.minor >= min)
    }
}

} // verus!
