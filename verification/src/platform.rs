//! The operating system the daemon runs on.
use vstd::prelude::*;
use crate::text::chars_eq_str;

verus! {

#[derive(Clone, Copy, Debug, PartialEq, Eq)]
pub enum PlatformKind {
    Windows,
    Linux,
    MacOS,
    Unknown,
}

/// The platform named by an operating-system name as Rust's standard
/// library spells it (`"windows"`, `"linux"`, `"macos"`).
pub open spec fn platform_of(os: Seq<char>) -> PlatformKind {
    if os == "windows"@ {
        PlatformKind::Windows
    } else if os == "linux"@ {
        PlatformKind::Linux
    } else if os == "macos"@ {
        PlatformKind::MacOS
    } else {
        PlatformKind::Unknown
    }
}

/// The platform for the target operating system `os`.
pub fn detect(os: &str) -> (r: PlatformKind)
    ensures
        r == platform_of(os@),
{
    let c = crate::text::chars_of(os);
    if chars_eq_str(&c, "windows") {
        PlatformKind::Windows
    } else if chars_eq_str(&c, "linux") {
        PlatformKind::Linux
    } else if chars_eq_str(&c, "macos") {
        PlatformKind::MacOS
    } else {
        PlatformKind::Unknown
    }
}

} // verus!
