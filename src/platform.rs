//! The operating system and processor the tool runs on.

use vstd::prelude::*;

verus! {

/// Why a platform query failed.
#[derive(Debug)]
pub enum PlatformError {
    Unsupported,
    Other(String),
}

impl PlatformError {
    pub open spec fn text(&self) -> Seq<char> {
        match self {
            PlatformError::Unsupported => "Unsupported operation on this platform"@,
            PlatformError::Other(m) => "Platform error: "@ + m@,
        }
    }

    pub fn to_string(&self) -> (r: String)
        ensures
            r@ == self.text(),
    {
        match self {
            PlatformError::Unsupported => String::from_str("Unsupported operation on this platform"),
            PlatformError::Other(m) => String::from_str("Platform error: ").concat(m.as_str()),
        }
    }
}

/// The platform: system, processor and system version.
#[derive(Debug, Clone, PartialEq, Eq)]
pub struct PlatformInfo {
    pub os: OS,
    pub arch: Architecture,
    pub version: String,
}

#[derive(Debug, Clone, Copy, PartialEq, Eq, Structural)]
pub enum OS {
    Linux,
    Windows,
    MacOS,
    Unknown,
}

#[derive(Debug, Clone, Copy, PartialEq, Eq, Structural)]
pub enum Architecture {
    X86_64,
    AArch64,
    Unknown,
}

/// Whether two strings hold the same characters.
pub fn same_text(a: &str, b: &str) -> (r: bool)
    ensures
        r == (a@ == b@),
{
    let n = a.unicode_len();
    if n != b.unicode_len() {
        return false;
    }
    let mut i: usize = 0;
    while i < n
        invariant
            n == a@.len() == b@.len(),
            i <= n,
            forall|k: int| 0 <= k < i ==> a@[k] == b@[k],
        decreases n - i,
    {
        if a.get_char(i) != b.get_char(i) {
            return false;
        }
        i = i + 1;
    }
    proof {
        assert(a@ =~= b@);
    }
    true
}

impl Architecture {
    /// The architecture a name stands for, as Rust's and other tools' names spell it.
    pub open spec fn named(s: Seq<char>) -> Architecture {
        if s == "x86_64"@ || s == "x86"@ || s == "amd64"@ {
            Architecture::X86_64
        } else if s == "aarch64"@ || s == "arm64"@ {
            Architecture::AArch64
        } else {
            Architecture::Unknown
        }
    }
}

impl<'a> From<&'a str> for Architecture {
    fn from(arch: &'a str) -> (r: Architecture)
        ensures
            r == Architecture::named(arch@),
    {
        if same_text(arch, "x86_64") || same_text(arch, "x86") || same_text(arch, "amd64") {
            Architecture::X86_64
        } else if same_text(arch, "aarch64") || same_text(arch, "arm64") {
            Architecture::AArch64
        } else {
            Architecture::Unknown
        }
    }
}

impl<'a> vstd::std_specs::convert::FromSpecImpl<&'a str> for Architecture {
    open spec fn obeys_from_spec() -> bool {
        true
    }

    open spec fn from_spec(arch: &'a str) -> Architecture {
        Architecture::named(arch@)
    }
}

impl Default for Architecture {
    fn default() -> (r: Self)
        ensures
            r == Architecture::Unknown,
    {
        Architecture::Unknown
    }
}

impl Default for OS {
    fn default() -> (r: Self)
        ensures
            r == OS::Unknown,
    {
        OS::Unknown
    }
}

impl Default for PlatformInfo {
    fn default() -> (r: Self)
        ensures
            r.os == OS::Unknown,
            r.arch == Architecture::Unknown,
            r.version@.len() == 0,
    {
        PlatformInfo { os: OS::Unknown, arch: Architecture::Unknown, version: String::new() }
    }
}

} // verus!
