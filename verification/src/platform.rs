//! Platform identification: mapping the host operating system to the token
//! that names its release asset.

use vstd::prelude::*;

verus! {

/// The operating systems the host can report.
///
/// The enumeration is exhaustive by construction: a host platform outside this
/// set cannot be expressed, so identification has no failure mode.
#[derive(Clone, Copy, Debug, PartialEq, Eq, Structural)]
pub enum Os {
    Windows,
    Mac,
    Linux,
}

/// The fixed set of platform tokens under which release assets are published.
///
/// The token strings are the authoritative table for asset naming; they are
/// not derived from an OS/architecture pair because the upstream release
/// naming is not uniform across platforms.
#[derive(Clone, Copy, Debug, PartialEq, Eq, Structural)]
pub enum PlatformToken {
    WindowsAmd64,
    DarwinAmd64,
    LinuxAmd64,
}

impl PlatformToken {
    /// The characters of the token as they appear in asset names.
    pub open spec fn spec_str(self) -> Seq<char> {
        match self {
            PlatformToken::WindowsAmd64 => "windows-amd64"@,
            PlatformToken::DarwinAmd64 => "darwin-amd64-c3lsp"@,
            PlatformToken::LinuxAmd64 => "linux-amd64-c3lsp"@,
        }
    }

    /// The token as an owned string.
    pub fn to_text(&self) -> (s: String)
        ensures
            s@ == self.spec_str(),
    {
        match self {
            PlatformToken::WindowsAmd64 => "windows-amd64".to_owned(),
            PlatformToken::DarwinAmd64 => "darwin-amd64-c3lsp".to_owned(),
            PlatformToken::LinuxAmd64 => "linux-amd64-c3lsp".to_owned(),
        }
    }
}

/// The token a given operating system is published under.
pub open spec fn spec_identify(os: Os) -> PlatformToken {
    match os {
        Os::Windows => PlatformToken::WindowsAmd64,
        Os::Mac => PlatformToken::DarwinAmd64,
        Os::Linux => PlatformToken::LinuxAmd64,
    }
}

/// Maps the host operating system to its platform token.
///
/// Total on the supported set: every expressible [`Os`] value yields exactly
/// one token, so identification cannot fail.
pub fn identify(os: Os) -> (t: PlatformToken)
    ensures
        t == spec_identify(os),
{
    match os {
        Os::Windows => PlatformToken::WindowsAmd64,
        Os::Mac => PlatformToken::DarwinAmd64,
        Os::Linux => PlatformToken::LinuxAmd64,
    }
}

} // verus!
