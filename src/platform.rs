use vstd::prelude::*;
use vstd::string::*;
use crate::text::same_text;

verus! {

/// The host operating-system family.
#[derive(Clone, Copy, Debug, PartialEq, Eq, Structural)]
pub enum Platform {
    Windows,
    Linux,
    MacOS,
    Unknown,
}

/// The platform family named by an operating-system identifier such as
/// `"windows"`, `"linux"` or `"macos"`.
pub open spec fn platform_of(os: Seq<char>) -> Platform {
    if os == "windows"@ {
        Platform::Windows
    } else if os == "linux"@ {
        Platform::Linux
    } else if os == "macos"@ {
        Platform::MacOS
    } else {
        Platform::Unknown
    }
}

/// The architecture token for a target-architecture identifier: 64-bit x86
/// is `"x64"`, everything else is treated as `"x86"`.
pub open spec fn architecture_of(target_arch: Seq<char>) -> Seq<char> {
    if target_arch == "x86_64"@ {
        "x64"@
    } else {
        "x86"@
    }
}

impl Platform {
    /// Classifies the host from its operating-system identifier.
    pub fn detect(os: &str) -> (r: Platform)
        ensures
            r == platform_of(os@),
    {
        if same_text(os, "windows") {
            Platform::Windows
        } else if same_text(os, "linux") {
            Platform::Linux
        } else if same_text(os, "macos") {
            Platform::MacOS
        } else {
            Platform::Unknown
        }
    }
}

/// The architecture token used in artifact names for the given target.
pub fn get_architecture(target_arch: &str) -> (r: String)
    ensures
        r@ == architecture_of(target_arch@),
{
    if same_text(target_arch, "x86_64") {
        String::from_str("x64")
    } else {
        String::from_str("x86")
    }
}

/// The architecture to install for: the manifest's own, unless it is `"auto"`,
/// which stands for the host's.
pub open spec fn effective_arch_of(manifest_arch: Seq<char>, host_arch: Seq<char>) -> Seq<char> {
    if manifest_arch == "auto"@ {
        host_arch
    } else {
        manifest_arch
    }
}

/// Resolves the manifest's architecture against the host's.
pub fn effective_arch(manifest_arch: &str, host_arch: &str) -> (r: String)
    ensures
        r@ == effective_arch_of(manifest_arch@, host_arch@),
{
    if same_text(manifest_arch, "auto") {
        String::from_str(host_arch)
    } else {
        String::from_str(manifest_arch)
    }
}

} // verus!
