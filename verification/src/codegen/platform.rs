use vstd::prelude::*;

verus! {

/// Instruction-set architecture of a compilation target.
#[derive(Clone, Copy, Debug, PartialEq, Eq, Structural)]
pub enum Arch {
    AArch64,
    X86_64,
}

/// Operating system of a compilation target.
#[derive(Clone, Copy, Debug, PartialEq, Eq, Structural)]
pub enum Platform {
    MacOS,
    Linux,
}

/// A compilation target: operating system plus architecture.
#[derive(Clone, Copy, Debug, PartialEq, Eq, Structural)]
pub struct Target {
    pub platform: Platform,
    pub arch: Arch,
}

impl Target {
    /// Builds a target from its platform and architecture.
    pub fn new(platform: Platform, arch: Arch) -> (t: Target)
        ensures
            t.platform == platform,
            t.arch == arch,
    {
        Target { platform, arch }
    }
}

/// Value of the C `LC_CTYPE` locale category on a platform.
pub open spec fn spec_lc_ctype(p: Platform) -> i64 {
    match p {
        Platform::MacOS => 2,
        Platform::Linux => 0,
    }
}

impl Platform {
    /// Returns the platform's `LC_CTYPE` category number for `setlocale`.
    pub fn lc_ctype(&self) -> (n: i64)
        ensures
            n == spec_lc_ctype(*self),
    {
        match self {
            Platform::MacOS => 2,
            Platform::Linux => 0,
        }
    }
}

} // verus!
