//! PlatformProbe: platform build facts — SDK root path, OS version
//! string, architecture flag.
//!
//! The callers run the platform's locator commands and hand the captured
//! results in; the classification and reduction logic here is pure. On
//! platforms without these facilities every query takes an explicit
//! neutral value and never fails.

use vstd::prelude::*;
use crate::errors::BuildError;
use crate::errors::EnvFault;
use crate::text::str_eq;

verus! {

/// What one run of the platform's SDK locator produced.
pub enum SdkProbe {
    /// The platform has no SDK locator; a root sentinel is returned.
    Unsupported,
    /// The locator exited successfully; `path` is its trimmed output and
    /// `path_exists` says whether that path exists on disk.
    Located { path: String, path_exists: bool },
    /// The locator ran but exited with a failure status.
    Failed { stderr: String },
    /// The locator could not be started at all.
    NotRun { detail: String },
}

/// The SDK path decision for a probe result.
pub open spec fn sdk_path_ok(probe: SdkProbe, r: Result<String, BuildError>) -> bool {
    match probe {
        SdkProbe::Unsupported => r matches Ok(p) && p@ == "/"@,
        SdkProbe::Located { path, path_exists } => if path@.len() == 0 || path@ == "/"@ {
            r matches Err(e) && (e matches BuildError::BuildEnvError { fault, detail } && fault
                == EnvFault::SdkPathEmpty && detail@ == path@)
        } else if !path_exists {
            r matches Err(e) && (e matches BuildError::BuildEnvError { fault, detail } && fault
                == EnvFault::SdkPathMissing && detail@ == path@)
        } else {
            r matches Ok(p) && p@ == path@
        },
        SdkProbe::Failed { stderr } => r matches Err(e) && (e
            matches BuildError::BuildEnvError { fault, detail } && fault == EnvFault::SdkQueryFailed
            && detail@ == stderr@),
        SdkProbe::NotRun { detail: d } => r matches Err(e) && (e
            matches BuildError::BuildEnvError { fault, detail } && fault == EnvFault::SdkQueryFailed
            && detail@ == d@),
    }
}

/// Classifies the SDK locator's outcome: an SDK path must be a concrete,
/// present directory, never empty and never the bare filesystem root;
/// on an unsupported platform the root sentinel is returned unchanged.
pub fn find_sdk_path(probe: SdkProbe) -> (r: Result<String, BuildError>)
    ensures
        sdk_path_ok(probe, r),
{
    match probe {
        SdkProbe::Unsupported => Ok(String::from_str("/")),
        SdkProbe::Located { path, path_exists } => {
            if path.as_str().unicode_len() == 0 || str_eq(path.as_str(), "/") {
                Err(BuildError::BuildEnvError { fault: EnvFault::SdkPathEmpty, detail: path })
            } else if !path_exists {
                Err(BuildError::BuildEnvError { fault: EnvFault::SdkPathMissing, detail: path })
            } else {
                Ok(path)
            }
        },
        SdkProbe::Failed { stderr } => Err(
            BuildError::BuildEnvError { fault: EnvFault::SdkQueryFailed, detail: stderr },
        ),
        SdkProbe::NotRun { detail } => Err(
            BuildError::BuildEnvError { fault: EnvFault::SdkQueryFailed, detail },
        ),
    }
}

/// What one run of the platform's OS version query produced.
pub enum VersionProbe {
    /// The platform has no version query; the "0.0" sentinel is returned.
    Unsupported,
    /// The query exited successfully; `version` is its trimmed output.
    Reported { version: String },
    /// The query ran but exited with a failure status.
    Failed { stderr: String },
    /// The query could not be started at all.
    NotRun { detail: String },
}

/// Index of the cut that keeps the leading `major.minor` of a dotted
/// version: scanning from `i` with `dots` separators already seen, the
/// position of the second separator, or the end of the string.
pub open spec fn spec_version_cut(s: Seq<char>, i: int, dots: nat) -> int
    decreases s.len() - i,
{
    if i < 0 || i >= s.len() {
        s.len() as int
    } else if s[i] == '.' && dots >= 1 {
        i
    } else if s[i] == '.' {
        spec_version_cut(s, i + 1, (dots + 1) as nat)
    } else {
        spec_version_cut(s, i + 1, dots)
    }
}

/// A dotted version reduced to its first two components; a string with
/// fewer than two components is kept whole.
pub open spec fn spec_short_version(s: Seq<char>) -> Seq<char> {
    s.subrange(0, spec_version_cut(s, 0, 0))
}

/// Reduces a dotted version string to `major.minor`; exact against
/// `spec_short_version`.
pub fn shorten_version(v: &str) -> (r: String)
    ensures
        r@ == spec_short_version(v@),
{
    let len = v.unicode_len();
    let mut i: usize = 0;
    let mut dots: usize = 0;
    while i < len
        invariant
            i <= len,
            len == v@.len(),
            dots <= 1,
            spec_version_cut(v@, 0, 0) == spec_version_cut(v@, i as int, dots as nat),
        decreases len - i,
    {
        if v.get_char(i) == '.' {
            if dots >= 1 {
                assert(spec_version_cut(v@, i as int, dots as nat) == i as int);
                return v.substring_char(0, i).to_owned();
            }
            dots += 1;
        }
        i += 1;
    }
    assert(spec_version_cut(v@, i as int, dots as nat) == v@.len() as int);
    assert(v@.subrange(0, v@.len() as int) =~= v@);
    v.to_owned()
}

/// The OS version decision for a probe result.
pub open spec fn macos_version_ok(probe: VersionProbe, r: Result<String, BuildError>) -> bool {
    match probe {
        VersionProbe::Unsupported => r matches Ok(p) && p@ == "0.0"@,
        VersionProbe::Reported { version } => r matches Ok(p) && p@ == spec_short_version(
            version@,
        ),
        VersionProbe::Failed { stderr } => r matches Err(e) && (e
            matches BuildError::BuildEnvError { fault, detail } && fault
            == EnvFault::VersionQueryFailed && detail@ == stderr@),
        VersionProbe::NotRun { detail: d } => r matches Err(e) && (e
            matches BuildError::BuildEnvError { fault, detail } && fault
            == EnvFault::VersionQueryFailed && detail@ == d@),
    }
}

/// Reduces the version query's outcome to a two-component version
/// string, or the "0.0" sentinel where the platform has no such query.
pub fn get_macos_version(probe: VersionProbe) -> (r: Result<String, BuildError>)
    ensures
        macos_version_ok(probe, r),
{
    match probe {
        VersionProbe::Unsupported => Ok(String::from_str("0.0")),
        VersionProbe::Reported { version } => Ok(shorten_version(version.as_str())),
        VersionProbe::Failed { stderr } => Err(
            BuildError::BuildEnvError { fault: EnvFault::VersionQueryFailed, detail: stderr },
        ),
        VersionProbe::NotRun { detail } => Err(
            BuildError::BuildEnvError { fault: EnvFault::VersionQueryFailed, detail },
        ),
    }
}

/// The CPU architectures the compiler flag mapping knows.
#[derive(Clone, Copy, PartialEq, Eq, Structural, Debug)]
pub enum TargetArch {
    X86_64,
    Aarch64,
    Other,
}

/// Compile-time facts about the build target.
#[derive(Clone, Copy, PartialEq, Eq, Structural, Debug)]
pub struct TargetInfo {
    pub on_macos: bool,
    pub arch: TargetArch,
}

/// The compiler architecture flag for a build target: known CPU
/// architectures of the flag-bearing platform map to their flag, and
/// everything else degrades to an empty string, never to a failure.
pub fn get_arch_flag(target: &TargetInfo) -> (r: String)
    ensures
        target.on_macos && target.arch == TargetArch::X86_64 ==> r@ == "-arch x86_64"@,
        target.on_macos && target.arch == TargetArch::Aarch64 ==> r@ == "-arch arm64"@,
        !(target.on_macos && (target.arch == TargetArch::X86_64 || target.arch
            == TargetArch::Aarch64)) ==> r@ == Seq::<char>::empty(),
{
    if target.on_macos && matches!(target.arch, TargetArch::X86_64) {
        String::from_str("-arch x86_64")
    } else if target.on_macos && matches!(target.arch, TargetArch::Aarch64) {
        String::from_str("-arch arm64")
    } else {
        let r = String::new();
        assert(r@ =~= Seq::<char>::empty());
        r
    }
}

} // verus!
