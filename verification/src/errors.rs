//! Error and outcome types shared by every component of the library.
//!
//! Diagnostics are kept as structured fields (captured output, step names)
//! rather than pre-formatted strings, so callers and tests can inspect them
//! without string matching.

use vstd::prelude::*;

verus! {

/// The build step a subprocess diagnostic belongs to.
#[derive(Clone, Copy, PartialEq, Eq, Structural, Debug)]
pub enum BuildStep {
    Configure,
    Make,
    MakeInstall,
}

/// Environment or precondition faults that are not a build command's own
/// failure: a missing script, an exhausted PATH search, an unusable SDK.
#[derive(Clone, Copy, PartialEq, Eq, Structural, Debug)]
pub enum EnvFault {
    /// `./configure` does not exist in the build directory.
    ConfigureScriptMissing,
    /// No `make` was found on the build environment's PATH or the
    /// ambient PATH.
    MakeNotFound,
    /// The SDK locator printed an empty or bare-root path.
    SdkPathEmpty,
    /// The SDK locator printed a path that does not exist on disk.
    SdkPathMissing,
    /// The SDK locator ran but exited with a failure status.
    SdkQueryFailed,
    /// The OS version query could not run or exited with a failure status.
    VersionQueryFailed,
}

/// A classified failure of one build operation.
#[derive(Debug)]
pub enum BuildError {
    /// No candidate was resolved for a requested tool name.
    ToolNotFound { tool: String },
    /// An environment problem outside any build command's own logic.
    BuildEnvError { fault: EnvFault, detail: String },
    /// The operating system failed to start a subprocess at all.
    CommandExecError { step: BuildStep, detail: String },
    /// A subprocess ran to completion but exited non-zero where no
    /// recovery heuristic applies; carries its captured output and,
    /// for `configure`, the tail of `config.log` when one was found.
    Generic {
        step: BuildStep,
        stdout: String,
        stderr: String,
        log_tail: Option<String>,
    },
}

/// The terminal state of one whole build attempt.
#[derive(Debug)]
pub enum BuildOutcome {
    /// The install directory holds usable artifacts.
    Success,
    /// The install step reported success but produced no binaries and no
    /// artifact could be recovered; the package may install only
    /// non-binary artifacts.
    SuccessWithWarning,
    /// The build is broken; the error says where and why.
    Failure(BuildError),
}

} // verus!
