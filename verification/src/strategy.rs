//! BuildStrategyExecutor: the decision logic of the two build strategies.
//!
//! Strategy A (`configure && make && make install`) trusts the install
//! step; Strategy B (bare `make`) defers judgment on `make install` to a
//! verification step with a manual-recovery fallback. The caller runs
//! every subprocess and filesystem check and hands the captured results
//! to the step functions here; each step function's result is pinned to
//! a spec-level decision table.

use vstd::prelude::*;
use crate::errors::BuildError;
use crate::errors::BuildOutcome;
use crate::errors::BuildStep;
use crate::errors::EnvFault;
use crate::sniff::autotools_marked;
use crate::sniff::is_gnu_autotools_configure;
use crate::text::line_tail;
use crate::text::spec_line_tail;

verus! {

/// How many trailing lines of `config.log` a configure failure carries.
pub const CONFIG_LOG_TAIL_LINES: usize = 50;

/// The permission mode set on a manually recovered binary:
/// owner read/write/execute, group and other read/execute.
pub const RECOVERED_BINARY_MODE: u32 = 0o755;

/// What one subprocess invocation produced.
pub enum CmdResult {
    /// The command ran to completion; `ok` is whether it exited with a
    /// success status, and the captured output is attached.
    Exited { ok: bool, stdout: String, stderr: String },
    /// The operating system failed to start the command at all.
    SpawnFailed { detail: String },
}

/// What the caller found out about `./configure` in the build directory:
/// whether it exists, and its readable leading content (at most
/// [`crate::sniff::SNIFF_PREFIX_LEN`] bytes; `None` when unreadable).
pub struct ConfigureProbe {
    pub exists: bool,
    pub prefix: Option<String>,
}

/// The argument-list decision for the configure step.
pub open spec fn configure_args_ok(
    probe: ConfigureProbe,
    install_dir: Seq<char>,
    r: Result<Vec<String>, BuildError>,
) -> bool {
    if !probe.exists {
        r matches Err(e) && (e matches BuildError::BuildEnvError { fault, .. } && fault
            == EnvFault::ConfigureScriptMissing)
    } else {
        let auto = match probe.prefix {
            Some(text) => autotools_marked(text@),
            None => false,
        };
        r matches Ok(args) && {
            &&& args@.len() == if auto {
                3int
            } else {
                1int
            }
            &&& args@[0]@ == "--prefix="@ + install_dir
            &&& auto ==> args@[1]@ == "--disable-dependency-tracking"@ && args@[2]@
                == "--disable-silent-rules"@
        }
    }
}

/// Plans the configure invocation: requires `./configure` to exist, and
/// adds the standard Autotools flags exactly when the script's leading
/// content classifies as Autotools-generated.
pub fn plan_configure(probe: &ConfigureProbe, install_dir: &str) -> (r: Result<
    Vec<String>,
    BuildError,
>)
    ensures
        configure_args_ok(*probe, install_dir@, r),
{
    if !probe.exists {
        return Err(
            BuildError::BuildEnvError {
                fault: EnvFault::ConfigureScriptMissing,
                detail: String::from_str("configure"),
            },
        );
    }
    let auto = is_gnu_autotools_configure(&probe.prefix);
    let mut args: Vec<String> = Vec::new();
    args.push(String::from_str("--prefix=").concat(install_dir));
    if auto {
        args.push(String::from_str("--disable-dependency-tracking"));
        args.push(String::from_str("--disable-silent-rules"));
    }
    Ok(args)
}

/// The classification of a hard build step: success passes, a non-zero
/// exit is a failure carrying the captured output, a spawn failure is a
/// command-execution error.
pub open spec fn spec_step_result(step: BuildStep, r: CmdResult) -> Result<(), BuildError> {
    match r {
        CmdResult::Exited { ok, stdout, stderr } => if ok {
            Result::Ok(())
        } else {
            Result::Err(BuildError::Generic { step, stdout, stderr, log_tail: None })
        },
        CmdResult::SpawnFailed { detail } => Result::Err(
            BuildError::CommandExecError { step, detail },
        ),
    }
}

/// Classifies a step where a non-zero exit is a hard failure with no
/// recovery heuristic: `make` for both strategies, and the trusted
/// `make install` of a configure-based build.
pub fn check_step_result(step: BuildStep, r: CmdResult) -> (out: Result<(), BuildError>)
    ensures
        out == spec_step_result(step, r),
{
    match r {
        CmdResult::Exited { ok, stdout, stderr } => {
            if ok {
                Ok(())
            } else {
                Err(BuildError::Generic { step, stdout, stderr, log_tail: None })
            }
        },
        CmdResult::SpawnFailed { detail } => Err(
            BuildError::CommandExecError { step: step, detail },
        ),
    }
}

/// The classification of the configure step: as a hard step, except that
/// a failure also carries the tail of a `config.log` found beside it.
pub open spec fn configure_result_ok(
    r: CmdResult,
    config_log: Option<String>,
    out: Result<(), BuildError>,
) -> bool {
    match r {
        CmdResult::Exited { ok, stdout, stderr } => if ok {
            out is Ok
        } else {
            out matches Err(e) && (e matches BuildError::Generic {
                step,
                stdout: so,
                stderr: se,
                log_tail,
            } && step == BuildStep::Configure && so == stdout && se == stderr && (
            match config_log {
                Some(log) => log_tail matches Some(t) && t@ == spec_line_tail(
                    log@,
                    CONFIG_LOG_TAIL_LINES as nat,
                ),
                None => log_tail is None,
            }))
        },
        CmdResult::SpawnFailed { detail } => out matches Err(e) && (e
            matches BuildError::CommandExecError { step, detail: d } && step == BuildStep::Configure
            && d == detail),
    }
}

/// Classifies the configure step. A non-zero exit is a hard failure; its
/// diagnostics carry the captured output and, when the caller found a
/// `config.log`, the last [`CONFIG_LOG_TAIL_LINES`] lines of it.
pub fn check_configure_result(r: CmdResult, config_log: Option<String>) -> (out: Result<
    (),
    BuildError,
>)
    ensures
        configure_result_ok(r, config_log, out),
{
    match r {
        CmdResult::Exited { ok, stdout, stderr } => {
            if ok {
                Ok(())
            } else {
                let log_tail = match &config_log {
                    Some(log) => Some(line_tail(log.as_str(), CONFIG_LOG_TAIL_LINES)),
                    None => None,
                };
                Err(BuildError::Generic { step: BuildStep::Configure, stdout, stderr, log_tail })
            }
        },
        CmdResult::SpawnFailed { detail } => Err(
            BuildError::CommandExecError { step: BuildStep::Configure, detail },
        ),
    }
}

/// What the deferred `make install` step of Strategy B reported.
pub struct InstallStatus {
    pub ok: bool,
    pub stdout: String,
    pub stderr: String,
}

/// The deferred classification of Strategy B's install step: the exit
/// status is recorded, not judged; only a spawn failure is fatal here.
pub open spec fn install_report_ok(r: CmdResult, out: Result<InstallStatus, BuildError>) -> bool {
    match r {
        CmdResult::Exited { ok, stdout, stderr } => out matches Ok(st) && st.ok == ok && st.stdout
            == stdout && st.stderr == stderr,
        CmdResult::SpawnFailed { detail } => out matches Err(e) && (e
            matches BuildError::CommandExecError { step, detail: d } && step
            == BuildStep::MakeInstall && d == detail),
    }
}

/// Records Strategy B's `make install` outcome without failing on a
/// non-zero exit; judgment is deferred to the verification step.
pub fn note_install_result(r: CmdResult) -> (out: Result<InstallStatus, BuildError>)
    ensures
        install_report_ok(r, out),
{
    match r {
        CmdResult::Exited { ok, stdout, stderr } => Ok(InstallStatus { ok, stdout, stderr }),
        CmdResult::SpawnFailed { detail } => Err(
            BuildError::CommandExecError { step: BuildStep::MakeInstall, detail },
        ),
    }
}

/// The terminal decision table of Strategy B, after `make` succeeded:
/// a populated `bin` is authoritative evidence of success whatever the
/// install step reported; an unpopulated `bin` is excused by a
/// successful manual recovery; failing both, a reported-successful
/// install is a soft warning and a failed one is a hard failure carrying
/// the install step's captured output.
pub open spec fn spec_strategy_b_verdict(
    install: InstallStatus,
    bin_populated: bool,
    recovered: bool,
) -> BuildOutcome {
    if bin_populated {
        BuildOutcome::Success
    } else if recovered {
        BuildOutcome::Success
    } else if install.ok {
        BuildOutcome::SuccessWithWarning
    } else {
        BuildOutcome::Failure(
            BuildError::Generic {
                step: BuildStep::MakeInstall,
                stdout: install.stdout,
                stderr: install.stderr,
                log_tail: None,
            },
        )
    }
}

/// Resolves Strategy B's deferred judgment: exactly one terminal state,
/// per the decision table of `spec_strategy_b_verdict`.
pub fn strategy_b_verdict(install: InstallStatus, bin_populated: bool, recovered: bool) -> (v:
    BuildOutcome)
    ensures
        v == spec_strategy_b_verdict(install, bin_populated, recovered),
{
    if bin_populated {
        BuildOutcome::Success
    } else if recovered {
        BuildOutcome::Success
    } else if install.ok {
        BuildOutcome::SuccessWithWarning
    } else {
        BuildOutcome::Failure(
            BuildError::Generic {
                step: BuildStep::MakeInstall,
                stdout: install.stdout,
                stderr: install.stderr,
                log_tail: None,
            },
        )
    }
}

/// A sequence of characters with its trailing `/` separators removed.
pub open spec fn strip_trailing_slashes(s: Seq<char>) -> Seq<char>
    decreases s.len(),
{
    if s.len() > 0 && s[s.len() - 1] == '/' {
        strip_trailing_slashes(s.drop_last())
    } else {
        s
    }
}

/// The index just after the last `/` of `s`, or `0` when it has none.
pub open spec fn after_last_slash(s: Seq<char>) -> int
    decreases s.len(),
{
    if s.len() == 0 {
        0
    } else if s[s.len() - 1] == '/' {
        s.len() as int
    } else {
        after_last_slash(s.drop_last())
    }
}

/// The candidate binary name for manual recovery: the name of the
/// install directory's parent directory (the package name), or `None`
/// when the path has no parent or the parent has an empty name.
pub open spec fn spec_recovery_candidate(s: Seq<char>) -> Option<Seq<char>> {
    let t = strip_trailing_slashes(s);
    let k = after_last_slash(t);
    if k == 0 {
        Option::None
    } else {
        let p = strip_trailing_slashes(t.subrange(0, k));
        let name = p.subrange(after_last_slash(p), p.len() as int);
        if name.len() == 0 {
            Option::None
        } else {
            Option::Some(name)
        }
    }
}

/// Trailing-`/` stripper over the prefix `s[..end]`; exact against
/// `strip_trailing_slashes`.
fn strip_slashes_end(s: &str, end: usize) -> (r: usize)
    requires
        end <= s@.len(),
    ensures
        r <= end,
        strip_trailing_slashes(s@.subrange(0, end as int)) == s@.subrange(0, r as int),
{
    let mut e = end;
    while e > 0 && s.get_char(e - 1) == '/'
        invariant
            e <= end,
            end <= s@.len(),
            strip_trailing_slashes(s@.subrange(0, end as int)) == strip_trailing_slashes(
                s@.subrange(0, e as int),
            ),
        decreases e,
    {
        proof {
            assert(s@.subrange(0, e as int).drop_last() =~= s@.subrange(0, e as int - 1));
        }
        e -= 1;
    }
    e
}

/// Backward scan to the nearest `/` in `s[..end]`; exact against
/// `after_last_slash`.
fn scan_to_slash(s: &str, end: usize) -> (r: usize)
    requires
        end <= s@.len(),
    ensures
        r <= end,
        r as int == after_last_slash(s@.subrange(0, end as int)),
{
    let mut e = end;
    while e > 0 && s.get_char(e - 1) != '/'
        invariant
            e <= end,
            end <= s@.len(),
            after_last_slash(s@.subrange(0, end as int)) == after_last_slash(
                s@.subrange(0, e as int),
            ),
        decreases e,
    {
        proof {
            assert(s@.subrange(0, e as int).drop_last() =~= s@.subrange(0, e as int - 1));
        }
        e -= 1;
    }
    e
}

/// Derives the candidate binary name for manual recovery from the
/// install directory path; exact against `spec_recovery_candidate`.
pub fn recovery_candidate(install_dir: &str) -> (r: Option<String>)
    ensures
        match r {
            Some(name) => spec_recovery_candidate(install_dir@) matches Some(m) && name@ == m,
            None => spec_recovery_candidate(install_dir@) is None,
        },
{
    let len = install_dir.unicode_len();
    proof {
        assert(install_dir@.subrange(0, len as int) =~= install_dir@);
    }
    let t_end = strip_slashes_end(install_dir, len);
    let k = scan_to_slash(install_dir, t_end);
    proof {
        assert(install_dir@.subrange(0, t_end as int).subrange(0, k as int) =~= install_dir@
            .subrange(0, k as int));
    }
    if k == 0 {
        return None;
    }
    let p_end = strip_slashes_end(install_dir, k);
    let j = scan_to_slash(install_dir, p_end);
    if j == p_end {
        return None;
    }
    proof {
        assert(install_dir@.subrange(0, p_end as int).subrange(j as int, p_end as int)
            =~= install_dir@.subrange(j as int, p_end as int));
    }
    Some(install_dir.substring_char(j, p_end).to_owned())
}

/// Law: when `configure`, `make`, and `make install` all exit with a
/// success status, a configure-based build classifies every step as
/// passed: the overall result is success.
pub proof fn lemma_strategy_a_success(
    conf: CmdResult,
    mk: CmdResult,
    inst: CmdResult,
    config_log: Option<String>,
    r_conf: Result<(), BuildError>,
)
    requires
        conf matches CmdResult::Exited { ok: true, .. },
        mk matches CmdResult::Exited { ok: true, .. },
        inst matches CmdResult::Exited { ok: true, .. },
        configure_result_ok(conf, config_log, r_conf),
    ensures
        r_conf is Ok,
        spec_step_result(BuildStep::Make, mk) is Ok,
        spec_step_result(BuildStep::MakeInstall, inst) is Ok,
{
}

/// Law: a `configure` that ran and exited non-zero fails the build hard,
/// carrying exactly its captured output; no later step is classified.
pub proof fn lemma_configure_failure_is_hard(
    conf: CmdResult,
    config_log: Option<String>,
    out: Result<(), BuildError>,
)
    requires
        conf matches CmdResult::Exited { ok: false, .. },
        configure_result_ok(conf, config_log, out),
    ensures
        out is Err,
        conf matches CmdResult::Exited { stdout, stderr, .. } ==> (out matches Err(e) && (
        e matches BuildError::Generic { step, stdout: so, stderr: se, .. } && step
            == BuildStep::Configure && so == stdout && se == stderr)),
{
}

/// Law: a step that ran and exited non-zero is a hard failure carrying
/// exactly that step's captured output; no recovery heuristic applies.
pub proof fn lemma_step_failure_is_hard(step: BuildStep, ok: bool, stdout: String, stderr: String)
    requires
        !ok,
    ensures
        spec_step_result(step, CmdResult::Exited { ok, stdout, stderr }) == Result::<
            (),
            BuildError,
        >::Err(BuildError::Generic { step, stdout, stderr, log_tail: None }),
{
}

/// Law: when `make` does not exit successfully, Strategy B stops at a
/// hard failure; the classification of the make step never passes, so
/// the install step is never reached.
pub proof fn lemma_make_failure_stops_strategy_b(mk: CmdResult)
    requires
        !(mk matches CmdResult::Exited { ok: true, .. }),
    ensures
        spec_step_result(BuildStep::Make, mk) is Err,
{
}

/// Law: a populated `bin` directory is authoritative evidence of a
/// working install; Strategy B succeeds whatever the raw install step
/// reported.
pub proof fn lemma_populated_bin_is_success(install: InstallStatus, recovered: bool)
    ensures
        spec_strategy_b_verdict(install, true, recovered) is Success,
{
}

/// Law: a successful manual recovery makes the build succeed even when
/// the raw install step had failed.
pub proof fn lemma_recovery_excuses_failed_install(install: InstallStatus, bin_populated: bool)
    ensures
        spec_strategy_b_verdict(install, bin_populated, true) is Success,
{
}

/// Law: an install step that reported success, with an unpopulated
/// `bin` and no recovered artifact, is a soft warning, not a failure.
pub proof fn lemma_empty_bin_after_ok_install_warns(install: InstallStatus)
    requires
        install.ok,
    ensures
        spec_strategy_b_verdict(install, false, false) is SuccessWithWarning,
{
}

/// Law: when the install step failed, `bin` stayed unpopulated, and no
/// artifact was recovered, Strategy B is a hard failure carrying the
/// install step's captured output.
pub proof fn lemma_failed_install_without_recovery_fails(install: InstallStatus)
    requires
        !install.ok,
    ensures
        spec_strategy_b_verdict(install, false, false) == BuildOutcome::Failure(
            BuildError::Generic {
                step: BuildStep::MakeInstall,
                stdout: install.stdout,
                stderr: install.stderr,
                log_tail: None,
            },
        ),
{
}

} // verus!
