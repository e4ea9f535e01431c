//! Configure classification and build strategy decisions on concrete
//! inputs.

use sapphire_build::errors::BuildError;
use sapphire_build::errors::BuildOutcome;
use sapphire_build::errors::BuildStep;
use sapphire_build::errors::EnvFault;
use sapphire_build::sniff::SNIFF_PREFIX_LEN;
use sapphire_build::sniff::is_gnu_autotools_configure;
use sapphire_build::strategy::CmdResult;
use sapphire_build::strategy::ConfigureProbe;
use sapphire_build::strategy::InstallStatus;
use sapphire_build::strategy::check_configure_result;
use sapphire_build::strategy::check_step_result;
use sapphire_build::strategy::note_install_result;
use sapphire_build::strategy::plan_configure;
use sapphire_build::strategy::recovery_candidate;
use sapphire_build::strategy::strategy_b_verdict;
use sapphire_build::text::contains_str;
use sapphire_build::text::line_tail;
use sapphire_build::text::str_eq;

fn exited(ok: bool, stdout: &str, stderr: &str) -> CmdResult {
    CmdResult::Exited { ok, stdout: String::from(stdout), stderr: String::from(stderr) }
}

fn padded_script(middle: &str) -> String {
    let mut s = String::from("#! /bin/sh\n");
    s.push_str(middle);
    while s.len() < SNIFF_PREFIX_LEN {
        s.push_str("# filler line\n");
    }
    s.truncate(SNIFF_PREFIX_LEN);
    s
}

#[test]
fn sniffer_detects_the_autoconf_marker() {
    let script = padded_script("# Generated by GNU Autoconf 2.71.\n");
    assert!(is_gnu_autotools_configure(&Some(script)));
}

#[test]
fn sniffer_detects_the_other_markers() {
    assert!(is_gnu_autotools_configure(&Some(padded_script("# generated by autoconf\n"))));
    assert!(is_gnu_autotools_configure(&Some(padded_script("running config.status:\n"))));
}

#[test]
fn sniffer_rejects_a_script_without_markers() {
    let script = padded_script("echo hand-written configure\n");
    assert!(!is_gnu_autotools_configure(&Some(script)));
}

#[test]
fn sniffer_treats_unreadable_script_as_not_autotools() {
    assert!(!is_gnu_autotools_configure(&None));
}

#[test]
fn sniffer_is_idempotent_on_unchanged_input() {
    let script = padded_script("# Generated by GNU Autoconf 2.71.\n");
    let first = is_gnu_autotools_configure(&Some(script.clone()));
    let second = is_gnu_autotools_configure(&Some(script));
    assert_eq!(first, second);
}

#[test]
fn missing_configure_script_is_a_build_env_error() {
    let probe = ConfigureProbe { exists: false, prefix: None };
    match plan_configure(&probe, "/cellar/pkg/1.0") {
        Err(BuildError::BuildEnvError { fault, .. }) => {
            assert_eq!(fault, EnvFault::ConfigureScriptMissing)
        },
        other => panic!("expected ConfigureScriptMissing, got {:?}", other),
    }
}

#[test]
fn autotools_configure_gets_the_standard_flags() {
    let probe = ConfigureProbe {
        exists: true,
        prefix: Some(padded_script("# Generated by GNU Autoconf 2.71.\n")),
    };
    let args = plan_configure(&probe, "/cellar/pkg/1.0").unwrap();
    assert_eq!(
        args,
        vec![
            String::from("--prefix=/cellar/pkg/1.0"),
            String::from("--disable-dependency-tracking"),
            String::from("--disable-silent-rules"),
        ]
    );
}

#[test]
fn non_autotools_configure_gets_only_the_prefix() {
    let probe = ConfigureProbe { exists: true, prefix: Some(padded_script("echo custom\n")) };
    let args = plan_configure(&probe, "/cellar/pkg/1.0").unwrap();
    assert_eq!(args, vec![String::from("--prefix=/cellar/pkg/1.0")]);
}

#[test]
fn all_three_steps_passing_is_overall_success() {
    assert!(check_configure_result(exited(true, "", ""), None).is_ok());
    assert!(check_step_result(BuildStep::Make, exited(true, "", "")).is_ok());
    assert!(check_step_result(BuildStep::MakeInstall, exited(true, "", "")).is_ok());
}

#[test]
fn configure_failure_carries_output_and_log_tail() {
    let log = String::from("probe one\nprobe two\nprobe three\n");
    let r = check_configure_result(exited(false, "out", "err"), Some(log));
    match r {
        Err(BuildError::Generic { step, stdout, stderr, log_tail }) => {
            assert_eq!(step, BuildStep::Configure);
            assert_eq!(stdout, "out");
            assert_eq!(stderr, "err");
            assert_eq!(log_tail.unwrap(), "probe one\nprobe two\nprobe three\n");
        },
        other => panic!("expected Generic, got {:?}", other),
    }
}

#[test]
fn configure_failure_without_log_has_no_tail() {
    let r = check_configure_result(exited(false, "", ""), None);
    match r {
        Err(BuildError::Generic { log_tail, .. }) => assert!(log_tail.is_none()),
        other => panic!("expected Generic, got {:?}", other),
    }
}

#[test]
fn make_failure_is_hard_and_stops_the_build() {
    let r = check_step_result(BuildStep::Make, exited(false, "compile out", "compile err"));
    match r {
        Err(BuildError::Generic { step, stdout, stderr, log_tail }) => {
            assert_eq!(step, BuildStep::Make);
            assert_eq!(stdout, "compile out");
            assert_eq!(stderr, "compile err");
            assert!(log_tail.is_none());
        },
        other => panic!("expected Generic, got {:?}", other),
    }
}

#[test]
fn spawn_failure_is_a_command_exec_error() {
    let r = check_step_result(
        BuildStep::Make,
        CmdResult::SpawnFailed { detail: String::from("no such binary") },
    );
    match r {
        Err(BuildError::CommandExecError { step, detail }) => {
            assert_eq!(step, BuildStep::Make);
            assert_eq!(detail, "no such binary");
        },
        other => panic!("expected CommandExecError, got {:?}", other),
    }
}

#[test]
fn install_result_is_recorded_not_judged() {
    let st = note_install_result(exited(false, "io", "ie")).unwrap();
    assert!(!st.ok);
    assert_eq!(st.stdout, "io");
    assert_eq!(st.stderr, "ie");
    let st = note_install_result(exited(true, "", "")).unwrap();
    assert!(st.ok);
}

#[test]
fn populated_bin_after_clean_install_succeeds() {
    let st = note_install_result(exited(true, "", "")).unwrap();
    let v = strategy_b_verdict(st, true, false);
    assert!(matches!(v, BuildOutcome::Success));
}

#[test]
fn manual_recovery_excuses_a_failed_install() {
    let st = note_install_result(exited(false, "", "")).unwrap();
    let v = strategy_b_verdict(st, false, true);
    assert!(matches!(v, BuildOutcome::Success));
}

#[test]
fn empty_bin_after_reported_success_is_only_a_warning() {
    let st = note_install_result(exited(true, "", "")).unwrap();
    let v = strategy_b_verdict(st, false, false);
    assert!(matches!(v, BuildOutcome::SuccessWithWarning));
}

#[test]
fn failed_install_without_recovery_is_a_hard_failure() {
    let st = note_install_result(exited(false, "inst out", "inst err")).unwrap();
    let v = strategy_b_verdict(st, false, false);
    match v {
        BuildOutcome::Failure(BuildError::Generic { step, stdout, stderr, log_tail }) => {
            assert_eq!(step, BuildStep::MakeInstall);
            assert_eq!(stdout, "inst out");
            assert_eq!(stderr, "inst err");
            assert!(log_tail.is_none());
        },
        other => panic!("expected a hard failure, got {:?}", other),
    }
}

#[test]
fn recovery_candidate_is_the_install_dirs_parent_name() {
    let r = recovery_candidate("/opt/homebrew/Cellar/doggo/1.0.5");
    assert_eq!(r.unwrap(), "doggo");
}

#[test]
fn recovery_candidate_ignores_trailing_separators() {
    let r = recovery_candidate("/opt/homebrew/Cellar/doggo/1.0.5/");
    assert_eq!(r.unwrap(), "doggo");
}

#[test]
fn recovery_candidate_without_a_parent_name_is_none() {
    assert_eq!(recovery_candidate("1.0.5"), None);
    assert_eq!(recovery_candidate("/1.0.5"), None);
    assert_eq!(recovery_candidate(""), None);
    assert_eq!(recovery_candidate("/"), None);
}

#[test]
fn line_tail_keeps_only_the_last_lines() {
    assert_eq!(line_tail("one\ntwo\nthree", 2), "two\nthree");
    assert_eq!(line_tail("one\ntwo\nthree\n", 2), "two\nthree\n");
    assert_eq!(line_tail("one\ntwo", 5), "one\ntwo");
    assert_eq!(line_tail("single", 1), "single");
    assert_eq!(line_tail("", 3), "");
}

#[test]
fn contains_str_finds_exact_substrings() {
    assert!(contains_str("abc config.status: here", "config.status:"));
    assert!(!contains_str("abc config status here", "config.status:"));
    assert!(contains_str("anything", ""));
    assert!(!contains_str("", "x"));
}

#[test]
fn str_eq_compares_by_characters() {
    assert!(str_eq("cc", "cc"));
    assert!(!str_eq("cc", "c++"));
    assert!(!str_eq("", "c"));
    assert!(str_eq("", ""));
}
