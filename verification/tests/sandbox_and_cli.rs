use std::path::PathBuf;

use skarn::cli::{
    config_source, exit_code, needs_trailing_newline, worker, workspace_policy, ConfigSource,
    ExecArgs, InitArgs, LimitArgs, NetArg, RunArgs, ScriptOrigin,
};
use skarn::command::CommandSpec;
use skarn::error::Error;
use skarn::sandbox::{apply, Backend, NetPolicy, Policy, RestrictionReport, RestrictionStatus};

#[test]
fn fallback_backend_enforces_nothing_and_says_so() {
    let report = apply(&Policy::default()).unwrap();
    assert_eq!(report.backend, Backend::Unavailable);
    assert_eq!(report.status, RestrictionStatus::NotEnforced);
    assert_eq!(report.notes, vec!["no OS-native sandbox backend on this platform".to_string()]);
}

#[test]
fn fail_closed_policy_is_refused_by_the_fallback_backend() {
    let err = Policy::default().apply_to_current_process().unwrap_err();
    assert_eq!(
        err.message(),
        "sandbox unsupported on this platform: None backend could not enforce the policy and fail_closed is set"
    );
}

#[test]
fn fail_open_policy_runs_unenforced() {
    let mut p = Policy::default();
    p.fail_closed = false;
    let report = p.apply_to_current_process().unwrap();
    assert_eq!(report.status, RestrictionStatus::NotEnforced);
}

#[test]
fn enforced_reports_pass_through() {
    let p = Policy::default();
    let r = p
        .enforce(Ok(RestrictionReport::new(Backend::Landlock, RestrictionStatus::PartiallyEnforced)))
        .unwrap();
    assert_eq!(r.backend, Backend::Landlock);
    assert_eq!(r.status, RestrictionStatus::PartiallyEnforced);
    let e = p.enforce(Err(Error::Sandbox("kernel said no".into()))).unwrap_err();
    assert_eq!(e, Error::Sandbox("kernel said no".into()));
    let refused = p
        .enforce(Ok(RestrictionReport::new(Backend::Seatbelt, RestrictionStatus::NotEnforced)))
        .unwrap_err();
    assert_eq!(
        refused,
        Error::SandboxUnsupported(
            "Seatbelt backend could not enforce the policy and fail_closed is set".into()
        )
    );
}

#[test]
fn backend_names() {
    assert_eq!(Backend::Seatbelt.name(), "Seatbelt");
    assert_eq!(Backend::Landlock.name(), "Landlock");
    assert_eq!(Backend::AppContainer.name(), "AppContainer");
    assert_eq!(Backend::Unavailable.name(), "None");
}

#[test]
fn builder_workspace_defaults() {
    let p = Policy::builder()
        .workspace(PathBuf::from("/tmp/project"), vec![PathBuf::from("/home/u/.ssh")])
        .build();
    assert_eq!(p.fs_read_write, vec![PathBuf::from("/tmp/project")]);
    assert_eq!(p.fs_deny_read, vec![PathBuf::from("/home/u/.ssh")]);
    assert_eq!(p.net, NetPolicy::DenyAll);
    assert!(p.allow_read_system);
    assert!(p.fail_closed);
}

#[test]
fn run_policy_confines_to_the_workspace_with_the_requested_network() {
    let p = workspace_policy(NetArg::Loopback, PathBuf::from("/work"), vec![]);
    assert_eq!(p.fs_read_write, vec![PathBuf::from("/work")]);
    assert!(p.fs_read.is_empty());
    assert!(p.fs_deny_read.is_empty());
    assert_eq!(p.net, NetPolicy::AllowLoopback);
    assert!(p.fail_closed);
}

#[test]
fn net_flags_map_to_net_policies() {
    assert_eq!(NetPolicy::from(NetArg::Deny), NetPolicy::DenyAll);
    assert_eq!(NetPolicy::from(NetArg::Loopback), NetPolicy::AllowLoopback);
    assert_eq!(NetPolicy::from(NetArg::Outbound), NetPolicy::AllowOutbound);
    assert_eq!(NetPolicy::from(NetArg::All), NetPolicy::AllowAll);
    assert_eq!(NetArg::default(), NetArg::Deny);
    assert_eq!(NetPolicy::default(), NetPolicy::DenyAll);
}

fn exec_args(code: Option<&str>, file: Option<&str>) -> ExecArgs {
    ExecArgs {
        config: None,
        code: code.map(|c| c.to_string()),
        file: file.map(|f| f.as_bytes().to_vec()),
        limits: LimitArgs::default(),
    }
}

#[test]
fn inline_code_wins_over_a_file() {
    match exec_args(Some("return 1;"), Some("script.js")).script_origin() {
        Ok(ScriptOrigin::Inline(code)) => assert_eq!(code, "return 1;"),
        other => panic!("unexpected {other:?}"),
    }
}

#[test]
fn dash_file_reads_standard_input() {
    assert!(matches!(exec_args(None, Some("-")).script_origin(), Ok(ScriptOrigin::Stdin)));
    match exec_args(None, Some("./-")).script_origin() {
        Ok(ScriptOrigin::File(p)) => assert_eq!(p, b"./-".to_vec()),
        other => panic!("unexpected {other:?}"),
    }
    match exec_args(None, Some("job.ts")).script_origin() {
        Ok(ScriptOrigin::File(p)) => assert_eq!(p, b"job.ts".to_vec()),
        other => panic!("unexpected {other:?}"),
    }
}

#[test]
fn dash_prefixed_names_are_files() {
    match exec_args(None, Some("--")).script_origin() {
        Ok(ScriptOrigin::File(p)) => assert_eq!(p, b"--".to_vec()),
        other => panic!("unexpected {other:?}"),
    }
    match exec_args(None, Some("")).script_origin() {
        Ok(ScriptOrigin::File(p)) => assert!(p.is_empty()),
        other => panic!("unexpected {other:?}"),
    }
}

#[test]
fn no_script_is_an_error() {
    assert_eq!(
        exec_args(None, None).script_origin().unwrap_err(),
        "provide a script with --code or --file"
    );
}

#[test]
fn config_source_prefers_explicit_then_default_file() {
    assert!(matches!(
        config_source(Some(PathBuf::from("a.toml")), true),
        ConfigSource::Explicit(p) if p == PathBuf::from("a.toml")
    ));
    assert!(matches!(config_source(None, true), ConfigSource::DefaultFile));
    assert!(matches!(config_source(None, false), ConfigSource::Builtin));
}

#[test]
fn init_overwrites_only_when_forced() {
    assert!(InitArgs { force: false }.should_write(false));
    assert!(!InitArgs { force: false }.should_write(true));
    assert!(InitArgs { force: true }.should_write(true));
}

fn run_args(command: &[&str]) -> RunArgs {
    RunArgs {
        net: NetArg::Deny,
        workspace: None,
        no_sandbox: false,
        no_compress: false,
        stats: false,
        command: command.iter().map(|s| s.to_string()).collect(),
    }
}

#[test]
fn run_needs_a_command() {
    assert_eq!(run_args(&[]).command_spec().unwrap_err(), "no command provided after `--`");
    let spec = run_args(&["cargo", "test", "--quiet"]).command_spec().unwrap();
    assert_eq!(spec.program, "cargo");
    assert_eq!(spec.args, vec!["test", "--quiet"]);
}

#[test]
fn argv_round_trip() {
    let argv: Vec<String> = ["cargo", "test", "--quiet"].iter().map(|s| s.to_string()).collect();
    let spec = CommandSpec::from_argv(&argv).unwrap();
    assert_eq!(spec.program, "cargo");
    assert_eq!(spec.args, vec!["test", "--quiet"]);
    assert!(spec.cwd.is_none());
    assert!(spec.env.is_empty());
    assert_eq!(spec.display(), "cargo test --quiet");
}

#[test]
fn empty_argv_is_none() {
    assert!(CommandSpec::from_argv(&[]).is_none());
}

#[test]
fn display_quotes_arguments_with_white_space() {
    let argv: Vec<String> = ["grep", "two words", "tab\there", "nbsp\u{a0}x", "plain"]
        .iter()
        .map(|s| s.to_string())
        .collect();
    let spec = CommandSpec::from_argv(&argv).unwrap();
    assert_eq!(
        spec.display(),
        "grep \"two words\" \"tab\there\" \"nbsp\u{a0}x\" plain"
    );
}

#[test]
fn trailing_newline_rule() {
    assert!(!needs_trailing_newline(""));
    assert!(!needs_trailing_newline("done\n"));
    assert!(needs_trailing_newline("done"));
    assert!(needs_trailing_newline("é"));
}

#[test]
fn exit_code_defaults_to_one() {
    assert_eq!(exit_code(Some(0)), 0);
    assert_eq!(exit_code(Some(101)), 101);
    assert_eq!(exit_code(None), 1);
}

#[test]
fn worker_prefixes_job_errors() {
    assert_eq!(worker(Ok(())), Ok(()));
    assert_eq!(
        worker(Err(Error::CodeModeRejected("eval".into()))),
        Err("worker: code-mode validation rejected script: eval".to_string())
    );
}
