use cargo_try::pipeline::{Action, Event, Outcome, Phase, PipelineError, Session, INSTALLER};

fn strings(v: &[&str]) -> Vec<String> {
    v.iter().map(|s| s.to_string()).collect()
}

fn finish_of(a: Action) -> Outcome {
    match a {
        Action::Finish { outcome } => outcome,
        other => panic!("expected Finish, got {:?}", other),
    }
}

/// Drives a session for `name` and `args` up to the run, with `bin/`
/// holding `bin`, and returns the session and the run's file name and args.
fn run_up_to_exec(name: &str, args: &[&str], bin: &[&str]) -> (Session, String, Vec<String>) {
    let mut s = Session::new(name.to_string(), strings(args));
    assert!(matches!(s.step(Event::Begin), Action::AcquireSandbox));
    match s.step(Event::SandboxCreated { root: "/tmp/sbx".to_string() }) {
        Action::Install { program, args } => {
            assert_eq!(program, INSTALLER);
            assert_eq!(args, strings(&["install", name, "--root", "/tmp/sbx"]));
        }
        other => panic!("expected Install, got {:?}", other),
    }
    assert!(matches!(s.step(Event::InstallExited { code: Some(0) }), Action::ListBin));
    assert!(matches!(
        s.step(Event::BinListed { file_names: strings(bin) }),
        Action::CreateCwd
    ));
    match s.step(Event::CwdCreated) {
        Action::Run { file_name, args } => (s, file_name, args),
        other => panic!("expected Run, got {:?}", other),
    }
}

fn exit_with(s: &mut Session, code: Option<i32>) -> Outcome {
    assert!(matches!(s.step(Event::RunExited { code }), Action::RemoveSandbox));
    finish_of(s.step(Event::SandboxRemoved))
}

#[test]
fn check_install() {
    let (mut s, file, args) = run_up_to_exec("status-return", &[], &["status-return"]);
    assert_eq!(file, "status-return");
    assert!(args.is_empty());
    let outcome = exit_with(&mut s, Some(42));
    assert!(outcome.unwrap().unwrap() == 42);
}

#[test]
fn check_install_with_sub_args() {
    let (mut s, file, args) = run_up_to_exec("status-return", &["99"], &["status-return"]);
    assert_eq!(file, "status-return");
    assert_eq!(args, strings(&["99"]));
    let outcome = exit_with(&mut s, Some(99));
    assert!(outcome.unwrap().unwrap() == 99);
}

#[test]
fn args_pass_through_in_order_and_verbatim() {
    let (_, _, args) =
        run_up_to_exec("tool", &["--flag", "-x", "a b", "*", "99"], &["tool"]);
    assert_eq!(args, strings(&["--flag", "-x", "a b", "*", "99"]));
}

#[test]
fn run_without_exit_code_is_relayed_as_absent() {
    let (mut s, _, _) = run_up_to_exec("tool", &[], &["tool"]);
    assert_eq!(exit_with(&mut s, None), Ok(None));
    assert_eq!(s.phase, Phase::Done);
}

#[test]
fn executable_with_extension_is_found() {
    let (_, file, _) = run_up_to_exec("tool", &[], &["other", "tool.exe"]);
    assert_eq!(file, "tool.exe");
}

#[test]
fn first_matching_entry_wins() {
    let (_, file, _) = run_up_to_exec("tool", &[], &["readme.md", "tool.sh", "tool"]);
    assert_eq!(file, "tool.sh");
}

#[test]
fn invalid_name_fails_before_any_work() {
    for bad in ["", "-rf", "_x", "a b", "../etc", "caf\u{e9}", "--root"] {
        let mut s = Session::new(bad.to_string(), vec![]);
        let outcome = finish_of(s.step(Event::Begin));
        assert_eq!(outcome, Err(PipelineError::InvalidPackageName));
        assert_eq!(s.phase, Phase::Done);
    }
}

#[test]
fn sandbox_creation_failure() {
    let mut s = Session::new("tool".to_string(), vec![]);
    assert!(matches!(s.step(Event::Begin), Action::AcquireSandbox));
    let outcome = finish_of(s.step(Event::SandboxFailed));
    assert_eq!(outcome, Err(PipelineError::SandboxCreationError));
}

/// Begins a session and reports the sandbox created, so that it waits on
/// the installer.
fn installing(name: &str) -> Session {
    let mut s = Session::new(name.to_string(), vec![]);
    s.step(Event::Begin);
    s.step(Event::SandboxCreated { root: "/tmp/sbx".to_string() });
    assert_eq!(s.phase, Phase::Installing);
    s
}

#[test]
fn install_nonzero_exit_fails_and_never_runs() {
    let mut s = installing("tool");
    assert!(matches!(
        s.step(Event::InstallExited { code: Some(101) }),
        Action::RemoveSandbox
    ));
    // Nothing reported now leads to a run.
    assert!(matches!(s.step(Event::CwdCreated), Action::Ignore));
    assert!(matches!(
        s.step(Event::BinListed { file_names: strings(&["tool"]) }),
        Action::Ignore
    ));
    let outcome = finish_of(s.step(Event::SandboxRemoved));
    assert_eq!(outcome, Err(PipelineError::InstallFailed { status_code: Some(101) }));
}

#[test]
fn install_killed_by_signal_fails() {
    let mut s = installing("tool");
    assert!(matches!(s.step(Event::InstallExited { code: None }), Action::RemoveSandbox));
    let outcome = finish_of(s.step(Event::SandboxRemoved));
    assert_eq!(outcome, Err(PipelineError::InstallFailed { status_code: None }));
}

#[test]
fn installer_spawn_failure() {
    let mut s = installing("tool");
    assert!(matches!(s.step(Event::SpawnFailed), Action::RemoveSandbox));
    let outcome = finish_of(s.step(Event::SandboxRemoved));
    assert_eq!(outcome, Err(PipelineError::ProcessSpawnError));
}

/// A session that installed successfully and waits for the listing of `bin/`.
fn locating(name: &str) -> Session {
    let mut s = installing(name);
    s.step(Event::InstallExited { code: Some(0) });
    assert_eq!(s.phase, Phase::Locating);
    s
}

#[test]
fn no_same_named_executable() {
    for bin in [vec![], strings(&["tool-cli", "tools", "xtool", ".tool", "Tool"])] {
        let mut s = locating("tool");
        assert!(matches!(
            s.step(Event::BinListed { file_names: bin }),
            Action::RemoveSandbox
        ));
        let outcome = finish_of(s.step(Event::SandboxRemoved));
        assert_eq!(outcome, Err(PipelineError::ExecutableNotFound));
    }
}

#[test]
fn unreadable_bin_is_not_found() {
    let mut s = locating("tool");
    assert!(matches!(s.step(Event::BinUnreadable), Action::RemoveSandbox));
    let outcome = finish_of(s.step(Event::SandboxRemoved));
    assert_eq!(outcome, Err(PipelineError::ExecutableNotFound));
}

#[test]
fn cwd_creation_failure() {
    let mut s = locating("tool");
    s.step(Event::BinListed { file_names: strings(&["tool"]) });
    assert!(matches!(s.step(Event::CwdFailed), Action::RemoveSandbox));
    let outcome = finish_of(s.step(Event::SandboxRemoved));
    assert_eq!(outcome, Err(PipelineError::DirectoryCreationError));
}

#[test]
fn executable_spawn_failure() {
    let mut s = locating("tool");
    s.step(Event::BinListed { file_names: strings(&["tool"]) });
    assert!(matches!(s.step(Event::CwdCreated), Action::Run { .. }));
    assert!(matches!(s.step(Event::SpawnFailed), Action::RemoveSandbox));
    let outcome = finish_of(s.step(Event::SandboxRemoved));
    assert_eq!(outcome, Err(PipelineError::ProcessSpawnError));
}

#[test]
fn every_exit_after_sandbox_removes_it_first() {
    // For each stage with a sandbox, the failure asks for removal, and the
    // session finishes only once told the sandbox is gone.
    let failures: Vec<(Session, Event)> = vec![
        (installing("tool"), Event::InstallExited { code: Some(1) }),
        (installing("tool"), Event::SpawnFailed),
        (locating("tool"), Event::BinListed { file_names: vec![] }),
        (locating("tool"), Event::BinUnreadable),
    ];
    for (mut s, e) in failures {
        assert!(matches!(s.step(e), Action::RemoveSandbox));
        assert_eq!(s.phase, Phase::Cleaning);
        assert!(matches!(s.step(Event::RunExited { code: Some(0) }), Action::Ignore));
        assert_eq!(s.phase, Phase::Cleaning);
        assert!(matches!(s.step(Event::SandboxRemoved), Action::Finish { .. }));
        assert_eq!(s.phase, Phase::Done);
    }
}

#[test]
fn finished_session_ignores_everything() {
    let (mut s, _, _) = run_up_to_exec("tool", &[], &["tool"]);
    exit_with(&mut s, Some(3));
    assert!(matches!(s.step(Event::Begin), Action::Ignore));
    assert!(matches!(s.step(Event::SandboxRemoved), Action::Ignore));
    assert_eq!(s.phase, Phase::Done);
    assert_eq!(s.outcome, Ok(Some(3)));
}

#[test]
fn out_of_order_event_is_ignored() {
    let mut s = Session::new("tool".to_string(), vec![]);
    assert!(matches!(s.step(Event::SandboxRemoved), Action::Ignore));
    assert_eq!(s.phase, Phase::Start);
    assert!(matches!(s.step(Event::Begin), Action::AcquireSandbox));
    assert!(matches!(s.step(Event::CwdCreated), Action::Ignore));
    assert_eq!(s.phase, Phase::AcquiringSandbox);
}
