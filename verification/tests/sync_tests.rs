use journaltime::errs::{CheckStatus, Error, ProcessStatus};
use journaltime::git::{BootstrapFlow, CommitFlow, GitCmd};

fn passed() -> ProcessStatus {
    ProcessStatus { success: true, status: String::from("exit status: 0") }
}

fn failed() -> ProcessStatus {
    ProcessStatus { success: false, status: String::from("exit status: 1") }
}

fn status_of(ok: bool) -> ProcessStatus {
    if ok {
        passed()
    } else {
        failed()
    }
}

fn drive(mut state: BootstrapFlow, outcomes: &[bool]) -> (BootstrapFlow, Vec<GitCmd>) {
    let mut cmds = Vec::new();
    for &ok in outcomes {
        let (next, cmd) = state.step(&status_of(ok));
        state = next;
        if let Some(c) = cmd {
            cmds.push(c);
        }
    }
    (state, cmds)
}

#[test]
fn bootstrap_starts_with_the_namespace_fetch() {
    let (state, cmd) = BootstrapFlow::start("git@github.com:spraints/work-journal.git");
    assert_eq!(state, BootstrapFlow::Fetching);
    match cmd {
        GitCmd::Fetch { url, refspec } => {
            assert_eq!(url, "git@github.com:spraints/work-journal.git");
            assert_eq!(refspec, "+refs/heads/*:refs/just-fetch/*");
        },
        _ => panic!("expected a fetch"),
    }
}

#[test]
fn bootstrap_probe_success_merges() {
    // fetch ok, rev-parse HEAD ok, merge ok: exactly one probe and one merge.
    let (state, cmds) = drive(BootstrapFlow::Fetching, &[true, true, true]);
    assert_eq!(state, BootstrapFlow::Reconciled);
    assert_eq!(cmds.len(), 2);
    assert!(matches!(cmds[0], GitCmd::RevParseHead));
    match &cmds[1] {
        GitCmd::Merge { reference } => assert_eq!(reference, "refs/just-fetch/main"),
        _ => panic!("expected a merge"),
    }
    assert_eq!(state.outcome(), Some(Ok(())));
}

#[test]
fn bootstrap_probe_failure_checks_out_main() {
    // fetch ok, rev-parse HEAD fails (no local history), checkout ok.
    let (state, cmds) = drive(BootstrapFlow::Fetching, &[true, false, true]);
    assert_eq!(state, BootstrapFlow::Reconciled);
    assert_eq!(cmds.len(), 2);
    assert!(matches!(cmds[0], GitCmd::RevParseHead));
    match &cmds[1] {
        GitCmd::Checkout { branch, reference } => {
            assert_eq!(branch, "main");
            assert_eq!(reference, "refs/just-fetch/main");
        },
        _ => panic!("expected a checkout"),
    }
}

#[test]
fn bootstrap_fetch_failure_is_fatal() {
    let (state, cmds) = drive(BootstrapFlow::Fetching, &[false, true, true]);
    assert!(cmds.is_empty());
    match state.outcome() {
        Some(Err(Error::Sync(m))) => {
            assert_eq!(m, "command did not complete successfully (exit status: 1)")
        },
        _ => panic!("expected a sync error"),
    }
}

#[test]
fn bootstrap_merge_failure_is_fatal() {
    let (state, cmds) = drive(BootstrapFlow::Fetching, &[true, true, false]);
    assert_eq!(cmds.len(), 2);
    assert!(matches!(state, BootstrapFlow::Failed { .. }));
}

#[test]
fn commit_flow_stages_exactly_one_file() {
    let (state, cmd) = CommitFlow::start("2024/03-11.md");
    assert_eq!(state, CommitFlow::Adding);
    match cmd {
        GitCmd::Add { path } => assert_eq!(path, "2024/03-11.md"),
        _ => panic!("expected an add"),
    }
}

#[test]
fn commit_flow_happy_path() {
    let (s1, c1) = CommitFlow::Adding.step(&passed());
    assert_eq!(s1, CommitFlow::Committing);
    match c1 {
        Some(GitCmd::Commit { message }) => assert_eq!(message, "edited entry"),
        _ => panic!("expected a commit"),
    }
    let (s2, c2) = s1.step(&passed());
    assert_eq!(s2, CommitFlow::Pushing);
    assert!(matches!(c2, Some(GitCmd::Push)));
    let (s3, c3) = s2.step(&passed());
    assert_eq!(s3, CommitFlow::Done);
    assert!(c3.is_none());
    assert_eq!(s3.outcome(), Some(Ok(())));
}

#[test]
fn commit_failure_is_tolerated_and_push_still_runs() {
    // An empty edit session makes `git commit` fail; the flow pushes anyway.
    let (s, c) = CommitFlow::Committing.step(&failed());
    assert_eq!(s, CommitFlow::Pushing);
    assert!(matches!(c, Some(GitCmd::Push)));
}

#[test]
fn add_failure_is_fatal_and_keeps_the_status_text() {
    let (s, c) = CommitFlow::Adding.step(&failed());
    assert!(c.is_none());
    match s.outcome() {
        Some(Err(Error::ExternalTool(m))) => {
            assert_eq!(m, "command did not complete successfully (exit status: 1)")
        },
        _ => panic!("expected an external tool error"),
    }
}

#[test]
fn push_failure_reports_sync_error_after_commit() {
    let (s, c) = CommitFlow::Pushing.step(&failed());
    assert!(c.is_none());
    match s.outcome() {
        Some(Err(Error::Sync(m))) => {
            assert_eq!(m, "command did not complete successfully (exit status: 1)")
        },
        _ => panic!("expected a sync error"),
    }
}

#[test]
fn manual_push_targets_main() {
    match journaltime::git::push_plan(journaltime::git::remote_repo_url()) {
        GitCmd::PushRef { url, refspec } => {
            assert_eq!(url, "git@github.com:spraints/work-journal.git");
            assert_eq!(refspec, "refs/heads/main:refs/heads/main");
        },
        _ => panic!("expected a push"),
    }
}

#[test]
fn check_status_maps_exit_codes() {
    assert!(passed().check().is_ok());
    match failed().check() {
        Err(Error::ExternalTool(m)) => {
            assert_eq!(m, "command did not complete successfully (exit status: 1)")
        },
        _ => panic!("expected an external tool error"),
    }
}

#[test]
fn check_status_surfaces_the_captured_text() {
    let st = ProcessStatus { success: false, status: String::from("signal: 9 (SIGKILL)") };
    match st.check() {
        Err(e) => assert_eq!(
            e.message(),
            "command did not complete successfully (signal: 9 (SIGKILL))"
        ),
        _ => panic!("expected an error"),
    }
}

#[test]
fn error_messages_are_single_lines() {
    let errors = [
        Error::Configuration,
        Error::ExternalTool(String::from("command did not complete successfully (exit status: 1)")),
        Error::Storage(String::from("permission denied")),
        Error::Sync(String::from("command did not complete successfully (exit status: 128)")),
    ];
    for e in errors {
        let m = e.message();
        assert!(!m.is_empty());
        assert!(!m.contains('\n'));
    }
}
