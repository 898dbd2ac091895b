use build_cleaner::plan::{check_run, CleanError, CommandLine, RunOutcome};
use build_cleaner::status::{status_from_sizes, BuildStatus, StatusError};
use build_cleaner::text::{join_path, same_text};

#[test]
fn status_is_exact_sum() {
    assert_eq!(status_from_sizes(&vec![]), Ok(BuildStatus::Clean));
    assert_eq!(status_from_sizes(&vec![0, 0, 0]), Ok(BuildStatus::Clean));
    assert_eq!(status_from_sizes(&vec![3, 0, 4]), Ok(BuildStatus::Built { freeable_bytes: 7 }));
    assert_eq!(status_from_sizes(&vec![u64::MAX]), Ok(BuildStatus::Built { freeable_bytes: u64::MAX }));
    assert_eq!(status_from_sizes(&vec![u64::MAX, 1]), Err(StatusError::SizeOverflow));
}

#[test]
fn paths_join_with_one_separator() {
    assert_eq!(join_path("/a/b", "c"), "/a/b/c");
    assert_eq!(join_path("/a/b/", "c"), "/a/b/c");
    assert_eq!(join_path("", "c"), "c");
    assert_eq!(join_path("/", "target"), "/target");
}

#[test]
fn text_comparison() {
    assert!(same_text("abc", "abc"));
    assert!(!same_text("abc", "abd"));
    assert!(!same_text("abc", "ab"));
    assert!(same_text("", ""));
}

fn mix_clean() -> CommandLine {
    CommandLine {
        program: "mix".to_string(),
        args: vec!["clean".to_string(), "--deps".to_string()],
        cwd: "/p".to_string(),
    }
}

#[test]
fn command_rendering() {
    assert_eq!(mix_clean().render(), "mix clean --deps");
    let bare = CommandLine { program: "make".to_string(), args: vec![], cwd: "/".to_string() };
    assert_eq!(bare.render(), "make");
}

#[test]
fn run_outcomes() {
    let cmd = mix_clean();
    assert!(check_run(&cmd, RunOutcome::Exited { success: true, code: Some(0) }).is_ok());
    match check_run(&cmd, RunOutcome::SpawnFailed) {
        Err(CleanError::Spawn { command, path }) => {
            assert_eq!(command, "mix clean --deps");
            assert_eq!(path, "/p");
        }
        other => panic!("unexpected {:?}", other),
    }
    match check_run(&cmd, RunOutcome::Exited { success: false, code: Some(2) }) {
        Err(CleanError::ExitStatus { code, command, path }) => {
            assert_eq!(code, Some(2));
            assert_eq!(command, "mix clean --deps");
            assert_eq!(path, "/p");
        }
        other => panic!("unexpected {:?}", other),
    }
}
