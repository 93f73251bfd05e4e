use remote_exec::errors::ExecError;
use remote_exec::outcome::{assemble_result, stderr_separator, CommandResult};

fn result(
    stdout: &str,
    stderr: &str,
    exit_code: i32,
    succeeded: bool,
    stdout_complete: bool,
    stderr_complete: bool,
) -> CommandResult {
    CommandResult {
        stdout: stdout.to_owned(),
        stderr: stderr.to_owned(),
        exit_code,
        succeeded,
        stdout_complete,
        stderr_complete,
    }
}

#[test]
fn zero_exit_status_yields_success() {
    let r = assemble_result("echo hello", "hello\n".to_owned(), true, String::new(), true, 0);
    let res = r.expect("exit status zero must assemble into a success");
    assert!(res.succeeded);
    assert_eq!(res.exit_code, 0);
    assert!(res.stdout.contains("hello"));
    assert_eq!(res, result("hello\n", "", 0, true, true, true));
}

#[test]
fn nonzero_exit_status_preserves_everything() {
    let r = assemble_result("exit 3", "partial out".to_owned(), true, "boom".to_owned(), true, 3);
    match r {
        Ok(_) => panic!("a non-zero status must not assemble into a success"),
        Err(ExecError::CommandNonZeroExit { command, result: res }) => {
            assert_eq!(command, "exit 3");
            assert_eq!(res.exit_code, 3);
            assert!(!res.succeeded);
            assert_eq!(res.stdout, "partial out");
            assert_eq!(res.stderr, "boom");
        }
        Err(other) => panic!("unexpected error kind: {:?}", other),
    }
}

#[test]
fn negative_exit_status_is_a_failure_too() {
    let r = assemble_result("kill me", String::new(), false, String::new(), false, -1);
    match r {
        Err(ExecError::CommandNonZeroExit { result: res, .. }) => {
            assert_eq!(res.exit_code, -1);
            assert!(!res.succeeded);
            assert!(!res.stdout_complete);
            assert!(!res.stderr_complete);
        }
        other => panic!("unexpected outcome: {:?}", other),
    }
}

#[test]
fn completeness_flags_are_kept() {
    let r = assemble_result("c", "a".to_owned(), false, "b".to_owned(), true, 0);
    let res = r.expect("status zero succeeds even with a partial read");
    assert!(!res.stdout_complete);
    assert!(res.stderr_complete);
    assert_eq!(res.stdout, "a");
    assert_eq!(res.stderr, "b");
}

#[test]
fn combined_is_stdout_alone_when_stderr_is_empty() {
    let res = result("only stdout\n", "", 0, true, true, true);
    assert_eq!(res.combined(), "only stdout\n");
}

#[test]
fn combined_joins_stderr_behind_the_separator() {
    let res = result("out\n", "err\n", 1, false, true, true);
    let expected = format!("out\n{}err\n", stderr_separator());
    assert_eq!(res.combined(), expected);
}

#[test]
fn combined_with_empty_stdout_still_marks_stderr() {
    let res = result("", "lonely error\n", 2, false, true, true);
    let expected = format!("{}lonely error\n", stderr_separator());
    assert_eq!(res.combined(), expected);
}

#[test]
fn separator_is_a_clear_marker_line() {
    assert_eq!(stderr_separator(), "\n--- STDERR ---\n");
}
