use wt::error::WtError;

#[test]
fn spawn_error_message() {
    let e = WtError::Spawn {
        context: "spawning git rev-parse --show-toplevel".to_string(),
        cause: "No such file or directory (os error 2)".to_string(),
    };
    assert_eq!(
        e.message(),
        "spawning git rev-parse --show-toplevel: No such file or directory (os error 2)"
    );
    assert_eq!(e.headline(), "spawning git rev-parse --show-toplevel");
}

#[test]
fn failed_error_message() {
    let e = WtError::Failed {
        command: "git rev-parse --show-toplevel".to_string(),
        detail: "fatal: not a git repository".to_string(),
    };
    assert_eq!(e.message(), "git rev-parse --show-toplevel failed: fatal: not a git repository");
    assert_eq!(e.headline(), e.message());
}

#[test]
fn exited_error_message() {
    let e = WtError::Exited { command: "git worktree prune".to_string(), code: Some(128) };
    assert_eq!(e.message(), "git worktree prune failed (exit Some(128))");
    let e = WtError::Exited { command: "git worktree prune".to_string(), code: None };
    assert_eq!(e.message(), "git worktree prune failed (exit None)");
    let e = WtError::Exited { command: "git x".to_string(), code: Some(-3) };
    assert_eq!(e.message(), "git x failed (exit Some(-3))");
}

#[test]
fn context_error_message_nests() {
    let e = WtError::with_context(
        "step 2 (command `make`) failed".to_string(),
        WtError::message_error("command `make` exited with status Some(2)".to_string()),
    );
    assert_eq!(
        e.message(),
        "step 2 (command `make`) failed: command `make` exited with status Some(2)"
    );
    assert_eq!(e.headline(), "step 2 (command `make`) failed");
}

#[test]
fn message_error_is_its_text() {
    let e = WtError::message_error("cancelled".to_string());
    assert_eq!(e.message(), "cancelled");
    assert_eq!(e.headline(), "cancelled");
}
