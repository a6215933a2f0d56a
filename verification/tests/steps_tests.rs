use wt::config::{CommandStep, CopyStep, ScriptStep, Step};
use wt::error::WtError;
use wt::steps::{
    run_all, run_command, run_copy, run_one, run_script, script_finished, step_label, CopyAction,
    RunAllNext, ScriptNext, SourceKind, StepContext, StepPlan,
};

fn ctx() -> StepContext<'static> {
    StepContext {
        repo_root: "/repo",
        worktree_path: "/repo/.wt/josh-fix",
        worktree_name: "josh-fix",
        branch: "josh/fix",
        default_branch: "main",
    }
}

fn steps() -> Vec<Step> {
    vec![
        Step::Copy(CopyStep { paths: vec![".env".to_string(), "config/".to_string()] }),
        Step::Command(CommandStep { run: "npm ci".to_string() }),
        Step::Script(ScriptStep { path: "scripts/setup.sh".to_string(), optional: false }),
    ]
}

#[test]
fn env_pairs_in_order() {
    let c = ctx();
    let env = c.env_pairs();
    assert_eq!(
        env,
        vec![
            ("WT_PATH", "/repo/.wt/josh-fix".to_string()),
            ("WT_NAME", "josh-fix".to_string()),
            ("WT_BRANCH", "josh/fix".to_string()),
            ("WT_REPO_ROOT", "/repo".to_string()),
            ("WT_DEFAULT_BRANCH", "main".to_string()),
        ]
    );
}

#[test]
fn labels() {
    let s = steps();
    assert_eq!(step_label(&s[0]), "copy 2 path(s)");
    assert_eq!(step_label(&s[1]), "command `npm ci`");
    assert_eq!(step_label(&s[2]), "script scripts/setup.sh");
}

#[test]
fn run_all_goes_in_order_and_stops_at_failure() {
    let s = steps();
    match run_all(&s, 0, None) {
        RunAllNext::Run { index, banner } => {
            assert_eq!(index, 0);
            assert_eq!(banner.text, "Step 1: copy 2 path(s)\n");
            assert!(!banner.to_stderr);
        }
        _ => panic!("expected Run"),
    }
    match run_all(&s, 2, None) {
        RunAllNext::Run { index, banner } => {
            assert_eq!(index, 2);
            assert_eq!(banner.text, "Step 3: script scripts/setup.sh\n");
        }
        _ => panic!("expected Run"),
    }
    assert!(matches!(run_all(&s, 3, None), RunAllNext::Done));
    let failed = WtError::message_error("command `npm ci` exited with status Some(1)".to_string());
    match run_all(&s, 2, Some(failed)) {
        RunAllNext::Fail(e) => assert_eq!(
            e.message(),
            "step 2 (command `npm ci`) failed: command `npm ci` exited with status Some(1)"
        ),
        _ => panic!("expected Fail"),
    }
    assert!(matches!(run_all(&Vec::new(), 0, None), RunAllNext::Done));
}

#[test]
fn one_step_plans() {
    let c = ctx();
    let s = steps();
    assert!(matches!(run_one(&c, &s[0]), StepPlan::Copy { ref paths } if paths.len() == 2));
    assert!(matches!(run_one(&c, &s[1]), StepPlan::Command { ref run } if run == "npm ci"));
    match run_one(&c, &s[2]) {
        StepPlan::Script { path, script_path, optional } => {
            assert_eq!(path, "scripts/setup.sh");
            assert_eq!(script_path, "/repo/scripts/setup.sh");
            assert!(!optional);
        }
        _ => panic!("expected Script"),
    }
    let abs = Step::Script(ScriptStep { path: "/opt/x.sh".to_string(), optional: true });
    assert!(matches!(run_one(&c, &abs), StepPlan::Script { ref script_path, .. } if script_path == "/opt/x.sh"));
}

#[test]
fn copy_actions() {
    let c = ctx();
    match run_copy(&c, "config", SourceKind::Directory) {
        CopyAction::Directory { banner, from, to, context } => {
            assert_eq!(banner.text, "  copying directory config\n");
            assert_eq!(from, "/repo/config");
            assert_eq!(to, "/repo/.wt/josh-fix/config");
            assert_eq!(context, "copying directory config");
        }
        _ => panic!("expected Directory"),
    }
    match run_copy(&c, ".env", SourceKind::File) {
        CopyAction::File { banner, from, to } => {
            assert_eq!(banner.text, "  copying file .env\n");
            assert_eq!(from, "/repo/.env");
            assert_eq!(to, "/repo/.wt/josh-fix/.env");
        }
        _ => panic!("expected File"),
    }
    assert!(matches!(run_copy(&c, "gone", SourceKind::Nothing), CopyAction::Skip));
}

#[test]
fn command_outcomes() {
    let step = CommandStep { run: "make".to_string() };
    assert!(run_command(&step, &Ok(Some(0))).is_ok());
    assert_eq!(
        run_command(&step, &Ok(Some(2))).unwrap_err().message(),
        "command `make` exited with status Some(2)"
    );
    assert_eq!(
        run_command(&step, &Ok(None)).unwrap_err().message(),
        "command `make` exited with status None"
    );
    assert_eq!(
        run_command(&step, &Err("no shell".to_string())).unwrap_err().message(),
        "spawning shell for command `make`: no shell"
    );
}

#[test]
fn script_outcomes() {
    let required = ScriptStep { path: "s.sh".to_string(), optional: false };
    let optional = ScriptStep { path: "s.sh".to_string(), optional: true };
    assert!(matches!(run_script(&required, "/repo/s.sh", true), ScriptNext::Run));
    match run_script(&optional, "/repo/s.sh", false) {
        ScriptNext::Skip { note } => assert_eq!(note.text, "  script s.sh not found; skipping (optional)\n"),
        _ => panic!("expected Skip"),
    }
    match run_script(&required, "/repo/s.sh", false) {
        ScriptNext::Fail(e) => assert_eq!(e.message(), "script not found: /repo/s.sh"),
        _ => panic!("expected Fail"),
    }
    assert!(script_finished("/repo/s.sh", &Ok(Some(0))).is_ok());
    assert_eq!(
        script_finished("/repo/s.sh", &Ok(Some(3))).unwrap_err().message(),
        "script /repo/s.sh exited with status Some(3)"
    );
    assert_eq!(
        script_finished("/repo/s.sh", &Err("denied".to_string())).unwrap_err().message(),
        "spawning bash /repo/s.sh: denied"
    );
}
