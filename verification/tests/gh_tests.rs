use wt::gh::{
    extract_field, extract_quoted_field, has_pr_in_state, has_pr_in_state_args,
    parse_pr_summary, pr_summary_args, pr_summary_best_effort,
};
use wt::process::CommandOutput;
use wt::text::to_chars;

fn out(code: Option<i32>, stdout: &str, stderr: &str) -> Result<CommandOutput, String> {
    Ok(CommandOutput { code, stdout: stdout.as_bytes().to_vec(), stderr: stderr.as_bytes().to_vec() })
}

#[test]
fn parses_one_pull_request() {
    let p = parse_pr_summary("[{\"number\":123,\"state\":\"OPEN\"}]\n").unwrap();
    assert_eq!(p.number, 123);
    assert_eq!(p.state, "OPEN");
}

#[test]
fn parses_with_spaces_and_other_order() {
    let p = parse_pr_summary("  [{\"state\": \"MERGED\", \"number\": 7 }]  ").unwrap();
    assert_eq!(p.number, 7);
    assert_eq!(p.state, "MERGED");
}

#[test]
fn empty_lists_and_bodies_give_none() {
    assert!(parse_pr_summary("[]").is_none());
    assert!(parse_pr_summary(" [] \n").is_none());
    assert!(parse_pr_summary("").is_none());
    assert!(parse_pr_summary("   ").is_none());
}

#[test]
fn malformed_bodies_give_none() {
    assert!(parse_pr_summary("[{\"state\":\"OPEN\"}]").is_none());
    assert!(parse_pr_summary("[{\"number\":12}]").is_none());
    assert!(parse_pr_summary("[{\"number\":x,\"state\":\"OPEN\"}]").is_none());
    assert!(parse_pr_summary("[{\"number\":1,\"state\":OPEN}]").is_none());
    assert!(parse_pr_summary("[{\"number\":1,\"state\":\"OPEN}]").is_none());
}

#[test]
fn field_extraction() {
    let body = to_chars("{\"number\": 42 ,\"state\":  \"CLOSED\"}");
    assert_eq!(extract_field(&body, &to_chars("\"number\":")), Some("42".to_string()));
    assert_eq!(extract_field(&body, &to_chars("\"title\":")), None);
    assert_eq!(
        extract_quoted_field(&body, &to_chars("\"state\":")),
        Some("CLOSED".to_string())
    );
    assert_eq!(extract_field(&to_chars("\"n\":5"), &to_chars("\"n\":")), Some("5".to_string()));
    assert_eq!(extract_quoted_field(&body, &to_chars("\"number\":")), None);
}

#[test]
fn lookup_arguments() {
    assert_eq!(
        has_pr_in_state_args("josh/fix", "merged"),
        vec!["pr", "list", "--head", "josh/fix", "--state", "merged"]
    );
    assert_eq!(
        pr_summary_args("b"),
        vec!["pr", "list", "--head", "b", "--state", "all", "--json", "number,state", "--limit", "1"]
    );
}

#[test]
fn lookup_finds_branch_in_output() {
    let ran = out(Some(0), "17\tFix\tjosh/fix\tMERGED\t2024\n", "");
    assert!(has_pr_in_state("josh/fix", "merged", &ran).unwrap());
    let ran = out(Some(0), "", "");
    assert!(!has_pr_in_state("josh/fix", "merged", &ran).unwrap());
}

#[test]
fn lookup_failure_reports_stderr_or_code() {
    let ran = out(Some(1), "", "  not logged in \n");
    let e = has_pr_in_state("b", "closed", &ran).unwrap_err();
    assert_eq!(e.message(), "gh pr list --head b --state closed failed: not logged in");
    let ran = out(Some(4), "", "");
    let e = has_pr_in_state("b", "merged", &ran).unwrap_err();
    assert_eq!(e.message(), "gh pr list --head b --state merged failed: exit code Some(4)");
    let ran = out(None, "", "");
    let e = has_pr_in_state("b", "merged", &ran).unwrap_err();
    assert_eq!(e.message(), "gh pr list --head b --state merged failed: exit code None");
}

#[test]
fn lookup_spawn_failure() {
    let ran: Result<CommandOutput, String> = Err("No such file or directory (os error 2)".to_string());
    let e = has_pr_in_state("b", "merged", &ran).unwrap_err();
    assert_eq!(
        e.message(),
        "spawning gh (is the gh CLI installed and authenticated?): No such file or directory (os error 2)"
    );
}

#[test]
fn best_effort_summary() {
    let ran = out(Some(0), "[{\"number\":5,\"state\":\"OPEN\"}]", "");
    let p = pr_summary_best_effort(&ran).unwrap();
    assert_eq!((p.number, p.state.as_str()), (5, "OPEN"));
    assert!(pr_summary_best_effort(&out(Some(1), "[{\"number\":5,\"state\":\"OPEN\"}]", "")).is_none());
    assert!(pr_summary_best_effort(&Err("gone".to_string())).is_none());
    let bad = Ok(CommandOutput { code: Some(0), stdout: vec![0xff], stderr: vec![] });
    assert!(pr_summary_best_effort(&bad).is_none());
    assert!(pr_summary_best_effort(&out(Some(0), "[]", "")).is_none());
}
