use wt::gh::has_pr_in_state;
use wt::process::CommandOutput;
use wt::repo::{current_branch, delete_local_branch, repo_root};
use wt::text::{
    any_line_contains, find_chars, parse_u64_str, push_decimal, push_signed_decimal,
    str_contains, to_chars, trim_str,
};

#[test]
fn trim_removes_surrounding_whitespace() {
    assert_eq!(trim_str("  main \n"), "main");
    assert_eq!(trim_str("\t\r\n"), "");
    assert_eq!(trim_str("a b"), "a b");
    assert_eq!(trim_str("\u{3000}x\u{a0}"), "x");
}

#[test]
fn find_gives_first_occurrence_in_chars() {
    let s = to_chars("ab\"number\":1,\"number\":2");
    let k = to_chars("\"number\":");
    assert_eq!(find_chars(&s, &k), Some(2));
    let none = to_chars("zzz");
    assert_eq!(find_chars(&s, &none), None);
    let empty = to_chars("");
    assert_eq!(find_chars(&s, &empty), Some(0));
}

#[test]
fn contains_matches_str_contains() {
    assert!(str_contains("fatal: is not a working tree", "is not a working tree"));
    assert!(!str_contains("fatal", "is not"));
    assert!(str_contains("anything", ""));
}

#[test]
fn parse_u64_accepts_what_str_parse_accepts() {
    assert_eq!(parse_u64_str("123"), Some(123));
    assert_eq!(parse_u64_str("+7"), Some(7));
    assert_eq!(parse_u64_str("007"), Some(7));
    assert_eq!(parse_u64_str("18446744073709551615"), Some(u64::MAX));
    assert_eq!(parse_u64_str("18446744073709551616"), None);
    assert_eq!(parse_u64_str(""), None);
    assert_eq!(parse_u64_str("+"), None);
    assert_eq!(parse_u64_str("-1"), None);
    assert_eq!(parse_u64_str("1 "), None);
    assert_eq!(parse_u64_str("12a"), None);
}

#[test]
fn decimal_round_trips_through_parse() {
    for n in [0u64, 9, 10, 42, 1000, 65535, u64::MAX] {
        let mut s = String::new();
        push_decimal(&mut s, n);
        assert_eq!(s, n.to_string());
        assert_eq!(parse_u64_str(&s), Some(n));
    }
}

#[test]
fn signed_decimal_matches_display() {
    for n in [0i32, 1, -1, 128, -255, i32::MAX, i32::MIN] {
        let mut s = String::from("x");
        push_signed_decimal(&mut s, n);
        assert_eq!(s, format!("x{}", n));
    }
}

#[test]
fn lines_are_searched_one_by_one() {
    let out = to_chars("12\tfix bug\tjosh/fix\tMERGED\r\n13\tother\tmain\tMERGED\n");
    assert!(any_line_contains(&out, &to_chars("josh/fix")));
    assert!(!any_line_contains(&out, &to_chars("fix bug\tmain")));
    assert!(!any_line_contains(&to_chars(""), &to_chars("x")));
    assert!(any_line_contains(&to_chars("a\n"), &to_chars("")));
    assert!(!any_line_contains(&to_chars(""), &to_chars("")));
}

#[test]
fn strict_utf8_decodes_or_reports() {
    let ok = Ok(CommandOutput { code: Some(0), stdout: "/home/jösé/repo\n".as_bytes().to_vec(), stderr: vec![] });
    assert_eq!(repo_root(&ok).unwrap(), "/home/jösé/repo");
    let bad = vec![0x2f, 0xff, 0x61];
    let ran = Ok(CommandOutput { code: Some(0), stdout: bad.clone(), stderr: vec![] });
    let e = repo_root(&ran).unwrap_err();
    assert_eq!(e.message(), String::from_utf8(bad).unwrap_err().to_string());
    let ran = Ok(CommandOutput { code: Some(0), stdout: vec![0x6d, 0xc3], stderr: vec![] });
    assert_eq!(current_branch(&ran), None);
}

#[test]
fn lossy_utf8_replaces_invalid_bytes() {
    let ran = Ok(CommandOutput { code: Some(1), stdout: vec![], stderr: vec![0x61, 0xff, 0x62] });
    let e = delete_local_branch("b", &ran).unwrap_err();
    assert_eq!(e.message(), "git branch -D b failed: a\u{fffd}b");
    let ran = Ok(CommandOutput { code: Some(0), stdout: vec![0x62, 0xff, 0x0a], stderr: vec![] });
    assert!(has_pr_in_state("b\u{fffd}", "merged", &ran).unwrap());
}
