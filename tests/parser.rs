use git_history::cli::GitCli;
use git_history::models::{Commit, Header};

fn header(author: &str, time: i64, message: &str) -> Header {
    Header::new(author.to_string(), time, message.to_string())
}

fn header_line(author: &str, time: i64, message: &str) -> String {
    format!("{{\"author\": \"{}\", \"time\": {}, \"message\": \"{}\"}}", author, time, message)
}

fn parse(lines: &[String], headers: Vec<Option<Header>>) -> Vec<Commit> {
    GitCli::translate_commits(&lines.to_vec(), &headers)
}

#[test]
fn empty_input_gives_no_commits() {
    let lines = GitCli::log_lines(b"");
    assert!(lines.is_empty());
    let commits = GitCli::translate_commits(&lines, &Vec::new());
    assert!(commits.is_empty());
}

#[test]
fn single_header_gives_one_commit() {
    let lines = vec![header_line("a@x.org", 1700000000, "first")];
    let commits = parse(&lines, vec![Some(header("a@x.org", 1700000000, "first"))]);
    assert_eq!(commits.len(), 1);
    assert_eq!(commits[0].author, "a@x.org");
    assert_eq!(commits[0].time, 1700000000);
    assert_eq!(commits[0].message, "first");
    assert!(commits[0].changes.is_empty());
}

#[test]
fn diff_lines_accumulate() {
    let d1 = "diff --git a/x b/x".to_string();
    let d2 = "diff --git a/y b/y".to_string();
    let lines = vec![header_line("a", 5, "m"), d1.clone(), d2.clone()];
    let commits = parse(&lines, vec![Some(header("a", 5, "m")), None, None]);
    assert_eq!(commits.len(), 1);
    assert_eq!(commits[0].changes, vec![d1, d2]);
}

#[test]
fn continuation_folds_into_last_block() {
    let lines = vec![
        header_line("a", 5, "m"),
        "diff --git a/x b/x".to_string(),
        "+added line".to_string(),
    ];
    let commits = parse(&lines, vec![Some(header("a", 5, "m")), None, None]);
    assert_eq!(commits.len(), 1);
    assert_eq!(commits[0].changes, vec!["diff --git a/x b/x\n+added line".to_string()]);
}

#[test]
fn noise_before_any_header_is_dropped() {
    let lines = vec!["banner text".to_string(), header_line("a", 1, "m")];
    let commits = parse(&lines, vec![None, Some(header("a", 1, "m"))]);
    assert_eq!(commits.len(), 1);
    assert!(commits[0].changes.is_empty());
}

#[test]
fn noise_before_first_diff_is_dropped() {
    let lines = vec![
        header_line("a", 1, "m"),
        "plain text".to_string(),
        "diff --git a/x b/x".to_string(),
    ];
    let commits = parse(&lines, vec![Some(header("a", 1, "m")), None, None]);
    assert_eq!(commits.len(), 1);
    assert_eq!(commits[0].changes, vec!["diff --git a/x b/x".to_string()]);
}

#[test]
fn diff_lines_before_any_header_are_dropped() {
    let lines = vec!["diff --git a/x b/x".to_string()];
    let commits = parse(&lines, vec![None]);
    assert!(commits.is_empty());
}

#[test]
fn commits_keep_their_order() {
    let lines = vec![
        header_line("a", 2, "second"),
        "diff a".to_string(),
        header_line("b", 1, "first"),
        "diff b".to_string(),
    ];
    let commits = parse(
        &lines,
        vec![Some(header("a", 2, "second")), None, Some(header("b", 1, "first")), None],
    );
    assert_eq!(commits.len(), 2);
    assert_eq!(commits[0].author, "a");
    assert_eq!(commits[0].changes, vec!["diff a".to_string()]);
    assert_eq!(commits[1].author, "b");
    assert_eq!(commits[1].changes, vec!["diff b".to_string()]);
}

#[test]
fn header_after_header_leaves_empty_changes() {
    let lines = vec![header_line("a", 2, "x"), header_line("b", 1, "y")];
    let commits = parse(&lines, vec![Some(header("a", 2, "x")), Some(header("b", 1, "y"))]);
    assert_eq!(commits.len(), 2);
    assert!(commits[0].changes.is_empty());
    assert!(commits[1].changes.is_empty());
}

#[test]
fn marker_anywhere_in_line_opens_block() {
    let lines = vec![
        header_line("a", 1, "m"),
        "index diff here".to_string(),
        "context".to_string(),
        "x_diff_y".to_string(),
    ];
    let commits = parse(&lines, vec![Some(header("a", 1, "m")), None, None, None]);
    assert_eq!(
        commits[0].changes,
        vec!["index diff here\ncontext".to_string(), "x_diff_y".to_string()]
    );
}

#[test]
fn marker_is_case_sensitive() {
    let lines = vec![header_line("a", 1, "m"), "DIFF upper".to_string()];
    let commits = parse(&lines, vec![Some(header("a", 1, "m")), None]);
    assert!(commits[0].changes.is_empty());
}

#[test]
fn continuation_keeps_empty_lines() {
    let lines = vec![header_line("a", 1, "m"), "diff x".to_string(), String::new(), "y".to_string()];
    let commits = parse(&lines, vec![Some(header("a", 1, "m")), None, None, None]);
    assert_eq!(commits[0].changes, vec!["diff x\n\ny".to_string()]);
}

#[test]
fn log_lines_split_at_newlines() {
    let lines = GitCli::log_lines(b"one\ntwo\r\n\nthree");
    assert_eq!(lines, vec!["one".to_string(), "two".to_string(), String::new(), "three".to_string()]);
}

#[test]
fn log_lines_final_newline_is_optional() {
    assert_eq!(GitCli::log_lines(b"a\nb\n"), GitCli::log_lines(b"a\nb"));
    assert_eq!(GitCli::log_lines(b"\n"), vec![String::new()]);
}

#[test]
fn log_lines_keep_bare_final_carriage_return() {
    assert_eq!(GitCli::log_lines(b"a\r"), vec!["a\r".to_string()]);
    assert_eq!(GitCli::log_lines(b"a\r\n"), vec!["a".to_string()]);
}

#[test]
fn log_lines_replace_invalid_utf8() {
    let lines = GitCli::log_lines(b"ok\n\xffbad");
    assert_eq!(lines, vec!["ok".to_string(), "\u{FFFD}bad".to_string()]);
}

#[test]
fn log_lines_then_translate() {
    let output = b"noise\nH1\ndiff --git a/f b/f\n+x\nH2\n";
    let lines = GitCli::log_lines(output);
    assert_eq!(lines.len(), 5);
    let headers: Vec<Option<Header>> = lines
        .iter()
        .map(|l| if l.starts_with('H') { Some(header(l, 0, l)) } else { None })
        .collect();
    let commits = GitCli::translate_commits(&lines, &headers);
    assert_eq!(commits.len(), 2);
    assert_eq!(commits[0].message, "H1");
    assert_eq!(commits[0].changes, vec!["diff --git a/f b/f\n+x".to_string()]);
    assert_eq!(commits[1].message, "H2");
    assert!(commits[1].changes.is_empty());
}

#[test]
fn commit_from_header_has_no_changes() {
    let c = Commit::from_header(&header("me", -3, "msg"));
    assert_eq!(c.author, "me");
    assert_eq!(c.time, -3);
    assert_eq!(c.message, "msg");
    assert!(c.changes.is_empty());
}
