use skill_bench::assertions::database::{check_db_query, compare_query_result, db_filename, query_read, DbRead, SqlCell};
use skill_bench::assertions::file::{
    check_file_content, check_output_file, check_workspace_dir, check_workspace_file, output_file_candidates,
    EntryKind, FileRead,
};
use skill_bench::assertions::{AssertionChecker, Observation, Probe};
use skill_bench::models::{CheckData, CheckStep};
use skill_bench::runtime::executor::output_subdir;
use std::path::PathBuf;

// A workspace, as the runner observes it: each entry's path, kind and text.
struct Workspace {
    entries: Vec<(&'static str, EntryKind, Option<&'static str>)>,
}

impl Workspace {
    fn kind(&self, path: &str) -> EntryKind {
        self.entries.iter().find(|e| e.0 == path).map(|e| e.1).unwrap_or(EntryKind::Missing)
    }

    fn read(&self, path: &str) -> FileRead {
        match self.entries.iter().find(|e| e.0 == path) {
            None => FileRead::Missing,
            Some((_, _, Some(text))) => FileRead::Text(text.to_string()),
            Some(_) => FileRead::Unreadable("Is a directory (os error 21)".to_string()),
        }
    }

    // What the runner observes for a probe; copies succeed.
    fn observe(&self, probe: &Probe) -> Observation {
        match probe {
            Probe::Nothing => Observation::Nothing,
            Probe::Entry { path } => Observation::Entry(self.kind(path)),
            Probe::EntryAndCopy { path, .. } => Observation::Copied { kind: self.kind(path), copy_error: None },
            Probe::Read { file } => Observation::Read(self.read(file)),
            Probe::Query { .. } => Observation::Query(DbRead::Missing),
        }
    }
}

fn file(path: &'static str, text: &'static str) -> (&'static str, EntryKind, Option<&'static str>) {
    (path, EntryKind::File, Some(text))
}

fn dir(path: &'static str) -> (&'static str, EntryKind, Option<&'static str>) {
    (path, EntryKind::Dir, None)
}

fn file_content(ws: &Workspace, name: &str, search: &str, contains: bool) -> Result<(), String> {
    check_file_content(name, &ws.read(name), search, contains)
}

fn workspace_dirs(ws: &Workspace, dirs: &[&str]) -> Result<(), String> {
    let kinds: Vec<EntryKind> = dirs.iter().map(|d| ws.kind(d)).collect();
    check_workspace_dir(dirs, &kinds)
}

fn empty_checker(output_dir: Option<PathBuf>, subdir: Option<String>) -> AssertionChecker {
    AssertionChecker::new(&Vec::new(), PathBuf::from("/work"), output_dir, subdir)
}

fn evaluate(ws: &Workspace, checker: &AssertionChecker, check: &CheckStep) -> Result<(), String> {
    let probe = checker.probe_for(check);
    checker.evaluate_check(check, &ws.observe(&probe))
}

#[test]
fn test_file_content_check() {
    let ws = Workspace { entries: vec![file("test.txt", "Hello, World!")] };

    let result = file_content(&ws, "test.txt", "Hello", true);
    assert!(result.is_ok(), "file should contain 'Hello'");

    let result = file_content(&ws, "test.txt", "Goodbye", false);
    assert!(result.is_ok(), "file should not contain 'Goodbye'");
}

#[test]
fn test_file_content_not_found() {
    let ws = Workspace { entries: vec![file("test.txt", "Hello, World!")] };

    let result = file_content(&ws, "test.txt", "Hello", true);
    assert!(result.is_ok(), "file should contain 'Hello'");

    let result = file_content(&ws, "test.txt", "Hello", false);
    assert!(result.is_err(), "file should not fail negative check for 'Hello'");
}

#[test]
fn test_workspace_file_check() {
    let ws = Workspace { entries: vec![file("output.txt", "test content")] };

    let result = check_workspace_file("output.txt", ws.kind("output.txt"), None);
    assert!(result.is_ok(), "workspace file should exist");

    let result = check_workspace_file("nonexistent.txt", ws.kind("nonexistent.txt"), None);
    assert!(result.is_err(), "nonexistent file should not exist");
}

#[test]
fn test_workspace_dir_check() {
    let ws = Workspace { entries: vec![dir("subdir")] };

    let result = workspace_dirs(&ws, &["subdir"]);
    assert!(result.is_ok(), "workspace directory should exist");

    let result = workspace_dirs(&ws, &["nonexistent"]);
    assert!(result.is_err(), "nonexistent directory should not exist");
}

#[test]
fn test_workspace_dir_multiple() {
    let ws = Workspace { entries: vec![dir("dir1"), dir("dir2")] };

    let result = workspace_dirs(&ws, &["dir1", "dir2"]);
    assert!(result.is_ok(), "all workspace directories should exist");

    let result = workspace_dirs(&ws, &["dir1", "nonexistent"]);
    assert!(result.is_err(), "should fail if any directory is missing");
}

#[test]
fn test_file_contains_via_evaluate_check() {
    let ws = Workspace { entries: vec![file("report.md", "Screened patents: 42"), file("empty.log", "")] };
    let checker = empty_checker(None, None);

    let check = CheckStep {
        name: "contains_patent_data".to_string(),
        command: CheckData {
            command: "file-contains".to_string(),
            file: Some("report.md".to_string()),
            contains: Some("Screened patents".to_string()),
            ..Default::default()
        },
        deny: false,
    };

    let result = evaluate(&ws, &checker, &check);
    assert!(result.is_ok(), "file-contains should pass when string is present");

    let check_missing = CheckStep {
        name: "contains_missing".to_string(),
        command: CheckData {
            command: "file-contains".to_string(),
            file: Some("report.md".to_string()),
            contains: Some("NOTPRESENT".to_string()),
            ..Default::default()
        },
        deny: false,
    };

    let result = evaluate(&ws, &checker, &check_missing);
    assert!(result.is_err(), "file-contains should fail when string is absent");
}

// The copy itself is the runner's; the library decides that the file is to
// be copied, where the output directory and the test's subdirectory are.
#[test]
fn test_copy_to_output_creates_subdirectory() {
    let ws = Workspace { entries: vec![file("output.txt", "test content"), file("empty.log", "")] };
    let checker = empty_checker(
        Some(PathBuf::from("/out")),
        Some("skill_test_20260404_050943".to_string()),
    );

    let check = CheckStep {
        name: "copy_file".to_string(),
        command: CheckData {
            command: "workspace-file".to_string(),
            path: Some("output.txt".to_string()),
            copy_to_output: Some(true),
            ..Default::default()
        },
        deny: false,
    };

    let result = evaluate(&ws, &checker, &check);
    assert!(result.is_ok(), "workspace-file with copy should pass");

    let subdir = output_subdir("skill", "test", "20260404_050943");
    assert_eq!(subdir, "skill_test_20260404_050943");
    assert!(matches!(
        checker.probe_for(&check),
        Probe::EntryAndCopy { ref path, ref dest } if path == "output.txt" && dest == "skill_test_20260404_050943/output.txt"
    ));
    let plain = empty_checker(Some(PathBuf::from("/out")), None);
    assert!(matches!(
        plain.probe_for(&check),
        Probe::EntryAndCopy { ref dest, .. } if dest == "output.txt"
    ));
    assert_eq!(checker.log_output_dir(), &Some(PathBuf::from("/out")));
    assert_eq!(checker.test_subdir().as_deref(), Some("skill_test_20260404_050943"));
    let failed_copy = Observation::Copied { kind: EntryKind::File, copy_error: Some("disk full".to_string()) };
    assert_eq!(
        checker.evaluate_check(&check, &failed_copy).unwrap_err(),
        "Failed to copy 'output.txt' to output: disk full"
    );
    let without_output = empty_checker(None, None);
    assert!(matches!(without_output.probe_for(&check), Probe::Entry { ref path } if path == "output.txt"));
}

#[test]
fn file_check_messages() {
    assert_eq!(
        check_file_content("a.txt", &FileRead::Missing, "x", true).unwrap_err(),
        "File 'a.txt' does not exist in workspace"
    );
    assert_eq!(
        check_file_content("a.txt", &FileRead::Unreadable("bad".to_string()), "x", true).unwrap_err(),
        "Failed to read file 'a.txt': bad"
    );
    assert_eq!(
        check_file_content("a.txt", &FileRead::Text("abc".to_string()), "x", true).unwrap_err(),
        "File 'a.txt' does not contain expected string 'x'"
    );
    assert_eq!(
        check_file_content("a.txt", &FileRead::Text("abc".to_string()), "b", false).unwrap_err(),
        "File 'a.txt' contains unexpected string 'b'"
    );
    assert_eq!(
        check_workspace_file("o.txt", EntryKind::Dir, None).unwrap_err(),
        "Workspace file 'o.txt' does not exist"
    );
    assert_eq!(
        check_workspace_file("o.txt", EntryKind::File, Some("denied".to_string())).unwrap_err(),
        "Failed to copy 'o.txt' to output: denied"
    );
    assert_eq!(
        check_workspace_dir(&["d1", "f", "d2"], &[EntryKind::Dir, EntryKind::File, EntryKind::Missing]).unwrap_err(),
        "Workspace directory 'f' does not exist"
    );
    assert!(check_workspace_dir(&[], &[]).is_ok());
}

#[test]
fn output_file_is_looked_for_in_known_places() {
    let candidates = output_file_candidates("report.md");
    assert!(candidates.len() >= 1);
    assert!(candidates.iter().all(|c| c.ends_with("report.md")));
    let none = vec![false; candidates.len()];
    assert!(check_output_file("report.md", &none).is_err());
    let mut last = none.clone();
    *last.last_mut().unwrap() = true;
    assert!(check_output_file("report.md", &last).is_ok());
    assert_eq!(check_output_file("report.md", &none).unwrap_err(), "Output file 'report.md' not found");
    let usual = output_file_candidates("");
    assert_eq!(usual, vec!["output.txt", "output.md", "result.txt", "result.md", "PROGRESS.md"]);
    assert_eq!(check_output_file("", &[false; 5]).unwrap_err(), "No output file found");
    assert!(check_output_file("{}", &[false, false, false, true, false]).is_ok());
}

#[test]
fn deny_inverts_a_workspace_check() {
    let checker = empty_checker(None, None);
    let check = CheckStep {
        name: "no_file".to_string(),
        command: CheckData {
            command: "workspace-file".to_string(),
            path: Some("absent.txt".to_string()),
            ..Default::default()
        },
        deny: true,
    };
    assert!(evaluate(&Workspace { entries: vec![] }, &checker, &check).is_ok());
    let ws = Workspace { entries: vec![file("absent.txt", "now here")] };
    assert_eq!(evaluate(&ws, &checker, &check).unwrap_err(), "Check passed but was marked as deny");
}

#[test]
fn missing_fields_and_unknown_commands() {
    let checker = empty_checker(None, None);
    let ws = Workspace { entries: vec![] };
    let step = |command: &str, data: CheckData| CheckStep {
        name: "c".to_string(),
        command: CheckData { command: command.to_string(), ..data },
        deny: false,
    };
    assert_eq!(evaluate(&ws, &checker, &step("workspace-file", CheckData::default())).unwrap_err(), "Missing path");
    assert_eq!(evaluate(&ws, &checker, &step("file-contains", CheckData::default())).unwrap_err(), "Missing file");
    assert_eq!(
        evaluate(&ws, &checker, &step("file-contains", CheckData { file: Some("f".to_string()), ..Default::default() }))
            .unwrap_err(),
        "Missing contains"
    );
    assert_eq!(evaluate(&ws, &checker, &step("tool-param", CheckData::default())).unwrap_err(), "Missing tool");
    assert_eq!(evaluate(&ws, &checker, &step("db-query", CheckData::default())).unwrap_err(), "Missing expected");
    assert_eq!(evaluate(&ws, &checker, &step("frobnicate", CheckData::default())).unwrap_err(), "Unknown check command: frobnicate");
    let denied_unknown = CheckStep { deny: true, ..step("frobnicate", CheckData::default()) };
    assert!(evaluate(&ws, &checker, &denied_unknown).is_ok());
}

#[test]
fn database_queries_compare_results() {
    assert_eq!(db_filename("data.db"), "data.db");
    assert!(check_db_query(&DbRead::Value("3".to_string()), "3").is_ok());
    assert!(check_db_query(&DbRead::Missing, "3").is_err());
    assert!(check_db_query(&DbRead::OpenFailed("locked".to_string()), "3").unwrap_err().contains("locked"));
    assert!(check_db_query(&DbRead::PrepareFailed("syntax".to_string()), "3").unwrap_err().contains("syntax"));
    assert!(check_db_query(&DbRead::Value("4".to_string()), "3").is_err());
    assert_eq!(db_filename(""), "patents.db");
    assert_eq!(db_filename("{}"), "patents.db");
    assert_eq!(check_db_query(&DbRead::Missing, "3").unwrap_err(), "Database file does not exist");
    assert_eq!(
        check_db_query(&DbRead::Value("4".to_string()), "3").unwrap_err(),
        "Query result '4' does not match expected '3'"
    );
    assert!(check_db_query(&DbRead::Value("5".to_string()), ">=3").is_ok());
    assert!(check_db_query(&DbRead::Value("3".to_string()), ">=3").is_ok());
    assert!(check_db_query(&DbRead::Value("3".to_string()), ">3").is_err());
    assert!(check_db_query(&DbRead::Value("2".to_string()), "<3").is_ok());
    assert!(check_db_query(&DbRead::Value("3".to_string()), "<=3").is_ok());
    assert!(check_db_query(&DbRead::Value("10".to_string()), "=10").is_ok());
    assert_eq!(
        check_db_query(&DbRead::Value("many".to_string()), ">0").unwrap_err(),
        "Result 'many' is not a number"
    );
    // With a space the expectation is no comparison: it is compared as text.
    assert!(check_db_query(&DbRead::Value("5".to_string()), ">= 3").is_err());
    assert!(check_db_query(&DbRead::Value(">= 3".to_string()), ">= 3").is_ok());
    assert!(compare_query_result("7", "7", None).is_ok());
    let groups = Some(vec![Some(">=3".to_string()), Some(">=".to_string()), Some("3".to_string())]);
    assert!(compare_query_result("2", ">=3", groups).is_err());
}

#[test]
fn file_content_is_file_contains() {
    let ws = Workspace { entries: vec![file("notes.md", "alpha beta")] };
    let checker = empty_checker(None, None);
    let step = |contains: &str, deny: bool| CheckStep {
        name: "c".to_string(),
        command: CheckData {
            command: "file-content".to_string(),
            file: Some("notes.md".to_string()),
            contains: Some(contains.to_string()),
            ..Default::default()
        },
        deny,
    };
    assert!(matches!(checker.probe_for(&step("beta", false)), Probe::Read { ref file } if file == "notes.md"));
    assert!(evaluate(&ws, &checker, &step("beta", false)).is_ok());
    assert_eq!(
        evaluate(&ws, &checker, &step("gamma", false)).unwrap_err(),
        "File 'notes.md' does not contain expected string 'gamma'"
    );
    assert!(evaluate(&ws, &checker, &step("gamma", true)).is_ok());
    assert_eq!(
        evaluate(&ws, &checker, &step("beta", true)).unwrap_err(),
        "File 'notes.md' contains unexpected string 'beta'"
    );
}

#[test]
fn query_values_as_text() {
    let text = |c: Option<SqlCell>| match query_read(c) {
        DbRead::Value(t) => t,
        _ => panic!("a query's value"),
    };
    assert_eq!(text(Some(SqlCell::Integer(42))), "42");
    assert_eq!(text(Some(SqlCell::Integer(-7))), "-7");
    assert_eq!(text(Some(SqlCell::Integer(i64::MIN))), i64::MIN.to_string());
    assert_eq!(text(Some(SqlCell::Real("2.5".to_string()))), "2.5");
    assert_eq!(text(Some(SqlCell::Text("abc".to_string()))), "abc");
    assert_eq!(text(Some(SqlCell::Blob(vec![104, 105, 0xff]))), "hi\u{fffd}");
    assert_eq!(text(Some(SqlCell::Null)), "");
    assert_eq!(text(None), "");
    assert!(check_db_query(&query_read(Some(SqlCell::Integer(3))), ">0").is_ok());
}
