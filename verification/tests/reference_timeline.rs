use skill_bench::assertions::{load_log_lines, AssertionChecker, Observation};
use skill_bench::assertions::database::{check_db_query, DbRead};
use skill_bench::models::{CheckData, CheckStep};
use skill_bench::reference::{check_docs, print_help};
use skill_bench::text::{decimal, trim};
use skill_bench::timeline::{event_icon, event_line, timeline_entry_events, timeline_events, TimelineItem};

#[test]
fn help_overview_lists_every_check_type() {
    let overview = print_help(None).unwrap();
    assert!(overview.starts_with("Usage: skill-bench help <type>\n\nCheck types:\n"));
    assert!(overview.contains("  skill-loaded         Verify a skill was loaded during initialization\n"));
    assert!(overview.ends_with("\nOther:\n  setup                Setup step documentation\n"));
    let docs = check_docs();
    assert_eq!(docs.len(), 13);
    for d in &docs {
        assert!(overview.contains(d.name), "{} is listed", d.name);
        assert!(print_help(Some(d.name)).is_ok(), "{} has help", d.name);
    }
}

#[test]
fn help_of_one_check_type() {
    let help = print_help(Some("tool-param")).unwrap();
    assert_eq!(
        help,
        "tool-param\n\n  Verify a tool was called with a specific parameter value\n\n  Required fields:\n    - tool\n    - param\n\n  Optional fields:\n    - value\n\n  Example:\n    [[checks]]\n    name = \"check-name\"\n    command = { command = \"tool-param\", tool = \"Read\", param = \"file_path\", value = \"test.txt\" }\n\n  Negative assertion (deny = true inverts the check):\n    [[checks]]\n    name = \"check-name\"\n    command = { command = \"tool-param\", tool = \"Read\", param = \"file_path\", value = \"test.txt\" }\n    deny = true\n"
    );
    let no_optional = print_help(Some("workspace-dir")).unwrap();
    assert!(!no_optional.contains("Optional fields"));
    assert!(print_help(Some("setup")).unwrap().starts_with("Setup\n\n  Setup steps run in the test workspace"));
}

#[test]
fn help_refuses_unknown_types() {
    assert_eq!(
        print_help(Some("skill-not-invoked")).unwrap_err(),
        "Unknown check type: 'skill-not-invoked'\nRun 'skill-bench help' for available types"
    );
    assert!(print_help(Some("")).is_err());
}

fn log(lines: &[&str]) -> Vec<serde_json::Value> {
    let lines: Vec<String> = lines.iter().map(|l| l.to_string()).collect();
    load_log_lines(&lines)
}

fn shown(items: &[TimelineItem]) -> Vec<(String, String, Option<String>)> {
    items.iter().map(|e| (e.event_type.clone(), e.content.clone(), e.details.clone())).collect()
}

#[test]
fn timeline_of_a_session() {
    let entries = log(&[
        r#"{"type":"system","subtype":"init","model":"opus"}"#,
        "garbage",
        r#"{"type":"assistant","message":{"content":[{"type":"text","text":"hi"},{"type":"tool_use","name":"Read","input":{"file_path":"a.txt"}},{"type":"tool_use"}]}}"#,
        r#"{"type":"user","message":{}}"#,
        r#"{"type":"result"}"#,
        r#"{"no_type":true}"#,
    ]);
    assert_eq!(entries.len(), 5);
    let events = timeline_events(&entries);
    let s = |t: &str| t.to_string();
    assert_eq!(
        shown(&events),
        vec![
            (s("system"), s("System: init"), Some(s("Model: opus"))),
            (s("tool_use"), s("Tool: Read"), Some(s("Input: {\"file_path\":\"a.txt\"}"))),
            (s("tool_use"), s("Tool: unknown"), Some(s("Input: null"))),
            (s("assistant"), s("Assistant: response"), Some(s("Thinking/content"))),
            (s("user"), s("User: message"), None),
            (s("result"), s("Event: result"), Some(s("Unknown event type"))),
            (s("unknown"), s("Event: unknown"), Some(s("Unknown event type"))),
        ]
    );
    assert_eq!(event_line(1, &events[0]), "[#1] \u{1f7e6} System: init");
    assert_eq!(event_line(12, &events[1]), "[#12] \u{1f527} Tool: Read");
    assert_eq!(event_icon("assistant"), "\u{1f7e2}");
    assert_eq!(event_icon("user"), "\u{1f464}");
    assert_eq!(event_icon("result"), "\u{26aa}");
    let system_only = timeline_entry_events(&entries[0]);
    assert_eq!(system_only.len(), 1);
    let bare_system = log(&[r#"{"type":"system"}"#]);
    assert_eq!(timeline_entry_events(&bare_system[0])[0].details.as_deref(), Some("Model: unknown"));
}

#[test]
fn decimal_and_trim() {
    assert_eq!(decimal(0), "0");
    assert_eq!(decimal(1234567890), "1234567890");
    assert_eq!(decimal(u64::MAX), u64::MAX.to_string());
    assert_eq!(trim("  \t hello world \n"), "hello world");
    assert_eq!(trim("   "), "");
    for n in [0u64, 7, 42, 1_000_000, i64::MAX as u64] {
        let shown = decimal(n);
        assert!(check_db_query(&DbRead::Value(shown.clone()), &format!("={}", n)).is_ok(), "{} reads back", shown);
    }
}

#[test]
fn documented_commands_are_the_known_ones() {
    let checker = AssertionChecker::new(&Vec::new(), std::path::PathBuf::from("."), None, None);
    let evaluate = |command: &str| {
        let check = CheckStep {
            name: "c".to_string(),
            command: CheckData { command: command.to_string(), ..Default::default() },
            deny: false,
        };
        checker.evaluate_check(&check, &Observation::Nothing).unwrap_err()
    };
    for d in check_docs() {
        assert!(!evaluate(d.name).starts_with("Unknown check command"), "{} is known", d.name);
        assert!(evaluate(d.name).starts_with("Missing "), "{} asks for its fields", d.name);
    }
    for other_name in ["skill-not-invoked", "param", "file-content", "output-contains", "text-contains"] {
        assert!(evaluate(other_name).starts_with("Missing "), "{} is known", other_name);
        assert!(print_help(Some(other_name)).is_err(), "{} has no help of its own", other_name);
    }
    assert_eq!(evaluate("frobnicate"), "Unknown check command: frobnicate");
}

#[test]
fn docs_agree_with_the_checks() {
    let docs = check_docs();
    let checker = AssertionChecker::new(&Vec::new(), std::path::PathBuf::from("."), None, None);
    for (i, d) in docs.iter().enumerate() {
        assert!(docs.iter().skip(i + 1).all(|e| e.name != d.name), "{} is documented once", d.name);
        assert!(!d.required.is_empty());
        assert!(d.required.iter().all(|r| !d.optional.contains(r)));
        assert!(d.example.contains(&format!("command = \"{}\"", d.name)));
        let check = CheckStep {
            name: "c".to_string(),
            command: CheckData { command: d.name.to_string(), ..Default::default() },
            deny: false,
        };
        let err = checker.evaluate_check(&check, &Observation::Nothing).unwrap_err();
        assert!(d.required.iter().any(|r| err == format!("Missing {}", r)), "{}: {}", d.name, err);
    }
}
