use skill_bench::assertions::log::{check_log_contains, check_output_contains, check_text_contains, render_log};
use skill_bench::assertions::mcp::{check_mcp_loaded, check_mcp_success, check_mcp_tool_invoked};
use skill_bench::assertions::skill::{check_skill_invoked, check_skill_loaded};
use skill_bench::assertions::tool::{check_param, check_tool_use};
use skill_bench::assertions::{AssertionChecker, Observation};
use skill_bench::models::CheckData;
use std::path::PathBuf;

fn checker_of(lines: &[&str]) -> AssertionChecker {
    let lines: Vec<String> = lines.iter().map(|l| l.to_string()).collect();
    AssertionChecker::new(&lines, PathBuf::from("."), None, None)
}

// An init message and a short session, in the shape of the agent's stream-json logs.
const INIT: &str = r#"{"type":"system","subtype":"init","model":"sonnet","skills":["patent-kit:claim-analyzing","patent-kit:evaluating","patent-kit:targeting","patent-kit:screening"],"slash_commands":["patent-kit:concept-interviewing"],"mcp_servers":[{"name":"plugin:google-patent-cli:google-patent-cli","status":"connected"},{"name":"plugin:arxiv-cli:arxiv-cli","status":"loaded"},{"name":"broken-server","status":"failed"},{"name":"odd-server","status":"pending"}]}"#;
const SKILL_CALL: &str = r#"{"type":"assistant","message":{"content":[{"type":"tool_use","id":"t1","name":"Skill","input":{"skill":"patent-kit:evaluating"}}]}}"#;
const MCP_CALL: &str = r#"{"type":"assistant","message":{"content":[{"type":"tool_use","id":"m1","name":"mcp__google__search_patents","input":{"query":"battery"}}]}}"#;
const MCP_RESULT_OK: &str = r#"{"type":"user","message":{"content":[{"type":"tool_result","tool_use_id":"m1","is_error":false}]}}"#;
const READ_CALL: &str = r#"{"type":"assistant","message":{"content":[{"type":"tool_use","id":"r1","name":"Read","input":{"file_path":"test.txt","tags":["a","b"]}},{"type":"text","text":"The user asked about batteries"}]}}"#;

fn session() -> AssertionChecker {
    checker_of(&[INIT, "not json", SKILL_CALL, MCP_CALL, MCP_RESULT_OK, READ_CALL])
}

#[test]
fn test_skill_loaded_check() {
    let checker = session();
    let result = check_skill_loaded(&checker, "patent-kit:claim-analyzing");
    assert!(result.is_ok(), "claim-analyzing skill should be loaded");
    let result = check_skill_loaded(&checker, "patent-kit:evaluating");
    assert!(result.is_ok(), "evaluating skill should be loaded");
    let result = check_skill_loaded(&checker, "non-existent-skill");
    assert!(result.is_err(), "non-existent skill should not be found");
}

#[test]
fn test_mcp_loaded_check() {
    let checker = session();
    let result = check_mcp_loaded(&checker, "plugin:google-patent-cli:google-patent-cli");
    assert!(result.is_ok(), "google-patent-cli MCP should be loaded");
    let result = check_mcp_loaded(&checker, "plugin:arxiv-cli:arxiv-cli");
    assert!(result.is_ok(), "arxiv-cli MCP should be loaded");
    let result = check_mcp_loaded(&checker, "non-existent-mcp");
    assert!(result.is_err(), "non-existent MCP should not be found");
}

#[test]
fn test_log_contains_check() {
    let checker = session();
    let result = check_log_contains(checker.log_data(), "system");
    assert!(result.is_ok(), "log should contain 'system'");
    let result = check_log_contains(checker.log_data(), "xyz123abc456def789");
    assert!(result.is_err(), "log should not contain random string");
}

#[test]
fn test_output_contains_check() {
    let checker = session();
    let result = check_output_contains(checker.log_data(), "user");
    assert!(result.is_ok(), "log should contain 'user' in assistant messages");
}

#[test]
fn test_init_message_extraction() {
    let checker = session();
    let init = checker.init_message();
    assert!(init.is_some(), "should have init message");
    let init = init.unwrap();
    assert_eq!(init["type"], "system");
    assert_eq!(init["subtype"], "init");
}

#[test]
fn test_init_message_missing_in_empty_log() {
    let checker = checker_of(&[]);
    let init = checker.init_message();
    assert!(init.is_none(), "empty log should not have init message");
}

#[test]
fn test_nonexistent_log_file() {
    let checker = checker_of(&[]);
    assert_eq!(checker.log_data().len(), 0, "nonexistent log should produce empty data");
}

#[test]
fn test_multiple_skills_loaded() {
    let checker = session();
    for skill in ["patent-kit:claim-analyzing", "patent-kit:evaluating", "patent-kit:targeting", "patent-kit:screening"] {
        let result = check_skill_loaded(&checker, skill);
        assert!(result.is_ok(), "{} skill should be loaded", skill);
    }
}

#[test]
fn test_concept_interviewing_loaded() {
    let checker = session();
    let result = check_skill_loaded(&checker, "patent-kit:concept-interviewing");
    assert!(result.is_ok(), "concept-interviewing skill should be loaded");
}

#[test]
fn test_log_pattern_regex() {
    let checker = session();
    let result = check_log_contains(checker.log_data(), "type");
    assert!(result.is_ok(), "log should contain 'type' pattern");
}

#[test]
fn unparsable_lines_are_dropped() {
    let checker = session();
    assert_eq!(checker.log_data().len(), 5);
}

#[test]
fn skill_loaded_errors() {
    let empty = checker_of(&[]);
    assert_eq!(check_skill_loaded(&empty, "x").unwrap_err(), "No log entries found");
    let no_skills = checker_of(&[r#"{"type":"system"}"#]);
    assert_eq!(check_skill_loaded(&no_skills, "x").unwrap_err(), "No skills array in init message");
    assert_eq!(
        check_skill_loaded(&session(), "nope").unwrap_err(),
        "Skill 'nope' not found in init skills array or slash_commands"
    );
}

#[test]
fn skill_invoked_and_denied() {
    let checker = session();
    assert!(check_skill_invoked(&checker, "evaluating", false).is_ok());
    assert_eq!(check_skill_invoked(&checker, "screening", false).unwrap_err(), "Skill 'screening' was not invoked");
    assert!(check_skill_invoked(&checker, "screening", true).is_ok());
    assert!(check_skill_invoked(&checker, "evaluating", true).is_err());
}

#[test]
fn mcp_statuses() {
    let checker = session();
    assert_eq!(
        check_mcp_loaded(&checker, "broken-server").unwrap_err(),
        "MCP server 'broken-server' failed to load (status: failed)"
    );
    assert_eq!(check_mcp_loaded(&checker, "odd-server").unwrap_err(), "Unknown MCP server status: pending");
    assert_eq!(check_mcp_loaded(&checker, "missing").unwrap_err(), "MCP server 'missing' not found in log");
    let no_servers = checker_of(&[r#"{"type":"system","skills":[]}"#]);
    assert_eq!(check_mcp_loaded(&no_servers, "x").unwrap_err(), "No mcp_servers array in init message");
}

#[test]
fn mcp_tool_invocation_and_success() {
    let checker = session();
    assert!(check_mcp_tool_invoked(&checker, "search_patents").is_ok());
    assert_eq!(check_mcp_tool_invoked(&checker, "Read").unwrap_err(), "MCP tool 'Read' was not invoked");
    assert!(check_mcp_success(&checker, "search_patents", false).is_ok());
    assert_eq!(check_mcp_success(&checker, "other", false).unwrap_err(), "No MCP tool calls found for 'other'");
    assert!(check_mcp_success(&checker, "other", true).is_ok());
    let failing = checker_of(&[
        MCP_CALL,
        r#"{"type":"user","message":{"content":[{"type":"tool_result","tool_use_id":"m1","is_error":true}]}}"#,
    ]);
    assert_eq!(
        check_mcp_success(&failing, "search_patents", false).unwrap_err(),
        "MCP tool 'search_patents' (id: m1) returned an error"
    );
    let no_id = checker_of(&[r#"{"message":{"content":[{"type":"tool_use","name":"mcp__x__y"}]}}"#]);
    assert_eq!(check_mcp_success(&no_id, "y", false).unwrap_err(), "Missing tool_use id");
}

#[test]
fn tool_use_and_params() {
    let checker = session();
    assert!(check_tool_use(&checker, "Read", None, None).is_ok());
    assert!(check_tool_use(&checker, "Rea", None, None).is_ok(), "tool names match partially");
    assert_eq!(check_tool_use(&checker, "Write", None, None).unwrap_err(), "Tool 'Write' was not called");
    assert!(check_tool_use(&checker, "Read", Some("file_path"), Some("^test\\.txt$")).is_ok());
    assert_eq!(
        check_tool_use(&checker, "Read", Some("offset"), None).unwrap_err(),
        "Parameter 'offset' not found in tool 'Read' call"
    );
    assert_eq!(
        check_tool_use(&checker, "Read", Some("file_path"), Some("^other")).unwrap_err(),
        "Parameter 'file_path' in tool 'Read' does not match pattern '^other'"
    );
    assert!(check_tool_use(&checker, "Read", Some("file_path"), Some("(")).unwrap_err().starts_with("Invalid regex '(': "));
    assert!(check_param(&checker, "Read", "file_path", Some("test.txt")).is_ok());
    assert!(check_param(&checker, "Read", "tags", Some("b")).is_ok());
    assert!(check_param(&checker, "Read", "file_path", None).is_ok());
    assert_eq!(
        check_param(&checker, "Read", "file_path", Some("x.txt")).unwrap_err(),
        "Parameter 'file_path' in tool 'Read' does not match expected value 'x.txt'"
    );
}

#[test]
fn output_and_text_contains() {
    let checker = session();
    assert!(check_output_contains(checker.log_data(), "BATTERIES").is_ok(), "case is ignored");
    assert_eq!(
        check_output_contains(checker.log_data(), "absent").unwrap_err(),
        "Output does not contain expected text 'absent'"
    );
    assert!(check_text_contains(checker.log_data(), &["absent", "batteries"]).is_ok());
    assert_eq!(
        check_text_contains(checker.log_data(), &["absent", "gone"]).unwrap_err(),
        "Text does not contain any of the expected patterns: [\"absent\", \"gone\"]"
    );
}

#[test]
fn log_is_rendered_one_entry_per_line() {
    let checker = checker_of(&[r#"{"a": 1}"#, r#"{"b": [true, null]}"#]);
    assert_eq!(render_log(checker.log_data()), "{\"a\":1}\n{\"b\":[true,null]}");
    assert!(check_log_contains(checker.log_data(), "^\\{").is_ok());
    assert!(check_log_contains(checker.log_data(), "(").unwrap_err().starts_with("Invalid regex '(': "));
    assert!(check_log_contains(checker.log_data(), "true,null").is_ok());
    assert_eq!(
        check_log_contains(checker.log_data(), "zzz").unwrap_err(),
        "Log does not contain pattern 'zzz'"
    );
}

fn alias_check(command: &str, data: skill_bench::models::CheckData, deny: bool) -> skill_bench::models::CheckStep {
    skill_bench::models::CheckStep {
        name: "c".to_string(),
        command: skill_bench::models::CheckData { command: command.to_string(), ..data },
        deny,
    }
}

#[test]
fn readme_check_names_are_dispatched() {
    let checker = session();
    let eval = |c: &skill_bench::models::CheckStep| checker.evaluate_check(c, &Observation::Nothing);
    let skill = |s: &str| CheckData { skill: Some(s.to_string()), ..Default::default() };

    let not_invoked = alias_check("skill-not-invoked", skill("screening"), false);
    assert!(eval(&not_invoked).is_ok());
    let invoked = alias_check("skill-not-invoked", skill("evaluating"), false);
    assert_eq!(eval(&invoked).unwrap_err(), "Skill 'evaluating' was invoked but should not have been");
    let denied = alias_check("skill-not-invoked", skill("evaluating"), true);
    assert!(eval(&denied).is_ok(), "deny inverts skill-not-invoked too");
    assert_eq!(
        eval(&alias_check("skill-not-invoked", skill("screening"), true)).unwrap_err(),
        "Skill 'screening' was not invoked"
    );

    let param = CheckData {
        tool: Some("Read".to_string()),
        param: Some("file_path".to_string()),
        value: Some("test.txt".to_string()),
        ..Default::default()
    };
    assert!(eval(&alias_check("param", param.clone(), false)).is_ok());
    let wrong = CheckData { value: Some("x.txt".to_string()), ..param };
    assert_eq!(
        eval(&alias_check("param", wrong, false)).unwrap_err(),
        "Parameter 'file_path' in tool 'Read' does not match expected value 'x.txt'"
    );

    let text = |t: &str| CheckData { text: Some(t.to_string()), ..Default::default() };
    assert!(eval(&alias_check("output-contains", text("BATTERIES"), false)).is_ok());
    assert_eq!(
        eval(&alias_check("output-contains", text("absent"), false)).unwrap_err(),
        "Output does not contain expected text 'absent'"
    );
    assert!(eval(&alias_check("text-contains", text("batteries"), false)).is_ok());
    assert_eq!(
        eval(&alias_check("text-contains", text("absent"), false)).unwrap_err(),
        "Text does not contain any of the expected patterns: [\"absent\"]"
    );
    assert_eq!(eval(&alias_check("text-contains", CheckData::default(), false)).unwrap_err(), "Missing text");
}
