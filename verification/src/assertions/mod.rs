//! Assertion library: structured checks over a session log and a workspace.

pub mod database;
pub mod file;
pub mod log;
pub mod mcp;
pub mod skill;
pub mod tool;

use crate::assertions::database::{check_db_query, db_file_of, db_filename, db_query_outcome, DbRead};
use crate::assertions::file::{
    check_file_content, check_workspace_dir, check_workspace_file, file_content_outcome,
    opt_view, workspace_dir_outcome, workspace_file_outcome, EntryKind, FileRead,
};
use crate::assertions::log::{
    check_log_contains, check_output_contains, check_text_contains, log_contains_outcome, output_contains_outcome,
    text_contains_outcome,
};
use crate::assertions::mcp::{
    check_mcp_loaded, check_mcp_success, check_mcp_tool_invoked, mcp_loaded_outcome,
    mcp_success_outcome, mcp_tool_invoked_outcome,
};
use crate::assertions::skill::{
    check_skill_invoked, check_skill_loaded, skill_invoked_outcome, skill_loaded_outcome,
};
use crate::assertions::tool::{check_param, check_tool_use, param_outcome, tool_use_outcome};
use crate::json::{json_model, json_parse, models, parse_json, JsonData};
use crate::models::check::{CheckData, CheckStep};
use crate::text::{cat2, owned, str_eq};
use vstd::prelude::*;

verus! {

/// A check's result as mathematical data: success, or the error's text.
pub open spec fn outcome(r: Result<(), String>) -> Result<(), Seq<char>> {
    match r {
        Ok(()) => Ok(()),
        Err(e) => Err(e@),
    }
}

/// The entries of a log: one per line that holds one JSON value, in order.
pub open spec fn parsed_entries(lines: Seq<Seq<char>>) -> Seq<JsonData>
    decreases lines.len(),
{
    if lines.len() == 0 {
        Seq::empty()
    } else {
        let rest = parsed_entries(lines.drop_last());
        match json_parse(lines.last()) {
            Some(v) => rest.push(v),
            None => rest,
        }
    }
}

/// The text of each line.
pub open spec fn line_views(lines: Seq<String>) -> Seq<Seq<char>> {
    lines.map_values(|l: String| l@)
}

/// Parses the lines of a JSONL log, keeping the lines that hold one JSON value.
pub fn load_log_lines(lines: &Vec<String>) -> (r: Vec<serde_json::Value>)
    ensures
        models(r@) == parsed_entries(line_views(lines@)),
{
    let mut entries: Vec<serde_json::Value> = Vec::new();
    let mut i: usize = 0;
    while i < lines.len()
        invariant
            i <= lines@.len(),
            models(entries@) == parsed_entries(line_views(lines@).take(i as int)),
        decreases lines@.len() - i,
    {
        assert(line_views(lines@).take(i + 1).drop_last() =~= line_views(lines@).take(i as int));
        let ghost before = entries@;
        match parse_json(lines[i].as_str()) {
            Some(v) => {
                entries.push(v);
                assert(models(entries@) =~= models(before).push(json_model(v)));
            },
            None => {},
        }
        i = i + 1;
    }
    assert(line_views(lines@).take(i as int) =~= line_views(lines@));
    entries
}

/// Assertion checker that validates test results.
pub struct AssertionChecker {
    log_data: Vec<serde_json::Value>,
    work_dir: std::path::PathBuf,
    log_output_dir: Option<std::path::PathBuf>,
    test_subdir: Option<String>,
}

impl AssertionChecker {
    /// The log's entries as mathematical data.
    pub closed spec fn log(&self) -> Seq<JsonData> {
        models(self.log_data@)
    }

    /// The directory where copied workspace files go, if any.
    pub closed spec fn output_dir(&self) -> Option<std::path::PathBuf> {
        self.log_output_dir
    }

    /// The subdirectory of the output directory for this test, if any.
    pub closed spec fn subdir(&self) -> Option<String> {
        self.test_subdir
    }

    /// The workspace directory.
    pub closed spec fn workspace(&self) -> std::path::PathBuf {
        self.work_dir
    }

    /// A checker over the lines of a session log (empty where the log could
    /// not be read) and a workspace.
    pub fn new(
        log_lines: &Vec<String>,
        work_dir: std::path::PathBuf,
        log_output_dir: Option<std::path::PathBuf>,
        test_subdir: Option<String>,
    ) -> (r: Self)
        ensures
            r.log() == parsed_entries(line_views(log_lines@)),
            r.workspace() == work_dir,
            r.output_dir() == log_output_dir,
            r.subdir() == test_subdir,
    {
        let log_data = load_log_lines(log_lines);
        AssertionChecker { log_data, work_dir, log_output_dir, test_subdir }
    }

    /// The log's entries.
    pub fn log_data(&self) -> (r: &Vec<serde_json::Value>)
        ensures
            models(r@) == self.log(),
    {
        &self.log_data
    }

    /// The workspace directory.
    pub fn work_dir(&self) -> (r: &std::path::PathBuf)
        ensures
            *r == self.workspace(),
    {
        &self.work_dir
    }

    /// The directory where copied workspace files go, if any.
    pub fn log_output_dir(&self) -> (r: &Option<std::path::PathBuf>)
        ensures
            *r == self.output_dir(),
    {
        &self.log_output_dir
    }

    /// The subdirectory of the output directory for this test, if any.
    pub fn test_subdir(&self) -> (r: &Option<String>)
        ensures
            *r == self.subdir(),
    {
        &self.test_subdir
    }

    /// The init message: the first log entry.
    pub fn init_message(&self) -> (r: Option<&serde_json::Value>)
        ensures
            r is Some <==> self.log().len() > 0,
            r matches Some(v) ==> json_model(*v) == self.log()[0],
    {
        if self.log_data.len() == 0 {
            None
        } else {
            Some(&self.log_data[0])
        }
    }
}


/// What must be observed outside before a check can be decided.
pub enum Probe {
    /// Nothing: the check reads the log alone, or lacks a field.
    Nothing,
    /// What the workspace path names.
    Entry { path: String },
    /// What the workspace path names and, where it names a file, a copy of
    /// the file to `dest`, a path relative to the checker's output
    /// directory, its parent directories created.
    EntryAndCopy { path: String, dest: String },
    /// The text of a workspace file.
    Read { file: String },
    /// The first column of the first row of a query on a workspace database.
    Query { db_file: String, query: String },
}

/// Where a copied workspace file goes, relative to the output directory:
/// `<subdir>/<path>`, or `<path>` where there is no subdirectory.
pub open spec fn copy_target(subdir: Option<String>, path: Seq<char>) -> Seq<char> {
    match subdir {
        Some(s) => s@ + "/"@ + path,
        None => path,
    }
}

/// What was observed for a `Probe`.
pub enum Observation {
    Nothing,
    Entry(EntryKind),
    Copied { kind: EntryKind, copy_error: Option<String> },
    Read(FileRead),
    Query(DbRead),
}

/// What an observation says the probed path names (missing for any other observation).
pub open spec fn observed_kind(obs: Observation) -> EntryKind {
    match obs {
        Observation::Entry(k) => k,
        Observation::Copied { kind, .. } => kind,
        _ => EntryKind::Missing,
    }
}

/// The copy error that an observation reports.
pub open spec fn observed_copy_error(obs: Observation) -> Option<Seq<char>> {
    match obs {
        Observation::Copied { copy_error, .. } => opt_view(copy_error),
        _ => None,
    }
}

/// What an observation says reading the file gave (missing for any other observation).
pub open spec fn observed_read(obs: Observation) -> FileRead {
    match obs {
        Observation::Read(r) => r,
        _ => FileRead::Missing,
    }
}

/// What an observation says the query gave (missing for any other observation).
pub open spec fn observed_query(obs: Observation) -> DbRead {
    match obs {
        Observation::Query(d) => d,
        _ => DbRead::Missing,
    }
}

/// The command of a check, as text.
pub open spec fn command_of(check: CheckStep) -> Seq<char> {
    check.command.command@
}

/// The checks that decide `deny` themselves rather than by inverting their result.
pub open spec fn handles_deny(cmd: Seq<char>) -> bool {
    cmd == "skill-invoked"@ || cmd == "file-contains"@ || cmd == "skill-not-invoked"@ || cmd == "file-content"@
}

/// The other names of checks: `skill-not-invoked` (a skill was not
/// invoked), `param` (as `tool-param`), `file-content` (as
/// `file-contains`), `output-contains` (as `message-contains`) and
/// `text-contains` (the assistant's text contains the text).
pub open spec fn command_alias(cmd: Seq<char>) -> bool {
    ||| cmd == "skill-not-invoked"@
    ||| cmd == "param"@
    ||| cmd == "file-content"@
    ||| cmd == "output-contains"@
    ||| cmd == "text-contains"@
}

/// The error for a field that the check's command needs but lacks, in the
/// order in which the fields are looked up.
pub open spec fn missing_field(data: CheckData) -> Option<Seq<char>> {
    let cmd = data.command@;
    if cmd == "workspace-file"@ || cmd == "workspace-dir"@ {
        if data.path is None { Some("Missing path"@) } else { None }
    } else if cmd == "file-contains"@ {
        if data.file is None {
            Some("Missing file"@)
        } else if data.contains is None {
            Some("Missing contains"@)
        } else {
            None
        }
    } else if cmd == "log-contains"@ {
        if data.pattern is None { Some("Missing pattern"@) } else { None }
    } else if cmd == "message-contains"@ {
        if data.text is None { Some("Missing text"@) } else { None }
    } else if cmd == "skill-loaded"@ || cmd == "skill-invoked"@ {
        if data.skill is None { Some("Missing skill"@) } else { None }
    } else if cmd == "mcp-loaded"@ {
        if data.server is None { Some("Missing server"@) } else { None }
    } else if cmd == "mcp-tool-invoked"@ || cmd == "mcp-success"@ || cmd == "tool-use"@ {
        if data.tool is None { Some("Missing tool"@) } else { None }
    } else if cmd == "tool-param"@ {
        if data.tool is None {
            Some("Missing tool"@)
        } else if data.param is None {
            Some("Missing param"@)
        } else {
            None
        }
    } else if cmd == "db-query"@ {
        if data.expected is None {
            Some("Missing expected"@)
        } else if data.query is None {
            Some("Missing query"@)
        } else {
            None
        }
    } else if cmd == "skill-not-invoked"@ {
        if data.skill is None { Some("Missing skill"@) } else { None }
    } else if cmd == "param"@ {
        if data.tool is None {
            Some("Missing tool"@)
        } else if data.param is None {
            Some("Missing param"@)
        } else {
            None
        }
    } else if cmd == "file-content"@ {
        if data.file is None {
            Some("Missing file"@)
        } else if data.contains is None {
            Some("Missing contains"@)
        } else {
            None
        }
    } else if cmd == "output-contains"@ || cmd == "text-contains"@ {
        if data.text is None { Some("Missing text"@) } else { None }
    } else {
        None
    }
}

/// The text of a field that is present.
pub open spec fn field(s: Option<String>) -> Seq<char> {
    match s {
        Some(t) => t@,
        None => Seq::empty(),
    }
}

/// A check's own result, before `deny` inverts it; the check's fields are present.
pub open spec fn raw_outcome(
    log: Seq<JsonData>,
    data: CheckData,
    obs: Observation,
    deny: bool,
) -> Result<(), Seq<char>> {
    let cmd = data.command@;
    if cmd == "workspace-file"@ {
        workspace_file_outcome(field(data.path), observed_kind(obs), observed_copy_error(obs))
    } else if cmd == "workspace-dir"@ {
        workspace_dir_outcome(seq![field(data.path)], seq![observed_kind(obs)])
    } else if cmd == "file-contains"@ {
        file_content_outcome(field(data.file), observed_read(obs), field(data.contains), !deny)
    } else if cmd == "log-contains"@ {
        log_contains_outcome(log, field(data.pattern))
    } else if cmd == "message-contains"@ {
        output_contains_outcome(log, field(data.text))
    } else if cmd == "skill-loaded"@ {
        skill_loaded_outcome(log, field(data.skill))
    } else if cmd == "skill-invoked"@ {
        skill_invoked_outcome(log, field(data.skill), deny)
    } else if cmd == "mcp-loaded"@ {
        mcp_loaded_outcome(log, field(data.server))
    } else if cmd == "mcp-tool-invoked"@ {
        mcp_tool_invoked_outcome(log, field(data.tool))
    } else if cmd == "mcp-success"@ {
        mcp_success_outcome(log, field(data.tool), false)
    } else if cmd == "tool-use"@ {
        tool_use_outcome(log, field(data.tool), None, None)
    } else if cmd == "tool-param"@ {
        param_outcome(log, field(data.tool), field(data.param), opt_view(data.value))
    } else if cmd == "db-query"@ {
        db_query_outcome(observed_query(obs), field(data.expected))
    } else if cmd == "skill-not-invoked"@ {
        skill_invoked_outcome(log, field(data.skill), !deny)
    } else if cmd == "param"@ {
        param_outcome(log, field(data.tool), field(data.param), opt_view(data.value))
    } else if cmd == "file-content"@ {
        file_content_outcome(field(data.file), observed_read(obs), field(data.contains), !deny)
    } else if cmd == "output-contains"@ {
        output_contains_outcome(log, field(data.text))
    } else if cmd == "text-contains"@ {
        text_contains_outcome(log, seq![field(data.text)])
    } else {
        Err("Unknown check command: "@ + cmd)
    }
}

/// What `evaluate_check` answers: a missing field fails the check; else the
/// check's own result, inverted under `deny` for the checks that do not
/// decide `deny` themselves.
pub open spec fn check_outcome(log: Seq<JsonData>, check: CheckStep, obs: Observation, deny: bool) -> Result<
    (),
    Seq<char>,
> {
    match missing_field(check.command) {
        Some(m) => Err(m),
        None => {
            let raw = raw_outcome(log, check.command, obs, deny);
            if deny && !handles_deny(command_of(check)) {
                if raw is Ok {
                    Err("Check passed but was marked as deny"@)
                } else {
                    Ok(())
                }
            } else {
                raw
            }
        },
    }
}

/// The text of an optional string; empty where there is none.
fn field_text(s: &Option<String>) -> (r: &str)
    ensures
        r@ == field(*s),
{
    match s {
        Some(t) => t.as_str(),
        None => {
            proof {
                reveal_strlit("");
                assert(""@ =~= Seq::<char>::empty());
            }
            ""
        },
    }
}

/// The text of a present optional string.
fn field_str(s: &Option<String>) -> (r: &str)
    requires
        s is Some,
    ensures
        r@ == field(*s),
{
    match s {
        Some(t) => t.as_str(),
        None => "",
    }
}

impl AssertionChecker {
    /// The probe that a check needs: nothing where a field is missing or the
    /// check reads the log alone; what a workspace path names (and, for a
    /// `workspace-file` check that asks for it while there is an output
    /// directory, a copy of the file); the text of a file; or a query on a
    /// database.
    pub open spec fn probe_fits(&self, check: CheckStep, r: Probe) -> bool {
        &&& r is Nothing <==> (missing_field(check.command) is Some || !(command_of(check)
            == "workspace-file"@ || command_of(check) == "workspace-dir"@ || command_of(check)
            == "file-contains"@ || command_of(check) == "db-query"@ || command_of(check)
            == "file-content"@))
        &&& r matches Probe::Entry { path } ==> path@ == field(check.command.path) && (command_of(
            check,
        ) == "workspace-dir"@ || !(check.command.copy_to_output == Some(true)
            && self.output_dir() is Some))
        &&& r matches Probe::EntryAndCopy { path, dest } ==> path@ == field(check.command.path)
            && dest@ == copy_target(self.subdir(), path@) && command_of(check) == "workspace-file"@
            && check.command.copy_to_output == Some(true) && self.output_dir() is Some
        &&& r matches Probe::Read { file } ==> file@ == field(check.command.file) && (command_of(check)
            == "file-contains"@ || command_of(check) == "file-content"@)
        &&& r matches Probe::Query { db_file, query } ==> db_file@ == db_file_of(
            field(check.command.db),
        ) && query@ == field(check.command.query) && command_of(check) == "db-query"@
    }

    /// What must be observed outside (the workspace, a database) before the
    /// check can be decided.
    pub fn probe_for(&self, check: &CheckStep) -> (r: Probe)
        ensures
            self.probe_fits(*check, r),
    {
        let data = &check.command;
        if Self::missing_field_exec(data).is_some() {
            return Probe::Nothing;
        }
        let cmd = data.command.as_str();
        if str_eq(cmd, "workspace-file") {
            let copy = match data.copy_to_output {
                Some(c) => c,
                None => false,
            };
            if copy && self.log_output_dir.is_some() {
                let path = field_str(&data.path);
                let dest = match &self.test_subdir {
                    Some(sub) => crate::text::cat3(sub.as_str(), "/", path),
                    None => owned(path),
                };
                Probe::EntryAndCopy { path: path.to_string(), dest }
            } else {
                Probe::Entry { path: field_str(&data.path).to_string() }
            }
        } else if str_eq(cmd, "workspace-dir") {
            Probe::Entry { path: field_str(&data.path).to_string() }
        } else if str_eq(cmd, "file-contains") {
            Probe::Read { file: field_str(&data.file).to_string() }
        } else if str_eq(cmd, "db-query") {
            let db = match &data.db {
                Some(d) => d.as_str(),
                None => "",
            };
            proof {
                reveal_strlit("");
                assert(""@ =~= Seq::<char>::empty());
                reveal_strlit("db-query");
                reveal_strlit("log-contains");
                reveal_strlit("message-contains");
                reveal_strlit("skill-loaded");
                reveal_strlit("skill-invoked");
                reveal_strlit("mcp-loaded");
                reveal_strlit("mcp-tool-invoked");
                reveal_strlit("mcp-success");
                reveal_strlit("tool-use");
                reveal_strlit("tool-param");
                assert(data.command@ == "db-query"@);
                assert("db-query"@[0] != "tool-use"@[0]);
                assert("db-query"@ != "tool-use"@);
                assert(missing_field(*data) is None);
                assert(data.query is Some);
            }
            Probe::Query { db_file: owned(db_filename(db)), query: field_str(&data.query).to_string() }
        } else if str_eq(cmd, "file-content") {
            Probe::Read { file: field_text(&data.file).to_string() }
        } else {
            Probe::Nothing
        }
    }

    /// The error for a missing field of the check, if any.
    fn missing_field_exec(data: &CheckData) -> (r: Option<&'static str>)
        ensures
            match r {
                Some(m) => missing_field(*data) == Some(m@),
                None => missing_field(*data) is None,
            },
    {
        let cmd = data.command.as_str();
        if str_eq(cmd, "workspace-file") || str_eq(cmd, "workspace-dir") {
            if data.path.is_none() { Some("Missing path") } else { None }
        } else if str_eq(cmd, "file-contains") {
            if data.file.is_none() {
                Some("Missing file")
            } else if data.contains.is_none() {
                Some("Missing contains")
            } else {
                None
            }
        } else if str_eq(cmd, "log-contains") {
            if data.pattern.is_none() { Some("Missing pattern") } else { None }
        } else if str_eq(cmd, "message-contains") {
            if data.text.is_none() { Some("Missing text") } else { None }
        } else if str_eq(cmd, "skill-loaded") || str_eq(cmd, "skill-invoked") {
            if data.skill.is_none() { Some("Missing skill") } else { None }
        } else if str_eq(cmd, "mcp-loaded") {
            if data.server.is_none() { Some("Missing server") } else { None }
        } else if str_eq(cmd, "mcp-tool-invoked") || str_eq(cmd, "mcp-success") || str_eq(cmd, "tool-use") {
            if data.tool.is_none() { Some("Missing tool") } else { None }
        } else if str_eq(cmd, "tool-param") {
            if data.tool.is_none() {
                Some("Missing tool")
            } else if data.param.is_none() {
                Some("Missing param")
            } else {
                None
            }
        } else if str_eq(cmd, "db-query") {
            if data.expected.is_none() {
                Some("Missing expected")
            } else if data.query.is_none() {
                Some("Missing query")
            } else {
                None
            }
        } else if str_eq(cmd, "skill-not-invoked") {
            if data.skill.is_none() { Some("Missing skill") } else { None }
        } else if str_eq(cmd, "param") {
            if data.tool.is_none() {
                Some("Missing tool")
            } else if data.param.is_none() {
                Some("Missing param")
            } else {
                None
            }
        } else if str_eq(cmd, "file-content") {
            if data.file.is_none() {
                Some("Missing file")
            } else if data.contains.is_none() {
                Some("Missing contains")
            } else {
                None
            }
        } else if str_eq(cmd, "output-contains") || str_eq(cmd, "text-contains") {
            if data.text.is_none() { Some("Missing text") } else { None }
        } else {
            None
        }
    }

    /// The check's own result, before `deny` inverts it.
    fn raw_check(&self, data: &CheckData, obs: &Observation, deny: bool) -> (r: Result<(), String>)
        requires
            missing_field(*data) is None,
        ensures
            outcome(r) == raw_outcome(self.log(), *data, *obs, deny),
    {
        let cmd = data.command.as_str();
        if str_eq(cmd, "workspace-file") {
            let (kind, copy_error) = match obs {
                Observation::Entry(k) => (*k, None),
                Observation::Copied { kind, copy_error } => (*kind, copy_error.clone()),
                _ => (EntryKind::Missing, None),
            };
            check_workspace_file(field_str(&data.path), kind, copy_error)
        } else if str_eq(cmd, "workspace-dir") {
            let kind = match obs {
                Observation::Entry(k) => *k,
                Observation::Copied { kind, .. } => *kind,
                _ => EntryKind::Missing,
            };
            let paths: [&str; 1] = [field_str(&data.path)];
            let kinds: [EntryKind; 1] = [kind];
            let r = check_workspace_dir(&paths, &kinds);
            assert(crate::assertions::file::path_views(paths@) =~= seq![field(data.path)]);
            assert(kinds@ =~= seq![kind]);
            r
        } else if str_eq(cmd, "file-contains") {
            let missing = FileRead::Missing;
            let read = match obs {
                Observation::Read(r) => r,
                _ => &missing,
            };
            check_file_content(field_str(&data.file), read, field_str(&data.contains), !deny)
        } else if str_eq(cmd, "log-contains") {
            check_log_contains(&self.log_data, field_str(&data.pattern))
        } else if str_eq(cmd, "message-contains") {
            check_output_contains(&self.log_data, field_str(&data.text))
        } else if str_eq(cmd, "skill-loaded") {
            check_skill_loaded(self, field_str(&data.skill))
        } else if str_eq(cmd, "skill-invoked") {
            check_skill_invoked(self, field_str(&data.skill), deny)
        } else if str_eq(cmd, "mcp-loaded") {
            check_mcp_loaded(self, field_str(&data.server))
        } else if str_eq(cmd, "mcp-tool-invoked") {
            check_mcp_tool_invoked(self, field_str(&data.tool))
        } else if str_eq(cmd, "mcp-success") {
            check_mcp_success(self, field_str(&data.tool), false)
        } else if str_eq(cmd, "tool-use") {
            check_tool_use(self, field_str(&data.tool), None, None)
        } else if str_eq(cmd, "tool-param") {
            let value = match &data.value {
                Some(v) => Some(v.as_str()),
                None => None,
            };
            check_param(self, field_str(&data.tool), field_str(&data.param), value)
        } else if str_eq(cmd, "db-query") {
            let missing = DbRead::Missing;
            let read = match obs {
                Observation::Query(d) => d,
                _ => &missing,
            };
            check_db_query(read, field_str(&data.expected))
        } else if str_eq(cmd, "skill-not-invoked") {
            check_skill_invoked(self, field_text(&data.skill), !deny)
        } else if str_eq(cmd, "param") {
            let value = match &data.value {
                Some(v) => Some(v.as_str()),
                None => None,
            };
            check_param(self, field_text(&data.tool), field_text(&data.param), value)
        } else if str_eq(cmd, "file-content") {
            let missing = FileRead::Missing;
            let read = match obs {
                Observation::Read(r) => r,
                _ => &missing,
            };
            check_file_content(field_text(&data.file), read, field_text(&data.contains), !deny)
        } else if str_eq(cmd, "output-contains") {
            check_output_contains(&self.log_data, field_text(&data.text))
        } else if str_eq(cmd, "text-contains") {
            let texts: [&str; 1] = [field_text(&data.text)];
            let r = check_text_contains(&self.log_data, &texts);
            assert(crate::assertions::log::str_views(texts@) =~= seq![field(data.text)]);
            r
        } else {
            Err(cat2("Unknown check command: ", cmd))
        }
    }

    /// Evaluate a check step, given what was observed for its `probe_for`.
    pub fn evaluate_check(&self, check: &CheckStep, obs: &Observation) -> (r: Result<(), String>)
        ensures
            outcome(r) == check_outcome(self.log(), *check, *obs, check.denied()),
    {
        let should_deny = check.deny || match check.command.deny {
            Some(d) => d,
            None => false,
        };
        match Self::missing_field_exec(&check.command) {
            Some(m) => {
                return Err(owned(m));
            },
            None => {},
        }
        let result = self.raw_check(&check.command, obs, should_deny);
        let cmd = check.command.command.as_str();
        let handles = str_eq(cmd, "skill-invoked") || str_eq(cmd, "file-contains") || str_eq(cmd, "skill-not-invoked")
            || str_eq(cmd, "file-content");
        if should_deny && !handles {
            match result {
                Ok(_) => Err(owned("Check passed but was marked as deny")),
                Err(_) => Ok(()),
            }
        } else {
            result
        }
    }
}


/// Marking a check `deny` inverts whether it passes, whenever the check has
/// the fields that its command needs and, for `file-contains` and
/// `file-content`, the file could be read.
pub proof fn lemma_deny_inverts(log: Seq<JsonData>, check: CheckStep, obs: Observation)
    requires
        missing_field(check.command) is None,
        (command_of(check) == "file-contains"@ || command_of(check) == "file-content"@) ==> observed_read(
            obs,
        ) is Text,
    ensures
        (check_outcome(log, check, obs, true) is Ok) == !(check_outcome(log, check, obs, false) is Ok),
{
    let cmd = command_of(check);
    if !handles_deny(cmd) {
        assert(raw_outcome(log, check.command, obs, true) == raw_outcome(log, check.command, obs, false));
    } else {
        lemma_check_words_differ();
        let data = check.command;
        if cmd == "skill-invoked"@ || cmd == "skill-not-invoked"@ {
            let sk = field(data.skill);
            let d = cmd == "skill-not-invoked"@;
            assert(raw_outcome(log, data, obs, true) == skill_invoked_outcome(log, sk, d != true));
            assert(raw_outcome(log, data, obs, false) == skill_invoked_outcome(log, sk, d != false));
        } else {
            let f = field(data.file);
            let c = field(data.contains);
            assert(raw_outcome(log, data, obs, true) == file_content_outcome(f, observed_read(obs), c, false));
            assert(raw_outcome(log, data, obs, false) == file_content_outcome(f, observed_read(obs), c, true));
        }
    }
}

/// The words of checks, command names and field names: their lengths, and
/// that those of equal length differ. Together, any two of them differ.
pub proof fn lemma_check_words_differ()
    ensures
        "workspace-file"@.len() == 14,
        "workspace-dir"@.len() == 13,
        "file-contains"@.len() == 13,
        "log-contains"@.len() == 12,
        "message-contains"@.len() == 16,
        "skill-loaded"@.len() == 12,
        "skill-invoked"@.len() == 13,
        "mcp-loaded"@.len() == 10,
        "mcp-tool-invoked"@.len() == 16,
        "mcp-success"@.len() == 11,
        "tool-use"@.len() == 8,
        "tool-param"@.len() == 10,
        "db-query"@.len() == 8,
        "skill-not-invoked"@.len() == 17,
        "param"@.len() == 5,
        "file-content"@.len() == 12,
        "output-contains"@.len() == 15,
        "text-contains"@.len() == 13,
        "skill"@.len() == 5,
        "tool"@.len() == 4,
        "path"@.len() == 4,
        "file"@.len() == 4,
        "contains"@.len() == 8,
        "pattern"@.len() == 7,
        "text"@.len() == 4,
        "server"@.len() == 6,
        "value"@.len() == 5,
        "db"@.len() == 2,
        "expected"@.len() == 8,
        "query"@.len() == 5,
        "workspace-dir"@ != "file-contains"@,
        "workspace-dir"@ != "skill-invoked"@,
        "workspace-dir"@ != "text-contains"@,
        "file-contains"@ != "skill-invoked"@,
        "file-contains"@ != "text-contains"@,
        "log-contains"@ != "skill-loaded"@,
        "log-contains"@ != "file-content"@,
        "message-contains"@ != "mcp-tool-invoked"@,
        "skill-loaded"@ != "file-content"@,
        "skill-invoked"@ != "text-contains"@,
        "mcp-loaded"@ != "tool-param"@,
        "tool-use"@ != "db-query"@,
        "tool-use"@ != "contains"@,
        "tool-use"@ != "expected"@,
        "db-query"@ != "contains"@,
        "db-query"@ != "expected"@,
        "param"@ != "skill"@,
        "param"@ != "value"@,
        "param"@ != "query"@,
        "skill"@ != "value"@,
        "skill"@ != "query"@,
        "tool"@ != "path"@,
        "tool"@ != "file"@,
        "tool"@ != "text"@,
        "path"@ != "file"@,
        "path"@ != "text"@,
        "file"@ != "text"@,
        "contains"@ != "expected"@,
        "value"@ != "query"@,
{
    reveal_strlit("workspace-file");
    reveal_strlit("workspace-dir");
    reveal_strlit("file-contains");
    reveal_strlit("log-contains");
    reveal_strlit("message-contains");
    reveal_strlit("skill-loaded");
    reveal_strlit("skill-invoked");
    reveal_strlit("mcp-loaded");
    reveal_strlit("mcp-tool-invoked");
    reveal_strlit("mcp-success");
    reveal_strlit("tool-use");
    reveal_strlit("tool-param");
    reveal_strlit("db-query");
    reveal_strlit("skill-not-invoked");
    reveal_strlit("param");
    reveal_strlit("file-content");
    reveal_strlit("output-contains");
    reveal_strlit("text-contains");
    reveal_strlit("skill");
    reveal_strlit("tool");
    reveal_strlit("path");
    reveal_strlit("file");
    reveal_strlit("contains");
    reveal_strlit("pattern");
    reveal_strlit("text");
    reveal_strlit("server");
    reveal_strlit("value");
    reveal_strlit("db");
    reveal_strlit("expected");
    reveal_strlit("query");
    assert("workspace-dir"@[0] != "file-contains"@[0]);
    assert("workspace-dir"@[0] != "skill-invoked"@[0]);
    assert("workspace-dir"@[0] != "text-contains"@[0]);
    assert("file-contains"@[0] != "skill-invoked"@[0]);
    assert("file-contains"@[0] != "text-contains"@[0]);
    assert("log-contains"@[0] != "skill-loaded"@[0]);
    assert("log-contains"@[0] != "file-content"@[0]);
    assert("message-contains"@[1] != "mcp-tool-invoked"@[1]);
    assert("skill-loaded"@[0] != "file-content"@[0]);
    assert("skill-invoked"@[0] != "text-contains"@[0]);
    assert("mcp-loaded"@[0] != "tool-param"@[0]);
    assert("tool-use"@[0] != "db-query"@[0]);
    assert("tool-use"@[0] != "contains"@[0]);
    assert("tool-use"@[0] != "expected"@[0]);
    assert("db-query"@[0] != "contains"@[0]);
    assert("db-query"@[0] != "expected"@[0]);
    assert("param"@[0] != "skill"@[0]);
    assert("param"@[0] != "value"@[0]);
    assert("param"@[0] != "query"@[0]);
    assert("skill"@[0] != "value"@[0]);
    assert("skill"@[0] != "query"@[0]);
    assert("tool"@[0] != "path"@[0]);
    assert("tool"@[0] != "file"@[0]);
    assert("tool"@[1] != "text"@[1]);
    assert("path"@[0] != "file"@[0]);
    assert("path"@[0] != "text"@[0]);
    assert("file"@[0] != "text"@[0]);
    assert("contains"@[0] != "expected"@[0]);
    assert("value"@[0] != "query"@[0]);
}

/// The commands that `evaluate_check` knows.
pub open spec fn known_command(cmd: Seq<char>) -> bool {
    ||| cmd == "workspace-file"@
    ||| cmd == "workspace-dir"@
    ||| cmd == "file-contains"@
    ||| cmd == "log-contains"@
    ||| cmd == "message-contains"@
    ||| cmd == "skill-loaded"@
    ||| cmd == "skill-invoked"@
    ||| cmd == "mcp-loaded"@
    ||| cmd == "mcp-tool-invoked"@
    ||| cmd == "mcp-success"@
    ||| cmd == "tool-use"@
    ||| cmd == "tool-param"@
    ||| cmd == "db-query"@
    ||| command_alias(cmd)
}

/// A check with a command that `evaluate_check` does not know fails with
/// the unknown-command error, unless `deny` inverts it.
pub proof fn lemma_unknown_command(log: Seq<JsonData>, check: CheckStep, obs: Observation, deny: bool)
    requires
        !known_command(command_of(check)),
    ensures
        missing_field(check.command) is None,
        check_outcome(log, check, obs, deny) == if deny {
            Ok::<(), Seq<char>>(())
        } else {
            Err::<(), Seq<char>>("Unknown check command: "@ + command_of(check))
        },
{
}

}
