//! Reference documentation for check types and setup steps.

use crate::assertions::missing_field;
use crate::models::check::CheckData;
use crate::text::{chars_of, has_substring, occurs_at, owned, str_eq};
use vstd::prelude::*;

verus! {

/// The documentation of one check type.
pub struct CheckDoc {
    pub name: &'static str,
    pub description: &'static str,
    pub required: Vec<&'static str>,
    pub optional: Vec<&'static str>,
    pub example: &'static str,
}

#[verifier::ext_equal]
/// A check type's documentation as mathematical text: name, description,
/// required fields, optional fields, example.
pub struct DocText {
    pub name: Seq<char>,
    pub description: Seq<char>,
    pub required: Seq<Seq<char>>,
    pub optional: Seq<Seq<char>>,
    pub example: Seq<char>,
}

/// The text of each string slice.
pub open spec fn strs(v: Seq<&'static str>) -> Seq<Seq<char>> {
    v.map_values(|s: &'static str| s@)
}

/// A documentation entry as mathematical text.
pub open spec fn doc_text(d: CheckDoc) -> DocText {
    DocText {
        name: d.name@,
        description: d.description@,
        required: strs(d.required@),
        optional: strs(d.optional@),
        example: d.example@,
    }
}

/// The documentation of every check type, in the order in which help lists it.
pub open spec fn doc_table() -> Seq<DocText> {
    seq![
        DocText { name: "skill-loaded"@, description: "Verify a skill was loaded during initialization"@, required: seq!["skill"@], optional: seq![], example: "command = { command = \"skill-loaded\", skill = \"my-skill\" }"@ },
        DocText { name: "skill-invoked"@, description: "Verify a skill was invoked during execution"@, required: seq!["skill"@], optional: seq![], example: "command = { command = \"skill-invoked\", skill = \"my-skill\" }"@ },
        DocText { name: "mcp-loaded"@, description: "Verify an MCP server was loaded"@, required: seq!["server"@], optional: seq![], example: "command = { command = \"mcp-loaded\", server = \"filesystem\" }"@ },
        DocText { name: "mcp-tool-invoked"@, description: "Verify an MCP tool was invoked"@, required: seq!["tool"@], optional: seq![], example: "command = { command = \"mcp-tool-invoked\", tool = \"read_file\" }"@ },
        DocText { name: "mcp-success"@, description: "Verify MCP tool calls succeeded (no errors)"@, required: seq!["tool"@], optional: seq![], example: "command = { command = \"mcp-success\", tool = \"read_file\" }"@ },
        DocText { name: "tool-use"@, description: "Verify a tool was called (partial match on tool name)"@, required: seq!["tool"@], optional: seq![], example: "command = { command = \"tool-use\", tool = \"Read\" }"@ },
        DocText { name: "tool-param"@, description: "Verify a tool was called with a specific parameter value"@, required: seq!["tool"@, "param"@], optional: seq!["value"@], example: "command = { command = \"tool-param\", tool = \"Read\", param = \"file_path\", value = \"test.txt\" }"@ },
        DocText { name: "workspace-file"@, description: "Verify a file exists in the workspace"@, required: seq!["path"@], optional: seq![], example: "command = { command = \"workspace-file\", path = \"output.txt\" }"@ },
        DocText { name: "workspace-dir"@, description: "Verify a directory exists in the workspace"@, required: seq!["path"@], optional: seq![], example: "command = { command = \"workspace-dir\", path = \"output\" }"@ },
        DocText { name: "file-contains"@, description: "Verify a file contains specific text"@, required: seq!["file"@, "contains"@], optional: seq![], example: "command = { command = \"file-contains\", file = \"output.txt\", contains = \"expected text\" }"@ },
        DocText { name: "log-contains"@, description: "Verify the log contains a regex pattern"@, required: seq!["pattern"@], optional: seq![], example: "command = { command = \"log-contains\", pattern = \"error|failed\" }"@ },
        DocText { name: "message-contains"@, description: "Verify assistant output contains specific text"@, required: seq!["text"@], optional: seq![], example: "command = { command = \"message-contains\", text = \"expected output\" }"@ },
        DocText { name: "db-query"@, description: "Execute a SQL query and verify the result"@, required: seq!["query"@, "expected"@], optional: seq!["db"@], example: "command = { command = \"db-query\", db = \"patents.db\", query = \"SELECT COUNT(*) FROM patents\", expected = \">0\" }"@ },
    ]
}

fn doc(
    name: &'static str,
    description: &'static str,
    required: Vec<&'static str>,
    optional: Vec<&'static str>,
    example: &'static str,
) -> (r: CheckDoc)
    ensures
        r.name == name,
        r.description == description,
        r.required == required,
        r.optional == optional,
        r.example == example,
{
    CheckDoc { name, description, required, optional, example }
}

/// The documentation of every check type.
pub fn check_docs() -> (r: Vec<CheckDoc>)
    ensures
        r@.map_values(|d: CheckDoc| doc_text(d)) == doc_table(),
{
    let mut docs: Vec<CheckDoc> = Vec::new();
    docs.push(doc("skill-loaded", "Verify a skill was loaded during initialization", vec!["skill"], vec![], "command = { command = \"skill-loaded\", skill = \"my-skill\" }"));
    docs.push(doc("skill-invoked", "Verify a skill was invoked during execution", vec!["skill"], vec![], "command = { command = \"skill-invoked\", skill = \"my-skill\" }"));
    docs.push(doc("mcp-loaded", "Verify an MCP server was loaded", vec!["server"], vec![], "command = { command = \"mcp-loaded\", server = \"filesystem\" }"));
    docs.push(doc("mcp-tool-invoked", "Verify an MCP tool was invoked", vec!["tool"], vec![], "command = { command = \"mcp-tool-invoked\", tool = \"read_file\" }"));
    docs.push(doc("mcp-success", "Verify MCP tool calls succeeded (no errors)", vec!["tool"], vec![], "command = { command = \"mcp-success\", tool = \"read_file\" }"));
    docs.push(doc("tool-use", "Verify a tool was called (partial match on tool name)", vec!["tool"], vec![], "command = { command = \"tool-use\", tool = \"Read\" }"));
    docs.push(doc("tool-param", "Verify a tool was called with a specific parameter value", vec!["tool", "param"], vec!["value"], "command = { command = \"tool-param\", tool = \"Read\", param = \"file_path\", value = \"test.txt\" }"));
    docs.push(doc("workspace-file", "Verify a file exists in the workspace", vec!["path"], vec![], "command = { command = \"workspace-file\", path = \"output.txt\" }"));
    docs.push(doc("workspace-dir", "Verify a directory exists in the workspace", vec!["path"], vec![], "command = { command = \"workspace-dir\", path = \"output\" }"));
    docs.push(doc("file-contains", "Verify a file contains specific text", vec!["file", "contains"], vec![], "command = { command = \"file-contains\", file = \"output.txt\", contains = \"expected text\" }"));
    docs.push(doc("log-contains", "Verify the log contains a regex pattern", vec!["pattern"], vec![], "command = { command = \"log-contains\", pattern = \"error|failed\" }"));
    docs.push(doc("message-contains", "Verify assistant output contains specific text", vec!["text"], vec![], "command = { command = \"message-contains\", text = \"expected output\" }"));
    docs.push(doc("db-query", "Execute a SQL query and verify the result", vec!["query", "expected"], vec!["db"], "command = { command = \"db-query\", db = \"patents.db\", query = \"SELECT COUNT(*) FROM patents\", expected = \">0\" }"));
    assert(docs@.map_values(|d: CheckDoc| doc_text(d)) =~~= doc_table());
    docs
}


/// `n` spaces.
pub open spec fn spaces(n: nat) -> Seq<char> {
    Seq::new(n, |i: int| ' ')
}

/// The text left-aligned in a field of 20 characters (`{:<20}`).
pub open spec fn pad20(s: Seq<char>) -> Seq<char> {
    if s.len() < 20 {
        s + spaces((20 - s.len()) as nat)
    } else {
        s
    }
}

/// The overview lines of the check types, one per type.
pub open spec fn overview_lines(docs: Seq<DocText>) -> Seq<char>
    decreases docs.len(),
{
    if docs.len() == 0 {
        Seq::empty()
    } else {
        overview_lines(docs.drop_last()) + "  "@ + pad20(docs.last().name) + " "@
            + docs.last().description + "\n"@
    }
}

/// The help that lists every check type.
pub open spec fn overview_text() -> Seq<char> {
    "Usage: skill-bench help <type>\n\n"@ + "Check types:\n"@ + overview_lines(doc_table())
        + "\nOther:\n"@ + "  "@ + pad20("setup"@) + " Setup step documentation\n"@
}

/// One line per field: `    - <field>`.
pub open spec fn field_lines(fields: Seq<Seq<char>>) -> Seq<char>
    decreases fields.len(),
{
    if fields.len() == 0 {
        Seq::empty()
    } else {
        field_lines(fields.drop_last()) + "    - "@ + fields.last() + "\n"@
    }
}

/// The help of one check type.
pub open spec fn check_help_text(d: DocText) -> Seq<char> {
    d.name + "\n\n"@ + "  "@ + d.description + "\n\n"@ + "  Required fields:\n"@ + field_lines(
        d.required,
    ) + (if d.optional.len() != 0 {
        "\n  Optional fields:\n"@ + field_lines(d.optional)
    } else {
        Seq::empty()
    }) + "\n  Example:\n"@ + "    [[checks]]\n"@ + "    name = \"check-name\"\n"@ + "    "@ + d.example
        + "\n"@ + "\n  Negative assertion (deny = true inverts the check):\n"@ + "    [[checks]]\n"@
        + "    name = \"check-name\"\n"@ + "    "@ + d.example + "\n"@ + "    deny = true\n"@
}

/// The help of setup steps.
pub open spec fn setup_text() -> Seq<char> {
    "Setup\n\n  Setup steps run in the test workspace before the test prompt.\n  Steps are executed in order. Failure in any step fails the test.\n\n  File setup (creates a file with content):\n    [[setup]]\n    name = \"optional-name\"\n    path = \"file.txt\"\n    content = \"File content\"\n\n  Required fields:\n    - path: File path in workspace\n    - content: File content to write\n\n  Script setup (executes a shell command via bash -c):\n    [[setup]]\n    name = \"optional-name\"\n    command = \"echo 'Hello' > greeting.txt\"\n\n  Required fields:\n    - command: Shell command to execute\n"@
}

/// The help of setup steps.
fn setup_help() -> (r: &'static str)
    ensures
        r@ == setup_text(),
{
    "Setup\n\n  Setup steps run in the test workspace before the test prompt.\n  Steps are executed in order. Failure in any step fails the test.\n\n  File setup (creates a file with content):\n    [[setup]]\n    name = \"optional-name\"\n    path = \"file.txt\"\n    content = \"File content\"\n\n  Required fields:\n    - path: File path in workspace\n    - content: File content to write\n\n  Script setup (executes a shell command via bash -c):\n    [[setup]]\n    name = \"optional-name\"\n    command = \"echo 'Hello' > greeting.txt\"\n\n  Required fields:\n    - command: Shell command to execute\n"
}

/// The index of the first documented check type with the name, if any.
pub open spec fn doc_index(docs: Seq<DocText>, name: Seq<char>) -> Option<int>
    decreases docs.len(),
{
    if docs.len() == 0 {
        None
    } else if docs[0].name == name {
        Some(0)
    } else {
        match doc_index(docs.drop_first(), name) {
            Some(i) => Some(i + 1),
            None => None,
        }
    }
}

/// What `print_help` answers: the overview, the setup help, the help of a
/// documented check type, or an error for an undocumented one.
pub open spec fn help_outcome(check_type: Option<Seq<char>>) -> Result<Seq<char>, Seq<char>> {
    match check_type {
        None => Ok(overview_text()),
        Some(t) => if t == "setup"@ {
            Ok(setup_text())
        } else {
            match doc_index(doc_table(), t) {
                Some(i) => Ok(check_help_text(doc_table()[i])),
                None => Err(
                    "Unknown check type: '"@ + t
                        + "'\nRun 'skill-bench help' for available types"@,
                ),
            }
        },
    }
}

/// The text left-aligned in a field of 20 characters.
fn pad20_exec(s: &str) -> (r: String)
    ensures
        r@ == pad20(s@),
{
    let n = chars_of(s).len();
    let mut r = owned(s);
    if n < 20 {
        let mut k: usize = n;
        proof {
            reveal_strlit(" ");
            assert(s@ + spaces(0) =~= s@);
        }
        while k < 20
            invariant
                n <= k <= 20,
                n == s@.len(),
                r@ == s@ + spaces((k - n) as nat),
                " "@ == seq![' '],
            decreases 20 - k,
        {
            r.append(" ");
            assert(s@ + spaces((k + 1 - n) as nat) =~= s@ + spaces((k - n) as nat) + seq![' ']);
            k = k + 1;
        }
    }
    r
}

/// Appends one line per field.
fn append_field_lines(out: &mut String, fields: &Vec<&'static str>)
    ensures
        final(out)@ == old(out)@ + field_lines(strs(fields@)),
{
    let ghost start = out@;
    let mut i: usize = 0;
    while i < fields.len()
        invariant
            i <= fields@.len(),
            out@ == start + field_lines(strs(fields@).take(i as int)),
        decreases fields@.len() - i,
    {
        assert(strs(fields@).take(i + 1).drop_last() =~= strs(fields@).take(i as int));
        out.append("    - ");
        out.append(fields[i]);
        out.append("\n");
        assert(start + field_lines(strs(fields@).take(i + 1)) =~= start + field_lines(
            strs(fields@).take(i as int),
        ) + "    - "@ + fields@[i as int]@ + "\n"@);
        i = i + 1;
    }
    assert(strs(fields@).take(i as int) =~= strs(fields@));
}

/// The help of one check type.
fn render_check_help(d: &CheckDoc) -> (r: String)
    ensures
        r@ == check_help_text(doc_text(*d)),
{
    let mut t = owned(d.name);
    t.append("\n\n");
    t.append("  ");
    t.append(d.description);
    t.append("\n\n");
    t.append("  Required fields:\n");
    append_field_lines(&mut t, &d.required);
    let ghost before_optional = t@;
    if d.optional.len() != 0 {
        t.append("\n  Optional fields:\n");
        append_field_lines(&mut t, &d.optional);
    } else {
        assert(before_optional + Seq::<char>::empty() =~= before_optional);
    }
    t.append("\n  Example:\n");
    t.append("    [[checks]]\n");
    t.append("    name = \"check-name\"\n");
    t.append("    ");
    t.append(d.example);
    t.append("\n");
    t.append("\n  Negative assertion (deny = true inverts the check):\n");
    t.append("    [[checks]]\n");
    t.append("    name = \"check-name\"\n");
    t.append("    ");
    t.append(d.example);
    t.append("\n");
    t.append("    deny = true\n");
    proof {
        let dt = doc_text(*d);
        assert(t@ =~= check_help_text(dt));
    }
    t
}

/// The help that lists every check type.
fn render_overview(docs: &Vec<CheckDoc>) -> (r: String)
    requires
        docs@.map_values(|d: CheckDoc| doc_text(d)) == doc_table(),
    ensures
        r@ == overview_text(),
{
    let ghost table = docs@.map_values(|d: CheckDoc| doc_text(d));
    let mut t = owned("Usage: skill-bench help <type>\n\n");
    t.append("Check types:\n");
    let ghost head = t@;
    let mut i: usize = 0;
    while i < docs.len()
        invariant
            i <= docs@.len(),
            table == docs@.map_values(|d: CheckDoc| doc_text(d)),
            t@ == head + overview_lines(table.take(i as int)),
        decreases docs@.len() - i,
    {
        assert(table.take(i + 1).drop_last() =~= table.take(i as int));
        let d = &docs[i];
        t.append("  ");
        let padded = pad20_exec(d.name);
        t.append(padded.as_str());
        t.append(" ");
        t.append(d.description);
        t.append("\n");
        assert(table[i as int] == doc_text(*d));
        assert(head + overview_lines(table.take(i + 1)) =~= head + overview_lines(table.take(i as int))
            + "  "@ + pad20(d.name@) + " "@ + d.description@ + "\n"@);
        i = i + 1;
    }
    assert(table.take(i as int) =~= table);
    t.append("\nOther:\n");
    t.append("  ");
    let padded = pad20_exec("setup");
    t.append(padded.as_str());
    t.append(" Setup step documentation\n");
    assert(t@ =~= overview_text());
    t
}

/// Renders the help that `skill-bench help [type]` prints: the overview of
/// check types, the setup help, or the help of one check type; an
/// undocumented type is refused.
pub fn print_help(check_type: Option<&str>) -> (r: Result<String, String>)
    ensures
        match r {
            Ok(t) => help_outcome(
                match check_type {
                    Some(c) => Some(c@),
                    None => None,
                },
            ) == Ok::<Seq<char>, Seq<char>>(t@),
            Err(e) => help_outcome(
                match check_type {
                    Some(c) => Some(c@),
                    None => None,
                },
            ) == Err::<Seq<char>, Seq<char>>(e@),
        },
{
    let docs = check_docs();
    match check_type {
        None => Ok(render_overview(&docs)),
        Some(name) => {
            if str_eq(name, "setup") {
                return Ok(owned(setup_help()));
            }
            let ghost table = docs@.map_values(|d: CheckDoc| doc_text(d));
            assert(table.skip(0) =~= table);
            let mut i: usize = 0;
            while i < docs.len()
                invariant
                    i <= docs@.len(),
                    table == docs@.map_values(|d: CheckDoc| doc_text(d)),
                    table == doc_table(),
                    name@ != "setup"@,
                    check_type == Some(name),
                    doc_index(table, name@) == match doc_index(table.skip(i as int), name@) {
                        Some(j) => Some(j + i),
                        None => None,
                    },
                decreases docs@.len() - i,
            {
                assert(table.skip(i as int).drop_first() =~= table.skip(i + 1));
                assert(table.skip(i as int)[0] == doc_text(docs@[i as int]));
                if str_eq(docs[i].name, name) {
                    return Ok(render_check_help(&docs[i]));
                }
                i = i + 1;
            }
            let mut m = owned("Unknown check type: '");
            m.append(name);
            m.append("'\nRun 'skill-bench help' for available types");
            Err(m)
        },
    }
}


/// Whether the check's data holds the field of that name.
pub open spec fn field_present(data: CheckData, name: Seq<char>) -> bool {
    if name == "skill"@ {
        data.skill is Some
    } else if name == "tool"@ {
        data.tool is Some
    } else if name == "path"@ {
        data.path is Some
    } else if name == "file"@ {
        data.file is Some
    } else if name == "contains"@ {
        data.contains is Some
    } else if name == "pattern"@ {
        data.pattern is Some
    } else if name == "text"@ {
        data.text is Some
    } else if name == "server"@ {
        data.server is Some
    } else if name == "param"@ {
        data.param is Some
    } else if name == "value"@ {
        data.value is Some
    } else if name == "db"@ {
        data.db is Some
    } else if name == "expected"@ {
        data.expected is Some
    } else if name == "query"@ {
        data.query is Some
    } else {
        false
    }
}

/// The documentation of the check types agrees with the checks: no two
/// types share a name, each type requires some field and no field is both
/// required and optional, each example uses its type's name, and a check of
/// a documented type lacks a field exactly when one of the type's required
/// fields is absent, its error naming such a field.
pub proof fn lemma_docs_match_checks(i: int, data: CheckData)
    requires
        0 <= i < doc_table().len(),
        data.command@ == doc_table()[i].name,
    ensures
        forall|j: int| 0 <= j < doc_table().len() && j != i ==> #[trigger] doc_table()[j].name != doc_table()[i].name,
        doc_table()[i].required.len() > 0,
        forall|a: int, b: int|
            0 <= a < doc_table()[i].required.len() && 0 <= b < doc_table()[i].optional.len() ==> #[trigger] doc_table()[i].required[a]
                != #[trigger] doc_table()[i].optional[b],
        has_substring(doc_table()[i].example, "command = \""@ + doc_table()[i].name + "\""@),
        missing_field(data) is None <==> forall|k: int|
            0 <= k < doc_table()[i].required.len() ==> field_present(data, #[trigger] doc_table()[i].required[k]),
        missing_field(data) matches Some(m) ==> exists|k: int|
            0 <= k < doc_table()[i].required.len() && !field_present(data, #[trigger] doc_table()[i].required[k])
                && m == "Missing "@ + doc_table()[i].required[k],
{
    crate::assertions::lemma_check_words_differ();
    let d = doc_table()[i];
    let pat = "command = \""@ + d.name + "\""@;
    reveal_strlit("command = \"");
    reveal_strlit("\"");
    if i == 0 {
        reveal_strlit("command = { command = \"skill-loaded\", skill = \"my-skill\" }");
        reveal_strlit("skill-loaded");
        assert(d.example.subrange(12, 12 + pat.len() as int) =~= pat);
        assert(field_present(data, d.required[0]) == field_present(data, "skill"@));
        if !field_present(data, "skill"@) {
            assert(!field_present(data, d.required[0]));
            reveal_strlit("Missing skill");
            reveal_strlit("Missing ");
            reveal_strlit("skill");
            assert("Missing skill"@ =~= "Missing "@ + "skill"@);
        }
    } else if i == 1 {
        reveal_strlit("command = { command = \"skill-invoked\", skill = \"my-skill\" }");
        reveal_strlit("skill-invoked");
        assert(d.example.subrange(12, 12 + pat.len() as int) =~= pat);
        assert(field_present(data, d.required[0]) == field_present(data, "skill"@));
        if !field_present(data, "skill"@) {
            assert(!field_present(data, d.required[0]));
            reveal_strlit("Missing skill");
            reveal_strlit("Missing ");
            reveal_strlit("skill");
            assert("Missing skill"@ =~= "Missing "@ + "skill"@);
        }
    } else if i == 2 {
        reveal_strlit("command = { command = \"mcp-loaded\", server = \"filesystem\" }");
        reveal_strlit("mcp-loaded");
        assert(d.example.subrange(12, 12 + pat.len() as int) =~= pat);
        assert(field_present(data, d.required[0]) == field_present(data, "server"@));
        if !field_present(data, "server"@) {
            assert(!field_present(data, d.required[0]));
            reveal_strlit("Missing server");
            reveal_strlit("Missing ");
            reveal_strlit("server");
            assert("Missing server"@ =~= "Missing "@ + "server"@);
        }
    } else if i == 3 {
        reveal_strlit("command = { command = \"mcp-tool-invoked\", tool = \"read_file\" }");
        reveal_strlit("mcp-tool-invoked");
        assert(d.example.subrange(12, 12 + pat.len() as int) =~= pat);
        assert(field_present(data, d.required[0]) == field_present(data, "tool"@));
        if !field_present(data, "tool"@) {
            assert(!field_present(data, d.required[0]));
            reveal_strlit("Missing tool");
            reveal_strlit("Missing ");
            reveal_strlit("tool");
            assert("Missing tool"@ =~= "Missing "@ + "tool"@);
        }
    } else if i == 4 {
        reveal_strlit("command = { command = \"mcp-success\", tool = \"read_file\" }");
        reveal_strlit("mcp-success");
        assert(d.example.subrange(12, 12 + pat.len() as int) =~= pat);
        assert(field_present(data, d.required[0]) == field_present(data, "tool"@));
        if !field_present(data, "tool"@) {
            assert(!field_present(data, d.required[0]));
            reveal_strlit("Missing tool");
            reveal_strlit("Missing ");
            reveal_strlit("tool");
            assert("Missing tool"@ =~= "Missing "@ + "tool"@);
        }
    } else if i == 5 {
        reveal_strlit("command = { command = \"tool-use\", tool = \"Read\" }");
        reveal_strlit("tool-use");
        assert(d.example.subrange(12, 12 + pat.len() as int) =~= pat);
        assert(field_present(data, d.required[0]) == field_present(data, "tool"@));
        if !field_present(data, "tool"@) {
            assert(!field_present(data, d.required[0]));
            reveal_strlit("Missing tool");
            reveal_strlit("Missing ");
            reveal_strlit("tool");
            assert("Missing tool"@ =~= "Missing "@ + "tool"@);
        }
    } else if i == 6 {
        reveal_strlit("command = { command = \"tool-param\", tool = \"Read\", param = \"file_path\", value = \"test.txt\" }");
        reveal_strlit("tool-param");
        assert(d.example.subrange(12, 12 + pat.len() as int) =~= pat);
        assert(field_present(data, d.required[0]) == field_present(data, "tool"@));
        assert(field_present(data, d.required[1]) == field_present(data, "param"@));
        if !field_present(data, "tool"@) {
            assert(!field_present(data, d.required[0]));
            reveal_strlit("Missing tool");
            reveal_strlit("Missing ");
            reveal_strlit("tool");
            assert("Missing tool"@ =~= "Missing "@ + "tool"@);
        } else if !field_present(data, "param"@) {
            assert(!field_present(data, d.required[1]));
            reveal_strlit("Missing param");
            reveal_strlit("Missing ");
            reveal_strlit("param");
            assert("Missing param"@ =~= "Missing "@ + "param"@);
        }
    } else if i == 7 {
        reveal_strlit("command = { command = \"workspace-file\", path = \"output.txt\" }");
        reveal_strlit("workspace-file");
        assert(d.example.subrange(12, 12 + pat.len() as int) =~= pat);
        assert(field_present(data, d.required[0]) == field_present(data, "path"@));
        if !field_present(data, "path"@) {
            assert(!field_present(data, d.required[0]));
            reveal_strlit("Missing path");
            reveal_strlit("Missing ");
            reveal_strlit("path");
            assert("Missing path"@ =~= "Missing "@ + "path"@);
        }
    } else if i == 8 {
        reveal_strlit("command = { command = \"workspace-dir\", path = \"output\" }");
        reveal_strlit("workspace-dir");
        assert(d.example.subrange(12, 12 + pat.len() as int) =~= pat);
        assert(field_present(data, d.required[0]) == field_present(data, "path"@));
        if !field_present(data, "path"@) {
            assert(!field_present(data, d.required[0]));
            reveal_strlit("Missing path");
            reveal_strlit("Missing ");
            reveal_strlit("path");
            assert("Missing path"@ =~= "Missing "@ + "path"@);
        }
    } else if i == 9 {
        reveal_strlit("command = { command = \"file-contains\", file = \"output.txt\", contains = \"expected text\" }");
        reveal_strlit("file-contains");
        assert(d.example.subrange(12, 12 + pat.len() as int) =~= pat);
        assert(field_present(data, d.required[0]) == field_present(data, "file"@));
        assert(field_present(data, d.required[1]) == field_present(data, "contains"@));
        if !field_present(data, "file"@) {
            assert(!field_present(data, d.required[0]));
            reveal_strlit("Missing file");
            reveal_strlit("Missing ");
            reveal_strlit("file");
            assert("Missing file"@ =~= "Missing "@ + "file"@);
        } else if !field_present(data, "contains"@) {
            assert(!field_present(data, d.required[1]));
            reveal_strlit("Missing contains");
            reveal_strlit("Missing ");
            reveal_strlit("contains");
            assert("Missing contains"@ =~= "Missing "@ + "contains"@);
        }
    } else if i == 10 {
        reveal_strlit("command = { command = \"log-contains\", pattern = \"error|failed\" }");
        reveal_strlit("log-contains");
        assert(d.example.subrange(12, 12 + pat.len() as int) =~= pat);
        assert(field_present(data, d.required[0]) == field_present(data, "pattern"@));
        if !field_present(data, "pattern"@) {
            assert(!field_present(data, d.required[0]));
            reveal_strlit("Missing pattern");
            reveal_strlit("Missing ");
            reveal_strlit("pattern");
            assert("Missing pattern"@ =~= "Missing "@ + "pattern"@);
        }
    } else if i == 11 {
        reveal_strlit("command = { command = \"message-contains\", text = \"expected output\" }");
        reveal_strlit("message-contains");
        assert(d.example.subrange(12, 12 + pat.len() as int) =~= pat);
        assert(field_present(data, d.required[0]) == field_present(data, "text"@));
        if !field_present(data, "text"@) {
            assert(!field_present(data, d.required[0]));
            reveal_strlit("Missing text");
            reveal_strlit("Missing ");
            reveal_strlit("text");
            assert("Missing text"@ =~= "Missing "@ + "text"@);
        }
    } else if i == 12 {
        reveal_strlit("command = { command = \"db-query\", db = \"patents.db\", query = \"SELECT COUNT(*) FROM patents\", expected = \">0\" }");
        reveal_strlit("db-query");
        assert(d.example.subrange(12, 12 + pat.len() as int) =~= pat);
        assert(field_present(data, d.required[0]) == field_present(data, "query"@));
        assert(field_present(data, d.required[1]) == field_present(data, "expected"@));
        if !field_present(data, "expected"@) {
            assert(!field_present(data, d.required[1]));
            reveal_strlit("Missing expected");
            reveal_strlit("Missing ");
            reveal_strlit("expected");
            assert("Missing expected"@ =~= "Missing "@ + "expected"@);
        } else if !field_present(data, "query"@) {
            assert(!field_present(data, d.required[0]));
            reveal_strlit("Missing query");
            reveal_strlit("Missing ");
            reveal_strlit("query");
            assert("Missing query"@ =~= "Missing "@ + "query"@);
        }
    }
    assert(occurs_at(d.example, pat, 12));
}

/// Help documents exactly the check commands that `evaluate_check` knows,
/// but for their other names.
pub proof fn lemma_documented_commands_are_known(cmd: Seq<char>)
    ensures
        crate::assertions::known_command(cmd) <==> (exists|i: int|
            0 <= i < doc_table().len() && #[trigger] doc_table()[i].name == cmd)
            || crate::assertions::command_alias(cmd),
{
    let t = doc_table();
    if crate::assertions::known_command(cmd) && !crate::assertions::command_alias(cmd) {
        if cmd == "skill-loaded"@ { assert(t[0].name == cmd); }
        else if cmd == "skill-invoked"@ { assert(t[1].name == cmd); }
        else if cmd == "mcp-loaded"@ { assert(t[2].name == cmd); }
        else if cmd == "mcp-tool-invoked"@ { assert(t[3].name == cmd); }
        else if cmd == "mcp-success"@ { assert(t[4].name == cmd); }
        else if cmd == "tool-use"@ { assert(t[5].name == cmd); }
        else if cmd == "tool-param"@ { assert(t[6].name == cmd); }
        else if cmd == "workspace-file"@ { assert(t[7].name == cmd); }
        else if cmd == "workspace-dir"@ { assert(t[8].name == cmd); }
        else if cmd == "file-contains"@ { assert(t[9].name == cmd); }
        else if cmd == "log-contains"@ { assert(t[10].name == cmd); }
        else if cmd == "message-contains"@ { assert(t[11].name == cmd); }
        else { assert(t[12].name == cmd); }
    }
}

}
