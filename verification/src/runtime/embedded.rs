//! The harness plugin: its question-responder skill with the test's answers.
//!
//! Writing the plugin's files is done by the caller; these functions
//! compute their text.

use vstd::string::StringSliceAdditionalSpecFns;
use crate::text::{join_strings, join_with, owned, replace_all, replaced};
use vstd::prelude::*;

verus! {

/// What a TOML answer value holds.
pub enum TomlData {
    Str(Seq<char>),
    Array(Seq<TomlData>),
    /// Any other value, by the text that its `Display` prints.
    Other(Seq<char>),
}

/// The contents of a `toml::Value`.
pub uninterp spec fn toml_model(v: toml::Value) -> TomlData;

/// The contents of a sequence of values.
pub open spec fn toml_models(vs: Seq<toml::Value>) -> Seq<TomlData> {
    vs.map_values(|v: toml::Value| toml_model(v))
}

/// Calls `toml::Value::as_str`: the string of a string value, else `None`.
#[verifier::external_body]
pub(crate) fn toml_as_str(v: &toml::Value) -> (r: Option<&str>)
    ensures
        r is Some <==> toml_model(*v) is Str,
        r matches Some(s) ==> toml_model(*v) == TomlData::Str(s@),
{
    v.as_str()
}

/// Calls `toml::Value::as_array`: the elements of an array value, else `None`.
#[verifier::external_body]
pub(crate) fn toml_as_array(v: &toml::Value) -> (r: Option<&Vec<toml::Value>>)
    ensures
        r is Some <==> toml_model(*v) is Array,
        r matches Some(a) ==> toml_model(*v) == TomlData::Array(toml_models(a@)),
{
    v.as_array()
}

/// Calls `toml::Value::to_string` (its `Display`); for a value that is
/// neither a string nor an array, that is the text of its contents.
#[verifier::external_body]
pub(crate) fn toml_to_string(v: &toml::Value) -> (r: String)
    ensures
        toml_model(*v) matches TomlData::Other(t) ==> r@ == t,
{
    v.to_string()
}

/// The strings among values, in order.
pub open spec fn strings_of(items: Seq<TomlData>) -> Seq<Seq<char>>
    decreases items.len(),
{
    if items.len() == 0 {
        Seq::empty()
    } else {
        let rest = strings_of(items.drop_last());
        match items.last() {
            TomlData::Str(s) => rest.push(s),
            _ => rest,
        }
    }
}

/// How an answer is shown: an array as its strings joined with `, `, a
/// string as itself, any other value by its TOML text.
pub open spec fn answer_text(v: TomlData) -> Seq<char> {
    match v {
        TomlData::Array(items) => join_with(strings_of(items), ", "@),
        TomlData::Str(s) => s,
        TomlData::Other(t) => t,
    }
}

/// The heading of the answers section.
pub open spec fn answers_heading() -> Seq<char> {
    "## Available Answers\n\nThe following information is available for this test:\n\n"@
}

/// The answers' lines, one per answer: `- **<key>**: <answer>`.
pub open spec fn answer_lines(answers: Seq<(Seq<char>, TomlData)>) -> Seq<char>
    decreases answers.len(),
{
    if answers.len() == 0 {
        Seq::empty()
    } else {
        answer_lines(answers.drop_last()) + "- **"@ + answers.last().0 + "**: "@ + answer_text(
            answers.last().1,
        ) + "\n"@
    }
}

/// The answers as mathematical data.
pub open spec fn answers_model(answers: Seq<(String, toml::Value)>) -> Seq<(Seq<char>, TomlData)> {
    answers.map_values(|a: (String, toml::Value)| (a.0@, toml_model(a.1)))
}

/// How an answer is shown.
fn format_answer(v: &toml::Value) -> (r: String)
    ensures
        r@ == answer_text(toml_model(*v)),
{
    match toml_as_array(v) {
        Some(arr) => {
            let mut items: Vec<String> = Vec::new();
            let mut i: usize = 0;
            while i < arr.len()
                invariant
                    i <= arr@.len(),
                    items@.map_values(|s: String| s@) == strings_of(toml_models(arr@).take(i as int)),
                decreases arr@.len() - i,
            {
                assert(toml_models(arr@).take(i + 1).drop_last() =~= toml_models(arr@).take(i as int));
                assert(toml_models(arr@).take(i + 1).last() == toml_model(arr@[i as int]));
                match toml_as_str(&arr[i]) {
                    Some(s) => {
                        let ghost before = items@;
                        items.push(owned(s));
                        assert(items@.map_values(|s: String| s@) =~= before.map_values(|s: String| s@).push(s@));
                    },
                    None => {},
                }
                i = i + 1;
            }
            assert(toml_models(arr@).take(i as int) =~= toml_models(arr@));
            join_strings(&items, ", ")
        },
        None => match toml_as_str(v) {
            Some(s) => owned(s),
            None => toml_to_string(v),
        },
    }
}

/// The answers section of the question-responder skill.
pub fn format_answers_section(answers: &Vec<(String, toml::Value)>) -> (r: String)
    ensures
        r@ == answers_heading() + answer_lines(answers_model(answers@)),
{
    let mut lines = owned("## Available Answers\n\nThe following information is available for this test:\n\n");
    let ghost head = lines@;
    let mut i: usize = 0;
    while i < answers.len()
        invariant
            i <= answers@.len(),
            head == answers_heading(),
            lines@ == head + answer_lines(answers_model(answers@).take(i as int)),
        decreases answers@.len() - i,
    {
        let ghost m = answers_model(answers@);
        assert(m.take(i + 1).drop_last() =~= m.take(i as int));
        let (key, value) = &answers[i];
        lines.append("- **");
        lines.append(key.as_str());
        lines.append("**: ");
        let shown = format_answer(value);
        lines.append(shown.as_str());
        lines.append("\n");
        assert(m.take(i + 1).last() == (key@, toml_model(*value)));
        assert(lines@ =~= head + answer_lines(m.take(i + 1)));
        i = i + 1;
    }
    assert(answers_model(answers@).take(i as int) =~= answers_model(answers@));
    lines
}

/// The placeholder of the answers in the skill's template.
pub open spec fn answers_placeholder() -> Seq<char> {
    "{{ANSWERS_SECTION}}"@
}

/// The text that stands in for the answers of a test that has none.
pub open spec fn no_answers_text() -> Seq<char> {
    "No pre-configured answers available for this test."@
}

/// The question-responder skill: the template with its placeholder
/// replaced by the answers section, or by a note where the test has no answers.
pub fn render_skill_md(template: &str, answers: Option<&Vec<(String, toml::Value)>>) -> (r: String)
    ensures
        r@ == replaced(
            template@,
            answers_placeholder(),
            match answers {
                Some(a) => answers_heading() + answer_lines(answers_model(a@)),
                None => no_answers_text(),
            },
        ),
{
    proof {
        reveal_strlit("{{ANSWERS_SECTION}}");
    }
    match answers {
        Some(a) => {
            let section = format_answers_section(a);
            replace_all(template, "{{ANSWERS_SECTION}}", section.as_str())
        },
        None => replace_all(template, "{{ANSWERS_SECTION}}", "No pre-configured answers available for this test."),
    }
}

#[verifier::external_type_specification]
#[verifier::external_body]
pub struct ExPathBuf(std::path::PathBuf);

/// The bytes of a path as the operating system holds them.
pub uninterp spec fn path_bytes(p: std::path::PathBuf) -> Seq<u8>;

/// Calls `PathBuf::from` on a string; the path holds the string's UTF-8 bytes.
#[verifier::external_body]
pub(crate) fn path_from(s: &str) -> (r: std::path::PathBuf)
    ensures
        path_bytes(r) == s.spec_bytes(),
{
    std::path::PathBuf::from(s)
}

/// The path of the harness plugin in the source tree (a development fallback).
pub fn get_harness_plugin_path() -> (r: std::path::PathBuf)
    ensures
        path_bytes(r) == "src/assets/harness-plugin".spec_bytes(),
{
    path_from("src/assets/harness-plugin")
}

}
