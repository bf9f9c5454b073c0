//! Log assertions.

use crate::assertions::outcome;
use crate::json::{json_get, json_lookup, json_model, json_text, json_to_string, models, str_at, get_str, JsonData};
use crate::pattern::{compile_pattern, pattern_is_match, regex_error, regex_matches};
use crate::text::{has_substring, join_with, lowercase, str_contains, str_eq, to_lowercase, join_strings};
use vstd::prelude::*;

verus! {

/// An assistant entry whose `message.content`, printed as JSON and
/// lowercased, contains the lowercased text.
pub open spec fn assistant_mentions(entry: JsonData, text: Seq<char>) -> bool {
    &&& str_at(entry, "type"@) == Some("assistant"@)
    &&& json_lookup(entry, "message"@) matches Some(m)
    &&& json_lookup(m, "content"@) matches Some(c)
    &&& has_substring(lowercase(json_text(c)), lowercase(text))
}

/// Some entry of the log is an assistant message that mentions the text.
pub open spec fn output_mentions(log: Seq<JsonData>, text: Seq<char>) -> bool {
    exists|i: int| 0 <= i < log.len() && assistant_mentions(#[trigger] log[i], text)
}

/// What `check_output_contains` answers for a log.
pub open spec fn output_contains_outcome(log: Seq<JsonData>, text: Seq<char>) -> Result<(), Seq<char>> {
    if output_mentions(log, text) {
        Ok(())
    } else {
        Err("Output does not contain expected text '"@ + text + "'"@)
    }
}

/// The log as text: each entry printed as JSON, one per line.
pub open spec fn log_text(log: Seq<JsonData>) -> Seq<char> {
    join_with(log.map_values(|e: JsonData| json_text(e)), "\n"@)
}

/// What `check_log_contains` answers for a log.
pub open spec fn log_contains_outcome(log: Seq<JsonData>, pattern: Seq<char>) -> Result<(), Seq<char>> {
    match regex_error(pattern) {
        Some(e) => Err("Invalid regex '"@ + pattern + "': "@ + e),
        None => if regex_matches(pattern, log_text(log)) {
            Ok(())
        } else {
            Err("Log does not contain pattern '"@ + pattern + "'"@)
        },
    }
}

/// What the `Debug` format of a list of strings prints: `["a", "b"]`, each
/// string quoted and escaped.
pub uninterp spec fn debug_list(items: Seq<Seq<char>>) -> Seq<char>;

/// The text of each string slice.
pub open spec fn str_views(items: Seq<&str>) -> Seq<Seq<char>> {
    items.map_values(|s: &str| s@)
}

/// What `check_text_contains` answers for a log.
pub open spec fn text_contains_outcome(log: Seq<JsonData>, patterns: Seq<Seq<char>>) -> Result<
    (),
    Seq<char>,
> {
    if exists|i: int| 0 <= i < patterns.len() && output_mentions(log, #[trigger] patterns[i]) {
        Ok(())
    } else {
        Err("Text does not contain any of the expected patterns: "@ + debug_list(patterns))
    }
}

/// Formats a list of strings with `{:?}`.
#[verifier::external_body]
fn debug_strs(items: &[&str]) -> (r: String)
    ensures
        r@ == debug_list(str_views(items@)),
{
    format!("{:?}", items)
}

/// Whether an entry is an assistant message that mentions the lowercased text.
fn assistant_mentions_exec(entry: &serde_json::Value, text: &str, lowered: &str) -> (r: bool)
    requires
        lowered@ == lowercase(text@),
    ensures
        r == assistant_mentions(json_model(*entry), text@),
{
    let is_assistant = match get_str(entry, "type") {
        Some(t) => str_eq(t, "assistant"),
        None => false,
    };
    if !is_assistant {
        return false;
    }
    match json_get(entry, "message") {
        Some(m) => match json_get(m, "content") {
            Some(c) => {
                let printed = json_to_string(c);
                let lowered_content = to_lowercase(printed.as_str());
                str_contains(lowered_content.as_str(), lowered)
            },
            None => false,
        },
        None => false,
    }
}

/// Check that some assistant message contains the text, ignoring case.
pub fn check_output_contains(log_data: &Vec<serde_json::Value>, text: &str) -> (r: Result<(), String>)
    ensures
        outcome(r) == output_contains_outcome(models(log_data@), text@),
{
    let lowered = to_lowercase(text);
    let mut i: usize = 0;
    while i < log_data.len()
        invariant
            i <= log_data@.len(),
            lowered@ == lowercase(text@),
            forall|k: int| 0 <= k < i ==> !assistant_mentions(#[trigger] models(log_data@)[k], text@),
        decreases log_data@.len() - i,
    {
        if assistant_mentions_exec(&log_data[i], text, lowered.as_str()) {
            assert(models(log_data@)[i as int] == json_model(log_data@[i as int]));
            return Ok(());
        }
        i = i + 1;
    }
    Err(crate::text::cat3("Output does not contain expected text '", text, "'"))
}

/// The log printed as JSON, one entry per line.
pub fn render_log(log_data: &Vec<serde_json::Value>) -> (r: String)
    ensures
        r@ == log_text(models(log_data@)),
{
    let mut printed: Vec<String> = Vec::new();
    let mut i: usize = 0;
    while i < log_data.len()
        invariant
            i <= log_data@.len(),
            printed@.map_values(|p: String| p@) == models(log_data@).take(i as int).map_values(
                |e: JsonData| json_text(e),
            ),
        decreases log_data@.len() - i,
    {
        let p = json_to_string(&log_data[i]);
        let ghost before = printed@;
        printed.push(p);
        assert(models(log_data@).take(i + 1) =~= models(log_data@).take(i as int).push(
            json_model(log_data@[i as int]),
        ));
        assert(printed@.map_values(|p: String| p@) =~= before.map_values(|p: String| p@).push(
            p@,
        ));
        assert(printed@.map_values(|p: String| p@) =~= models(log_data@).take(i + 1).map_values(
            |e: JsonData| json_text(e),
        ));
        i = i + 1;
    }
    assert(models(log_data@).take(i as int) =~= models(log_data@));
    join_strings(&printed, "\n")
}

/// Check that the log, printed one entry per line, matches a regular expression.
pub fn check_log_contains(log_data: &Vec<serde_json::Value>, pattern: &str) -> (r: Result<(), String>)
    ensures
        outcome(r) == log_contains_outcome(models(log_data@), pattern@),
{
    let re = match compile_pattern(pattern) {
        Ok(re) => re,
        Err(e) => {
            let mut m = crate::text::owned("Invalid regex '");
            m.append(pattern);
            m.append("': ");
            m.append(e.as_str());
            return Err(m);
        },
    };
    let text = render_log(log_data);
    if pattern_is_match(&re, text.as_str()) {
        Ok(())
    } else {
        Err(crate::text::cat3("Log does not contain pattern '", pattern, "'"))
    }
}

/// Check that some assistant message contains one of the texts.
pub fn check_text_contains(log_data: &Vec<serde_json::Value>, patterns: &[&str]) -> (r: Result<(), String>)
    ensures
        outcome(r) == text_contains_outcome(models(log_data@), str_views(patterns@)),
{
    let mut i: usize = 0;
    while i < patterns.len()
        invariant
            i <= patterns@.len(),
            forall|k: int|
                0 <= k < i ==> !output_mentions(models(log_data@), #[trigger] str_views(patterns@)[k]),
        decreases patterns@.len() - i,
    {
        let p: &str = patterns[i];
        if check_output_contains(log_data, p).is_ok() {
            assert(str_views(patterns@)[i as int] == p@);
            return Ok(());
        }
        i = i + 1;
    }
    Err(crate::text::cat2("Text does not contain any of the expected patterns: ", debug_strs(patterns).as_str()))
}

}
