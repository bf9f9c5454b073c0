//! Tool assertions.

use crate::assertions::{outcome, AssertionChecker};
use crate::json::{
    collect_items, get_str, json_as_array, json_as_str, json_get, json_lookup, json_model,
    log_items, models, ref_models, str_at, JsonData,
};
use crate::pattern::{compile_pattern, pattern_is_match, regex_error, regex_matches};
use crate::text::{has_substring, str_contains, str_eq};
use vstd::prelude::*;

verus! {

/// An item is a tool call (`type` is `tool_use`).
pub open spec fn is_tool_call(item: JsonData) -> bool {
    str_at(item, "type"@) == Some("tool_use"@)
}

/// A tool call whose name contains `tool` (the partial match on the tool name).
pub open spec fn names_tool(item: JsonData, tool: Seq<char>) -> bool {
    &&& is_tool_call(item)
    &&& str_at(item, "name"@) matches Some(n)
    &&& has_substring(n, tool)
}

/// The value of an input parameter of a call.
pub open spec fn input_param(item: JsonData, param: Seq<char>) -> Option<JsonData> {
    match json_lookup(item, "input"@) {
        Some(input) => json_lookup(input, param),
        None => None,
    }
}

/// Some item satisfies `p`.
pub open spec fn some_item(items: Seq<JsonData>, p: spec_fn(JsonData) -> bool) -> bool {
    exists|i: int| 0 <= i < items.len() && p(#[trigger] items[i])
}

/// What `check_tool_use` answers for a log.
pub open spec fn tool_use_outcome(
    log: Seq<JsonData>,
    tool: Seq<char>,
    param: Option<Seq<char>>,
    pattern: Option<Seq<char>>,
) -> Result<(), Seq<char>> {
    let items = log_items(log);
    if !some_item(items, |it: JsonData| names_tool(it, tool)) {
        Err("Tool '"@ + tool + "' was not called"@)
    } else {
        match param {
            None => Ok(()),
            Some(p) => if !some_item(
                items,
                |it: JsonData| names_tool(it, tool) && input_param(it, p) is Some,
            ) {
                Err("Parameter '"@ + p + "' not found in tool '"@ + tool + "' call"@)
            } else {
                match pattern {
                    None => Ok(()),
                    Some(pat) => match regex_error(pat) {
                        Some(e) => Err("Invalid regex '"@ + pat + "': "@ + e),
                        None => if some_item(
                            items,
                            |it: JsonData|
                                names_tool(it, tool) && (input_param(it, p) matches Some(
                                    JsonData::Str(v),
                                ) && regex_matches(pat, v)),
                        ) {
                            Ok(())
                        } else {
                            Err(
                                "Parameter '"@ + p + "' in tool '"@ + tool
                                    + "' does not match pattern '"@ + pat + "'"@,
                            )
                        },
                    },
                }
            },
        }
    }
}

/// A parameter value equals `expected`, or is an array with an element equal to it.
pub open spec fn value_matches(v: JsonData, expected: Seq<char>) -> bool {
    match v {
        JsonData::Str(s) => s == expected,
        JsonData::Array(a) => exists|j: int|
            0 <= j < a.len() && #[trigger] a[j] == JsonData::Str(expected),
        _ => false,
    }
}

/// A call of exactly the named tool whose parameter matches `expected`.
pub open spec fn param_call_matches(item: JsonData, tool: Seq<char>, param: Seq<char>, expected: Seq<
    char,
>) -> bool {
    &&& is_tool_call(item)
    &&& str_at(item, "name"@) == Some(tool)
    &&& input_param(item, param) matches Some(v)
    &&& value_matches(v, expected)
}

/// What `check_param` answers for a log.
pub open spec fn param_outcome(
    log: Seq<JsonData>,
    tool: Seq<char>,
    param: Seq<char>,
    expected: Option<Seq<char>>,
) -> Result<(), Seq<char>> {
    let first = tool_use_outcome(log, tool, Some(param), None);
    if first is Err {
        first
    } else {
        match expected {
            None => Ok(()),
            Some(x) => if some_item(
                log_items(log),
                |it: JsonData| param_call_matches(it, tool, param, x),
            ) {
                Ok(())
            } else {
                Err(
                    "Parameter '"@ + param + "' in tool '"@ + tool
                        + "' does not match expected value '"@ + x + "'"@,
                )
            },
        }
    }
}

fn is_tool_call_exec(item: &serde_json::Value) -> (r: bool)
    ensures
        r == is_tool_call(json_model(*item)),
{
    match get_str(item, "type") {
        Some(t) => str_eq(t, "tool_use"),
        None => false,
    }
}

fn names_tool_exec(item: &serde_json::Value, tool: &str) -> (r: bool)
    ensures
        r == names_tool(json_model(*item), tool@),
{
    if !is_tool_call_exec(item) {
        return false;
    }
    match get_str(item, "name") {
        Some(n) => str_contains(n, tool),
        None => false,
    }
}

fn input_param_exec<'a>(item: &'a serde_json::Value, param: &str) -> (r: Option<&'a serde_json::Value>)
    ensures
        r is Some <==> input_param(json_model(*item), param@) is Some,
        r matches Some(v) ==> input_param(json_model(*item), param@) == Some(json_model(*v)),
{
    match json_get(item, "input") {
        Some(input) => json_get(input, param),
        None => None,
    }
}

/// Whether some call names the tool.
fn any_names_tool(items: &Vec<&serde_json::Value>, tool: &str) -> (r: bool)
    ensures
        r == some_item(ref_models(items@), |it: JsonData| names_tool(it, tool@)),
{
    let mut i: usize = 0;
    while i < items.len()
        invariant
            i <= items@.len(),
            forall|k: int| 0 <= k < i ==> !names_tool(#[trigger] ref_models(items@)[k], tool@),
        decreases items@.len() - i,
    {
        if names_tool_exec(items[i], tool) {
            assert(ref_models(items@)[i as int] == json_model(*items@[i as int]));
            return true;
        }
        i = i + 1;
    }
    false
}

/// Whether some call of the tool has the parameter.
fn any_has_param(items: &Vec<&serde_json::Value>, tool: &str, param: &str) -> (r: bool)
    ensures
        r == some_item(
            ref_models(items@),
            |it: JsonData| names_tool(it, tool@) && input_param(it, param@) is Some,
        ),
{
    let mut i: usize = 0;
    while i < items.len()
        invariant
            i <= items@.len(),
            forall|k: int|
                0 <= k < i ==> !(names_tool(#[trigger] ref_models(items@)[k], tool@) && input_param(
                    ref_models(items@)[k],
                    param@,
                ) is Some),
        decreases items@.len() - i,
    {
        assert(ref_models(items@)[i as int] == json_model(*items@[i as int]));
        if names_tool_exec(items[i], tool) && input_param_exec(items[i], param).is_some() {
            return true;
        }
        i = i + 1;
    }
    false
}

/// Whether some call of the tool has a string parameter that the pattern matches.
fn any_param_matches(
    items: &Vec<&serde_json::Value>,
    tool: &str,
    param: &str,
    re: &crate::pattern::CompiledPattern,
) -> (r: bool)
    ensures
        r == some_item(
            ref_models(items@),
            |it: JsonData|
                names_tool(it, tool@) && (input_param(it, param@) matches Some(JsonData::Str(v))
                    && regex_matches(re.source(), v)),
        ),
{
    let mut i: usize = 0;
    while i < items.len()
        invariant
            i <= items@.len(),
            forall|k: int|
                0 <= k < i ==> !(names_tool(#[trigger] ref_models(items@)[k], tool@) && (input_param(
                    ref_models(items@)[k],
                    param@,
                ) matches Some(JsonData::Str(v)) && regex_matches(re.source(), v))),
        decreases items@.len() - i,
    {
        assert(ref_models(items@)[i as int] == json_model(*items@[i as int]));
        if names_tool_exec(items[i], tool) {
            match input_param_exec(items[i], param) {
                Some(v) => match json_as_str(v) {
                    Some(s) => {
                        if pattern_is_match(re, s) {
                            return true;
                        }
                    },
                    None => {},
                },
                None => {},
            }
        }
        i = i + 1;
    }
    false
}

/// Check that a tool was called (partial match on its name); where a
/// parameter is named, that some such call has it; where a pattern is given
/// too, that the pattern matches the parameter's string value in some call.
pub fn check_tool_use(
    checker: &AssertionChecker,
    tool_name: &str,
    param_name: Option<&str>,
    param_pattern: Option<&str>,
) -> (r: Result<(), String>)
    ensures
        outcome(r) == tool_use_outcome(
            checker.log(),
            tool_name@,
            match param_name {
                Some(p) => Some(p@),
                None => None,
            },
            match param_pattern {
                Some(p) => Some(p@),
                None => None,
            },
        ),
{
    let items = collect_items(checker.log_data());
    if !any_names_tool(&items, tool_name) {
        let mut m = crate::text::owned("Tool '");
        m.append(tool_name);
        m.append("' was not called");
        return Err(m);
    }
    match param_name {
        None => Ok(()),
        Some(param) => {
            if !any_has_param(&items, tool_name, param) {
                let mut m = crate::text::owned("Parameter '");
                m.append(param);
                m.append("' not found in tool '");
                m.append(tool_name);
                m.append("' call");
                return Err(m);
            }
            match param_pattern {
                None => Ok(()),
                Some(pattern) => {
                    let re = match compile_pattern(pattern) {
                        Ok(re) => re,
                        Err(e) => {
                            let mut m = crate::text::owned("Invalid regex '");
                            m.append(pattern);
                            m.append("': ");
                            m.append(e.as_str());
                            return Err(m);
                        },
                    };
                    if any_param_matches(&items, tool_name, param, &re) {
                        Ok(())
                    } else {
                        let mut m = crate::text::owned("Parameter '");
                        m.append(param);
                        m.append("' in tool '");
                        m.append(tool_name);
                        m.append("' does not match pattern '");
                        m.append(pattern);
                        m.append("'");
                        Err(m)
                    }
                },
            }
        },
    }
}

/// Whether a parameter value equals `expected` or holds it as an array element.
fn value_matches_exec(v: &serde_json::Value, expected: &str) -> (r: bool)
    ensures
        r == value_matches(json_model(*v), expected@),
{
    match json_as_str(v) {
        Some(s) => {
            return str_eq(s, expected);
        },
        None => {},
    }
    match json_as_array(v) {
        Some(arr) => {
            let mut j: usize = 0;
            while j < arr.len()
                invariant
                    j <= arr@.len(),
                    json_model(*v) == JsonData::Array(models(arr@)),
                    forall|k: int| 0 <= k < j ==> #[trigger] models(arr@)[k] != JsonData::Str(expected@),
                decreases arr@.len() - j,
            {
                match json_as_str(&arr[j]) {
                    Some(s) => {
                        if str_eq(s, expected) {
                            assert(models(arr@)[j as int] == JsonData::Str(expected@));
                            return true;
                        }
                    },
                    None => {},
                }
                j = j + 1;
            }
            false
        },
        None => false,
    }
}

/// Check that a tool was called with a parameter and, where a value is
/// expected, that some call of exactly that tool has it (directly or as an
/// array element).
pub fn check_param(checker: &AssertionChecker, tool_name: &str, param_name: &str, expected: Option<
    &str,
>) -> (r: Result<(), String>)
    ensures
        outcome(r) == param_outcome(
            checker.log(),
            tool_name@,
            param_name@,
            match expected {
                Some(x) => Some(x@),
                None => None,
            },
        ),
{
    match check_tool_use(checker, tool_name, Some(param_name), None) {
        Ok(()) => {},
        Err(e) => {
            return Err(e);
        },
    }
    match expected {
        None => Ok(()),
        Some(expected_value) => {
            let items = collect_items(checker.log_data());
            let mut i: usize = 0;
            while i < items.len()
                invariant
                    i <= items@.len(),
                    ref_models(items@) == log_items(checker.log()),
                    tool_use_outcome(checker.log(), tool_name@, Some(param_name@), None) is Ok,
                    expected == Some(expected_value),
                    forall|k: int|
                        0 <= k < i ==> !param_call_matches(
                            #[trigger] ref_models(items@)[k],
                            tool_name@,
                            param_name@,
                            expected_value@,
                        ),
                decreases items@.len() - i,
            {
                let item = items[i];
                assert(ref_models(items@)[i as int] == json_model(*item));
                let named = is_tool_call_exec(item) && match get_str(item, "name") {
                    Some(n) => str_eq(n, tool_name),
                    None => false,
                };
                if named {
                    match input_param_exec(item, param_name) {
                        Some(v) => {
                            if value_matches_exec(v, expected_value) {
                                return Ok(());
                            }
                        },
                        None => {},
                    }
                }
                i = i + 1;
            }
            let mut m = crate::text::owned("Parameter '");
            m.append(param_name);
            m.append("' in tool '");
            m.append(tool_name);
            m.append("' does not match expected value '");
            m.append(expected_value);
            m.append("'");
            Err(m)
        },
    }
}


/// A parameter check passes only where the tool-use check for that tool and
/// parameter passes; without an expected value the two agree.
pub proof fn lemma_param_implies_tool_use(log: Seq<JsonData>, tool: Seq<char>, param: Seq<char>, expected: Option<Seq<char>>)
    ensures
        param_outcome(log, tool, param, expected) is Ok ==> tool_use_outcome(log, tool, Some(param), None) is Ok,
        param_outcome(log, tool, param, None) == tool_use_outcome(log, tool, Some(param), None),
{
}

/// A call of exactly the named tool anywhere in the log, whose parameter is
/// the expected string, makes `tool-param` with that value pass, whatever
/// other calls of the tool come before or after it.
pub proof fn lemma_param_call_anywhere(log: Seq<JsonData>, tool: Seq<char>, param: Seq<char>, x: Seq<char>, i: int)
    requires
        0 <= i < log_items(log).len(),
        str_at(log_items(log)[i], "type"@) == Some("tool_use"@),
        str_at(log_items(log)[i], "name"@) == Some(tool),
        json_lookup(log_items(log)[i], "input"@) matches Some(input) && json_lookup(input, param) == Some(
            JsonData::Str(x),
        ),
    ensures
        param_outcome(log, tool, param, Some(x)) is Ok,
{
    let it = log_items(log)[i];
    assert(crate::text::occurs_at(tool, tool, 0)) by {
        assert(tool.subrange(0, tool.len() as int) =~= tool);
    }
    assert(names_tool(it, tool));
    assert(names_tool(it, tool) && input_param(it, param) is Some);
    assert(param_call_matches(it, tool, param, x));
}

/// Adding entries to a log, before or after it, never turns a passing
/// `tool-param` check with a value into a failing one.
pub proof fn lemma_param_survives_more_log(
    log: Seq<JsonData>,
    before: Seq<JsonData>,
    after: Seq<JsonData>,
    tool: Seq<char>,
    param: Seq<char>,
    x: Seq<char>,
)
    requires
        param_outcome(log, tool, param, Some(x)) is Ok,
    ensures
        param_outcome(before + log + after, tool, param, Some(x)) is Ok,
{
    crate::json::lemma_log_items_concat(before, log);
    crate::json::lemma_log_items_concat(before + log, after);
    let items = log_items(log);
    let all = log_items(before + log + after);
    let off = log_items(before).len();
    let i = choose|i: int| 0 <= i < items.len() && (|it: JsonData| param_call_matches(it, tool, param, x))(#[trigger] items[i]);
    assert(all[off + i] == items[i]);
    let it = items[i];
    assert(names_tool(it, tool)) by {
        assert(crate::text::occurs_at(tool, tool, 0)) by {
            assert(tool.subrange(0, tool.len() as int) =~= tool);
        }
    }
    assert((|it: JsonData| names_tool(it, tool))(all[off + i]));
    assert((|it: JsonData| names_tool(it, tool) && input_param(it, param) is Some)(all[off + i]));
    assert((|it: JsonData| param_call_matches(it, tool, param, x))(all[off + i]));
}

}
