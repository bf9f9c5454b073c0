//! MCP assertions.

use crate::assertions::{outcome, AssertionChecker};
use crate::json::{
    array_at, collect_items, get_array, get_str, json_as_bool, json_get, json_lookup, json_model,
    log_items, models, ref_models, str_at, JsonData,
};
use crate::text::{cat3, cat5, has_prefix, has_substring, has_suffix, owned, str_contains, str_ends_with, str_eq, str_starts_with};
use vstd::prelude::*;

verus! {

/// A server entry whose name contains `name`.
pub open spec fn server_matches(server: JsonData, name: Seq<char>) -> bool {
    str_at(server, "name"@) matches Some(n) && has_substring(n, name)
}

/// The status of the first server whose name contains `name`; `not_found`
/// where there is none or it has no status string.
pub open spec fn server_status(servers: Seq<JsonData>, name: Seq<char>) -> Seq<char>
    decreases servers.len(),
{
    if servers.len() == 0 {
        "not_found"@
    } else if server_matches(servers[0], name) {
        match str_at(servers[0], "status"@) {
            Some(s) => s,
            None => "not_found"@,
        }
    } else {
        server_status(servers.drop_first(), name)
    }
}

/// What `check_mcp_loaded` answers for a log.
pub open spec fn mcp_loaded_outcome(log: Seq<JsonData>, name: Seq<char>) -> Result<(), Seq<char>> {
    if log.len() == 0 {
        Err("No log entries found"@)
    } else {
        match array_at(log[0], "mcp_servers"@) {
            None => Err("No mcp_servers array in init message"@),
            Some(servers) => {
                let status = server_status(servers, name);
                if status == "connected"@ || status == "loaded"@ {
                    Ok(())
                } else if status == "failed"@ {
                    Err("MCP server '"@ + name + "' failed to load (status: failed)"@)
                } else if status == "not_found"@ {
                    Err("MCP server '"@ + name + "' not found in log"@)
                } else {
                    Err("Unknown MCP server status: "@ + status)
                }
            },
        }
    }
}

/// An item is a call of an MCP tool (`mcp__...`) whose name ends with `tool`.
pub open spec fn is_mcp_call(item: JsonData, tool: Seq<char>) -> bool {
    &&& str_at(item, "type"@) == Some("tool_use"@)
    &&& str_at(item, "name"@) matches Some(n)
    &&& has_prefix(n, "mcp__"@)
    &&& has_suffix(n, tool)
}

/// What `check_mcp_tool_invoked` answers for a log.
pub open spec fn mcp_tool_invoked_outcome(log: Seq<JsonData>, tool: Seq<char>) -> Result<(), Seq<char>> {
    if exists|i: int| 0 <= i < log_items(log).len() && is_mcp_call(#[trigger] log_items(log)[i], tool) {
        Ok(())
    } else {
        Err("MCP tool '"@ + tool + "' was not invoked"@)
    }
}

/// An item reports an error for the call with the given id.
pub open spec fn is_error_result(item: JsonData, id: Seq<char>) -> bool {
    &&& str_at(item, "type"@) == Some("tool_result"@)
    &&& str_at(item, "tool_use_id"@) == Some(id)
    &&& json_lookup(item, "is_error"@) == Some(JsonData::Bool(true))
}

/// Some item reports an error for the call with the given id.
pub open spec fn has_error_result(items: Seq<JsonData>, id: Seq<char>) -> bool {
    exists|i: int| 0 <= i < items.len() && is_error_result(#[trigger] items[i], id)
}

/// Goes through the calls in order: the first without an id, or the first
/// whose id has an error result, decides; else success.
pub open spec fn calls_outcome(calls: Seq<JsonData>, items: Seq<JsonData>, tool: Seq<char>) -> Result<
    (),
    Seq<char>,
>
    decreases calls.len(),
{
    if calls.len() == 0 {
        Ok(())
    } else {
        match str_at(calls[0], "id"@) {
            None => Err("Missing tool_use id"@),
            Some(id) => if has_error_result(items, id) {
                Err("MCP tool '"@ + tool + "' (id: "@ + id + ") returned an error"@)
            } else {
                calls_outcome(calls.drop_first(), items, tool)
            },
        }
    }
}

/// The MCP calls of a tool among the items, in order.
pub open spec fn mcp_calls(items: Seq<JsonData>, tool: Seq<char>) -> Seq<JsonData> {
    items.filter(|it: JsonData| is_mcp_call(it, tool))
}

/// What `check_mcp_success` answers for a log.
pub open spec fn mcp_success_outcome(log: Seq<JsonData>, tool: Seq<char>, optional: bool) -> Result<
    (),
    Seq<char>,
> {
    let calls = mcp_calls(log_items(log), tool);
    if calls.len() == 0 {
        if optional {
            Ok(())
        } else {
            Err("No MCP tool calls found for '"@ + tool + "'"@)
        }
    } else {
        calls_outcome(calls, log_items(log), tool)
    }
}

/// The status of the first server whose name contains `name`.
fn find_server_status<'a>(servers: &'a Vec<serde_json::Value>, name: &str) -> (r: Option<&'a str>)
    ensures
        server_status(models(servers@), name@) == match r {
            Some(s) => s@,
            None => "not_found"@,
        },
{
    let ghost all = models(servers@);
    assert(all.skip(0) =~= all);
    let mut i: usize = 0;
    while i < servers.len()
        invariant
            i <= servers@.len(),
            all == models(servers@),
            server_status(all, name@) == server_status(all.skip(i as int), name@),
        decreases servers@.len() - i,
    {
        assert(all.skip(i as int).drop_first() =~= all.skip(i + 1));
        assert(all.skip(i as int)[0] == json_model(servers@[i as int]));
        let matches = match get_str(&servers[i], "name") {
            Some(n) => str_contains(n, name),
            None => false,
        };
        if matches {
            return get_str(&servers[i], "status");
        }
        i = i + 1;
    }
    None
}

/// Check that an MCP server was loaded: the first server of the init
/// message whose name contains `mcp_name` is connected or loaded.
pub fn check_mcp_loaded(checker: &AssertionChecker, mcp_name: &str) -> (r: Result<(), String>)
    ensures
        outcome(r) == mcp_loaded_outcome(checker.log(), mcp_name@),
{
    let init_msg = match checker.init_message() {
        Some(m) => m,
        None => return Err(owned("No log entries found")),
    };
    let servers = match get_array(init_msg, "mcp_servers") {
        Some(s) => s,
        None => return Err(owned("No mcp_servers array in init message")),
    };
    let status = match find_server_status(servers, mcp_name) {
        Some(s) => s,
        None => "not_found",
    };
    if str_eq(status, "connected") || str_eq(status, "loaded") {
        Ok(())
    } else if str_eq(status, "failed") {
        Err(cat3("MCP server '", mcp_name, "' failed to load (status: failed)"))
    } else if str_eq(status, "not_found") {
        Err(cat3("MCP server '", mcp_name, "' not found in log"))
    } else {
        Err(crate::text::cat2("Unknown MCP server status: ", status))
    }
}

/// Whether an item calls an MCP tool whose name ends with `tool`.
fn is_mcp_call_exec(item: &serde_json::Value, tool: &str) -> (r: bool)
    ensures
        r == is_mcp_call(json_model(*item), tool@),
{
    let is_use = match get_str(item, "type") {
        Some(t) => str_eq(t, "tool_use"),
        None => false,
    };
    if !is_use {
        return false;
    }
    match get_str(item, "name") {
        Some(n) => str_starts_with(n, "mcp__") && str_ends_with(n, tool),
        None => false,
    }
}

/// Check that an MCP tool was invoked.
pub fn check_mcp_tool_invoked(checker: &AssertionChecker, tool_name: &str) -> (r: Result<(), String>)
    ensures
        outcome(r) == mcp_tool_invoked_outcome(checker.log(), tool_name@),
{
    let items = collect_items(checker.log_data());
    let mut i: usize = 0;
    while i < items.len()
        invariant
            i <= items@.len(),
            ref_models(items@) == log_items(checker.log()),
            forall|k: int| 0 <= k < i ==> !is_mcp_call(#[trigger] log_items(checker.log())[k], tool_name@),
        decreases items@.len() - i,
    {
        if is_mcp_call_exec(items[i], tool_name) {
            assert(log_items(checker.log())[i as int] == json_model(*items@[i as int]));
            return Ok(());
        }
        i = i + 1;
    }
    Err(cat3("MCP tool '", tool_name, "' was not invoked"))
}

/// Whether an item reports an error for the call with the given id.
fn is_error_result_exec(item: &serde_json::Value, id: &str) -> (r: bool)
    ensures
        r == is_error_result(json_model(*item), id@),
{
    let is_result = match get_str(item, "type") {
        Some(t) => str_eq(t, "tool_result"),
        None => false,
    };
    if !is_result {
        return false;
    }
    let same_id = match get_str(item, "tool_use_id") {
        Some(u) => str_eq(u, id),
        None => false,
    };
    if !same_id {
        return false;
    }
    match json_get(item, "is_error") {
        Some(e) => match json_as_bool(e) {
            Some(b) => b,
            None => false,
        },
        None => false,
    }
}

/// Whether some item reports an error for the call with the given id.
fn any_error_result(items: &Vec<&serde_json::Value>, id: &str) -> (r: bool)
    ensures
        r == has_error_result(ref_models(items@), id@),
{
    let mut i: usize = 0;
    while i < items.len()
        invariant
            i <= items@.len(),
            forall|k: int| 0 <= k < i ==> !is_error_result(#[trigger] ref_models(items@)[k], id@),
        decreases items@.len() - i,
    {
        if is_error_result_exec(items[i], id) {
            assert(ref_models(items@)[i as int] == json_model(*items@[i as int]));
            return true;
        }
        i = i + 1;
    }
    false
}

/// The MCP calls of a tool among the items, in order.
fn select_mcp_calls<'a>(items: &Vec<&'a serde_json::Value>, tool: &str) -> (r: Vec<&'a serde_json::Value>)
    ensures
        ref_models(r@) == mcp_calls(ref_models(items@), tool@),
{
    let ghost all = ref_models(items@);
    let mut out: Vec<&'a serde_json::Value> = Vec::new();
    let mut i: usize = 0;
    while i < items.len()
        invariant
            i <= items@.len(),
            all == ref_models(items@),
            ref_models(out@) == mcp_calls(all.take(i as int), tool@),
        decreases items@.len() - i,
    {
        proof {
            reveal(Seq::filter);
            assert(all.take(i + 1).drop_last() =~= all.take(i as int));
        }
        let ghost before = out@;
        if is_mcp_call_exec(items[i], tool) {
            out.push(items[i]);
            assert(ref_models(out@) =~= ref_models(before).push(json_model(*items@[i as int])));
        }
        i = i + 1;
    }
    assert(all.take(i as int) =~= all);
    out
}

/// Check that the calls of an MCP tool succeeded: each call has an id and
/// no `tool_result` with that id reports an error. With `optional`, a tool
/// that was never called passes.
pub fn check_mcp_success(checker: &AssertionChecker, tool_name: &str, optional: bool) -> (r: Result<
    (),
    String,
>)
    ensures
        outcome(r) == mcp_success_outcome(checker.log(), tool_name@, optional),
{
    let items = collect_items(checker.log_data());
    let calls = select_mcp_calls(&items, tool_name);
    if calls.len() == 0 {
        if optional {
            return Ok(());
        } else {
            return Err(cat3("No MCP tool calls found for '", tool_name, "'"));
        }
    }
    let ghost all = log_items(checker.log());
    let ghost cs = ref_models(calls@);
    assert(cs.skip(0) =~= cs);
    let mut i: usize = 0;
    while i < calls.len()
        invariant
            i <= calls@.len(),
            cs == ref_models(calls@),
            all == ref_models(items@),
            all == log_items(checker.log()),
            cs == mcp_calls(all, tool_name@),
            cs.len() > 0,
            calls_outcome(cs, all, tool_name@) == calls_outcome(cs.skip(i as int), all, tool_name@),
        decreases calls@.len() - i,
    {
        assert(cs.skip(i as int).drop_first() =~= cs.skip(i + 1));
        assert(cs.skip(i as int)[0] == json_model(*calls@[i as int]));
        let tool_id = match get_str(calls[i], "id") {
            Some(id) => id,
            None => return Err(owned("Missing tool_use id")),
        };
        if any_error_result(&items, tool_id) {
            return Err(cat5("MCP tool '", tool_name, "' (id: ", tool_id, ") returned an error"));
        }
        i = i + 1;
    }
    assert(cs.skip(i as int).len() == 0);
    Ok(())
}

/// The calls decide failure as soon as one of them, wherever it stands,
/// has an id with an error result.
proof fn lemma_calls_error_anywhere(calls: Seq<JsonData>, items: Seq<JsonData>, tool: Seq<char>, k: int, id: Seq<char>)
    requires
        0 <= k < calls.len(),
        str_at(calls[k], "id"@) == Some(id),
        has_error_result(items, id),
    ensures
        calls_outcome(calls, items, tool) is Err,
    decreases calls.len(),
{
    if k > 0 {
        match str_at(calls[0], "id"@) {
            None => {},
            Some(id0) => if !has_error_result(items, id0) {
                assert(calls.drop_first()[k - 1] == calls[k]);
                lemma_calls_error_anywhere(calls.drop_first(), items, tool, k - 1, id);
            },
        }
    }
}

/// An error result for any call of the MCP tool, wherever the call stands,
/// fails `mcp-success`.
pub proof fn lemma_mcp_error_anywhere_fails(
    log: Seq<JsonData>,
    tool: Seq<char>,
    optional: bool,
    i: int,
    j: int,
    name: Seq<char>,
    id: Seq<char>,
)
    requires
        0 <= i < log_items(log).len(),
        str_at(log_items(log)[i], "type"@) == Some("tool_use"@),
        str_at(log_items(log)[i], "name"@) == Some(name),
        has_prefix(name, "mcp__"@),
        has_suffix(name, tool),
        str_at(log_items(log)[i], "id"@) == Some(id),
        0 <= j < log_items(log).len(),
        str_at(log_items(log)[j], "type"@) == Some("tool_result"@),
        str_at(log_items(log)[j], "tool_use_id"@) == Some(id),
        json_lookup(log_items(log)[j], "is_error"@) == Some(JsonData::Bool(true)),
    ensures
        mcp_success_outcome(log, tool, optional) is Err,
{
    let items = log_items(log);
    let p = |it: JsonData| is_mcp_call(it, tool);
    assert(p(items[i]));
    items.lemma_filter_contains(p, i);
    let calls = mcp_calls(items, tool);
    assert(calls == items.filter(p));
    assert(calls.contains(items[i]));
    let k = choose|k: int| 0 <= k < calls.len() && calls[k] == items[i];
    assert(is_error_result(items[j], id));
    lemma_calls_error_anywhere(calls, items, tool, k, id);
}

}
