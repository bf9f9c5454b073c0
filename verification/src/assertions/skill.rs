//! Skill assertions.

use crate::assertions::{outcome, AssertionChecker};
use crate::json::{
    array_at, collect_items, get_array, get_str, json_as_str, json_get, json_lookup, json_model,
    log_items, models, ref_models, str_at, JsonData,
};
use crate::text::{cat3, has_substring, owned, str_contains, str_eq};
use vstd::prelude::*;

verus! {

/// Some element of `items` is a string that contains `needle`.
pub open spec fn some_str_contains(items: Seq<JsonData>, needle: Seq<char>) -> bool {
    exists|i: int|
        0 <= i < items.len() && (#[trigger] items[i] matches JsonData::Str(s) && has_substring(
            s,
            needle,
        ))
}

/// What `check_skill_loaded` answers for a log.
pub open spec fn skill_loaded_outcome(log: Seq<JsonData>, skill: Seq<char>) -> Result<(), Seq<char>> {
    if log.len() == 0 {
        Err("No log entries found"@)
    } else {
        match array_at(log[0], "skills"@) {
            None => Err("No skills array in init message"@),
            Some(skills) => if some_str_contains(skills, skill) {
                Ok(())
            } else if array_at(log[0], "slash_commands"@) matches Some(commands)
                && some_str_contains(commands, skill) {
                Ok(())
            } else {
                Err("Skill '"@ + skill + "' not found in init skills array or slash_commands"@)
            },
        }
    }
}

/// An item is a call of the `Skill` tool whose `input.skill` contains `skill`.
pub open spec fn is_skill_call(item: JsonData, skill: Seq<char>) -> bool {
    &&& str_at(item, "type"@) == Some("tool_use"@)
    &&& str_at(item, "name"@) == Some("Skill"@)
    &&& json_lookup(item, "input"@) matches Some(input)
    &&& str_at(input, "skill"@) matches Some(s)
    &&& has_substring(s, skill)
}

/// Some content item of the log calls the skill.
pub open spec fn skill_invoked(log: Seq<JsonData>, skill: Seq<char>) -> bool {
    exists|i: int| 0 <= i < log_items(log).len() && is_skill_call(#[trigger] log_items(log)[i], skill)
}

/// What `check_skill_invoked` answers for a log.
pub open spec fn skill_invoked_outcome(log: Seq<JsonData>, skill: Seq<char>, deny: bool) -> Result<
    (),
    Seq<char>,
> {
    if deny {
        if skill_invoked(log, skill) {
            Err("Skill '"@ + skill + "' was invoked but should not have been"@)
        } else {
            Ok(())
        }
    } else if skill_invoked(log, skill) {
        Ok(())
    } else {
        Err("Skill '"@ + skill + "' was not invoked"@)
    }
}

/// Whether some element of `items` is a string that contains `needle`.
fn any_str_contains(items: &Vec<serde_json::Value>, needle: &str) -> (r: bool)
    ensures
        r == some_str_contains(models(items@), needle@),
{
    let mut i: usize = 0;
    while i < items.len()
        invariant
            i <= items@.len(),
            forall|k: int|
                0 <= k < i ==> !(#[trigger] models(items@)[k] matches JsonData::Str(s)
                    && has_substring(s, needle@)),
        decreases items@.len() - i,
    {
        match json_as_str(&items[i]) {
            Some(s) => {
                if str_contains(s, needle) {
                    assert(models(items@)[i as int] == JsonData::Str(s@));
                    return true;
                }
            },
            None => {},
        }
        i = i + 1;
    }
    false
}

/// Check that a skill was loaded: present in the init message's skills
/// array or, failing that, in its slash_commands.
pub fn check_skill_loaded(checker: &AssertionChecker, skill_name: &str) -> (r: Result<(), String>)
    ensures
        outcome(r) == skill_loaded_outcome(checker.log(), skill_name@),
{
    let init_msg = match checker.init_message() {
        Some(m) => m,
        None => return Err(owned("No log entries found")),
    };
    let skills = match get_array(init_msg, "skills") {
        Some(s) => s,
        None => return Err(owned("No skills array in init message")),
    };
    if any_str_contains(skills, skill_name) {
        return Ok(());
    }
    match get_array(init_msg, "slash_commands") {
        Some(commands) => {
            if any_str_contains(commands, skill_name) {
                return Ok(());
            }
        },
        None => {},
    }
    Err(cat3("Skill '", skill_name, "' not found in init skills array or slash_commands"))
}

/// Whether an item calls the `Skill` tool with a skill that contains `skill`.
fn is_skill_call_exec(item: &serde_json::Value, skill: &str) -> (r: bool)
    ensures
        r == is_skill_call(json_model(*item), skill@),
{
    let is_use = match get_str(item, "type") {
        Some(t) => str_eq(t, "tool_use"),
        None => false,
    };
    if !is_use {
        return false;
    }
    let is_skill = match get_str(item, "name") {
        Some(n) => str_eq(n, "Skill"),
        None => false,
    };
    if !is_skill {
        return false;
    }
    match json_get(item, "input") {
        Some(input) => match get_str(input, "skill") {
            Some(s) => str_contains(s, skill),
            None => false,
        },
        None => false,
    }
}

/// Whether some content item of the log calls the skill.
pub fn skill_was_invoked(checker: &AssertionChecker, skill_name: &str) -> (r: bool)
    ensures
        r == skill_invoked(checker.log(), skill_name@),
{
    let items = collect_items(checker.log_data());
    let mut i: usize = 0;
    while i < items.len()
        invariant
            i <= items@.len(),
            ref_models(items@) == log_items(checker.log()),
            forall|k: int| 0 <= k < i ==> !is_skill_call(#[trigger] log_items(checker.log())[k], skill_name@),
        decreases items@.len() - i,
    {
        if is_skill_call_exec(items[i], skill_name) {
            assert(log_items(checker.log())[i as int] == json_model(*items@[i as int]));
            return true;
        }
        i = i + 1;
    }
    false
}

/// Check that a skill was invoked; with `deny`, that it was not.
pub fn check_skill_invoked(checker: &AssertionChecker, skill_name: &str, deny: bool) -> (r: Result<
    (),
    String,
>)
    ensures
        outcome(r) == skill_invoked_outcome(checker.log(), skill_name@, deny),
{
    let invoked = skill_was_invoked(checker, skill_name);
    if deny {
        if invoked {
            Err(cat3("Skill '", skill_name, "' was invoked but should not have been"))
        } else {
            Ok(())
        }
    } else if invoked {
        Ok(())
    } else {
        Err(cat3("Skill '", skill_name, "' was not invoked"))
    }
}

/// A `Skill` tool call anywhere in the log, whose `input.skill` contains the
/// name, makes `skill-invoked` pass and its denial fail, whatever other
/// calls come before or after it.
pub proof fn lemma_skill_call_anywhere(log: Seq<JsonData>, skill: Seq<char>, i: int, s: Seq<char>)
    requires
        0 <= i < log_items(log).len(),
        str_at(log_items(log)[i], "type"@) == Some("tool_use"@),
        str_at(log_items(log)[i], "name"@) == Some("Skill"@),
        json_lookup(log_items(log)[i], "input"@) matches Some(input) && str_at(input, "skill"@) == Some(s),
        has_substring(s, skill),
    ensures
        skill_invoked_outcome(log, skill, false) is Ok,
        skill_invoked_outcome(log, skill, true) is Err,
{
    assert(is_skill_call(log_items(log)[i], skill));
}

/// Adding entries to a log, before or after it, never makes an invoked
/// skill count as not invoked.
pub proof fn lemma_skill_invoked_survives_more_log(log: Seq<JsonData>, before: Seq<JsonData>, after: Seq<JsonData>, skill: Seq<char>)
    requires
        skill_invoked_outcome(log, skill, false) is Ok,
    ensures
        skill_invoked_outcome(before + log + after, skill, false) is Ok,
{
    crate::json::lemma_log_items_concat(before, log);
    crate::json::lemma_log_items_concat(before + log, after);
    let i = choose|i: int| 0 <= i < log_items(log).len() && is_skill_call(#[trigger] log_items(log)[i], skill);
    let k = log_items(before).len() + i;
    assert(log_items(before + log + after)[k] == log_items(log)[i]);
}

}
