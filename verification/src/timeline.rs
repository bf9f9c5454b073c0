//! The events that the timeline shows for the entries of a session log.
//!
//! Reading the log, the entries' timestamps and printing are done by the caller.

use crate::json::{
    array_at, get_str, json_as_array, json_get, json_lookup, json_model, json_text, json_to_string,
    models, str_at, JsonData,
};
use crate::text::{cat2, decimal, decimal_text, owned, str_eq};
use vstd::prelude::*;

verus! {

/// An event of the timeline, without its time.
pub struct TimelineItem {
    pub event_type: String,
    pub content: String,
    pub details: Option<String>,
}

/// An event as mathematical text: type, content, details.
pub open spec fn item_view(e: TimelineItem) -> (Seq<char>, Seq<char>, Option<Seq<char>>) {
    (
        e.event_type@,
        e.content@,
        match e.details {
            Some(d) => Some(d@),
            None => None,
        },
    )
}

/// The events as mathematical text.
pub open spec fn items_view(es: Seq<TimelineItem>) -> Seq<(Seq<char>, Seq<char>, Option<Seq<char>>)> {
    es.map_values(|e: TimelineItem| item_view(e))
}

/// The content and details of an event of the given type.
pub open spec fn event_content(entry: JsonData, event_type: Seq<char>) -> (Seq<char>, Option<Seq<char>>) {
    if event_type == "system"@ {
        (
            "System: "@ + match str_at(entry, "subtype"@) {
                Some(s) => s,
                None => Seq::empty(),
            },
            Some(
                "Model: "@ + match str_at(entry, "model"@) {
                    Some(m) => m,
                    None => "unknown"@,
                },
            ),
        )
    } else if event_type == "assistant"@ {
        ("Assistant: response"@, Some("Thinking/content"@))
    } else if event_type == "user"@ {
        ("User: message"@, None)
    } else {
        ("Event: "@ + event_type, Some("Unknown event type"@))
    }
}

/// The timeline events for the tool calls among content items, in order.
pub open spec fn tool_events(items: Seq<JsonData>) -> Seq<(Seq<char>, Seq<char>, Option<Seq<char>>)>
    decreases items.len(),
{
    if items.len() == 0 {
        Seq::empty()
    } else {
        let rest = tool_events(items.drop_last());
        let item = items.last();
        if str_at(item, "type"@) == Some("tool_use"@) {
            rest.push(
                (
                    "tool_use"@,
                    "Tool: "@ + match str_at(item, "name"@) {
                        Some(n) => n,
                        None => "unknown"@,
                    },
                    Some(
                        "Input: "@ + json_text(
                            match json_lookup(item, "input"@) {
                                Some(i) => i,
                                None => JsonData::Null,
                            },
                        ),
                    ),
                ),
            )
        } else {
            rest
        }
    }
}

/// The timeline events of a value that may hold content items.
pub open spec fn content_events(content: JsonData) -> Seq<(Seq<char>, Seq<char>, Option<Seq<char>>)> {
    match content {
        JsonData::Array(items) => tool_events(items),
        _ => Seq::empty(),
    }
}

/// The type of an entry: its `type` string, or `unknown`.
pub open spec fn entry_type(entry: JsonData) -> Seq<char> {
    match str_at(entry, "type"@) {
        Some(t) => t,
        None => "unknown"@,
    }
}

/// The timeline events of a log entry: for an assistant message, one per
/// tool call in its content; then the entry's own event.
pub open spec fn entry_events(entry: JsonData) -> Seq<(Seq<char>, Seq<char>, Option<Seq<char>>)> {
    let t = entry_type(entry);
    let tools = if t == "assistant"@ {
        match json_lookup(entry, "message"@) {
            Some(m) => match json_lookup(m, "content"@) {
                Some(c) => content_events(c),
                None => Seq::empty(),
            },
            None => Seq::empty(),
        }
    } else {
        Seq::empty()
    };
    let (content, details) = event_content(entry, t);
    tools.push((t, content, details))
}

/// Calls `serde_json::Value::Null`'s constructor: the null value.
#[verifier::external_body]
fn json_null() -> (r: serde_json::Value)
    ensures
        json_model(r) == JsonData::Null,
{
    serde_json::Value::Null
}

/// The content and details of an event of the given type.
pub fn parse_event_content(entry: &serde_json::Value, event_type: &str) -> (r: (String, Option<String>))
    ensures
        (r.0@, match r.1 {
            Some(d) => Some(d@),
            None => None,
        }) == event_content(json_model(*entry), event_type@),
{
    if str_eq(event_type, "system") {
        let subtype = match get_str(entry, "subtype") {
            Some(s) => s,
            None => "",
        };
        let model = match get_str(entry, "model") {
            Some(m) => m,
            None => "unknown",
        };
        proof {
            reveal_strlit("");
            assert(""@ =~= Seq::<char>::empty());
        }
        (cat2("System: ", subtype), Some(cat2("Model: ", model)))
    } else if str_eq(event_type, "assistant") {
        (owned("Assistant: response"), Some(owned("Thinking/content")))
    } else if str_eq(event_type, "user") {
        (owned("User: message"), None)
    } else {
        (cat2("Event: ", event_type), Some(owned("Unknown event type")))
    }
}

/// The timeline events for the tool calls in an assistant message's content.
pub fn extract_tool_uses(content: &serde_json::Value) -> (r: Vec<TimelineItem>)
    ensures
        items_view(r@) == content_events(json_model(*content)),
{
    let mut events: Vec<TimelineItem> = Vec::new();
    let items = match json_as_array(content) {
        Some(a) => a,
        None => return events,
    };
    let ghost ms = models(items@);
    let mut i: usize = 0;
    while i < items.len()
        invariant
            i <= items@.len(),
            ms == models(items@),
            json_model(*content) == JsonData::Array(ms),
            items_view(events@) == tool_events(ms.take(i as int)),
        decreases items@.len() - i,
    {
        assert(ms.take(i + 1).drop_last() =~= ms.take(i as int));
        assert(ms.take(i + 1).last() == json_model(items@[i as int]));
        let item = &items[i];
        let is_use = match get_str(item, "type") {
            Some(t) => str_eq(t, "tool_use"),
            None => false,
        };
        if is_use {
            let name = match get_str(item, "name") {
                Some(n) => n,
                None => "unknown",
            };
            let null = json_null();
            let input = match json_get(item, "input") {
                Some(v) => v,
                None => &null,
            };
            let shown = json_to_string(input);
            let ghost before = events@;
            events.push(
                TimelineItem {
                    event_type: owned("tool_use"),
                    content: cat2("Tool: ", name),
                    details: Some(cat2("Input: ", shown.as_str())),
                },
            );
            assert(items_view(events@) =~= items_view(before).push(item_view(events@.last())));
        }
        i = i + 1;
    }
    assert(ms.take(i as int) =~= ms);
    events
}

/// The timeline events of a log entry.
pub fn timeline_entry_events(entry: &serde_json::Value) -> (r: Vec<TimelineItem>)
    ensures
        items_view(r@) == entry_events(json_model(*entry)),
{
    let event_type = match get_str(entry, "type") {
        Some(t) => t,
        None => "unknown",
    };
    let mut events: Vec<TimelineItem> = Vec::new();
    if str_eq(event_type, "assistant") {
        match json_get(entry, "message") {
            Some(m) => match json_get(m, "content") {
                Some(c) => {
                    events = extract_tool_uses(c);
                },
                None => {},
            },
            None => {},
        }
    }
    let (content, details) = parse_event_content(entry, event_type);
    let ghost before = events@;
    events.push(TimelineItem { event_type: owned(event_type), content, details });
    assert(items_view(events@) =~= items_view(before).push(item_view(events@.last())));
    events
}

/// The timeline events of a whole log, entry after entry.
pub open spec fn log_events(log: Seq<JsonData>) -> Seq<(Seq<char>, Seq<char>, Option<Seq<char>>)>
    decreases log.len(),
{
    if log.len() == 0 {
        Seq::empty()
    } else {
        log_events(log.drop_last()) + entry_events(log.last())
    }
}

/// The timeline events of a whole log; the timeline numbers them from 1.
pub fn timeline_events(log: &Vec<serde_json::Value>) -> (r: Vec<TimelineItem>)
    ensures
        items_view(r@) == log_events(models(log@)),
{
    let mut events: Vec<TimelineItem> = Vec::new();
    let mut i: usize = 0;
    while i < log.len()
        invariant
            i <= log@.len(),
            items_view(events@) == log_events(models(log@).take(i as int)),
        decreases log@.len() - i,
    {
        let mut more = timeline_entry_events(&log[i]);
        let ghost before = events@;
        let ghost added = more@;
        events.append(&mut more);
        assert(models(log@).take(i + 1).drop_last() =~= models(log@).take(i as int));
        assert(items_view(events@) =~= items_view(before) + items_view(added));
        i = i + 1;
    }
    assert(models(log@).take(i as int) =~= models(log@));
    events
}

/// The icon of an event type.
pub open spec fn icon_of(event_type: Seq<char>) -> Seq<char> {
    if event_type == "system"@ {
        "\u{1f7e6}"@
    } else if event_type == "tool_use"@ {
        "\u{1f527}"@
    } else if event_type == "assistant"@ {
        "\u{1f7e2}"@
    } else if event_type == "user"@ {
        "\u{1f464}"@
    } else {
        "\u{26aa}"@
    }
}

/// The icon of an event type.
pub fn event_icon(event_type: &str) -> (r: &'static str)
    ensures
        r@ == icon_of(event_type@),
{
    if str_eq(event_type, "system") {
        "\u{1f7e6}"
    } else if str_eq(event_type, "tool_use") {
        "\u{1f527}"
    } else if str_eq(event_type, "assistant") {
        "\u{1f7e2}"
    } else if str_eq(event_type, "user") {
        "\u{1f464}"
    } else {
        "\u{26aa}"
    }
}

/// The line of the event with the given number: `[#<n>] <icon> <content>`.
pub fn event_line(sequence: usize, event: &TimelineItem) -> (r: String)
    ensures
        r@ == "[#"@ + decimal_text(sequence as nat) + "] "@ + icon_of(event.event_type@) + " "@ + event.content@,
{
    let n = decimal(sequence as u64);
    let mut r = cat2("[#", n.as_str());
    r.append("] ");
    r.append(event_icon(event.event_type.as_str()));
    r.append(" ");
    r.append(event.content.as_str());
    r
}

}
