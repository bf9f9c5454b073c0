//! The JSON log entries that the checks read: `serde_json::Value`, its
//! contents as mathematical data, and the calls into serde_json that the
//! checks make.

use vstd::prelude::*;

verus! {

/// What a JSON value holds, as mathematical data.
pub enum JsonData {
    Null,
    Bool(bool),
    /// A number, by the text that serde_json prints for it.
    Number(Seq<char>),
    Str(Seq<char>),
    Array(Seq<JsonData>),
    /// An object's members, in the order in which its map keeps them.
    Object(Seq<(Seq<char>, JsonData)>),
}

#[verifier::external_type_specification]
#[verifier::external_body]
pub struct ExJsonValue(serde_json::Value);

/// The contents of a `serde_json::Value`.
pub uninterp spec fn json_model(v: serde_json::Value) -> JsonData;

/// What `serde_json::from_str::<Value>` gives for a text: `None` where the
/// text is not one JSON value, else the value's contents.
pub uninterp spec fn json_parse(text: Seq<char>) -> Option<JsonData>;

/// The text that serde_json's `Display` (`to_string`) prints for a value:
/// compact JSON.
pub uninterp spec fn json_text(v: JsonData) -> Seq<char>;

/// The contents of a sequence of values.
pub open spec fn models(vs: Seq<serde_json::Value>) -> Seq<JsonData> {
    vs.map_values(|v: serde_json::Value| json_model(v))
}

/// The contents of a sequence of borrowed values.
pub open spec fn ref_models(vs: Seq<&serde_json::Value>) -> Seq<JsonData> {
    vs.map_values(|v: &serde_json::Value| json_model(*v))
}

/// Looks `key` up among an object's members.
pub open spec fn member_lookup(members: Seq<(Seq<char>, JsonData)>, key: Seq<char>) -> Option<
    JsonData,
>
    decreases members.len(),
{
    if members.len() == 0 {
        None
    } else if members[0].0 == key {
        Some(members[0].1)
    } else {
        member_lookup(members.drop_first(), key)
    }
}

/// `value[key]` where the value is an object that has the key.
pub open spec fn json_lookup(v: JsonData, key: Seq<char>) -> Option<JsonData> {
    match v {
        JsonData::Object(members) => member_lookup(members, key),
        _ => None,
    }
}

/// The string at `key`, where there is one.
pub open spec fn str_at(v: JsonData, key: Seq<char>) -> Option<Seq<char>> {
    match json_lookup(v, key) {
        Some(JsonData::Str(s)) => Some(s),
        _ => None,
    }
}

/// The array at `key`, where there is one.
pub open spec fn array_at(v: JsonData, key: Seq<char>) -> Option<Seq<JsonData>> {
    match json_lookup(v, key) {
        Some(JsonData::Array(a)) => Some(a),
        _ => None,
    }
}

/// The items of a log entry's `message.content`, where it is an array.
pub open spec fn content_items(entry: JsonData) -> Seq<JsonData> {
    match json_lookup(entry, "message"@) {
        Some(m) => match array_at(m, "content"@) {
            Some(items) => items,
            None => Seq::empty(),
        },
        None => Seq::empty(),
    }
}

/// The content items of all entries of a log, entry by entry.
pub open spec fn log_items(log: Seq<JsonData>) -> Seq<JsonData>
    decreases log.len(),
{
    if log.len() == 0 {
        Seq::empty()
    } else {
        log_items(log.drop_last()) + content_items(log.last())
    }
}

/// Calls `serde_json::from_str::<Value>` on one line of text.
#[verifier::external_body]
pub(crate) fn parse_json(line: &str) -> (r: Option<serde_json::Value>)
    ensures
        r is Some <==> json_parse(line@) is Some,
        r matches Some(v) ==> json_parse(line@) == Some(json_model(v)),
{
    serde_json::from_str::<serde_json::Value>(line).ok()
}

/// Calls `Value::to_string` (its `Display`).
#[verifier::external_body]
pub(crate) fn json_to_string(v: &serde_json::Value) -> (r: String)
    ensures
        r@ == json_text(json_model(*v)),
{
    v.to_string()
}

/// Calls `Value::get` with a string key: the member of an object, `None`
/// for any other value or a missing key.
#[verifier::external_body]
pub(crate) fn json_get<'a>(v: &'a serde_json::Value, key: &str) -> (r: Option<&'a serde_json::Value>)
    ensures
        r is Some <==> json_lookup(json_model(*v), key@) is Some,
        r matches Some(x) ==> json_lookup(json_model(*v), key@) == Some(json_model(*x)),
{
    v.get(key)
}

/// Calls `Value::as_str`: the string of a string value, else `None`.
#[verifier::external_body]
pub(crate) fn json_as_str(v: &serde_json::Value) -> (r: Option<&str>)
    ensures
        r is Some <==> json_model(*v) is Str,
        r matches Some(s) ==> json_model(*v) == JsonData::Str(s@),
{
    v.as_str()
}

/// Calls `Value::as_array`: the elements of an array value, else `None`.
#[verifier::external_body]
pub(crate) fn json_as_array(v: &serde_json::Value) -> (r: Option<&Vec<serde_json::Value>>)
    ensures
        r is Some <==> json_model(*v) is Array,
        r matches Some(a) ==> json_model(*v) == JsonData::Array(models(a@)),
{
    v.as_array()
}

/// Calls `Value::as_bool`: the boolean of a boolean value, else `None`.
#[verifier::external_body]
pub(crate) fn json_as_bool(v: &serde_json::Value) -> (r: Option<bool>)
    ensures
        r is Some <==> json_model(*v) is Bool,
        r matches Some(b) ==> json_model(*v) == JsonData::Bool(b),
{
    v.as_bool()
}

/// The string at `key` of a value, where there is one.
pub fn get_str<'a>(v: &'a serde_json::Value, key: &str) -> (r: Option<&'a str>)
    ensures
        r is Some <==> str_at(json_model(*v), key@) is Some,
        r matches Some(s) ==> str_at(json_model(*v), key@) == Some(s@),
{
    match json_get(v, key) {
        Some(x) => json_as_str(x),
        None => None,
    }
}

/// The array at `key` of a value, where there is one.
pub fn get_array<'a>(v: &'a serde_json::Value, key: &str) -> (r: Option<&'a Vec<serde_json::Value>>)
    ensures
        r is Some <==> array_at(json_model(*v), key@) is Some,
        r matches Some(a) ==> array_at(json_model(*v), key@) == Some(models(a@)),
{
    match json_get(v, key) {
        Some(x) => json_as_array(x),
        None => None,
    }
}

/// The items of an entry's `message.content` array, where it has one.
pub fn entry_content_items<'a>(entry: &'a serde_json::Value) -> (r: Option<
    &'a Vec<serde_json::Value>,
>)
    ensures
        r matches Some(a) ==> content_items(json_model(*entry)) == models(a@),
        r is None ==> content_items(json_model(*entry)) == Seq::<JsonData>::empty(),
{
    match json_get(entry, "message") {
        Some(m) => get_array(m, "content"),
        None => None,
    }
}

/// The content items of all entries of a log, in order.
pub fn collect_items<'a>(log: &'a Vec<serde_json::Value>) -> (r: Vec<&'a serde_json::Value>)
    ensures
        ref_models(r@) == log_items(models(log@)),
{
    let mut out: Vec<&'a serde_json::Value> = Vec::new();
    let mut i: usize = 0;
    while i < log.len()
        invariant
            i <= log@.len(),
            ref_models(out@) == log_items(models(log@).take(i as int)),
        decreases log@.len() - i,
    {
        assert(models(log@).take(i + 1).drop_last() =~= models(log@).take(i as int));
        match entry_content_items(&log[i]) {
            Some(items) => {
                let ghost before = out@;
                let mut j: usize = 0;
                while j < items.len()
                    invariant
                        j <= items@.len(),
                        ref_models(out@) == ref_models(before) + models(items@).take(j as int),
                    decreases items@.len() - j,
                {
                    let ghost prev = out@;
                    out.push(&items[j]);
                    assert(ref_models(out@) =~= ref_models(prev).push(json_model(items@[j as int])));
                    assert(models(items@).take(j + 1) =~= models(items@).take(j as int).push(
                        json_model(items@[j as int]),
                    ));
                    j = j + 1;
                }
                assert(models(items@).take(j as int) =~= models(items@));
            },
            None => {
            },
        }
        i = i + 1;
    }
    assert(models(log@).take(i as int) =~= models(log@));
    out
}

/// The content items of two logs one after the other are those of the first,
/// then those of the second.
pub proof fn lemma_log_items_concat(a: Seq<JsonData>, b: Seq<JsonData>)
    ensures
        log_items(a + b) == log_items(a) + log_items(b),
    decreases b.len(),
{
    if b.len() == 0 {
        assert(a + b =~= a);
        assert(log_items(a) + log_items(b) =~= log_items(a));
    } else {
        lemma_log_items_concat(a, b.drop_last());
        assert((a + b).drop_last() =~= a + b.drop_last());
        assert((a + b).last() == b.last());
        assert(log_items(a) + log_items(b) =~= log_items(a) + log_items(b.drop_last()) + content_items(b.last()));
    }
}

}
