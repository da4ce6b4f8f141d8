//! JSON values rendered as text, for callers that want every payload as a string.
use vstd::prelude::*;
use crate::error::{Error, ErrorCode};
use crate::json::Json;
use crate::reply::{check_reply, is_success, Data};
use crate::request::{bool_text, json_bool, json_string, json_string_text};

verus! {

/// The compact JSON text of a value. Numbers keep their own text.
pub open spec fn json_text(j: Json) -> Seq<char>
    decreases j, 0nat,
{
    match j {
        Json::Null => "null"@,
        Json::Bool(b) => bool_text(b),
        Json::Number(t) => t@,
        Json::String(s) => json_string_text(s@),
        Json::Array(items) => "["@ + items_text(items@, items@.len()) + "]"@,
        Json::Object(entries) => "{"@ + entries_text(entries@, entries@.len()) + "}"@,
    }
}

/// The texts of the first `n` elements, separated by commas.
pub open spec fn items_text(items: Seq<Json>, n: nat) -> Seq<char>
    decreases items, n,
{
    if n == 0 || n > items.len() {
        Seq::empty()
    } else if n == 1 {
        json_text(items[0])
    } else {
        items_text(items, (n - 1) as nat) + ","@ + json_text(items[n - 1])
    }
}

/// The texts `"key":value` of the first `n` entries, separated by commas.
pub open spec fn entries_text(entries: Seq<(String, Json)>, n: nat) -> Seq<char>
    decreases entries, n,
{
    if n == 0 || n > entries.len() {
        Seq::empty()
    } else if n == 1 {
        entry_text(entries[0].0, entries[0].1)
    } else {
        entries_text(entries, (n - 1) as nat) + ","@ + entry_text(
            entries[n - 1].0,
            entries[n - 1].1,
        )
    }
}

pub open spec fn entry_text(key: String, value: Json) -> Seq<char>
    decreases value, 1nat,
{
    json_string_text(key@) + ":"@ + json_text(value)
}

/// Renders a value as compact JSON text.
pub fn json_to_text(j: &Json) -> (r: String)
    ensures
        r@ == json_text(*j),
    decreases j,
{
    match j {
        Json::Null => String::from_str("null"),
        Json::Bool(b) => json_bool(*b),
        Json::Number(t) => t.clone(),
        Json::String(s) => json_string(s.as_str()),
        Json::Array(items) => {
            let mut out = String::from_str("[");
            let inner = items_to_text(items);
            out.append(inner.as_str());
            out.append("]");
            out
        },
        Json::Object(entries) => {
            let mut out = String::from_str("{");
            let inner = entries_to_text(entries);
            out.append(inner.as_str());
            out.append("}");
            out
        },
    }
}

fn items_to_text(items: &Vec<Json>) -> (r: String)
    ensures
        r@ == items_text(items@, items@.len()),
    decreases items,
{
    let mut out = String::new();
    let mut i: usize = 0;
    while i < items.len()
        invariant
            i <= items@.len(),
            out@ == items_text(items@, i as nat),
        decreases items.len() - i,
    {
        let ghost before = out@;
        if i > 0 {
            out.append(",");
        }
        let t = json_to_text(&items[i]);
        out.append(t.as_str());
        proof {
            if i == 0 {
                assert(out@ =~= json_text(items@[0]));
            }
        }
        i += 1;
    }
    out
}

fn entries_to_text(entries: &Vec<(String, Json)>) -> (r: String)
    ensures
        r@ == entries_text(entries@, entries@.len()),
    decreases entries,
{
    let mut out = String::new();
    let mut i: usize = 0;
    while i < entries.len()
        invariant
            i <= entries@.len(),
            out@ == entries_text(entries@, i as nat),
        decreases entries.len() - i,
    {
        let ghost before = out@;
        if i > 0 {
            out.append(",");
        }
        let k = json_string(entries[i].0.as_str());
        out.append(k.as_str());
        out.append(":");
        let t = json_to_text(&entries[i].1);
        out.append(t.as_str());
        proof {
            let e = entry_text(entries@[i as int].0, entries@[i as int].1);
            if i > 0 {
                assert(out@ =~= before + ","@ + e);
            } else {
                assert(out@ =~= e);
            }
        }
        i += 1;
    }
    out
}

/// The text that a payload is shown as: a string as itself, any other value as
/// its JSON text.
pub open spec fn display_text(j: Json) -> Seq<char> {
    match j {
        Json::String(s) => s@,
        _ => json_text(j),
    }
}

/// Reads the payload of `reply` as text, whatever its type.
pub fn get_value_as_string(reply: &Data) -> (r: Result<String, Error>)
    ensures
        !is_success(reply.error@) ==> r == Err::<String, Error>(Error(ErrorCode::MpvError(reply.error))),
        is_success(reply.error@) ==> (r matches Ok(t) && t@ == display_text(reply.data)),
{
    match check_reply(reply)? {
        Json::String(s) => Ok(s.clone()),
        data => Ok(json_to_text(data)),
    }
}

} // verus!
