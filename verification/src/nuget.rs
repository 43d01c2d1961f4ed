//! Reading a NuGet feed's version index.

use vstd::prelude::*;
use crate::text::concat;
use crate::json::{JsonValue, entries_view, lookup, position_of_key};

verus! {

/// The version a NuGet version index (`{"versions": [...]}`) lists last, when
/// its `versions` member is a non-empty array ending in a string.
pub open spec fn last_listed_version(index: JsonValue) -> Option<Seq<char>> {
    match index {
        JsonValue::Object(entries) => match lookup(entries_view(entries@), "versions"@) {
            Some(JsonValue::Array(items)) => if items@.len() > 0 {
                match items@.last() {
                    JsonValue::String(s) => Some(s@),
                    _ => None,
                }
            } else {
                None
            },
            _ => None,
        },
        _ => None,
    }
}

/// The newest version of `package_id` in its version index: the one listed
/// last, or an error when the index lists none.
pub fn latest_version(package_id: &str, index: &JsonValue) -> (r: Result<String, String>)
    ensures
        match last_listed_version(*index) {
            Some(v) => r matches Ok(s) && s@ == v,
            None => r matches Err(e) && e@ == "no versions of "@ + package_id@ + " on the NuGet feed"@,
        },
        match *index {
            JsonValue::Object(entries) => match lookup(entries_view(entries@), "versions"@) {
                Some(JsonValue::Array(items)) => items@.len() > 0 && items@.last() is String ==> r is Ok
                    && r->Ok_0@ == items@.last()->String_0@,
                _ => true,
            },
            _ => true,
        },
{
    let found = match index {
        JsonValue::Object(entries) => match position_of_key(entries, "versions") {
            Some(i) => match &entries[i].1 {
                JsonValue::Array(items) => {
                    if items.len() > 0 {
                        match &items[items.len() - 1] {
                            JsonValue::String(s) => Some(s.clone()),
                            _ => None,
                        }
                    } else {
                        None
                    }
                },
                _ => None,
            },
            None => None,
        },
        _ => None,
    };
    match found {
        Some(v) => Ok(v),
        None => {
            let mut msg = concat("no versions of ", package_id);
            msg.append(" on the NuGet feed");
            Err(msg)
        },
    }
}

/// The feed lists versions oldest first, so the newest is the last one: an
/// index whose `versions` array ends in the string `v` yields `v`, however
/// many versions come before it.
pub proof fn law_latest_is_last(entries: Vec<(String, JsonValue)>, items: Vec<JsonValue>)
    requires
        lookup(entries_view(entries@), "versions"@) == Some(JsonValue::Array(items)),
        items@.len() > 0,
        items@.last() is String,
    ensures
        last_listed_version(JsonValue::Object(entries)) == Some(items@.last()->String_0@),
        last_listed_version(JsonValue::Object(entries)) == Some(items@[items@.len() - 1]->String_0@),
{
}

} // verus!
