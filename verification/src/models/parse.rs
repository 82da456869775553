//! Reading the fields of a payload as the derived deserializers of the
//! models do: a missing or `null` optional field is none, a field of the
//! wrong type is an error.

use vstd::prelude::*;
use crate::json::{items_view, json_array, json_bool, json_get, json_i64, json_str, json_u64, JsonValue, JsonView};
use crate::models::ids::{snowflakes_view, Snowflake};

verus! {

/// An optional string field: missing or `null` is none; a string is read;
/// anything else is refused.
pub open spec fn de_opt_str(f: Option<JsonView>) -> Option<Option<Seq<char>>> {
    match f {
        None => Some(None),
        Some(JsonView::Null) => Some(None),
        Some(x) => match json_str(x) {
            Some(s) => Some(Some(s)),
            None => None,
        },
    }
}

/// An optional `u64` field.
pub open spec fn de_opt_u64(f: Option<JsonView>) -> Option<Option<u64>> {
    match f {
        None => Some(None),
        Some(JsonView::Null) => Some(None),
        Some(x) => match json_u64(x) {
            Some(n) => Some(Some(n)),
            None => None,
        },
    }
}

/// An optional `i64` field.
pub open spec fn de_opt_i64(f: Option<JsonView>) -> Option<Option<i64>> {
    match f {
        None => Some(None),
        Some(JsonView::Null) => Some(None),
        Some(x) => match json_i64(x) {
            Some(n) => Some(Some(n)),
            None => None,
        },
    }
}

/// An optional boolean field.
pub open spec fn de_opt_bool(f: Option<JsonView>) -> Option<Option<bool>> {
    match f {
        None => Some(None),
        Some(JsonView::Null) => Some(None),
        Some(x) => match json_bool(x) {
            Some(b) => Some(Some(b)),
            None => None,
        },
    }
}

pub open spec fn opt_opt_view(o: Option<Option<String>>) -> Option<Option<Seq<char>>> {
    match o {
        None => None,
        Some(None) => Some(None),
        Some(Some(s)) => Some(Some(s@)),
    }
}

/// Reads an optional string field.
pub fn read_opt_str(raw: &JsonValue, key: &str) -> (r: Option<Option<String>>)
    ensures
        opt_opt_view(r) == de_opt_str(json_get(raw@, key@)),
{
    match raw.get(key) {
        None => Some(None),
        Some(x) => {
            if x.is_null() {
                Some(None)
            } else {
                match x.as_str() {
                    Some(s) => Some(Some(String::from_str(s))),
                    None => None,
                }
            }
        },
    }
}

/// Reads an optional `u64` field.
pub fn read_opt_u64(raw: &JsonValue, key: &str) -> (r: Option<Option<u64>>)
    ensures
        r == de_opt_u64(json_get(raw@, key@)),
{
    match raw.get(key) {
        None => Some(None),
        Some(x) => {
            if x.is_null() {
                Some(None)
            } else {
                match x.as_u64() {
                    Some(n) => Some(Some(n)),
                    None => None,
                }
            }
        },
    }
}

/// Reads an optional `i64` field.
pub fn read_opt_i64(raw: &JsonValue, key: &str) -> (r: Option<Option<i64>>)
    ensures
        r == de_opt_i64(json_get(raw@, key@)),
{
    match raw.get(key) {
        None => Some(None),
        Some(x) => {
            if x.is_null() {
                Some(None)
            } else {
                match x.as_i64() {
                    Some(n) => Some(Some(n)),
                    None => None,
                }
            }
        },
    }
}

/// Reads an optional boolean field.
pub fn read_opt_bool(raw: &JsonValue, key: &str) -> (r: Option<Option<bool>>)
    ensures
        r == de_opt_bool(json_get(raw@, key@)),
{
    match raw.get(key) {
        None => Some(None),
        Some(x) => {
            if x.is_null() {
                Some(None)
            } else {
                match x.as_bool() {
                    Some(b) => Some(Some(b)),
                    None => None,
                }
            }
        },
    }
}

/// A list of strings: an array whose items all are strings.
pub open spec fn de_str_list(v: JsonView) -> Option<Seq<Seq<char>>> {
    match json_array(v) {
        Some(items) => if forall|i: int| 0 <= i < items.len() ==> (#[trigger] json_str(items[i])) is Some {
            Some(items.map_values(|x: JsonView| json_str(x).unwrap()))
        } else {
            None
        },
        None => None,
    }
}

/// Reads a list of snowflakes, written as strings.
pub fn read_snowflake_list(raw: &JsonValue) -> (r: Option<Vec<Snowflake>>)
    ensures
        match r {
            Some(v) => de_str_list(raw@) == Some(snowflakes_view(v@)),
            None => de_str_list(raw@) is None,
        },
{
    let items = match raw.as_array() {
        Some(items) => items,
        None => return None,
    };
    let ghost iv = items_view(items@);
    let mut out: Vec<Snowflake> = Vec::new();
    let mut i: usize = 0;
    while i < items.len()
        invariant
            i <= items@.len(),
            iv == items_view(items@),
            json_array(raw@) == Some(iv),
            out@.len() == i,
            forall|j: int| 0 <= j < i ==> (#[trigger] json_str(iv[j])) is Some && out@[j]@ == json_str(iv[j]).unwrap(),
        decreases items@.len() - i,
    {
        match items[i].as_str() {
            Some(s) => {
                out.push(Snowflake(String::from_str(s)));
            },
            None => {
                proof {
                    assert(json_str(iv[i as int]) is None);
                }
                return None;
            },
        }
        i += 1;
    }
    proof {
        assert(snowflakes_view(out@) =~= iv.map_values(|x: JsonView| json_str(x).unwrap()));
    }
    Some(out)
}

} // verus!
