//! JSON values, as the Discord API sends and takes them.
//!
//! An object keeps its entries in order; a lookup finds the first entry of
//! a key.

use vstd::prelude::*;
use crate::text::str_eq;

verus! {

/// A JSON number: a non-negative integer, a negative one, or any other
/// number, kept as the text it is written with.
#[derive(Debug, Clone, PartialEq, Eq)]
pub enum JsonNumber {
    PosInt(u64),
    NegInt(i64),
    Float(String),
}

/// A JSON value.
#[derive(Debug, PartialEq, Eq)]
pub enum JsonValue {
    Null,
    Bool(bool),
    Number(JsonNumber),
    String(String),
    Array(Vec<JsonValue>),
    Object(Vec<(String, JsonValue)>),
}

/// A JSON number, its text taken as characters.
pub ghost enum NumberView {
    PosInt(u64),
    NegInt(i64),
    Float(Seq<char>),
}

/// A JSON value, its texts taken as characters.
pub ghost enum JsonView {
    Null,
    Bool(bool),
    Number(NumberView),
    Str(Seq<char>),
    Array(Seq<JsonView>),
    Object(Seq<(Seq<char>, JsonView)>),
}

impl View for JsonNumber {
    type V = NumberView;

    open spec fn view(&self) -> NumberView {
        match self {
            JsonNumber::PosInt(n) => NumberView::PosInt(*n),
            JsonNumber::NegInt(n) => NumberView::NegInt(*n),
            JsonNumber::Float(s) => NumberView::Float(s@),
        }
    }
}

/// The values of a list of items.
pub open spec fn items_view(s: Seq<JsonValue>) -> Seq<JsonView> {
    s.map_values(|x: JsonValue| x@)
}

/// The keys and values of a list of entries.
pub open spec fn entries_view(es: Seq<(String, JsonValue)>) -> Seq<(Seq<char>, JsonView)> {
    Seq::new(es.len(), |i: int| (es[i].0@, json_view(es[i].1)))
}

/// The view of a JSON value.
pub open spec fn json_view(v: JsonValue) -> JsonView
    decreases v,
{
    match v {
        JsonValue::Null => JsonView::Null,
        JsonValue::Bool(b) => JsonView::Bool(b),
        JsonValue::Number(n) => JsonView::Number(n@),
        JsonValue::String(s) => JsonView::Str(s@),
        JsonValue::Array(items) => JsonView::Array(
            Seq::new(items@.len(), |i: int| if 0 <= i < items@.len() { json_view(items@[i]) } else { JsonView::Null }),
        ),
        JsonValue::Object(es) => JsonView::Object(
            Seq::new(es@.len(), |i: int| if 0 <= i < es@.len() { (es@[i].0@, json_view(es@[i].1)) } else { (Seq::empty(), JsonView::Null) }),
        ),
    }
}

impl View for JsonValue {
    type V = JsonView;

    open spec fn view(&self) -> JsonView {
        json_view(*self)
    }
}

/// The value of the first entry with the key `key`.
pub open spec fn entries_lookup(es: Seq<(Seq<char>, JsonView)>, key: Seq<char>) -> Option<JsonView>
    decreases es.len(),
{
    if es.len() == 0 {
        None
    } else if es[0].0 == key {
        Some(es[0].1)
    } else {
        entries_lookup(es.drop_first(), key)
    }
}

/// The value under `key` of an object; none for a missing key or a value
/// that is not an object.
pub open spec fn json_get(v: JsonView, key: Seq<char>) -> Option<JsonView> {
    match v {
        JsonView::Object(es) => entries_lookup(es, key),
        _ => None,
    }
}

/// The text of a string value.
pub open spec fn json_str(v: JsonView) -> Option<Seq<char>> {
    match v {
        JsonView::Str(s) => Some(s),
        _ => None,
    }
}

/// A number that is a `u64`, as `serde_json::Value::as_u64` reads it.
pub open spec fn json_u64(v: JsonView) -> Option<u64> {
    match v {
        JsonView::Number(NumberView::PosInt(n)) => Some(n),
        _ => None,
    }
}

/// A number that is an `i64`, as `serde_json::Value::as_i64` reads it.
pub open spec fn json_i64(v: JsonView) -> Option<i64> {
    match v {
        JsonView::Number(NumberView::PosInt(n)) => if n <= i64::MAX as u64 { Some(n as i64) } else { None },
        JsonView::Number(NumberView::NegInt(n)) => Some(n),
        _ => None,
    }
}

/// A boolean value.
pub open spec fn json_bool(v: JsonView) -> Option<bool> {
    match v {
        JsonView::Bool(b) => Some(b),
        _ => None,
    }
}

/// The items of an array value.
pub open spec fn json_array(v: JsonView) -> Option<Seq<JsonView>> {
    match v {
        JsonView::Array(items) => Some(items),
        _ => None,
    }
}

/// The value under `key`, as `value[key]` reads it: `Null` when there is
/// none.
pub open spec fn json_index(v: JsonView, key: Seq<char>) -> JsonView {
    match json_get(v, key) {
        Some(x) => x,
        None => JsonView::Null,
    }
}

/// The value under `key` of an optional value.
pub open spec fn opt_json_get(v: Option<JsonView>, key: Seq<char>) -> Option<JsonView> {
    match v {
        Some(v) => json_get(v, key),
        None => None,
    }
}


/// The position of the first entry with the key `key`, or -1.
pub open spec fn first_key_index(es: Seq<(Seq<char>, JsonView)>, key: Seq<char>) -> int
    decreases es.len(),
{
    if es.len() == 0 {
        -1
    } else if es[0].0 == key {
        0
    } else {
        let i = first_key_index(es.drop_first(), key);
        if i < 0 { -1 } else { i + 1 }
    }
}

pub proof fn lemma_first_key_index(es: Seq<(Seq<char>, JsonView)>, key: Seq<char>)
    ensures
        -1 <= first_key_index(es, key) < es.len(),
        first_key_index(es, key) >= 0 ==> es[first_key_index(es, key)].0 == key,
        forall|j: int| 0 <= j < es.len() && (first_key_index(es, key) < 0 || j < first_key_index(es, key)) ==> #[trigger] es[j].0 != key,
        entries_lookup(es, key) == if first_key_index(es, key) >= 0 { Some(es[first_key_index(es, key)].1) } else { None },
    decreases es.len(),
{
    if es.len() > 0 && es[0].0 != key {
        let t = es.drop_first();
        lemma_first_key_index(t, key);
        assert forall|j: int| 0 < j < es.len() implies #[trigger] es[j] == t[j - 1] by {}
    }
}

/// The entries after `key` was set to `val`: the first entry of the key
/// takes the value, or a new entry is added at the end.
pub open spec fn entries_set(es: Seq<(Seq<char>, JsonView)>, key: Seq<char>, val: JsonView) -> Seq<(Seq<char>, JsonView)> {
    let j = first_key_index(es, key);
    if j >= 0 {
        es.update(j, (key, val))
    } else {
        es.push((key, val))
    }
}

/// An object after `key` was set to `val`, as `value[key] = val` does on an
/// object.
pub open spec fn json_set(v: JsonView, key: Seq<char>, val: JsonView) -> JsonView {
    JsonView::Object(entries_set(object_entries(v), key, val))
}

/// A number that is a `u64`.
pub open spec fn json_num(n: u64) -> JsonView {
    JsonView::Number(NumberView::PosInt(n))
}

/// After `key` was set, reading it gives the value set, and the other keys
/// read as before.
pub proof fn law_json_set_get(v: JsonView, key: Seq<char>, val: JsonView, other: Seq<char>)
    requires
        v is Object,
    ensures
        json_get(json_set(v, key, val), key) == Some(val),
        other != key ==> json_get(json_set(v, key, val), other) == json_get(v, other),
{
    let es = object_entries(v);
    let es2 = entries_set(es, key, val);
    lemma_first_key_index(es, key);
    lemma_first_key_index(es2, key);
    lemma_first_key_index(es, other);
    lemma_first_key_index(es2, other);
    let j = first_key_index(es, key);
    let j2 = first_key_index(es2, key);
    if j >= 0 {
        assert(es2[j].0 == key);
        if j2 < j {
            assert(es2[j2] == es[j2]);
        }
    } else {
        assert(es2[es.len() as int].0 == key);
        if j2 < es.len() {
            assert(es2[j2] == es[j2]);
        }
    }
    if other != key {
        let o = first_key_index(es, other);
        let o2 = first_key_index(es2, other);
        if o >= 0 {
            assert(es2[o] == es[o]);
            if o2 >= 0 && o2 < o {
                assert(es2[o2].0 == es[o2].0);
            }
        } else if o2 >= 0 {
            if o2 < es.len() {
                assert(es2[o2].0 == es[o2].0);
            }
        }
    }
}


/// The position of the first entry with the key `key`, if any.
pub fn find_key(es: &Vec<(String, JsonValue)>, key: &str) -> (r: Option<usize>)
    ensures
        match r {
            Some(j) => j == first_key_index(entries_view(es@), key@),
            None => first_key_index(entries_view(es@), key@) == -1,
        },
{
    let ghost e = entries_view(es@);
    proof {
        lemma_first_key_index(e, key@);
    }
    let mut i: usize = 0;
    while i < es.len()
        invariant
            i <= es@.len(),
            e == entries_view(es@),
            -1 <= first_key_index(e, key@) < e.len(),
            forall|j: int| 0 <= j < e.len() && (first_key_index(e, key@) < 0 || j < first_key_index(e, key@)) ==> #[trigger] e[j].0 != key@,
            first_key_index(e, key@) >= 0 ==> e[first_key_index(e, key@)].0 == key@,
            forall|j: int| 0 <= j < i ==> #[trigger] e[j].0 != key@,
        decreases es@.len() - i,
    {
        if str_eq(es[i].0.as_str(), key) {
            proof {
                assert(e[i as int].0 == key@);
            }
            return Some(i);
        }
        proof {
            assert(e[i as int].0 != key@);
        }
        i += 1;
    }
    None
}

/// The number under `key`, if the value is an object that holds a `u64`
/// there.
pub fn get_u64(v: &JsonValue, key: &str) -> (r: Option<u64>)
    ensures
        r == json_u64(json_index(v@, key@)),
{
    match v.get(key) {
        Some(x) => x.as_u64(),
        None => None,
    }
}

/// The text under `key`, if the value is an object that holds a string
/// there.
pub fn get_str<'a>(v: &'a JsonValue, key: &str) -> (r: Option<&'a str>)
    ensures
        match r {
            Some(s) => json_str(json_index(v@, key@)) == Some(s@),
            None => json_str(json_index(v@, key@)) is None,
        },
{
    match v.get(key) {
        Some(x) => x.as_str(),
        None => None,
    }
}

/// A string value.
pub fn string_value(s: &str) -> (r: JsonValue)
    ensures
        r@ == JsonView::Str(s@),
{
    JsonValue::String(String::from_str(s))
}

/// A number value.
pub fn number_value(n: u64) -> (r: JsonValue)
    ensures
        r@ == json_num(n),
{
    JsonValue::Number(JsonNumber::PosInt(n))
}

/// An object value stands for the keys and values of its entries.
pub proof fn lemma_object_view(es: Vec<(String, JsonValue)>)
    ensures
        json_view(JsonValue::Object(es)) == JsonView::Object(entries_view(es@)),
{
    let v = json_view(JsonValue::Object(es));
    assert(object_entries(v) =~= entries_view(es@));
}

/// Sets `key` to `val` in a list of entries.
pub fn set_entry(es: &mut Vec<(String, JsonValue)>, key: &str, val: JsonValue)
    ensures
        entries_view(final(es)@) == entries_set(entries_view(old(es)@), key@, val@),
{
    let ghost e = entries_view(es@);
    proof {
        lemma_first_key_index(e, key@);
    }
    let mut i: usize = 0;
    while i < es.len()
        invariant
            i <= es@.len(),
            e == entries_view(es@),
            es@ == old(es)@,
            -1 <= first_key_index(e, key@) < e.len(),
            forall|j: int| 0 <= j < e.len() && (first_key_index(e, key@) < 0 || j < first_key_index(e, key@)) ==> #[trigger] e[j].0 != key@,
            first_key_index(e, key@) >= 0 ==> e[first_key_index(e, key@)].0 == key@,
            forall|j: int| 0 <= j < i ==> #[trigger] e[j].0 != key@,
        decreases es@.len() - i,
    {
        if str_eq(es[i].0.as_str(), key) {
            proof {
                assert(e[i as int].0 == key@);
                assert(first_key_index(e, key@) == i);
            }
            es.set(i, (String::from_str(key), val));
            proof {
                assert(entries_view(es@) =~= e.update(i as int, (key@, val@)));
            }
            return;
        }
        proof {
            assert(e[i as int].0 != key@);
        }
        i += 1;
    }
    proof {
        assert(first_key_index(e, key@) < 0);
    }
    es.push((String::from_str(key), val));
    proof {
        assert(entries_view(es@) =~= e.push((key@, val@)));
    }
}

/// A value found under a key is smaller than the object it was found in.
pub proof fn lemma_get_smaller(v: JsonView, key: Seq<char>)
    ensures
        json_get(v, key) matches Some(x) ==> decreases_to!(v => x),
{
    if let JsonView::Object(es) = v {
        lemma_first_key_index(es, key);
        let j = first_key_index(es, key);
        if j >= 0 {
            assert(decreases_to!(v => es[j].1));
        }
    }
}

/// The items of an array value are smaller than the array.
pub proof fn lemma_items_smaller(v: JsonView)
    ensures
        json_array(v) matches Some(items) ==> forall|i: int| 0 <= i < items.len() ==> decreases_to!(v => #[trigger] items[i]),
{
    if let JsonView::Array(items) = v {
        assert forall|i: int| 0 <= i < items.len() implies decreases_to!(v => #[trigger] items[i]) by {
            assert(decreases_to!(v => items));
        }
    }
}

/// The entries of an object value.
pub open spec fn object_entries(v: JsonView) -> Seq<(Seq<char>, JsonView)> {
    match v {
        JsonView::Object(es) => es,
        _ => Seq::empty(),
    }
}

pub open spec fn opt_json_view(v: Option<&JsonValue>) -> Option<JsonView> {
    match v {
        Some(v) => Some(v@),
        None => None,
    }
}

impl JsonValue {
    /// The value under `key`, if this is an object that holds the key.
    pub fn get(&self, key: &str) -> (r: Option<&JsonValue>)
        ensures
            opt_json_view(r) == json_get(self@, key@),
            r matches Some(x) ==> decreases_to!(*self => *x),
    {
        match self {
            JsonValue::Object(es) => {
                let ghost e = object_entries(self@);
                proof {
                    assert(e.len() == es@.len());
                    assert forall|j: int| 0 <= j < es@.len() implies #[trigger] e[j] == (es@[j].0@, es@[j].1@) by {}
                    assert(e.skip(0) =~= e);
                }
                let mut i: usize = 0;
                while i < es.len()
                    invariant
                        i <= es@.len(),
                        e.len() == es@.len(),
                        forall|j: int| 0 <= j < es@.len() ==> #[trigger] e[j] == (es@[j].0@, es@[j].1@),
                        json_get(self@, key@) == entries_lookup(e.skip(i as int), key@),
                        *self == JsonValue::Object(*es),
                    decreases es@.len() - i,
                {
                    proof {
                        assert(e.skip(i as int)[0] == e[i as int]);
                        assert(e.skip(i as int).drop_first() =~= e.skip(i + 1));
                    }
                    if str_eq(es[i].0.as_str(), key) {
                        proof {
                            assert(decreases_to!(*self => *es));
                            assert(decreases_to!(*es => es@));
                            assert(decreases_to!(es@ => es@[i as int]));
                            assert(decreases_to!(es@[i as int] => es@[i as int].1));
                            assert(decreases_to!(*self => es@[i as int].1));
                        }
                        return Some(&es[i].1);
                    }
                    i += 1;
                }
                proof {
                    assert(e.skip(i as int).len() == 0);
                }
                None
            },
            _ => None,
        }
    }

    /// The text, if this is a string.
    /// A copy of the value.
    pub fn deep_clone(&self) -> (r: JsonValue)
        ensures
            r@ == self@,
        decreases self,
    {
        match self {
            JsonValue::Null => JsonValue::Null,
            JsonValue::Bool(b) => JsonValue::Bool(*b),
            JsonValue::Number(n) => JsonValue::Number(match n {
                JsonNumber::PosInt(x) => JsonNumber::PosInt(*x),
                JsonNumber::NegInt(x) => JsonNumber::NegInt(*x),
                JsonNumber::Float(t) => JsonNumber::Float(t.clone()),
            }),
            JsonValue::String(s) => JsonValue::String(s.clone()),
            JsonValue::Array(items) => {
                let mut out: Vec<JsonValue> = Vec::new();
                let mut i: usize = 0;
                while i < items.len()
                    invariant
                        *self == JsonValue::Array(*items),
                        i <= items.len(),
                        out@.len() == i,
                        forall|j: int| 0 <= j < i ==> (#[trigger] out@[j])@ == items@[j]@,
                    decreases items.len() - i,
                {
                    proof {
                        assert(decreases_to!(*self => self->Array_0));
                        assert(self->Array_0 == *items);
                        assert(decreases_to!(items => items@));
                        assert(decreases_to!(items@ => items@[i as int]));
                        assert(decreases_to!(self => items@[i as int]));
                    }
                    out.push(items[i].deep_clone());
                    i = i + 1;
                }
                let r = JsonValue::Array(out);
                assert(json_array(r@).unwrap() =~= json_array(self@).unwrap());
                r
            },
            JsonValue::Object(es) => {
                let mut out: Vec<(String, JsonValue)> = Vec::new();
                let mut i: usize = 0;
                while i < es.len()
                    invariant
                        *self == JsonValue::Object(*es),
                        i <= es.len(),
                        out@.len() == i,
                        forall|j: int| 0 <= j < i ==> (#[trigger] out@[j]).0@ == es@[j].0@ && out@[j].1@ == es@[j].1@,
                    decreases es.len() - i,
                {
                    proof {
                        assert(decreases_to!(*self => self->Object_0));
                        assert(self->Object_0 == *es);
                        assert(decreases_to!(es => es@));
                        assert(decreases_to!(es@ => es@[i as int]));
                        assert(decreases_to!(es@[i as int] => es@[i as int].1));
                        assert(decreases_to!(self => es@[i as int].1));
                    }
                    out.push((es[i].0.clone(), es[i].1.deep_clone()));
                    i = i + 1;
                }
                let r = JsonValue::Object(out);
                assert(object_entries(r@) =~= object_entries(self@));
                r
            },
        }
    }

    pub fn as_str(&self) -> (r: Option<&str>)
        ensures
            match r {
                Some(s) => json_str(self@) == Some(s@),
                None => json_str(self@) is None,
            },
    {
        match self {
            JsonValue::String(s) => Some(s.as_str()),
            _ => None,
        }
    }

    /// The number, if this is a `u64`.
    pub fn as_u64(&self) -> (r: Option<u64>)
        ensures
            r == json_u64(self@),
    {
        match self {
            JsonValue::Number(JsonNumber::PosInt(n)) => Some(*n),
            _ => None,
        }
    }

    /// The number, if this is an `i64`.
    pub fn as_i64(&self) -> (r: Option<i64>)
        ensures
            r == json_i64(self@),
    {
        match self {
            JsonValue::Number(JsonNumber::PosInt(n)) => {
                if *n <= i64::MAX as u64 {
                    Some(*n as i64)
                } else {
                    None
                }
            },
            JsonValue::Number(JsonNumber::NegInt(n)) => Some(*n),
            _ => None,
        }
    }

    /// The value, if this is a boolean.
    pub fn as_bool(&self) -> (r: Option<bool>)
        ensures
            r == json_bool(self@),
    {
        match self {
            JsonValue::Bool(b) => Some(*b),
            _ => None,
        }
    }

    /// The items, if this is an array.
    pub fn as_array(&self) -> (r: Option<&Vec<JsonValue>>)
        ensures
            match r {
                Some(v) => json_array(self@) == Some(items_view(v@)),
                None => json_array(self@) is None,
            },
            r matches Some(v) ==> forall|i: int| 0 <= i < v@.len() ==> decreases_to!(*self => #[trigger] v@[i]),
    {
        match self {
            JsonValue::Array(v) => {
                proof {
                    let items = json_array(self@).unwrap();
                    assert(items.len() == v@.len());
                    assert forall|j: int| 0 <= j < v@.len() implies #[trigger] items[j] == v@[j]@ by {}
                    assert(items =~= items_view(v@));
                    assert forall|i: int| 0 <= i < v@.len() implies decreases_to!(*self => #[trigger] v@[i]) by {
                        assert(decreases_to!(*self => *v));
                    }
                }
                Some(v)
            },
            _ => None,
        }
    }

    /// Whether this is `null`.
    pub fn is_null(&self) -> (r: bool)
        ensures
            r == (self@ == JsonView::Null),
    {
        match self {
            JsonValue::Null => true,
            _ => false,
        }
    }
}

/// A string, or `null` when there is none.
pub open spec fn str_or_null(o: Option<Seq<char>>) -> JsonView {
    match o {
        Some(s) => JsonView::Str(s),
        None => JsonView::Null,
    }
}

/// A number, or `null` when there is none.
pub open spec fn u64_or_null(o: Option<u64>) -> JsonView {
    match o {
        Some(n) => json_num(n),
        None => JsonView::Null,
    }
}

/// A boolean, or `null` when there is none.
pub open spec fn bool_or_null(o: Option<bool>) -> JsonView {
    match o {
        Some(b) => JsonView::Bool(b),
        None => JsonView::Null,
    }
}

/// An optional string as a value.
pub fn opt_string_json(o: &Option<String>) -> (r: JsonValue)
    ensures
        r@ == str_or_null(crate::models::common::opt_view(*o)),
{
    match o {
        Some(s) => JsonValue::String(s.clone()),
        None => JsonValue::Null,
    }
}

/// An optional number as a value.
pub fn opt_u64_json(o: Option<u64>) -> (r: JsonValue)
    ensures
        r@ == u64_or_null(o),
{
    match o {
        Some(n) => JsonValue::Number(JsonNumber::PosInt(n)),
        None => JsonValue::Null,
    }
}

/// An optional boolean as a value.
pub fn opt_bool_json(o: Option<bool>) -> (r: JsonValue)
    ensures
        r@ == bool_or_null(o),
{
    match o {
        Some(b) => JsonValue::Bool(b),
        None => JsonValue::Null,
    }
}

/// A string as a value.
pub fn string_json(s: &String) -> (r: JsonValue)
    ensures
        r@ == JsonView::Str(s@),
{
    JsonValue::String(s.clone())
}

} // verus!
