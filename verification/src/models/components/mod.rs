//! The parts of a message: colors, emojis, embeds, stickers and the
//! interactive components.

pub mod embed;
pub mod message_components;
pub mod sticker;

use vstd::prelude::*;
use crate::json::{bool_or_null, get_str, json_get, json_index, json_str, object_entries, opt_bool_json, opt_string_json, str_or_null, string_json, JsonValue, JsonView};
use crate::models::parse::{de_opt_bool, de_opt_str, de_str_list, read_opt_bool, read_opt_str, read_snowflake_list};
use crate::models::user::{user_from_json, user_json};
use crate::models::{read_as, ModelError, ModelErrorKind};
use crate::models::common::{opt_str_eq, opt_view};
use crate::models::guild::opt_user_view;
use crate::models::ids::{clone_snowflakes, opt_snowflake_view, snowflakes_eq, snowflakes_view, Snowflake};
use crate::models::user::{User, UserView};
use crate::text::{parse_hex_u64, parse_hex_u64_spec, remove_all, remove_char, str_to_chars};

verus! {

/// A color, as the number `0xRRGGBB`.
#[derive(Debug, Clone, Copy, PartialEq, Eq, Structural)]
pub struct Color(pub u64);

/// The number of a color written in hexadecimal, `#` signs left out; a text
/// that is no such number gives black.
pub open spec fn hex_color_value(s: Seq<char>) -> u64 {
    match parse_hex_u64_spec(remove_char(s, '#')) {
        Some(n) => n,
        None => 0,
    }
}

impl Color {
    /// The color of the embeds the bot sends.
    pub fn embed_color() -> (r: Color)
        ensures
            r.0 == 2829617,
    {
        Color(2829617)
    }

    /// The color written in hexadecimal, with or without `#`; black when the
    /// text is no such number.
    pub fn from_hex(hex: &str) -> (r: Color)
        ensures
            r.0 == hex_color_value(hex@),
    {
        let chars = str_to_chars(hex);
        let digits = remove_all(chars.as_slice(), '#');
        match parse_hex_u64(digits.as_slice()) {
            Some(n) => Color(n),
            None => Color(0),
        }
    }

    /// The color of the given red, green and blue parts.
    pub fn from_rgb(r: u8, g: u8, b: u8) -> (c: Color)
        ensures
            c.0 == r * 65536 + g * 256 + b,
    {
        let v = (r as u64) << 16u64 | (g as u64) << 8u64 | b as u64;
        assert((r as u64) << 16u64 | (g as u64) << 8u64 | b as u64 == (r as u64) * 65536 + (g as u64) * 256 + (b as u64)) by (bit_vector);
        Color(v)
    }
}

impl From<String> for Color {
    fn from(color: String) -> (r: Color) {
        Color::from_hex(color.as_str())
    }
}

impl vstd::std_specs::convert::FromSpecImpl<String> for Color {
    open spec fn obeys_from_spec() -> bool {
        true
    }

    open spec fn from_spec(color: String) -> Color {
        Color(hex_color_value(color@))
    }
}

/// An emoji.
#[derive(Debug, PartialEq, Eq)]
pub struct Emoji {
    pub id: Option<Snowflake>,
    pub name: String,
    /// The roles allowed to use this emoji.
    pub roles: Vec<Snowflake>,
    /// The user that created this emoji.
    pub user: Option<User>,
    /// Whether this emoji must be wrapped in colons.
    pub require_colons: Option<bool>,
    /// Whether this emoji is managed.
    pub managed: Option<bool>,
    /// Whether this emoji is animated.
    pub animated: Option<bool>,
    /// Whether this emoji is available.
    pub available: Option<bool>,
}

/// The values of a emoji, its texts taken as characters.
pub ghost struct EmojiView {
    pub id: Option<Seq<char>>,
    pub name: Seq<char>,
    pub roles: Seq<Seq<char>>,
    pub user: Option<UserView>,
    pub require_colons: Option<bool>,
    pub managed: Option<bool>,
    pub animated: Option<bool>,
    pub available: Option<bool>,
}

impl View for Emoji {
    type V = EmojiView;

    open spec fn view(&self) -> EmojiView {
        EmojiView {
            id: opt_snowflake_view(self.id),
            name: self.name@,
            roles: snowflakes_view(self.roles@),
            user: opt_user_view(self.user),
            require_colons: self.require_colons,
            managed: self.managed,
            animated: self.animated,
            available: self.available,
        }
    }
}

impl Clone for Emoji {
    fn clone(&self) -> (r: Emoji)
        ensures
            r@ == self@,
    {
        Emoji {
            id: self.id.clone(),
            name: self.name.clone(),
            roles: clone_snowflakes(&self.roles),
            user: self.user.clone(),
            require_colons: self.require_colons,
            managed: self.managed,
            animated: self.animated,
            available: self.available,
        }
    }
}

impl Emoji {
    /// An emoji of the given id and name, with nothing else known of it.
    pub fn new(id: Option<Snowflake>, name: &str) -> (r: Emoji)
        ensures
            r@ == (EmojiView {
                id: opt_snowflake_view(id),
                name: name@,
                roles: Seq::empty(),
                user: None,
                require_colons: None,
                managed: None,
                animated: None,
                available: None,
            }),
    {
        let r = Emoji {
            id,
            name: String::from_str(name),
            roles: Vec::new(),
            user: None,
            require_colons: None,
            managed: None,
            animated: None,
            available: None,
        };
        proof {
            assert(snowflakes_view(r.roles@) =~= Seq::empty());
        }
        r
    }

    /// The emoji as the API takes it in a component: its id, or `null`, and
    /// its name.
    pub fn to_json(&self) -> (r: JsonValue)
        ensures
            r@ == JsonView::Object(seq![
                ("id"@, snowflake_or_null(self.id)),
                ("name"@, JsonView::Str(self.name@)),
            ]),
    {
        let id = match &self.id {
            Some(i) => JsonValue::String(i.0.clone()),
            None => JsonValue::Null,
        };
        assert(id@ == snowflake_or_null(self.id));
        let mut es: Vec<(String, JsonValue)> = Vec::new();
        es.push((String::from_str("id"), id));
        let name = JsonValue::String(self.name.clone());
        assert(name@ == JsonView::Str(self.name@));
        es.push((String::from_str("name"), name));
        let r = JsonValue::Object(es);
        proof {
            let expected = seq![
                ("id"@, snowflake_or_null(self.id)),
                ("name"@, JsonView::Str(self.name@)),
            ];
            let got = object_entries(r@);
            assert(got.len() == 2);
            assert(got[0] == expected[0]);
            assert(got[1] == expected[1]);
            assert(got =~= expected);
        }
        r
    }
}

impl Emoji {
    /// Whether two values hold the same fields.
    pub fn same(&self, other: &Emoji) -> (r: bool)
        ensures
            r == (self@ == other@),
    {
        self.id == other.id
            && self.name == other.name
            && snowflakes_eq(&self.roles, &other.roles)
            && opt_user_eq(&self.user, &other.user)
            && self.require_colons == other.require_colons
            && self.managed == other.managed
            && self.animated == other.animated
            && self.available == other.available
    }
}

pub open spec fn opt_emoji_view(o: Option<Emoji>) -> Option<EmojiView> {
    match o {
        Some(x) => Some(x@),
        None => None,
    }
}

/// Whether two optional values hold the same fields.
pub fn opt_emoji_eq(a: &Option<Emoji>, b: &Option<Emoji>) -> (r: bool)
    ensures
        r == (opt_emoji_view(*a) == opt_emoji_view(*b)),
{
    match (a, b) {
        (Some(x), Some(y)) => x.same(y),
        (None, None) => true,
        _ => false,
    }
}

/// A copy of an optional value.
pub fn clone_opt_emoji(a: &Option<Emoji>) -> (r: Option<Emoji>)
    ensures
        opt_emoji_view(r) == opt_emoji_view(*a),
{
    match a {
        Some(x) => Some(x.clone()),
        None => None,
    }
}
/// A snowflake as a JSON string, or `null`.
pub open spec fn snowflake_or_null(o: Option<Snowflake>) -> JsonView {
    match o {
        Some(i) => JsonView::Str(i@),
        None => JsonView::Null,
    }
}

/// Whether two optional users hold the same values.
pub fn opt_user_eq(a: &Option<User>, b: &Option<User>) -> (r: bool)
    ensures
        r == (opt_user_view(*a) == opt_user_view(*b)),
{
    match (a, b) {
        (Some(x), Some(y)) => x.same(y),
        (None, None) => true,
        _ => false,
    }
}

/// An optional user field.
pub open spec fn de_opt_user(f: Option<JsonView>) -> Option<Option<UserView>> {
    match f {
        None => Some(None),
        Some(JsonView::Null) => Some(None),
        Some(x) => match user_from_json(x) {
            Ok(u) => Some(Some(u)),
            Err(_) => None,
        },
    }
}

/// Reads an optional user field.
pub fn read_opt_user(raw: &JsonValue, key: &str) -> (r: Option<Option<User>>)
    ensures
        match r {
            None => de_opt_user(json_get(raw@, key@)) is None,
            Some(u) => de_opt_user(json_get(raw@, key@)) == Some(opt_user_view(u)),
        },
{
    match raw.get(key) {
        None => Some(None),
        Some(x) => {
            if x.is_null() {
                Some(None)
            } else {
                match User::from_raw(x) {
                    Ok(u) => Some(Some(u)),
                    Err(_) => None,
                }
            }
        },
    }
}

/// The emoji a payload stands for, as the derived deserializer reads it:
/// `name` and the list `roles` must be there.
pub open spec fn emoji_from_json(v: JsonView) -> Result<EmojiView, ModelErrorKind> {
    let id = de_opt_str(json_get(v, "id"@));
    let name = json_str(json_index(v, "name"@));
    let roles = de_str_list(json_index(v, "roles"@));
    let user = de_opt_user(json_get(v, "user"@));
    let require_colons = de_opt_bool(json_get(v, "require_colons"@));
    let managed = de_opt_bool(json_get(v, "managed"@));
    let animated = de_opt_bool(json_get(v, "animated"@));
    let available = de_opt_bool(json_get(v, "available"@));
    if v is Object && id is Some && name is Some && roles is Some && user is Some && require_colons is Some
        && managed is Some && animated is Some && available is Some {
        Ok(EmojiView {
            id: id.unwrap(),
            name: name.unwrap(),
            roles: roles.unwrap(),
            user: user.unwrap(),
            require_colons: require_colons.unwrap(),
            managed: managed.unwrap(),
            animated: animated.unwrap(),
            available: available.unwrap(),
        })
    } else {
        Err(ModelErrorKind::InvalidPayload)
    }
}

impl Emoji {
    /// Reads an emoji from a payload.
    pub fn from_raw(raw: &JsonValue) -> (r: Result<Emoji, ModelError>)
        ensures
            read_as(r, emoji_from_json(raw@)),
    {
        let bad = ModelError::InvalidPayload(String::from_str("Emoji"));
        match raw {
            JsonValue::Object(_) => {},
            _ => return Err(bad),
        }
        let id = match read_opt_str(raw, "id") {
            Some(x) => x,
            None => return Err(bad),
        };
        let name = match get_str(raw, "name") {
            Some(s) => s,
            None => return Err(bad),
        };
        let roles = match raw.get("roles") {
            Some(x) => match read_snowflake_list(x) {
                Some(v) => v,
                None => return Err(bad),
            },
            None => return Err(bad),
        };
        let user = match read_opt_user(raw, "user") {
            Some(x) => x,
            None => return Err(bad),
        };
        let require_colons = match read_opt_bool(raw, "require_colons") {
            Some(x) => x,
            None => return Err(bad),
        };
        let managed = match read_opt_bool(raw, "managed") {
            Some(x) => x,
            None => return Err(bad),
        };
        let animated = match read_opt_bool(raw, "animated") {
            Some(x) => x,
            None => return Err(bad),
        };
        let available = match read_opt_bool(raw, "available") {
            Some(x) => x,
            None => return Err(bad),
        };
        let id = match id {
            Some(s) => Some(Snowflake(s)),
            None => None,
        };
        Ok(Emoji { id, name: String::from_str(name), roles, user, require_colons, managed, animated, available })
    }
}

/// A list of texts as an array of strings.
pub open spec fn strings_json(s: Seq<Seq<char>>) -> JsonView {
    JsonView::Array(s.map_values(|x: Seq<char>| JsonView::Str(x)))
}

/// A list of snowflakes as an array of strings.
pub fn snowflakes_json(v: &Vec<Snowflake>) -> (r: JsonValue)
    ensures
        r@ == strings_json(snowflakes_view(v@)),
{
    let mut items: Vec<JsonValue> = Vec::new();
    let mut i: usize = 0;
    while i < v.len()
        invariant
            i <= v@.len(),
            items@.len() == i,
            forall|j: int| 0 <= j < i ==> #[trigger] items@[j]@ == JsonView::Str(v@[j]@),
        decreases v@.len() - i,
    {
        items.push(JsonValue::String(v[i].0.clone()));
        i += 1;
    }
    let r = JsonValue::Array(items);
    proof {
        let got = match r@ { JsonView::Array(x) => x, _ => Seq::empty() };
        assert(got.len() == v@.len());
        assert forall|j: int| 0 <= j < got.len() implies got[j] == strings_json(snowflakes_view(v@))->Array_0[j] by {
            assert(got[j] == items@[j]@);
        }
        assert(got =~= strings_json(snowflakes_view(v@))->Array_0);
    }
    r
}

/// An optional user as the derived serializer writes it, or `null`.
pub open spec fn opt_user_json(u: Option<UserView>) -> JsonView {
    match u {
        Some(u) => user_json(u),
        None => JsonView::Null,
    }
}

/// An emoji as the derived serializer writes it.
pub open spec fn emoji_value(e: EmojiView) -> JsonView {
    JsonView::Object(seq![
        ("animated"@, bool_or_null(e.animated)),
        ("available"@, bool_or_null(e.available)),
        ("id"@, str_or_null(e.id)),
        ("managed"@, bool_or_null(e.managed)),
        ("name"@, JsonView::Str(e.name)),
        ("require_colons"@, bool_or_null(e.require_colons)),
        ("roles"@, strings_json(e.roles)),
        ("user"@, opt_user_json(e.user)),
    ])
}

/// An optional emoji as the derived serializer writes it, or `null`.
pub open spec fn opt_emoji_value(e: Option<EmojiView>) -> JsonView {
    match e {
        Some(e) => emoji_value(e),
        None => JsonView::Null,
    }
}

impl Emoji {
    /// The emoji as the derived serializer writes it, all fields included.
    pub fn to_value(&self) -> (r: JsonValue)
        ensures
            r@ == emoji_value(self@),
    {
        let r_v0 = opt_bool_json(self.animated);
        assert(r_v0@ == bool_or_null(self@.animated));
        let r_v1 = opt_bool_json(self.available);
        assert(r_v1@ == bool_or_null(self@.available));
        let r_v2 = opt_string_json(&match &self.id { Some(i) => Some(i.0.clone()), None => None });
        assert(r_v2@ == str_or_null(self@.id));
        let r_v3 = opt_bool_json(self.managed);
        assert(r_v3@ == bool_or_null(self@.managed));
        let r_v4 = string_json(&self.name);
        assert(r_v4@ == JsonView::Str(self@.name));
        let r_v5 = opt_bool_json(self.require_colons);
        assert(r_v5@ == bool_or_null(self@.require_colons));
        let r_v6 = snowflakes_json(&self.roles);
        assert(r_v6@ == strings_json(self@.roles));
        let r_v7 = match &self.user { Some(u) => u.to_json(), None => JsonValue::Null };
        assert(r_v7@ == opt_user_json(self@.user));
        let mut r_es: Vec<(String, JsonValue)> = Vec::new();
        r_es.push((String::from_str("animated"), r_v0));
        r_es.push((String::from_str("available"), r_v1));
        r_es.push((String::from_str("id"), r_v2));
        r_es.push((String::from_str("managed"), r_v3));
        r_es.push((String::from_str("name"), r_v4));
        r_es.push((String::from_str("require_colons"), r_v5));
        r_es.push((String::from_str("roles"), r_v6));
        r_es.push((String::from_str("user"), r_v7));
        let r = JsonValue::Object(r_es);
        proof {
            let expected: Seq<(Seq<char>, JsonView)> = seq![("animated"@, bool_or_null(self@.animated)), ("available"@, bool_or_null(self@.available)), ("id"@, str_or_null(self@.id)), ("managed"@, bool_or_null(self@.managed)), ("name"@, JsonView::Str(self@.name)), ("require_colons"@, bool_or_null(self@.require_colons)), ("roles"@, strings_json(self@.roles)), ("user"@, opt_user_json(self@.user))];
            let got = object_entries(r@);
            assert(got.len() == 8);
            assert(got[0] == expected[0]);
            assert(got[1] == expected[1]);
            assert(got[2] == expected[2]);
            assert(got[3] == expected[3]);
            assert(got[4] == expected[4]);
            assert(got[5] == expected[5]);
            assert(got[6] == expected[6]);
            assert(got[7] == expected[7]);
            assert(got =~= expected);
        }
        r
    }
}

/// An optional emoji as the derived serializer writes it, or `null`.
pub fn opt_emoji_to_value(e: &Option<Emoji>) -> (r: JsonValue)
    ensures
        r@ == opt_emoji_value(opt_emoji_view(*e)),
{
    match e {
        Some(e) => e.to_value(),
        None => JsonValue::Null,
    }
}

} // verus!
