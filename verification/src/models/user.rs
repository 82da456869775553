//! Users: the client's own user, its application, the users of Discord,
//! and the addresses of their images.

use vstd::prelude::*;
use crate::cache::UpdateCache;
use crate::models::common::{is_animated_hash, opt_str_eq, opt_view};
use crate::models::ids::{Snowflake, UserId};
use crate::json::{bool_or_null, get_str, json_get, json_index, json_num, json_str, object_entries, opt_bool_json, opt_string_json, opt_u64_json, str_or_null, string_json, u64_or_null, JsonValue, JsonView};
use crate::models::parse::{de_opt_bool, de_opt_i64, de_opt_str, de_opt_u64, opt_opt_view, read_opt_bool, read_opt_i64, read_opt_str, read_opt_u64};
use crate::models::{kind_of, read_as, ModelError, ModelErrorKind};
use crate::text::{decimal, u64_to_string};

verus! {

/// The address of an image on Discord's CDN: the kind of image, the id of
/// its owner, the image hash, the file extension and the size asked for.
pub open spec fn cdn_url(kind: Seq<char>, id: Seq<char>, hash: Seq<char>, ext: Seq<char>, size: nat) -> Seq<char> {
    "https://cdn.discordapp.com/"@ + kind + "/"@ + id + "/"@ + hash + "."@ + ext + "?size="@ + decimal(size)
}

/// Whether an image hash names an animated image (it starts with `a_`).
pub open spec fn is_animated(hash: Seq<char>) -> bool {
    hash.len() >= 2 && hash[0] == 'a' && hash[1] == '_'
}

/// The extension an image is asked in: `gif` for an animated image when
/// animation is wanted, else the extension given.
pub open spec fn image_extension(hash: Seq<char>, dynamic: bool, extension: Seq<char>) -> Seq<char> {
    if dynamic && is_animated(hash) {
        "gif"@
    } else {
        extension
    }
}

/// The address of an optional image: none when there is no image hash.
pub open spec fn image_url(
    kind: Seq<char>,
    id: Seq<char>,
    hash: Option<Seq<char>>,
    dynamic: bool,
    extension: Seq<char>,
    size: nat,
) -> Option<Seq<char>> {
    match hash {
        None => None,
        Some(h) => Some(cdn_url(kind, id, h, image_extension(h, dynamic, extension), size)),
    }
}

/// Writes the address of an image on the CDN.
pub fn cdn_url_of(kind: &str, id: &str, hash: &str, ext: &str, size: usize) -> (s: String)
    ensures
        s@ == cdn_url(kind@, id@, hash@, ext@, size as nat),
{
    let mut s = String::from_str("https://cdn.discordapp.com/");
    s.append(kind);
    s.append("/");
    s.append(id);
    s.append("/");
    s.append(hash);
    s.append(".");
    s.append(ext);
    s.append("?size=");
    let n = u64_to_string(size as u64);
    s.append(n.as_str());
    s
}

/// Writes the address of an optional image, in the extension that
/// `image_extension` picks.
pub fn image_url_of(
    kind: &str,
    id: &str,
    hash: &Option<String>,
    dynamic: bool,
    extension: &str,
    size: usize,
) -> (r: Option<String>)
    ensures
        opt_view(r) == image_url(kind@, id@, opt_view(*hash), dynamic, extension@, size as nat),
{
    match hash {
        None => None,
        Some(h) => {
            if dynamic && is_animated_hash(h.as_str()) {
                Some(cdn_url_of(kind, id, h.as_str(), "gif", size))
            } else {
                Some(cdn_url_of(kind, id, h.as_str(), extension, size))
            }
        },
    }
}

/// The user of the client.
#[derive(Debug, Clone, PartialEq, Eq)]
pub struct ClientUser {
    pub avatar: Option<String>,
    pub bot: bool,
    pub discriminator: String,
    pub flags: Option<u32>,
    pub global_name: Option<String>,
    pub id: UserId,
    pub verified: bool,
    pub username: String,
    pub mfa_enabled: bool,
}

/// The values a client user holds, its texts taken as characters.
pub ghost struct ClientUserView {
    pub avatar: Option<Seq<char>>,
    pub bot: bool,
    pub discriminator: Seq<char>,
    pub flags: Option<u32>,
    pub global_name: Option<Seq<char>>,
    pub id: Seq<char>,
    pub verified: bool,
    pub username: Seq<char>,
    pub mfa_enabled: bool,
}

impl View for ClientUser {
    type V = ClientUserView;

    open spec fn view(&self) -> ClientUserView {
        ClientUserView {
            avatar: opt_view(self.avatar),
            bot: self.bot,
            discriminator: self.discriminator@,
            flags: self.flags,
            global_name: opt_view(self.global_name),
            id: self.id@,
            verified: self.verified,
            username: self.username@,
            mfa_enabled: self.mfa_enabled,
        }
    }
}

impl ClientUser {
    /// The name and the discriminator, joined by `#`.
    pub fn tag(&self) -> (s: String)
        ensures
            s@ == self.username@ + "#"@ + self.discriminator@,
    {
        let mut s = self.username.clone();
        s.append("#");
        s.append(self.discriminator.as_str());
        s
    }

    /// The address of the avatar, if the user has one.
    pub fn avatar_url(&self, size: usize, dynamic: bool, extension: &str) -> (r: Option<String>)
        ensures
            opt_view(r) == image_url("avatars"@, self.id@, opt_view(self.avatar), dynamic, extension@, size as nat),
    {
        image_url_of("avatars", self.id.0.0.as_str(), &self.avatar, dynamic, extension, size)
    }
}

impl UpdateCache for ClientUser {
    fn update(&mut self, from: &Self)
        ensures
            final(self)@ == from@,
    {
        if self.verified != from.verified {
            self.verified = from.verified;
        }
        if self.bot != from.bot {
            self.bot = from.bot;
        }
        if self.mfa_enabled != from.mfa_enabled {
            self.mfa_enabled = from.mfa_enabled;
        }
        if !opt_str_eq(&self.avatar, &from.avatar) {
            self.avatar = from.avatar.clone();
        }
        if self.discriminator != from.discriminator {
            self.discriminator = from.discriminator.clone();
        }
        if self.flags != from.flags {
            self.flags = from.flags;
        }
        if !opt_str_eq(&self.global_name, &from.global_name) {
            self.global_name = from.global_name.clone();
        }
        if self.id != from.id {
            self.id = from.id.clone();
        }
        if self.username != from.username {
            self.username = from.username.clone();
        }
    }
}

/// The application of the client.
#[derive(Debug, Clone, PartialEq, Eq)]
pub struct Application {
    pub flags: u64,
    pub id: Snowflake,
    pub public: Option<bool>,
    pub name: String,
    pub description: String,
    pub summary: String,
    pub cover_image: Option<String>,
}

/// The values an application holds, its texts taken as characters.
pub ghost struct ApplicationView {
    pub flags: u64,
    pub id: Seq<char>,
    pub public: Option<bool>,
    pub name: Seq<char>,
    pub description: Seq<char>,
    pub summary: Seq<char>,
    pub cover_image: Option<Seq<char>>,
}

impl View for Application {
    type V = ApplicationView;

    open spec fn view(&self) -> ApplicationView {
        ApplicationView {
            flags: self.flags,
            id: self.id@,
            public: self.public,
            name: self.name@,
            description: self.description@,
            summary: self.summary@,
            cover_image: opt_view(self.cover_image),
        }
    }
}

impl Application {
    /// The address of the application's icon, if it has a cover image.
    pub fn icon_url(&self, size: usize, extension: &str) -> (r: Option<String>)
        ensures
            opt_view(r) == image_url("app-icons"@, self.id@, opt_view(self.cover_image), false, extension@, size as nat),
    {
        image_url_of("app-icons", self.id.0.as_str(), &self.cover_image, false, extension, size)
    }
}

impl UpdateCache for Application {
    fn update(&mut self, from: &Self)
        ensures
            final(self)@ == from@,
    {
        if self.flags != from.flags {
            self.flags = from.flags;
        }
        if self.id != from.id {
            self.id = from.id.clone();
        }
        if self.public != from.public {
            self.public = from.public;
        }
        if self.name != from.name {
            self.name = from.name.clone();
        }
        if self.description != from.description {
            self.description = from.description.clone();
        }
        if self.summary != from.summary {
            self.summary = from.summary.clone();
        }
        if !opt_str_eq(&self.cover_image, &from.cover_image) {
            self.cover_image = from.cover_image.clone();
        }
    }
}

/// A user of Discord.
#[derive(Debug, PartialEq, Eq)]
pub struct User {
    pub id: UserId,
    pub username: String,
    pub discriminator: Option<String>,
    /// The user's display name, if it is set; for a bot, the name of its
    /// application.
    pub global_name: Option<String>,
    pub avatar: Option<String>,
    pub bot: Option<bool>,
    pub system: Option<bool>,
    pub banner: Option<String>,
    pub accent_color: Option<u64>,
    pub locale: Option<String>,
    pub flags: Option<u64>,
    pub public_flags: Option<u64>,
    pub premium_type: Option<NitroType>,
}

/// The values a user holds, its texts taken as characters.
pub ghost struct UserView {
    pub id: Seq<char>,
    pub username: Seq<char>,
    pub discriminator: Option<Seq<char>>,
    pub global_name: Option<Seq<char>>,
    pub avatar: Option<Seq<char>>,
    pub bot: Option<bool>,
    pub system: Option<bool>,
    pub banner: Option<Seq<char>>,
    pub accent_color: Option<u64>,
    pub locale: Option<Seq<char>>,
    pub flags: Option<u64>,
    pub public_flags: Option<u64>,
    pub premium_type: Option<NitroType>,
}

impl View for User {
    type V = UserView;

    open spec fn view(&self) -> UserView {
        UserView {
            id: self.id@,
            username: self.username@,
            discriminator: opt_view(self.discriminator),
            global_name: opt_view(self.global_name),
            avatar: opt_view(self.avatar),
            bot: self.bot,
            system: self.system,
            banner: opt_view(self.banner),
            accent_color: self.accent_color,
            locale: opt_view(self.locale),
            flags: self.flags,
            public_flags: self.public_flags,
            premium_type: self.premium_type,
        }
    }
}

impl Clone for User {
    fn clone(&self) -> (r: User)
        ensures
            r@ == self@,
    {
        User {
            id: self.id.clone(),
            username: self.username.clone(),
            discriminator: self.discriminator.clone(),
            global_name: self.global_name.clone(),
            avatar: self.avatar.clone(),
            bot: self.bot,
            system: self.system,
            banner: self.banner.clone(),
            accent_color: self.accent_color,
            locale: self.locale.clone(),
            flags: self.flags,
            public_flags: self.public_flags,
            premium_type: self.premium_type,
        }
    }
}

impl User {
    /// Whether two users hold the same values in every field.
    pub fn same(&self, other: &User) -> (r: bool)
        ensures
            r == (self@ == other@),
    {
        self.id == other.id && self.username == other.username
            && opt_str_eq(&self.discriminator, &other.discriminator)
            && opt_str_eq(&self.global_name, &other.global_name)
            && opt_str_eq(&self.avatar, &other.avatar) && self.bot == other.bot
            && self.system == other.system && opt_str_eq(&self.banner, &other.banner)
            && self.accent_color == other.accent_color
            && opt_str_eq(&self.locale, &other.locale) && self.flags == other.flags
            && self.public_flags == other.public_flags && self.premium_type == other.premium_type
    }

    /// The address of the avatar, if the user has one.
    pub fn avatar_url(&self, size: usize, dynamic: bool, extension: &str) -> (r: Option<String>)
        ensures
            opt_view(r) == image_url("avatars"@, self.id@, opt_view(self.avatar), dynamic, extension@, size as nat),
    {
        image_url_of("avatars", self.id.0.0.as_str(), &self.avatar, dynamic, extension, size)
    }

    /// The address of the banner, if the user has one.
    pub fn banner_url(&self, size: usize, dynamic: bool, extension: &str) -> (r: Option<String>)
        ensures
            opt_view(r) == image_url("banners"@, self.id@, opt_view(self.banner), dynamic, extension@, size as nat),
    {
        image_url_of("banners", self.id.0.0.as_str(), &self.banner, dynamic, extension, size)
    }
}

impl User {
    /// Takes the names and images of a fresher copy.
    fn update_identity(&mut self, from: &Self)
        ensures
            final(self).id@ == from.id@,
            final(self).username@ == from.username@,
            opt_view(final(self).discriminator) == opt_view(from.discriminator),
            opt_view(final(self).global_name) == opt_view(from.global_name),
            opt_view(final(self).avatar) == opt_view(from.avatar),
            opt_view(final(self).banner) == opt_view(from.banner),
            opt_view(final(self).locale) == opt_view(from.locale),
            final(self).bot == old(self).bot,
            final(self).system == old(self).system,
            final(self).accent_color == old(self).accent_color,
            final(self).flags == old(self).flags,
            final(self).public_flags == old(self).public_flags,
            final(self).premium_type == old(self).premium_type,
    {
        if self.id != from.id {
            self.id = from.id.clone();
        }
        if self.username != from.username {
            self.username = from.username.clone();
        }
        if !opt_str_eq(&self.discriminator, &from.discriminator) {
            self.discriminator = from.discriminator.clone();
        }
        if !opt_str_eq(&self.global_name, &from.global_name) {
            self.global_name = from.global_name.clone();
        }
        if !opt_str_eq(&self.avatar, &from.avatar) {
            self.avatar = from.avatar.clone();
        }
        if !opt_str_eq(&self.banner, &from.banner) {
            self.banner = from.banner.clone();
        }
        if !opt_str_eq(&self.locale, &from.locale) {
            self.locale = from.locale.clone();
        }
    }
}

impl UpdateCache for User {
    fn update(&mut self, from: &Self)
        ensures
            final(self)@ == from@,
    {
        self.update_identity(from);
        if self.bot != from.bot {
            self.bot = from.bot;
        }
        if self.system != from.system {
            self.system = from.system;
        }
        if self.accent_color != from.accent_color {
            self.accent_color = from.accent_color;
        }
        if self.flags != from.flags {
            self.flags = from.flags;
        }
        if self.public_flags != from.public_flags {
            self.public_flags = from.public_flags;
        }
        if self.premium_type != from.premium_type {
            self.premium_type = from.premium_type;
        }
    }
}

impl From<User> for UserId {
    fn from(user: User) -> (r: UserId) {
        user.id
    }
}

impl vstd::std_specs::convert::FromSpecImpl<User> for UserId {
    open spec fn obeys_from_spec() -> bool {
        true
    }

    open spec fn from_spec(user: User) -> UserId {
        user.id
    }
}

/// The Nitro subscription of a user.
#[derive(Debug, Clone, Copy, PartialEq, Eq, Structural, Hash)]
pub enum NitroType {
    /// No subscription.
    Unsubscribed,
    NitroClassic,
    Nitro,
    NitroBasic,
}

/// The number that stands for each nitro type.
pub open spec fn nitro_type_code(v: NitroType) -> i64 {
    match v {
        NitroType::Unsubscribed => 0,
        NitroType::NitroClassic => 1,
        NitroType::Nitro => 2,
        NitroType::NitroBasic => 3,
    }
}

/// The nitro type that a number stands for, if any.
pub open spec fn nitro_type_code_inverse(c: i64) -> Option<NitroType> {
    if c == 0 {
        Some(NitroType::Unsubscribed)
    } else if c == 1 {
        Some(NitroType::NitroClassic)
    } else if c == 2 {
        Some(NitroType::Nitro)
    } else if c == 3 {
        Some(NitroType::NitroBasic)
    } else {
        None
    }
}

impl NitroType {
    /// The number of this nitro type.
    pub fn to_code(&self) -> (r: i64)
        ensures
            r == nitro_type_code(*self),
    {
        match self {
            NitroType::Unsubscribed => 0,
            NitroType::NitroClassic => 1,
            NitroType::Nitro => 2,
            NitroType::NitroBasic => 3,
        }
    }

    /// The nitro type of a number; other numbers stand for none.
    pub fn from_code(c: i64) -> (r: Option<NitroType>)
        ensures
            r == nitro_type_code_inverse(c),
    {
        if c == 0 {
            Some(NitroType::Unsubscribed)
        } else if c == 1 {
            Some(NitroType::NitroClassic)
        } else if c == 2 {
            Some(NitroType::Nitro)
        } else if c == 3 {
            Some(NitroType::NitroBasic)
        } else {
            None
        }
    }
}

/// Reading the number of a nitro type gives the nitro type back.
pub proof fn law_nitro_type_code_round_trip(v: NitroType)
    ensures
        nitro_type_code_inverse(nitro_type_code(v) as i64) == Some(v),
{
}

/// A number reads as a NitroType only when it is that one's own number, so
/// two of them never share a number and no other number reads as one.
pub proof fn law_nitro_type_code_read_back(c: i64)
    ensures
        nitro_type_code_inverse(c) matches Some(w) ==> nitro_type_code(w) == c,
{
}

/// An optional Nitro type field, read from its number.
pub open spec fn de_opt_nitro(f: Option<JsonView>) -> Option<Option<NitroType>> {
    match de_opt_i64(f) {
        None => None,
        Some(None) => Some(None),
        Some(Some(c)) => match nitro_type_code_inverse(c) {
            Some(t) => Some(Some(t)),
            None => None,
        },
    }
}

/// The user a payload stands for, as the derived deserializer reads it:
/// `id` and `username` are strings that must be there, every other field is
/// optional and of its type.
pub open spec fn user_from_json(v: JsonView) -> Result<UserView, ModelErrorKind> {
    let id = json_str(json_index(v, "id"@));
    let username = json_str(json_index(v, "username"@));
    let discriminator = de_opt_str(json_get(v, "discriminator"@));
    let global_name = de_opt_str(json_get(v, "global_name"@));
    let avatar = de_opt_str(json_get(v, "avatar"@));
    let bot = de_opt_bool(json_get(v, "bot"@));
    let system = de_opt_bool(json_get(v, "system"@));
    let banner = de_opt_str(json_get(v, "banner"@));
    let accent_color = de_opt_u64(json_get(v, "accent_color"@));
    let locale = de_opt_str(json_get(v, "locale"@));
    let flags = de_opt_u64(json_get(v, "flags"@));
    let public_flags = de_opt_u64(json_get(v, "public_flags"@));
    let premium_type = de_opt_nitro(json_get(v, "premium_type"@));
    if v is Object && id is Some && username is Some && discriminator is Some && global_name is Some && avatar is Some
        && bot is Some && system is Some && banner is Some && accent_color is Some && locale is Some && flags is Some
        && public_flags is Some && premium_type is Some {
        Ok(UserView {
            id: id.unwrap(),
            username: username.unwrap(),
            discriminator: discriminator.unwrap(),
            global_name: global_name.unwrap(),
            avatar: avatar.unwrap(),
            bot: bot.unwrap(),
            system: system.unwrap(),
            banner: banner.unwrap(),
            accent_color: accent_color.unwrap(),
            locale: locale.unwrap(),
            flags: flags.unwrap(),
            public_flags: public_flags.unwrap(),
            premium_type: premium_type.unwrap(),
        })
    } else {
        Err(ModelErrorKind::InvalidPayload)
    }
}

/// Reads an optional Nitro type field.
fn read_opt_nitro(raw: &JsonValue, key: &str) -> (r: Option<Option<NitroType>>)
    ensures
        r == de_opt_nitro(json_get(raw@, key@)),
{
    match read_opt_i64(raw, key) {
        None => None,
        Some(None) => Some(None),
        Some(Some(c)) => match NitroType::from_code(c) {
            Some(t) => Some(Some(t)),
            None => None,
        },
    }
}

impl User {
    /// Reads a user from a payload.
    pub fn from_raw(raw: &JsonValue) -> (r: Result<User, ModelError>)
        ensures
            read_as(r, user_from_json(raw@)),
    {
        let bad = ModelError::InvalidPayload(String::from_str("User"));
        match raw {
            JsonValue::Object(_) => {},
            _ => return Err(bad),
        }
        let id = match get_str(raw, "id") {
            Some(s) => s,
            None => return Err(bad),
        };
        let username = match get_str(raw, "username") {
            Some(s) => s,
            None => return Err(bad),
        };
        let discriminator = match read_opt_str(raw, "discriminator") {
            Some(x) => x,
            None => return Err(bad),
        };
        let global_name = match read_opt_str(raw, "global_name") {
            Some(x) => x,
            None => return Err(bad),
        };
        let avatar = match read_opt_str(raw, "avatar") {
            Some(x) => x,
            None => return Err(bad),
        };
        let bot = match read_opt_bool(raw, "bot") {
            Some(x) => x,
            None => return Err(bad),
        };
        let system = match read_opt_bool(raw, "system") {
            Some(x) => x,
            None => return Err(bad),
        };
        let banner = match read_opt_str(raw, "banner") {
            Some(x) => x,
            None => return Err(bad),
        };
        let accent_color = match read_opt_u64(raw, "accent_color") {
            Some(x) => x,
            None => return Err(bad),
        };
        let locale = match read_opt_str(raw, "locale") {
            Some(x) => x,
            None => return Err(bad),
        };
        let flags = match read_opt_u64(raw, "flags") {
            Some(x) => x,
            None => return Err(bad),
        };
        let public_flags = match read_opt_u64(raw, "public_flags") {
            Some(x) => x,
            None => return Err(bad),
        };
        let premium_type = match read_opt_nitro(raw, "premium_type") {
            Some(x) => x,
            None => return Err(bad),
        };
        let u = User {
            id: UserId(Snowflake(String::from_str(id))),
            username: String::from_str(username),
            discriminator,
            global_name,
            avatar,
            bot,
            system,
            banner,
            accent_color,
            locale,
            flags,
            public_flags,
            premium_type,
        };
        proof {
            assert(opt_view(u.discriminator) == de_opt_str(json_get(raw@, "discriminator"@)).unwrap());
        }
        Ok(u)
    }
}

/// A Nitro type as its number, or `null`.
pub open spec fn nitro_json(t: Option<NitroType>) -> JsonView {
    match t {
        Some(t) => json_num(nitro_type_code(t) as u64),
        None => JsonView::Null,
    }
}

/// A user as the derived serializer writes it.
pub open spec fn user_json(u: UserView) -> JsonView {
    JsonView::Object(seq![
        ("accent_color"@, u64_or_null(u.accent_color)),
        ("avatar"@, str_or_null(u.avatar)),
        ("banner"@, str_or_null(u.banner)),
        ("bot"@, bool_or_null(u.bot)),
        ("discriminator"@, str_or_null(u.discriminator)),
        ("flags"@, u64_or_null(u.flags)),
        ("global_name"@, str_or_null(u.global_name)),
        ("id"@, JsonView::Str(u.id)),
        ("locale"@, str_or_null(u.locale)),
        ("premium_type"@, nitro_json(u.premium_type)),
        ("public_flags"@, u64_or_null(u.public_flags)),
        ("system"@, bool_or_null(u.system)),
        ("username"@, JsonView::Str(u.username)),
    ])
}

impl User {
    /// The user as the derived serializer writes it.
    pub fn to_json(&self) -> (r: JsonValue)
        ensures
            r@ == user_json(self@),
    {
        let r_v0 = opt_u64_json(self.accent_color);
        assert(r_v0@ == u64_or_null(self@.accent_color));
        let r_v1 = opt_string_json(&self.avatar);
        assert(r_v1@ == str_or_null(self@.avatar));
        let r_v2 = opt_string_json(&self.banner);
        assert(r_v2@ == str_or_null(self@.banner));
        let r_v3 = opt_bool_json(self.bot);
        assert(r_v3@ == bool_or_null(self@.bot));
        let r_v4 = opt_string_json(&self.discriminator);
        assert(r_v4@ == str_or_null(self@.discriminator));
        let r_v5 = opt_u64_json(self.flags);
        assert(r_v5@ == u64_or_null(self@.flags));
        let r_v6 = opt_string_json(&self.global_name);
        assert(r_v6@ == str_or_null(self@.global_name));
        let r_v7 = string_json(&self.id.0.0);
        assert(r_v7@ == JsonView::Str(self@.id));
        let r_v8 = opt_string_json(&self.locale);
        assert(r_v8@ == str_or_null(self@.locale));
        let r_v9 = opt_u64_json(match self.premium_type { Some(t) => Some(t.to_code() as u64), None => None });
        assert(r_v9@ == nitro_json(self@.premium_type));
        let r_v10 = opt_u64_json(self.public_flags);
        assert(r_v10@ == u64_or_null(self@.public_flags));
        let r_v11 = opt_bool_json(self.system);
        assert(r_v11@ == bool_or_null(self@.system));
        let r_v12 = string_json(&self.username);
        assert(r_v12@ == JsonView::Str(self@.username));
        let mut r_es: Vec<(String, JsonValue)> = Vec::new();
        r_es.push((String::from_str("accent_color"), r_v0));
        r_es.push((String::from_str("avatar"), r_v1));
        r_es.push((String::from_str("banner"), r_v2));
        r_es.push((String::from_str("bot"), r_v3));
        r_es.push((String::from_str("discriminator"), r_v4));
        r_es.push((String::from_str("flags"), r_v5));
        r_es.push((String::from_str("global_name"), r_v6));
        r_es.push((String::from_str("id"), r_v7));
        r_es.push((String::from_str("locale"), r_v8));
        r_es.push((String::from_str("premium_type"), r_v9));
        r_es.push((String::from_str("public_flags"), r_v10));
        r_es.push((String::from_str("system"), r_v11));
        r_es.push((String::from_str("username"), r_v12));
        let r = JsonValue::Object(r_es);
        proof {
            let expected: Seq<(Seq<char>, JsonView)> = seq![("accent_color"@, u64_or_null(self@.accent_color)), ("avatar"@, str_or_null(self@.avatar)), ("banner"@, str_or_null(self@.banner)), ("bot"@, bool_or_null(self@.bot)), ("discriminator"@, str_or_null(self@.discriminator)), ("flags"@, u64_or_null(self@.flags)), ("global_name"@, str_or_null(self@.global_name)), ("id"@, JsonView::Str(self@.id)), ("locale"@, str_or_null(self@.locale)), ("premium_type"@, nitro_json(self@.premium_type)), ("public_flags"@, u64_or_null(self@.public_flags)), ("system"@, bool_or_null(self@.system)), ("username"@, JsonView::Str(self@.username))];
            let got = object_entries(r@);
            assert(got.len() == 13);
            assert(got[0] == expected[0]);
            assert(got[1] == expected[1]);
            assert(got[2] == expected[2]);
            assert(got[3] == expected[3]);
            assert(got[4] == expected[4]);
            assert(got[5] == expected[5]);
            assert(got[6] == expected[6]);
            assert(got[7] == expected[7]);
            assert(got[8] == expected[8]);
            assert(got[9] == expected[9]);
            assert(got[10] == expected[10]);
            assert(got[11] == expected[11]);
            assert(got[12] == expected[12]);
            assert(got =~= expected);
        }
        r
    }
}

impl ClientUser {
    /// A copy of the client user.
    pub fn duplicate(&self) -> (r: ClientUser)
        ensures
            r@ == self@,
    {
        ClientUser {
            avatar: self.avatar.clone(),
            bot: self.bot,
            discriminator: self.discriminator.clone(),
            flags: self.flags,
            global_name: self.global_name.clone(),
            id: self.id.clone(),
            verified: self.verified,
            username: self.username.clone(),
            mfa_enabled: self.mfa_enabled,
        }
    }
}

impl Application {
    /// A copy of the application.
    pub fn duplicate(&self) -> (r: Application)
        ensures
            r@ == self@,
    {
        Application {
            flags: self.flags,
            id: self.id.clone(),
            public: self.public,
            name: self.name.clone(),
            description: self.description.clone(),
            summary: self.summary.clone(),
            cover_image: self.cover_image.clone(),
        }
    }
}

} // verus!
