//! The events that the client hands to its event handler, read from the
//! dispatch messages of the gateway.

use vstd::prelude::*;
use crate::gateway::{dispatch_kind_of, prepare_dispatch, shard_settable, takes_shard, with_shard, DispatchKind};
use crate::json::{get_str, get_u64, json_bool, json_get, json_index, json_str, json_u64, JsonValue, JsonView};
use crate::models::guild::{member_from_json, GuildMember};
use crate::time::{parse_datetime_millis, parsed_datetime_millis};
use crate::models::ids::{ChannelId, GuildId, Snowflake};
use crate::models::message::{message_from_json, Message, MessageView};
use crate::models::ModelErrorKind;
use crate::models::interaction::{interaction_type_from_json, InteractionType};

verus! {

/// The client is ready on a shard.
#[derive(Debug, Clone, Copy, PartialEq, Eq, Structural)]
pub struct Ready {
    /// When the client became ready, in milliseconds since the UNIX epoch.
    pub timestamp: i64,
    pub shard: u64,
}

/// A guild was left, or became unavailable.
#[derive(Debug)]
pub struct GuildDelete {
    /// Whether the guild is only unavailable; the client left it otherwise.
    pub unavailable: bool,
    pub id: GuildId,
    pub shard: u64,
}

/// A message was deleted.
#[derive(Debug)]
pub struct MessageDelete {
    pub guild_id: Option<GuildId>,
    pub channel_id: ChannelId,
    pub id: Snowflake,
    pub shard: u64,
}

/// A message was sent.
#[derive(Debug)]
pub struct MessageCreate {
    pub message: Message,
    /// The guild the message was sent in: the text under `guild_id` in the
    /// data of the event; none outside a guild.
    pub guild_id: Option<GuildId>,
    pub shard: u64,
}

/// The values of a guild deletion.
pub open spec fn guild_delete_from_json(d: JsonView) -> Option<(bool, Seq<char>, u64)> {
    let unavailable = json_bool(json_index(d, "unavailable"@));
    let id = json_str(json_index(d, "id"@));
    let shard = json_u64(json_index(d, "shard"@));
    if d is Object && unavailable is Some && id is Some && shard is Some {
        Some((unavailable->0, id->0, shard->0))
    } else {
        None
    }
}

impl GuildDelete {
    /// Reads a guild deletion from the data of its dispatch message; `None`
    /// where a field is missing or of another kind.
    pub fn from_raw(d: &JsonValue) -> (r: Option<GuildDelete>)
        ensures
            match guild_delete_from_json(d@) {
                Some((u, id, shard)) => r matches Some(g) && g.unavailable == u && g.id@ == id && g.shard == shard,
                None => r is None,
            },
    {
        match d {
            JsonValue::Object(_) => {},
            _ => return None,
        }
        let unavailable = match d.get("unavailable") {
            Some(v) => v.as_bool(),
            None => None,
        };
        let id = match d.get("id") {
            Some(v) => v.as_str(),
            None => None,
        };
        let shard = match d.get("shard") {
            Some(v) => v.as_u64(),
            None => None,
        };
        match (unavailable, id, shard) {
            (Some(u), Some(i), Some(s)) => Some(GuildDelete { unavailable: u, id: GuildId(Snowflake(String::from_str(i))), shard: s }),
            _ => None,
        }
    }
}

/// An optional id: missing or `null` is none, a text is one, anything else
/// is refused.
pub open spec fn opt_id_from_json(v: Option<JsonView>) -> Option<Option<Seq<char>>> {
    match v {
        None => Some(None),
        Some(JsonView::Null) => Some(None),
        Some(JsonView::Str(s)) => Some(Some(s)),
        Some(_) => None,
    }
}

/// The guild a new message was sent in: the text under `guild_id` in the
/// data of the event.
pub open spec fn message_guild_of(d: JsonView) -> Option<Seq<char>> {
    match json_get(d, "guild_id"@) {
        Some(JsonView::Str(g)) => Some(g),
        _ => None,
    }
}

/// The values of a message deletion.
pub open spec fn message_delete_from_json(d: JsonView) -> Option<(Option<Seq<char>>, Seq<char>, Seq<char>, u64)> {
    let guild_id = opt_id_from_json(json_get(d, "guild_id"@));
    let channel_id = json_str(json_index(d, "channel_id"@));
    let id = json_str(json_index(d, "id"@));
    let shard = json_u64(json_index(d, "shard"@));
    if d is Object && guild_id is Some && channel_id is Some && id is Some && shard is Some {
        Some((guild_id->0, channel_id->0, id->0, shard->0))
    } else {
        None
    }
}

impl MessageDelete {
    /// Reads a message deletion from the data of its dispatch message;
    /// `None` where a field is missing or of another kind.
    pub fn from_raw(d: &JsonValue) -> (r: Option<MessageDelete>)
        ensures
            match message_delete_from_json(d@) {
                Some((g, c, id, shard)) => r matches Some(m)
                    && crate::models::ids::opt_guild_view(m.guild_id) == g && m.channel_id@ == c && m.id@ == id && m.shard == shard,
                None => r is None,
            },
    {
        match d {
            JsonValue::Object(_) => {},
            _ => return None,
        }
        let guild_id = match d.get("guild_id") {
            None => Some(None),
            Some(JsonValue::Null) => Some(None),
            Some(JsonValue::String(s)) => Some(Some(GuildId(Snowflake(s.clone())))),
            Some(_) => None,
        };
        let channel_id = match d.get("channel_id") {
            Some(v) => v.as_str(),
            None => None,
        };
        let id = match d.get("id") {
            Some(v) => v.as_str(),
            None => None,
        };
        let shard = match d.get("shard") {
            Some(v) => v.as_u64(),
            None => None,
        };
        match (guild_id, channel_id, id, shard) {
            (Some(g), Some(c), Some(i), Some(s)) => Some(MessageDelete {
                guild_id: g,
                channel_id: ChannelId(Snowflake(String::from_str(c))),
                id: Snowflake(String::from_str(i)),
                shard: s,
            }),
            _ => None,
        }
    }
}

/// A member joined a guild.
#[derive(Debug)]
pub struct GuildMemberAdd {
    pub member: GuildMember,
    /// The guild joined: the text under `guild_id` in the event's data.
    pub guild_id: GuildId,
    pub shard: u64,
}

/// A member of a guild changed.
#[derive(Debug)]
pub struct GuildMemberUpdate {
    pub member: GuildMember,
    pub shard: u64,
}

/// A guild became available, or the client joined it.
#[derive(Debug)]
pub struct GuildCreate {
    /// When the client joined the guild, in milliseconds since the UNIX
    /// epoch.
    pub joined_at: i64,
    pub large: bool,
    pub member_count: u64,
    pub id: String,
    pub unavailable: bool,
    /// The `guild` field of the data, as it came, when it is there and not
    /// `null`.
    pub guild: Option<JsonValue>,
    pub shard: u64,
}

/// The values of a guild creation: its date, flags, counts, id and shard,
/// read as the derived deserializer reads them, and its `guild` field.
pub open spec fn guild_create_from_json(d: JsonView) -> Option<(i64, bool, u64, Seq<char>, bool, Option<JsonView>, u64)> {
    let joined = match json_str(json_index(d, "joined_at"@)) {
        Some(t) => parsed_datetime_millis(t),
        None => None,
    };
    let large = json_bool(json_index(d, "large"@));
    let count = json_u64(json_index(d, "member_count"@));
    let id = json_str(json_index(d, "id"@));
    let unavailable = json_bool(json_index(d, "unavailable"@));
    let shard = json_u64(json_index(d, "shard"@));
    let guild = match json_get(d, "guild"@) {
        None => None,
        Some(JsonView::Null) => None,
        Some(g) => Some(g),
    };
    if d is Object && joined is Some && large is Some && count is Some && id is Some && unavailable is Some && shard is Some {
        Some((joined->0, large->0, count->0, id->0, unavailable->0, guild, shard->0))
    } else {
        None
    }
}

impl GuildCreate {
    /// Reads a guild creation from its data.
    pub fn from_raw(d: &JsonValue) -> (r: Option<GuildCreate>)
        ensures
            match guild_create_from_json(d@) {
                None => r is None,
                Some((j, l, c, id, u, g, s)) => r matches Some(x) && x.joined_at == j && x.large == l
                    && x.member_count == c && x.id@ == id && x.unavailable == u && x.shard == s
                    && match x.guild { Some(v) => g == Some(v@), None => g is None },
            },
    {
        match d {
            JsonValue::Object(_) => {},
            _ => return None,
        }
        let joined_at = match get_str(d, "joined_at") {
            Some(t) => match parse_datetime_millis(t) {
                Some(ms) => ms,
                None => return None,
            },
            None => return None,
        };
        let large = match d.get("large") { Some(x) => match x.as_bool() { Some(b) => b, None => return None }, None => return None };
        let member_count = match get_u64(d, "member_count") { Some(n) => n, None => return None };
        let id = match get_str(d, "id") { Some(s) => String::from_str(s), None => return None };
        let unavailable = match d.get("unavailable") { Some(x) => match x.as_bool() { Some(b) => b, None => return None }, None => return None };
        let shard = match get_u64(d, "shard") { Some(n) => n, None => return None };
        let guild = match d.get("guild") {
            None => None,
            Some(JsonValue::Null) => None,
            Some(g) => Some(g.deep_clone()),
        };
        Some(GuildCreate { joined_at, large, member_count, id, unavailable, guild, shard })
    }
}

/// An interaction, as the gateway sends it: the fields that every
/// interaction has, read, and the whole data as it came.
#[derive(Debug)]
pub struct InteractionCreate {
    pub id: Snowflake,
    pub application_id: Snowflake,
    pub interaction_type: InteractionType,
    /// The token to answer the interaction with.
    pub token: String,
    /// The data of the event, as it came.
    pub interaction: JsonValue,
    pub shard: u64,
}

/// The fields that every interaction has: its id, its application's id,
/// its type and its token; `None` where the data is no object, where one
/// of the texts is missing, or where the type is no known interaction type.
pub open spec fn interaction_head_from_json(d: JsonView) -> Option<(Seq<char>, Seq<char>, InteractionType, Seq<char>)> {
    let id = json_str(json_index(d, "id"@));
    let app = json_str(json_index(d, "application_id"@));
    let kind = interaction_type_from_json(json_index(d, "type"@));
    let token = json_str(json_index(d, "token"@));
    if d is Object && id is Some && app is Some && kind is Ok && token is Some {
        Some((id->0, app->0, kind->Ok_0, token->0))
    } else {
        None
    }
}

impl InteractionCreate {
    /// Reads an interaction from the data of its event, with the shard it
    /// came from.
    pub fn from_raw(d: &JsonValue, shard: u64) -> (r: Option<InteractionCreate>)
        ensures
            match interaction_head_from_json(d@) {
                None => r is None,
                Some((id, app, kind, token)) => r matches Some(x) && x.id@ == id && x.application_id@ == app
                    && x.interaction_type == kind && x.token@ == token && x.interaction@ == d@ && x.shard == shard,
            },
    {
        match d {
            JsonValue::Object(_) => {},
            _ => return None,
        }
        let id = match get_str(d, "id") { Some(t) => Snowflake(String::from_str(t)), None => return None };
        let application_id = match get_str(d, "application_id") { Some(t) => Snowflake(String::from_str(t)), None => return None };
        let null = JsonValue::Null;
        let type_value = match d.get("type") { Some(x) => x, None => &null };
        let interaction_type = match InteractionType::from_raw(type_value) { Ok(k) => k, Err(_) => return None };
        let token = match get_str(d, "token") { Some(t) => String::from_str(t), None => return None };
        Some(InteractionCreate { id, application_id, interaction_type, token, interaction: d.deep_clone(), shard })
    }
}

/// An event of the gateway, with its data read as far as the library
/// models it (a guild's and an interaction's further contents are kept as
/// they came).
#[derive(Debug)]
pub enum GatewayDispatch {
    Ready(Ready),
    GuildCreate(GuildCreate),
    GuildDelete(GuildDelete),
    MessageCreate(MessageCreate),
    MessageDelete(MessageDelete),
    GuildMemberAdd(GuildMemberAdd),
    GuildMemberUpdate(GuildMemberUpdate),
    /// An interaction, with the shard it came from.
    InteractionCreate(InteractionCreate),
}

/// Reads an event of the gateway at the time `now` (milliseconds since the
/// UNIX epoch): the event name picks the event; the data of the events that
/// carry it is told the shard first. `None` where there is no event name,
/// where the event is not handled, or where its data cannot be read.
pub fn gateway_event(content: &mut JsonValue, shard: u64, now: i64) -> (r: Option<GatewayDispatch>)
    requires
        json_str(json_index(old(content)@, "t"@)) matches Some(name) && takes_shard(dispatch_kind_of(name))
            ==> shard_settable(old(content)@),
    ensures
        match json_str(json_index(old(content)@, "t"@)) {
            None => r is None && final(content)@ == old(content)@,
            Some(name) => {
                let k = dispatch_kind_of(name);
                let c = if takes_shard(k) { with_shard(old(content)@, shard) } else { old(content)@ };
                let d = json_index(c, "d"@);
                &&& final(content)@ == c
                &&& match k {
                    DispatchKind::Ready => r matches Some(GatewayDispatch::Ready(x)) && x == (Ready { timestamp: now, shard }),
                    DispatchKind::GuildCreate => match guild_create_from_json(d) {
                        None => r is None,
                        Some((j, l, n, id, u, g, s)) => r matches Some(GatewayDispatch::GuildCreate(x)) && x.joined_at == j
                            && x.large == l && x.member_count == n && x.id@ == id && x.unavailable == u && x.shard == s
                            && match x.guild { Some(v) => g == Some(v@), None => g is None },
                    },
                    DispatchKind::GuildMemberAdd => match (member_from_json(d), json_str(json_index(d, "guild_id"@))) {
                        (Ok(m), Some(g)) => r matches Some(GatewayDispatch::GuildMemberAdd(x)) && x.member@ == m
                            && x.guild_id@ == g && x.shard == shard,
                        _ => r is None,
                    },
                    DispatchKind::GuildMemberUpdate => match member_from_json(d) {
                        Ok(m) => r matches Some(GatewayDispatch::GuildMemberUpdate(x)) && x.member@ == m && x.shard == shard,
                        Err(_) => r is None,
                    },
                    DispatchKind::InteractionCreate => match interaction_head_from_json(d) {
                        Some((id, app, kind, token)) => r matches Some(GatewayDispatch::InteractionCreate(x)) && x.id@ == id
                            && x.application_id@ == app && x.interaction_type == kind && x.token@ == token
                            && x.interaction@ == d && x.shard == shard,
                        None => r is None,
                    },
                    DispatchKind::GuildDelete => match guild_delete_from_json(d) {
                        Some((u, id, s)) => r matches Some(GatewayDispatch::GuildDelete(x)) && x.unavailable == u && x.id@ == id && x.shard == s,
                        None => r is None,
                    },
                    DispatchKind::MessageDelete => match message_delete_from_json(d) {
                        Some((g, ch, id, s)) => r matches Some(GatewayDispatch::MessageDelete(x))
                            && crate::models::ids::opt_guild_view(x.guild_id) == g && x.channel_id@ == ch && x.id@ == id && x.shard == s,
                        None => r is None,
                    },
                    DispatchKind::MessageCreate => match message_from_json(d, now) {
                        Ok(m) => r matches Some(GatewayDispatch::MessageCreate(x)) && x.message@ == m && x.shard == shard
                            && crate::models::ids::opt_guild_view(x.guild_id) == message_guild_of(d),
                        Err(_) => r is None,
                    },
                    DispatchKind::Unhandled => r is None,
                }
            },
        },
{
    let kind = match prepare_dispatch(content, shard) {
        Ok(k) => k,
        Err(_) => return None,
    };
    let null = JsonValue::Null;
    let d = match content.get("d") {
        Some(d) => d,
        None => &null,
    };
    match kind {
        DispatchKind::Ready => Some(GatewayDispatch::Ready(Ready { timestamp: now, shard })),
        DispatchKind::GuildCreate => match GuildCreate::from_raw(d) {
            Some(g) => Some(GatewayDispatch::GuildCreate(g)),
            None => None,
        },
        DispatchKind::GuildMemberAdd => match (GuildMember::from_raw(d), get_str(d, "guild_id")) {
            (Ok(member), Some(g)) => Some(GatewayDispatch::GuildMemberAdd(GuildMemberAdd {
                member,
                guild_id: GuildId(Snowflake(String::from_str(g))),
                shard,
            })),
            _ => None,
        },
        DispatchKind::GuildMemberUpdate => match GuildMember::from_raw(d) {
            Ok(member) => Some(GatewayDispatch::GuildMemberUpdate(GuildMemberUpdate { member, shard })),
            Err(_) => None,
        },
        DispatchKind::InteractionCreate => match InteractionCreate::from_raw(d, shard) {
            Some(i) => Some(GatewayDispatch::InteractionCreate(i)),
            None => None,
        },
        DispatchKind::GuildDelete => match GuildDelete::from_raw(d) {
            Some(g) => Some(GatewayDispatch::GuildDelete(g)),
            None => None,
        },
        DispatchKind::MessageDelete => match MessageDelete::from_raw(d) {
            Some(m) => Some(GatewayDispatch::MessageDelete(m)),
            None => None,
        },
        DispatchKind::MessageCreate => match Message::from_raw_at(d, now) {
            Ok(message) => {
                let guild_id = match d.get("guild_id") {
                    Some(JsonValue::String(g)) => Some(GuildId(Snowflake(g.clone()))),
                    _ => None,
                };
                Some(GatewayDispatch::MessageCreate(MessageCreate { message, guild_id, shard }))
            },
            Err(_) => None,
        },
        DispatchKind::Unhandled => None,
    }
}

} // verus!
