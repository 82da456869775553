use pandora::events::{gateway_event, GatewayDispatch, GuildDelete, MessageDelete, Ready};
use pandora::json::{JsonNumber, JsonValue};
use pandora::models::interaction::InteractionType;

fn obj(es: Vec<(&str, JsonValue)>) -> JsonValue {
    JsonValue::Object(es.into_iter().map(|(k, v)| (k.to_string(), v)).collect())
}

fn s(x: &str) -> JsonValue {
    JsonValue::String(x.to_string())
}

fn num(n: u64) -> JsonValue {
    JsonValue::Number(JsonNumber::PosInt(n))
}

#[test]
fn ready_event() {
    let mut m = obj(vec![("t", s("READY")), ("d", obj(vec![]))]);
    match gateway_event(&mut m, 4, 77) {
        Some(GatewayDispatch::Ready(r)) => assert_eq!(r, Ready { timestamp: 77, shard: 4 }),
        _ => panic!("expected READY"),
    }
}

#[test]
fn guild_delete_event() {
    let mut m = obj(vec![("t", s("GUILD_DELETE")), ("d", obj(vec![("id", s("9")), ("unavailable", JsonValue::Bool(true))]))]);
    match gateway_event(&mut m, 2, 0) {
        Some(GatewayDispatch::GuildDelete(g)) => {
            assert!(g.unavailable);
            assert_eq!(g.id.0 .0, "9");
            assert_eq!(g.shard, 2);
        }
        _ => panic!("expected GUILD_DELETE"),
    }
}

#[test]
fn guild_delete_needs_unavailable() {
    let d = obj(vec![("id", s("9")), ("shard", num(1))]);
    assert!(GuildDelete::from_raw(&d).is_none());
}

#[test]
fn message_delete_event() {
    let d = obj(vec![("id", s("5")), ("channel_id", s("6")), ("guild_id", JsonValue::Null), ("shard", num(0))]);
    let m = MessageDelete::from_raw(&d).unwrap();
    assert!(m.guild_id.is_none());
    assert_eq!(m.channel_id.0 .0, "6");
    let bad = obj(vec![("id", s("5")), ("channel_id", s("6")), ("guild_id", num(3)), ("shard", num(0))]);
    assert!(MessageDelete::from_raw(&bad).is_none());
}

#[test]
fn message_create_event() {
    let msg = obj(vec![
        ("id", s("100")),
        ("channel_id", s("10")),
        ("author", obj(vec![("id", s("3")), ("username", s("nelly"))])),
        ("content", s("hi")),
        ("type", num(0)),
        ("guild_id", s("1")),
    ]);
    let mut m = obj(vec![("t", s("MESSAGE_CREATE")), ("d", msg), ("guild_id", s("9"))]);
    match gateway_event(&mut m, 1, 5) {
        Some(GatewayDispatch::MessageCreate(c)) => {
            assert_eq!(c.message.content.as_deref(), Some("hi"));
            assert_eq!(c.guild_id.as_ref().map(|g| g.0 .0.as_str()), Some("1"));
            assert_eq!(c.shard, 1);
        }
        _ => panic!("expected MESSAGE_CREATE"),
    }
}

#[test]
fn unhandled_and_nameless_events() {
    let mut m = obj(vec![("t", s("TYPING_START")), ("d", obj(vec![]))]);
    assert!(gateway_event(&mut m, 0, 0).is_none());
    let mut n = obj(vec![("d", obj(vec![]))]);
    assert!(gateway_event(&mut n, 0, 0).is_none());
}

#[test]
fn guild_create_data_carries_shard() {
    let d = obj(vec![
        ("id", s("1")),
        ("joined_at", s("2021-01-01T00:00:00Z")),
        ("large", JsonValue::Bool(false)),
        ("member_count", num(12)),
        ("unavailable", JsonValue::Bool(false)),
    ]);
    let mut m = obj(vec![("t", s("GUILD_CREATE")), ("d", d)]);
    match gateway_event(&mut m, 3, 0) {
        Some(GatewayDispatch::GuildCreate(g)) => {
            assert_eq!(g.shard, 3);
            assert_eq!(g.id, "1");
            assert_eq!(g.member_count, 12);
            assert_eq!(g.joined_at, 1609459200000);
            assert!(g.guild.is_none());
        }
        _ => panic!("expected GUILD_CREATE"),
    }
    let mut bad = obj(vec![("t", s("GUILD_CREATE")), ("d", obj(vec![("id", s("1"))]))]);
    assert!(gateway_event(&mut bad, 3, 0).is_none());
}

fn member_data(with_guild: bool) -> JsonValue {
    let mut es = vec![
        ("user", obj(vec![("id", s("7")), ("username", s("amy"))])),
        ("roles", JsonValue::Array(vec![s("10"), s("11")])),
        ("joined_at", s("2021-01-01T00:00:00.000001Z")),
        ("flags", num(0)),
        ("pending", JsonValue::Bool(false)),
    ];
    if with_guild {
        es.push(("guild_id", s("G")));
    }
    obj(es)
}

#[test]
fn member_events() {
    let mut m = obj(vec![("t", s("GUILD_MEMBER_ADD")), ("d", member_data(true))]);
    match gateway_event(&mut m, 2, 0) {
        Some(GatewayDispatch::GuildMemberAdd(a)) => {
            assert_eq!(a.guild_id.0 .0, "G");
            assert_eq!(a.shard, 2);
            assert_eq!(a.member.joined_at, 1609459200000001);
            assert_eq!(a.member.roles.len(), 2);
            assert_eq!(a.member.user.as_ref().unwrap().username, "amy");
        }
        _ => panic!("expected GUILD_MEMBER_ADD"),
    }
    let mut no_guild = obj(vec![("t", s("GUILD_MEMBER_ADD")), ("d", member_data(false))]);
    assert!(gateway_event(&mut no_guild, 2, 0).is_none());
    let mut u = obj(vec![("t", s("GUILD_MEMBER_UPDATE")), ("d", member_data(false))]);
    assert!(matches!(gateway_event(&mut u, 4, 0), Some(GatewayDispatch::GuildMemberUpdate(x)) if x.shard == 4));
    let mut broken = obj(vec![("t", s("GUILD_MEMBER_UPDATE")), ("d", obj(vec![("roles", num(1))]))]);
    assert!(gateway_event(&mut broken, 4, 0).is_none());
}

#[test]
fn message_without_type_is_refused() {
    let msg = obj(vec![
        ("id", s("100")),
        ("channel_id", s("10")),
        ("author", obj(vec![("id", s("3")), ("username", s("nelly"))])),
    ]);
    let r = pandora::models::message::Message::from_raw_at(&msg, 5);
    assert_eq!(r.unwrap_err(), pandora::models::ModelError::InvalidPayload("Message".to_string()));
}

#[test]
fn interaction_keeps_its_shard() {
    let d = obj(vec![
        ("id", s("1")),
        ("application_id", s("2")),
        ("type", JsonValue::Number(JsonNumber::PosInt(2))),
        ("token", s("tok")),
    ]);
    let mut m = obj(vec![("t", s("INTERACTION_CREATE")), ("d", d.deep_clone())]);
    match gateway_event(&mut m, 3, 0) {
        Some(GatewayDispatch::InteractionCreate(i)) => {
            assert_eq!(i.shard, 3);
            assert_eq!(i.id.0, "1");
            assert_eq!(i.application_id.0, "2");
            assert_eq!(i.interaction_type, InteractionType::ApplicationCommand);
            assert_eq!(i.token, "tok");
            assert_eq!(i.interaction, d);
        }
        _ => panic!("expected INTERACTION_CREATE"),
    }
}

#[test]
fn interaction_without_its_fields_gives_no_event() {
    let mut m = obj(vec![("t", s("INTERACTION_CREATE")), ("d", obj(vec![("id", s("1"))]))]);
    assert!(gateway_event(&mut m, 3, 0).is_none());
    let d = obj(vec![
        ("id", s("1")),
        ("application_id", s("2")),
        ("type", JsonValue::Number(JsonNumber::PosInt(9))),
        ("token", s("tok")),
    ]);
    let mut m = obj(vec![("t", s("INTERACTION_CREATE")), ("d", d)]);
    assert!(gateway_event(&mut m, 3, 0).is_none());
}
