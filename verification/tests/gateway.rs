use pandora::gateway::{
    hello_from_text, identify_payload, on_hello, ConnectionProperties, ShardRecord, ShardState,
    classify_received, dispatch_kind, heartbeat_payload, prepare_dispatch, read_gateway_infos, read_hello,
    shards_turn, DispatchError, DispatchKind, HelloError, Received, SessionLimit, ShardAction, ShardSnapshot,
};
use pandora::json::{JsonNumber, JsonValue};

fn obj(es: Vec<(&str, JsonValue)>) -> JsonValue {
    JsonValue::Object(es.into_iter().map(|(k, v)| (k.to_string(), v)).collect())
}

fn num(n: u64) -> JsonValue {
    JsonValue::Number(JsonNumber::PosInt(n))
}

#[test]
fn hello_interval() {
    let hello = obj(vec![("op", num(10)), ("d", obj(vec![("heartbeat_interval", num(41250))]))]);
    assert_eq!(read_hello(&hello), Ok(41250));
}

#[test]
fn hello_errors() {
    assert_eq!(read_hello(&JsonValue::Null), Err(HelloError::NotAnObject));
    assert_eq!(read_hello(&obj(vec![])), Err(HelloError::NoOp));
    assert_eq!(read_hello(&obj(vec![("op", num(1))])), Err(HelloError::WrongOp(1)));
    assert_eq!(read_hello(&obj(vec![("op", num(10))])), Err(HelloError::NoHeartbeatInterval));
}

#[test]
fn heartbeat_shape() {
    assert_eq!(heartbeat_payload(5), obj(vec![("d", num(5)), ("op", num(1))]));
}

#[test]
fn heartbeat_ack_is_kept_back() {
    assert_eq!(classify_received(&obj(vec![("op", num(11))])), Received::HeartbeatAck);
    assert_eq!(classify_received(&obj(vec![("op", num(0))])), Received::Forward);
}

#[test]
fn dispatch_names() {
    assert_eq!(dispatch_kind("READY"), DispatchKind::Ready);
    assert_eq!(dispatch_kind("MESSAGE_CREATE"), DispatchKind::MessageCreate);
    assert_eq!(dispatch_kind("TYPING_START"), DispatchKind::Unhandled);
}

#[test]
fn dispatch_sets_shard() {
    let mut m = obj(vec![("t", JsonValue::String("GUILD_CREATE".into())), ("d", obj(vec![("id", num(1))]))]);
    assert_eq!(prepare_dispatch(&mut m, 3), Ok(DispatchKind::GuildCreate));
    assert_eq!(m, obj(vec![("t", JsonValue::String("GUILD_CREATE".into())), ("d", obj(vec![("id", num(1)), ("shard", num(3))]))]));
}

#[test]
fn dispatch_without_name() {
    let mut m = obj(vec![("d", JsonValue::Null)]);
    assert_eq!(prepare_dispatch(&mut m, 0), Err(DispatchError::NoEventName));
    assert_eq!(m, obj(vec![("d", JsonValue::Null)]));
}

#[test]
fn message_create_keeps_data() {
    let mut m = obj(vec![("t", JsonValue::String("MESSAGE_CREATE".into())), ("d", obj(vec![]))]);
    assert_eq!(prepare_dispatch(&mut m, 2), Ok(DispatchKind::MessageCreate));
    assert_eq!(m, obj(vec![("t", JsonValue::String("MESSAGE_CREATE".into())), ("d", obj(vec![]))]));
}

#[test]
fn shard_turns() {
    let shards = vec![
        ShardSnapshot { present: true, running: true, connected: false },
        ShardSnapshot { present: true, running: true, connected: true },
        ShardSnapshot { present: false, running: false, connected: false },
    ];
    let mut spawned = vec![];
    let (actions, done) = shards_turn(&shards, &mut spawned);
    assert_eq!(actions, vec![ShardAction::Connect, ShardAction::Keep, ShardAction::Connect]);
    assert!(!done);
    assert_eq!(spawned, vec![0, 2]);
    let stopped = vec![ShardSnapshot { present: true, running: false, connected: false }];
    let mut spawned = vec![0];
    let (actions, done) = shards_turn(&stopped, &mut spawned);
    assert_eq!(actions, vec![ShardAction::FullyDisconnected]);
    assert!(done);
}

#[test]
fn session_limit_read() {
    let raw = obj(vec![("total", num(1000)), ("remaining", num(999)), ("reset_after", num(14400000)), ("max_concurrency", num(1))]);
    assert_eq!(
        SessionLimit::from_raw(&raw),
        Some(SessionLimit { total: 1000, remaining: 999, reset_after: 14400000, max_concurrency: 1 })
    );
    let too_big = obj(vec![("total", num(1 << 40)), ("remaining", num(1)), ("reset_after", num(1)), ("max_concurrency", num(1))]);
    assert_eq!(SessionLimit::from_raw(&too_big), None);
    assert_eq!(SessionLimit::from_raw(&obj(vec![("total", num(1))])), None);
}

#[test]
fn gateway_infos_read() {
    let limit = obj(vec![("total", num(1000)), ("remaining", num(999)), ("reset_after", num(1)), ("max_concurrency", num(1))]);
    let raw = obj(vec![("url", JsonValue::String("wss://gateway.discord.gg".into())), ("shards", num(2)), ("session_start_limit", limit)]);
    let g = read_gateway_infos(&raw).unwrap();
    assert_eq!(g.url, "wss://gateway.discord.gg");
    assert_eq!(g.shards, 2);
    assert_eq!(g.session_limit.remaining, 999);
    assert!(read_gateway_infos(&obj(vec![("url", JsonValue::String("x".into()))])).is_none());
}

fn properties() -> ConnectionProperties {
    ConnectionProperties { os: "linux".to_string(), browser: "pandora".to_string(), device: "pandora".to_string() }
}

#[test]
fn hello_read_from_text() {
    assert_eq!(hello_from_text(r#"{"op":10,"d":{"heartbeat_interval":41250}}"#), Ok(41250));
    assert_eq!(hello_from_text("not json"), Err(HelloError::NotJson));
    assert_eq!(hello_from_text("[10]"), Err(HelloError::NotAnObject));
    assert_eq!(hello_from_text(r#"{"d":{}}"#), Err(HelloError::NoOp));
    assert_eq!(hello_from_text(r#"{"op":11,"d":{"heartbeat_interval":5}}"#), Err(HelloError::WrongOp(11)));
    assert_eq!(hello_from_text(r#"{"op":10,"d":{"heartbeat_interval":"5"}}"#), Err(HelloError::NoHeartbeatInterval));
}

#[test]
fn hello_starts_the_shard() {
    let r = on_hello(Some(r#"{"op":10,"d":{"heartbeat_interval":41250}}"#), 1, 4, "tok", 513, &properties());
    let (payload, record) = r.unwrap();
    assert_eq!(payload, identify_payload("tok", 513, "linux", "pandora", "pandora"));
    assert_eq!(
        record,
        ShardRecord { id: 1, total: 4, intents: 513, state: ShardState::Connecting, run: true, heartbeat_interval: 41250 }
    );
}

#[test]
fn refused_hello_sends_nothing() {
    assert_eq!(on_hello(None, 0, 1, "tok", 1, &properties()), Err(HelloError::NoHello));
    assert_eq!(on_hello(Some("}"), 0, 1, "tok", 1, &properties()), Err(HelloError::NotJson));
    assert_eq!(on_hello(Some(r#"{"op":1}"#), 0, 1, "tok", 1, &properties()), Err(HelloError::WrongOp(1)));
}
