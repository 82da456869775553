//! The gateway: the states of a shard, the payloads a shard sends, and the
//! decisions taken on what it receives.

use vstd::prelude::*;
use crate::json::{
    entries_view, find_key, json_get, law_json_set_get, first_key_index, get_str, get_u64, json_index, json_num, json_set, json_str, json_u64,
    lemma_first_key_index, lemma_object_view, number_value, object_entries, set_entry, string_value, JsonValue, JsonView,
};
use crate::text::{decimal, str_eq, u64_to_string};
use crate::json_text::{json_text_value, parse_json_text};

verus! {

/// The state of a shard.
#[derive(Debug, Clone, Copy, PartialEq, Eq, Structural)]
pub enum ShardState {
    Connecting,
    Connected,
    Disconnected,
}

/// What an opcode of the gateway stands for.
#[derive(Debug, Clone, Copy, PartialEq, Eq, Structural)]
pub enum GatewayEvent {
    Event(u32),
    Connected,
    Reconnected,
}

/// The opcodes the gateway sends: dispatch, heartbeat, reconnect, invalid
/// session, hello and heartbeat ACK.
pub open spec fn known_op(op: u64) -> bool {
    op == 0 || op == 1 || op == 7 || op == 9 || op == 10 || op == 11
}

impl GatewayEvent {
    /// The event of a known opcode.
    pub fn from_op(op: u64) -> (r: GatewayEvent)
        requires
            known_op(op),
        ensures
            r == GatewayEvent::Event(op as u32),
    {
        GatewayEvent::Event(op as u32)
    }

    /// Whether the event is a gateway event that the client dispatches.
    pub fn is_dispatched(&self) -> (r: bool)
        ensures
            r == (*self is Event),
    {
        match self {
            GatewayEvent::Event(_) => true,
            _ => false,
        }
    }
}

// ----------------------------------------------------------------------
// Hello

/// Why the hello message of the gateway is refused.
#[derive(Debug, Clone, Copy, PartialEq, Eq, Structural)]
pub enum HelloError {
    /// No text message came first.
    NoHello,
    /// The first message is no JSON document.
    NotJson,
    NotAnObject,
    NoOp,
    WrongOp(u64),
    NoHeartbeatInterval,
}

/// What the hello message gives: the heartbeat interval, in milliseconds,
/// or why it is refused.
pub open spec fn hello_result(v: JsonView) -> Result<u64, HelloError> {
    if !(v is Object) {
        Err(HelloError::NotAnObject)
    } else {
        match json_u64(json_index(v, "op"@)) {
            None => Err(HelloError::NoOp),
            Some(op) => if op != 10 {
                Err(HelloError::WrongOp(op))
            } else {
                match json_u64(json_index(json_index(v, "d"@), "heartbeat_interval"@)) {
                    None => Err(HelloError::NoHeartbeatInterval),
                    Some(i) => Ok(i),
                }
            },
        }
    }
}

/// Reads the heartbeat interval out of the hello message.
pub fn read_hello(json: &JsonValue) -> (r: Result<u64, HelloError>)
    ensures
        r == hello_result(json@),
{
    match json {
        JsonValue::Object(_) => {},
        _ => return Err(HelloError::NotAnObject),
    }
    let op = match get_u64(json, "op") {
        Some(op) => op,
        None => return Err(HelloError::NoOp),
    };
    if op != 10 {
        return Err(HelloError::WrongOp(op));
    }
    let interval = match json.get("d") {
        Some(d) => get_u64(d, "heartbeat_interval"),
        None => None,
    };
    match interval {
        Some(i) => Ok(i),
        None => Err(HelloError::NoHeartbeatInterval),
    }
}

/// Reads the heartbeat interval out of the text of the hello message: a
/// text that is no JSON document is refused first.
pub fn hello_from_text(text: &str) -> (r: Result<u64, HelloError>)
    ensures
        match json_text_value(text@) {
            None => r == Err::<u64, HelloError>(HelloError::NotJson),
            Some(v) => r == hello_result(v),
        },
{
    match parse_json_text(text) {
        None => Err(HelloError::NotJson),
        Some(v) => read_hello(&v),
    }
}

impl HelloError {
    /// The message that explains the error.
    pub fn message(&self) -> (r: String)
        ensures
            r@ == match *self {
                HelloError::NoHello => "Failed to read hello message"@,
                HelloError::NotJson => "Failed to parse hello message"@,
                HelloError::NotAnObject => "Hello message is not an object"@,
                HelloError::NoOp => "Hello message has no 'op' field"@,
                HelloError::WrongOp(op) => "Hello message has wrong op code: "@ + decimal(op as nat),
                HelloError::NoHeartbeatInterval => "Hello message has no 'heartbeat_interval' field"@,
            },
    {
        match self {
            HelloError::NoHello => String::from_str("Failed to read hello message"),
            HelloError::NotJson => String::from_str("Failed to parse hello message"),
            HelloError::NotAnObject => String::from_str("Hello message is not an object"),
            HelloError::NoOp => String::from_str("Hello message has no 'op' field"),
            HelloError::WrongOp(op) => {
                let mut s = String::from_str("Hello message has wrong op code: ");
                let n = u64_to_string(*op);
                s.append(n.as_str());
                s
            },
            HelloError::NoHeartbeatInterval => String::from_str("Hello message has no 'heartbeat_interval' field"),
        }
    }
}

// ----------------------------------------------------------------------
// Payloads

/// The identify payload: the token, the intents and the properties of the
/// connection, under opcode 2.
pub open spec fn identify_json(token: Seq<char>, intents: u64, os: Seq<char>, browser: Seq<char>, device: Seq<char>) -> JsonView {
    JsonView::Object(seq![
        ("d"@, JsonView::Object(seq![
            ("intents"@, json_num(intents)),
            ("properties"@, JsonView::Object(seq![
                ("$browser"@, JsonView::Str(browser)),
                ("$device"@, JsonView::Str(device)),
                ("$os"@, JsonView::Str(os)),
            ])),
            ("token"@, JsonView::Str(token)),
        ])),
        ("op"@, json_num(2)),
    ])
}

/// An object of the given entries, in their order.
fn object_of(es: Vec<(String, JsonValue)>) -> (r: JsonValue)
    ensures
        r@ == JsonView::Object(entries_view(es@)),
{
    proof {
        lemma_object_view(es);
    }
    JsonValue::Object(es)
}

/// The identify payload a shard sends once it is greeted.
pub fn identify_payload(token: &str, intents: u64, os: &str, browser: &str, device: &str) -> (r: JsonValue)
    ensures
        r@ == identify_json(token@, intents, os@, browser@, device@),
{
    let mut props: Vec<(String, JsonValue)> = Vec::new();
    props.push((String::from_str("$browser"), string_value(browser)));
    props.push((String::from_str("$device"), string_value(device)));
    props.push((String::from_str("$os"), string_value(os)));
    let props = object_of(props);
    let mut d: Vec<(String, JsonValue)> = Vec::new();
    d.push((String::from_str("intents"), number_value(intents)));
    d.push((String::from_str("properties"), props));
    d.push((String::from_str("token"), string_value(token)));
    let d = object_of(d);
    let mut top: Vec<(String, JsonValue)> = Vec::new();
    top.push((String::from_str("d"), d));
    top.push((String::from_str("op"), number_value(2)));
    let r = object_of(top);
    proof {
        let expected = identify_json(token@, intents, os@, browser@, device@);
        assert(object_entries(props@) =~= object_entries(object_entries(object_entries(expected)[0].1)[1].1));
        assert(object_entries(d@) =~= object_entries(object_entries(expected)[0].1));
        assert(object_entries(r@) =~= object_entries(expected));
    }
    r
}

/// What a shard tells of itself in its identify payload: its system, and
/// the names the client gives as browser and device.
#[derive(Debug)]
pub struct ConnectionProperties {
    pub os: String,
    pub browser: String,
    pub device: String,
}

/// A shard once it has sent its identify payload.
#[derive(Debug, Clone, Copy, PartialEq, Eq, Structural)]
pub struct ShardRecord {
    pub id: u64,
    pub total: u64,
    pub intents: u64,
    pub state: ShardState,
    /// Whether its loops run.
    pub run: bool,
    /// The interval of its heartbeats, in milliseconds.
    pub heartbeat_interval: u64,
}

/// What a shard does with the first message of the gateway: with a hello
/// that gives a heartbeat interval, it sends the identify payload and
/// becomes a connecting, running shard; otherwise it sends nothing and
/// fails with the reason.
pub fn on_hello(
    hello: Option<&str>,
    id: u64,
    total: u64,
    token: &str,
    intents: u64,
    properties: &ConnectionProperties,
) -> (r: Result<(JsonValue, ShardRecord), HelloError>)
    ensures
        match hello {
            None => r matches Err(e) && e == HelloError::NoHello,
            Some(t) => match (match json_text_value(t@) {
                None => Err::<u64, HelloError>(HelloError::NotJson),
                Some(v) => hello_result(v),
            }) {
                Err(e) => r matches Err(x) && x == e,
                Ok(interval) => r matches Ok((payload, record)) && payload@ == identify_json(
                    token@,
                    intents,
                    properties.os@,
                    properties.browser@,
                    properties.device@,
                ) && record == (ShardRecord {
                    id,
                    total,
                    intents,
                    state: ShardState::Connecting,
                    run: true,
                    heartbeat_interval: interval,
                }),
            },
        },
{
    let text = match hello {
        None => {
            return Err(HelloError::NoHello);
        },
        Some(t) => t,
    };
    let interval = match hello_from_text(text) {
        Err(e) => {
            return Err(e);
        },
        Ok(i) => i,
    };
    let payload = identify_payload(
        token,
        intents,
        properties.os.as_str(),
        properties.browser.as_str(),
        properties.device.as_str(),
    );
    Ok((payload, ShardRecord { id, total, intents, state: ShardState::Connecting, run: true, heartbeat_interval: interval }))
}

/// The heartbeat payload: the milliseconds since the last heartbeat, under
/// opcode 1.
pub open spec fn heartbeat_json(elapsed_millis: u64) -> JsonView {
    JsonView::Object(seq![("d"@, json_num(elapsed_millis)), ("op"@, json_num(1))])
}

/// The heartbeat a shard sends at each interval.
pub fn heartbeat_payload(elapsed_millis: u64) -> (r: JsonValue)
    ensures
        r@ == heartbeat_json(elapsed_millis),
{
    let mut es: Vec<(String, JsonValue)> = Vec::new();
    es.push((String::from_str("d"), number_value(elapsed_millis)));
    es.push((String::from_str("op"), number_value(1)));
    let r = object_of(es);
    proof {
        assert(object_entries(r@) =~= object_entries(heartbeat_json(elapsed_millis)));
    }
    r
}

/// The presence update payload: the presence, under opcode 3.
pub open spec fn presence_update_json(presence: JsonView) -> JsonView {
    JsonView::Object(seq![("d"@, presence), ("op"@, json_num(3))])
}

/// The payload that sets the presence of a shard.
pub fn presence_update_payload(presence: JsonValue) -> (r: JsonValue)
    ensures
        r@ == presence_update_json(presence@),
{
    let ghost pv = presence@;
    let mut es: Vec<(String, JsonValue)> = Vec::new();
    es.push((String::from_str("d"), presence));
    es.push((String::from_str("op"), number_value(3)));
    let r = object_of(es);
    proof {
        assert(object_entries(r@) =~= object_entries(presence_update_json(pv)));
    }
    r
}

// ----------------------------------------------------------------------
// Receiving

/// What a shard does with a message it received.
#[derive(Debug, Clone, Copy, PartialEq, Eq, Structural)]
pub enum Received {
    /// A heartbeat ACK: the ping is measured, the message kept back.
    HeartbeatAck,
    /// Any other message is handed on to the client.
    Forward,
}

/// Sorts a message received by a shard: opcode 11 is a heartbeat ACK.
pub fn classify_received(content: &JsonValue) -> (r: Received)
    ensures
        r == if json_u64(json_index(content@, "op"@)) == Some(11u64) { Received::HeartbeatAck } else { Received::Forward },
{
    match get_u64(content, "op") {
        Some(op) => if op == 11 {
            Received::HeartbeatAck
        } else {
            Received::Forward
        },
        None => Received::Forward,
    }
}

/// What the client does with a message of a shard: its opcode, when it is a
/// known one; a message without a number under `op` is skipped.
pub open spec fn routed_op(content: JsonView) -> Option<u64> {
    json_u64(json_index(content, "op"@))
}

/// The opcode of a message the client received, if it has one.
pub fn message_op(content: &JsonValue) -> (r: Option<u64>)
    ensures
        r == routed_op(content@),
{
    get_u64(content, "op")
}

// ----------------------------------------------------------------------
// Dispatch

/// The events the client hands to its event handler.
#[derive(Debug, Clone, Copy, PartialEq, Eq, Structural)]
pub enum DispatchKind {
    Ready,
    GuildCreate,
    GuildDelete,
    MessageCreate,
    MessageDelete,
    GuildMemberAdd,
    GuildMemberUpdate,
    InteractionCreate,
    /// An event the client does not handle.
    Unhandled,
}

/// The event of an event name.
pub open spec fn dispatch_kind_of(name: Seq<char>) -> DispatchKind {
    if name == "READY"@ {
        DispatchKind::Ready
    } else if name == "GUILD_CREATE"@ {
        DispatchKind::GuildCreate
    } else if name == "GUILD_DELETE"@ {
        DispatchKind::GuildDelete
    } else if name == "MESSAGE_CREATE"@ {
        DispatchKind::MessageCreate
    } else if name == "MESSAGE_DELETE"@ {
        DispatchKind::MessageDelete
    } else if name == "GUILD_MEMBER_ADD"@ {
        DispatchKind::GuildMemberAdd
    } else if name == "GUILD_MEMBER_UPDATE"@ {
        DispatchKind::GuildMemberUpdate
    } else if name == "INTERACTION_CREATE"@ {
        DispatchKind::InteractionCreate
    } else {
        DispatchKind::Unhandled
    }
}

/// The name under which the gateway sends each event the client handles;
/// the unhandled kind has none.
pub open spec fn event_name(k: DispatchKind) -> Seq<char> {
    match k {
        DispatchKind::Ready => "READY"@,
        DispatchKind::GuildCreate => "GUILD_CREATE"@,
        DispatchKind::GuildDelete => "GUILD_DELETE"@,
        DispatchKind::MessageCreate => "MESSAGE_CREATE"@,
        DispatchKind::MessageDelete => "MESSAGE_DELETE"@,
        DispatchKind::GuildMemberAdd => "GUILD_MEMBER_ADD"@,
        DispatchKind::GuildMemberUpdate => "GUILD_MEMBER_UPDATE"@,
        DispatchKind::InteractionCreate => "INTERACTION_CREATE"@,
        DispatchKind::Unhandled => Seq::empty(),
    }
}

/// Every event the client handles is dispatched under its own name: the
/// name of each handled kind reads back as that kind, and a name that
/// reads as a handled kind is that kind's name. So no two events share a
/// kind, and no handled event is dropped.
pub proof fn law_event_names_dispatch(k: DispatchKind, name: Seq<char>)
    ensures
        k != DispatchKind::Unhandled ==> dispatch_kind_of(event_name(k)) == k,
        dispatch_kind_of(name) != DispatchKind::Unhandled ==> name == event_name(dispatch_kind_of(name)),
{
    reveal_strlit("READY");
    reveal_strlit("GUILD_CREATE");
    reveal_strlit("GUILD_DELETE");
    reveal_strlit("MESSAGE_CREATE");
    reveal_strlit("MESSAGE_DELETE");
    reveal_strlit("GUILD_MEMBER_ADD");
    reveal_strlit("GUILD_MEMBER_UPDATE");
    reveal_strlit("INTERACTION_CREATE");
    assert("READY"@.len() == 5);
    assert("GUILD_CREATE"@.len() == 12 && "GUILD_DELETE"@.len() == 12);
    assert("GUILD_CREATE"@[6] != "GUILD_DELETE"@[6]);
    assert("MESSAGE_CREATE"@.len() == 14 && "MESSAGE_DELETE"@.len() == 14);
    assert("MESSAGE_CREATE"@[8] != "MESSAGE_DELETE"@[8]);
    assert("GUILD_MEMBER_ADD"@.len() == 16);
    assert("GUILD_MEMBER_UPDATE"@.len() == 19);
    assert("INTERACTION_CREATE"@.len() == 18);
}

/// The event of an event name.
pub fn dispatch_kind(name: &str) -> (r: DispatchKind)
    ensures
        r == dispatch_kind_of(name@),
{
    if str_eq(name, "READY") {
        DispatchKind::Ready
    } else if str_eq(name, "GUILD_CREATE") {
        DispatchKind::GuildCreate
    } else if str_eq(name, "GUILD_DELETE") {
        DispatchKind::GuildDelete
    } else if str_eq(name, "MESSAGE_CREATE") {
        DispatchKind::MessageCreate
    } else if str_eq(name, "MESSAGE_DELETE") {
        DispatchKind::MessageDelete
    } else if str_eq(name, "GUILD_MEMBER_ADD") {
        DispatchKind::GuildMemberAdd
    } else if str_eq(name, "GUILD_MEMBER_UPDATE") {
        DispatchKind::GuildMemberUpdate
    } else if str_eq(name, "INTERACTION_CREATE") {
        DispatchKind::InteractionCreate
    } else {
        DispatchKind::Unhandled
    }
}

/// The events whose data is told the shard it came from.
pub open spec fn takes_shard(k: DispatchKind) -> bool {
    k == DispatchKind::GuildCreate || k == DispatchKind::GuildDelete || k == DispatchKind::MessageDelete
        || k == DispatchKind::GuildMemberAdd || k == DispatchKind::GuildMemberUpdate
}

/// Whether `value["d"]["shard"]` can be set on a value: it is an object
/// whose data is missing, `null` or an object.
pub open spec fn shard_settable(content: JsonView) -> bool {
    &&& content is Object
    &&& (json_index(content, "d"@) is Null || json_index(content, "d"@) is Object)
}

/// The message after `value["d"]["shard"] = shard`: data that is missing or
/// `null` becomes an object.
pub open spec fn with_shard(content: JsonView, shard: u64) -> JsonView {
    let d = json_index(content, "d"@);
    let d2 = if d is Object {
        json_set(d, "shard"@, json_num(shard))
    } else {
        JsonView::Object(seq![("shard"@, json_num(shard))])
    };
    json_set(content, "d"@, d2)
}

/// Telling an event its shard sets `d.shard` to the shard and leaves the
/// other fields of the data, and the other fields of the message, as they
/// were.
pub proof fn law_with_shard_tags_the_data(content: JsonView, shard: u64, key: Seq<char>, other: Seq<char>)
    requires
        shard_settable(content),
        key != "shard"@,
        other != "d"@,
    ensures
        json_get(json_index(with_shard(content, shard), "d"@), "shard"@) == Some(json_num(shard)),
        json_index(content, "d"@) is Object ==> json_get(json_index(with_shard(content, shard), "d"@), key)
            == json_get(json_index(content, "d"@), key),
        json_get(with_shard(content, shard), other) == json_get(content, other),
{
    let d = json_index(content, "d"@);
    let d2 = if d is Object { json_set(d, "shard"@, json_num(shard)) } else { JsonView::Object(seq![("shard"@, json_num(shard))]) };
    law_json_set_get(content, "d"@, d2, other);
    if d is Object {
        law_json_set_get(d, "shard"@, json_num(shard), key);
    } else {
        law_json_set_get(JsonView::Object(Seq::empty()), "shard"@, json_num(shard), key);
        assert(json_set(JsonView::Object(Seq::empty()), "shard"@, json_num(shard)) == d2);
    }
}

/// Why a message of the gateway is not dispatched.
#[derive(Debug, Clone, Copy, PartialEq, Eq, Structural)]
pub enum DispatchError {
    /// The message has no event name.
    NoEventName,
}

/// Sets `content["d"]["shard"]`.
fn insert_shard(content: &mut JsonValue, shard: u64)
    requires
        shard_settable(old(content)@),
    ensures
        final(content)@ == with_shard(old(content)@, shard),
{
    let mut c = JsonValue::Null;
    std::mem::swap(&mut c, content);
    let ghost cv = c@;
    match c {
        JsonValue::Object(mut es) => {
            proof {
                lemma_object_view(es);
                lemma_first_key_index(entries_view(es@), "d"@);
            }
            let ghost e = entries_view(es@);
            match find_key(&es, "d") {
                Some(j) => {
                    let (k, dv) = es.remove(j);
                    let ghost dview = dv@;
                    proof {
                        assert(e[j as int] == (k@, dv@));
                        assert(json_index(cv, "d"@) == dview);
                    }
                    let newd = match dv {
                        JsonValue::Object(mut des) => {
                            proof {
                                lemma_object_view(des);
                            }
                            set_entry(&mut des, "shard", number_value(shard));
                            object_of(des)
                        },
                        _ => {
                            let mut des: Vec<(String, JsonValue)> = Vec::new();
                            des.push((String::from_str("shard"), number_value(shard)));
                            let o = object_of(des);
                            proof {
                                assert(object_entries(o@) =~= seq![("shard"@, json_num(shard))]);
                            }
                            o
                        },
                    };
                    let ghost nd = newd@;
                    es.insert(j, (k, newd));
                    proof {
                        assert(entries_view(es@) =~= e.update(j as int, ("d"@, nd)));
                    }
                    *content = object_of(es);
                },
                None => {
                    let mut des: Vec<(String, JsonValue)> = Vec::new();
                    des.push((String::from_str("shard"), number_value(shard)));
                    let o = object_of(des);
                    proof {
                        assert(object_entries(o@) =~= seq![("shard"@, json_num(shard))]);
                        assert(json_index(cv, "d"@) == JsonView::Null);
                    }
                    let ghost nd = o@;
                    es.push((String::from_str("d"), o));
                    proof {
                        assert(entries_view(es@) =~= e.push(("d"@, nd)));
                    }
                    *content = object_of(es);
                },
            }
        },
        _ => {
            proof {
                assert(false);
            }
        },
    }
}

/// Reads the event name of a message of the gateway, and tells the data of
/// the events that carry it which shard it came from.
pub fn prepare_dispatch(content: &mut JsonValue, shard: u64) -> (r: Result<DispatchKind, DispatchError>)
    requires
        json_str(json_index(old(content)@, "t"@)) matches Some(name) && takes_shard(dispatch_kind_of(name))
            ==> shard_settable(old(content)@),
    ensures
        match json_str(json_index(old(content)@, "t"@)) {
            None => r == Err::<DispatchKind, _>(DispatchError::NoEventName) && final(content)@ == old(content)@,
            Some(name) => r == Ok::<_, DispatchError>(dispatch_kind_of(name)) && final(content)@ == if takes_shard(dispatch_kind_of(name)) {
                with_shard(old(content)@, shard)
            } else {
                old(content)@
            },
        },
{
    let kind = match get_str(content, "t") {
        Some(name) => dispatch_kind(name),
        None => return Err(DispatchError::NoEventName),
    };
    match kind {
        DispatchKind::GuildCreate | DispatchKind::GuildDelete | DispatchKind::MessageDelete
        | DispatchKind::GuildMemberAdd | DispatchKind::GuildMemberUpdate => {
            insert_shard(content, shard);
        },
        _ => {},
    }
    Ok(kind)
}

// ----------------------------------------------------------------------
// The shard loop of the client

/// What the client knows of a shard at a turn of its loop.
#[derive(Debug, Clone, Copy, PartialEq, Eq, Structural)]
pub struct ShardSnapshot {
    /// Whether the shard manager holds the shard.
    pub present: bool,
    /// Whether the shard is meant to run.
    pub running: bool,
    /// Whether the shard's socket is up.
    pub connected: bool,
}

/// What the client does with a shard at a turn of its loop.
#[derive(Debug, Clone, Copy, PartialEq, Eq, Structural)]
pub enum ShardAction {
    /// The shard was spawned once and was stopped: it is left alone for good.
    FullyDisconnected,
    /// The shard is (re)connected.
    Connect,
    /// The shard is left as it is.
    Keep,
}

/// The action for a shard: a stopped shard that was spawned before is
/// fully disconnected; a missing shard counts as running and disconnected;
/// a running, disconnected shard is connected.
pub open spec fn shard_action_of(s: ShardSnapshot, spawned: bool) -> ShardAction {
    if s.present && !s.running && spawned {
        ShardAction::FullyDisconnected
    } else {
        let running = if s.present { s.running } else { true };
        let connected = if s.present { s.connected } else { false };
        if running && !connected {
            ShardAction::Connect
        } else {
            ShardAction::Keep
        }
    }
}

/// How many shards are fully disconnected.
pub open spec fn count_fully_disconnected(actions: Seq<ShardAction>) -> nat
    decreases actions.len(),
{
    if actions.len() == 0 {
        0
    } else {
        count_fully_disconnected(actions.drop_last())
            + if actions.last() == ShardAction::FullyDisconnected { 1nat } else { 0nat }
    }
}

/// The spawned list after a turn: the shards connected for the first time
/// are added, in order.
pub open spec fn spawned_after(spawned: Seq<u64>, actions: Seq<ShardAction>) -> Seq<u64>
    decreases actions.len(),
{
    if actions.len() == 0 {
        spawned
    } else {
        let prev = spawned_after(spawned, actions.drop_last());
        let i = (actions.len() - 1) as u64;
        if actions.last() == ShardAction::Connect && !prev.contains(i) {
            prev.push(i)
        } else {
            prev
        }
    }
}

/// Whether a list of shard numbers holds `i`.
fn holds_shard(v: &Vec<u64>, i: u64) -> (r: bool)
    ensures
        r == v@.contains(i),
{
    let mut j: usize = 0;
    while j < v.len()
        invariant
            j <= v@.len(),
            forall|k: int| 0 <= k < j ==> v@[k] != i,
        decreases v@.len() - j,
    {
        if v[j] == i {
            proof {
                assert(v@[j as int] == i);
            }
            return true;
        }
        j += 1;
    }
    false
}

proof fn lemma_spawned_only_earlier(spawned: Seq<u64>, actions: Seq<ShardAction>, i: u64)
    requires
        i >= actions.len(),
    ensures
        spawned_after(spawned, actions).contains(i) == spawned.contains(i),
    decreases actions.len(),
{
    if actions.len() > 0 {
        let prev = spawned_after(spawned, actions.drop_last());
        lemma_spawned_only_earlier(spawned, actions.drop_last(), i);
        let k = (actions.len() - 1) as u64;
        if actions.last() == ShardAction::Connect && !prev.contains(k) {
            assert(prev.push(k).contains(i) == prev.contains(i)) by {
                if prev.push(k).contains(i) {
                    let w = choose|w: int| 0 <= w < prev.push(k).len() && prev.push(k)[w] == i;
                    if w < prev.len() {
                        assert(prev[w] == i);
                    }
                }
                if prev.contains(i) {
                    let w = choose|w: int| 0 <= w < prev.len() && prev[w] == i;
                    assert(prev.push(k)[w] == i);
                }
            }
        }
    }
}

/// One turn of the client's loop over its shards: the action for each
/// shard, with the list of shards spawned so far brought up to date; and
/// whether every shard is fully disconnected, which ends the loop.
pub fn shards_turn(shards: &Vec<ShardSnapshot>, spawned: &mut Vec<u64>) -> (r: (Vec<ShardAction>, bool))
    requires
        shards@.len() <= u64::MAX,
    ensures
        r.0@.len() == shards@.len(),
        forall|i: int| 0 <= i < shards@.len() ==> #[trigger] r.0@[i] == shard_action_of(shards@[i], old(spawned)@.contains(i as u64)),
        final(spawned)@ == spawned_after(old(spawned)@, r.0@),
        r.1 == (count_fully_disconnected(r.0@) == shards@.len()),
{
    let ghost start = spawned@;
    let mut actions: Vec<ShardAction> = Vec::new();
    let mut fully: u64 = 0;
    let mut i: usize = 0;
    while i < shards.len()
        invariant
            i <= shards@.len(),
            shards@.len() <= u64::MAX,
            actions@.len() == i,
            forall|k: int| 0 <= k < i ==> #[trigger] actions@[k] == shard_action_of(shards@[k], start.contains(k as u64)),
            spawned@ == spawned_after(start, actions@),
            fully == count_fully_disconnected(actions@),
            fully <= i,
        decreases shards@.len() - i,
    {
        let s = shards[i];
        let idx = i as u64;
        proof {
            lemma_spawned_only_earlier(start, actions@, idx);
        }
        let already = holds_shard(spawned, idx);
        let action = if s.present && !s.running && already {
            ShardAction::FullyDisconnected
        } else {
            let running = if s.present { s.running } else { true };
            let connected = if s.present { s.connected } else { false };
            if running && !connected {
                ShardAction::Connect
            } else {
                ShardAction::Keep
            }
        };
        let ghost before = actions@;
        actions.push(action);
        proof {
            assert(actions@.drop_last() =~= before);
        }
        match action {
            ShardAction::FullyDisconnected => {
                fully = fully + 1;
            },
            ShardAction::Connect => {
                if !already {
                    spawned.push(idx);
                }
            },
            ShardAction::Keep => {},
        }
        i += 1;
    }
    let stop = fully == shards.len() as u64;
    (actions, stop)
}

} // verus!

verus! {

// ----------------------------------------------------------------------
// What the API tells of the gateway

/// How many sessions the bot may still start, as the API tells it.
#[derive(Debug, Clone, Copy, PartialEq, Eq, Structural)]
pub struct SessionLimit {
    /// Sessions that may be started before the limit applies.
    pub total: u32,
    /// Sessions that may still be started.
    pub remaining: u32,
    /// Milliseconds before the limit resets.
    pub reset_after: u32,
    /// Sessions that may be started in each period of five seconds.
    pub max_concurrency: u32,
}

/// A number that fits in a `u32`.
pub open spec fn json_u32(v: JsonView) -> Option<u32> {
    match json_u64(v) {
        Some(n) => if n <= 0xffff_ffffu64 { Some(n as u32) } else { None },
        None => None,
    }
}

/// The `u32` under a key of an object.
pub open spec fn u32_field(v: JsonView, key: Seq<char>) -> Option<u32> {
    match crate::json::json_get(v, key) {
        Some(x) => json_u32(x),
        None => None,
    }
}

/// The session limit that an object holds: each of its four numbers under
/// its name; other keys are ignored.
pub open spec fn session_limit_from_json(v: JsonView) -> Option<SessionLimit> {
    let t = u32_field(v, "total"@);
    let r = u32_field(v, "remaining"@);
    let a = u32_field(v, "reset_after"@);
    let m = u32_field(v, "max_concurrency"@);
    if t is Some && r is Some && a is Some && m is Some {
        Some(SessionLimit { total: t->0, remaining: r->0, reset_after: a->0, max_concurrency: m->0 })
    } else {
        None
    }
}

fn read_u32_field(v: &JsonValue, key: &str) -> (r: Option<u32>)
    ensures
        r == u32_field(v@, key@),
{
    match v.get(key) {
        Some(x) => match x.as_u64() {
            Some(n) => if n <= 0xffff_ffffu64 { Some(n as u32) } else { None },
            None => None,
        },
        None => None,
    }
}

impl SessionLimit {
    /// Reads a session limit from a payload.
    pub fn from_raw(raw: &JsonValue) -> (r: Option<SessionLimit>)
        ensures
            r == session_limit_from_json(raw@),
    {
        let t = read_u32_field(raw, "total");
        let r = read_u32_field(raw, "remaining");
        let a = read_u32_field(raw, "reset_after");
        let m = read_u32_field(raw, "max_concurrency");
        match (t, r, a, m) {
            (Some(total), Some(remaining), Some(reset_after), Some(max_concurrency)) => Some(
                SessionLimit { total, remaining, reset_after, max_concurrency },
            ),
            _ => None,
        }
    }
}

/// Where the gateway is, how many shards the bot should run, and its
/// session limit.
#[derive(Debug)]
pub struct GatewayInfos {
    pub url: String,
    pub shards: u64,
    pub session_limit: SessionLimit,
}

/// What the answer about the gateway holds: a text under `url`, a number
/// under `shards` and a session limit under `session_start_limit`.
pub open spec fn gateway_infos_from_json(v: JsonView) -> Option<(Seq<char>, u64, SessionLimit)> {
    let url = json_str(json_index(v, "url"@));
    let shards = json_u64(json_index(v, "shards"@));
    let limit = session_limit_from_json(json_index(v, "session_start_limit"@));
    if url is Some && shards is Some && limit is Some {
        Some((url->0, shards->0, limit->0))
    } else {
        None
    }
}

/// Reads the answer about the gateway; `None` where a part is missing or
/// of another kind, on which the client cannot start.
pub fn read_gateway_infos(raw: &JsonValue) -> (r: Option<GatewayInfos>)
    ensures
        match gateway_infos_from_json(raw@) {
            Some((url, shards, limit)) => r matches Some(g) && g.url@ == url && g.shards == shards && g.session_limit == limit,
            None => r is None,
        },
{
    let url = get_str(raw, "url");
    let shards = get_u64(raw, "shards");
    let limit = match raw.get("session_start_limit") {
        Some(x) => SessionLimit::from_raw(x),
        None => None,
    };
    match (url, shards, limit) {
        (Some(u), Some(s), Some(l)) => Some(GatewayInfos { url: String::from_str(u), shards: s, session_limit: l }),
        _ => None,
    }
}

} // verus!
