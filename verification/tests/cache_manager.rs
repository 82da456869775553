use pandora::cache::CacheDock;
use pandora::cache_manager::CacheManager;
use pandora::json::{JsonNumber, JsonValue};
use pandora::models::channel::{Channel, ChannelKind, GuildCategory, GuildTextChannel};
use pandora::models::ids::{ChannelId, Snowflake, UserId};
use pandora::models::message::Message;
use pandora::models::user::User;

fn obj(es: Vec<(&str, JsonValue)>) -> JsonValue {
    JsonValue::Object(es.into_iter().map(|(k, v)| (k.to_string(), v)).collect())
}

fn s(x: &str) -> JsonValue {
    JsonValue::String(x.to_string())
}

fn message(id: &str, content: &str) -> Message {
    let raw = obj(vec![
        ("id", s(id)),
        ("channel_id", s("10")),
        ("author", obj(vec![("id", s("3")), ("username", s("nelly"))])),
        ("content", s(content)),
        ("type", JsonValue::Number(JsonNumber::PosInt(0))),
    ]);
    Message::from_raw_at(&raw, 0).unwrap()
}

fn text_channel(id: &str, name: &str) -> Channel {
    Channel::GuildText(GuildTextChannel {
        id: ChannelId(Snowflake(id.to_string())),
        kind: ChannelKind::GuildText,
        name: Some(name.to_string()),
        guild_id: None,
        position: None,
        permission_overwrites: None,
        topic: None,
        nsfw: None,
        last_message_id: None,
        rate_limit_per_user: None,
        parent_id: None,
        last_pin_timestamp: None,
        permissions: None,
        flags: None,
        messages: CacheDock::new(100),
    })
}

fn user(id: &str, name: &str) -> User {
    User {
        id: UserId(Snowflake(id.to_string())),
        username: name.to_string(),
        discriminator: None,
        global_name: None,
        avatar: None,
        bot: None,
        system: None,
        banner: None,
        accent_color: None,
        locale: None,
        flags: None,
        public_flags: None,
        premium_type: None,
    }
}

#[test]
fn users_read_back() {
    let mut cache = CacheManager::new();
    cache.update_user(&user("1", "a"));
    cache.update_user(&user("2", "b"));
    cache.update_user(&user("1", "c"));
    assert_eq!(cache.get_user_size(), 2);
    assert_eq!(cache.get_user(&UserId(Snowflake("1".into()))).unwrap().username, "c");
    assert!(cache.get_user(&UserId(Snowflake("3".into()))).is_none());
}

#[test]
fn channels_and_messages() {
    let mut cache = CacheManager::new();
    cache.update_channel(&text_channel("10", "general"));
    cache.update_channel(&text_channel("10", "renamed"));
    assert_eq!(cache.get_channel_size(), 1);
    match cache.get_channel(&ChannelId(Snowflake("10".into()))).unwrap() {
        Channel::GuildText(c) => assert_eq!(c.name.as_deref(), Some("renamed")),
        _ => panic!("expected a text channel"),
    }
    let cid = ChannelId(Snowflake("10".into()));
    cache.update_message(&cid, message("100", "hello"));
    cache.update_message(&cid, message("100", "edited"));
    cache.update_message(&cid, message("101", "other"));
    let m = cache.get_message(&cid, &Snowflake("100".into())).unwrap();
    assert_eq!(m.content.as_deref(), Some("edited"));
    cache.delete_message(&cid, &Snowflake("100".into()));
    assert!(cache.get_message(&cid, &Snowflake("100".into())).is_none());
    assert!(cache.get_message(&cid, &Snowflake("101".into())).is_some());
}

#[test]
fn categories_are_not_cached() {
    let mut cache = CacheManager::new();
    let category = Channel::GuildCategory(GuildCategory {
        id: ChannelId(Snowflake("5".into())),
        kind: ChannelKind::GuildCategory,
        name: None,
        guild_id: None,
        position: None,
        permission_overwrites: None,
        permissions: None,
    });
    cache.update_channel(&category);
    assert_eq!(cache.get_channel_size(), 0);
    let cid = ChannelId(Snowflake("5".into()));
    cache.update_message(&cid, message("1", "x"));
    assert!(cache.get_message(&cid, &Snowflake("1".into())).is_none());
}
