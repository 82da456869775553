use pandora::cache::{CacheDock, UpdateCache};
use pandora::http::{
    application_route, guild_route, retry_after, status_action, HttpConfiguration, HttpMethod, RateLimitError,
    RetryCounter, StatusAction,
};
use pandora::json::{JsonNumber, JsonValue};
use pandora::models::channel::{ChannelKind, GuildVoice};
use pandora::models::components::Color;
use pandora::models::ids::{ChannelId, GuildId, Snowflake, UserId};
use pandora::models::message::message_flags::{EPHEMERAL, LOADING};
use pandora::models::message::MessageFlags;
use pandora::models::user::User;
use pandora::text::{parse_u64, str_to_chars, u64_to_string};

fn user(avatar: Option<&str>) -> User {
    User {
        id: UserId(Snowflake("80351110224678912".to_string())),
        username: "Nelly".to_string(),
        discriminator: Some("1337".to_string()),
        global_name: None,
        avatar: avatar.map(|s| s.to_string()),
        bot: None,
        system: None,
        banner: None,
        accent_color: None,
        locale: None,
        flags: None,
        public_flags: None,
        premium_type: None,
    }
}

#[test]
fn avatar_urls() {
    let u = user(Some("a_abc"));
    assert_eq!(
        u.avatar_url(128, true, "png").unwrap(),
        "https://cdn.discordapp.com/avatars/80351110224678912/a_abc.gif?size=128"
    );
    assert_eq!(
        u.avatar_url(64, false, "png").unwrap(),
        "https://cdn.discordapp.com/avatars/80351110224678912/a_abc.png?size=64"
    );
    assert!(user(None).avatar_url(64, true, "png").is_none());
}

#[test]
fn user_update_takes_fresh_fields() {
    let mut a = user(None);
    let b = user(Some("x"));
    a.update(&b);
    assert_eq!(a.avatar.as_deref(), Some("x"));
}

#[test]
fn colors() {
    assert_eq!(Color::from_hex("#ff174f").0, 0xff174f);
    assert_eq!(Color::from_hex("not a color").0, 0);
    assert_eq!(Color::from_rgb(1, 2, 3).0, 0x010203);
}

#[test]
fn flags_add_then_remove() {
    let mut f = MessageFlags::new();
    f.add_flag(EPHEMERAL);
    f.add_flag(LOADING);
    assert_eq!(f.0, 192);
    f.remove_flag(EPHEMERAL);
    assert_eq!(f.0, 128);
    assert!(!f.is_empty());
}

#[test]
fn decimal_text() {
    assert_eq!(u64_to_string(0), "0");
    assert_eq!(u64_to_string(18446744073709551615), "18446744073709551615");
    assert_eq!(parse_u64(&str_to_chars("42")), Some(42));
    assert_eq!(parse_u64(&str_to_chars("18446744073709551616")), None);
    assert_eq!(parse_u64(&str_to_chars("4a")), None);
}

#[test]
fn snowflake_timestamp() {
    let s = Snowflake("175928847299117063".to_string());
    assert_eq!(s.get_timestamp(), Ok(1462015105796));
    assert!(Snowflake("x".to_string()).get_timestamp().is_err());
}

#[test]
fn cache_dock_round_trip() {
    let mut dock: CacheDock<Snowflake, u32> = CacheDock::new(10);
    dock.insert(Snowflake("1".into()), 5);
    dock.insert(Snowflake("2".into()), 6);
    dock.insert(Snowflake("1".into()), 7);
    assert_eq!(dock.len(), 2);
    assert_eq!(dock.get(&Snowflake("1".into())), Some(&7));
    assert_eq!(dock.remove(&Snowflake("2".into())), Some(6));
    assert_eq!(dock.get(&Snowflake("2".into())), None);
    dock.manage_size();
    assert_eq!(dock.len(), 1);
}

#[test]
fn routes() {
    let r = application_route("https://discord.com/api/v10");
    assert_eq!(r.method, HttpMethod::Get);
    assert_eq!(r.url, "https://discord.com/api/v10/oauth2/applications/@me");
    let g = guild_route("https://x", GuildId(Snowflake("5".into())));
    assert_eq!(g.url, "https://x/guilds/5");
}

#[test]
fn statuses() {
    assert_eq!(status_action(204), StatusAction::NoContent);
    assert_eq!(status_action(200), StatusAction::ReadBody);
    assert_eq!(status_action(503), StatusAction::Retry);
    assert_eq!(status_action(429), StatusAction::RateLimited);
    assert_eq!(status_action(404), StatusAction::ReadError);
}

#[test]
fn rate_limit_body() {
    let body = JsonValue::Object(vec![("retry_after".to_string(), JsonValue::Number(JsonNumber::PosInt(3)))]);
    assert_eq!(retry_after(&body), Ok(&JsonNumber::PosInt(3)));
    assert_eq!(retry_after(&JsonValue::Object(vec![])), Err(RateLimitError::NoRetryAfter));
    let bad = JsonValue::Object(vec![("retry_after".to_string(), JsonValue::Null)]);
    assert_eq!(retry_after(&bad), Err(RateLimitError::NotANumber));
}

#[test]
fn retry_counter_stops_at_limit() {
    let conf = HttpConfiguration { retry_limit: 2, connect_timeout: 5000 };
    let mut c = RetryCounter::new(&conf);
    assert!(c.may_try());
    c.failed();
    c.failed();
    assert!(!c.may_try());
}

#[test]
fn voice_update_keeps_kind() {
    let mk = |kind: ChannelKind, name: &str| GuildVoice {
        id: ChannelId(Snowflake("1".into())),
        kind,
        name: Some(name.to_string()),
        guild_id: None,
        position: None,
        permission_overwrites: None,
        bitrate: None,
        user_limit: None,
        parent_id: None,
        rtc_region: None,
        video_quality_mode: None,
        permissions: None,
        nsfw: None,
    };
    let mut a = mk(ChannelKind::GuildVoice, "old");
    let b = mk(ChannelKind::GuildStageVoice, "new");
    a.update(&b);
    assert_eq!(a.name.as_deref(), Some("new"));
    assert_eq!(a.kind, ChannelKind::GuildVoice);
}

#[test]
fn cache_dock_evicts_least_recently_accessed() {
    let mut dock: CacheDock<u64, &str> = CacheDock::new(2);
    dock.insert_at(1, "a", 30);
    dock.insert_at(2, "b", 10);
    dock.insert_at(3, "c", 20);
    dock.insert_at(4, "d", 10);
    dock.manage_size();
    assert_eq!(dock.len(), 2);
    assert_eq!(dock.get(&1), Some(&"a"));
    assert_eq!(dock.get(&3), Some(&"c"));
    assert_eq!(dock.get(&2), None);
    assert_eq!(dock.get(&4), None);
    if let Some(x) = dock.get_mut(&3) {
        *x = "z";
    }
    assert_eq!(dock.get(&3), Some(&"z"));
    assert!(dock.get_mut(&9).is_none());
    let mut small: CacheDock<u64, u8> = CacheDock::new(0);
    small.insert(1, 1);
    small.manage_size();
    assert_eq!(small.len(), 0);
}
