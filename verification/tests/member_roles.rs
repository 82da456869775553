use pandora::http::{HttpMethod, MemberRoleError};
use pandora::models::guild::GuildMember;
use pandora::models::ids::{GuildId, Snowflake, UserId};
use pandora::models::user::User;

fn member(guild: Option<&str>, user: Option<&str>) -> GuildMember {
    GuildMember {
        user: user.map(|id| User {
            id: UserId(Snowflake(id.to_string())),
            username: "bob".to_string(),
            discriminator: None,
            global_name: None,
            avatar: None,
            bot: None,
            system: None,
            banner: None,
            accent_color: None,
            locale: None,
            flags: None,
            public_flags: None,
            premium_type: None,
        }),
        nickname: None,
        avatar: None,
        roles: vec![],
        joined_at: 0,
        premium_since: None,
        flags: 0,
        pending: false,
        permissions: None,
        communication_disabled_until: None,
        guild_id: guild.map(|g| GuildId(Snowflake(g.to_string()))),
    }
}

#[test]
fn role_requests_of_a_member() {
    let m = member(Some("1"), Some("2"));
    let add = m.add_role("https://api", Snowflake("3".to_string())).unwrap();
    assert_eq!(add.method, HttpMethod::Put);
    assert_eq!(add.url, "https://api/guilds/1/members/2/roles/3");
    assert!(add.body.is_none());
    let remove = m.remove_role("https://api", Snowflake("3".to_string())).unwrap();
    assert_eq!(remove.method, HttpMethod::Delete);
    assert_eq!(remove.url, "https://api/guilds/1/members/2/roles/3");
    assert_eq!(member(None, Some("2")).add_role("a", Snowflake("3".to_string())).unwrap_err(), MemberRoleError::NoGuild);
    assert_eq!(member(Some("1"), None).remove_role("a", Snowflake("3".to_string())).unwrap_err(), MemberRoleError::NoUser);
    assert_eq!(member(None, None).remove_role("a", Snowflake("3".to_string())).unwrap_err(), MemberRoleError::NoGuild);
}
