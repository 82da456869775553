use pandora::models::components::Color;
use pandora::models::guild::GuildMember;
use pandora::models::ids::{Snowflake, UserId};
use pandora::models::interaction::{
    find_option, ApplicationCommandOptionType, InteractionDataOption, InteractionDataOptionValue,
};
use pandora::models::user::User;
use pandora::profile::{
    account_creation, avatar_link, color_hex, display_name, image_answer, image_embed, info_answer,
    info_embed, join_seconds, missing_data_error, pack_rgb, requester_author, target_error, user_target,
    ImageAnswer, ImageKind, InfoAnswer, ProfileCommand, UserTarget, DEFAULT_AVATAR,
};

fn user(id: &str, name: &str, global: Option<&str>, avatar: Option<&str>, banner: Option<&str>) -> User {
    User {
        id: UserId(Snowflake(id.to_string())),
        username: name.to_string(),
        discriminator: None,
        global_name: global.map(|g| g.to_string()),
        avatar: avatar.map(|a| a.to_string()),
        bot: None,
        system: None,
        banner: banner.map(|b| b.to_string()),
        accent_color: None,
        locale: None,
        flags: None,
        public_flags: None,
        premium_type: None,
    }
}

fn opt(name: &str, kind: ApplicationCommandOptionType, value: Option<InteractionDataOptionValue>) -> InteractionDataOption {
    InteractionDataOption { name: name.to_string(), option_type: kind, value, options: None, focused: None }
}

fn member(joined_at: i64) -> GuildMember {
    GuildMember {
        user: None,
        nickname: None,
        avatar: None,
        roles: vec![],
        joined_at,
        premium_since: None,
        flags: 0,
        pending: false,
        permissions: None,
        communication_disabled_until: None,
        guild_id: None,
    }
}

fn pairs(v: &[(&str, &str)]) -> Vec<(String, String)> {
    v.iter().map(|(a, b)| (a.to_string(), b.to_string())).collect()
}

#[test]
fn finds_the_first_option_of_name_and_type() {
    let os = vec![
        opt("user", ApplicationCommandOptionType::String, None),
        opt("other", ApplicationCommandOptionType::User, None),
        opt("user", ApplicationCommandOptionType::User, None),
        opt("user", ApplicationCommandOptionType::User, Some(InteractionDataOptionValue::Integer(1))),
    ];
    assert_eq!(find_option(&os, "user", ApplicationCommandOptionType::User), Some(2));
    assert_eq!(find_option(&os, "nope", ApplicationCommandOptionType::User), None);
}

#[test]
fn targets_of_the_user_option() {
    assert!(matches!(user_target(&None), UserTarget::Author));
    assert!(matches!(user_target(&Some(vec![])), UserTarget::Author));
    let os = vec![
        opt("user", ApplicationCommandOptionType::String, Some(InteractionDataOptionValue::String("1".into()))),
        opt("user", ApplicationCommandOptionType::User, Some(InteractionDataOptionValue::String("42".into()))),
    ];
    match user_target(&Some(os)) {
        UserTarget::Given(id) => assert_eq!(id.0 .0, "42"),
        _ => panic!("expected an identifier"),
    }
    let os = vec![opt("user", ApplicationCommandOptionType::User, Some(InteractionDataOptionValue::Integer(3)))];
    let t = user_target(&Some(os));
    assert!(matches!(t, UserTarget::NotText));
    assert_eq!(target_error(ProfileCommand::Avatar, &t), Some(16002));
    assert_eq!(target_error(ProfileCommand::Banner, &t), Some(17002));
    assert_eq!(target_error(ProfileCommand::UserInfo, &t), Some(17003));
    let os = vec![opt("user", ApplicationCommandOptionType::User, None)];
    let t = user_target(&Some(os));
    assert!(matches!(t, UserTarget::NoValue));
    assert_eq!(target_error(ProfileCommand::Avatar, &t), Some(16003));
    assert_eq!(target_error(ProfileCommand::Banner, &t), Some(17003));
    assert_eq!(target_error(ProfileCommand::Avatar, &UserTarget::Author), None);
    assert_eq!(missing_data_error(ProfileCommand::Banner), 16001);
    assert_eq!(missing_data_error(ProfileCommand::UserInfo), 17001);
}

#[test]
fn colors_pack_and_print() {
    assert_eq!(pack_rgb(0x12, 0x34, 0x56), 0x123456);
    assert_eq!(pack_rgb(0, 0, 0), 0);
    assert_eq!(color_hex(0x0a0b0c), "0A0B0C");
    assert_eq!(color_hex(0), "000000");
    assert_eq!(color_hex(0x1234567), "1234567");
    assert_eq!(color_hex(255), format!("{:0>6X}", 255u64));
}

#[test]
fn names_and_links() {
    assert_eq!(display_name(&user("1", "bob", Some("Bobby"), None, None)), "Bobby");
    assert_eq!(display_name(&user("1", "bob", None, None, None)), "bob");
    assert_eq!(avatar_link(&user("1", "bob", None, None, None), 4096, true, "png"), DEFAULT_AVATAR);
    assert_eq!(
        avatar_link(&user("1", "bob", None, Some("a_x"), None), 4096, true, "png"),
        "https://cdn.discordapp.com/avatars/1/a_x.gif?size=4096"
    );
}

#[test]
fn avatar_card_of_the_author() {
    let u = user("7", "bob", Some("Bobby"), Some("h"), None);
    match image_answer(ImageKind::Avatar, &Some(u), None, 0x00ff00) {
        ImageAnswer::Card(card) => {
            let link = "https://cdn.discordapp.com/avatars/7/h.png?size=4096";
            assert_eq!(card.link, link);
            assert_eq!(card.color, 0x00ff00);
            assert_eq!(card.description.key, "slashs::avatar::avatar_of");
            assert_eq!(card.description.args, pairs(&[("link", link), ("name", "Bobby")]));
            assert_eq!(card.footer.key, "slashs::avatar::footer");
            assert_eq!(card.footer.args, pairs(&[("hex", "00FF00")]));
            assert!(card.author.is_none());
            let e = image_embed(&card, "desc", "foot");
            assert_eq!(e.description.as_deref(), Some("desc"));
            assert_eq!(e.color, Some(Color(0x00ff00)));
            assert_eq!(e.image.unwrap().url.as_deref(), Some(link));
            assert_eq!(e.footer.unwrap().text, "foot");
            assert!(e.author.is_none());
        },
        _ => panic!("expected a card"),
    }
}

#[test]
fn banner_answers() {
    let no_banner = user("7", "bob", None, None, None);
    match image_answer(ImageKind::Banner, &Some(no_banner), None, 0) {
        ImageAnswer::Text(t) => {
            assert_eq!(t.key, "slashs::banner::no_banner");
            assert!(t.args.is_empty());
        },
        _ => panic!("expected a text"),
    }
    match image_answer(ImageKind::Banner, &None, None, 0) {
        ImageAnswer::Text(t) => assert_eq!(t.key, "errors::cannot_acquire_user"),
        _ => panic!("expected a text"),
    }
    let with_banner = user("7", "bob", None, None, Some("b"));
    let requester = Some(user("8", "amy", None, Some("z"), None));
    match image_answer(ImageKind::Banner, &Some(with_banner), Some(&requester), 1) {
        ImageAnswer::Card(card) => {
            assert_eq!(card.link, "https://cdn.discordapp.com/banners/7/b.png?size=4096");
            assert_eq!(card.description.key, "slashs::banner::banner_of");
            assert_eq!(card.footer.args, pairs(&[("hex", "000001")]));
            let a = card.author.as_ref().unwrap();
            assert_eq!(a.name, "amy");
            assert_eq!(a.icon_url.as_deref(), Some("https://cdn.discordapp.com/avatars/8/z.png?size=512"));
            assert_eq!(image_embed(&card, "d", "f").author.unwrap().name, "amy");
        },
        _ => panic!("expected a card"),
    }
}

#[test]
fn requester_author_line() {
    let a = requester_author(&None);
    assert_eq!(a.name, "");
    assert!(a.icon_url.is_none());
}

#[test]
fn join_times_in_seconds() {
    assert_eq!(join_seconds(1_700_000_123_456_789), 1_700_000_123);
    assert_eq!(join_seconds(0), 0);
    assert_eq!(join_seconds(-1), 0);
    assert_eq!(join_seconds(-1_500_000), -1);
    assert_eq!(join_seconds(-2_000_001), -2);
    assert_eq!(join_seconds(i64::MIN), i64::MIN / 1000 / 1000);
}

#[test]
fn creation_time_of_an_identifier() {
    let id = UserId(Snowflake("175928847299117063".to_string()));
    assert_eq!(account_creation(&id), Some(1462015105));
    assert_eq!(account_creation(&UserId(Snowflake("x".to_string()))), None);
}

#[test]
fn user_information_answers() {
    let id = UserId(Snowflake("42".to_string()));
    match info_answer(true, &id, &None, Some(1), &None, &None) {
        InfoAnswer::Text(t) => assert_eq!(t.key, "errors:cannot_acquire_user"),
        _ => panic!("expected a text"),
    }
    match info_answer(false, &id, &None, Some(1), &None, &None) {
        InfoAnswer::Text(t) => assert_eq!(t.key, "errors::cannot_acquire_user"),
        _ => panic!("expected a text"),
    }
    let u = Some(user("42", "bob", None, None, None));
    assert!(matches!(info_answer(false, &id, &u, None, &None, &None), InfoAnswer::InternalError(17002)));
    match info_answer(false, &id, &u, Some(100), &Some(member(5_000_000)), &None) {
        InfoAnswer::Card(card) => {
            assert_eq!(card.description.key, "slashs::user_info::member");
            assert_eq!(
                card.description.args,
                pairs(&[("id", "42"), ("username", "bob"), ("account_creation", "100"), ("join_timestamp", "5")])
            );
            assert_eq!(card.thumbnail, DEFAULT_AVATAR);
            assert_eq!(card.author_name, "Unknown author");
            assert!(card.author_icon.is_none());
            let e = info_embed(&card, "text");
            assert_eq!(e.color, Some(Color(2829617)));
            assert_eq!(e.thumbnail.unwrap().url.as_deref(), Some(DEFAULT_AVATAR));
            assert_eq!(e.author.unwrap().name, "Unknown author");
        },
        _ => panic!("expected a card"),
    }
    let requester = Some(user("9", "amy", Some("Amy"), None, None));
    match info_answer(false, &id, &u, Some(-3), &None, &requester) {
        InfoAnswer::Card(card) => {
            assert_eq!(card.description.key, "slashs::user_info::not_member");
            assert_eq!(card.description.args, pairs(&[("id", "42"), ("username", "bob"), ("account_creation", "-3")]));
            assert_eq!(card.author_name, "Amy");
            assert_eq!(card.author_icon.as_deref(), Some(DEFAULT_AVATAR));
        },
        _ => panic!("expected a card"),
    }
}

#[test]
fn footer_hexadecimal_reads_back() {
    for c in [0u64, 1, 0xabcdef, 0xffffff, 0x1000000, u64::MAX] {
        assert_eq!(Color::from_hex(&color_hex(c)).0, c);
    }
}

#[test]
fn snowflake_fields() {
    let info = pandora::models::ids::SnowflakeInfo::from_snowflake(&Snowflake("175928847299117063".to_string())).unwrap();
    assert_eq!(info.data_center_id, 1);
    assert_eq!(info.worker_id, 0);
    assert_eq!(info.sequence, 7);
    assert_eq!(info.timestamp, 1462015105);
}

#[test]
fn rgb_reads_as_its_hex_text() {
    for (r, g, b) in [(255u8, 51u8, 51u8), (0, 0, 0), (0x12, 0xab, 0xef)] {
        let text = format!("#{r:02X}{g:02X}{b:02X}");
        assert_eq!(Color::from_rgb(r, g, b).0, Color::from_hex(&text).0);
    }
}
