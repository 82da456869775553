use pandora::kady::{informations_embed, informations_text, kady_subcommand, link_message, KadySubcommand};
use pandora::models::components::message_components::{ButtonStyle, Component};
use pandora::models::components::Color;
use pandora::models::ids::{Snowflake, UserId};
use pandora::models::interaction::{ApplicationCommandOptionType, InteractionDataOption};
use pandora::models::user::ClientUser;
use pandora::profile::DEFAULT_AVATAR;

fn sub(name: &str) -> InteractionDataOption {
    InteractionDataOption {
        name: name.to_string(),
        option_type: ApplicationCommandOptionType::SubCommand,
        value: None,
        options: None,
        focused: None,
    }
}

#[test]
fn subcommands() {
    assert_eq!(kady_subcommand(&None), None);
    assert_eq!(kady_subcommand(&Some(vec![sub("nope")])), None);
    assert_eq!(kady_subcommand(&Some(vec![sub("nope"), sub("review"), sub("invite")])), Some(KadySubcommand::Review));
    assert_eq!(kady_subcommand(&Some(vec![sub("informations")])), Some(KadySubcommand::Informations));
    assert_eq!(kady_subcommand(&Some(vec![sub("issue")])), Some(KadySubcommand::Issue));
}

#[test]
fn link_messages() {
    let m = link_message("Join us", "https://discord.gg/x", "Support");
    assert_eq!(m.content.as_deref(), Some("Join us"));
    match &m.components[0] {
        Component::ActionRow(r) => match &r.components[0] {
            Component::Button(b) => {
                assert_eq!(b.style, ButtonStyle::Link);
                assert_eq!(b.url.as_deref(), Some("https://discord.gg/x"));
                assert_eq!(b.label.as_deref(), Some("Support"));
                assert_eq!(b.emoji.as_ref().unwrap().name, "🔗");
                assert_eq!(b.custom_id, "");
            },
            _ => panic!("expected a button"),
        },
        _ => panic!("expected a row"),
    }
}

#[test]
fn informations() {
    let t = informations_text("1.7", "1.26", "1.75", -5, "s", "w", "t", 3, 40);
    assert_eq!(t.key, "slashs::kady::informations::desc");
    let expected: Vec<(String, String)> = [
        ("cargo", "1.7"),
        ("rustup", "1.26"),
        ("rustc", "1.75"),
        ("online_since", "-5"),
        ("support", "s"),
        ("website", "w"),
        ("top_gg", "t"),
        ("servers", "3"),
        ("channels", "40"),
    ]
    .iter()
    .map(|(a, b)| (a.to_string(), b.to_string()))
    .collect();
    assert_eq!(t.args, expected);
    let e = informations_embed(&None, "d", "f", "#2B2D31");
    let a = e.author.unwrap();
    assert_eq!(a.name, "Skynet Informations");
    assert_eq!(a.icon_url.as_deref(), Some(DEFAULT_AVATAR));
    assert_eq!(e.color, Some(Color(0x2B2D31)));
    assert_eq!(e.footer.unwrap().text, "f");
    let me = ClientUser {
        avatar: None,
        bot: true,
        discriminator: "0".to_string(),
        flags: None,
        global_name: None,
        id: UserId(Snowflake("1".to_string())),
        verified: true,
        username: "Kady".to_string(),
        mfa_enabled: false,
    };
    let e = informations_embed(&Some(me), "d", "f", "zz");
    let a = e.author.unwrap();
    assert_eq!(a.name, "Kady Informations");
    assert!(a.icon_url.is_none());
    assert_eq!(e.color, Some(Color(0)));
}
