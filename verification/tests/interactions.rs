use pandora::interactions::{
    answers_unknown, unknown_message, unknown_text, welcome_text, InteractionKind,
    button_of, get_user_id, guild_locale, modal_of, querify, select_menu_of, slash_command_of, split_custom_id,
    ButtonAction, ModalAction, QueryError, SelectMenuAction, SlashCommand,
};
use pandora::models::ids::{Snowflake, UserId};
use pandora::models::user::User;

fn user(id: &str) -> User {
    User {
        id: UserId(Snowflake(id.to_string())),
        username: "u".to_string(),
        discriminator: None,
        global_name: None,
        avatar: None,
        bot: None,
        system: None,
        banner: None,
        accent_color: None,
        locale: None,
        flags: None,
        public_flags: None,
        premium_type: None,
    }
}

#[test]
fn custom_ids_split_at_first_ampersand() {
    assert_eq!(split_custom_id("CAPTCHA_TRY&a=1&b=2"), ("CAPTCHA_TRY".to_string(), "a=1&b=2".to_string()));
    assert_eq!(split_custom_id("SUGGESTION"), ("SUGGESTION".to_string(), String::new()));
    assert_eq!(split_custom_id("&x"), (String::new(), "x".to_string()));
}

#[test]
fn queries() {
    assert_eq!(querify("a=1&b=2&a=3"), Ok(vec![("a".to_string(), "3".to_string()), ("b".to_string(), "2".to_string())]));
    assert_eq!(querify("a=1"), Ok(vec![]));
    assert_eq!(querify(""), Ok(vec![]));
    assert_eq!(querify("a=1&oops"), Err(QueryError { pair: "oops".to_string() }));
    assert_eq!(querify("a=1=2&b=&"), Err(QueryError { pair: String::new() }));
}

#[test]
fn interaction_routes() {
    assert_eq!(slash_command_of("ping"), SlashCommand::Ping);
    assert_eq!(slash_command_of("admin_update_commands"), SlashCommand::AdminReloadCommands);
    assert_eq!(slash_command_of("note"), SlashCommand::RateIt);
    assert_eq!(slash_command_of("8ball"), SlashCommand::EightBall);
    assert_eq!(slash_command_of(""), SlashCommand::Unknown);
    assert_eq!(button_of("CAPTCHA_REQUEST"), ButtonAction::CaptchaRequest);
    assert_eq!(button_of("nope"), ButtonAction::Unknown);
    assert_eq!(select_menu_of("SELECT_HELP_CATEGORY"), SelectMenuAction::SelectHelpCategory);
    assert_eq!(modal_of("KADY_REVIEW_MODAL"), ModalAction::KadyReview);
    assert_eq!(modal_of("x"), ModalAction::Unknown);
}

#[test]
fn locales() {
    let loaded = vec!["fr".to_string(), "en-US".to_string()];
    assert_eq!(guild_locale(&Some("en-US".to_string()), &loaded), "en-US");
    assert_eq!(guild_locale(&Some("de".to_string()), &loaded), "fr");
    assert_eq!(guild_locale(&None, &loaded), "fr");
}

#[test]
fn user_ids() {
    assert_eq!(get_user_id(&Some(user("5")), &None).unwrap().0 .0, "5");
    assert!(get_user_id(&None, &None).is_none());
}

#[test]
fn unknown_interactions() {
    assert_eq!(unknown_text(InteractionKind::SlashCommand).key, "errors::unknown_slash_command");
    assert_eq!(unknown_text(InteractionKind::Button).key, "errors::unknown_button");
    assert_eq!(unknown_text(InteractionKind::SelectMenu).key, "errors::unknown_select_menu");
    assert_eq!(unknown_text(InteractionKind::Modal).key, "errors::unknown_modal");
    assert!(unknown_text(InteractionKind::Modal).args.is_empty());
    assert!(answers_unknown(InteractionKind::SlashCommand, false));
    assert!(!answers_unknown(InteractionKind::Button, false));
    assert!(answers_unknown(InteractionKind::Modal, true));
    let m = unknown_message("nope");
    assert_eq!(m.content.as_deref(), Some("nope"));
    assert_eq!(m.flags.0, 64);
    assert_eq!(welcome_text().key, "slashs::welcome::msg");
}
