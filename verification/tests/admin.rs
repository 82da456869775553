use pandora::admin::{
    admin_gate, admin_report_channel, admin_report_message_at, generate_invite_link, is_admin, slashs_update_reply_at,
    AdminGate,
};
use pandora::models::ids::{Snowflake, UserId};

fn uid(s: &str) -> UserId {
    UserId(Snowflake(s.to_string()))
}

#[test]
fn strangers_are_not_admins() {
    assert!(!is_admin(&uid("1")));
    assert!(!is_admin(&uid("123456789012345678")));
}

#[test]
fn gate_order() {
    assert!(matches!(admin_gate(false, Some(uid("1")), None), AdminGate::NotInGuild));
    assert!(matches!(admin_gate(true, None, None), AdminGate::NoUserId));
    assert!(matches!(admin_gate(true, Some(uid("1")), Some(false)), AdminGate::NoChannel));
    assert!(matches!(admin_gate(true, Some(uid("1")), Some(true)), AdminGate::NotAdmin(_)));
    assert!(matches!(admin_gate(true, Some(uid("1")), None), AdminGate::NotAdmin(_)));
}

#[test]
fn admin_report() {
    let m = admin_report_message_at("bob", "Admin command triggered (x)", "done", 1234);
    assert_eq!(m.embeds.len(), 1);
    let e = &m.embeds[0];
    assert_eq!(e.author.as_ref().unwrap().name, "bob");
    assert_eq!(e.description.as_deref(), Some("> **Type:** Admin command triggered (x)\n> **Report:** done"));
    assert_eq!(e.timestamp, Some(1234));
    assert_eq!(e.color.as_ref().unwrap().0, 0xff174f);
    assert_eq!(admin_report_channel().0 .0, "1135982161888026634");
}

#[test]
fn slashs_reply_errors_only() {
    let m = slashs_update_reply_at(&None, Some(3), 5).unwrap();
    assert_eq!(m.embeds[0].title.as_deref(), Some("Error"));
    assert_eq!(m.embeds[0].description.as_deref(), Some("3 errors were received."));
    assert_eq!(m.embeds[0].color.as_ref().unwrap().0, 0xff174f);
}

#[test]
fn slashs_reply_success_only() {
    let names = vec!["ping".to_string(), "help".to_string()];
    let m = slashs_update_reply_at(&Some(names), None, 5).unwrap();
    assert_eq!(m.embeds[0].title.as_deref(), Some("Success of the operation"));
    assert_eq!(m.embeds[0].description.as_deref(), Some("> **Everything went alright:**\n- ping\n- help"));
    assert_eq!(m.embeds[0].color.as_ref().unwrap().0, 0x17ff79);
}

#[test]
fn slashs_reply_both_or_none() {
    assert!(slashs_update_reply_at(&Some(vec!["a".to_string()]), Some(1), 5).is_none());
    let m = slashs_update_reply_at(&None, None, 5).unwrap();
    assert_eq!(
        m.content.as_deref(),
        Some("No informations was sent back from the app.\n\nSome real shit is happening right there, call Sedorriku NOW.")
    );
}

#[test]
fn invite_link() {
    assert_eq!(
        generate_invite_link(&uid("99"), "8", "bot"),
        "https://discord.com/oauth2/authorize?client_id=99&permissions=8&scope=bot"
    );
}
