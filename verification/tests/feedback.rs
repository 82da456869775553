use pandora::feedback::{
    get_text_or, issue_embed, modal_texts, parse_note, poster_author, review_embed, review_refusal,
    suggestion_embed,
};
use pandora::models::components::message_components::{
    ActionRow, Button, Component, ComponentType, TextInput, TextInputStyle,
};
use pandora::models::components::Color;
use pandora::models::ids::{Snowflake, UserId};
use pandora::models::interaction::InteractionDataOptionValue;
use pandora::models::user::User;
use pandora::profile::DEFAULT_AVATAR;

fn input(id: &str, value: Option<InteractionDataOptionValue>) -> Component {
    Component::TextInput(TextInput {
        kind: ComponentType::TextInput,
        style: Some(TextInputStyle::Paragraph),
        label: None,
        custom_id: id.to_string(),
        placeholder: None,
        min_length: None,
        max_length: None,
        disabled: None,
        value,
    })
}

fn row(cs: Vec<Component>) -> Component {
    let mut r = ActionRow::new();
    for c in cs {
        r = r.add_component(c);
    }
    Component::ActionRow(r)
}

fn user(global: Option<&str>, avatar: Option<&str>) -> User {
    User {
        id: UserId(Snowflake("5".to_string())),
        username: "bob".to_string(),
        discriminator: None,
        global_name: global.map(|g| g.to_string()),
        avatar: avatar.map(|a| a.to_string()),
        bot: None,
        system: None,
        banner: None,
        accent_color: None,
        locale: None,
        flags: None,
        public_flags: None,
        premium_type: None,
    }
}

fn s(v: &str) -> Option<InteractionDataOptionValue> {
    Some(InteractionDataOptionValue::String(v.to_string()))
}

#[test]
fn texts_of_a_form() {
    let form = vec![
        row(vec![input("A", s("one"))]),
        row(vec![input("B", None), Component::Button(Button::new("x"))]),
        input("A", Some(InteractionDataOptionValue::Integer(7))),
    ];
    let texts = modal_texts(&form);
    assert_eq!(texts, vec![("A".to_string(), "7".to_string()), ("B".to_string(), String::new())]);
    assert_eq!(get_text_or(&texts, "A", "none"), "7");
    assert_eq!(get_text_or(&texts, "B", "none"), "");
    assert_eq!(get_text_or(&texts, "C", "none"), "none");
}

#[test]
fn grades_of_reviews() {
    assert_eq!(parse_note("4/5"), Some("4/5".to_string()));
    assert_eq!(parse_note("I give 3 out of 5"), Some("3".to_string()));
    assert_eq!(parse_note("7/5"), Some("5".to_string()));
    assert_eq!(parse_note("⭐⭐⭐"), Some("⭐⭐⭐".to_string()));
    assert_eq!(parse_note("great ***"), Some("***".to_string()));
    assert_eq!(parse_note("******"), Some("*****".to_string()));
    assert_eq!(parse_note("-1"), Some("1".to_string()));
    assert_eq!(parse_note("very-bad"), None);
    assert_eq!(parse_note("excellent"), Some("excellent".to_string()));
    assert_eq!(parse_note("9"), Some("9".to_string()));
    assert_eq!(parse_note(""), Some(String::new()));
}

#[test]
fn author_of_a_form() {
    let a = poster_author(&None);
    assert_eq!(a.name, "CANNOT_RESOLVE_USERNAME");
    assert_eq!(a.icon_url.as_deref(), Some(DEFAULT_AVATAR));
    let a = poster_author(&Some(user(Some("Bobby"), None)));
    assert_eq!(a.name, "Bobby");
    assert!(a.icon_url.is_none());
    let a = poster_author(&Some(user(None, Some("h"))));
    assert_eq!(a.name, "bob");
    assert_eq!(a.icon_url.as_deref(), Some("https://cdn.discordapp.com/avatars/5/h.png?size=512"));
}

#[test]
fn suggestion_and_issue_embeds() {
    let texts = vec![("SUGGESTION".to_string(), "more cats".to_string())];
    let e = suggestion_embed(&texts, &None);
    assert_eq!(e.color, Some(Color(0xF9F871)));
    assert_eq!(e.title.as_deref(), Some("Nouvelle suggestion"));
    let fields = e.fields.unwrap();
    assert_eq!(fields.len(), 2);
    assert_eq!(fields[0].name, "💡 Suggestion");
    assert_eq!(fields[0].value, "more cats");
    assert_eq!(fields[1].name, "✌️ Être re-contacté:");
    assert_eq!(fields[1].value, "N'a pas répondu");
    let e = issue_embed(&vec![], &None);
    assert_eq!(e.color, Some(Color(0xFF6F91)));
    let fields = e.fields.unwrap();
    assert_eq!(fields.len(), 3);
    assert_eq!(fields[0].name, "🗒️ Type du bug");
    assert_eq!(fields[0].value, "CANNOT_GET_CUSTOM_ID--BUG_TYPE");
    assert_eq!(fields[1].value, "CANNOT_GET_CUSTOM_ID--BUG_DESCRIPTION");
}

#[test]
fn review_embed_and_refusal() {
    let long: String = std::iter::repeat('a').take(2000).collect();
    let e = review_embed(&long, "4/5", &None, 1234);
    let d = e.description.unwrap();
    assert!(d.starts_with("> ✨ "));
    assert_eq!(d.chars().count(), "> ✨ ".chars().count() + 1990);
    assert_eq!(e.timestamp, Some(1234));
    assert_eq!(e.color, Some(Color(0xFFAC33)));
    let f = &e.fields.unwrap()[0];
    assert_eq!(f.name, "⭐ Note");
    assert_eq!(f.value, "> 4/5");
    let short = review_embed("nice", "5", &None, 0);
    assert_eq!(short.description.as_deref(), Some("> ✨ nice"));
    let r = review_refusal("https://support");
    assert_eq!(r.key, "slashs::kady::review::negative");
    assert_eq!(r.args, vec![("support".to_string(), "https://support".to_string())]);
}
