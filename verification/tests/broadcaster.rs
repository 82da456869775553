use pandora::broadcaster::{
    broadcast_channel, BroadcastDetails, BroadcastError, BroadcastInteraction, BroadcastInteractionType,
    BroadcastLocalisation,
};
use pandora::json::JsonValue;
use pandora::models::components::message_components::{ButtonStyle, Component};
use pandora::models::ids::{GuildId, Snowflake, UserId};

fn sample() -> BroadcastError {
    let localisation = BroadcastLocalisation::default()
        .set_guild(Some(GuildId(Snowflake("42".to_string()))))
        .set_user(Some(UserId(Snowflake("7".to_string()))))
        .set_code_path("scripts::avatar");
    let details = BroadcastDetails::default().add("error", "boom").add("step", "1").add("error", "bang");
    let interaction = BroadcastInteraction::default().set_name("avatar").set_type(BroadcastInteractionType::SlashCommand);
    BroadcastError {
        id: 0x0123456789abcdef0123456789abcdef,
        date: 0,
        localisation,
        details,
        interaction,
    }
}

#[test]
fn details_replace_in_place() {
    let d = BroadcastDetails::default().add("a", "1").add("b", "2").add("a", "3");
    assert_eq!(d.informations, vec![("a".to_string(), "3".to_string()), ("b".to_string(), "2".to_string())]);
}

#[test]
fn interaction_labels() {
    assert_eq!(BroadcastInteractionType::SlashCommand.label(), "Slash Command");
    assert_eq!(BroadcastInteractionType::SelectMenu.label(), "Select Menu");
    assert_eq!(BroadcastInteractionType::Modal.name(), "Modal");
}

#[test]
fn report_message_layout() {
    let e = sample();
    let m = e.report_message();
    assert_eq!(m.embeds.len(), 4);
    assert_eq!(m.embeds[0].description.as_deref(), Some("> **New report**"));
    assert_eq!(m.embeds[0].color.as_ref().map(|c| c.0), Some(0xff3333));
    assert_eq!(m.embeds[1].title.as_deref(), Some("Localisation"));
    let fields = m.embeds[1].fields.as_ref().unwrap();
    assert_eq!(fields.len(), 3);
    assert_eq!(fields[0].name, "Guild");
    assert_eq!(fields[0].value, "```\n42```");
    assert_eq!(fields[1].value, "<@7>\n```\n7```");
    assert_eq!(fields[2].name, "Code path");
    assert_eq!(m.embeds[2].title.as_deref(), Some("Details"));
    assert_eq!(m.embeds[2].fields.as_ref().unwrap()[0].value, "```\nbang```");
    assert_eq!(m.embeds[3].title.as_deref(), Some("Interaction"));
    let ifields = m.embeds[3].fields.as_ref().unwrap();
    assert_eq!(ifields[1].value, "```\nSlash Command```");
    assert_eq!(m.attachments[0].name, "report.json");
    match &m.components[0] {
        Component::ActionRow(row) => match &row.components[0] {
            Component::Button(b) => {
                assert_eq!(b.custom_id, "DATE");
                assert_eq!(b.style, ButtonStyle::Secondary);
                assert_eq!(b.disabled, Some(true));
                assert_eq!(b.label.as_deref(), Some("1970-01-01T00:00:00+00:00"));
            }
            _ => panic!("expected a button"),
        },
        _ => panic!("expected a row"),
    }
}

#[test]
fn empty_report_has_only_headline() {
    let e = BroadcastError {
        id: 1,
        date: 1_000,
        localisation: BroadcastLocalisation::default(),
        details: BroadcastDetails::default(),
        interaction: BroadcastInteraction::default(),
    };
    let m = e.try_report_message().unwrap();
    assert_eq!(m.embeds.len(), 1);
}

#[test]
fn report_out_of_calendar_is_none() {
    let e = BroadcastError {
        id: 1,
        date: i64::MAX,
        localisation: BroadcastLocalisation::default(),
        details: BroadcastDetails::default(),
        interaction: BroadcastInteraction::default(),
    };
    assert!(e.try_report_message().is_none());
    assert!(e.try_to_value().is_none());
}

#[test]
fn report_path_uses_hyphenated_id() {
    let e = sample();
    assert_eq!(e.report_path(), "errors/broadcaster/01234567-89ab-cdef-0123-456789abcdef");
}

#[test]
fn report_json_fields() {
    let e = sample();
    let v = e.to_value();
    match v {
        JsonValue::Object(es) => {
            assert_eq!(es[0].0, "id");
            assert_eq!(es[0].1, JsonValue::String("01234567-89ab-cdef-0123-456789abcdef".to_string()));
            assert_eq!(es[1].1, JsonValue::String("1970-01-01T00:00:00Z".to_string()));
            assert_eq!(es[4].0, "interaction");
        }
        _ => panic!("expected an object"),
    }
}

#[test]
fn new_report_ids_are_random_uuids() {
    let e = BroadcastError::new(
        BroadcastLocalisation::default(),
        BroadcastDetails::default(),
        BroadcastInteraction::default(),
    );
    assert_eq!((e.id >> 76) & 0xf, 4);
    assert_eq!((e.id >> 62) & 3, 2);
    let f = BroadcastError::new(
        BroadcastLocalisation::default(),
        BroadcastDetails::default(),
        BroadcastInteraction::default(),
    );
    assert_ne!(e.id, f.id);
}

#[test]
fn report_channel() {
    assert_eq!(broadcast_channel().0 .0, "1154827849048543232");
}

#[test]
fn report_attachment_fields() {
    let a = BroadcastError::report_attachment(vec![1, 2]);
    assert_eq!(a.filename, "report.json");
    assert_eq!(a.content_type, "application/json");
    assert_eq!(a.bytes, vec![1, 2]);
}
