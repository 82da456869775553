use pandora::cache::UpdateCache;
use pandora::json::{JsonNumber, JsonValue};
use pandora::models::command::{
    ApplicationCommand, ApplicationCommandOption, ApplicationCommandOptionChoice, CommandChoiceValue, OptionValue,
};
use pandora::models::ids::{GuildId, Snowflake};
use pandora::models::interaction::{ApplicationCommandOptionType, ApplicationCommandType};

fn entry<'a>(v: &'a JsonValue, key: &str) -> &'a JsonValue {
    v.get(key).unwrap()
}

#[test]
fn global_command_json() {
    let c = ApplicationCommand::new_global("ping", "Pong!", ApplicationCommandType::ChatInput)
        .set_dm_permission(true)
        .add_option(ApplicationCommandOption::new(ApplicationCommandOptionType::User, "user", "Whom", false));
    assert!(c.dm_permission);
    assert!(c.guild_id.is_none());
    let j = c.to_json();
    assert_eq!(entry(&j, "name"), &JsonValue::String("ping".into()));
    assert_eq!(entry(&j, "type"), &JsonValue::Number(JsonNumber::PosInt(1)));
    assert_eq!(entry(&j, "default_permission"), &JsonValue::Null);
    assert_eq!(entry(&j, "version"), &JsonValue::String(String::new()));
    match entry(&j, "options") {
        JsonValue::Array(items) => {
            assert_eq!(items.len(), 1);
            assert_eq!(entry(&items[0], "type"), &JsonValue::Number(JsonNumber::PosInt(6)));
            assert_eq!(entry(&items[0], "required"), &JsonValue::Bool(false));
            assert_eq!(entry(&items[0], "options"), &JsonValue::Null);
        }
        _ => panic!("expected options"),
    }
}

#[test]
fn local_command_and_localizations() {
    let c = ApplicationCommand::new_local("help", "Help", ApplicationCommandType::ChatInput, GuildId(Snowflake("4".into())))
        .add_localization("fr", "aide", "Aide")
        .add_localization("fr", "aide2", "Aide2")
        .add_localization("de", "hilfe", "Hilfe");
    assert_eq!(c.guild_id.as_ref().unwrap().0 .0, "4");
    let names = c.name_localizations.as_ref().unwrap();
    assert_eq!(names, &vec![("fr".to_string(), "aide2".to_string()), ("de".to_string(), "hilfe".to_string())]);
}

#[test]
fn nested_options_and_bounds() {
    let mut inner = ApplicationCommandOption::new(ApplicationCommandOptionType::Integer, "n", "A number", true);
    inner.min_value = Some(OptionValue::Integer(-2));
    inner.max_value = Some(OptionValue::Double("2.5".into()));
    let outer = ApplicationCommandOption::new(ApplicationCommandOptionType::SubCommand, "sub", "Sub", false)
        .add_option(inner)
        .add_choice(ApplicationCommandOption::new(ApplicationCommandOptionType::String, "s", "S", false));
    assert_eq!(outer.options.as_ref().unwrap().len(), 2);
    let j = outer.to_json();
    match entry(&j, "options") {
        JsonValue::Array(items) => {
            assert_eq!(entry(&items[0], "min_value"), &JsonValue::Number(JsonNumber::NegInt(-2)));
            assert_eq!(entry(&items[0], "max_value"), &JsonValue::Number(JsonNumber::Float("2.5".into())));
            assert_eq!(entry(&items[1], "name"), &JsonValue::String("s".into()));
        }
        _ => panic!("expected options"),
    }
}

#[test]
fn choice_json() {
    let c = ApplicationCommandOptionChoice::new_integer("one", 1).add_localization("fr", "un");
    let j = c.to_json();
    assert_eq!(entry(&j, "value"), &JsonValue::Number(JsonNumber::PosInt(1)));
    assert_eq!(
        entry(&j, "name_localizations"),
        &JsonValue::Object(vec![("fr".to_string(), JsonValue::String("un".to_string()))])
    );
    assert_eq!(CommandChoiceValue::new_string("x").to_json(), JsonValue::String("x".into()));
}

#[test]
fn command_update_takes_everything() {
    let mut a = ApplicationCommand::new_global("a", "A", ApplicationCommandType::ChatInput);
    let b = ApplicationCommand::new_global("b", "B", ApplicationCommandType::User)
        .set_nsfw(true)
        .add_option(ApplicationCommandOption::new(ApplicationCommandOptionType::Boolean, "f", "F", true));
    a.update(&b);
    assert_eq!(a.name, "b");
    assert!(a.nsfw);
    assert_eq!(a.command_type, ApplicationCommandType::User);
    assert_eq!(a.options.as_ref().unwrap()[0].name, "f");
}
