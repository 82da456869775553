use pandora::help::{command_help_text, command_mention, command_mentions, help_category_choice, use_lines, HelpChoice};
use pandora::models::command::ApplicationCommand;
use pandora::models::ids::Snowflake;
use pandora::models::interaction::ApplicationCommandType;

fn command(name: &str, id: &str) -> ApplicationCommand {
    ApplicationCommand {
        id: Snowflake(id.to_string()),
        command_type: ApplicationCommandType::ChatInput,
        application_id: Snowflake("1".to_string()),
        guild_id: None,
        name: name.to_string(),
        name_localizations: None,
        description: String::new(),
        description_localizations: None,
        options: None,
        default_member_permissions: None,
        dm_permission: true,
        nsfw: false,
        version: Snowflake("1".to_string()),
    }
}

#[test]
fn mentions() {
    let cs = vec![command("ping", "10"), command("help", "11"), command("ping", "12")];
    assert_eq!(command_mention(&cs, "ping"), "</ping:10>");
    assert_eq!(command_mention(&cs, "avatar"), "`avatar`");
    let names = vec!["help".to_string(), "avatar".to_string(), "ping".to_string()];
    assert_eq!(command_mentions(&cs, &names), "</help:11>, `avatar`, </ping:10>");
    assert_eq!(command_mentions(&cs, &vec![]), "");
}

#[test]
fn command_descriptions() {
    assert_eq!(command_help_text("req", Some("desc"), Some("use")), "req\n\ndesc\n\nuse");
    assert_eq!(command_help_text("req", None, Some("use")), "req\n\nuse");
    assert_eq!(command_help_text("req", None, None), "req");
    assert_eq!(use_lines("/a;/b x;"), "/a\n/b x\n");
}

#[test]
fn help_category_picked_in_the_menu() {
    let categories = vec!["fun".to_string(), "profile".to_string()];
    let pick = |v: &[&str]| Some(v.iter().map(|s| s.to_string()).collect::<Vec<String>>());
    assert_eq!(help_category_choice(&pick(&["all"]), &categories), HelpChoice::All);
    assert_eq!(help_category_choice(&pick(&["fun", "all"]), &categories), HelpChoice::Category("fun".to_string()));
    assert_eq!(help_category_choice(&pick(&["dev"]), &categories), HelpChoice::Invalid);
    assert_eq!(help_category_choice(&pick(&[]), &categories), HelpChoice::Invalid);
    assert_eq!(help_category_choice(&None, &categories), HelpChoice::Invalid);
}
