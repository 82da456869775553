use pandora::fun::{
    ball_text, choice_key, draw_choice_key, mean_latency, ping_answer, ping_message, question, rate_text,
    rateit, unacceptable_message, PingAnswer,
};
use pandora::models::components::message_components::{ButtonStyle, Component};
use pandora::models::ids::{Snowflake, UserId};
use pandora::models::interaction::{ApplicationCommandOptionType, InteractionDataOption, InteractionDataOptionValue};
use pandora::models::user::User;

fn user(global: Option<&str>) -> User {
    User {
        id: UserId(Snowflake("5".to_string())),
        username: "bob".to_string(),
        discriminator: None,
        global_name: global.map(|g| g.to_string()),
        avatar: None,
        bot: None,
        system: None,
        banner: None,
        accent_color: None,
        locale: None,
        flags: None,
        public_flags: None,
        premium_type: None,
    }
}

fn pairs(v: &[(&str, &str)]) -> Vec<(String, String)> {
    v.iter().map(|(a, b)| (a.to_string(), b.to_string())).collect()
}

#[test]
fn rates() {
    let r = rate_text(13);
    assert_eq!(r.key, "slashs::rateit::msg");
    assert_eq!(r.args, pairs(&[("n", "13")]));
    for _ in 0..50 {
        let r = rateit();
        let n: u64 = r.args[0].1.parse().unwrap();
        assert!(n < 20);
    }
}

#[test]
fn magic_ball() {
    assert_eq!(choice_key(3), "slashs::8ball::choices::3");
    for _ in 0..50 {
        let k = draw_choice_key();
        let n: u64 = k.trim_start_matches("slashs::8ball::choices::").parse().unwrap();
        assert!(n <= 7);
    }
    let os = vec![
        InteractionDataOption {
            name: "question".to_string(),
            option_type: ApplicationCommandOptionType::Integer,
            value: Some(InteractionDataOptionValue::Integer(-4)),
            options: None,
            focused: None,
        },
        InteractionDataOption {
            name: "question".to_string(),
            option_type: ApplicationCommandOptionType::String,
            value: Some(InteractionDataOptionValue::String("why?".into())),
            options: None,
            focused: None,
        },
    ];
    assert_eq!(question(&Some(os)), Some("-4".to_string()));
    assert_eq!(question(&None), None);
    let no_value = vec![InteractionDataOption {
        name: "question".to_string(),
        option_type: ApplicationCommandOptionType::String,
        value: None,
        options: None,
        focused: None,
    }];
    assert_eq!(question(&Some(no_value)), None);
    let t = ball_text(&user(Some("Bobby")), &Some("why?".to_string()), "yes");
    assert_eq!(t.key, "slashs::8ball::msg");
    assert_eq!(t.args, pairs(&[("author", "Bobby"), ("question", "why?"), ("answer", "yes")]));
    let t = ball_text(&user(None), &None, "no");
    assert_eq!(t.key, "slashs::8ball::without_question");
    assert_eq!(t.args, pairs(&[("author", "bob"), ("answer", "no")]));
}

#[test]
fn unacceptable() {
    let m = unacceptable_message();
    assert_eq!(
        m.content.as_deref(),
        Some("https://cdn.discordapp.com/attachments/426802397667655680/825126979418324992/UNACCEPTABLE_1.mp4")
    );
    match &m.components[0] {
        Component::ActionRow(r) => match &r.components[0] {
            Component::Button(b) => {
                assert_eq!(b.style, ButtonStyle::Link);
                assert_eq!(b.label.as_deref(), Some("Hello ?"));
                assert_eq!(b.url.as_deref(), Some("https://www.youtube.com/watch?v=dQw4w9WgXcQ"));
                assert_eq!(b.disabled, Some(false));
            },
            _ => panic!("expected a button"),
        },
        _ => panic!("expected a row"),
    }
}

#[test]
fn pings() {
    assert_eq!(mean_latency(&vec![10, 20, 31]), 20);
    match ping_answer(0, 3, &vec![1]) {
        PingAnswer::Booting(t) => assert_eq!(t.key, "slashs::ping::booting"),
        _ => panic!("expected booting"),
    }
    match ping_answer(42, 0, &vec![40, 50]) {
        PingAnswer::Latency { content, label, emoji } => {
            assert_eq!(content.key, "slashs::ping::content");
            assert_eq!(content.args, pairs(&[("ping", "42"), ("shard_id", "1")]));
            assert_eq!(label.args, pairs(&[("median", "45")]));
            assert_eq!(emoji.key, "slashs::ping::button::emoji");
        },
        _ => panic!("expected a latency"),
    }
    match ping_answer(42, 7, &vec![1]) {
        PingAnswer::Latency { content, .. } => assert_eq!(content.args[1].1, "7"),
        _ => panic!("expected a latency"),
    }
    let m = ping_message("pong", "mean", "e");
    assert_eq!(m.content.as_deref(), Some("pong"));
    match &m.components[0] {
        Component::ActionRow(r) => match &r.components[0] {
            Component::Button(b) => {
                assert_eq!(b.custom_id, "A");
                assert_eq!(b.style, ButtonStyle::Secondary);
                assert_eq!(b.disabled, Some(true));
                assert_eq!(b.emoji.as_ref().unwrap().name, "e");
            },
            _ => panic!("expected a button"),
        },
        _ => panic!("expected a row"),
    }
}
