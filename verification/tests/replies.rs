use pandora::replies::{message_reply, reply_for_lowered, squeeze_first_white_run, trim};

#[test]
fn trims_white_space() {
    assert_eq!(trim("  a b \t\n"), "a b");
    assert_eq!(trim("\u{3000}x\u{a0}"), "x");
    assert_eq!(trim("   "), "");
    assert_eq!(trim(""), "");
    assert_eq!(trim("  a b \t\n"), "  a b \t\n".trim());
}

#[test]
fn squeezes_only_the_first_run() {
    assert_eq!(squeeze_first_white_run("a   b  c"), "a b  c");
    assert_eq!(squeeze_first_white_run("abc"), "abc");
    assert_eq!(squeeze_first_white_run("\t\tx"), " x");
}

#[test]
fn answers_quotes() {
    assert_eq!(message_reply("  Riki   like fighting easy monsters "), Some("Dundun".to_string()));
    assert_eq!(message_reply("I'M REALLY FEELING IT!"), Some("Said shulk!".to_string()));
    assert_eq!(message_reply("Double Spinning Edge"), Some("Double spinning edge!!\n*Steal the agro and die*".to_string()));
    assert!(message_reply("salvager code").unwrap().starts_with("\n## The Salvager's Code\n*by rex*\n"));
    assert_eq!(message_reply("I am Dunban, attack me if you dare"), None);
    assert_eq!(message_reply("riki  like  fighting easy monsters"), None);
    assert_eq!(message_reply("hello"), None);
    assert_eq!(reply_for_lowered("maybe    we'll survive after all"), Some("I like your attitude!".to_string()));
}

#[test]
fn padding_changes_no_answer() {
    for s in ["salvager code", " x y ", "", "\u{2003}"] {
        let padded = format!("\t \u{a0}{s}\n\u{3000}");
        assert_eq!(trim(&padded), trim(s));
        assert_eq!(message_reply(&padded), message_reply(s));
    }
}
