use pandora::api::{
    check_admin_login, content_disposition, denial_action, find_public_file, grant_token, is_admin,
    read_credentials, refusal_actions, timeout_message, token_message, answer_first_event, answer_first_message, ApiStatus, FirstAnswer, FirstEvent,
    OpCode, SocketAction,
    CLOSE_ABNORMAL, CLOSE_AWAY, CLOSE_PROTOCOL,
};
use pandora::json::{JsonNumber, JsonValue};

fn obj(es: Vec<(&str, JsonValue)>) -> JsonValue {
    JsonValue::Object(es.into_iter().map(|(k, v)| (k.to_string(), v)).collect())
}

#[test]
fn status_starts_as_starting() {
    assert_eq!(ApiStatus::default(), ApiStatus::Starting);
}

#[test]
fn op_code_numbers() {
    assert_eq!(OpCode::Connected.as_u8(), 0);
    assert_eq!(OpCode::Heartbeat.as_u8(), 1);
    assert_eq!(OpCode::Credentials.as_u8(), 2);
    assert_eq!(OpCode::TransmitToken.as_u8(), 3);
}

#[test]
fn credentials_are_read() {
    let msg = obj(vec![
        ("op", JsonValue::Number(JsonNumber::PosInt(2))),
        ("payload", obj(vec![("id", JsonValue::String("me".into())), ("passwd", JsonValue::String("pw".into()))])),
    ]);
    let (id, pw) = read_credentials(&msg).unwrap();
    assert_eq!(id, JsonValue::String("me".into()));
    assert_eq!(pw, JsonValue::String("pw".into()));
}

#[test]
fn credentials_defaults() {
    let msg = obj(vec![("op", JsonValue::Number(JsonNumber::PosInt(2))), ("payload", obj(vec![]))]);
    let (id, pw) = read_credentials(&msg).unwrap();
    assert_eq!(id, JsonValue::String("YEET".into()));
    assert_eq!(pw, JsonValue::String("nice try... to bad :)".into()));
}

#[test]
fn credentials_refused() {
    let wrong_op = obj(vec![("op", JsonValue::Number(JsonNumber::PosInt(1))), ("payload", obj(vec![]))]);
    assert!(read_credentials(&wrong_op).is_none());
    let no_payload = obj(vec![("op", JsonValue::Number(JsonNumber::PosInt(2)))]);
    assert!(read_credentials(&no_payload).is_none());
    let no_op = obj(vec![("payload", obj(vec![]))]);
    assert!(read_credentials(&no_op).is_none());
    let r = refusal_actions();
    assert_eq!(r[0], SocketAction::SendText("Nice try ;)".into()));
    assert_eq!(r[1], SocketAction::Close(CLOSE_ABNORMAL, "Is that a freaking close code ? Yeah :)".into()));
}

#[test]
fn denial_and_timeout() {
    assert_eq!(
        denial_action(),
        SocketAction::Close(CLOSE_PROTOCOL, "Is the chicken before the egg or the egg before the chicken ?".into())
    );
    let (m, c) = timeout_message();
    assert_eq!(
        m,
        obj(vec![
            ("code", JsonValue::Number(JsonNumber::NegInt(-1))),
            ("message", JsonValue::String("Credentials required; Not received in 30s after the connection".into())),
        ])
    );
    assert_eq!(c, SocketAction::Close(CLOSE_AWAY, "Credentials required; Not received in 30s after the connection".into()));
}

#[test]
fn token_message_shape() {
    let m = token_message("abc");
    assert_eq!(
        m,
        obj(vec![
            ("op", JsonValue::String("TransmitToken".into())),
            ("payload", obj(vec![("op", JsonValue::Number(JsonNumber::PosInt(0))), ("token", JsonValue::String("abc".into()))])),
        ])
    );
}

#[test]
fn tokens_are_alphanumeric() {
    let (t, m) = grant_token();
    assert_eq!(t.chars().count(), 64);
    assert!(t.chars().all(|c| c.is_ascii_alphanumeric()));
    assert_eq!(m, token_message(&t));
    assert_ne!(t, grant_token().0);
}

#[test]
fn unknown_login_is_refused() {
    assert!(!check_admin_login("\"someone\"", "\"secret\""));
    assert!(!is_admin(&[0u8; 64], &[0u8; 64]));
}

#[test]
fn known_id_with_wrong_password_is_refused() {
    let id: [u8; 64] = [163, 229, 225, 80, 205, 144, 237, 63, 183, 80, 25, 65, 150, 130, 242, 143, 69, 193, 162, 51, 147, 103, 155, 124, 55, 115, 200, 55, 126, 93, 119, 85, 65, 222, 39, 106, 240, 132, 6, 148, 197, 93, 88, 189, 115, 175, 98, 174, 51, 167, 168, 119, 221, 19, 190, 248, 50, 37, 199, 154, 184, 106, 223, 65];
    let pw: [u8; 64] = [60, 150, 145, 107, 42, 31, 19, 245, 169, 168, 186, 63, 27, 27, 234, 27, 181, 253, 89, 32, 215, 52, 29, 208, 154, 57, 168, 66, 248, 151, 72, 61, 48, 155, 102, 146, 9, 137, 192, 26, 104, 62, 227, 51, 173, 112, 238, 133, 40, 191, 41, 39, 54, 247, 134, 86, 25, 136, 243, 1, 245, 103, 21, 68];
    assert!(is_admin(&id, &pw));
    assert!(!is_admin(&id, &[0u8; 64]));
}

#[test]
fn public_files() {
    let files = vec![
        ("a.png".to_string(), "/p/a".to_string(), "image/png".to_string()),
        ("b.txt".to_string(), "/p/b".to_string(), "text/plain".to_string()),
        ("a.png".to_string(), "/q/a".to_string(), "image/png".to_string()),
    ];
    assert_eq!(find_public_file(&files, "a.png"), Some(0));
    assert_eq!(find_public_file(&files, "b.txt"), Some(1));
    assert_eq!(find_public_file(&files, "c"), None);
    assert_eq!(content_disposition("a.png"), "attachment; filename=\"a.png\"");
}

#[test]
fn first_message_that_is_no_json_is_unanswered() {
    assert!(matches!(answer_first_message("{"), FirstAnswer::Unanswered));
    assert!(matches!(answer_first_message("hello"), FirstAnswer::Unanswered));
}

#[test]
fn first_message_without_credentials_is_refused() {
    for text in [r#"{"op":1,"payload":{}}"#, r#"{"op":2}"#, r#"{"payload":{}}"#, "[2]", r#"{"op":"2","payload":{}}"#] {
        match answer_first_message(text) {
            FirstAnswer::Refuse(actions) => assert_eq!(actions, refusal_actions()),
            other => panic!("{:?} answered {:?}", text, other),
        }
    }
}

#[test]
fn first_message_with_unknown_credentials_is_denied() {
    let texts = [
        r#"{"op":2,"payload":{"id":"someone","passwd":"secret"}}"#,
        r#"{"op":2,"payload":{}}"#,
        r#"{"op":2,"payload":{"id":12,"passwd":[true]}}"#,
    ];
    for text in texts {
        match answer_first_message(text) {
            FirstAnswer::Deny(action) => assert_eq!(action, denial_action()),
            other => panic!("{:?} answered {:?}", text, other),
        }
    }
}

#[test]
fn first_event_answers() {
    match answer_first_event(&FirstEvent::TimedOut) {
        FirstAnswer::Timeout(m, a) => assert_eq!((m, a), timeout_message()),
        other => panic!("timeout answered {:?}", other),
    }
    assert!(matches!(answer_first_event(&FirstEvent::Ended), FirstAnswer::Unanswered));
    assert!(matches!(answer_first_event(&FirstEvent::Text("[".to_string())), FirstAnswer::Unanswered));
    assert!(matches!(answer_first_event(&FirstEvent::Text(r#"{"op":3}"#.to_string())), FirstAnswer::Refuse(_)));
}
