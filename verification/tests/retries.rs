use pandora::http::{may_send, run_request, send_step, HttpConfiguration, RetryCounter, SendError, SendNext, TryOutcome};
use pandora::json::{JsonNumber, JsonValue};

fn obj(es: Vec<(&str, JsonValue)>) -> JsonValue {
    JsonValue::Object(es.into_iter().map(|(k, v)| (k.to_string(), v)).collect())
}

fn answered(status: u16, body: Option<JsonValue>) -> TryOutcome {
    TryOutcome::Answered { status, body }
}

#[test]
fn tries_of_a_request() {
    let c = RetryCounter::new(&HttpConfiguration::default());
    assert!(may_send(c));
    let (c1, n) = send_step(c, TryOutcome::SendFailed);
    assert!(matches!(n, SendNext::Retry));
    assert_eq!(c1.retries, 1);
    let (c2, n) = send_step(c1, answered(204, None));
    assert!(matches!(n, SendNext::Answer(JsonValue::Null)));
    assert_eq!(c2.retries, 1);
    let (_, n) = send_step(c1, answered(200, Some(obj(vec![("a", JsonValue::Bool(true))]))));
    assert!(matches!(n, SendNext::Answer(JsonValue::Object(_))));
    let (c3, n) = send_step(c1, answered(200, None));
    assert!(matches!(n, SendNext::Retry));
    assert_eq!(c3.retries, 2);
    let (_, n) = send_step(c1, answered(503, Some(JsonValue::Null)));
    assert!(matches!(n, SendNext::Retry));
    let (_, n) = send_step(c1, answered(404, Some(obj(vec![("code", JsonValue::Number(JsonNumber::PosInt(10003)))]))));
    assert!(matches!(n, SendNext::Answer(JsonValue::Object(_))));
    let (c4, n) = send_step(c1, answered(429, Some(obj(vec![("retry_after", JsonValue::Number(JsonNumber::Float("1.5".into())))]))));
    assert!(matches!(n, SendNext::Wait(JsonNumber::Float(ref t)) if t == "1.5"));
    assert_eq!(c4.retries, 2);
    let (_, n) = send_step(c1, answered(429, Some(obj(vec![]))));
    assert!(matches!(n, SendNext::Fail(SendError::RateLimit(_))));
    let (_, n) = send_step(c1, answered(429, None));
    assert!(matches!(n, SendNext::Fail(SendError::RateLimitUnreadable)));
    let mut c = RetryCounter { retries: 0, limit: 2 };
    let mut tries = 0;
    while may_send(c) {
        tries += 1;
        let (next, _) = send_step(c, TryOutcome::SendFailed);
        c = next;
    }
    assert_eq!(tries, 2);
    assert!(!may_send(RetryCounter { retries: 0, limit: 0 }));
}

#[test]
fn request_without_tries_fails() {
    let config = HttpConfiguration { retry_limit: 0, connect_timeout: 5000 };
    assert_eq!(run_request(&config, vec![]), (Err(SendError::TooManyRetry), 0));
}

#[test]
fn request_whose_tries_all_fail() {
    let config = HttpConfiguration { retry_limit: 3, connect_timeout: 5000 };
    let outcomes = vec![TryOutcome::SendFailed, answered(502, None), answered(200, None)];
    assert_eq!(run_request(&config, outcomes), (Err(SendError::TooManyRetry), 3));
}

#[test]
fn request_ends_with_first_answer() {
    let config = HttpConfiguration::default();
    let body = obj(vec![("id", JsonValue::String("1".to_string()))]);
    let outcomes = vec![
        answered(500, None),
        answered(201, Some(body.deep_clone())),
        answered(204, None),
        TryOutcome::SendFailed,
        TryOutcome::SendFailed,
    ];
    assert_eq!(run_request(&config, outcomes), (Ok(body), 2));
    let outcomes = vec![answered(204, None), TryOutcome::SendFailed, TryOutcome::SendFailed, TryOutcome::SendFailed, TryOutcome::SendFailed];
    assert_eq!(run_request(&config, outcomes), (Ok(JsonValue::Null), 1));
}

#[test]
fn request_ends_on_unreadable_rate_limit() {
    let config = HttpConfiguration { retry_limit: 2, connect_timeout: 5000 };
    let outcomes = vec![answered(429, None), TryOutcome::SendFailed];
    assert_eq!(run_request(&config, outcomes), (Err(SendError::RateLimitUnreadable), 1));
}
