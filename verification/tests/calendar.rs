use chrono::TimeZone;
use pandora::time::{MAX_UTC_MILLIS, MIN_UTC_MILLIS};

#[test]
fn calendar_bounds_match_chrono() {
    assert!(chrono::Utc.timestamp_millis_opt(MIN_UTC_MILLIS).single().is_some());
    assert!(chrono::Utc.timestamp_millis_opt(MIN_UTC_MILLIS - 1).single().is_none());
    assert!(chrono::Utc.timestamp_millis_opt(MAX_UTC_MILLIS).single().is_some());
    assert!(chrono::Utc.timestamp_millis_opt(MAX_UTC_MILLIS + 1).single().is_none());
    assert!(chrono::Utc.timestamp_opt(-8334601228800, 0).single().is_some());
    assert!(chrono::Utc.timestamp_opt(-8334601228801, 0).single().is_none());
    assert!(chrono::Utc.timestamp_opt(8210266876799, 0).single().is_some());
    assert!(chrono::Utc.timestamp_opt(8210266876800, 0).single().is_none());
}
