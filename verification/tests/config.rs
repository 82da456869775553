use pandora::config::{ApiConfig, Config, SecurityConfig, StatusConfig};
use pandora::models::presence::{Activity, ActivityType};

fn activity(name: &str) -> Activity {
    Activity { name: name.to_string(), activity_type: ActivityType::Game, url: None, presence: "online".to_string() }
}

fn config(intents: u64, retry: u64) -> Config {
    Config {
        intents,
        version: "1".to_string(),
        build: "b".to_string(),
        langs: "langs".to_string(),
        dynamic_requests: "req".to_string(),
        pid: "1".to_string(),
        api: ApiConfig { retry_limit: retry, close_timeout: 10 },
        security: SecurityConfig { archive_path: "a.pndr".to_string() },
        status: StatusConfig {
            alternate: vec![activity("x")],
            interval: 60,
            dev: activity("dev"),
            maintenance: activity("m"),
            unavailable: activity("u"),
        },
    }
}

#[test]
fn reload_takes_intents_and_api() {
    let mut running = config(1, 3);
    let mut loaded = config(513, 9);
    loaded.langs = "other".to_string();
    running.reload_from(&loaded);
    assert_eq!(running.intents, 513);
    assert_eq!(running.api, ApiConfig { retry_limit: 9, close_timeout: 10 });
    assert_eq!(running.langs, "langs");
}

#[test]
fn config_clone_keeps_values() {
    let c = config(7, 2);
    let d = c.clone();
    assert_eq!(d.intents, 7);
    assert_eq!(d.status.alternate.len(), 1);
    assert_eq!(d.status.alternate[0].name, "x");
    assert_eq!(d.security.archive_path, "a.pndr");
}
