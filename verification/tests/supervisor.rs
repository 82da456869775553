use pandora::supervisor::{on_process_exit, CliArgs, SupervisorAction};

#[test]
fn child_arguments() {
    let a = CliArgs { domain: "example.org".to_string(), port: 8080 };
    assert_eq!(a.child_arguments(), vec!["--port", "8080", "--domain", "example.org"]);
}

#[test]
fn clean_exit_stops() {
    let mut crashes = vec![1u64, 2];
    assert_eq!(on_process_exit(&mut crashes, 0, 10), SupervisorAction::Stop);
    assert_eq!(crashes, vec![1, 2]);
}

#[test]
fn old_crashes_are_forgotten() {
    let mut crashes = vec![0u64, 100_000, 200_000];
    assert_eq!(on_process_exit(&mut crashes, 1, 250_000), SupervisorAction::Restart);
    assert_eq!(crashes, vec![200_000, 250_000]);
}

#[test]
fn five_recent_crashes_give_up() {
    let mut crashes = vec![1_000u64, 2_000, 3_000, 4_000];
    assert_eq!(on_process_exit(&mut crashes, 101, 5_000), SupervisorAction::GiveUp);
    assert_eq!(crashes.len(), 5);
}
