use timlyzer::state_monitor::{StateMonitor, SystemState};
use timlyzer::tracker::state_to_color;

#[test]
fn test_state_monitor_default() {
    let monitor = StateMonitor::new();
    assert_eq!(monitor.get_state(), SystemState::Online);
    assert_eq!(monitor.get_idle_threshold(), 300);
}

#[test]
fn test_state_monitor_update() {
    let mut monitor = StateMonitor::with_threshold(60);

    // Should stay online when idle time < threshold
    assert!(!monitor.update(30, 1_000));
    assert_eq!(monitor.get_state(), SystemState::Online);

    // Should change to idle when idle time >= threshold
    assert!(monitor.update(61, 2_000));
    assert_eq!(monitor.get_state(), SystemState::Idle);

    // Should change back to online
    assert!(monitor.update(0, 3_000));
    assert_eq!(monitor.get_state(), SystemState::Online);
}

#[test]
fn test_set_offline_online() {
    let mut monitor = StateMonitor::new();

    monitor.set_offline(1_000);
    assert_eq!(monitor.get_state(), SystemState::Offline);

    monitor.set_online(2_000);
    assert_eq!(monitor.get_state(), SystemState::Online);
}

#[test]
fn test_update_same_idle_no_second_change() {
    let mut monitor = StateMonitor::with_threshold(300);
    let first = monitor.update(400, 1_000);
    let second = monitor.update(400, 2_000);
    assert!(first);
    assert!(!second);
    // And below the threshold as well.
    let mut monitor2 = StateMonitor::with_threshold(300);
    assert!(!monitor2.update(10, 1_000));
    assert!(!monitor2.update(10, 2_000));
}

#[test]
fn test_one_transition_at_third_call() {
    // Idle durations [0, 0, 301] against a 300 s threshold: exactly one
    // Online -> Idle transition, at the third call.
    let mut monitor = StateMonitor::with_threshold(300);
    let changes = [
        monitor.update(0, 1_000),
        monitor.update(0, 2_000),
        monitor.update(301, 3_000),
    ];
    assert_eq!(changes, [false, false, true]);
    assert_eq!(monitor.get_state(), SystemState::Idle);
    assert_eq!(monitor.get_last_state_change(), 3_000);
}

#[test]
fn test_transition_timestamp_only_on_change() {
    let mut monitor = StateMonitor::with_threshold(60);
    assert_eq!(monitor.get_last_state_change(), 0);
    monitor.update(10, 500);
    assert_eq!(monitor.get_last_state_change(), 0);
    monitor.update(70, 900);
    assert_eq!(monitor.get_last_state_change(), 900);
}

#[test]
fn test_set_idle_threshold() {
    let mut monitor = StateMonitor::new();
    monitor.set_idle_threshold(30);
    assert_eq!(monitor.get_idle_threshold(), 30);
    assert!(monitor.update(31, 1_000));
    assert_eq!(monitor.get_state(), SystemState::Idle);
}

#[test]
fn test_forced_offline_left_by_update() {
    // update() compares against the current state, including a forced
    // Offline, so an idle-driven tick leaves it.
    let mut monitor = StateMonitor::new();
    monitor.set_offline(1_000);
    assert!(monitor.update(0, 2_000));
    assert_eq!(monitor.get_state(), SystemState::Online);
}

#[test]
fn test_state_names() {
    assert_eq!(SystemState::Online.name(), "ONLINE");
    assert_eq!(SystemState::Idle.name(), "IDLE");
    assert_eq!(SystemState::Offline.name(), "OFFLINE");
}

#[test]
fn test_state_colors() {
    assert_eq!(state_to_color(SystemState::Online), "#22c55e");
    assert_eq!(state_to_color(SystemState::Idle), "#f59e0b");
    assert_eq!(state_to_color(SystemState::Offline), "#6b7280");
}
