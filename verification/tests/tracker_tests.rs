use timlyzer::track_item::is_eligible;
use timlyzer::tracker::{Tracker, TrackerConfig, TrackerEvent};
use timlyzer::state_monitor::SystemState;
use timlyzer::window::WindowInfo;

fn config() -> TrackerConfig {
    TrackerConfig { polling_interval: 3, idle_threshold: 300, track_urls: false }
}

fn window(app: &str, title: &str) -> WindowInfo {
    WindowInfo::new(app.to_string(), title.to_string(), 42)
}

#[test]
fn test_config_default() {
    let c = TrackerConfig::default();
    assert_eq!(c.polling_interval, 3);
    assert_eq!(c.idle_threshold, 300);
    assert!(!c.track_urls);
}

#[test]
fn test_controls() {
    let mut t = Tracker::new(config());
    assert!(!t.is_running());
    assert!(!t.is_paused());
    assert_eq!(t.get_system_state(), SystemState::Online);
    t.start();
    assert!(t.is_running());
    t.start(); // idempotent
    assert!(t.is_running());
    t.pause();
    assert!(t.is_paused());
    t.resume();
    assert!(!t.is_paused());
    t.stop();
    assert!(!t.is_running());
}

#[test]
fn test_first_tick_opens_status_slot() {
    let mut t = Tracker::new(config());
    t.start();
    let out = t.tick(1_000, 0, None, None);
    assert!(out.saved.is_empty());
    assert_eq!(out.events.len(), 1);
    assert!(matches!(out.events[0], TrackerEvent::StateChanged(SystemState::Online)));
    let status = t.current_status_item.as_ref().unwrap();
    assert_eq!(status.app, "ONLINE");
    assert_eq!(status.title, "ONLINE");
    assert_eq!(status.task_name, "StatusTrackItem");
    assert_eq!(status.color.as_deref(), Some("#22c55e"));
    assert_eq!(status.begin_date, 1_000);
    assert_eq!(status.end_date, 1_000);
}

#[test]
fn test_window_boundary_flushes_old_item() {
    // Windows ("A","t1"), ("A","t1"), ("B","t2") one second apart close
    // exactly one item for "A", about two seconds long, when "B" appears.
    let mut t = Tracker::new(config());
    t.start();
    let out1 = t.tick(1_000, 0, Some(window("A", "t1")), None);
    assert!(out1.saved.is_empty());
    assert_eq!(out1.events.len(), 2);
    assert!(matches!(out1.events[0], TrackerEvent::StateChanged(SystemState::Online)));
    assert!(matches!(&out1.events[1], TrackerEvent::WindowChanged(w) if w.app_name == "A"));

    let out2 = t.tick(2_000, 0, Some(window("A", "t1")), None);
    assert!(out2.saved.is_empty());
    assert!(out2.events.is_empty());
    assert_eq!(t.current_app_item.as_ref().unwrap().end_date, 2_000);

    let out3 = t.tick(3_000, 0, Some(window("B", "t2")), None);
    assert_eq!(out3.saved.len(), 1);
    let closed = &out3.saved[0];
    assert_eq!(closed.app, "A");
    assert_eq!(closed.title, "t1");
    assert_eq!(closed.task_name, "AppTrackItem");
    assert_eq!(closed.begin_date, 1_000);
    assert_eq!(closed.end_date, 3_000);
    assert_eq!(out3.events.len(), 2);
    assert!(matches!(&out3.events[0], TrackerEvent::TrackItemSaved(i) if i.app == "A"));
    assert!(matches!(&out3.events[1], TrackerEvent::WindowChanged(w) if w.app_name == "B"));
    let open = t.current_app_item.as_ref().unwrap();
    assert_eq!(open.app, "B");
    assert_eq!(open.begin_date, 3_000);
}

#[test]
fn test_short_interval_never_persisted() {
    let mut t = Tracker::new(config());
    t.start();
    t.tick(1_000, 0, Some(window("A", "t1")), None);
    // "A" lasted 999 ms: dropped silently, though the event still fires.
    let out = t.tick(1_999, 0, Some(window("B", "t2")), None);
    assert!(out.saved.is_empty());
    assert!(matches!(&out.events[0], TrackerEvent::TrackItemSaved(i) if i.app == "A"));
    // Exactly 1000 ms is persisted.
    let out2 = t.tick(2_999, 0, Some(window("C", "t3")), None);
    assert_eq!(out2.saved.len(), 1);
    assert_eq!(out2.saved[0].app, "B");
    assert_eq!(out2.saved[0].end_date - out2.saved[0].begin_date, 1_000);
}

#[test]
fn test_unavailable_window_leaves_slot_untouched() {
    let mut t = Tracker::new(config());
    t.start();
    t.tick(1_000, 0, Some(window("A", "t1")), None);
    let out = t.tick(2_000, 0, None, None);
    assert!(out.saved.is_empty());
    assert!(out.events.is_empty());
    let open = t.current_app_item.as_ref().unwrap();
    assert_eq!(open.app, "A");
    assert_eq!(open.begin_date, 1_000);
    // The slot was not extended this tick: no observation was made.
    assert_eq!(open.end_date, 1_000);
}

#[test]
fn test_system_window_closes_and_never_opens() {
    let mut t = Tracker::new(config());
    t.start();
    t.tick(1_000, 0, Some(window("A", "t1")), None);
    let out = t.tick(4_000, 0, Some(window("loginwindow", "login")), None);
    assert_eq!(out.saved.len(), 1);
    assert_eq!(out.saved[0].app, "A");
    assert_eq!(out.saved[0].end_date, 4_000);
    assert!(t.current_app_item.is_none());
    assert!(t.current_window.is_none());
    // A later system window with nothing open stays a no-op.
    let out2 = t.tick(5_000, 0, Some(window("ScreenSaverEngine", "saver")), None);
    assert!(out2.saved.is_empty());
    assert!(t.current_app_item.is_none());
}

#[test]
fn test_idle_closes_app_slot() {
    let mut t = Tracker::new(config());
    t.start();
    t.tick(1_000, 0, Some(window("A", "t1")), None);
    // Idle for 301 s with a 300 s threshold: state changes, app slot closes.
    let out = t.tick(4_000, 301, None, None);
    assert_eq!(t.get_system_state(), SystemState::Idle);
    assert_eq!(out.saved.len(), 2);
    // The status interval closes first, then the application interval.
    assert_eq!(out.saved[0].task_name, "StatusTrackItem");
    assert_eq!(out.saved[0].app, "ONLINE");
    assert_eq!(out.saved[1].task_name, "AppTrackItem");
    assert_eq!(out.saved[1].app, "A");
    assert_eq!(out.saved[1].end_date, 4_000);
    assert!(matches!(out.events[0], TrackerEvent::StateChanged(SystemState::Idle)));
    assert!(t.current_app_item.is_none());
    let status = t.current_status_item.as_ref().unwrap();
    assert_eq!(status.app, "IDLE");
    assert_eq!(status.color.as_deref(), Some("#f59e0b"));
}

#[test]
fn test_pause_flushes_and_resume_opens_fresh() {
    let mut t = Tracker::new(config());
    t.start();
    t.tick(1_000, 0, Some(window("A", "t1")), None);
    t.pause();
    // The paused tick closes both slots with the pause time as their end.
    let out = t.tick(5_000, 0, None, None);
    assert_eq!(out.saved.len(), 2);
    assert_eq!(out.saved[0].app, "A");
    assert_eq!(out.saved[0].end_date, 5_000);
    assert_eq!(out.saved[1].app, "ONLINE");
    assert_eq!(out.saved[1].end_date, 5_000);
    assert_eq!(out.events.len(), 1);
    assert!(matches!(out.events[0], TrackerEvent::TrackingPaused));
    assert!(t.current_app_item.is_none());
    assert!(t.current_status_item.is_none());
    assert!(t.current_window.is_none());
    // Further paused ticks only repeat the notification.
    let out2 = t.tick(6_000, 0, None, None);
    assert!(out2.saved.is_empty());
    assert_eq!(out2.events.len(), 1);
    // Resuming opens new intervals; the pre-pause one is never reopened.
    t.resume();
    t.tick(9_000, 0, Some(window("A", "t1")), None);
    let open = t.current_app_item.as_ref().unwrap();
    assert_eq!(open.begin_date, 9_000);
    let status = t.current_status_item.as_ref().unwrap();
    assert_eq!(status.begin_date, 9_000);
}

#[test]
fn test_app_color_recorded_on_open() {
    let mut t = Tracker::new(config());
    t.start();
    t.tick(1_000, 0, Some(window("A", "t1")), Some("#112233".to_string()));
    assert_eq!(t.current_app_item.as_ref().unwrap().color.as_deref(), Some("#112233"));
}

#[test]
fn test_url_and_domain_copied_into_item() {
    let mut t = Tracker::new(config());
    t.start();
    let mut w = window("Safari", "News");
    w.attach_url("https://News.example.org/today".to_string());
    t.tick(1_000, 0, Some(w), None);
    let open = t.current_app_item.as_ref().unwrap();
    assert_eq!(open.url.as_deref(), Some("https://News.example.org/today"));
    assert_eq!(open.domain.as_deref(), Some("news.example.org"));
}

#[test]
fn test_update_config_changes_threshold() {
    let mut t = Tracker::new(config());
    t.start();
    t.update_config(TrackerConfig { polling_interval: 1, idle_threshold: 10, track_urls: true });
    t.tick(1_000, 11, None, None);
    assert_eq!(t.get_system_state(), SystemState::Idle);
}

#[test]
fn test_is_eligible_rule() {
    let mut t = Tracker::new(config());
    t.start();
    t.tick(1_000, 0, Some(window("A", "t1")), None);
    let mut item = t.current_app_item.as_ref().unwrap().clone();
    item.end_date = item.begin_date + 999;
    assert!(!is_eligible(&item));
    item.end_date = item.begin_date + 1_000;
    assert!(is_eligible(&item));
}

#[test]
fn test_status_assembly() {
    let mut t = Tracker::new(config());
    t.start();
    t.pause();
    let s = t.status(Some("A".to_string()), Some("t1".to_string()));
    assert!(s.is_running);
    assert!(s.is_paused);
    assert_eq!(s.current_state, SystemState::Online);
    assert_eq!(s.current_app.as_deref(), Some("A"));
    assert_eq!(s.current_title.as_deref(), Some("t1"));
}

#[test]
fn test_tick_with_clock() {
    let mut t = Tracker::new(config());
    t.start();
    let (now, out) = t.tick_with_clock(0, None, None);
    // The wall clock is far past the epoch, and the first tick opens the
    // status slot.
    assert!(now > 0);
    assert!(out.saved.is_empty());
    assert_eq!(out.events.len(), 1);
    assert_eq!(t.current_status_item.as_ref().unwrap().begin_date, now);
}
