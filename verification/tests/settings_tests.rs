use timlyzer::settings::AppSettings;
use timlyzer::track_item::{search_result_of, total_duration, TrackItem};

fn item(begin: i64, end: i64) -> TrackItem {
    TrackItem {
        id: None,
        app: "A".to_string(),
        task_name: "AppTrackItem".to_string(),
        title: "t".to_string(),
        url: None,
        domain: None,
        color: None,
        begin_date: begin,
        end_date: end,
    }
}

#[test]
fn test_app_settings_default() {
    let s = AppSettings::default();
    assert_eq!(s.theme, "system");
    assert!(!s.auto_start);
    assert_eq!(s.close_action, "minimize");
    assert_eq!(s.polling_interval, 3);
    assert_eq!(s.idle_threshold, 300);
    assert!(!s.track_urls);
}

#[test]
fn test_tracker_config_projection() {
    let mut s = AppSettings::default();
    s.polling_interval = 7;
    s.idle_threshold = 120;
    s.track_urls = true;
    let c = s.tracker_config();
    assert_eq!(c.polling_interval, 7);
    assert_eq!(c.idle_threshold, 120);
    assert!(c.track_urls);
}

#[test]
fn test_total_duration() {
    let items = vec![item(0, 1_000), item(2_000, 3_500), item(10_000, 10_000)];
    assert_eq!(total_duration(&items), 2_500);
    assert_eq!(total_duration(&Vec::new()), 0);
}

#[test]
fn test_search_result_of() {
    let items = vec![item(100, 1_100), item(5_000, 6_000)];
    let r = search_result_of(items, 2);
    assert_eq!(r.total, 2);
    assert_eq!(r.total_duration, Some(2_000));
    assert_eq!(r.data.len(), 2);
    assert_eq!(r.data[0].begin_date, 100);
}
