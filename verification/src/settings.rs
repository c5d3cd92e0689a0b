//! User-facing application settings and their projection onto the
//! tracker's own configuration.

use vstd::prelude::*;
use vstd::string::StringExecFns;

use crate::tracker::TrackerConfig;

verus! {

/// Application settings as the user edits them. `close_action` is one of
/// `"minimize"`, `"ask"` or `"quit"`.
#[derive(Debug)]
pub struct AppSettings {
    pub theme: String,
    pub auto_start: bool,
    pub close_action: String,
    /// Polling interval in seconds.
    pub polling_interval: u64,
    /// Idle threshold in seconds.
    pub idle_threshold: u64,
    pub track_urls: bool,
}

impl Default for AppSettings {
    /// System theme, no autostart, minimize on close, three-second
    /// polling, five-minute idle threshold, URLs not tracked.
    fn default() -> (r: Self)
        ensures
            r.theme@ == "system"@,
            r.auto_start == false,
            r.close_action@ == "minimize"@,
            r.polling_interval == 3u64,
            r.idle_threshold == 300u64,
            r.track_urls == false,
    {
        AppSettings {
            theme: String::from_str("system"),
            auto_start: false,
            close_action: String::from_str("minimize"),
            polling_interval: 3,
            idle_threshold: 300,
            track_urls: false,
        }
    }
}

impl AppSettings {
    /// The part of the settings the tracker consumes.
    pub fn tracker_config(&self) -> (r: TrackerConfig)
        ensures
            r == (TrackerConfig {
                polling_interval: self.polling_interval,
                idle_threshold: self.idle_threshold,
                track_urls: self.track_urls,
            }),
    {
        TrackerConfig {
            polling_interval: self.polling_interval,
            idle_threshold: self.idle_threshold,
            track_urls: self.track_urls,
        }
    }
}

} // verus!
