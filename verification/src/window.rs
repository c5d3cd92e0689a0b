//! The observed foreground window: its identity, the recognized-browser
//! allow-list, and the system/login windows that are never tracked.

use vstd::prelude::*;
use vstd::string::StrSliceExecFns;

use crate::domain::{extract_domain, spec_domain};

verus! {

/// Information about the currently focused window.
#[derive(Debug)]
pub struct WindowInfo {
    /// Application name (e.g. "Google Chrome").
    pub app_name: String,
    /// Window title.
    pub title: String,
    /// Process id.
    pub process_id: u32,
    /// URL of the active tab, for recognized browsers.
    pub url: Option<String>,
    /// Lowercase host of `url`.
    pub domain: Option<String>,
}

/// The mathematical value of a `WindowInfo`.
pub ghost struct WindowRecord {
    pub app_name: Seq<char>,
    pub title: Seq<char>,
    pub process_id: u32,
    pub url: Option<Seq<char>>,
    pub domain: Option<Seq<char>>,
}

impl View for WindowInfo {
    type V = WindowRecord;

    open spec fn view(&self) -> WindowRecord {
        WindowRecord {
            app_name: self.app_name@,
            title: self.title@,
            process_id: self.process_id,
            url: self.url.deep_view(),
            domain: self.domain.deep_view(),
        }
    }
}

impl DeepView for WindowInfo {
    type V = WindowRecord;

    open spec fn deep_view(&self) -> WindowRecord {
        self.view()
    }
}

impl Clone for WindowInfo {
    fn clone(&self) -> (r: Self)
        ensures
            r == *self,
    {
        WindowInfo {
            app_name: self.app_name.clone(),
            title: self.title.clone(),
            process_id: self.process_id,
            url: clone_string_opt(&self.url),
            domain: clone_string_opt(&self.domain),
        }
    }
}

/// A copy of an optional string, equal to its source.
pub fn clone_string_opt(o: &Option<String>) -> (r: Option<String>)
    ensures
        r == *o,
{
    match o {
        Some(s) => Some(s.clone()),
        None => None,
    }
}

impl WindowInfo {
    /// A window observation without URL information.
    pub fn new(app_name: String, title: String, process_id: u32) -> (r: Self)
        ensures
            r@ == (WindowRecord {
                app_name: app_name@,
                title: title@,
                process_id: process_id,
                url: None,
                domain: None,
            }),
    {
        WindowInfo { app_name, title, process_id, url: None, domain: None }
    }

    /// Record the active tab's URL and derive its domain from it.
    pub fn attach_url(&mut self, url: String)
        ensures
            final(self)@ == (WindowRecord {
                url: Some(url@),
                domain: spec_domain(url@),
                ..old(self)@
            }),
    {
        self.domain = extract_domain(url.as_str());
        self.url = Some(url);
    }
}

/// Whether two observations show the same window: same application name
/// and same title (the process id does not matter).
pub open spec fn spec_same_window(a: WindowRecord, b: WindowRecord) -> bool {
    a.app_name == b.app_name && a.title == b.title
}

/// Check if two windows are the same (same app and title).
pub fn is_same_window(a: &WindowInfo, b: &WindowInfo) -> (r: bool)
    ensures
        r == spec_same_window(a@, b@),
{
    a.app_name == b.app_name && a.title == b.title
}

/// Character-for-character equality of two string slices.
pub fn str_eq(a: &str, b: &str) -> (r: bool)
    ensures
        r == (a@ == b@),
{
    let n = a.unicode_len();
    if n != b.unicode_len() {
        return false;
    }
    let mut i: usize = 0;
    while i < n
        invariant
            n == a@.len(),
            n == b@.len(),
            0 <= i <= n,
            forall|j: int| 0 <= j < i ==> a@[j] == b@[j],
        decreases n - i,
    {
        if a.get_char(i) != b.get_char(i) {
            return false;
        }
        i = i + 1;
    }
    proof {
        assert(a@ =~= b@);
    }
    true
}

/// The fixed allow-list of recognized browser applications.
pub open spec fn spec_is_browser(s: Seq<char>) -> bool {
    ||| s == "Google Chrome"@
    ||| s == "Safari"@
    ||| s == "Arc"@
    ||| s == "Microsoft Edge"@
    ||| s == "Brave Browser"@
    ||| s == "Firefox"@
    ||| s == "Opera"@
    ||| s == "Vivaldi"@
}

/// Check if an app is a known browser.
pub fn is_browser(app_name: &str) -> (r: bool)
    ensures
        r == spec_is_browser(app_name@),
{
    str_eq(app_name, "Google Chrome") || str_eq(app_name, "Safari") || str_eq(app_name, "Arc")
        || str_eq(app_name, "Microsoft Edge") || str_eq(app_name, "Brave Browser") || str_eq(
        app_name,
        "Firefox",
    ) || str_eq(app_name, "Opera") || str_eq(app_name, "Vivaldi")
}

/// The system/login-screen windows that never become track items.
pub open spec fn spec_is_system_window(s: Seq<char>) -> bool {
    s == "loginwindow"@ || s == "ScreenSaverEngine"@
}

/// Check if a window belongs to the login screen or the screen saver.
pub fn is_system_window(app_name: &str) -> (r: bool)
    ensures
        r == spec_is_system_window(app_name@),
{
    str_eq(app_name, "loginwindow") || str_eq(app_name, "ScreenSaverEngine")
}

} // verus!
