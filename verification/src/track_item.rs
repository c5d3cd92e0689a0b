//! Closed and in-progress time intervals, and the rule that decides
//! which of them may be persisted.

use vstd::prelude::*;

use crate::window::clone_string_opt;

verus! {

/// A time interval tagged with what was tracked during it. Timestamps
/// are in milliseconds.
#[derive(Debug)]
pub struct TrackItem {
    /// Database id; unset while the item is in progress.
    pub id: Option<i64>,
    /// Application name, or the state name for status items.
    pub app: String,
    /// `"AppTrackItem"` or `"StatusTrackItem"`.
    pub task_name: String,
    /// Window title, or the state name for status items.
    pub title: String,
    /// URL of the active browser tab, if one was resolved.
    pub url: Option<String>,
    /// Lowercase host of `url`.
    pub domain: Option<String>,
    /// Display color.
    pub color: Option<String>,
    /// Start of the interval.
    pub begin_date: i64,
    /// End of the interval; advanced on every tick while in progress.
    pub end_date: i64,
}

/// The mathematical value of a `TrackItem`.
pub ghost struct TrackRecord {
    pub id: Option<int>,
    pub app: Seq<char>,
    pub task_name: Seq<char>,
    pub title: Seq<char>,
    pub url: Option<Seq<char>>,
    pub domain: Option<Seq<char>>,
    pub color: Option<Seq<char>>,
    pub begin_date: int,
    pub end_date: int,
}

impl View for TrackItem {
    type V = TrackRecord;

    open spec fn view(&self) -> TrackRecord {
        TrackRecord {
            id: match self.id {
                Some(n) => Some(n as int),
                None => None,
            },
            app: self.app@,
            task_name: self.task_name@,
            title: self.title@,
            url: self.url.deep_view(),
            domain: self.domain.deep_view(),
            color: self.color.deep_view(),
            begin_date: self.begin_date as int,
            end_date: self.end_date as int,
        }
    }
}

impl DeepView for TrackItem {
    type V = TrackRecord;

    open spec fn deep_view(&self) -> TrackRecord {
        self.view()
    }
}

impl Clone for TrackItem {
    fn clone(&self) -> (r: Self)
        ensures
            r == *self,
    {
        TrackItem {
            id: self.id,
            app: self.app.clone(),
            task_name: self.task_name.clone(),
            title: self.title.clone(),
            url: clone_string_opt(&self.url),
            domain: clone_string_opt(&self.domain),
            color: clone_string_opt(&self.color),
            begin_date: self.begin_date,
            end_date: self.end_date,
        }
    }
}

/// The task name of application-focus items.
pub open spec fn app_task_name() -> Seq<char> {
    "AppTrackItem"@
}

/// The task name of system-state items.
pub open spec fn status_task_name() -> Seq<char> {
    "StatusTrackItem"@
}

/// An interval may be persisted only if it lasted at least a second;
/// shorter ones are discarded, never stored.
pub open spec fn spec_eligible(t: TrackRecord) -> bool {
    t.end_date - t.begin_date >= 1000
}

/// Whether a closed item is eligible for persistence (at least one
/// second long).
pub fn is_eligible(item: &TrackItem) -> (r: bool)
    ensures
        r == spec_eligible(item@),
{
    (item.end_date as i128) - (item.begin_date as i128) >= 1000
}

/// A stored per-application setting: its display color.
pub struct AppSetting {
    pub id: Option<i64>,
    pub name: String,
    pub color: Option<String>,
}

/// The sum of the durations of a sequence of intervals.
pub open spec fn sum_durations(s: Seq<TrackRecord>) -> int
    decreases s.len(),
{
    if s.len() == 0 {
        0
    } else {
        sum_durations(s.drop_last()) + (s.last().end_date - s.last().begin_date)
    }
}

/// The total duration of a batch of well-formed intervals, provided it
/// fits in the result type.
pub fn total_duration(items: &Vec<TrackItem>) -> (r: i64)
    requires
        forall|i: int|
            0 <= i < items@.len() ==> 0 <= (#[trigger] items@[i])@.begin_date
                <= items@[i]@.end_date,
        sum_durations(items.deep_view()) <= i64::MAX,
    ensures
        r == sum_durations(items.deep_view()),
{
    let ghost all = items.deep_view();
    let n = items.len();
    let mut acc: i128 = 0;
    let mut i: usize = 0;
    while i < n
        invariant
            n == items@.len(),
            all == items.deep_view(),
            0 <= i <= n,
            acc == sum_durations(all.take(i as int)),
            0 <= acc <= (i as int) * (i64::MAX as int),
            forall|k: int|
                0 <= k < items@.len() ==> 0 <= (#[trigger] items@[k])@.begin_date
                    <= items@[k]@.end_date,
        decreases n - i,
    {
        let d: i128 = (items[i].end_date as i128) - (items[i].begin_date as i128);
        proof {
            assert(all.take(i + 1 as int).drop_last() =~= all.take(i as int));
            assert(all.take(i + 1 as int).last() == all[i as int]);
            assert((i as int) * (i64::MAX as int) + i64::MAX == ((i + 1) as int) * (
            i64::MAX as int)) by (nonlinear_arith);
            assert((i + 1) as int * (i64::MAX as int) < i128::MAX) by (nonlinear_arith)
                requires
                    0 <= i < n <= usize::MAX,
            ;
        }
        acc = acc + d;
        i = i + 1;
    }
    proof {
        assert(all.take(n as int) =~= all);
    }
    acc as i64
}

/// A page of search results, with the total duration of the items on it.
pub struct SearchResult {
    pub data: Vec<TrackItem>,
    pub total: i64,
    pub total_duration: Option<i64>,
}

/// Assemble a search result page from the items found: `total` counts
/// them and `total_duration` sums their durations.
pub fn search_result_of(data: Vec<TrackItem>, total: i64) -> (r: SearchResult)
    requires
        forall|i: int|
            0 <= i < data@.len() ==> 0 <= (#[trigger] data@[i])@.begin_date <= data@[i]@.end_date,
        sum_durations(data.deep_view()) <= i64::MAX,
    ensures
        r.data == data,
        r.total == total,
        r.total_duration == Some(sum_durations(data.deep_view()) as i64),
{
    let d = total_duration(&data);
    SearchResult { data, total, total_duration: Some(d) }
}

} // verus!
