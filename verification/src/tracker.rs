//! The interval-tracking engine: a periodic tick that classifies system
//! activity, detects window-focus boundaries, keeps two in-progress
//! interval slots, and hands closed, eligible intervals to the caller
//! for persistence.

use vstd::prelude::*;
use vstd::string::StringExecFns;

use crate::state_monitor::{spec_state_name, spec_update, StateMonitor, SystemState};
use crate::track_item::{
    app_task_name, is_eligible, spec_eligible, status_task_name, TrackItem, TrackRecord,
};
use crate::window::{clone_string_opt, is_system_window, spec_is_system_window, WindowInfo,
    WindowRecord};

verus! {

/// Tracker configuration.
#[derive(Clone, Copy, Debug)]
pub struct TrackerConfig {
    /// Polling interval in seconds.
    pub polling_interval: u64,
    /// Idle threshold in seconds.
    pub idle_threshold: u64,
    /// Whether to track URLs (for browsers).
    pub track_urls: bool,
}

impl Default for TrackerConfig {
    /// Poll every three seconds, with a five-minute idle threshold, not
    /// tracking URLs.
    fn default() -> (r: Self)
        ensures
            r == (TrackerConfig { polling_interval: 3u64, idle_threshold: 300u64, track_urls: false }),
    {
        TrackerConfig { polling_interval: 3, idle_threshold: 300, track_urls: false }
    }
}

/// The display color recorded on status items for each state.
pub open spec fn spec_state_color(s: SystemState) -> Seq<char> {
    match s {
        SystemState::Online => "#22c55e"@,
        SystemState::Idle => "#f59e0b"@,
        SystemState::Offline => "#6b7280"@,
    }
}

/// Get color for a system state.
pub fn state_to_color(state: SystemState) -> (r: String)
    ensures
        r@ == spec_state_color(state),
{
    match state {
        SystemState::Online => String::from_str("#22c55e"),
        SystemState::Idle => String::from_str("#f59e0b"),
        SystemState::Offline => String::from_str("#6b7280"),
    }
}

/// A lifecycle notification emitted by a tick, in emission order.
#[derive(Debug)]
pub enum TrackerEvent {
    /// The system state changed to the payload.
    StateChanged(SystemState),
    /// A new window came into focus.
    WindowChanged(WindowInfo),
    /// An application item was closed by a window boundary; emitted
    /// whether or not the item was eligible for persistence.
    TrackItemSaved(TrackItem),
    /// The tracker observed the pause flag.
    TrackingPaused,
}

/// The mathematical value of a `TrackerEvent`.
#[verifier::ext_equal]
pub ghost enum EventRecord {
    StateChanged(SystemState),
    WindowChanged(WindowRecord),
    TrackItemSaved(TrackRecord),
    TrackingPaused,
}

impl View for TrackerEvent {
    type V = EventRecord;

    open spec fn view(&self) -> EventRecord {
        match self {
            TrackerEvent::StateChanged(s) => EventRecord::StateChanged(*s),
            TrackerEvent::WindowChanged(w) => EventRecord::WindowChanged(w@),
            TrackerEvent::TrackItemSaved(t) => EventRecord::TrackItemSaved(t@),
            TrackerEvent::TrackingPaused => EventRecord::TrackingPaused,
        }
    }
}

impl DeepView for TrackerEvent {
    type V = EventRecord;

    open spec fn deep_view(&self) -> EventRecord {
        self.view()
    }
}

/// What one tick hands back to its caller: the closed intervals that are
/// eligible for persistence, in order, and the notifications to emit.
pub struct TickOutput {
    pub saved: Vec<TrackItem>,
    pub events: Vec<TrackerEvent>,
}

/// The mathematical value of a `Tracker`, including the history of every
/// interval it has handed out for persistence.
#[verifier::ext_equal]
pub ghost struct TrackerModel {
    pub monitor: StateMonitor,
    pub config: TrackerConfig,
    pub current_window: Option<WindowRecord>,
    pub app_item: Option<TrackRecord>,
    pub status_item: Option<TrackRecord>,
    pub last_state: SystemState,
    pub last_now: i64,
    pub running: bool,
    pub paused: bool,
    pub app_history: Seq<TrackRecord>,
    pub status_history: Seq<TrackRecord>,
}

/// What one tick yields at the model level.
#[verifier::ext_equal]
pub ghost struct TickResult {
    pub post: TrackerModel,
    pub saved: Seq<TrackRecord>,
    pub events: Seq<EventRecord>,
}

/// The record closed at time `now`.
pub open spec fn spec_close(t: TrackRecord, now: int) -> TrackRecord {
    TrackRecord { end_date: now, ..t }
}

/// An optional slot closed at time `now`.
pub open spec fn spec_close_opt(slot: Option<TrackRecord>, now: int) -> Option<TrackRecord> {
    match slot {
        Some(t) => Some(spec_close(t, now)),
        None => None,
    }
}

/// What a closed slot contributes to persistence: the record itself when
/// it is eligible, nothing otherwise.
pub open spec fn spec_saves_of(closed: Option<TrackRecord>) -> Seq<TrackRecord> {
    match closed {
        Some(t) => if spec_eligible(t) {
            seq![t]
        } else {
            Seq::empty()
        },
        None => Seq::empty(),
    }
}

/// The status item opened for state `s` at time `now`: app and title
/// both carry the state's name, and the color is the state's palette
/// entry.
pub open spec fn spec_status_record(s: SystemState, now: int) -> TrackRecord {
    TrackRecord {
        id: None,
        app: spec_state_name(s),
        task_name: status_task_name(),
        title: spec_state_name(s),
        url: None,
        domain: None,
        color: Some(spec_state_color(s)),
        begin_date: now,
        end_date: now,
    }
}

/// The application item opened for window `w` at time `now`, with the
/// color looked up for its application name.
pub open spec fn spec_app_record(w: WindowRecord, color: Option<Seq<char>>, now: int) -> TrackRecord {
    TrackRecord {
        id: None,
        app: w.app_name,
        task_name: app_task_name(),
        title: w.title,
        url: w.url,
        domain: w.domain,
        color: color,
        begin_date: now,
        end_date: now,
    }
}

/// A tick that observes the pause flag: both slots are closed and
/// flushed with the pause time as their end, the window is forgotten,
/// and nothing is sampled.
pub open spec fn spec_tick_paused(pre: TrackerModel, now: i64) -> TickResult {
    let closed_app = spec_close_opt(pre.app_item, now as int);
    let closed_status = spec_close_opt(pre.status_item, now as int);
    TickResult {
        post: TrackerModel {
            current_window: None,
            app_item: None,
            status_item: None,
            last_now: now,
            app_history: pre.app_history + spec_saves_of(closed_app),
            status_history: pre.status_history + spec_saves_of(closed_status),
            ..pre
        },
        saved: spec_saves_of(closed_app) + spec_saves_of(closed_status),
        events: seq![EventRecord::TrackingPaused],
    }
}

/// One active tick at time `now`: reclassify from the idle duration,
/// rotate the status slot on a state boundary (or when none is open),
/// and, while `Online`, rotate the application slot on a window
/// boundary; away from `Online` the application slot is closed. Closed
/// slots are flushed when eligible.
pub open spec fn spec_tick_active(
    pre: TrackerModel,
    now: i64,
    idle_secs: u64,
    window: Option<WindowRecord>,
    color: Option<Seq<char>>,
) -> TickResult {
    let stepped = spec_update(pre.monitor, idle_secs, now);
    let mon = stepped.0;
    let changed = stepped.1;
    let s = mon.current_state;
    let fresh = changed || pre.last_state != s || pre.status_item is None;
    let closed_status: Option<TrackRecord> = if fresh {
        spec_close_opt(pre.status_item, now as int)
    } else {
        None
    };
    let new_status = if fresh {
        Some(spec_status_record(s, now as int))
    } else {
        spec_close_opt(pre.status_item, now as int)
    };
    let status_saves = spec_saves_of(closed_status);
    let status_events: Seq<EventRecord> = if fresh {
        seq![EventRecord::StateChanged(s)]
    } else {
        Seq::empty()
    };
    let base = TrackerModel {
        monitor: mon,
        last_state: s,
        last_now: now,
        status_item: new_status,
        status_history: pre.status_history + status_saves,
        ..pre
    };
    if s == SystemState::Online {
        match window {
            None => TickResult { post: base, saved: status_saves, events: status_events },
            Some(w) => {
                if spec_is_system_window(w.app_name) {
                    let closed_app = spec_close_opt(pre.app_item, now as int);
                    TickResult {
                        post: TrackerModel {
                            current_window: None,
                            app_item: None,
                            app_history: pre.app_history + spec_saves_of(closed_app),
                            ..base
                        },
                        saved: status_saves + spec_saves_of(closed_app),
                        events: status_events + (match closed_app {
                            Some(t) => seq![EventRecord::TrackItemSaved(t)],
                            None => Seq::empty(),
                        }),
                    }
                } else {
                    let same = match pre.current_window {
                        Some(pw) => pw.app_name == w.app_name && pw.title == w.title,
                        None => false,
                    };
                    if same {
                        TickResult {
                            post: TrackerModel {
                                app_item: spec_close_opt(pre.app_item, now as int),
                                ..base
                            },
                            saved: status_saves,
                            events: status_events,
                        }
                    } else {
                        let closed_app = spec_close_opt(pre.app_item, now as int);
                        TickResult {
                            post: TrackerModel {
                                current_window: Some(w),
                                app_item: Some(spec_app_record(w, color, now as int)),
                                app_history: pre.app_history + spec_saves_of(closed_app),
                                ..base
                            },
                            saved: status_saves + spec_saves_of(closed_app),
                            events: status_events + (match closed_app {
                                Some(t) => seq![EventRecord::TrackItemSaved(t)],
                                None => Seq::empty(),
                            }) + seq![EventRecord::WindowChanged(w)],
                        }
                    }
                }
            },
        }
    } else {
        let closed_app = spec_close_opt(pre.app_item, now as int);
        TickResult {
            post: TrackerModel {
                current_window: None,
                app_item: None,
                app_history: pre.app_history + spec_saves_of(closed_app),
                ..base
            },
            saved: status_saves + spec_saves_of(closed_app),
            events: status_events,
        }
    }
}

/// One tick: the paused branch when the pause flag is set, the active
/// branch otherwise.
pub open spec fn spec_tick(
    pre: TrackerModel,
    now: i64,
    idle_secs: u64,
    window: Option<WindowRecord>,
    color: Option<Seq<char>>,
) -> TickResult {
    if pre.paused {
        spec_tick_paused(pre, now)
    } else {
        spec_tick_active(pre, now, idle_secs, window, color)
    }
}

/// A record is a well-formed time interval.
pub open spec fn interval_ok(t: TrackRecord) -> bool {
    0 <= t.begin_date && t.begin_date <= t.end_date
}

/// A record is an application item, and never one for a system/login
/// window.
pub open spec fn app_record_ok(t: TrackRecord) -> bool {
    t.task_name == app_task_name() && !spec_is_system_window(t.app)
}

/// A record is a status item: app and title both carry a state's name.
pub open spec fn status_record_ok(t: TrackRecord) -> bool {
    &&& t.task_name == status_task_name()
    &&& t.title == t.app
    &&& (t.app == spec_state_name(SystemState::Online) || t.app == spec_state_name(
        SystemState::Idle,
    ) || t.app == spec_state_name(SystemState::Offline))
}

/// A history of closed, eligible intervals in chronological order,
/// each ending no later than the next begins.
pub open spec fn chain_ok(h: Seq<TrackRecord>) -> bool {
    &&& forall|i: int|
        0 <= i < h.len() ==> interval_ok(#[trigger] h[i]) && spec_eligible(h[i])
    &&& forall|i: int|
        0 <= i && i + 1 < h.len() ==> (#[trigger] h[i]).end_date <= h[i + 1].begin_date
}

/// Every interval in the history ends no later than `b`.
pub open spec fn hist_before(h: Seq<TrackRecord>, b: int) -> bool {
    forall|i: int| 0 <= i < h.len() ==> (#[trigger] h[i]).end_date <= b
}

/// An in-progress slot stands after its whole history; an empty slot
/// leaves the history bounded by the last tick time.
pub open spec fn slot_ok(slot: Option<TrackRecord>, h: Seq<TrackRecord>, last_now: i64) -> bool {
    match slot {
        Some(t) => interval_ok(t) && t.end_date <= last_now && hist_before(h, t.begin_date),
        None => hist_before(h, last_now as int),
    }
}

/// The tracker's invariant, maintained by every tick.
pub open spec fn wf(m: TrackerModel) -> bool {
    &&& 0 <= m.last_now
    &&& chain_ok(m.app_history)
    &&& forall|i: int|
        0 <= i < m.app_history.len() ==> app_record_ok(#[trigger] m.app_history[i])
    &&& chain_ok(m.status_history)
    &&& forall|i: int|
        0 <= i < m.status_history.len() ==> status_record_ok(#[trigger] m.status_history[i])
    &&& slot_ok(m.app_item, m.app_history, m.last_now)
    &&& slot_ok(m.status_item, m.status_history, m.last_now)
    &&& (match m.app_item {
        Some(t) => app_record_ok(t),
        None => true,
    })
    &&& (match m.status_item {
        Some(t) => status_record_ok(t),
        None => true,
    })
    &&& (match (m.current_window, m.app_item) {
        (Option::None, Option::None) => true,
        (Option::Some(w), Option::Some(t)) => t.app == w.app_name && t.title == w.title
            && !spec_is_system_window(w.app_name),
        _ => false,
    })
}

/// Closing a slot at a time no earlier than the last tick keeps the
/// history a chain and bounds it by that time.
proof fn lemma_chain_append(h: Seq<TrackRecord>, slot: Option<TrackRecord>, now: i64, last_now: i64)
    requires
        chain_ok(h),
        slot_ok(slot, h, last_now),
        0 <= last_now <= now,
    ensures
        chain_ok(h + spec_saves_of(spec_close_opt(slot, now as int))),
        hist_before(h + spec_saves_of(spec_close_opt(slot, now as int)), now as int),
{
    let closed = spec_close_opt(slot, now as int);
    let saves = spec_saves_of(closed);
    let h2 = h + saves;
    match slot {
        Some(t) => {
            let ct = spec_close(t, now as int);
            if spec_eligible(ct) {
                assert(h2.len() == h.len() + 1);
                assert(h2[h.len() as int] == ct);
                assert forall|i: int| 0 <= i < h2.len() implies interval_ok(#[trigger] h2[i])
                    && spec_eligible(h2[i]) by {
                    if i < h.len() {
                        assert(h2[i] == h[i]);
                    } else {
                        assert(h2[i] == ct);
                    }
                }
                assert forall|i: int| 0 <= i && i + 1 < h2.len() implies (#[trigger] h2[i]).end_date
                    <= h2[i + 1].begin_date by {
                    if i + 1 < h.len() {
                        assert(h2[i] == h[i]);
                        assert(h2[i + 1] == h[i + 1]);
                    } else {
                        assert(h2[i] == h[i]);
                        assert(h2[i + 1] == ct);
                        assert(h[i].end_date <= t.begin_date);
                    }
                }
                assert forall|i: int| 0 <= i < h2.len() implies (#[trigger] h2[i]).end_date
                    <= now as int by {
                    if i < h.len() {
                        assert(h2[i] == h[i]);
                        assert(h[i].end_date <= t.begin_date);
                    } else {
                        assert(h2[i] == ct);
                    }
                }
            } else {
                assert(h2 =~= h);
                assert forall|i: int| 0 <= i < h.len() implies (#[trigger] h[i]).end_date
                    <= now as int by {
                    assert(h[i].end_date <= t.begin_date);
                }
            }
        },
        None => {
            assert(h2 =~= h);
            assert forall|i: int| 0 <= i < h.len() implies (#[trigger] h[i]).end_date
                <= now as int by {
                assert(h[i].end_date <= last_now as int);
            }
        },
    }
}

/// As `lemma_chain_append`, and every record stays an application record.
proof fn lemma_app_append(h: Seq<TrackRecord>, slot: Option<TrackRecord>, now: i64, last_now: i64)
    requires
        chain_ok(h),
        slot_ok(slot, h, last_now),
        0 <= last_now <= now,
        forall|i: int| 0 <= i < h.len() ==> app_record_ok(#[trigger] h[i]),
        (match slot {
            Some(t) => app_record_ok(t),
            None => true,
        }),
    ensures
        chain_ok(h + spec_saves_of(spec_close_opt(slot, now as int))),
        hist_before(h + spec_saves_of(spec_close_opt(slot, now as int)), now as int),
        forall|i: int|
            0 <= i < (h + spec_saves_of(spec_close_opt(slot, now as int))).len()
                ==> app_record_ok(#[trigger] (h + spec_saves_of(spec_close_opt(slot, now as int)))[i]),
{
    lemma_chain_append(h, slot, now, last_now);
    let h2 = h + spec_saves_of(spec_close_opt(slot, now as int));
    assert forall|i: int| 0 <= i < h2.len() implies app_record_ok(#[trigger] h2[i]) by {
        if i < h.len() {
            assert(h2[i] == h[i]);
        }
    }
}

/// As `lemma_chain_append`, and every record stays a status record.
proof fn lemma_status_append(h: Seq<TrackRecord>, slot: Option<TrackRecord>, now: i64, last_now: i64)
    requires
        chain_ok(h),
        slot_ok(slot, h, last_now),
        0 <= last_now <= now,
        forall|i: int| 0 <= i < h.len() ==> status_record_ok(#[trigger] h[i]),
        (match slot {
            Some(t) => status_record_ok(t),
            None => true,
        }),
    ensures
        chain_ok(h + spec_saves_of(spec_close_opt(slot, now as int))),
        hist_before(h + spec_saves_of(spec_close_opt(slot, now as int)), now as int),
        forall|i: int|
            0 <= i < (h + spec_saves_of(spec_close_opt(slot, now as int))).len()
                ==> status_record_ok(
                #[trigger] (h + spec_saves_of(spec_close_opt(slot, now as int)))[i],
            ),
{
    lemma_chain_append(h, slot, now, last_now);
    let h2 = h + spec_saves_of(spec_close_opt(slot, now as int));
    assert forall|i: int| 0 <= i < h2.len() implies status_record_ok(#[trigger] h2[i]) by {
        if i < h.len() {
            assert(h2[i] == h[i]);
        }
    }
}

/// A history bounded by one time is bounded by any later time.
proof fn lemma_hist_before_widen(h: Seq<TrackRecord>, a: int, b: int)
    requires
        hist_before(h, a),
        a <= b,
    ensures
        hist_before(h, b),
{
}

/// A tick at a time no earlier than the previous tick preserves the
/// tracker invariant.
#[verifier::rlimit(100)]
#[verifier::spinoff_prover]
proof fn lemma_tick_wf(
    pre: TrackerModel,
    now: i64,
    idle_secs: u64,
    window: Option<WindowRecord>,
    color: Option<Seq<char>>,
)
    requires
        wf(pre),
        now >= pre.last_now,
    ensures
        wf(spec_tick(pre, now, idle_secs, window, color).post),
{
    if pre.paused {
        lemma_app_append(pre.app_history, pre.app_item, now, pre.last_now);
        lemma_status_append(pre.status_history, pre.status_item, now, pre.last_now);
    } else {
        let stepped = spec_update(pre.monitor, idle_secs, now);
        let s = stepped.0.current_state;
        let fresh = stepped.1 || pre.last_state != s || pre.status_item is None;

        // Status side.
        if fresh {
            lemma_status_append(pre.status_history, pre.status_item, now, pre.last_now);
        } else {
            match pre.status_item {
                Some(t) => {
                    assert(spec_saves_of(spec_close_opt(Option::<TrackRecord>::None, now as int))
                        =~= Seq::<TrackRecord>::empty());
                    assert(pre.status_history + Seq::<TrackRecord>::empty() =~= pre.status_history);
                },
                None => {},
            }
        }

        // Application side.
        if s == SystemState::Online {
            match window {
                None => {
                    match pre.app_item {
                        Some(t) => {},
                        None => {
                            lemma_hist_before_widen(pre.app_history, pre.last_now as int, now as int);
                        },
                    }
                },
                Some(w) => {
                    if spec_is_system_window(w.app_name) {
                        lemma_app_append(pre.app_history, pre.app_item, now, pre.last_now);
                    } else {
                        let same = match pre.current_window {
                            Some(pw) => pw.app_name == w.app_name && pw.title == w.title,
                            None => false,
                        };
                        if same {
                        } else {
                            lemma_app_append(pre.app_history, pre.app_item, now, pre.last_now);
                        }
                    }
                },
            }
        } else {
            lemma_app_append(pre.app_history, pre.app_item, now, pre.last_now);
        }
    }
}

/// The tracker engine: owns the state monitor, the two in-progress
/// slots, and the control flags. One tick of it is `tick`; the caller
/// runs the periodic loop, performs persistence, and emits the events.
pub struct Tracker {
    pub monitor: StateMonitor,
    pub config: TrackerConfig,
    pub current_window: Option<WindowInfo>,
    pub current_app_item: Option<TrackItem>,
    pub current_status_item: Option<TrackItem>,
    pub last_state: SystemState,
    pub last_now: i64,
    pub running: bool,
    pub paused: bool,
    pub app_history: Ghost<Seq<TrackRecord>>,
    pub status_history: Ghost<Seq<TrackRecord>>,
}

impl View for Tracker {
    type V = TrackerModel;

    open spec fn view(&self) -> TrackerModel {
        TrackerModel {
            monitor: self.monitor,
            config: self.config,
            current_window: self.current_window.deep_view(),
            app_item: self.current_app_item.deep_view(),
            status_item: self.current_status_item.deep_view(),
            last_state: self.last_state,
            last_now: self.last_now,
            running: self.running,
            paused: self.paused,
            app_history: self.app_history@,
            status_history: self.status_history@,
        }
    }
}

/// The model of a tracker that was just created with `config`.
pub open spec fn spec_initial(config: TrackerConfig) -> TrackerModel {
    TrackerModel {
        monitor: StateMonitor {
            current_state: SystemState::Online,
            idle_threshold_secs: config.idle_threshold,
            last_state_change: 0,
        },
        config: config,
        current_window: None,
        app_item: None,
        status_item: None,
        last_state: SystemState::Online,
        last_now: 0,
        running: false,
        paused: false,
        app_history: Seq::empty(),
        status_history: Seq::empty(),
    }
}

impl Tracker {
    /// A stopped, unpaused tracker with no open slots, whose monitor
    /// takes its idle threshold from `config`.
    pub fn new(config: TrackerConfig) -> (r: Tracker)
        ensures
            r@ == spec_initial(config),
            wf(r@),
    {
        let monitor = StateMonitor::with_threshold(config.idle_threshold);
        let r = Tracker {
            monitor,
            config,
            current_window: None,
            current_app_item: None,
            current_status_item: None,
            last_state: SystemState::Online,
            last_now: 0,
            running: false,
            paused: false,
            app_history: Ghost(Seq::empty()),
            status_history: Ghost(Seq::empty()),
        };
        proof {
            assert(r@ =~= spec_initial(config));
        }
        r
    }

    /// Whether tracking is running.
    pub fn is_running(&self) -> (r: bool)
        ensures
            r == self@.running,
    {
        self.running
    }

    /// Whether tracking is paused.
    pub fn is_paused(&self) -> (r: bool)
        ensures
            r == self@.paused,
    {
        self.paused
    }

    /// The current system state.
    pub fn get_system_state(&self) -> (r: SystemState)
        ensures
            r == self@.monitor.current_state,
    {
        self.monitor.get_state()
    }

    /// Replace the configuration; the monitor's idle threshold follows
    /// it immediately.
    pub fn update_config(&mut self, config: TrackerConfig)
        ensures
            final(self)@ == (TrackerModel {
                config: config,
                monitor: StateMonitor {
                    idle_threshold_secs: config.idle_threshold,
                    ..old(self)@.monitor
                },
                ..old(self)@
            }),
            wf(old(self)@) ==> wf(final(self)@),
    {
        self.monitor.set_idle_threshold(config.idle_threshold);
        self.config = config;
    }

    /// Start tracking. Idempotent: starting a running tracker changes
    /// nothing else.
    pub fn start(&mut self)
        ensures
            final(self)@ == (TrackerModel { running: true, ..old(self)@ }),
            wf(old(self)@) ==> wf(final(self)@),
    {
        self.running = true;
    }

    /// Stop tracking at the next tick boundary. In-progress slots are
    /// left as they are, not flushed.
    pub fn stop(&mut self)
        ensures
            final(self)@ == (TrackerModel { running: false, ..old(self)@ }),
            wf(old(self)@) ==> wf(final(self)@),
    {
        self.running = false;
    }

    /// Set the pause flag, observed at the next tick.
    pub fn pause(&mut self)
        ensures
            final(self)@ == (TrackerModel { paused: true, ..old(self)@ }),
            wf(old(self)@) ==> wf(final(self)@),
    {
        self.paused = true;
    }

    /// Clear the pause flag, observed at the next tick.
    pub fn resume(&mut self)
        ensures
            final(self)@ == (TrackerModel { paused: false, ..old(self)@ }),
            wf(old(self)@) ==> wf(final(self)@),
    {
        self.paused = false;
    }

    /// One tick at time `now` (milliseconds), with the sampled idle
    /// duration, the sampled window (`None` when no observation was
    /// possible this tick), and the persisted color for the observed
    /// application, if any. Returns the intervals to persist and the
    /// notifications to emit, exactly as `spec_tick` states them.
    #[verifier::rlimit(80)]
    #[verifier::spinoff_prover]
    pub fn tick(
        &mut self,
        now: i64,
        idle_secs: u64,
        window: Option<WindowInfo>,
        app_color: Option<String>,
    ) -> (out: TickOutput)
        requires
            wf(old(self)@),
            old(self)@.running,
            now >= old(self)@.last_now,
        ensures
            wf(final(self)@),
            ({
                let r = spec_tick(
                    old(self)@,
                    now,
                    idle_secs,
                    window.deep_view(),
                    app_color.deep_view(),
                );
                &&& final(self)@ == r.post
                &&& out.saved.deep_view() == r.saved
                &&& out.events.deep_view() == r.events
            }),
    {
        let ghost pre = self@;
        let ghost r = spec_tick(pre, now, idle_secs, window.deep_view(), app_color.deep_view());
        proof {
            lemma_tick_wf(pre, now, idle_secs, window.deep_view(), app_color.deep_view());
        }
        let mut saved: Vec<TrackItem> = Vec::new();
        let mut events: Vec<TrackerEvent> = Vec::new();

        if self.paused {
            let ghost closed_app_g = spec_close_opt(pre.app_item, now as int);
            let ghost closed_status_g = spec_close_opt(pre.status_item, now as int);
            match self.current_app_item.take() {
                Some(mut item) => {
                    item.end_date = now;
                    if is_eligible(&item) {
                        saved.push(item);
                    }
                },
                None => {},
            }
            self.app_history = Ghost(pre.app_history + spec_saves_of(closed_app_g));
            match self.current_status_item.take() {
                Some(mut item) => {
                    item.end_date = now;
                    if is_eligible(&item) {
                        saved.push(item);
                    }
                },
                None => {},
            }
            self.status_history = Ghost(pre.status_history + spec_saves_of(closed_status_g));
            self.current_window = None;
            self.last_now = now;
            events.push(TrackerEvent::TrackingPaused);
            proof {
                assert(saved.deep_view() =~= r.saved);
                assert(events.deep_view() =~= r.events);
                assert(self@ =~= r.post);
            }
            return TickOutput { saved, events };
        }

        // Reclassify from the idle duration.
        let changed = self.monitor.update(idle_secs, now);
        let s = self.monitor.get_state();

        // Status slot: rotate on a boundary or when none is open,
        // extend otherwise.
        let fresh = changed || self.last_state != s || self.current_status_item.is_none();
        let ghost closed_status_g: Option<TrackRecord> = if fresh {
            spec_close_opt(pre.status_item, now as int)
        } else {
            None
        };
        if fresh {
            match self.current_status_item.take() {
                Some(mut item) => {
                    item.end_date = now;
                    if is_eligible(&item) {
                        saved.push(item);
                    }
                },
                None => {},
            }
            let nm = s.name();
            let nm_title = nm.clone();
            self.current_status_item = Some(
                TrackItem {
                    id: None,
                    app: nm,
                    task_name: String::from_str("StatusTrackItem"),
                    title: nm_title,
                    url: None,
                    domain: None,
                    color: Some(state_to_color(s)),
                    begin_date: now,
                    end_date: now,
                },
            );
            events.push(TrackerEvent::StateChanged(s));
        } else {
            let mut item = self.current_status_item.take().unwrap();
            item.end_date = now;
            self.current_status_item = Some(item);
        }
        self.last_state = s;
        self.status_history = Ghost(pre.status_history + spec_saves_of(closed_status_g));

        // Application slot, only while Online.
        if s == SystemState::Online {
            match window {
                None => {},
                Some(w) => {
                    if is_system_window(w.app_name.as_str()) {
                        let ghost closed_app_g = spec_close_opt(pre.app_item, now as int);
                        match self.current_app_item.take() {
                            Some(mut item) => {
                                item.end_date = now;
                                events.push(TrackerEvent::TrackItemSaved(item.clone()));
                                if is_eligible(&item) {
                                    saved.push(item);
                                }
                            },
                            None => {},
                        }
                        self.app_history = Ghost(pre.app_history + spec_saves_of(closed_app_g));
                        self.current_window = None;
                    } else {
                        let same = match &self.current_window {
                            Some(pw) => pw.app_name == w.app_name && pw.title == w.title,
                            None => false,
                        };
                        if same {
                            let mut item = self.current_app_item.take().unwrap();
                            item.end_date = now;
                            self.current_app_item = Some(item);
                        } else {
                            let ghost closed_app_g = spec_close_opt(pre.app_item, now as int);
                            match self.current_app_item.take() {
                                Some(mut item) => {
                                    item.end_date = now;
                                    events.push(TrackerEvent::TrackItemSaved(item.clone()));
                                    if is_eligible(&item) {
                                        saved.push(item);
                                    }
                                },
                                None => {},
                            }
                            self.app_history = Ghost(
                                pre.app_history + spec_saves_of(closed_app_g),
                            );
                            let new_item = TrackItem {
                                id: None,
                                app: w.app_name.clone(),
                                task_name: String::from_str("AppTrackItem"),
                                title: w.title.clone(),
                                url: clone_string_opt(&w.url),
                                domain: clone_string_opt(&w.domain),
                                color: app_color,
                                begin_date: now,
                                end_date: now,
                            };
                            self.current_app_item = Some(new_item);
                            events.push(TrackerEvent::WindowChanged(w.clone()));
                            self.current_window = Some(w);
                        }
                    }
                },
            }
        } else {
            let ghost closed_app_g = spec_close_opt(pre.app_item, now as int);
            match self.current_app_item.take() {
                Some(mut item) => {
                    item.end_date = now;
                    if is_eligible(&item) {
                        saved.push(item);
                    }
                },
                None => {},
            }
            self.app_history = Ghost(pre.app_history + spec_saves_of(closed_app_g));
            self.current_window = None;
        }
        self.last_now = now;
        proof {
            assert(saved.deep_view() =~= r.saved);
            assert(events.deep_view() =~= r.events);
            assert(self@ =~= r.post);
        }
        TickOutput { saved, events }
    }
}

/// Law: in a chain, any earlier interval ends no later than any later
/// one begins.
pub proof fn lemma_chain_no_overlap(h: Seq<TrackRecord>, i: int, j: int)
    requires
        chain_ok(h),
        0 <= i < j < h.len(),
    ensures
        h[i].end_date <= h[j].begin_date,
    decreases j - i,
{
    if i + 1 < j {
        lemma_chain_no_overlap(h, i + 1, j);
    }
}

/// Law: the persisted application intervals of one tracker never
/// overlap: for any two of them, the earlier ends no later than the
/// later begins, so their half-open spans are disjoint.
pub proof fn lemma_app_items_never_overlap(m: TrackerModel)
    requires
        wf(m),
    ensures
        forall|i: int, j: int|
            0 <= i < j < m.app_history.len() ==> (#[trigger] m.app_history[i]).end_date
                <= (#[trigger] m.app_history[j]).begin_date,
{
    assert forall|i: int, j: int| 0 <= i < j < m.app_history.len() implies (
    #[trigger] m.app_history[i]).end_date <= (#[trigger] m.app_history[j]).begin_date by {
        lemma_chain_no_overlap(m.app_history, i, j);
    }
}

/// Law: every interval the tracker hands out for persistence has
/// `begin_date <= end_date` and lasted at least a second; nothing
/// shorter is ever handed out.
pub proof fn lemma_persisted_items_eligible(m: TrackerModel)
    requires
        wf(m),
    ensures
        forall|i: int|
            0 <= i < m.app_history.len() ==> interval_ok(#[trigger] m.app_history[i])
                && spec_eligible(m.app_history[i]),
        forall|i: int|
            0 <= i < m.status_history.len() ==> interval_ok(#[trigger] m.status_history[i])
                && spec_eligible(m.status_history[i]),
{
}

/// Law: no persisted application interval carries the name of a
/// system/login window.
pub proof fn lemma_no_system_window_persisted(m: TrackerModel)
    requires
        wf(m),
    ensures
        forall|i: int|
            0 <= i < m.app_history.len() ==> !spec_is_system_window(
                (#[trigger] m.app_history[i]).app,
            ),
{
}

/// Law: a paused tick closes an open application slot with the pause
/// time as its end and flushes it when eligible, and leaves both slots
/// empty. Any interval opened after a resume begins at that later tick's
/// time, so the pre-pause interval is never reopened.
pub proof fn lemma_pause_flushes_open_slot(pre: TrackerModel, now: i64)
    requires
        wf(pre),
        pre.paused,
        now >= pre.last_now,
        pre.app_item is Some,
    ensures
        ({
            let r = spec_tick(pre, now, 0, None, None);
            &&& r.post.app_item is None
            &&& r.post.status_item is None
            &&& r.post.current_window is None
            &&& (spec_eligible(spec_close(pre.app_item.unwrap(), now as int)) ==> r.saved[0]
                == spec_close(pre.app_item.unwrap(), now as int))
            &&& (!spec_eligible(spec_close(pre.app_item.unwrap(), now as int))
                ==> forall|i: int|
                    0 <= i < r.saved.len() ==> (#[trigger] r.saved[i]).task_name
                        != app_task_name())
        }),
{
    let r = spec_tick(pre, now, 0, None, None);
    let ct = spec_close(pre.app_item.unwrap(), now as int);
    if !spec_eligible(ct) {
        assert forall|i: int| 0 <= i < r.saved.len() implies (#[trigger] r.saved[i]).task_name
            != app_task_name() by {
            match pre.status_item {
                Some(t) => {
                    assert(r.saved[i] == spec_close(t, now as int));
                    assert(status_task_name() != app_task_name()) by {
                        reveal_strlit("StatusTrackItem");
                        reveal_strlit("AppTrackItem");
                        assert(status_task_name().len() == 15);
                        assert(app_task_name().len() == 12);
                    }
                },
                None => {},
            }
        }
    }
}

/// Relies on chrono: `Utc::now().timestamp_millis()` is the wall-clock
/// time in milliseconds since the Unix epoch. Nothing is assumed of the
/// value it returns; chrono itself panics on a system clock set before
/// the epoch.
#[verifier::external_body]
fn now_millis() -> i64 {
    chrono::Utc::now().timestamp_millis()
}

impl Tracker {
    /// One tick stamped from the wall clock. A clock reading earlier
    /// than the last tick time is raised to it, so tick times never
    /// decrease. Returns the time used and what `tick` returned for it.
    pub fn tick_with_clock(
        &mut self,
        idle_secs: u64,
        window: Option<WindowInfo>,
        app_color: Option<String>,
    ) -> (r: (i64, TickOutput))
        requires
            wf(old(self)@),
            old(self)@.running,
        ensures
            wf(final(self)@),
            r.0 >= old(self)@.last_now,
            ({
                let tr = spec_tick(
                    old(self)@,
                    r.0,
                    idle_secs,
                    window.deep_view(),
                    app_color.deep_view(),
                );
                &&& final(self)@ == tr.post
                &&& r.1.saved.deep_view() == tr.saved
                &&& r.1.events.deep_view() == tr.events
            }),
    {
        let t = now_millis();
        let now = if t < self.last_now {
            self.last_now
        } else {
            t
        };
        let out = self.tick(now, idle_secs, window, app_color);
        (now, out)
    }
}

/// Tracking status for callers: the flags, the current state, and the
/// currently observed window, if any.
#[derive(Debug)]
pub struct TrackingStatus {
    pub is_running: bool,
    pub is_paused: bool,
    pub current_state: SystemState,
    pub current_app: Option<String>,
    pub current_title: Option<String>,
}

impl Tracker {
    /// Assemble the tracking status from the flags and the monitor,
    /// together with the window observation the caller just made.
    pub fn status(&self, current_app: Option<String>, current_title: Option<String>) -> (r:
        TrackingStatus)
        ensures
            r.is_running == self@.running,
            r.is_paused == self@.paused,
            r.current_state == self@.monitor.current_state,
            r.current_app == current_app,
            r.current_title == current_title,
    {
        TrackingStatus {
            is_running: self.running,
            is_paused: self.paused,
            current_state: self.monitor.get_state(),
            current_app,
            current_title,
        }
    }
}

} // verus!
