//! The dashboard's top-level keys that switch lenses, open and close
//! overlays and sub-views, and queue work for the host (clipboard, psql,
//! recordings, exports, database switch).
use vstd::prelude::*;
use crate::app::{
    clipboard_payload, clipboard_text, feedback_is, feedback_set, feedback_str, first_database_named,
    host_queued, lemma_wf_parts, selected_record_idx, App, DbPickerState, DeleteTarget, HostRequest, Requests,
    ADMIN_FEEDBACK_TICKS, REFRESH_MAX_MS, REFRESH_MIN_MS, REFRESH_STEP_MS, TICK_HEADROOM,
    DETAIL_SCROLL_CAP,
};
use crate::modes::{micro_view_after, pane_toggled, schema_view_after, MicroView, SchemaView, Tab};
use crate::snapshot::DatabaseRow;
use crate::text::push_str;

verus! {

// ---------------------------------------------------------------------
// Lens switching
// ---------------------------------------------------------------------

/// `b` is `a` switched to lens `t`: the lens left becomes the previous one,
/// the detail and waits panels close, and the Records Lens asks the host
/// to rescan the recordings on disk.
pub open spec fn tab_switched(a: App, t: Tab, b: App) -> bool {
    &&& b == App {
        previous_tab: Some(a.active_tab),
        active_tab: t,
        detail_open: false,
        waits_open: false,
        requests: b.requests,
        ..a
    }
    &&& host_queued(a.requests, b.requests, t == Tab::RecordsLens, HostRequest::RefreshRecords)
}

pub(crate) fn switch_to(app: &mut App, t: Tab)
    requires
        old(app).wf(),
    ensures
        tab_switched(*old(app), t, *final(app)),
        final(app).wf(),
        final(app).counters_ok() == old(app).counters_ok(),
{
    app.previous_tab = Some(app.active_tab);
    app.detail_open = false;
    app.waits_open = false;
    app.active_tab = t;
    if t == Tab::RecordsLens {
        app.requests.host.push(HostRequest::RefreshRecords);
    }
}

// ---------------------------------------------------------------------
// Panels and sub-views
// ---------------------------------------------------------------------

/// `w`: the Micro Lens waits panel toggles; opening it closes the detail
/// panel.
pub open spec fn waits_toggled(a: App) -> App {
    App { waits_open: !a.waits_open, detail_open: if !a.waits_open { false } else { a.detail_open }, ..a }
}

pub(crate) fn toggle_waits(app: &mut App)
    requires
        old(app).wf(),
    ensures
        *final(app) == waits_toggled(*old(app)),
        final(app).wf(),
{
    app.waits_open = !app.waits_open;
    if app.waits_open {
        app.detail_open = false;
    }
}

/// `v`: the Schema Lens swaps Tables and Vacuum (Sequences goes back to
/// Tables), closing the detail panel.
pub open spec fn schema_view_cycled(a: App) -> App {
    App { schema_view: schema_view_after(a.schema_view), detail_open: false, ..a }
}

pub(crate) fn cycle_schema_view(app: &mut App)
    requires
        old(app).wf(),
    ensures
        *final(app) == schema_view_cycled(*old(app)),
        final(app).wf(),
{
    app.schema_view = app.schema_view.next();
    app.detail_open = false;
}

/// `S`: the Schema Lens toggles Sequences ↔ Tables (from Vacuum too),
/// closing the detail panel.
pub open spec fn sequences_toggled(a: App) -> App {
    App {
        schema_view: if a.schema_view == SchemaView::Sequences {
            SchemaView::Tables
        } else {
            SchemaView::Sequences
        },
        detail_open: false,
        ..a
    }
}

pub(crate) fn toggle_sequences(app: &mut App)
    requires
        old(app).wf(),
    ensures
        *final(app) == sequences_toggled(*old(app)),
        final(app).wf(),
{
    app.schema_view = if app.schema_view == SchemaView::Sequences { SchemaView::Tables } else { SchemaView::Sequences };
    app.detail_open = false;
}

/// `I`: the Micro Lens toggles Activity ↔ Idle census, closing both
/// panels.
pub open spec fn micro_view_toggled(a: App) -> App {
    App { micro_view: micro_view_after(a.micro_view), detail_open: false, waits_open: false, ..a }
}

pub(crate) fn toggle_micro_view(app: &mut App)
    requires
        old(app).wf(),
    ensures
        *final(app) == micro_view_toggled(*old(app)),
        final(app).wf(),
{
    app.micro_view = app.micro_view.next();
    app.detail_open = false;
    app.waits_open = false;
}

/// `p`/`o` on the Blocks Lens: the tree and locks panes swap.
pub open spec fn pane_swapped(a: App) -> App {
    App { blocks_active_pane: pane_toggled(a.blocks_active_pane), ..a }
}

pub(crate) fn swap_pane(app: &mut App)
    requires
        old(app).wf(),
    ensures
        *final(app) == pane_swapped(*old(app)),
        final(app).wf(),
{
    app.blocks_active_pane = app.blocks_active_pane.toggle();
}

pub(crate) fn open_help(app: &mut App)
    requires
        old(app).wf(),
    ensures
        *final(app) == (App { help_open: true, ..*old(app) }),
        final(app).wf(),
{
    app.help_open = true;
}

/// `k`/`↑` over the table detail overlay scrolls it up (not below 0).
pub open spec fn detail_scrolled_up(a: App) -> App {
    App {
        table_detail_scroll: if a.table_detail_scroll == 0 {
            0
        } else {
            (a.table_detail_scroll - 1) as u16
        },
        ..a
    }
}

/// `j`/`↓` over the table detail overlay scrolls it down, up to the soft
/// cap.
pub open spec fn detail_scrolled_down(a: App) -> App {
    App {
        table_detail_scroll: if a.table_detail_scroll + 1 < DETAIL_SCROLL_CAP {
            (a.table_detail_scroll + 1) as u16
        } else {
            DETAIL_SCROLL_CAP
        },
        ..a
    }
}

pub(crate) fn scroll_detail_up(app: &mut App)
    requires
        old(app).wf(),
    ensures
        *final(app) == detail_scrolled_up(*old(app)),
        final(app).wf(),
{
    proof {
        lemma_wf_parts(*old(app));
    }
    app.table_detail_scroll = if app.table_detail_scroll == 0 { 0 } else { app.table_detail_scroll - 1 };
    proof {
        lemma_wf_parts(*app);
    }
}

pub(crate) fn scroll_detail_down(app: &mut App)
    requires
        old(app).wf(),
    ensures
        *final(app) == detail_scrolled_down(*old(app)),
        final(app).wf(),
{
    proof {
        lemma_wf_parts(*old(app));
    }
    app.table_detail_scroll = if app.table_detail_scroll + 1 < DETAIL_SCROLL_CAP {
        app.table_detail_scroll + 1
    } else {
        DETAIL_SCROLL_CAP
    };
    proof {
        lemma_wf_parts(*app);
    }
}

// ---------------------------------------------------------------------
// Poll interval and schema refresh
// ---------------------------------------------------------------------

/// `+`: half a second slower, at most 10 s.
pub open spec fn refresh_slower(ms: u64) -> u64 {
    if ms + REFRESH_STEP_MS < REFRESH_MAX_MS {
        (ms + REFRESH_STEP_MS) as u64
    } else {
        REFRESH_MAX_MS
    }
}

/// `-`: half a second faster, at least 0.5 s.
pub open spec fn refresh_faster(ms: u64) -> u64 {
    let d: int = if ms >= REFRESH_STEP_MS { ms - REFRESH_STEP_MS } else { 0 };
    if d > REFRESH_MIN_MS {
        d as u64
    } else {
        REFRESH_MIN_MS
    }
}

pub(crate) fn slow_down(app: &mut App)
    requires
        old(app).wf(),
    ensures
        *final(app) == (App { refresh_interval_ms: refresh_slower(old(app).refresh_interval_ms), ..*old(app) }),
        final(app).wf(),
{
    proof {
        lemma_wf_parts(*old(app));
    }
    let ms = app.refresh_interval_ms;
    app.refresh_interval_ms = if ms + REFRESH_STEP_MS < REFRESH_MAX_MS { ms + REFRESH_STEP_MS } else { REFRESH_MAX_MS };
    proof {
        lemma_wf_parts(*app);
    }
}

pub(crate) fn speed_up(app: &mut App)
    requires
        old(app).wf(),
    ensures
        *final(app) == (App { refresh_interval_ms: refresh_faster(old(app).refresh_interval_ms), ..*old(app) }),
        final(app).wf(),
{
    proof {
        lemma_wf_parts(*old(app));
    }
    let ms = app.refresh_interval_ms;
    let d = if ms >= REFRESH_STEP_MS { ms - REFRESH_STEP_MS } else { 0 };
    app.refresh_interval_ms = if d > REFRESH_MIN_MS { d } else { REFRESH_MIN_MS };
    proof {
        lemma_wf_parts(*app);
    }
}

/// `B` (outside the Records Lens): one more schema re-collection request,
/// none during replay.
pub open spec fn schema_refresh_requested(a: App) -> App {
    if a.replay is None {
        App {
            requests: Requests { schema_refresh: (a.requests.schema_refresh + 1) as u64, ..a.requests },
            ..a
        }
    } else {
        a
    }
}

pub(crate) fn request_schema_refresh(app: &mut App)
    requires
        old(app).wf(),
        old(app).counters_ok(),
    ensures
        *final(app) == schema_refresh_requested(*old(app)),
        final(app).wf(),
{
    if app.replay.is_none() {
        app.requests.schema_refresh = app.requests.schema_refresh + 1;
    }
}

// ---------------------------------------------------------------------
// Host work: recordings, exports, psql, clipboard, database switch
// ---------------------------------------------------------------------

/// `b` is `a` with `req` queued for the host.
pub open spec fn host_asked(a: App, req: HostRequest, b: App) -> bool {
    b == App { requests: b.requests, ..a } && host_queued(a.requests, b.requests, true, req)
}

pub(crate) fn ask_host(app: &mut App, req: HostRequest)
    requires
        old(app).wf(),
    ensures
        host_asked(*old(app), req, *final(app)),
        final(app).wf(),
{
    app.requests.host.push(req);
}

/// `R` / Ctrl+R: stop the running recording, or ask for a new one; never
/// during replay.
#[verifier::opaque]
pub open spec fn recording_toggled(a: App, b: App) -> bool {
    if a.replay is Some {
        feedback_set(a, b, "recording is disabled during replay"@, false, ADMIN_FEEDBACK_TICKS as int)
    } else if a.recording_active {
        host_asked(App { recording_active: false, ..a }, HostRequest::StopRecording, b)
    } else {
        host_asked(a, HostRequest::StartRecording, b)
    }
}

pub(crate) fn toggle_recording(app: &mut App)
    requires
        old(app).wf(),
        old(app).counters_ok(),
    ensures
        recording_toggled(*old(app), *final(app)),
        final(app).wf(),
{
    proof {
        reveal(recording_toggled);
    }
    if app.replay.is_some() {
        feedback_str(app, "recording is disabled during replay", false, ADMIN_FEEDBACK_TICKS);
    } else if app.recording_active {
        app.recording_active = false;
        ask_host(app, HostRequest::StopRecording);
    } else {
        ask_host(app, HostRequest::StartRecording);
    }
}

/// `!`: ask the host for a psql shell on the live connection (not during
/// replay, not with the mock poller).
#[verifier::opaque]
pub open spec fn psql_requested(a: App, b: App) -> bool {
    if a.replay is Some {
        feedback_set(a, b, "replay mode: no live connection for psql"@, false, ADMIN_FEEDBACK_TICKS as int)
    } else if a.is_mock {
        feedback_set(a, b, "mock mode: no real connection for psql"@, false, ADMIN_FEEDBACK_TICKS as int)
    } else {
        b == App { requests: Requests { launch_psql: true, ..a.requests }, ..a }
    }
}

pub(crate) fn request_psql(app: &mut App)
    requires
        old(app).wf(),
        old(app).counters_ok(),
    ensures
        psql_requested(*old(app), *final(app)),
        final(app).wf(),
{
    proof {
        reveal(psql_requested);
    }
    if app.replay.is_some() {
        feedback_str(app, "replay mode: no live connection for psql", false, ADMIN_FEEDBACK_TICKS);
    } else if app.is_mock {
        feedback_str(app, "mock mode: no real connection for psql", false, ADMIN_FEEDBACK_TICKS);
    } else {
        app.requests.launch_psql = true;
    }
}

/// `y`: queue the active lens's selection for the clipboard, or say there
/// is nothing to copy.
#[verifier::opaque]
pub open spec fn copy_requested(a: App, b: App) -> bool {
    match clipboard_payload(a) {
        Some(t) => {
            &&& b == App { requests: Requests { clipboard: b.requests.clipboard, ..a.requests }, ..a }
            &&& b.requests.clipboard matches Some(x) && x@ == t
        },
        None => feedback_set(a, b, "nothing to copy here"@, false, ADMIN_FEEDBACK_TICKS as int),
    }
}

pub(crate) fn request_copy(app: &mut App)
    requires
        old(app).wf(),
        old(app).counters_ok(),
    ensures
        copy_requested(*old(app), *final(app)),
        final(app).wf(),
{
    proof {
        reveal(copy_requested);
    }
    match clipboard_text(app) {
        Some(t) => {
            app.requests.clipboard = Some(t);
        },
        None => {
            feedback_str(app, "nothing to copy here", false, ADMIN_FEEDBACK_TICKS);
        },
    }
}

/// `x`/`Delete` on the Records Lens: ask to confirm deleting the selected
/// file (refused for the recording in progress).
#[verifier::opaque]
pub open spec fn delete_prompted(a: App, b: App) -> bool {
    match selected_record_idx(a) {
        Some(i) => {
            let e = a.records@[i];
            if e.is_active {
                feedback_set(
                    a,
                    b,
                    "Cannot delete active in-flight recording (stop recording first)"@,
                    true,
                    ADMIN_FEEDBACK_TICKS as int,
                )
            } else {
                b == App { delete_record_target: Some(DeleteTarget { path: e.path, filename: e.filename }), ..a }
            }
        },
        None => b == a,
    }
}

pub(crate) fn prompt_delete(app: &mut App)
    requires
        old(app).wf(),
        old(app).counters_ok(),
    ensures
        delete_prompted(*old(app), *final(app)),
        final(app).wf(),
{
    proof {
        reveal(delete_prompted);
    }
    let target = match app.selected_recording() {
        Some(e) => {
            if e.is_active {
                None
            } else {
                Some(DeleteTarget { path: e.path.clone(), filename: e.filename.clone() })
            }
        },
        None => {
            return;
        },
    };
    match target {
        Some(t) => {
            app.delete_record_target = Some(t);
        },
        None => {
            feedback_str(app, "Cannot delete active in-flight recording (stop recording first)", true, ADMIN_FEEDBACK_TICKS);
        },
    }
}

/// `B` on the Records Lens: rescan the recordings on disk.
#[verifier::opaque]
pub open spec fn records_rescanned(a: App, b: App) -> bool {
    &&& b == App { requests: b.requests, admin_feedback: b.admin_feedback, ..a }
    &&& host_queued(a.requests, b.requests, true, HostRequest::RefreshRecords)
    &&& feedback_is(b.admin_feedback, "Rescanned recordings directory"@, false, a.tick_count + ADMIN_FEEDBACK_TICKS)
}

pub(crate) fn rescan_records(app: &mut App)
    requires
        old(app).wf(),
        old(app).counters_ok(),
    ensures
        records_rescanned(*old(app), *final(app)),
        final(app).wf(),
{
    proof {
        reveal(records_rescanned);
    }
    ask_host(app, HostRequest::RefreshRecords);
    feedback_str(app, "Rescanned recordings directory", false, ADMIN_FEEDBACK_TICKS);
}

fn copy_databases(v: &Vec<DatabaseRow>) -> (r: Vec<DatabaseRow>)
    ensures
        r@ == v@,
{
    let n = v.len();
    let mut r: Vec<DatabaseRow> = Vec::new();
    let mut i: usize = 0;
    while i < n
        invariant
            n == v@.len(),
            0 <= i <= n,
            r@ == v@.subrange(0, i as int),
        decreases n - i,
    {
        let e = &v[i];
        r.push(DatabaseRow { name: e.name.clone(), size_bytes: e.size_bytes });
        assert(r@ =~= v@.subrange(0, i as int + 1));
        i = i + 1;
    }
    assert(v@.subrange(0, n as int) =~= v@);
    r
}

/// `d`: the database picker opens over the collected database list,
/// starting on the connected database (not during replay; nothing to pick
/// before the list is collected).
#[verifier::opaque]
pub open spec fn db_picker_opened(a: App, b: App) -> bool {
    if a.replay is Some {
        feedback_set(a, b, "replay mode: cannot switch database"@, false, ADMIN_FEEDBACK_TICKS as int)
    } else {
        match (*a.snapshot).databases {
            Some(d) => if d@.len() > 0 {
                &&& b == App { db_picker: b.db_picker, ..a }
                &&& b.db_picker matches Some(p) && p.entries@ == d@ && p.selected == (match first_database_named(
                    d@,
                    (*a.snapshot).database@,
                    0,
                ) {
                    Some(i) => i,
                    None => 0,
                })
            } else {
                b == a
            },
            None => b == a,
        }
    }
}

/// The picker over the collected databases (none before they are
/// collected, or when there are none).
pub open spec fn picker_over(a: App, r: Option<DbPickerState>) -> bool {
    match (*a.snapshot).databases {
        Some(d) => if d@.len() > 0 {
            r matches Some(p) && p.entries@ == d@ && p.selected == (match first_database_named(
                d@,
                (*a.snapshot).database@,
                0,
            ) {
                Some(i) => i,
                None => 0,
            })
        } else {
            r is None
        },
        None => r is None,
    }
}

fn picker_for(app: &App) -> (r: Option<DbPickerState>)
    ensures
        picker_over(*app, r),
        r matches Some(p) ==> p.selected < p.entries@.len(),
{
    let entries = match &app.snapshot.databases {
        Some(d) => {
            if d.len() == 0 {
                return None;
            }
            copy_databases(d)
        },
        None => {
            return None;
        },
    };
    let p = DbPickerState::new(entries, app.snapshot.database.as_str());
    proof {
        lemma_first_database_in_range(p.entries@, (*app.snapshot).database@, 0);
    }
    Some(p)
}

fn set_db_picker(app: &mut App, p: DbPickerState)
    requires
        old(app).wf(),
        p.selected < p.entries@.len(),
    ensures
        *final(app) == (App { db_picker: Some(p), ..*old(app) }),
        final(app).wf(),
{
    proof {
        lemma_wf_parts(*old(app));
    }
    app.db_picker = Some(p);
    proof {
        lemma_wf_parts(*app);
    }
}

pub(crate) fn open_db_picker(app: &mut App)
    requires
        old(app).wf(),
        old(app).counters_ok(),
    ensures
        db_picker_opened(*old(app), *final(app)),
        final(app).wf(),
{
    proof {
        reveal(db_picker_opened);
    }
    if app.replay.is_some() {
        feedback_str(app, "replay mode: cannot switch database", false, ADMIN_FEEDBACK_TICKS);
        return;
    }
    match picker_for(app) {
        Some(p) => set_db_picker(app, p),
        None => {},
    }
}

proof fn lemma_first_database_in_range(entries: Seq<DatabaseRow>, name: Seq<char>, from: int)
    ensures
        first_database_named(entries, name, from) matches Some(i) ==> from <= i < entries.len(),
    decreases entries.len() - from,
{
    if 0 <= from < entries.len() && entries[from].name@ != name {
        lemma_first_database_in_range(entries, name, from + 1);
    }
}

} // verus!
