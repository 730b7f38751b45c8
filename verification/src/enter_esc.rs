//! Enter (detail panels, loading a recording for replay), Esc (closing
//! whatever is open, leaving replay, the double-Esc quit barrier) and the
//! admin confirmation opened by `c`/`K`.
use vstd::prelude::*;
use crate::app::{
    apply_snapshot, feedback_is, feedback_set, feedback_str, first_session, find_session,
    indexes_fresh, lemma_wf_parts, resort_indexes, selected_activity, selected_index_idx,
    selected_lock_idx, selected_node_idx, selected_progress_idx, selected_record_idx,
    selected_statement_idx, selected_table_idx, snapshot_applied, App, ConfirmState, FilterEdit,
    Filters, HostRequest, Orders, ADMIN_FEEDBACK_TICKS, ESC_QUIT_WINDOW_TICKS, TICK_HEADROOM,
};
use crate::dashboard::{ask_host, host_asked};
use crate::keys::quit_state;
use crate::modes::{BlocksPane, MicroView, SchemaView, Tab};
use crate::navigation::{detail_synced, sync_table_detail_request};
use crate::snapshot::AdminCommand;
use crate::text::push_str;

verus! {

// ---------------------------------------------------------------------
// Enter
// ---------------------------------------------------------------------

/// The lens on screen has a row whose detail panel Enter can open.
pub open spec fn detail_available(a: App) -> bool {
    ||| (a.active_tab == Tab::MicroLens && a.micro_view == MicroView::Activity && a.cursors.activity is Some)
    ||| (a.active_tab == Tab::SchemaLens && a.schema_view == SchemaView::Tables && selected_table_idx(a) is Some)
    ||| (a.active_tab == Tab::IndexLens && selected_index_idx(a) is Some)
    ||| (a.active_tab == Tab::QueryLens && selected_statement_idx(a) is Some)
    ||| (a.active_tab == Tab::BlocksLens && (selected_node_idx(a) is Some || selected_lock_idx(a) is Some))
    ||| (a.active_tab == Tab::ProgressLens && selected_progress_idx(a) is Some)
}

/// Enter: closes the open detail or waits panel; on the Records Lens asks
/// the host to load the selected recording; elsewhere opens the detail
/// panel of the selected row (fetching a table's structure).
#[verifier::opaque]
pub open spec fn enter_result(a: App, b: App) -> bool {
    if a.detail_open {
        b == App { detail_open: false, ..a }
    } else if a.waits_open {
        b == App { waits_open: false, ..a }
    } else if a.active_tab == Tab::RecordsLens {
        match selected_record_idx(a) {
            Some(i) => host_asked(
                a,
                HostRequest::LoadRecording { path: a.records@[i].path, filename: a.records@[i].filename },
                b,
            ),
            None => b == a,
        }
    } else if detail_available(a) {
        detail_synced(App { detail_open: true, ..a }, b)
    } else {
        b == a
    }
}

fn has_detail(app: &App) -> (r: bool)
    ensures
        r == detail_available(*app),
{
    (app.active_tab == Tab::MicroLens && app.micro_view == MicroView::Activity && app.cursors.activity.is_some())
        || (app.active_tab == Tab::SchemaLens && app.schema_view == SchemaView::Tables
        && app.selected_table().is_some()) || (app.active_tab == Tab::IndexLens && app.selected_index().is_some())
        || (app.active_tab == Tab::QueryLens && app.selected_statement().is_some()) || (app.active_tab
        == Tab::BlocksLens && (app.selected_block_node().is_some() || app.selected_active_lock().is_some()))
        || (app.active_tab == Tab::ProgressLens && app.selected_progress_row().is_some())
}

fn set_detail(app: &mut App, open: bool)
    requires
        old(app).wf(),
    ensures
        *final(app) == (App { detail_open: open, ..*old(app) }),
        final(app).wf(),
{
    app.detail_open = open;
}

fn set_waits(app: &mut App, open: bool)
    requires
        old(app).wf(),
    ensures
        *final(app) == (App { waits_open: open, ..*old(app) }),
        final(app).wf(),
{
    app.waits_open = open;
}

fn load_selected(app: &mut App)
    requires
        old(app).wf(),
    ensures
        match selected_record_idx(*old(app)) {
            Some(i) => host_asked(
                *old(app),
                HostRequest::LoadRecording { path: old(app).records@[i].path, filename: old(app).records@[i].filename },
                *final(app),
            ),
            None => *final(app) == *old(app),
        },
        final(app).wf(),
{
    let req = match app.selected_recording() {
        Some(e) => HostRequest::LoadRecording { path: e.path.clone(), filename: e.filename.clone() },
        None => {
            return;
        },
    };
    ask_host(app, req);
}

pub(crate) fn press_enter(app: &mut App)
    requires
        old(app).wf(),
    ensures
        enter_result(*old(app), *final(app)),
        final(app).wf(),
{
    proof {
        reveal(enter_result);
    }
    if app.detail_open {
        set_detail(app, false);
    } else if app.waits_open {
        set_waits(app, false);
    } else if app.active_tab == Tab::RecordsLens {
        load_selected(app);
    } else if has_detail(app) {
        set_detail(app, true);
        sync_table_detail_request(app);
    }
}

// ---------------------------------------------------------------------
// Esc
// ---------------------------------------------------------------------

/// Leaving replay: the live snapshot saved when replay began goes back on
/// screen, and the feedback line says so.
pub open spec fn replay_exited(a: App, b: App) -> bool {
    exists|m: App|
        #[trigger] snapshot_applied(
            App { live_mode_saved_snapshot: None, replay: None, ..a },
            a.live_mode_saved_snapshot->0,
            m,
        ) && feedback_set(m, b, "Exited replay, returned to live view"@, false, ADMIN_FEEDBACK_TICKS as int)
}

fn exit_replay(app: &mut App)
    requires
        old(app).wf(),
        old(app).counters_ok(),
        old(app).live_mode_saved_snapshot is Some,
    ensures
        replay_exited(*old(app), *final(app)),
        final(app).wf(),
{
    proof {
        lemma_wf_parts(*old(app));
    }
    let s = app.live_mode_saved_snapshot.take().unwrap();
    app.replay = None;
    apply_snapshot(app, s);
    let ghost m = *app;
    feedback_str(app, "Exited replay, returned to live view", false, ADMIN_FEEDBACK_TICKS);
    proof {
        lemma_wf_parts(m);
        lemma_wf_parts(*app);
    }
    assert(snapshot_applied(
        App { live_mode_saved_snapshot: None, replay: None, ..*old(app) },
        old(app).live_mode_saved_snapshot->0,
        m,
    ));
}

/// A cursor kept as it is while it is on a row, else clamped.
pub open spec fn revalidated(sel: Option<usize>, len: int) -> Option<usize> {
    match sel {
        Some(s) => if s < len {
            sel
        } else {
            crate::app::clamped(sel, len)
        },
        None => None,
    }
}

/// Esc on an Index Lens reached from the Schema Lens with `i`: the seeded
/// filter is cleared and the Schema Lens comes back (clearing a filter
/// only grows the table, so the cursor stays where it was).
pub open spec fn index_left(a: App, b: App) -> bool {
    &&& b == App {
        filters: Filters { index: FilterEdit { text: b.filters.index.text, ..a.filters.index }, ..a.filters },
        orders: Orders { index: b.orders.index, ..a.orders },
        cursors: crate::app::Cursors { index: revalidated(a.cursors.index, b.orders.index@.len() as int), ..a.cursors },
        active_tab: Tab::SchemaLens,
        ..a
    }
    &&& b.filters.index.text@ == Seq::<char>::empty()
    &&& indexes_fresh(*b.snapshot, b.filters.index.text@, b.orders.index@)
}

fn leave_index(app: &mut App)
    requires
        old(app).wf(),
    ensures
        index_left(*old(app), *final(app)),
        final(app).wf(),
{
    proof {
        lemma_wf_parts(*old(app));
    }
    app.filters.index.text = String::new();
    resort_indexes(app);
    let n = app.orders.index.len();
    let c = app.cursors.index;
    app.cursors.index = match c {
        Some(s) => if s < n {
            c
        } else {
            crate::app::clamp_sel(c, n)
        },
        None => None,
    };
    app.active_tab = Tab::SchemaLens;
    proof {
        lemma_wf_parts(*app);
    }
}

/// "Press Esc again to quit (q quits immediately)", armed for a few ticks.
pub open spec fn esc_armed(a: App, b: App) -> bool {
    &&& b == App {
        esc_quit_armed_until: Some((a.tick_count + ESC_QUIT_WINDOW_TICKS) as u64),
        admin_feedback: b.admin_feedback,
        ..a
    }
    &&& feedback_is(
        b.admin_feedback,
        "Press Esc again to quit (q quits immediately)"@,
        false,
        a.tick_count + ESC_QUIT_WINDOW_TICKS,
    )
}

fn arm_esc(app: &mut App)
    requires
        old(app).wf(),
        old(app).counters_ok(),
    ensures
        esc_armed(*old(app), *final(app)),
        final(app).wf(),
{
    app.esc_quit_armed_until = Some(app.tick_count + ESC_QUIT_WINDOW_TICKS);
    feedback_str(app, "Press Esc again to quit (q quits immediately)", false, ESC_QUIT_WINDOW_TICKS);
}

/// Esc at the top level: leaves replay, else closes the detail panel, the
/// waits panel, a Schema sub-view, an Index Lens reached with `i`, or the
/// idle census — none of which arm quitting; else quits when a first Esc
/// is still armed, or arms it.
#[verifier::opaque]
pub open spec fn esc_result(a: App, b: App) -> bool {
    if a.live_mode_saved_snapshot is Some {
        replay_exited(a, b)
    } else if a.detail_open {
        b == App { detail_open: false, ..a }
    } else if a.waits_open {
        b == App { waits_open: false, ..a }
    } else if a.active_tab == Tab::SchemaLens && a.schema_view != SchemaView::Tables {
        b == App { schema_view: SchemaView::Tables, ..a }
    } else if a.active_tab == Tab::IndexLens && a.previous_tab == Some(Tab::SchemaLens)
        && a.filters.index.text@.len() > 0 {
        index_left(a, b)
    } else if a.active_tab == Tab::MicroLens && a.micro_view != MicroView::Activity {
        b == App { micro_view: MicroView::Activity, ..a }
    } else if a.esc_quit_armed_until matches Some(until) && a.tick_count <= until {
        b == quit_state(a)
    } else {
        esc_armed(a, b)
    }
}

fn set_schema_tables(app: &mut App)
    requires
        old(app).wf(),
    ensures
        *final(app) == (App { schema_view: SchemaView::Tables, ..*old(app) }),
        final(app).wf(),
{
    app.schema_view = SchemaView::Tables;
}

fn set_micro_activity(app: &mut App)
    requires
        old(app).wf(),
    ensures
        *final(app) == (App { micro_view: MicroView::Activity, ..*old(app) }),
        final(app).wf(),
{
    app.micro_view = MicroView::Activity;
}

fn quit(app: &mut App)
    requires
        old(app).wf(),
    ensures
        *final(app) == quit_state(*old(app)),
        final(app).wf(),
{
    app.should_quit = true;
}

fn esc_armed_now(app: &App) -> (r: bool)
    ensures
        r == (app.esc_quit_armed_until matches Some(until) && app.tick_count <= until),
{
    match app.esc_quit_armed_until {
        Some(until) => app.tick_count <= until,
        None => false,
    }
}

pub(crate) fn press_esc(app: &mut App)
    requires
        old(app).wf(),
        old(app).counters_ok(),
    ensures
        esc_result(*old(app), *final(app)),
        final(app).wf(),
{
    proof {
        reveal(esc_result);
    }
    if app.live_mode_saved_snapshot.is_some() {
        exit_replay(app);
    } else if app.detail_open {
        set_detail(app, false);
    } else if app.waits_open {
        set_waits(app, false);
    } else if app.active_tab == Tab::SchemaLens && app.schema_view != SchemaView::Tables {
        set_schema_tables(app);
    } else if app.active_tab == Tab::IndexLens && app.previous_tab == Some(Tab::SchemaLens)
        && app.filters.index.text.as_str().unicode_len() > 0 {
        leave_index(app);
    } else if app.active_tab == Tab::MicroLens && app.micro_view != MicroView::Activity {
        set_micro_activity(app);
    } else if esc_armed_now(app) {
        quit(app);
    } else {
        arm_esc(app);
    }
}

// ---------------------------------------------------------------------
// `c` / `K`: admin confirmation
// ---------------------------------------------------------------------

/// The session an admin signal would target, with its user and database:
/// the selected Micro Lens session, the selected Blocks Lens node or lock
/// (on the connected database), or the selected Progress Lens operation
/// (its session's user and database when it is listed, else `postgres` on
/// the connected database).
pub open spec fn confirm_target(a: App) -> Option<(i32, Seq<char>, Seq<char>)> {
    let s = *a.snapshot;
    if a.active_tab == Tab::MicroLens && a.micro_view == MicroView::Activity {
        match selected_activity(a) {
            Some(i) => Some((s.activity@[i].pid, s.activity@[i].username@, s.activity@[i].database@)),
            None => None,
        }
    } else if a.active_tab == Tab::BlocksLens {
        if a.blocks_active_pane == BlocksPane::Tree {
            match selected_node_idx(a) {
                Some(i) => Some((s.blocking_tree->0@[i].pid, s.blocking_tree->0@[i].usename@, s.database@)),
                None => None,
            }
        } else {
            match selected_lock_idx(a) {
                Some(i) => Some((s.active_locks->0@[i].pid, s.active_locks->0@[i].usename@, s.database@)),
                None => None,
            }
        }
    } else if a.active_tab == Tab::ProgressLens {
        match selected_progress_idx(a) {
            Some(i) => {
                let pid = s.progress@[i].pid;
                match first_session(s.activity@, pid, 0) {
                    Some(j) => Some((pid, s.activity@[j].username@, s.activity@[j].database@)),
                    None => Some((pid, "postgres"@, s.database@)),
                }
            },
            None => None,
        }
    } else {
        None
    }
}

/// `c` (cancel) / `K` (terminate): the confirmation opens over the target
/// session — refused in read-only mode, inert during replay or without a
/// target.
#[verifier::opaque]
pub open spec fn confirm_opened(a: App, terminate: bool, b: App) -> bool {
    if a.replay is Some {
        b == a
    } else {
        match confirm_target(a) {
            Some((pid, user, db)) => if a.read_only {
                feedback_set(a, b, "read-only mode \u{2014} action disabled"@, true, ADMIN_FEEDBACK_TICKS as int)
            } else {
                &&& b == App { confirm: b.confirm, ..a }
                &&& b.confirm matches Some(c) && c.command == (if terminate {
                    AdminCommand::TerminateBackend(pid)
                } else {
                    AdminCommand::CancelBackend(pid)
                }) && c.username@ == user && c.database@ == db
            },
            None => b == a,
        }
    }
}

fn copy_text(s: &str) -> (r: String)
    ensures
        r@ == s@,
{
    let mut r = String::new();
    push_str(&mut r, s);
    r
}

fn target_of_confirm(app: &App) -> (r: Option<(i32, String, String)>)
    ensures
        match confirm_target(*app) {
            Some((pid, u, d)) => r matches Some((p, x, y)) && p == pid && x@ == u && y@ == d,
            None => r is None,
        },
{
    proof {
        reveal_strlit("postgres");
    }
    if app.active_tab == Tab::MicroLens && app.micro_view == MicroView::Activity {
        match app.selected_row() {
            Some(row) => Some((row.pid, copy_text(row.username.as_str()), copy_text(row.database.as_str()))),
            None => None,
        }
    } else if app.active_tab == Tab::BlocksLens {
        if app.blocks_active_pane == BlocksPane::Tree {
            match app.selected_block_node() {
                Some(n) => Some((n.pid, copy_text(n.usename.as_str()), copy_text(app.snapshot.database.as_str()))),
                None => None,
            }
        } else {
            match app.selected_active_lock() {
                Some(l) => Some((l.pid, copy_text(l.usename.as_str()), copy_text(app.snapshot.database.as_str()))),
                None => None,
            }
        }
    } else if app.active_tab == Tab::ProgressLens {
        match app.selected_progress_row() {
            Some(p) => {
                let pid = p.pid;
                match find_session(&app.snapshot.activity, pid) {
                    Some(j) => Some(
                        (
                            pid,
                            copy_text(app.snapshot.activity[j].username.as_str()),
                            copy_text(app.snapshot.activity[j].database.as_str()),
                        ),
                    ),
                    None => Some((pid, copy_text("postgres"), copy_text(app.snapshot.database.as_str()))),
                }
            },
            None => None,
        }
    } else {
        None
    }
}

fn set_confirm(app: &mut App, c: ConfirmState)
    requires
        old(app).wf(),
    ensures
        *final(app) == (App { confirm: Some(c), ..*old(app) }),
        final(app).wf(),
{
    app.confirm = Some(c);
}

pub(crate) fn open_confirm(app: &mut App, terminate: bool)
    requires
        old(app).wf(),
        old(app).counters_ok(),
    ensures
        confirm_opened(*old(app), terminate, *final(app)),
        final(app).wf(),
{
    proof {
        reveal(confirm_opened);
    }
    if app.replay.is_some() {
        return;
    }
    let (pid, username, database) = match target_of_confirm(app) {
        Some(t) => t,
        None => {
            return;
        },
    };
    if app.read_only {
        feedback_str(app, "read-only mode \u{2014} action disabled", true, ADMIN_FEEDBACK_TICKS);
        return;
    }
    let command = if terminate { AdminCommand::TerminateBackend(pid) } else { AdminCommand::CancelBackend(pid) };
    set_confirm(app, ConfirmState { command, username, database });
}

} // verus!
