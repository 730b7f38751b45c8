//! Moving through the tables (row by row, by pages, to either end), the
//! table-detail fetch that follows the Schema Lens cursor, pausing the
//! view, and replay playback (play/pause, stepping, looping, speed).
use std::sync::Arc;
use vstd::prelude::*;
use crate::app::{
    app_target, apply_snapshot, feedback_set, feedback_str, get_target_sel, jumped,
    jump_sel, lemma_wf_parts, move_sel, moved, selected_table_idx, selection_target,
    set_target_sel, snapshot_applied, target_len, target_length, target_sel, with_target_sel,
    App, HostRequest, Replay, Requests, TableDetailRequest, ADMIN_FEEDBACK_TICKS,
};
use crate::dashboard::{ask_host, host_asked};
use crate::keys::{resume, resumed};
use crate::modes::{SchemaView, Tab};
use crate::snapshot::Snapshot;
use crate::text::push_str;

verus! {

// ---------------------------------------------------------------------
// Cursor movement
// ---------------------------------------------------------------------

/// The table-detail overlay follows the Schema Lens cursor: while it is
/// open on the Tables view, its scroll resets and the selected table's
/// structure is requested.
#[verifier::opaque]
pub open spec fn detail_synced(m: App, b: App) -> bool {
    if !m.detail_open || m.active_tab != Tab::SchemaLens || m.schema_view != SchemaView::Tables {
        b == m
    } else {
        match selected_table_idx(m) {
            Some(i) => {
                let t = (*m.snapshot).schema->0.tables@[i];
                b == App {
                    table_detail_scroll: 0,
                    requests: Requests {
                        table_detail: Some(TableDetailRequest { oid: t.oid, schema: t.schema, name: t.name }),
                        ..m.requests
                    },
                    ..m
                }
            },
            None => b == App { table_detail_scroll: 0, ..m },
        }
    }
}

fn detail_request(app: &App) -> (r: Option<TableDetailRequest>)
    ensures
        match selected_table_idx(*app) {
            Some(i) => r == Some(
                TableDetailRequest {
                    oid: (*app.snapshot).schema->0.tables@[i].oid,
                    schema: (*app.snapshot).schema->0.tables@[i].schema,
                    name: (*app.snapshot).schema->0.tables@[i].name,
                },
            ),
            None => r is None,
        },
{
    match app.selected_table() {
        Some(t) => Some(TableDetailRequest { oid: t.oid, schema: t.schema.clone(), name: t.name.clone() }),
        None => None,
    }
}

fn restart_detail(app: &mut App, req: Option<TableDetailRequest>)
    requires
        old(app).wf(),
    ensures
        req is None ==> *final(app) == (App { table_detail_scroll: 0, ..*old(app) }),
        req is Some ==> *final(app) == (App {
            table_detail_scroll: 0,
            requests: Requests { table_detail: req, ..old(app).requests },
            ..*old(app)
        }),
        final(app).wf(),
{
    proof {
        lemma_wf_parts(*old(app));
    }
    app.table_detail_scroll = 0;
    if req.is_some() {
        app.requests.table_detail = req;
    }
    proof {
        lemma_wf_parts(*app);
    }
}

pub(crate) fn sync_table_detail_request(app: &mut App)
    requires
        old(app).wf(),
    ensures
        detail_synced(*old(app), *final(app)),
        final(app).wf(),
{
    proof {
        reveal(detail_synced);
    }
    if !app.detail_open || app.active_tab != Tab::SchemaLens || app.schema_view != SchemaView::Tables {
        return;
    }
    let req = detail_request(app);
    restart_detail(app, req);
}

/// `a` with the active lens's cursor set to `v`.
pub open spec fn with_cursor(a: App, v: Option<usize>) -> App {
    App { cursors: with_target_sel(a.cursors, app_target(a), v), ..a }
}

/// The active lens's cursor and the number of rows it can reach.
pub open spec fn cursor_of(a: App) -> Option<usize> {
    target_sel(a.cursors, app_target(a))
}

pub open spec fn rows_of(a: App) -> int {
    target_len(a.orders, *a.snapshot, app_target(a))
}

fn set_cursor(app: &mut App, v: Option<usize>)
    requires
        old(app).wf(),
        crate::app::sel_ok(v, rows_of(*old(app))),
    ensures
        *final(app) == with_cursor(*old(app), v),
        final(app).wf(),
{
    proof {
        lemma_wf_parts(*old(app));
    }
    let t = selection_target(app.active_tab, app.blocks_active_pane, app.schema_view, app.micro_view);
    set_target_sel(&mut app.cursors, t, v);
    proof {
        lemma_wf_parts(*app);
    }
}

/// `j`/`k`/PageUp/PageDown: the active lens's cursor moves by `delta`
/// rows, saturating at both ends; an open table detail follows it.
pub open spec fn selection_moved(a: App, delta: int, b: App) -> bool {
    detail_synced(with_cursor(a, moved(cursor_of(a), rows_of(a), delta)), b)
}

pub(crate) fn move_selection(app: &mut App, delta: i64)
    requires
        old(app).wf(),
    ensures
        selection_moved(*old(app), delta as int, *final(app)),
        final(app).wf(),
{
    let t = selection_target(app.active_tab, app.blocks_active_pane, app.schema_view, app.micro_view);
    let len = target_length(&app.orders, &app.snapshot, t);
    let cur = get_target_sel(&app.cursors, t);
    let v = move_sel(cur, len, delta);
    set_cursor(app, v);
    sync_table_detail_request(app);
}

/// Home/End (`g`/`G`) outside replay: the cursor jumps to row `target`,
/// clamped into the table; an open table detail follows it.
pub open spec fn selection_jumped(a: App, target: int, b: App) -> bool {
    detail_synced(with_cursor(a, jumped(rows_of(a), target)), b)
}

pub(crate) fn move_selection_to(app: &mut App, target: i64)
    requires
        old(app).wf(),
    ensures
        selection_jumped(*old(app), target as int, *final(app)),
        final(app).wf(),
{
    let t = selection_target(app.active_tab, app.blocks_active_pane, app.schema_view, app.micro_view);
    let len = target_length(&app.orders, &app.snapshot, t);
    let v = jump_sel(len, target);
    set_cursor(app, v);
    sync_table_detail_request(app);
}

// ---------------------------------------------------------------------
// Replay stepping
// ---------------------------------------------------------------------

/// `a` with replay paused on frame `idx`.
pub open spec fn replay_parked(a: App, idx: int) -> App {
    App { replay: Some(Replay { is_paused: true, current_idx: idx as usize, ..a.replay->0 }), ..a }
}

/// Replay pauses on frame `idx`, which goes on screen.
pub open spec fn replay_moved(a: App, idx: int, b: App) -> bool {
    snapshot_applied(replay_parked(a, idx), a.replay->0.frames@[idx], b)
}

fn share_frame(r: &Replay, idx: usize) -> (s: Arc<Snapshot>)
    requires
        idx < r.frames@.len(),
    ensures
        s == r.frames@[idx as int],
{
    crate::app::share(&r.frames[idx])
}

pub(crate) fn replay_to(app: &mut App, idx: usize)
    requires
        old(app).wf(),
        old(app).counters_ok(),
        old(app).replay matches Some(r) && idx < r.frames@.len(),
    ensures
        replay_moved(*old(app), idx as int, *final(app)),
        final(app).wf(),
        final(app).counters_ok(),
{
    proof {
        lemma_wf_parts(*old(app));
    }
    let mut r = app.replay.take().unwrap();
    let snap = share_frame(&r, idx);
    r.is_paused = true;
    r.current_idx = idx;
    app.replay = Some(r);
    apply_snapshot(app, snap);
    proof {
        lemma_wf_parts(*app);
    }
}

pub(crate) fn pause_replay(app: &mut App)
    requires
        old(app).wf(),
        old(app).replay is Some,
    ensures
        *final(app) == (App { replay: Some(Replay { is_paused: true, ..old(app).replay->0 }), ..*old(app) }),
        final(app).wf(),
{
    proof {
        lemma_wf_parts(*old(app));
    }
    let mut r = app.replay.take().unwrap();
    r.is_paused = true;
    app.replay = Some(r);
    proof {
        lemma_wf_parts(*app);
    }
}

/// Home/`g`: replay pauses on its first frame; otherwise the cursor goes
/// to the first row.
#[verifier::opaque]
pub open spec fn home_result(a: App, b: App) -> bool {
    if a.replay is Some {
        replay_moved(a, 0, b)
    } else {
        selection_jumped(a, 0, b)
    }
}

pub(crate) fn go_home(app: &mut App)
    requires
        old(app).wf(),
        old(app).counters_ok(),
    ensures
        home_result(*old(app), *final(app)),
        final(app).wf(),
{
    proof {
        reveal(home_result);
        lemma_wf_parts(*old(app));
    }
    if app.replay.is_some() {
        replay_to(app, 0);
    } else {
        move_selection_to(app, 0);
    }
}

/// End/`G`: replay pauses on its last frame; otherwise the cursor goes to
/// the last row.
#[verifier::opaque]
pub open spec fn end_result(a: App, b: App) -> bool {
    if a.replay is Some {
        replay_moved(a, a.replay->0.frames@.len() - 1, b)
    } else {
        selection_jumped(a, i64::MAX as int, b)
    }
}

pub(crate) fn go_end(app: &mut App)
    requires
        old(app).wf(),
        old(app).counters_ok(),
    ensures
        end_result(*old(app), *final(app)),
        final(app).wf(),
{
    proof {
        reveal(end_result);
        lemma_wf_parts(*old(app));
    }
    let last = match &app.replay {
        Some(r) => Some(r.frames.len() - 1),
        None => None,
    };
    match last {
        Some(i) => replay_to(app, i),
        None => move_selection_to(app, i64::MAX),
    }
}

/// ←: replay pauses and steps one frame back (if any).
#[verifier::opaque]
pub open spec fn left_result(a: App, b: App) -> bool {
    match a.replay {
        Some(r) => if r.current_idx > 0 {
            replay_moved(a, r.current_idx - 1, b)
        } else {
            b == App { replay: Some(Replay { is_paused: true, ..r }), ..a }
        },
        None => b == a,
    }
}

pub(crate) fn step_back(app: &mut App)
    requires
        old(app).wf(),
        old(app).counters_ok(),
    ensures
        left_result(*old(app), *final(app)),
        final(app).wf(),
{
    proof {
        reveal(left_result);
        lemma_wf_parts(*old(app));
    }
    let idx = match &app.replay {
        Some(r) => r.current_idx,
        None => {
            return;
        },
    };
    if idx > 0 {
        replay_to(app, idx - 1);
    } else {
        pause_replay(app);
    }
}

/// →: replay pauses and steps one frame forward (if any).
#[verifier::opaque]
pub open spec fn right_result(a: App, b: App) -> bool {
    match a.replay {
        Some(r) => if r.current_idx + 1 < r.frames@.len() {
            replay_moved(a, r.current_idx + 1, b)
        } else {
            b == App { replay: Some(Replay { is_paused: true, ..r }), ..a }
        },
        None => b == a,
    }
}

pub(crate) fn step_forward(app: &mut App)
    requires
        old(app).wf(),
        old(app).counters_ok(),
    ensures
        right_result(*old(app), *final(app)),
        final(app).wf(),
{
    proof {
        reveal(right_result);
        lemma_wf_parts(*old(app));
    }
    let (idx, n) = match &app.replay {
        Some(r) => (r.current_idx, r.frames.len()),
        None => {
            return;
        },
    };
    if idx + 1 < n {
        replay_to(app, idx + 1);
    } else {
        pause_replay(app);
    }
}

// ---------------------------------------------------------------------
// Space: pause / play
// ---------------------------------------------------------------------

/// `a` with replay playing from frame `idx`.
pub open spec fn replay_playing(a: App, idx: int) -> App {
    App { replay: Some(Replay { is_paused: false, current_idx: idx as usize, ..a.replay->0 }), ..a }
}

/// Replay plays again from its first frame, which goes on screen, with
/// the frame clock restarted.
pub open spec fn replay_rewound(a: App, b: App) -> bool {
    exists|m: App|
        #[trigger] host_asked(replay_playing(a, 0), HostRequest::RestartFrameClock, m) && snapshot_applied(
            m,
            a.replay->0.frames@[0],
            b,
        )
}

fn rewind_and_play(app: &mut App)
    requires
        old(app).wf(),
        old(app).counters_ok(),
        old(app).replay matches Some(r) && r.frames@.len() > 0,
    ensures
        replay_rewound(*old(app), *final(app)),
        final(app).wf(),
{
    play_replay(app, 0);
    ask_host(app, HostRequest::RestartFrameClock);
    let ghost m = *app;
    proof {
        lemma_wf_parts(m);
    }
    let snap = share_frame(app.replay.as_ref().unwrap(), 0);
    assert(crate::app::snapshot_ok(*snap));
    apply_snapshot(app, snap);
    proof {
        lemma_wf_parts(*app);
    }
    assert(host_asked(replay_playing(*old(app), 0), HostRequest::RestartFrameClock, m));
}

fn play_from(app: &mut App, idx: usize)
    requires
        old(app).wf(),
        old(app).replay matches Some(r) && idx < r.frames@.len(),
    ensures
        host_asked(replay_playing(*old(app), idx as int), HostRequest::RestartFrameClock, *final(app)),
        final(app).wf(),
{
    play_replay(app, idx);
    ask_host(app, HostRequest::RestartFrameClock);
}

/// Space: during replay, pause, or play (from the first frame when paused
/// on the last) with the frame clock restarted; otherwise freeze or thaw
/// the live view (never on the connection splash).
#[verifier::opaque]
pub open spec fn space_result(a: App, b: App) -> bool {
    match a.replay {
        Some(r) => if r.is_paused {
            if r.current_idx + 1 >= r.frames@.len() && r.frames@.len() > 0 {
                replay_rewound(a, b)
            } else {
                host_asked(replay_playing(a, r.current_idx as int), HostRequest::RestartFrameClock, b)
            }
        } else {
            b == App { replay: Some(Replay { is_paused: true, ..r }), ..a }
        },
        None => live_space_result(a, b),
    }
}

/// Space on the live view: freeze or thaw (never on the connection
/// splash, where there is nothing to freeze yet).
pub open spec fn live_space_result(a: App, b: App) -> bool {
    if !a.first_data_seen && !(*a.snapshot).status_ok {
        b == a
    } else if a.paused {
        resumed(a, b)
    } else {
        b == App { paused: true, ..a }
    }
}

fn play_replay(app: &mut App, idx: usize)
    requires
        old(app).wf(),
        old(app).replay matches Some(r) && idx < r.frames@.len(),
    ensures
        *final(app) == replay_playing(*old(app), idx as int),
        final(app).wf(),
{
    proof {
        lemma_wf_parts(*old(app));
    }
    let mut r = app.replay.take().unwrap();
    r.is_paused = false;
    r.current_idx = idx;
    app.replay = Some(r);
    proof {
        lemma_wf_parts(*app);
    }
}

fn freeze(app: &mut App)
    requires
        old(app).wf(),
    ensures
        *final(app) == (App { paused: true, ..*old(app) }),
        final(app).wf(),
{
    app.paused = true;
}

fn space_replay(app: &mut App)
    requires
        old(app).wf(),
        old(app).counters_ok(),
        old(app).replay is Some,
    ensures
        space_result(*old(app), *final(app)),
        final(app).wf(),
{
    proof {
        reveal(space_result);
        lemma_wf_parts(*old(app));
    }
    let (paused, idx, n) = match &app.replay {
        Some(r) => (r.is_paused, r.current_idx, r.frames.len()),
        None => {
            return;
        },
    };
    if paused {
        if n > 0 && idx >= n - 1 {
            rewind_and_play(app);
        } else {
            play_from(app, idx);
        }
    } else {
        pause_replay(app);
    }
}

fn toggle_pause(app: &mut App)
    requires
        old(app).wf(),
        old(app).counters_ok(),
    ensures
        live_space_result(*old(app), *final(app)),
        final(app).wf(),
{
    if !app.first_data_seen && !app.snapshot.status_ok {
    } else if app.paused {
        resume(app);
    } else {
        freeze(app);
    }
}

pub(crate) fn press_space(app: &mut App)
    requires
        old(app).wf(),
        old(app).counters_ok(),
    ensures
        space_result(*old(app), *final(app)),
        final(app).wf(),
{
    if app.replay.is_some() {
        space_replay(app);
    } else {
        toggle_pause(app);
        proof {
            reveal(space_result);
        }
    }
}

// ---------------------------------------------------------------------
// Replay loop and speed
// ---------------------------------------------------------------------

/// "Replay loop enabled" / "Replay loop disabled".
pub open spec fn loop_text(on: bool) -> Seq<char> {
    if on {
        "Replay loop enabled"@
    } else {
        "Replay loop disabled"@
    }
}

/// `l`: replay's looping toggles (and says so); inert outside replay.
#[verifier::opaque]
pub open spec fn loop_toggled(a: App, b: App) -> bool {
    match a.replay {
        Some(r) => feedback_set(
            App { replay: Some(Replay { loop_playback: !r.loop_playback, ..r }), ..a },
            b,
            loop_text(!r.loop_playback),
            false,
            ADMIN_FEEDBACK_TICKS as int,
        ),
        None => b == a,
    }
}

fn set_loop(app: &mut App, on: bool)
    requires
        old(app).wf(),
        old(app).replay is Some,
    ensures
        *final(app) == (App { replay: Some(Replay { loop_playback: on, ..old(app).replay->0 }), ..*old(app) }),
        final(app).wf(),
{
    proof {
        lemma_wf_parts(*old(app));
    }
    let mut r = app.replay.take().unwrap();
    r.loop_playback = on;
    app.replay = Some(r);
    proof {
        lemma_wf_parts(*app);
    }
}

pub(crate) fn toggle_loop(app: &mut App)
    requires
        old(app).wf(),
        old(app).counters_ok(),
    ensures
        loop_toggled(*old(app), *final(app)),
        final(app).wf(),
{
    proof {
        reveal(loop_toggled);
    }
    let on = match &app.replay {
        Some(r) => !r.loop_playback,
        None => {
            return;
        },
    };
    set_loop(app, on);
    if on {
        feedback_str(app, "Replay loop enabled", false, ADMIN_FEEDBACK_TICKS);
    } else {
        feedback_str(app, "Replay loop disabled", false, ADMIN_FEEDBACK_TICKS);
    }
}

/// The playback speed `2^e` with two decimals.
pub open spec fn speed_label(e: int) -> Seq<char> {
    if e <= -2 {
        "0.25x"@
    } else if e == -1 {
        "0.50x"@
    } else if e == 0 {
        "1.00x"@
    } else if e == 1 {
        "2.00x"@
    } else if e == 2 {
        "4.00x"@
    } else if e == 3 {
        "8.00x"@
    } else {
        "16.00x"@
    }
}

fn speed_text(e: i8) -> (r: String)
    ensures
        r@ == "Playback speed: "@ + speed_label(e as int),
{
    let mut t = String::new();
    push_str(&mut t, "Playback speed: ");
    if e <= -2 {
        push_str(&mut t, "0.25x");
    } else if e == -1 {
        push_str(&mut t, "0.50x");
    } else if e == 0 {
        push_str(&mut t, "1.00x");
    } else if e == 1 {
        push_str(&mut t, "2.00x");
    } else if e == 2 {
        push_str(&mut t, "4.00x");
    } else if e == 3 {
        push_str(&mut t, "8.00x");
    } else {
        push_str(&mut t, "16.00x");
    }
    t
}

/// The speed exponent after `]` (`up`) or `[`, within 0.25x..16x.
pub open spec fn next_speed(e: int, up: bool) -> int {
    if up {
        if e < 4 { e + 1 } else { 4 }
    } else {
        if e > -2 { e - 1 } else { -2 }
    }
}

/// Replay runs at `2^e` and says so.
pub open spec fn speed_set(a: App, e: int, b: App) -> bool {
    feedback_set(
        App { replay: Some(Replay { speed_exp: e as i8, ..a.replay->0 }), ..a },
        b,
        "Playback speed: "@ + speed_label(e),
        false,
        ADMIN_FEEDBACK_TICKS as int,
    )
}

/// `[` (`up == false`) halves the replay speed down to 0.25x, `]` doubles
/// it up to 16x, and the new speed is shown; inert outside replay.
#[verifier::opaque]
pub open spec fn speed_changed(a: App, up: bool, b: App) -> bool {
    match a.replay {
        Some(r) => speed_set(a, next_speed(r.speed_exp as int, up), b),
        None => b == a,
    }
}

fn set_speed(app: &mut App, e: i8)
    requires
        old(app).wf(),
        old(app).replay is Some,
        -2 <= e <= 4,
    ensures
        *final(app) == (App { replay: Some(Replay { speed_exp: e, ..old(app).replay->0 }), ..*old(app) }),
        final(app).wf(),
{
    proof {
        lemma_wf_parts(*old(app));
    }
    let mut r = app.replay.take().unwrap();
    r.speed_exp = e;
    app.replay = Some(r);
    proof {
        lemma_wf_parts(*app);
    }
}

fn set_speed_and_say(app: &mut App, e: i8)
    requires
        old(app).wf(),
        old(app).counters_ok(),
        old(app).replay is Some,
        -2 <= e <= 4,
    ensures
        speed_set(*old(app), e as int, *final(app)),
        final(app).wf(),
{
    set_speed(app, e);
    let t = speed_text(e);
    crate::app::set_feedback(app, t, false, ADMIN_FEEDBACK_TICKS);
}

pub(crate) fn change_speed(app: &mut App, up: bool)
    requires
        old(app).wf(),
        old(app).counters_ok(),
    ensures
        speed_changed(*old(app), up, *final(app)),
        final(app).wf(),
{
    proof {
        reveal(speed_changed);
        lemma_wf_parts(*old(app));
    }
    let e = match &app.replay {
        Some(r) => r.speed_exp,
        None => {
            return;
        },
    };
    let ne: i8 = if up {
        if e < 4 { e + 1 } else { 4 }
    } else {
        if e > -2 { e - 1 } else { -2 }
    };
    set_speed_and_say(app, ne);
}

/// Milliseconds between replay frames at speed `2^speed_exp` (one second
/// at 1x), truncated to whole milliseconds.
pub open spec fn step_millis(speed_exp: int) -> int {
    if speed_exp <= -2 {
        4000
    } else if speed_exp == -1 {
        2000
    } else if speed_exp == 0 {
        1000
    } else if speed_exp == 1 {
        500
    } else if speed_exp == 2 {
        250
    } else if speed_exp == 3 {
        125
    } else {
        62
    }
}

/// The replay frame interval the host waits for before a `Tick` carries
/// `frame_due`.
pub fn replay_step_millis(speed_exp: i8) -> (r: u64)
    ensures
        r == step_millis(speed_exp as int),
{
    if speed_exp <= -2 {
        4000
    } else if speed_exp == -1 {
        2000
    } else if speed_exp == 0 {
        1000
    } else if speed_exp == 1 {
        500
    } else if speed_exp == 2 {
        250
    } else if speed_exp == 3 {
        125
    } else {
        62
    }
}

} // verus!
