//! Properties of the dashboard that span several keys, actions or states.
use vstd::prelude::*;
use crate::app::{
    admin_noted, clamped, cursors_valid, feedback_set, replay_ok, sel_ok, snapshot_applied, App, Key,
    KeyInput, ADMIN_FEEDBACK_TICKS, REFRESH_MAX_MS, REFRESH_MIN_MS,
};
use crate::dashboard::{refresh_faster, refresh_slower, tab_switched};
use crate::enter_esc::{confirm_opened, esc_armed, esc_result};
use crate::filtering::{
    edit_started, editing_lens, filter_backspaced, filter_committed, filter_key_result,
    filter_of, filter_reverted, filter_typed, refiltered, tab_filter_lens, with_filter, FilterLens,
};
use crate::keys::{step_down, step_up};
use crate::modes::{tab_after, tab_before, MicroView, SchemaView, Tab};
use crate::topkeys::{key_result, lens_key_result};
use crate::update::updated;
use crate::app::Action;
use crate::app::{
    clipboard_payload, first_session, selected_activity, selected_index_idx, selected_progress_idx,
    selected_statement_idx, DeleteTarget, HostRequest,
};
use crate::dashboard::delete_prompted;
use crate::keys::delete_key_result;
use crate::app::selected_record_idx;
use crate::order::{is_display_order, key_before, row_before};
use crate::rows::{
    activity_keep, activity_keys, activity_matches, sequence_keep, sequence_keys,
};
use crate::snapshot::{ActivityRow, SequenceRow};
use crate::text::{contains_seq, decimal, unicode_lowercase};
use crate::ui::format::uptime_text;
use crate::modes::SortMode;
use crate::psql::{
    conn_debug_text, env_keys, invocation_debug_text, psql_args, PsqlConnInfo, PsqlInvocation,
};

verus! {

/// No overlay, picker or filter editor owns input: keys reach the
/// top-level keymap.
pub open spec fn at_top_level(a: App) -> bool {
    &&& a.picker is None
    &&& !a.help_open
    &&& a.confirm is None
    &&& a.delete_record_target is None
    &&& a.db_picker is None
    &&& editing_lens(a) is None
}

/// Backspace twice goes back to where it started: the first press returns
/// to the previous lens, the second bounces back (browser-back).
pub proof fn lemma_backspace_twice(a0: App, a1: App, a2: App)
    requires
        at_top_level(a0),
        a0.previous_tab is Some,
        key_result(a0, KeyInput { code: Key::Backspace, ctrl: false, press: true }, a1),
        key_result(a1, KeyInput { code: Key::Backspace, ctrl: false, press: true }, a2),
    ensures
        a1.active_tab == a0.previous_tab->0,
        a2.active_tab == a0.active_tab,
        a2.previous_tab == Some(a0.previous_tab->0),
{
}

/// Tab then Shift+Tab comes back to the same lens.
pub proof fn lemma_tab_then_back_tab(a0: App, a1: App, a2: App)
    requires
        at_top_level(a0),
        key_result(a0, KeyInput { code: Key::Tab, ctrl: false, press: true }, a1),
        key_result(a1, KeyInput { code: Key::BackTab, ctrl: false, press: true }, a2),
    ensures
        a1.active_tab == tab_after(a0.active_tab),
        a2.active_tab == a0.active_tab,
        a2.previous_tab == Some(a1.active_tab),
{
    assert(tab_before(tab_after(a0.active_tab)) == a0.active_tab);
}

/// Nothing on screen for a top-level Esc to close: not in replay, no
/// detail or waits panel, no Schema or Micro sub-view, not on an Index Lens
/// reached with `i`.
pub open spec fn nothing_to_close(a: App) -> bool {
    &&& a.live_mode_saved_snapshot is None
    &&& !a.detail_open
    &&& !a.waits_open
    &&& !(a.active_tab == Tab::SchemaLens && a.schema_view != SchemaView::Tables)
    &&& !(a.active_tab == Tab::IndexLens && a.previous_tab == Some(Tab::SchemaLens) && a.filters.index.text@.len()
        > 0)
    &&& !(a.active_tab == Tab::MicroLens && a.micro_view != MicroView::Activity)
}

/// A hammered Esc never quits by accident, but a deliberate double Esc
/// does: the first arms the barrier without quitting, the second (no tick
/// in between) quits.
pub proof fn lemma_esc_twice_quits(a0: App, a1: App, a2: App)
    requires
        at_top_level(a0),
        nothing_to_close(a0),
        a0.esc_quit_armed_until is None,
        !a0.should_quit,
        a0.tick_count < 0xFFFF_FFFF_FFFF_0000,
        key_result(a0, KeyInput { code: Key::Esc, ctrl: false, press: true }, a1),
        key_result(a1, KeyInput { code: Key::Esc, ctrl: false, press: true }, a2),
    ensures
        !a1.should_quit,
        a2.should_quit,
{
    reveal(esc_result);
    let k = KeyInput { code: Key::Esc, ctrl: false, press: true };
    assert(lens_key_result(a0, k, a1));
    assert(esc_result(a0, a1));
    assert(esc_armed(a0, a1));
    assert(at_top_level(a1));
    assert(nothing_to_close(a1));
    assert(lens_key_result(a1, k, a2));
    assert(esc_result(a1, a2));
}

/// Esc closes what is open before it ever thinks of quitting: while a
/// replay, a detail panel, the waits panel, a sub-view or the index
/// drill-down is open, Esc neither quits nor arms the quit chord.
pub proof fn lemma_esc_closes_before_quitting(a0: App, a1: App)
    requires
        at_top_level(a0),
        !nothing_to_close(a0),
        key_result(a0, KeyInput { code: Key::Esc, ctrl: false, press: true }, a1),
    ensures
        a1.should_quit == a0.should_quit,
        a1.esc_quit_armed_until == a0.esc_quit_armed_until,
{
    reveal(esc_result);
    let k = KeyInput { code: Key::Esc, ctrl: false, press: true };
    assert(lens_key_result(a0, k, a1));
    assert(esc_result(a0, a1));
    if a0.live_mode_saved_snapshot is Some {
        let m = choose|m: App|
            #[trigger] snapshot_applied(
                App { live_mode_saved_snapshot: None, replay: None, ..a0 },
                a0.live_mode_saved_snapshot->0,
                m,
            ) && feedback_set(m, a1, "Exited replay, returned to live view"@, false, ADMIN_FEEDBACK_TICKS as int);
        assert(m.should_quit == a0.should_quit);
    }
}

/// Typing into a filter and pressing Esc restores the filter the lens had
/// before `/`.
pub proof fn lemma_filter_esc_restores(a0: App, a1: App, a2: App, a3: App, c: char)
    requires
        at_top_level(a0),
        tab_filter_lens(a0) is Some,
        a0.active_tab != Tab::MacroLens,
        c != '/',
        key_result(a0, KeyInput { code: Key::Char('/'), ctrl: false, press: true }, a1),
        key_result(a1, KeyInput { code: Key::Char(c), ctrl: false, press: true }, a2),
        key_result(a2, KeyInput { code: Key::Esc, ctrl: false, press: true }, a3),
    ensures
        filter_of(a3.filters, tab_filter_lens(a0)->0).text == filter_of(a0.filters, tab_filter_lens(a0)->0).text,
        !filter_of(a3.filters, tab_filter_lens(a0)->0).editing,
{
    let l = tab_filter_lens(a0)->0;
    reveal(filter_of);
    reveal(with_filter);
    reveal(filter_typed);
    reveal(filter_reverted);
    reveal(refiltered);
    assert(a1 == edit_started(a0, l));
    assert(editing_lens(a1) == Some(l));
    assert(filter_of(a2.filters, l).saved == filter_of(a1.filters, l).saved);
    assert(editing_lens(a2) == Some(l));
}

/// Editing one lens's filter never touches another lens's filter: a
/// search term typed on one lens cannot narrow another lens's table.
pub proof fn lemma_filters_stay_apart(a: App, k: KeyInput, b: App, other: FilterLens)
    requires
        editing_lens(a) is Some,
        other != editing_lens(a)->0,
        filter_key_result(a, k, b),
    ensures
        filter_of(b.filters, other) == filter_of(a.filters, other),
{
    reveal(filter_of);
    reveal(with_filter);
    reveal(filter_committed);
    reveal(filter_reverted);
    reveal(filter_backspaced);
    reveal(filter_typed);
    reveal(refiltered);
}

/// While the view is frozen, arriving snapshots never change what is on
/// screen, nor its freshness stamp (the staleness keeps counting up); the
/// newest one waits for the thaw (last wins).
pub proof fn lemma_paused_snapshots_wait(
    a0: App,
    s1: std::sync::Arc<crate::snapshot::Snapshot>,
    t1: u64,
    a1: App,
    s2: std::sync::Arc<crate::snapshot::Snapshot>,
    t2: u64,
    a2: App,
)
    requires
        a0.paused,
        updated(a0, Action::Snapshot(s1, t1), a1),
        updated(a1, Action::Snapshot(s2, t2), a2),
    ensures
        a2.snapshot == a0.snapshot,
        a2.last_snapshot_at_ms == a0.last_snapshot_at_ms,
        a2.pending_snapshot == Some(s2),
        a2.orders == a0.orders,
        a2.cursors == a0.cursors,
{
}

/// A live snapshot is stamped with its arrival time, and once data has
/// been seen the splash never comes back, whatever later snapshots say.
pub proof fn lemma_snapshot_stamped(a: App, s: std::sync::Arc<crate::snapshot::Snapshot>, t: u64, b: App)
    requires
        !a.paused,
        updated(a, Action::Snapshot(s, t), b),
    ensures
        b.snapshot == s,
        b.last_snapshot_at_ms == Some(t),
        b.first_data_seen == (a.first_data_seen || (*s).status_ok),
{
}

/// Read-only mode is enforced in the model: `c`/`K` never open the
/// confirmation and never queue an admin command.
pub proof fn lemma_read_only_refuses_admin(a: App, terminate: bool, b: App)
    requires
        a.read_only,
        a.confirm is None,
        confirm_opened(a, terminate, b),
    ensures
        b.confirm is None,
        b.requests == a.requests,
{
    reveal(confirm_opened);
}

/// An admin result is announced once: once its timestamp was seen, later
/// snapshots carrying the same result leave the feedback line alone.
pub proof fn lemma_admin_result_announced_once(a: App, seen: Option<u64>, fb: Option<crate::app::AdminFeedback>)
    requires
        (*a.snapshot).last_admin_action matches Some(r) && a.admin_seen_epoch_ms == Some(r.at_epoch_ms),
        admin_noted(a, seen, fb),
    ensures
        seen == a.admin_seen_epoch_ms,
        fb == a.admin_feedback,
{
}

/// `+` and `-` keep the poll interval within 0.5 s .. 10 s, and each moves
/// it by at most one step.
pub proof fn lemma_refresh_interval_bounded(ms: u64)
    requires
        REFRESH_MIN_MS <= ms <= REFRESH_MAX_MS,
    ensures
        REFRESH_MIN_MS <= refresh_slower(ms) <= REFRESH_MAX_MS,
        REFRESH_MIN_MS <= refresh_faster(ms) <= REFRESH_MAX_MS,
        refresh_slower(ms) >= ms,
        refresh_faster(ms) <= ms,
        refresh_slower(ms) - ms <= 500,
        ms - refresh_faster(ms) <= 500,
        ms < REFRESH_MAX_MS ==> refresh_slower(ms) > ms,
        ms > REFRESH_MIN_MS ==> refresh_faster(ms) < ms,
{
}

/// Moving a picker's cursor never leaves the list.
pub proof fn lemma_picker_steps_stay_in_list(sel: usize, len: nat)
    requires
        sel < len,
    ensures
        step_up(sel) < len,
        step_down(sel, len) < len,
        sel == 0 ==> step_up(sel) == 0,
        sel == len - 1 ==> step_down(sel, len) == sel,
{
}

/// A clamped cursor is always on a row (or none, for an empty table).
pub proof fn lemma_clamped_cursor_valid(sel: Option<usize>, len: int)
    requires
        len <= usize::MAX,
    ensures
        sel_ok(clamped(sel, len), len),
        len > 0 <==> clamped(sel, len) is Some,
        sel_ok(sel, len) && sel is Some && len > 0 ==> clamped(sel, len) == sel,
{
}

/// The model's invariant promises that every cursor is on a row of its
/// table (or none; or the first row, which a new model selects before any
/// table has rows), that replay shows one of its frames, and that the poll interval
/// is in range — after `App::new` and after every `update`.
pub proof fn lemma_invariant_meaning(a: App)
    requires
        a.wf(),
    ensures
        cursors_valid(a.cursors, a.orders, *a.snapshot),
        a.replay matches Some(r) ==> replay_ok(r) && r.current_idx < r.frames@.len(),
        REFRESH_MIN_MS <= a.refresh_interval_ms <= REFRESH_MAX_MS,
{
    crate::app::lemma_wf_parts(a);
}

/// The password never reaches psql's argument list (where other users of
/// the machine could read it): the arguments are the same whatever the
/// password is.
pub proof fn lemma_password_never_in_args(conn: PsqlConnInfo, other_password: Option<String>)
    ensures
        psql_args(conn) == psql_args((PsqlConnInfo { password: other_password, ..conn })),
{
}

/// The debug rendering of connection parameters never shows the
/// password: it is the same whatever the password's text, as long as one
/// is present in both or absent in both.
pub proof fn lemma_conn_debug_hides_password(conn: PsqlConnInfo, other_password: Option<String>)
    requires
        (other_password is Some) == (conn.password is Some),
    ensures
        conn_debug_text(conn) == conn_debug_text((PsqlConnInfo { password: other_password, ..conn })),
{
}

/// The debug rendering of an invocation never shows an environment value
/// (where the password travels): it is the same for any environment with
/// the same names in the same order.
pub proof fn lemma_invocation_debug_hides_env_values(inv: PsqlInvocation, env: Vec<(String, String)>)
    requires
        env_keys(env@) == env_keys(inv.env@),
    ensures
        invocation_debug_text(inv) == invocation_debug_text((PsqlInvocation { env, ..inv })),
{
}

/// The Sequences sub-view shows the sequences closest to running out
/// first: along its display order the percent used never increases (a
/// larger percent used never comes after a smaller one), and among equally
/// used ones the fewest remaining values come first.
pub proof fn lemma_sequences_most_used_first(
    rows: Seq<SequenceRow>,
    filter: Seq<char>,
    order: Seq<usize>,
    p: int,
    q: int,
)
    requires
        is_display_order(sequence_keys(rows), sequence_keep(rows, filter), rows.len() as int, order),
        0 <= p < q < order.len(),
    ensures
        rows[order[p] as int].percent_used_order >= rows[order[q] as int].percent_used_order,
        rows[order[p] as int].percent_used_order == rows[order[q] as int].percent_used_order
            ==> rows[order[p] as int].remaining_count <= rows[order[q] as int].remaining_count,
{
    let i = order[p] as int;
    let j = order[q] as int;
    if rows[i].percent_used_order == rows[j].percent_used_order {
        crate::order::lemma_display_second_num(sequence_keys(rows), sequence_keep(rows, filter), rows.len() as int,
            order, p, q, -rows[i].percent_used_order, rows[i].remaining_count as int, rows[j].remaining_count as int);
    }
    assert(row_before(sequence_keys(rows)[i], i, sequence_keys(rows)[j], j));
    let ki = sequence_keys(rows)[i];
    let kj = sequence_keys(rows)[j];
    if key_before(ki, kj) {
        assert(ki[0] == crate::order::PartView::Num(-rows[i].percent_used_order));
        assert(kj[0] == crate::order::PartView::Num(-rows[j].percent_used_order));
    } else {
        assert(ki == kj);
        assert(ki[0] == kj[0]);
    }
}

/// The Micro Lens search looks at a session's wait event: a row whose
/// lowercased wait event contains the needle matches it.
pub proof fn lemma_activity_search_reads_the_wait_event(row: ActivityRow, needle: Seq<char>)
    requires
        row.wait_event is Some,
        contains_seq(unicode_lowercase(row.wait_event->0@), needle),
    ensures
        activity_matches(row, needle),
{
}

/// Filtering the Micro Lens by (any case of) a wait event's name keeps
/// every session waiting on it: the row is in the display order.
pub proof fn lemma_activity_filter_keeps_waiting_rows(
    rows: Seq<ActivityRow>,
    filter: Seq<char>,
    mode: SortMode,
    order: Seq<usize>,
    i: int,
)
    requires
        is_display_order(activity_keys(rows, mode), activity_keep(rows, filter), rows.len() as int, order),
        0 <= i < rows.len(),
        rows[i].wait_event is Some,
        contains_seq(unicode_lowercase(rows[i].wait_event->0@), unicode_lowercase(filter)),
    ensures
        order.contains(i as usize),
{
    lemma_activity_search_reads_the_wait_event(rows[i], unicode_lowercase(filter));
    assert(activity_keep(rows, filter)(i));
}

proof fn lemma_first_session_is(acts: Seq<ActivityRow>, pid: i32, from: int, j: int)
    requires
        0 <= from <= j < acts.len(),
        acts[j].pid == pid,
        forall|k: int| from <= k < j ==> acts[k].pid != pid,
    ensures
        first_session(acts, pid, from) == Some(j),
    decreases j - from,
{
    if from < j {
        lemma_first_session_is(acts, pid, from + 1, j);
    }
}

proof fn lemma_no_session(acts: Seq<ActivityRow>, pid: i32, from: int)
    requires
        0 <= from,
        forall|k: int| from <= k < acts.len() ==> acts[k].pid != pid,
    ensures
        first_session(acts, pid, from) is None,
    decreases acts.len() - from,
{
    if from < acts.len() {
        lemma_no_session(acts, pid, from + 1);
    }
}

/// `y` on the Progress Lens copies what the operation's session is
/// running: when some session has the selected operation's pid, the
/// payload is the query of the first such session.
pub proof fn lemma_progress_copy_takes_the_session_query(a: App, i: int, j: int)
    requires
        a.active_tab == Tab::ProgressLens,
        selected_progress_idx(a) == Some(i),
        0 <= j < (*a.snapshot).activity@.len(),
        (*a.snapshot).activity@[j].pid == (*a.snapshot).progress@[i].pid,
        forall|k: int| 0 <= k < j ==> (*a.snapshot).activity@[k].pid != (*a.snapshot).progress@[i].pid,
    ensures
        clipboard_payload(a) == Some((*a.snapshot).activity@[j].query@),
{
    lemma_first_session_is((*a.snapshot).activity@, (*a.snapshot).progress@[i].pid, 0, j);
}

/// `y` copies what the row under the cursor is about: a session's query
/// on the Micro Lens, a statement's text on the Query Lens, the index's
/// definition on the Index Lens, and the file's path on the Records Lens.
pub proof fn lemma_copy_payload_per_lens(a: App)
    ensures
        a.active_tab == Tab::MicroLens && a.micro_view == MicroView::Activity ==> match selected_activity(a) {
            Some(i) => clipboard_payload(a) == Some((*a.snapshot).activity@[i].query@),
            None => clipboard_payload(a) is None,
        },
        a.active_tab == Tab::QueryLens ==> match selected_statement_idx(a) {
            Some(i) => clipboard_payload(a) == Some((*a.snapshot).statements->0@[i].query@),
            None => clipboard_payload(a) is None,
        },
        a.active_tab == Tab::IndexLens ==> match selected_index_idx(a) {
            Some(i) => clipboard_payload(a) == Some((*a.snapshot).schema->0.indexes@[i].indexdef@),
            None => clipboard_payload(a) is None,
        },
        a.active_tab == Tab::RecordsLens ==> match selected_record_idx(a) {
            Some(i) => clipboard_payload(a) == Some(a.records@[i].path@),
            None => clipboard_payload(a) is None,
        },
{
}

/// With no session of that pid, `y` on the Progress Lens copies
/// `<command> on <relation>`.
pub proof fn lemma_progress_copy_without_session(a: App, i: int)
    requires
        a.active_tab == Tab::ProgressLens,
        selected_progress_idx(a) == Some(i),
        forall|k: int|
            0 <= k < (*a.snapshot).activity@.len() ==> (*a.snapshot).activity@[k].pid != (*a.snapshot).progress@[i].pid,
    ensures
        clipboard_payload(a) == Some(
            (*a.snapshot).progress@[i].command@ + " on "@ + (*a.snapshot).progress@[i].relation@,
        ),
{
    lemma_no_session((*a.snapshot).activity@, (*a.snapshot).progress@[i].pid, 0);
}

/// Uptime under a minute reads in seconds: `42s`.
pub proof fn lemma_uptime_seconds(secs: nat)
    requires
        secs < 60,
    ensures
        uptime_text(secs) == decimal(secs) + "s"@,
{
}

/// Uptime from a minute to an hour reads in whole minutes: `27m`.
pub proof fn lemma_uptime_minutes(secs: nat)
    requires
        60 <= secs < 3600,
    ensures
        uptime_text(secs) == decimal(secs / 60) + "m"@,
{
    assert(secs % 3600 == secs);
}

/// Uptime from an hour to a day leads with the whole hours, then the
/// minutes past the hour: `1h 27m`.
pub proof fn lemma_uptime_hours(secs: nat)
    requires
        3600 <= secs < 86400,
    ensures
        uptime_text(secs) == decimal(secs / 3600) + "h "@ + decimal((secs % 3600) / 60) + "m"@,
        secs / 3600 >= 1,
{
    assert(secs % 86400 == secs);
}

/// Uptime of a day or more leads with the whole days, then the hours past
/// the day: `3d 4h`.
pub proof fn lemma_uptime_days(secs: nat)
    requires
        secs >= 86400,
    ensures
        uptime_text(secs) == decimal(secs / 86400) + "d "@ + decimal((secs % 86400) / 3600) + "h"@,
        secs / 86400 >= 1,
{
}

/// `y` in the delete confirmation queues the deletion of exactly the
/// recording the prompt names, and closes the prompt; nothing else
/// changes.
pub proof fn lemma_delete_confirm_deletes_the_target(a: App, k: KeyInput, b: App)
    requires
        k.press,
        k.code == Key::Char('y') || k.code == Key::Char('Y'),
        a.picker is None,
        !a.help_open,
        a.confirm is None,
        a.delete_record_target is Some,
        key_result(a, k, b),
    ensures
        b.delete_record_target is None,
        b.requests.host@ == a.requests.host@.push(HostRequest::DeleteRecording {
            path: a.delete_record_target->0.path,
            filename: a.delete_record_target->0.filename,
        }),
        b.requests.pending_admin == a.requests.pending_admin,
        b.records == a.records,
        b.snapshot == a.snapshot,
        b.should_quit == a.should_quit,
{
    assert(delete_key_result(a, k, b));
}

/// `n`, `N` or Esc in the delete confirmation closes it and deletes
/// nothing.
pub proof fn lemma_delete_abort_deletes_nothing(a: App, k: KeyInput, b: App)
    requires
        k.press,
        k.code == Key::Char('n') || k.code == Key::Char('N') || k.code == Key::Esc,
        a.picker is None,
        !a.help_open,
        a.confirm is None,
        a.delete_record_target is Some,
        key_result(a, k, b),
    ensures
        b.delete_record_target is None,
        b.requests == a.requests,
        b.records == a.records,
        !b.should_quit || a.should_quit,
{
    assert(delete_key_result(a, k, b));
}

/// On the Records Lens, Delete and then `y` on a finished recording asks
/// the host to delete that recording's file, and only that one.
pub proof fn lemma_delete_then_confirm(a0: App, i: int, a1: App, a2: App)
    requires
        at_top_level(a0),
        a0.active_tab == Tab::RecordsLens,
        selected_record_idx(a0) == Some(i),
        !a0.records@[i].is_active,
        key_result(a0, KeyInput { code: Key::Delete, ctrl: false, press: true }, a1),
        key_result(a1, KeyInput { code: Key::Char('y'), ctrl: false, press: true }, a2),
    ensures
        a2.delete_record_target is None,
        a2.requests.host@ == a0.requests.host@.push(HostRequest::DeleteRecording {
            path: a0.records@[i].path,
            filename: a0.records@[i].filename,
        }),
{
    let k = KeyInput { code: Key::Delete, ctrl: false, press: true };
    assert(lens_key_result(a0, k, a1));
    assert(crate::topkeys::action_key_result(a0, k, a1));
    reveal(delete_prompted);
    assert(delete_prompted(a0, a1));
    assert(a1.delete_record_target == Some(DeleteTarget { path: a0.records@[i].path, filename: a0.records@[i].filename }));
    lemma_delete_confirm_deletes_the_target(a1, KeyInput { code: Key::Char('y'), ctrl: false, press: true }, a2);
}

} // verus!
