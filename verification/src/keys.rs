//! Key handling: the overlays' keymaps (service picker, help, admin and
//! delete confirmations, database picker, filter editing) and the
//! dashboard's top-level keymap.
use std::sync::Arc;
use vstd::prelude::*;
use vstd::string::*;
use crate::app::{
    apply_snapshot, lemma_wf_parts, feedback_is, feedback_set, feedback_str, host_queued, set_feedback,
    snapshot_applied, verb_of, AdminFeedback, App, DbPickerState, HostRequest, Key, KeyInput,
    PickerEntry, PickerState, Requests, ADMIN_FEEDBACK_TICKS,
};
use crate::modes::{BlocksPane, MicroView, SchemaView, Tab};
use crate::snapshot::{AdminCommand, AdminKind, Snapshot};
use crate::text::{push_signed_decimal, push_str, signed_decimal, str_eq};

verus! {

// ---------------------------------------------------------------------
// Overlays: service picker, help, admin confirmation, delete
// confirmation, database picker
// ---------------------------------------------------------------------

pub open spec fn is_ctrl(k: KeyInput, c: char) -> bool {
    k.code == Key::Char(c) && k.ctrl
}

pub open spec fn is_up(k: KeyInput) -> bool {
    k.code == Key::Up || k.code == Key::Char('k')
}

pub open spec fn is_down(k: KeyInput) -> bool {
    k.code == Key::Down || k.code == Key::Char('j')
}

pub open spec fn quit_state(a: App) -> App {
    App { should_quit: true, ..a }
}

/// One row up, saturating at the first.
pub open spec fn step_up(sel: usize) -> usize {
    if sel == 0 {
        0
    } else {
        (sel - 1) as usize
    }
}

/// One row down, saturating at the last of `len > 0` rows.
pub open spec fn step_down(sel: usize, len: nat) -> usize {
    if sel + 1 < len {
        (sel + 1) as usize
    } else {
        (len - 1) as usize
    }
}

impl PickerEntry {
    /// A copy of this entry.
    pub fn duplicate(&self) -> (r: PickerEntry)
        ensures
            r == *self,
    {
        let service = match &self.service {
            Some(s) => Some(s.clone()),
            None => None,
        };
        PickerEntry { name: self.name.clone(), detail: self.detail.clone(), service }
    }
}

/// The startup service picker's keymap.
pub open spec fn picker_key_result(a: App, k: KeyInput, b: App) -> bool {
    let p = a.picker->0;
    if k.code == Key::Char('q') || k.code == Key::Esc || is_ctrl(k, 'c') {
        b == quit_state(a)
    } else if is_up(k) {
        b == App { picker: Some(PickerState { selected: step_up(p.selected), ..p }), ..a }
    } else if is_down(k) {
        if p.entries@.len() > 0 {
            b == App {
                picker: Some(PickerState { selected: step_down(p.selected, p.entries@.len()), ..p }),
                ..a
            }
        } else {
            b == a
        }
    } else if k.code == Key::Enter {
        if p.selected < p.entries@.len() {
            b == App { picker: None, picked: Some(p.entries@[p.selected as int]), ..a }
        } else {
            b == a
        }
    } else {
        b == a
    }
}


/// The help overlay's keymap: `Esc` or `?` closes it (without arming the
/// quit barrier), Ctrl+C quits, every other key is inert.
pub open spec fn help_key_result(a: App, k: KeyInput, b: App) -> bool {
    if k.code == Key::Esc || k.code == Key::Char('?') {
        b == App { help_open: false, ..a }
    } else if is_ctrl(k, 'c') {
        b == quit_state(a)
    } else {
        b == a
    }
}


pub open spec fn command_kind(c: AdminCommand) -> AdminKind {
    match c {
        AdminCommand::CancelBackend(_) => AdminKind::Cancel,
        AdminCommand::TerminateBackend(_) => AdminKind::Terminate,
    }
}

pub open spec fn command_pid(c: AdminCommand) -> i32 {
    match c {
        AdminCommand::CancelBackend(p) => p,
        AdminCommand::TerminateBackend(p) => p,
    }
}

/// "cancel sent to PID 42…"
pub open spec fn sent_text(c: AdminCommand) -> Seq<char> {
    verb_of(command_kind(c)) + " sent to PID "@ + signed_decimal(command_pid(c) as int) + "\u{2026}"@
}

/// Unfreezing: the parked snapshot (if any) goes on screen.
pub open spec fn resumed(a: App, b: App) -> bool {
    match a.pending_snapshot {
        Some(s) => snapshot_applied(App { paused: false, pending_snapshot: None, ..a }, s, b),
        None => b == App { paused: false, ..a },
    }
}

pub(crate) fn resume(app: &mut App)
    requires
        old(app).wf(),
        old(app).counters_ok(),
    ensures
        resumed(*old(app), *final(app)),
        final(app).wf(),
{
    proof {
        lemma_wf_parts(*old(app));
    }
    app.paused = false;
    match app.pending_snapshot.take() {
        Some(s) => apply_snapshot(app, s),
        None => {},
    }
    proof {
        lemma_wf_parts(*app);
    }
}

/// `mid` is `a` once the confirmed command is queued and announced.
pub open spec fn confirm_sent(a: App, mid: App) -> bool {
    let cmd = a.confirm->0.command;
    &&& mid == App { confirm: None, requests: mid.requests, admin_feedback: mid.admin_feedback, ..a }
    &&& mid.requests == Requests { pending_admin: mid.requests.pending_admin, ..a.requests }
    &&& mid.requests.pending_admin@ == a.requests.pending_admin@.push(cmd)
    &&& feedback_is(mid.admin_feedback, sent_text(cmd), false, a.tick_count + ADMIN_FEEDBACK_TICKS)
}

/// The admin confirmation's keymap: `y` queues the command (and unfreezes
/// a paused view so its result shows), `n`/`Esc` abort, every other key is
/// inert.
pub open spec fn confirm_key_result(a: App, k: KeyInput, b: App) -> bool {
    if k.code == Key::Char('y') {
        exists|mid: App|
            #[trigger] confirm_sent(a, mid) && (if mid.paused {
                resumed(mid, b)
            } else {
                b == mid
            })
    } else if k.code == Key::Char('n') || k.code == Key::Esc {
        b == App { confirm: None, ..a }
    } else {
        b == a
    }
}


/// The delete confirmation's keymap: `y` asks the host to delete the file,
/// `n`/`Esc` abort, Ctrl+C quits, every other key is inert.
pub open spec fn delete_key_result(a: App, k: KeyInput, b: App) -> bool {
    if k.code == Key::Char('y') || k.code == Key::Char('Y') {
        match a.delete_record_target {
            Some(t) => {
                &&& b == App { delete_record_target: None, requests: b.requests, ..a }
                &&& host_queued(
                    a.requests,
                    b.requests,
                    true,
                    HostRequest::DeleteRecording { path: t.path, filename: t.filename },
                )
            },
            None => b == a,
        }
    } else if k.code == Key::Char('n') || k.code == Key::Char('N') || k.code == Key::Esc {
        b == App { delete_record_target: None, ..a }
    } else if is_ctrl(k, 'c') {
        b == quit_state(a)
    } else {
        b == a
    }
}


/// Enter in the database picker: queue a switch to another database (a
/// mock poller cannot switch; the current database needs none).
pub open spec fn db_enter_result(a: App, b: App) -> bool {
    let p = a.db_picker->0;
    let closed = App { db_picker: None, ..a };
    if p.selected < p.entries@.len() {
        let name = p.entries@[p.selected as int].name;
        if name@ == (*a.snapshot).database@ {
            b == closed
        } else if a.is_mock {
            feedback_set(closed, b, "mock mode: database switch not simulated"@, false, ADMIN_FEEDBACK_TICKS as int)
        } else {
            b == App { requests: Requests { pending_db_switch: Some(name), ..a.requests }, ..closed }
        }
    } else {
        b == closed
    }
}

/// The database picker's keymap: `j`/`k` move (saturating), Enter queues a
/// switch to another database (or says a mock poller cannot switch), `Esc`
/// closes it without arming the quit barrier, Ctrl+C quits.
pub open spec fn db_picker_key_result(a: App, k: KeyInput, b: App) -> bool {
    let p = a.db_picker->0;
    if k.code == Key::Esc {
        b == App { db_picker: None, ..a }
    } else if is_ctrl(k, 'c') {
        b == quit_state(a)
    } else if is_up(k) {
        b == App { db_picker: Some(DbPickerState { selected: step_up(p.selected), ..p }), ..a }
    } else if is_down(k) {
        if p.entries@.len() > 0 {
            b == App {
                db_picker: Some(DbPickerState { selected: step_down(p.selected, p.entries@.len()), ..p }),
                ..a
            }
        } else {
            b == a
        }
    } else if k.code == Key::Enter {
        db_enter_result(a, b)
    } else {
        b == a
    }
}



fn quit_now(app: &mut App)
    requires
        old(app).wf(),
    ensures
        final(app).wf(),
        *final(app) == quit_state(*old(app)),
{
    app.should_quit = true;
}

fn picker_up(app: &mut App)
    requires
        old(app).wf(),
        old(app).picker is Some,
    ensures
        final(app).wf(),
        *final(app) == (App {
            picker: Some(PickerState { selected: step_up(old(app).picker->0.selected), ..old(app).picker->0 }),
            ..*old(app)
        }),
{
    proof {
        lemma_wf_parts(*old(app));
    }
    let mut p = app.picker.take().unwrap();
    if p.selected > 0 {
        p.selected = p.selected - 1;
    }
    app.picker = Some(p);
    proof {
        lemma_wf_parts(*app);
    }
}

fn picker_down(app: &mut App)
    requires
        old(app).wf(),
        old(app).picker is Some,
    ensures
        final(app).wf(),
        old(app).picker->0.entries@.len() > 0 ==> *final(app) == (App {
            picker: Some(
                PickerState {
                    selected: step_down(old(app).picker->0.selected, old(app).picker->0.entries@.len()),
                    ..old(app).picker->0
                },
            ),
            ..*old(app)
        }),
        old(app).picker->0.entries@.len() == 0 ==> *final(app) == *old(app),
{
    proof {
        lemma_wf_parts(*old(app));
    }
    let mut p = app.picker.take().unwrap();
    let n = p.entries.len();
    if n > 0 {
        p.selected = if p.selected < n - 1 { p.selected + 1 } else { n - 1 };
    }
    app.picker = Some(p);
    proof {
        lemma_wf_parts(*app);
    }
}

fn set_picked(app: &mut App, e: PickerEntry)
    requires
        old(app).wf(),
    ensures
        *final(app) == (App { picker: None, picked: Some(e), ..*old(app) }),
        final(app).wf(),
{
    proof {
        lemma_wf_parts(*old(app));
    }
    app.picker = None;
    app.picked = Some(e);
    proof {
        lemma_wf_parts(*app);
    }
}

fn picker_enter(app: &mut App)
    requires
        old(app).wf(),
        old(app).picker is Some,
    ensures
        final(app).wf(),
        ({
            let p = old(app).picker->0;
            if p.selected < p.entries@.len() {
                *final(app) == App { picker: None, picked: Some(p.entries@[p.selected as int]), ..*old(app) }
            } else {
                *final(app) == *old(app)
            }
        }),
{
    let choice = match &app.picker {
        Some(p) => if p.selected < p.entries.len() {
            Some(p.entries[p.selected].duplicate())
        } else {
            None
        },
        None => None,
    };
    match choice {
        Some(entry) => set_picked(app, entry),
        None => {},
    }
}

pub(crate) fn handle_picker_key(app: &mut App, k: KeyInput)
    requires
        old(app).wf(),
        old(app).picker is Some,
    ensures
        final(app).wf(),
        picker_key_result(*old(app), k, *final(app)),
{
    if k.code == Key::Char('q') || k.code == Key::Esc || (k.code == Key::Char('c') && k.ctrl) {
        quit_now(app);
    } else if k.code == Key::Up || k.code == Key::Char('k') {
        picker_up(app);
    } else if k.code == Key::Down || k.code == Key::Char('j') {
        picker_down(app);
    } else if k.code == Key::Enter {
        picker_enter(app);
    }
}

fn close_help(app: &mut App)
    requires
        old(app).wf(),
    ensures
        final(app).wf(),
        *final(app) == (App { help_open: false, ..*old(app) }),
{
    app.help_open = false;
}

pub(crate) fn handle_help_key(app: &mut App, k: KeyInput)
    requires
        old(app).wf(),
    ensures
        final(app).wf(),
        help_key_result(*old(app), k, *final(app)),
{
    if k.code == Key::Esc || k.code == Key::Char('?') {
        close_help(app);
    } else if k.code == Key::Char('c') && k.ctrl {
        quit_now(app);
    }
}

fn queue_confirmed(app: &mut App)
    requires
        old(app).confirm is Some,
        old(app).tick_count <= crate::app::TICK_HEADROOM,
    ensures
        confirm_sent(*old(app), *final(app)),
{
    let c = app.confirm.take().unwrap();
    let cmd = c.command;
    app.requests.pending_admin.push(cmd);
    let mut t = String::new();
    match cmd.kind() {
        AdminKind::Cancel => push_str(&mut t, "cancel"),
        AdminKind::Terminate => push_str(&mut t, "terminate"),
    }
    push_str(&mut t, " sent to PID ");
    push_signed_decimal(&mut t, cmd.pid() as i64);
    push_str(&mut t, "\u{2026}");
    assert(t@ =~= sent_text(cmd));
    set_feedback(app, t, false, ADMIN_FEEDBACK_TICKS);
}

proof fn lemma_confirm_keeps_wf(a: App, mid: App)
    requires
        a.wf(),
        a.counters_ok(),
        confirm_sent(a, mid),
    ensures
        mid.wf(),
        mid.counters_ok(),
{
}

fn confirm_yes(app: &mut App)
    requires
        old(app).confirm is Some,
        old(app).wf(),
        old(app).counters_ok(),
    ensures
        exists|mid: App|
            #[trigger] confirm_sent(*old(app), mid) && (if mid.paused {
                resumed(mid, *final(app))
            } else {
                *final(app) == mid
            }),
        final(app).wf(),
{
    queue_confirmed(app);
    let ghost mid = *app;
    proof {
        lemma_confirm_keeps_wf(*old(app), mid);
    }
    if app.paused {
        resume(app);
    }
    assert(confirm_sent(*old(app), mid));
}

fn close_confirm(app: &mut App)
    requires
        old(app).wf(),
    ensures
        final(app).wf(),
        *final(app) == (App { confirm: None, ..*old(app) }),
{
    app.confirm = None;
}

pub(crate) fn handle_confirm_key(app: &mut App, k: KeyInput)
    requires
        old(app).confirm is Some,
        old(app).wf(),
        old(app).counters_ok(),
    ensures
        confirm_key_result(*old(app), k, *final(app)),
        final(app).wf(),
{
    if k.code == Key::Char('y') {
        confirm_yes(app);
    } else if k.code == Key::Char('n') || k.code == Key::Esc {
        close_confirm(app);
    }
}

fn delete_confirmed(app: &mut App)
    requires
        old(app).wf(),
    ensures
        final(app).wf(),
        match old(app).delete_record_target {
            Some(t) => {
                &&& *final(app) == App { delete_record_target: None, requests: final(app).requests, ..*old(app) }
                &&& host_queued(
                    old(app).requests,
                    final(app).requests,
                    true,
                    HostRequest::DeleteRecording { path: t.path, filename: t.filename },
                )
            },
            None => *final(app) == *old(app),
        },
{
    match app.delete_record_target.take() {
        Some(t) => {
            app.requests.host.push(HostRequest::DeleteRecording { path: t.path, filename: t.filename });
        },
        None => {},
    }
}

fn close_delete(app: &mut App)
    requires
        old(app).wf(),
    ensures
        final(app).wf(),
        *final(app) == (App { delete_record_target: None, ..*old(app) }),
{
    app.delete_record_target = None;
}

pub(crate) fn handle_delete_record_confirm_key(app: &mut App, k: KeyInput)
    requires
        old(app).wf(),
    ensures
        final(app).wf(),
        delete_key_result(*old(app), k, *final(app)),
{
    if k.code == Key::Char('y') || k.code == Key::Char('Y') {
        delete_confirmed(app);
    } else if k.code == Key::Char('n') || k.code == Key::Char('N') || k.code == Key::Esc {
        close_delete(app);
    } else if k.code == Key::Char('c') && k.ctrl {
        quit_now(app);
    }
}

fn close_db_picker(app: &mut App)
    requires
        old(app).wf(),
    ensures
        final(app).wf(),
        *final(app) == (App { db_picker: None, ..*old(app) }),
{
    proof {
        lemma_wf_parts(*old(app));
    }
    app.db_picker = None;
    proof {
        lemma_wf_parts(*app);
    }
}

fn db_picker_up(app: &mut App)
    requires
        old(app).wf(),
        old(app).db_picker is Some,
    ensures
        final(app).wf(),
        *final(app) == (App {
            db_picker: Some(DbPickerState { selected: step_up(old(app).db_picker->0.selected), ..old(app).db_picker->0 }),
            ..*old(app)
        }),
{
    proof {
        lemma_wf_parts(*old(app));
    }
    let mut p = app.db_picker.take().unwrap();
    if p.selected > 0 {
        p.selected = p.selected - 1;
    }
    app.db_picker = Some(p);
    proof {
        lemma_wf_parts(*app);
    }
}

fn db_picker_down(app: &mut App)
    requires
        old(app).wf(),
        old(app).db_picker is Some,
    ensures
        final(app).wf(),
        old(app).db_picker->0.entries@.len() > 0 ==> *final(app) == (App {
            db_picker: Some(
                DbPickerState {
                    selected: step_down(old(app).db_picker->0.selected, old(app).db_picker->0.entries@.len()),
                    ..old(app).db_picker->0
                },
            ),
            ..*old(app)
        }),
        old(app).db_picker->0.entries@.len() == 0 ==> *final(app) == *old(app),
{
    proof {
        lemma_wf_parts(*old(app));
    }
    let mut p = app.db_picker.take().unwrap();
    let n = p.entries.len();
    if n > 0 {
        p.selected = if p.selected < n - 1 { p.selected + 1 } else { n - 1 };
    }
    app.db_picker = Some(p);
    proof {
        lemma_wf_parts(*app);
    }
}

fn queue_db_switch(app: &mut App, name: String)
    requires
        old(app).wf(),
    ensures
        final(app).wf(),
        *final(app) == (App { requests: Requests { pending_db_switch: Some(name), ..old(app).requests }, ..*old(app) }),
{
    app.requests.pending_db_switch = Some(name);
}

fn db_picker_enter(app: &mut App)
    requires
        old(app).wf(),
        old(app).db_picker is Some,
        old(app).tick_count <= crate::app::TICK_HEADROOM,
    ensures
        final(app).wf(),
        db_enter_result(*old(app), *final(app)),
{
    let (in_range, same, name) = match &app.db_picker {
        Some(p) => if p.selected < p.entries.len() {
            (
                true,
                str_eq(p.entries[p.selected].name.as_str(), app.snapshot.database.as_str()),
                p.entries[p.selected].name.clone(),
            )
        } else {
            (false, false, String::new())
        },
        None => (false, false, String::new()),
    };
    close_db_picker(app);
    if in_range && !same {
        if app.is_mock {
            feedback_str(app, "mock mode: database switch not simulated", false, ADMIN_FEEDBACK_TICKS);
        } else {
            queue_db_switch(app, name);
        }
    }
}

pub(crate) fn handle_db_picker_key(app: &mut App, k: KeyInput)
    requires
        old(app).wf(),
        old(app).db_picker is Some,
        old(app).counters_ok(),
    ensures
        final(app).wf(),
        db_picker_key_result(*old(app), k, *final(app)),
{
    if k.code == Key::Esc {
        close_db_picker(app);
    } else if k.code == Key::Char('c') && k.ctrl {
        quit_now(app);
    } else if k.code == Key::Up || k.code == Key::Char('k') {
        db_picker_up(app);
    } else if k.code == Key::Down || k.code == Key::Char('j') {
        db_picker_down(app);
    } else if k.code == Key::Enter {
        db_picker_enter(app);
    }
}

} // verus!
