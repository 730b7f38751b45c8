//! The single mutation point of the model: [`update`] applies one action —
//! a key, a snapshot, a tick, or the outcome of work the host performed —
//! and [`App::new`] builds the initial model.
use std::sync::Arc;
use vstd::prelude::*;
use crate::app::{
    apply_snapshot, clamp_result, clamp_selection, feedback_is, feedback_set, frames_ok,
    host_queued, lemma_wf_parts, records_fresh, resort_all, resort_records, set_feedback,
    snapshot_applied, snapshot_ok, Action, AdminFeedback, App, Cursors, FilterEdit, Filters,
    HostRequest, Orders, Replay, Requests, SortModes, ADMIN_FEEDBACK_TICKS, DEFAULT_REFRESH_MS,
    TICK_HEADROOM,
};
use crate::binary64::{round_half_even, round_half_even_u128, to_binary64, to_binary64_u64};
use crate::dashboard::{ask_host, host_asked};
use crate::modes::{BlocksPane, MicroView, RecordsSortMode, SchemaSortMode, SchemaView, SortMode, StatementsSortMode, Tab};
use crate::snapshot::{RecordEntry, Snapshot};
use crate::text::{contains_seq, decimal, push_decimal, push_str, str_contains};
use crate::topkeys::{handle_key, key_result};
use crate::ui::format::{push_tenths, tenths_text};

verus! {

// ---------------------------------------------------------------------
// Outcomes reported by the host
// ---------------------------------------------------------------------

/// `b` is `a` with the feedback line set and `req` queued for the host.
pub open spec fn said_and_asked(a: App, text: Seq<char>, error: bool, ttl: int, req: HostRequest, b: App) -> bool {
    &&& b == App { admin_feedback: b.admin_feedback, requests: b.requests, ..a }
    &&& feedback_is(b.admin_feedback, text, error, a.tick_count + ttl)
    &&& host_queued(a.requests, b.requests, true, req)
}

fn say(app: &mut App, text: String, error: bool, ttl: u64)
    requires
        old(app).wf(),
        old(app).counters_ok(),
        ttl <= 2 * ADMIN_FEEDBACK_TICKS,
    ensures
        feedback_set(*old(app), *final(app), text@, error, ttl as int),
        final(app).wf(),
        final(app).counters_ok(),
{
    set_feedback(app, text, error, ttl);
}

fn say_and_ask(app: &mut App, text: String, error: bool, ttl: u64, req: HostRequest)
    requires
        old(app).wf(),
        old(app).counters_ok(),
        ttl <= 2 * ADMIN_FEEDBACK_TICKS,
    ensures
        said_and_asked(*old(app), text@, error, ttl as int, req, *final(app)),
        final(app).wf(),
{
    ask_host(app, req);
    set_feedback(app, text, error, ttl);
}

fn concat2(a: &str, b: &str) -> (r: String)
    ensures
        r@ == a@ + b@,
{
    let mut r = String::new();
    push_str(&mut r, a);
    push_str(&mut r, b);
    r
}

fn concat4(a: &str, b: &str, c: &str, d: &str) -> (r: String)
    ensures
        r@ == a@ + b@ + c@ + d@,
{
    let mut r = String::new();
    push_str(&mut r, a);
    push_str(&mut r, b);
    push_str(&mut r, c);
    push_str(&mut r, d);
    r
}

/// Tenths of the size in KiB, as `{:.1}` shows `bytes as f64 / 1024.0`:
/// the byte count rounded to the nearest `f64`, divided exactly by 1024,
/// rounded half to even at one decimal.
pub open spec fn kib_tenths(bytes: nat) -> nat {
    round_half_even(to_binary64(bytes) * 10, 1024)
}

/// "Recording saved (12 frames, 3.4 KB): /path".
pub open spec fn saved_text(path: Seq<char>, frames: nat, bytes: nat) -> Seq<char> {
    "Recording saved ("@ + decimal(frames) + " frames, "@ + tenths_text(kib_tenths(bytes)) + " KB): "@ + path
}

fn saved_message(path: &str, frames: u64, bytes: u64) -> (r: String)
    ensures
        r@ == saved_text(path@, frames as nat, bytes as nat),
{
    let b = to_binary64_u64(bytes);
    let t = round_half_even_u128(b * 10, 1024);
    let mut r = String::new();
    push_str(&mut r, "Recording saved (");
    push_decimal(&mut r, frames as u128);
    push_str(&mut r, " frames, ");
    push_tenths(&mut r, t);
    push_str(&mut r, " KB): ");
    push_str(&mut r, path);
    r
}

/// "Replaying <file> (Space: pause, ←/→: step, Esc: exit replay)".
pub open spec fn replaying_text(filename: Seq<char>) -> Seq<char> {
    "Replaying "@ + filename + " (Space: pause, \u{2190}/\u{2192}: step, Esc: exit replay)"@
}

/// The replay of a loaded recording, paused on nothing, playing at 1x from
/// its first frame.
pub open spec fn fresh_replay(r: Replay, frames: Seq<Arc<Snapshot>>) -> bool {
    r.frames@ == frames && r.current_idx == 0 && !r.is_paused && !r.loop_playback && r.speed_exp == 0
}

/// A loaded recording: with frames, the live snapshot is kept aside,
/// replay starts on the first frame on the Macro Lens and the frame clock
/// restarts; without frames, the file is reported empty.
pub open spec fn recording_loaded(a: App, filename: Seq<char>, frames: Seq<Arc<Snapshot>>, b: App) -> bool {
    if frames.len() > 0 {
        exists|m: App|
            #[trigger] snapshot_applied(
                App { live_mode_saved_snapshot: Some(a.snapshot), replay: m.replay, ..a },
                frames[0],
                m,
            ) && (m.replay matches Some(r) && fresh_replay(r, frames)) && said_and_asked(
                App { active_tab: Tab::MacroLens, ..m },
                replaying_text(filename),
                false,
                2 * ADMIN_FEEDBACK_TICKS,
                HostRequest::RestartFrameClock,
                b,
            )
    } else {
        feedback_set(a, b, "File "@ + filename + " contains no snapshots"@, true, 2 * ADMIN_FEEDBACK_TICKS)
    }
}

fn enter_replay(app: &mut App, frames: Vec<Arc<Snapshot>>)
    requires
        old(app).wf(),
        frames_ok(frames@),
        frames@.len() > 0,
    ensures
        *final(app) == (App { live_mode_saved_snapshot: Some(old(app).snapshot), replay: final(app).replay, ..*old(app) }),
        final(app).replay matches Some(r) && fresh_replay(r, frames@),
        final(app).wf(),
{
    proof {
        lemma_wf_parts(*old(app));
    }
    let live = crate::app::share(&app.snapshot);
    app.live_mode_saved_snapshot = Some(live);
    app.replay = Some(Replay { frames, current_idx: 0, is_paused: false, loop_playback: false, speed_exp: 0 });
    proof {
        lemma_wf_parts(*app);
    }
}

fn show_first_frame(app: &mut App)
    requires
        old(app).wf(),
        old(app).tick_count <= TICK_HEADROOM,
        old(app).replay matches Some(r) && r.frames@.len() > 0,
    ensures
        snapshot_applied(*old(app), old(app).replay->0.frames@[0], *final(app)),
        final(app).wf(),
{
    proof {
        lemma_wf_parts(*old(app));
    }
    let first = match &app.replay {
        Some(r) => crate::app::share(&r.frames[0]),
        None => {
            return;
        },
    };
    apply_snapshot(app, first);
    proof {
        lemma_wf_parts(*app);
    }
}

fn to_macro(app: &mut App)
    requires
        old(app).wf(),
    ensures
        *final(app) == (App { active_tab: Tab::MacroLens, ..*old(app) }),
        final(app).wf(),
{
    app.active_tab = Tab::MacroLens;
}

fn start_replay(app: &mut App, filename: String, frames: Vec<Arc<Snapshot>>)
    requires
        old(app).wf(),
        old(app).counters_ok(),
        frames_ok(frames@),
        frames@.len() > 0,
    ensures
        recording_loaded(*old(app), filename@, frames@, *final(app)),
        final(app).wf(),
{
    let ghost fs = frames@;
    enter_replay(app, frames);
    let ghost pre = *app;
    show_first_frame(app);
    let ghost m = *app;
    to_macro(app);
    let mut t = String::new();
    push_str(&mut t, "Replaying ");
    push_str(&mut t, filename.as_str());
    push_str(&mut t, " (Space: pause, \u{2190}/\u{2192}: step, Esc: exit replay)");
    say_and_ask(app, t, false, 2 * ADMIN_FEEDBACK_TICKS, HostRequest::RestartFrameClock);
    assert(snapshot_applied(
        App { live_mode_saved_snapshot: Some(old(app).snapshot), replay: m.replay, ..*old(app) },
        fs[0],
        m,
    ));
}

fn load_recording(app: &mut App, filename: String, frames: Vec<Arc<Snapshot>>)
    requires
        old(app).wf(),
        old(app).counters_ok(),
        frames_ok(frames@),
    ensures
        recording_loaded(*old(app), filename@, frames@, *final(app)),
        final(app).wf(),
{
    if frames.len() > 0 {
        start_replay(app, filename, frames);
    } else {
        let mut t = String::new();
        push_str(&mut t, "File ");
        push_str(&mut t, filename.as_str());
        push_str(&mut t, " contains no snapshots");
        say(app, t, true, 2 * ADMIN_FEEDBACK_TICKS);
    }
}

/// The recordings found on disk replace the Records Lens's list; its
/// order is recomputed and the cursors clamped.
pub open spec fn records_listed(a: App, v: Seq<RecordEntry>, b: App) -> bool {
    &&& b.records@ == v
    &&& b == clamp_result(App { records: b.records, orders: Orders { records: b.orders.records, ..a.orders }, ..a })
    &&& records_fresh(b.records@, b.filters.records.text@, b.sort.records, b.orders.records@)
}

fn list_records(app: &mut App, v: Vec<RecordEntry>)
    requires
        old(app).wf(),
    ensures
        records_listed(*old(app), v@, *final(app)),
        final(app).wf(),
{
    proof {
        lemma_wf_parts(*old(app));
    }
    app.records = v;
    resort_records(app);
    clamp_selection(app);
    proof {
        lemma_wf_parts(*app);
    }
}

/// The copy toast; when it lands on an export or recording message, that
/// message keeps its text with the toast in brackets.
pub open spec fn copied_text(existing: Option<AdminFeedback>, toast: Seq<char>) -> Seq<char> {
    match existing {
        Some(f) => if contains_seq(f.text@, "Exported snapshot"@) || contains_seq(f.text@, "Recording saved"@) {
            f.text@ + " ("@ + toast + ")"@
        } else {
            toast
        },
        None => toast,
    }
}

fn copy_of(s: &str) -> (r: String)
    ensures
        r@ == s@,
{
    let mut r = String::new();
    push_str(&mut r, s);
    r
}

fn copied_message(existing: &Option<AdminFeedback>, toast: &str) -> (r: String)
    ensures
        r@ == copied_text(*existing, toast@),
{
    match existing {
        Some(f) => {
            if str_contains(f.text.as_str(), "Exported snapshot") || str_contains(f.text.as_str(), "Recording saved") {
                concat4(f.text.as_str(), " (", toast, ")")
            } else {
                copy_of(toast)
            }
        },
        None => copy_of(toast),
    }
}

// ---------------------------------------------------------------------
// Ticks
// ---------------------------------------------------------------------

/// One tick: the counter advances and expired feedback disappears.
pub open spec fn ticked(a: App) -> App {
    let t = (a.tick_count + 1) as u64;
    App {
        tick_count: t,
        admin_feedback: match a.admin_feedback {
            Some(f) => if t >= f.expires_at_tick {
                None
            } else {
                a.admin_feedback
            },
            None => None,
        },
        ..a
    }
}

/// The replay's next frame goes on screen, wrapping to the first when
/// looping; on the last frame without looping, replay pauses.
#[verifier::opaque]
pub open spec fn frame_stepped(a: App, b: App) -> bool {
    let r = a.replay->0;
    let n = r.frames@.len();
    if r.current_idx + 1 < n {
        snapshot_applied(
            App { replay: Some(Replay { current_idx: (r.current_idx + 1) as usize, ..r }), ..a },
            r.frames@[r.current_idx + 1],
            b,
        )
    } else if r.loop_playback {
        snapshot_applied(App { replay: Some(Replay { current_idx: 0, ..r }), ..a }, r.frames@[0], b)
    } else {
        b == App { replay: Some(Replay { is_paused: true, ..r }), ..a }
    }
}

/// A playing replay whose frame interval elapsed restarts its frame clock
/// and steps a frame.
pub open spec fn replay_advanced(a: App, b: App) -> bool {
    exists|m: App| #[trigger] host_asked(a, HostRequest::RestartFrameClock, m) && frame_stepped(m, b)
}

/// `Tick { frame_due }`.
#[verifier::opaque]
pub open spec fn tick_result(a: App, frame_due: bool, b: App) -> bool {
    let m = ticked(a);
    match m.replay {
        Some(r) => if !r.is_paused && r.frames@.len() > 1 && frame_due {
            replay_advanced(m, b)
        } else {
            b == m
        },
        None => b == m,
    }
}

fn bump_tick(app: &mut App)
    requires
        old(app).wf(),
        old(app).counters_ok(),
    ensures
        *final(app) == (App { tick_count: (old(app).tick_count + 1) as u64, ..*old(app) }),
        final(app).wf(),
{
    app.tick_count = app.tick_count + 1;
}

fn expire_feedback(app: &mut App)
    requires
        old(app).wf(),
    ensures
        *final(app) == (App {
            admin_feedback: match old(app).admin_feedback {
                Some(f) => if old(app).tick_count >= f.expires_at_tick {
                    None
                } else {
                    old(app).admin_feedback
                },
                None => None,
            },
            ..*old(app)
        }),
        final(app).wf(),
{
    let expired = match &app.admin_feedback {
        Some(f) => app.tick_count >= f.expires_at_tick,
        None => false,
    };
    if expired {
        app.admin_feedback = None;
    }
}

fn tick(app: &mut App)
    requires
        old(app).wf(),
        old(app).counters_ok(),
    ensures
        *final(app) == ticked(*old(app)),
        final(app).wf(),
        final(app).tick_count <= TICK_HEADROOM,
{
    bump_tick(app);
    expire_feedback(app);
}

fn show_frame(app: &mut App, idx: usize)
    requires
        old(app).wf(),
        old(app).tick_count <= TICK_HEADROOM,
        old(app).replay matches Some(r) && idx < r.frames@.len(),
    ensures
        snapshot_applied(
            App { replay: Some(Replay { current_idx: idx, ..old(app).replay->0 }), ..*old(app) },
            old(app).replay->0.frames@[idx as int],
            *final(app),
        ),
        final(app).wf(),
{
    proof {
        lemma_wf_parts(*old(app));
    }
    let mut r = app.replay.take().unwrap();
    let snap = crate::app::share(&r.frames[idx]);
    r.current_idx = idx;
    app.replay = Some(r);
    proof {
        lemma_wf_parts(*app);
    }
    apply_snapshot(app, snap);
    proof {
        lemma_wf_parts(*app);
    }
}

fn park_replay(app: &mut App)
    requires
        old(app).wf(),
        old(app).replay is Some,
    ensures
        *final(app) == (App { replay: Some(Replay { is_paused: true, ..old(app).replay->0 }), ..*old(app) }),
        final(app).wf(),
{
    proof {
        lemma_wf_parts(*old(app));
    }
    let mut r = app.replay.take().unwrap();
    r.is_paused = true;
    app.replay = Some(r);
    proof {
        lemma_wf_parts(*app);
    }
}

fn step_next(app: &mut App)
    requires
        old(app).wf(),
        old(app).tick_count <= TICK_HEADROOM,
        old(app).replay matches Some(r) && r.current_idx + 1 < r.frames@.len(),
    ensures
        frame_stepped(*old(app), *final(app)),
        final(app).wf(),
{
    proof {
        reveal(frame_stepped);
    }
    let (idx, n) = match &app.replay {
        Some(r) => (r.current_idx, r.frames.len()),
        None => {
            return;
        },
    };
    assert(idx + 1 < n);
    show_frame(app, idx + 1);
}

fn step_wrap(app: &mut App)
    requires
        old(app).wf(),
        old(app).tick_count <= TICK_HEADROOM,
        old(app).replay matches Some(r) && r.current_idx + 1 >= r.frames@.len() && r.loop_playback,
    ensures
        frame_stepped(*old(app), *final(app)),
        final(app).wf(),
{
    proof {
        reveal(frame_stepped);
        lemma_wf_parts(*old(app));
    }
    show_frame(app, 0);
}

fn step_stop(app: &mut App)
    requires
        old(app).wf(),
        old(app).replay matches Some(r) && r.current_idx + 1 >= r.frames@.len() && !r.loop_playback,
    ensures
        frame_stepped(*old(app), *final(app)),
        final(app).wf(),
{
    proof {
        reveal(frame_stepped);
    }
    park_replay(app);
}

fn next_frame(app: &mut App)
    requires
        old(app).wf(),
        old(app).tick_count <= TICK_HEADROOM,
        old(app).replay is Some,
    ensures
        frame_stepped(*old(app), *final(app)),
        final(app).wf(),
{
    let (idx, n, looping) = match &app.replay {
        Some(r) => (r.current_idx, r.frames.len(), r.loop_playback),
        None => {
            return;
        },
    };
    if idx < n && idx + 1 < n {
        step_next(app);
    } else if looping {
        proof {
            lemma_wf_parts(*old(app));
        }
        step_wrap(app);
    } else {
        proof {
            lemma_wf_parts(*old(app));
        }
        step_stop(app);
    }
}

fn advance_replay(app: &mut App)
    requires
        old(app).wf(),
        old(app).tick_count <= TICK_HEADROOM,
        old(app).replay is Some,
    ensures
        replay_advanced(*old(app), *final(app)),
        final(app).wf(),
{
    ask_host(app, HostRequest::RestartFrameClock);
    let ghost m = *app;
    next_frame(app);
    assert(host_asked(*old(app), HostRequest::RestartFrameClock, m));
}

fn on_tick(app: &mut App, frame_due: bool)
    requires
        old(app).wf(),
        old(app).counters_ok(),
    ensures
        tick_result(*old(app), frame_due, *final(app)),
        final(app).wf(),
{
    proof {
        reveal(tick_result);
    }
    tick(app);
    let due = match &app.replay {
        Some(r) => !r.is_paused && r.frames.len() > 1 && frame_due,
        None => false,
    };
    if due {
        advance_replay(app);
    }
}

fn set_clock(app: &mut App, now_ms: u64)
    requires
        old(app).wf(),
    ensures
        *final(app) == (App { clock_ms: now_ms, ..*old(app) }),
        final(app).wf(),
{
    app.clock_ms = now_ms;
}

fn on_tick_at(app: &mut App, frame_due: bool, now_ms: u64)
    requires
        old(app).wf(),
        old(app).counters_ok(),
    ensures
        tick_result(App { clock_ms: now_ms, ..*old(app) }, frame_due, *final(app)),
        final(app).wf(),
{
    set_clock(app, now_ms);
    on_tick(app, frame_due);
}

// ---------------------------------------------------------------------
// update
// ---------------------------------------------------------------------

/// An action the model can take: every snapshot it would show is one it
/// can show.
pub open spec fn action_ok(action: Action) -> bool {
    match action {
        Action::Snapshot(s, _) => snapshot_ok(*s),
        Action::RecordingLoaded { frames, .. } => frames_ok(frames@),
        _ => true,
    }
}

/// What `update` does with each action.
pub open spec fn updated(a: App, action: Action, b: App) -> bool {
    let fb = 2 * ADMIN_FEEDBACK_TICKS as int;
    match action {
        Action::Key(k) => key_result(a, k, b),
        Action::Resize => b == a,
        Action::Snapshot(s, at_ms) => if a.paused {
            b == App { pending_snapshot: Some(s), clock_ms: at_ms, ..a }
        } else {
            snapshot_applied(App { clock_ms: at_ms, ..a }, s, b)
        },
        Action::HostLabel(label) => b == App { host: label, ..a },
        Action::PsqlResult { text, error } => feedback_set(a, b, text@, error, ADMIN_FEEDBACK_TICKS as int),
        Action::ClipboardCopied { text } => feedback_set(
            a,
            b,
            copied_text(a.admin_feedback, text@),
            false,
            ADMIN_FEEDBACK_TICKS as int,
        ),
        Action::Tick { frame_due, now_ms } => tick_result(App { clock_ms: now_ms, ..a }, frame_due, b),
        Action::Quit => if a.recording_active {
            host_asked(App { recording_active: false, should_quit: true, ..a }, HostRequest::StopRecording, b)
        } else {
            b == App { should_quit: true, ..a }
        },
        Action::RecordsListed(v) => records_listed(a, v@, b),
        Action::RecordingStarted => said_and_asked(
            App { recording_active: true, ..a },
            "\u{25cf} Recording started (Shift+R to stop)"@,
            false,
            ADMIN_FEEDBACK_TICKS as int,
            HostRequest::RefreshRecords,
            b,
        ),
        Action::RecordingStartFailed { message } => feedback_set(a, b, "Recording failed to start: "@ + message@, true, fb),
        Action::RecordingSaved { path, frame_count, bytes } => said_and_asked(
            App { requests: Requests { clipboard: Some(path), ..a.requests }, ..a },
            saved_text(path@, frame_count as nat, bytes as nat),
            false,
            fb,
            HostRequest::RefreshRecords,
            b,
        ),
        Action::RecordingSaveFailed { message } => feedback_set(a, b, "Recording save failed: "@ + message@, true, fb),
        Action::RecordingRotated { path } => said_and_asked(
            a,
            "Recording rotated to "@ + path@,
            false,
            fb,
            HostRequest::RefreshRecords,
            b,
        ),
        Action::RecordingWriteFailed { message } => feedback_set(a, b, "Recording write failed: "@ + message@, true, fb),
        Action::Exported { path } => said_and_asked(
            App { requests: Requests { clipboard: Some(path), ..a.requests }, ..a },
            "Exported snapshot to "@ + path@,
            false,
            fb,
            HostRequest::RefreshRecords,
            b,
        ),
        Action::ExportFailed { message } => feedback_set(a, b, "Snapshot export failed: "@ + message@, true, fb),
        Action::RecordingLoaded { filename, frames } => recording_loaded(a, filename@, frames@, b),
        Action::RecordingLoadFailed { filename, message } => feedback_set(
            a,
            b,
            "Failed to read "@ + filename@ + ": "@ + message@,
            true,
            fb,
        ),
        Action::RecordingDeleted { filename } => said_and_asked(
            a,
            "Deleted recording: "@ + filename@,
            false,
            fb,
            HostRequest::RefreshRecords,
            b,
        ),
        Action::RecordingDeleteFailed { filename, message } => feedback_set(
            a,
            b,
            "Failed to delete "@ + filename@ + ": "@ + message@,
            true,
            fb,
        ),
    }
}

fn park_snapshot(app: &mut App, s: Arc<Snapshot>)
    requires
        old(app).wf(),
        snapshot_ok(*s),
    ensures
        *final(app) == (App { pending_snapshot: Some(s), ..*old(app) }),
        final(app).wf(),
{
    proof {
        lemma_wf_parts(*old(app));
    }
    app.pending_snapshot = Some(s);
    proof {
        lemma_wf_parts(*app);
    }
}

fn on_snapshot(app: &mut App, s: Arc<Snapshot>)
    requires
        old(app).wf(),
        old(app).counters_ok(),
        snapshot_ok(*s),
    ensures
        if old(app).paused {
            *final(app) == App { pending_snapshot: Some(s), ..*old(app) }
        } else {
            snapshot_applied(*old(app), s, *final(app))
        },
        final(app).wf(),
{
    if app.paused {
        park_snapshot(app, s);
    } else {
        apply_snapshot(app, s);
        proof {
            lemma_wf_parts(*old(app));
            lemma_wf_parts(*app);
        }
    }
}

fn on_snapshot_at(app: &mut App, s: Arc<Snapshot>, at_ms: u64)
    requires
        old(app).wf(),
        old(app).counters_ok(),
        snapshot_ok(*s),
    ensures
        if old(app).paused {
            *final(app) == App { pending_snapshot: Some(s), clock_ms: at_ms, ..*old(app) }
        } else {
            snapshot_applied(App { clock_ms: at_ms, ..*old(app) }, s, *final(app))
        },
        final(app).wf(),
{
    set_clock(app, at_ms);
    on_snapshot(app, s);
}

fn set_host(app: &mut App, label: String)
    requires
        old(app).wf(),
    ensures
        *final(app) == (App { host: label, ..*old(app) }),
        final(app).wf(),
{
    app.host = label;
}

fn on_quit(app: &mut App)
    requires
        old(app).wf(),
    ensures
        if old(app).recording_active {
            host_asked(App { recording_active: false, should_quit: true, ..*old(app) }, HostRequest::StopRecording, *final(app))
        } else {
            *final(app) == App { should_quit: true, ..*old(app) }
        },
        final(app).wf(),
{
    app.should_quit = true;
    if app.recording_active {
        app.recording_active = false;
        ask_host(app, HostRequest::StopRecording);
    }
}

fn on_recording_started(app: &mut App)
    requires
        old(app).wf(),
        old(app).counters_ok(),
    ensures
        said_and_asked(
            App { recording_active: true, ..*old(app) },
            "\u{25cf} Recording started (Shift+R to stop)"@,
            false,
            ADMIN_FEEDBACK_TICKS as int,
            HostRequest::RefreshRecords,
            *final(app),
        ),
        final(app).wf(),
{
    app.recording_active = true;
    let mut t = String::new();
    push_str(&mut t, "\u{25cf} Recording started (Shift+R to stop)");
    say_and_ask(app, t, false, ADMIN_FEEDBACK_TICKS, HostRequest::RefreshRecords);
}

fn set_clipboard(app: &mut App, path: String)
    requires
        old(app).wf(),
    ensures
        *final(app) == (App { requests: Requests { clipboard: Some(path), ..old(app).requests }, ..*old(app) }),
        final(app).wf(),
{
    app.requests.clipboard = Some(path);
}

fn on_recording_saved(app: &mut App, path: String, frame_count: u64, bytes: u64)
    requires
        old(app).wf(),
        old(app).counters_ok(),
    ensures
        said_and_asked(
            App { requests: Requests { clipboard: Some(path), ..old(app).requests }, ..*old(app) },
            saved_text(path@, frame_count as nat, bytes as nat),
            false,
            2 * ADMIN_FEEDBACK_TICKS as int,
            HostRequest::RefreshRecords,
            *final(app),
        ),
        final(app).wf(),
{
    let t = saved_message(path.as_str(), frame_count, bytes);
    set_clipboard(app, path);
    say_and_ask(app, t, false, 2 * ADMIN_FEEDBACK_TICKS, HostRequest::RefreshRecords);
}

fn on_exported(app: &mut App, path: String)
    requires
        old(app).wf(),
        old(app).counters_ok(),
    ensures
        said_and_asked(
            App { requests: Requests { clipboard: Some(path), ..old(app).requests }, ..*old(app) },
            "Exported snapshot to "@ + path@,
            false,
            2 * ADMIN_FEEDBACK_TICKS as int,
            HostRequest::RefreshRecords,
            *final(app),
        ),
        final(app).wf(),
{
    let t = concat2("Exported snapshot to ", path.as_str());
    set_clipboard(app, path);
    say_and_ask(app, t, false, 2 * ADMIN_FEEDBACK_TICKS, HostRequest::RefreshRecords);
}

/// The single mutation point of the model.
#[verifier::rlimit(50)]
pub fn update(app: &mut App, action: Action)
    requires
        old(app).wf(),
        old(app).counters_ok(),
        action_ok(action),
    ensures
        updated(*old(app), action, *final(app)),
        final(app).wf(),
{
    let fb = 2 * ADMIN_FEEDBACK_TICKS;
    match action {
        Action::Key(k) => handle_key(app, k),
        Action::Resize => {},
        Action::Snapshot(s, at_ms) => on_snapshot_at(app, s, at_ms),
        Action::HostLabel(label) => set_host(app, label),
        Action::PsqlResult { text, error } => say(app, text, error, ADMIN_FEEDBACK_TICKS),
        Action::ClipboardCopied { text } => {
            let t = copied_message(&app.admin_feedback, text.as_str());
            say(app, t, false, ADMIN_FEEDBACK_TICKS);
        },
        Action::Tick { frame_due, now_ms } => on_tick_at(app, frame_due, now_ms),
        Action::Quit => on_quit(app),
        Action::RecordsListed(v) => list_records(app, v),
        Action::RecordingStarted => on_recording_started(app),
        Action::RecordingStartFailed { message } => {
            say(app, concat2("Recording failed to start: ", message.as_str()), true, fb);
        },
        Action::RecordingSaved { path, frame_count, bytes } => on_recording_saved(app, path, frame_count, bytes),
        Action::RecordingSaveFailed { message } => {
            say(app, concat2("Recording save failed: ", message.as_str()), true, fb);
        },
        Action::RecordingRotated { path } => {
            say_and_ask(app, concat2("Recording rotated to ", path.as_str()), false, fb, HostRequest::RefreshRecords);
        },
        Action::RecordingWriteFailed { message } => {
            say(app, concat2("Recording write failed: ", message.as_str()), true, fb);
        },
        Action::Exported { path } => on_exported(app, path),
        Action::ExportFailed { message } => {
            say(app, concat2("Snapshot export failed: ", message.as_str()), true, fb);
        },
        Action::RecordingLoaded { filename, frames } => load_recording(app, filename, frames),
        Action::RecordingLoadFailed { filename, message } => {
            say(app, concat4("Failed to read ", filename.as_str(), ": ", message.as_str()), true, fb);
        },
        Action::RecordingDeleted { filename } => {
            say_and_ask(app, concat2("Deleted recording: ", filename.as_str()), false, fb, HostRequest::RefreshRecords);
        },
        Action::RecordingDeleteFailed { filename, message } => {
            say(app, concat4("Failed to delete ", filename.as_str(), ": ", message.as_str()), true, fb);
        },
    }
}

// ---------------------------------------------------------------------
// Checks for the host, and the initial model
// ---------------------------------------------------------------------

fn growth_ok(sd: &crate::snapshot::SchemaData) -> (r: bool)
    ensures
        r == crate::rows::growth_in_range(*sd),
{
    let n = sd.tables.len();
    let mut i: usize = 0;
    while i < n
        invariant
            n == sd.tables@.len(),
            0 <= i <= n,
            forall|j: int| 0 <= j < i ==> #[trigger] sd.tables@[j].growth_1h_bytes != Some(i64::MIN),
        decreases n - i,
    {
        let bad = match sd.tables[i].growth_1h_bytes {
            Some(g) => g == i64::MIN,
            None => false,
        };
        if bad {
            assert(sd.tables@[i as int].growth_1h_bytes == Some(i64::MIN));
            assert(!crate::rows::growth_in_range(*sd));
            return false;
        }
        i = i + 1;
    }
    true
}

impl Snapshot {
    /// Whether the model can show this snapshot (no table reports a growth
    /// of `i64::MIN`, whose absolute value does not exist).
    pub fn is_showable(&self) -> (r: bool)
        ensures
            r == snapshot_ok(*self),
    {
        match &self.schema {
            Some(sd) => growth_ok(sd),
            None => true,
        }
    }
}

fn frames_showable(frames: &Vec<Arc<Snapshot>>) -> (r: bool)
    ensures
        r == frames_ok(frames@),
{
    let n = frames.len();
    let mut i: usize = 0;
    while i < n
        invariant
            n == frames@.len(),
            0 <= i <= n,
            forall|j: int| 0 <= j < i ==> snapshot_ok(*#[trigger] frames@[j]),
        decreases n - i,
    {
        let f: &Snapshot = &frames[i];
        if !f.is_showable() {
            return false;
        }
        i = i + 1;
    }
    true
}

/// Whether `update` can take this action (every snapshot it carries can
/// be shown).
pub fn action_is_valid(action: &Action) -> (r: bool)
    ensures
        r == action_ok(*action),
{
    match action {
        Action::Snapshot(s, _) => {
            let snap: &Snapshot = &s;
            snap.is_showable()
        },
        Action::RecordingLoaded { frames, .. } => frames_showable(frames),
        _ => true,
    }
}

impl App {
    /// Whether the tick and request counters leave room for one more
    /// `update` (they would overflow after about 2^64 ticks).
    pub fn counters_in_range(&self) -> (r: bool)
        ensures
            r == self.counters_ok(),
    {
        self.tick_count < TICK_HEADROOM && self.requests.schema_refresh < u64::MAX
    }

    /// The initial model: no data yet, the Macro Lens on screen, default
    /// sorts and views, no filter, every cursor on the first row (the
    /// first snapshot clamps it to its table), no snapshot stamp yet,
    /// polling every 2 s, and a rescan of the recordings on disk queued
    /// for the host.
    pub fn new() -> (r: App)
        ensures
            r.wf(),
            r.counters_ok(),
            initial_app(r),
    {
        let mut host = String::new();
        push_str(&mut host, "localhost");
        let mut app = App {
            active_tab: Tab::MacroLens,
            previous_tab: None,
            snapshot: Arc::new(Snapshot::empty()),
            sort: SortModes {
                activity: SortMode::Duration,
                schema: SchemaSortMode::TotalSize,
                statements: StatementsSortMode::TotalTime,
                records: RecordsSortMode::StartedDesc,
            },
            orders: Orders {
                activity: Vec::new(),
                schema: Vec::new(),
                sequences: Vec::new(),
                index: Vec::new(),
                replication: Vec::new(),
                statements: Vec::new(),
                progress: Vec::new(),
                records: Vec::new(),
            },
            cursors: Cursors {
                activity: Some(0),
                schema: Some(0),
                vacuum: Some(0),
                sequences: Some(0),
                index: Some(0),
                replication: Some(0),
                statements: Some(0),
                progress: Some(0),
                idle: Some(0),
                blocks_tree: Some(0),
                blocks_locks: Some(0),
                records: Some(0),
            },
            filters: Filters {
                micro: FilterEdit::new(),
                schema: FilterEdit::new(),
                query: FilterEdit::new(),
                progress: FilterEdit::new(),
                records: FilterEdit::new(),
                index: FilterEdit::new(),
            },
            schema_view: SchemaView::Tables,
            micro_view: MicroView::Activity,
            blocks_active_pane: BlocksPane::Tree,
            schema_show_partitions: false,
            records: Vec::new(),
            delete_record_target: None,
            live_mode_saved_snapshot: None,
            detail_open: false,
            table_detail_scroll: 0,
            waits_open: false,
            help_open: false,
            host,
            refresh_interval_ms: DEFAULT_REFRESH_MS,
            first_data_seen: false,
            clock_ms: 0,
            last_snapshot_at_ms: None,
            tick_count: 0,
            picker: None,
            picked: None,
            confirm: None,
            db_picker: None,
            is_mock: false,
            read_only: false,
            admin_feedback: None,
            admin_seen_epoch_ms: None,
            paused: false,
            pending_snapshot: None,
            esc_quit_armed_until: None,
            recording_active: false,
            replay: None,
            requests: Requests {
                schema_refresh: 0,
                pending_db_switch: None,
                pending_admin: Vec::new(),
                launch_psql: false,
                clipboard: None,
                table_detail: None,
                host: Vec::new(),
            },
            should_quit: false,
        };
        app.requests.host.push(HostRequest::RefreshRecords);
        proof {
            reveal(crate::app::activity_fresh);
            reveal(crate::app::schema_fresh);
            reveal(crate::app::sequences_fresh);
            reveal(crate::app::indexes_fresh);
            reveal(crate::app::replication_fresh);
            reveal(crate::app::statements_fresh);
            reveal(crate::app::progress_fresh);
            reveal(crate::app::records_fresh);
            lemma_wf_parts(app);
            reveal_strlit("localhost");
        }
        app
    }
}

/// The initial model's fields.
pub open spec fn initial_app(r: App) -> bool {
    &&& r.active_tab == Tab::MacroLens
    &&& r.previous_tab is None
    &&& !(*r.snapshot).status_ok
    &&& (*r.snapshot).activity@.len() == 0
    &&& (*r.snapshot).schema is None
    &&& (*r.snapshot).statements is None
    &&& (*r.snapshot).replication_slots is None
    &&& (*r.snapshot).idle_sessions is None
    &&& (*r.snapshot).blocking_tree is None
    &&& (*r.snapshot).active_locks is None
    &&& (*r.snapshot).progress@.len() == 0
    &&& (*r.snapshot).databases is None
    &&& (*r.snapshot).last_admin_action is None
    &&& r.sort == (SortModes {
        activity: SortMode::Duration,
        schema: SchemaSortMode::TotalSize,
        statements: StatementsSortMode::TotalTime,
        records: RecordsSortMode::StartedDesc,
    })
    &&& r.orders.activity@.len() == 0 && r.orders.schema@.len() == 0 && r.orders.sequences@.len() == 0
    &&& r.orders.index@.len() == 0 && r.orders.replication@.len() == 0 && r.orders.statements@.len() == 0
    &&& r.orders.progress@.len() == 0 && r.orders.records@.len() == 0
    &&& r.cursors == (Cursors {
        activity: Some(0),
        schema: Some(0),
        vacuum: Some(0),
        sequences: Some(0),
        index: Some(0),
        replication: Some(0),
        statements: Some(0),
        progress: Some(0),
        idle: Some(0),
        blocks_tree: Some(0),
        blocks_locks: Some(0),
        records: Some(0),
    })
    &&& r.filters.micro.text@.len() == 0 && !r.filters.micro.editing
    &&& r.filters.schema.text@.len() == 0 && !r.filters.schema.editing
    &&& r.filters.query.text@.len() == 0 && !r.filters.query.editing
    &&& r.filters.progress.text@.len() == 0 && !r.filters.progress.editing
    &&& r.filters.records.text@.len() == 0 && !r.filters.records.editing
    &&& r.filters.index.text@.len() == 0 && !r.filters.index.editing
    &&& r.filters.micro.saved@.len() == 0 && r.filters.schema.saved@.len() == 0
    &&& r.filters.query.saved@.len() == 0 && r.filters.progress.saved@.len() == 0
    &&& r.filters.records.saved@.len() == 0 && r.filters.index.saved@.len() == 0
    &&& (*r.snapshot).database@.len() == 0
    &&& r.schema_view == SchemaView::Tables
    &&& r.micro_view == MicroView::Activity
    &&& r.blocks_active_pane == BlocksPane::Tree
    &&& !r.schema_show_partitions
    &&& r.records@.len() == 0
    &&& r.delete_record_target is None
    &&& r.live_mode_saved_snapshot is None
    &&& !r.detail_open && r.table_detail_scroll == 0 && !r.waits_open && !r.help_open
    &&& r.host@ == "localhost"@
    &&& r.refresh_interval_ms == DEFAULT_REFRESH_MS
    &&& !r.first_data_seen && r.tick_count == 0 && r.clock_ms == 0 && r.last_snapshot_at_ms is None
    &&& r.picker is None && r.picked is None && r.confirm is None && r.db_picker is None
    &&& !r.is_mock && !r.read_only
    &&& r.admin_feedback is None && r.admin_seen_epoch_ms is None
    &&& !r.paused && r.pending_snapshot is None && r.esc_quit_armed_until is None
    &&& !r.recording_active && r.replay is None
    &&& r.requests.schema_refresh == 0 && r.requests.pending_db_switch is None
    &&& r.requests.pending_admin@.len() == 0 && !r.requests.launch_psql
    &&& r.requests.clipboard is None && r.requests.table_detail is None
    &&& r.requests.host@ == seq![HostRequest::RefreshRecords]
    &&& !r.should_quit
}

} // verus!
