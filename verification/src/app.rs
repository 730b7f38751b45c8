//! The dashboard's model and its single mutation point, [`update`]: lens
//! navigation, overlays (help, admin confirmation, database and service
//! pickers), per-lens filters and sort modes, table cursors, pause/resume,
//! replay stepping, and the requests handed to the host loop (psql launch,
//! clipboard copy, admin commands, database switch, table-detail fetch,
//! recording files).
use std::sync::Arc;
use vstd::prelude::*;
use vstd::string::*;
use crate::modes::{BlocksPane, MicroView, RecordsSortMode, SchemaSortMode, SchemaView, SortMode, StatementsSortMode, Tab};
use crate::order::is_display_order;
use crate::rows::{
    activity_keep, activity_keys, activity_order, growth_in_range, index_keep, index_keys,
    index_order, kept_rows, progress_keep, progress_order, record_keep, record_keys, record_order,
    sequence_keep, sequence_keys, sequence_order, slot_keys, slot_order, statement_keep,
    statement_keys, statement_order, table_keep, table_keys, table_order, keep_all,
};
use crate::snapshot::{
    ActivityRow, AdminCommand, AdminKind, AdminOutcome, AdminResult, FlattenedNode, ColumnRow,
    DatabaseRow, IndexRow, LockRow, ProgressRow, RecordEntry, SchemaData, SequenceRow, Snapshot,
    StatementRow, TableDetail, TableStatRow,
};
use crate::text::{contains_seq, push_char, push_decimal, push_signed_decimal, push_str, signed_decimal, str_contains, str_eq};

verus! {

/// Poll interval bounds and step for `+`/`-`, in milliseconds.
pub const DEFAULT_REFRESH_MS: u64 = 2000;
pub const REFRESH_STEP_MS: u64 = 500;
pub const REFRESH_MIN_MS: u64 = 500;
pub const REFRESH_MAX_MS: u64 = 10000;

/// How long admin feedback stays on screen, in 250 ms ticks (about 10 s).
pub const ADMIN_FEEDBACK_TICKS: u64 = 40;

/// How long a first Esc stays armed for quitting, in ticks (about 2 s).
pub const ESC_QUIT_WINDOW_TICKS: u64 = 8;

/// `PageUp`/`PageDown` step, in rows.
pub const PAGE_SIZE: i64 = 10;

/// Ticks below which every deadline computed from the tick counter fits a
/// `u64`.
pub const TICK_HEADROOM: u64 = 0xFFFF_FFFF_FFFF_0000;

/// Soft cap of the table-detail overlay's scroll offset.
pub const DETAIL_SCROLL_CAP: u16 = 500;

/// The key that was pressed (the terminal's key code, as the model reads
/// it).
#[derive(Clone, Copy, Debug, PartialEq, Eq, Structural)]
pub enum Key {
    Char(char),
    Esc,
    Enter,
    Tab,
    BackTab,
    Backspace,
    Up,
    Down,
    Left,
    Right,
    PageUp,
    PageDown,
    Home,
    End,
    Delete,
    Other,
}

/// One key event: the key, whether Ctrl was held, and whether it is a
/// press (releases and repeats are ignored).
#[derive(Clone, Copy, Debug, PartialEq, Eq, Structural)]
pub struct KeyInput {
    pub code: Key,
    pub ctrl: bool,
    pub press: bool,
}

impl KeyInput {
    /// A plain key press without modifiers.
    pub fn press(code: Key) -> (r: KeyInput)
        ensures
            r == (KeyInput { code, ctrl: false, press: true }),
    {
        KeyInput { code, ctrl: false, press: true }
    }

    /// A key press with Ctrl held.
    pub fn ctrl(code: Key) -> (r: KeyInput)
        ensures
            r == (KeyInput { code, ctrl: true, press: true }),
    {
        KeyInput { code, ctrl: true, press: true }
    }
}

/// One selectable row of the startup service picker.
pub struct PickerEntry {
    pub name: String,
    pub detail: String,
    /// `Some(name)` resolves with that service; `None` is the default
    /// no-service resolution.
    pub service: Option<String>,
}

/// State of the startup service picker.
pub struct PickerState {
    pub entries: Vec<PickerEntry>,
    pub selected: usize,
}

impl PickerState {
    pub fn new(entries: Vec<PickerEntry>) -> (r: Self)
        ensures
            r.entries@ == entries@,
            r.selected == 0,
    {
        PickerState { entries, selected: 0 }
    }
}

/// Position of the first database named `name`, if any.
pub open spec fn first_database_named(entries: Seq<DatabaseRow>, name: Seq<char>, from: int) -> Option<int>
    decreases entries.len() - from,
{
    if from < 0 || from >= entries.len() {
        None
    } else if entries[from].name@ == name {
        Some(from)
    } else {
        first_database_named(entries, name, from + 1)
    }
}

/// State of the in-session database picker overlay.
pub struct DbPickerState {
    pub entries: Vec<DatabaseRow>,
    pub selected: usize,
}

impl DbPickerState {
    /// Starts on the currently connected database when it is listed, else
    /// on the first entry.
    pub fn new(entries: Vec<DatabaseRow>, current_database: &str) -> (r: Self)
        ensures
            r.entries@ == entries@,
            r.selected == (match first_database_named(entries@, current_database@, 0) {
                Some(i) => i,
                None => 0,
            }),
    {
        let n = entries.len();
        let mut i: usize = 0;
        while i < n
            invariant
                n == entries@.len(),
                0 <= i <= n,
                first_database_named(entries@, current_database@, 0) == first_database_named(
                    entries@,
                    current_database@,
                    i as int,
                ),
            decreases n - i,
        {
            if str_eq(entries[i].name.as_str(), current_database) {
                return DbPickerState { entries, selected: i };
            }
            i = i + 1;
        }
        DbPickerState { entries, selected: 0 }
    }
}

/// State of the admin confirmation modal.
pub struct ConfirmState {
    pub command: AdminCommand,
    pub username: String,
    pub database: String,
}

/// Transient feedback line, gone once the tick counter reaches
/// `expires_at_tick`.
pub struct AdminFeedback {
    pub text: String,
    pub error: bool,
    pub expires_at_tick: u64,
}

/// A queued on-demand table-structure request.
pub struct TableDetailRequest {
    pub oid: u32,
    pub schema: String,
    pub name: String,
}

/// The recording file a delete confirmation targets.
pub struct DeleteTarget {
    pub path: String,
    pub filename: String,
}

/// Offline replay of a recording: its frames and the playback position.
/// Playback speed is `2^speed_exp` (from 0.25x to 16x).
pub struct Replay {
    pub frames: Vec<Arc<Snapshot>>,
    pub current_idx: usize,
    pub is_paused: bool,
    pub loop_playback: bool,
    pub speed_exp: i8,
}

/// Work only the host loop can do (file and terminal I/O, timers); queued by
/// [`update`], performed by the host, whose outcome comes back as an
/// [`Action`].
pub enum HostRequest {
    /// Rescan the recordings and bookmarks on disk.
    RefreshRecords,
    /// Start a new incident recording of the current snapshot.
    StartRecording,
    /// Finish the recording in progress.
    StopRecording,
    /// Export the current snapshot as a bookmark.
    ExportSnapshot,
    /// Load a recording for replay.
    LoadRecording { path: String, filename: String },
    /// Delete a recording file.
    DeleteRecording { path: String, filename: String },
    /// Restart the replay frame clock.
    RestartFrameClock,
}

/// Everything that can happen, funneled through [`update`].
pub enum Action {
    Key(KeyInput),
    Resize,
    /// A snapshot from the poller, and the host's clock when it arrived.
    Snapshot(Arc<Snapshot>, u64),
    HostLabel(String),
    PsqlResult { text: String, error: bool },
    ClipboardCopied { text: String },
    /// One 250 ms tick; `frame_due` says the replay frame interval
    /// ([`replay_step_millis`]) has elapsed since the frame clock restarted,
    /// `now_ms` is the host's clock.
    Tick { frame_due: bool, now_ms: u64 },
    Quit,
    /// The recordings and bookmarks found on disk.
    RecordsListed(Vec<RecordEntry>),
    RecordingStarted,
    RecordingStartFailed { message: String },
    RecordingSaved { path: String, frame_count: u64, bytes: u64 },
    RecordingSaveFailed { message: String },
    RecordingRotated { path: String },
    RecordingWriteFailed { message: String },
    Exported { path: String },
    ExportFailed { message: String },
    RecordingLoaded { filename: String, frames: Vec<Arc<Snapshot>> },
    RecordingLoadFailed { filename: String, message: String },
    RecordingDeleted { filename: String },
    RecordingDeleteFailed { filename: String, message: String },
}


/// One lens's `/` filter: the committed text, the text saved when editing
/// began (restored by Esc), and whether it is being edited.
pub struct FilterEdit {
    pub text: String,
    pub saved: String,
    pub editing: bool,
}

impl FilterEdit {
    pub fn new() -> (r: Self)
        ensures
            r.text@ == Seq::<char>::empty(),
            r.saved@ == Seq::<char>::empty(),
            !r.editing,
    {
        FilterEdit { text: String::new(), saved: String::new(), editing: false }
    }
}

/// The per-lens filters (each lens has its own, so a search term never
/// leaks across lenses).
pub struct Filters {
    pub micro: FilterEdit,
    pub schema: FilterEdit,
    pub query: FilterEdit,
    pub progress: FilterEdit,
    pub records: FilterEdit,
    pub index: FilterEdit,
}

/// The per-lens sort modes.
#[derive(Clone, Copy, Debug, PartialEq, Eq, Structural)]
pub struct SortModes {
    pub activity: SortMode,
    pub schema: SchemaSortMode,
    pub statements: StatementsSortMode,
    pub records: RecordsSortMode,
}

/// Display order of each lens: indices into its rows.
pub struct Orders {
    pub activity: Vec<usize>,
    pub schema: Vec<usize>,
    pub sequences: Vec<usize>,
    pub index: Vec<usize>,
    pub replication: Vec<usize>,
    pub statements: Vec<usize>,
    pub progress: Vec<usize>,
    pub records: Vec<usize>,
}

/// Each table's cursor, a position in its display order.
#[derive(Clone, Copy, Debug, PartialEq, Eq, Structural)]
pub struct Cursors {
    pub activity: Option<usize>,
    pub schema: Option<usize>,
    pub vacuum: Option<usize>,
    pub sequences: Option<usize>,
    pub index: Option<usize>,
    pub replication: Option<usize>,
    pub statements: Option<usize>,
    pub progress: Option<usize>,
    pub idle: Option<usize>,
    pub blocks_tree: Option<usize>,
    pub blocks_locks: Option<usize>,
    pub records: Option<usize>,
}

/// Work queued for the host loop to forward or perform.
pub struct Requests {
    /// Times a schema re-collection was requested (`B`).
    pub schema_refresh: u64,
    pub pending_db_switch: Option<String>,
    pub pending_admin: Vec<AdminCommand>,
    pub launch_psql: bool,
    pub clipboard: Option<String>,
    pub table_detail: Option<TableDetailRequest>,
    pub host: Vec<HostRequest>,
}

/// The model: pure state, no I/O.
pub struct App {
    pub active_tab: Tab,
    pub previous_tab: Option<Tab>,
    pub snapshot: Arc<Snapshot>,
    pub sort: SortModes,
    pub orders: Orders,
    pub cursors: Cursors,
    pub filters: Filters,
    pub schema_view: SchemaView,
    pub micro_view: MicroView,
    pub blocks_active_pane: BlocksPane,
    pub schema_show_partitions: bool,
    pub records: Vec<RecordEntry>,
    pub delete_record_target: Option<DeleteTarget>,
    pub live_mode_saved_snapshot: Option<Arc<Snapshot>>,
    pub detail_open: bool,
    pub table_detail_scroll: u16,
    pub waits_open: bool,
    pub help_open: bool,
    pub host: String,
    pub refresh_interval_ms: u64,
    /// Set by the first `Ok` snapshot, never cleared.
    pub first_data_seen: bool,
    /// The host's clock (milliseconds) at the latest tick or snapshot
    /// arrival.
    pub clock_ms: u64,
    /// When the snapshot on screen was put there (host milliseconds);
    /// `None` before the first one. A frozen view keeps its stamp, so the
    /// staleness keeps counting up.
    pub last_snapshot_at_ms: Option<u64>,
    pub tick_count: u64,
    pub picker: Option<PickerState>,
    pub picked: Option<PickerEntry>,
    pub confirm: Option<ConfirmState>,
    pub db_picker: Option<DbPickerState>,
    pub is_mock: bool,
    pub read_only: bool,
    pub admin_feedback: Option<AdminFeedback>,
    pub admin_seen_epoch_ms: Option<u64>,
    pub paused: bool,
    pub pending_snapshot: Option<Arc<Snapshot>>,
    pub esc_quit_armed_until: Option<u64>,
    pub recording_active: bool,
    pub replay: Option<Replay>,
    pub requests: Requests,
    pub should_quit: bool,
}

/// A cursor is valid for a table of `len` rows: no selection, a row that
/// exists, or the first row (the selection a new model starts with, kept
/// until the first snapshot clamps it).
pub open spec fn sel_ok(sel: Option<usize>, len: int) -> bool {
    match sel {
        Some(s) => s < len || s == 0,
        None => true,
    }
}

/// A snapshot the model can hold.
pub open spec fn snapshot_ok(s: Snapshot) -> bool {
    match s.schema {
        Some(sd) => growth_in_range(sd),
        None => true,
    }
}

pub open spec fn opt_snapshot_ok(s: Option<Arc<Snapshot>>) -> bool {
    match s {
        Some(a) => snapshot_ok(*a),
        None => true,
    }
}

pub open spec fn frames_ok(frames: Seq<Arc<Snapshot>>) -> bool {
    forall|i: int| 0 <= i < frames.len() ==> snapshot_ok(*#[trigger] frames[i])
}

/// Rows of the wait-for tree (pre-order).
pub open spec fn tree_len(s: Snapshot) -> int {
    match s.blocking_tree {
        Some(t) => t@.len() as int,
        None => 0,
    }
}

pub open spec fn locks_len(s: Snapshot) -> int {
    match s.active_locks {
        Some(l) => l@.len() as int,
        None => 0,
    }
}

pub open spec fn vacuum_len(s: Snapshot) -> int {
    match s.schema {
        Some(sd) => sd.vacuum_tables@.len() as int,
        None => 0,
    }
}

pub open spec fn idle_len(s: Snapshot) -> int {
    match s.idle_sessions {
        Some(n) => n as int,
        None => 0,
    }
}

/// Micro Lens rows: the activity rows matching the filter, in sort order.
#[verifier::opaque]
pub open spec fn activity_fresh(s: Snapshot, filter: Seq<char>, mode: SortMode, order: Seq<usize>) -> bool {
    is_display_order(activity_keys(s.activity@, mode), activity_keep(s.activity@, filter), s.activity@.len() as int, order)
}

#[verifier::opaque]
pub open spec fn schema_fresh(s: Snapshot, filter: Seq<char>, show_partitions: bool, mode: SchemaSortMode, order: Seq<usize>) -> bool {
    match s.schema {
        Some(sd) => is_display_order(
            table_keys(sd, mode),
            table_keep(sd.tables@, filter, show_partitions),
            sd.tables@.len() as int,
            order,
        ),
        None => order.len() == 0,
    }
}

#[verifier::opaque]
pub open spec fn sequences_fresh(s: Snapshot, filter: Seq<char>, order: Seq<usize>) -> bool {
    match s.schema {
        Some(sd) => is_display_order(
            sequence_keys(sd.sequences@),
            sequence_keep(sd.sequences@, filter),
            sd.sequences@.len() as int,
            order,
        ),
        None => order.len() == 0,
    }
}

#[verifier::opaque]
pub open spec fn indexes_fresh(s: Snapshot, filter: Seq<char>, order: Seq<usize>) -> bool {
    match s.schema {
        Some(sd) => is_display_order(
            index_keys(sd.indexes@),
            index_keep(sd.indexes@, filter),
            sd.indexes@.len() as int,
            order,
        ),
        None => order.len() == 0,
    }
}

#[verifier::opaque]
pub open spec fn replication_fresh(s: Snapshot, order: Seq<usize>) -> bool {
    match s.replication_slots {
        Some(slots) => is_display_order(slot_keys(slots@), keep_all(), slots@.len() as int, order),
        None => order.len() == 0,
    }
}

#[verifier::opaque]
pub open spec fn statements_fresh(s: Snapshot, filter: Seq<char>, mode: StatementsSortMode, order: Seq<usize>) -> bool {
    match s.statements {
        Some(st) => is_display_order(
            statement_keys(st@, mode),
            statement_keep(st@, filter),
            st@.len() as int,
            order,
        ),
        None => order.len() == 0,
    }
}

#[verifier::opaque]
pub open spec fn progress_fresh(s: Snapshot, filter: Seq<char>, order: Seq<usize>) -> bool {
    kept_rows(progress_keep(s.progress@, filter), s.progress@.len() as int, order)
}

#[verifier::opaque]
pub open spec fn records_fresh(records: Seq<RecordEntry>, filter: Seq<char>, mode: RecordsSortMode, order: Seq<usize>) -> bool {
    is_display_order(record_keys(records, mode), record_keep(records, filter), records.len() as int, order)
}

impl App {
    /// Every lens's display order is its filter's matching rows in its sort
    /// order, for the snapshot on screen.
    pub open spec fn orders_fresh(&self) -> bool {
        &&& activity_fresh(*self.snapshot, self.filters.micro.text@, self.sort.activity, self.orders.activity@)
        &&& schema_fresh(*self.snapshot, self.filters.schema.text@, self.schema_show_partitions, self.sort.schema, self.orders.schema@)
        &&& sequences_fresh(*self.snapshot, self.filters.schema.text@, self.orders.sequences@)
        &&& indexes_fresh(*self.snapshot, self.filters.index.text@, self.orders.index@)
        &&& replication_fresh(*self.snapshot, self.orders.replication@)
        &&& statements_fresh(*self.snapshot, self.filters.query.text@, self.sort.statements, self.orders.statements@)
        &&& progress_fresh(*self.snapshot, self.filters.progress.text@, self.orders.progress@)
        &&& records_fresh(self.records@, self.filters.records.text@, self.sort.records, self.orders.records@)
    }

    /// Every cursor points at a row its table shows, at none, or at the
    /// first row (where a new model starts, before any table has rows).
    pub open spec fn cursors_ok(&self) -> bool {
        cursors_valid(self.cursors, self.orders, *self.snapshot)
    }

    /// The model's invariant.
    pub open spec fn wf(&self) -> bool {
        model_ok(
            *self.snapshot,
            self.pending_snapshot,
            self.live_mode_saved_snapshot,
            self.orders_fresh(),
            self.cursors,
            self.orders,
            self.picker,
            self.db_picker,
            self.replay,
            self.refresh_interval_ms,
            self.table_detail_scroll,
        )
    }

    /// Deadlines computed from the tick counter and the request counter fit
    /// their integer types.
    pub open spec fn counters_ok(&self) -> bool {
        self.tick_count < TICK_HEADROOM && self.requests.schema_refresh < u64::MAX
    }
}

/// The model's invariant over the fields it constrains: every snapshot it
/// holds is one it can show, every display order is fresh, every cursor
/// (and picker cursor) is on a row, replay is on one of its frames, and the
/// poll interval and detail scroll are in range.
#[verifier::opaque]
pub open spec fn model_ok(
    snapshot: Snapshot,
    pending: Option<Arc<Snapshot>>,
    saved: Option<Arc<Snapshot>>,
    fresh: bool,
    cursors: Cursors,
    orders: Orders,
    picker: Option<PickerState>,
    db_picker: Option<DbPickerState>,
    replay: Option<Replay>,
    refresh_ms: u64,
    scroll: u16,
) -> bool {
    &&& snapshot_ok(snapshot)
    &&& opt_snapshot_ok(pending)
    &&& opt_snapshot_ok(saved)
    &&& fresh
    &&& cursors_valid(cursors, orders, snapshot)
    &&& (picker matches Some(p) ==> p.entries@.len() == 0 || p.selected < p.entries@.len())
    &&& (db_picker matches Some(p) ==> p.entries@.len() == 0 || p.selected < p.entries@.len())
    &&& (replay matches Some(r) ==> replay_ok(r))
    &&& REFRESH_MIN_MS <= refresh_ms <= REFRESH_MAX_MS
    &&& scroll <= DETAIL_SCROLL_CAP
}


/// The parts of the model's invariant.
pub open spec fn wf_parts(a: App) -> bool {
    &&& snapshot_ok(*a.snapshot)
    &&& opt_snapshot_ok(a.pending_snapshot)
    &&& opt_snapshot_ok(a.live_mode_saved_snapshot)
    &&& a.orders_fresh()
    &&& a.cursors_ok()
    &&& (a.picker matches Some(p) ==> p.entries@.len() == 0 || p.selected < p.entries@.len())
    &&& (a.db_picker matches Some(p) ==> p.entries@.len() == 0 || p.selected < p.entries@.len())
    &&& (a.replay matches Some(r) ==> replay_ok(r))
    &&& REFRESH_MIN_MS <= a.refresh_interval_ms <= REFRESH_MAX_MS
    &&& a.table_detail_scroll <= DETAIL_SCROLL_CAP
}

/// The invariant is exactly its parts.
pub proof fn lemma_wf_parts(a: App)
    ensures
        a.wf() == wf_parts(a),
{
    reveal(model_ok);
}

pub open spec fn replay_ok(r: Replay) -> bool {
    &&& r.current_idx < r.frames@.len()
    &&& frames_ok(r.frames@)
    &&& -2 <= r.speed_exp <= 4
}

/// Every cursor is valid for its table.
pub open spec fn cursors_valid(c: Cursors, o: Orders, s: Snapshot) -> bool {
    &&& sel_ok(c.activity, o.activity@.len() as int)
    &&& sel_ok(c.schema, o.schema@.len() as int)
    &&& sel_ok(c.vacuum, vacuum_len(s))
    &&& sel_ok(c.sequences, o.sequences@.len() as int)
    &&& sel_ok(c.index, o.index@.len() as int)
    &&& sel_ok(c.replication, o.replication@.len() as int)
    &&& sel_ok(c.statements, o.statements@.len() as int)
    &&& sel_ok(c.progress, o.progress@.len() as int)
    &&& sel_ok(c.idle, idle_len(s))
    &&& sel_ok(c.blocks_tree, tree_len(s))
    &&& sel_ok(c.blocks_locks, locks_len(s))
    &&& sel_ok(c.records, o.records@.len() as int)
}

/// Shares a snapshot (`Arc::clone`).
///
/// Trusted wrapper around `Arc::clone`, which returns another pointer to the
/// same allocation: the contract claims the result is the same snapshot.
#[verifier::external_body]
pub(crate) fn share(s: &Arc<Snapshot>) -> (r: Arc<Snapshot>)
    ensures
        r == *s,
{
    Arc::clone(s)
}

// ---------------------------------------------------------------------
// Cursors
// ---------------------------------------------------------------------

/// A cursor kept valid after its table changed size: none for an empty
/// table, else the old row (row 0 when there was none) capped at the last
/// row.
pub open spec fn clamped(sel: Option<usize>, len: int) -> Option<usize> {
    if len <= 0 {
        None
    } else {
        let cur = match sel {
            Some(s) => s as int,
            None => 0,
        };
        Some((if cur < len - 1 { cur } else { len - 1 }) as usize)
    }
}

/// A cursor moved by `delta` rows, saturating at both ends (no wrap).
pub open spec fn moved(sel: Option<usize>, len: int, delta: int) -> Option<usize> {
    if len <= 0 {
        None
    } else {
        let cur = match sel {
            Some(s) => if s < len - 1 { s as int } else { len - 1 },
            None => 0,
        };
        let target = cur + delta;
        Some((if target < 0 { 0 } else if target > len - 1 { len - 1 } else { target }) as usize)
    }
}

/// A cursor jumped to row `target`, clamped into the table.
pub open spec fn jumped(len: int, target: int) -> Option<usize> {
    if len <= 0 {
        None
    } else {
        Some((if target < 0 { 0 } else if target > len - 1 { len - 1 } else { target }) as usize)
    }
}

pub fn clamp_sel(sel: Option<usize>, len: usize) -> (r: Option<usize>)
    ensures
        r == clamped(sel, len as int),
        sel_ok(r, len as int),
{
    if len == 0 {
        None
    } else {
        let cur = match sel {
            Some(s) => s,
            None => 0,
        };
        Some(if cur < len - 1 { cur } else { len - 1 })
    }
}

pub fn move_sel(sel: Option<usize>, len: usize, delta: i64) -> (r: Option<usize>)
    ensures
        r == moved(sel, len as int, delta as int),
        sel_ok(r, len as int),
{
    if len == 0 {
        return None;
    }
    let cur: usize = match sel {
        Some(s) => if s < len - 1 { s } else { len - 1 },
        None => 0,
    };
    let target: i128 = cur as i128 + delta as i128;
    let last: i128 = (len - 1) as i128;
    let next: i128 = if target < 0 { 0 } else if target > last { last } else { target };
    Some(next as usize)
}

pub fn jump_sel(len: usize, target: i64) -> (r: Option<usize>)
    ensures
        r == jumped(len as int, target as int),
        sel_ok(r, len as int),
{
    if len == 0 {
        return None;
    }
    let last: i128 = (len - 1) as i128;
    let t: i128 = target as i128;
    let next: i128 = if t < 0 { 0 } else if t > last { last } else { t };
    Some(next as usize)
}

/// Which cursor the navigation keys drive.
#[derive(Clone, Copy, Debug, PartialEq, Eq, Structural)]
pub enum SelTarget {
    BlocksTree,
    BlocksLocks,
    Index,
    Replication,
    Vacuum,
    Sequences,
    Schema,
    Statements,
    Progress,
    Records,
    Idle,
    Activity,
}

/// The active lens's cursor (the Macro Lens drives the Micro Lens cursor).
pub open spec fn target_of(tab: Tab, pane: BlocksPane, schema_view: SchemaView, micro_view: MicroView) -> SelTarget {
    match tab {
        Tab::BlocksLens => if pane == BlocksPane::Tree {
            SelTarget::BlocksTree
        } else {
            SelTarget::BlocksLocks
        },
        Tab::IndexLens => SelTarget::Index,
        Tab::ReplicationLens => SelTarget::Replication,
        Tab::SchemaLens => if schema_view == SchemaView::Vacuum {
            SelTarget::Vacuum
        } else if schema_view == SchemaView::Sequences {
            SelTarget::Sequences
        } else {
            SelTarget::Schema
        },
        Tab::QueryLens => SelTarget::Statements,
        Tab::ProgressLens => SelTarget::Progress,
        Tab::RecordsLens => SelTarget::Records,
        Tab::MicroLens => if micro_view == MicroView::Idle {
            SelTarget::Idle
        } else {
            SelTarget::Activity
        },
        Tab::MacroLens => SelTarget::Activity,
    }
}

pub open spec fn app_target(app: App) -> SelTarget {
    target_of(app.active_tab, app.blocks_active_pane, app.schema_view, app.micro_view)
}

/// Number of rows the cursor `t` can reach.
pub open spec fn target_len(o: Orders, s: Snapshot, t: SelTarget) -> int {
    match t {
        SelTarget::BlocksTree => tree_len(s),
        SelTarget::BlocksLocks => locks_len(s),
        SelTarget::Index => o.index@.len() as int,
        SelTarget::Replication => o.replication@.len() as int,
        SelTarget::Vacuum => vacuum_len(s),
        SelTarget::Sequences => o.sequences@.len() as int,
        SelTarget::Schema => o.schema@.len() as int,
        SelTarget::Statements => o.statements@.len() as int,
        SelTarget::Progress => o.progress@.len() as int,
        SelTarget::Records => o.records@.len() as int,
        SelTarget::Idle => idle_len(s),
        SelTarget::Activity => o.activity@.len() as int,
    }
}

/// The cursor `t`.
pub open spec fn target_sel(c: Cursors, t: SelTarget) -> Option<usize> {
    match t {
        SelTarget::BlocksTree => c.blocks_tree,
        SelTarget::BlocksLocks => c.blocks_locks,
        SelTarget::Index => c.index,
        SelTarget::Replication => c.replication,
        SelTarget::Vacuum => c.vacuum,
        SelTarget::Sequences => c.sequences,
        SelTarget::Schema => c.schema,
        SelTarget::Statements => c.statements,
        SelTarget::Progress => c.progress,
        SelTarget::Records => c.records,
        SelTarget::Idle => c.idle,
        SelTarget::Activity => c.activity,
    }
}

/// `c` with cursor `t` set to `v`.
pub open spec fn with_target_sel(c: Cursors, t: SelTarget, v: Option<usize>) -> Cursors {
    match t {
        SelTarget::BlocksTree => Cursors { blocks_tree: v, ..c },
        SelTarget::BlocksLocks => Cursors { blocks_locks: v, ..c },
        SelTarget::Index => Cursors { index: v, ..c },
        SelTarget::Replication => Cursors { replication: v, ..c },
        SelTarget::Vacuum => Cursors { vacuum: v, ..c },
        SelTarget::Sequences => Cursors { sequences: v, ..c },
        SelTarget::Schema => Cursors { schema: v, ..c },
        SelTarget::Statements => Cursors { statements: v, ..c },
        SelTarget::Progress => Cursors { progress: v, ..c },
        SelTarget::Records => Cursors { records: v, ..c },
        SelTarget::Idle => Cursors { idle: v, ..c },
        SelTarget::Activity => Cursors { activity: v, ..c },
    }
}

pub fn selection_target(tab: Tab, pane: BlocksPane, schema_view: SchemaView, micro_view: MicroView) -> (t: SelTarget)
    ensures
        t == target_of(tab, pane, schema_view, micro_view),
{
    match tab {
        Tab::BlocksLens => if pane == BlocksPane::Tree {
            SelTarget::BlocksTree
        } else {
            SelTarget::BlocksLocks
        },
        Tab::IndexLens => SelTarget::Index,
        Tab::ReplicationLens => SelTarget::Replication,
        Tab::SchemaLens => if schema_view == SchemaView::Vacuum {
            SelTarget::Vacuum
        } else if schema_view == SchemaView::Sequences {
            SelTarget::Sequences
        } else {
            SelTarget::Schema
        },
        Tab::QueryLens => SelTarget::Statements,
        Tab::ProgressLens => SelTarget::Progress,
        Tab::RecordsLens => SelTarget::Records,
        Tab::MicroLens => if micro_view == MicroView::Idle {
            SelTarget::Idle
        } else {
            SelTarget::Activity
        },
        Tab::MacroLens => SelTarget::Activity,
    }
}

pub(crate) fn snapshot_tree_len(s: &Snapshot) -> (r: usize)
    ensures
        r == tree_len(*s),
{
    match &s.blocking_tree {
        Some(t) => t.len(),
        None => 0,
    }
}

pub(crate) fn snapshot_locks_len(s: &Snapshot) -> (r: usize)
    ensures
        r == locks_len(*s),
{
    match &s.active_locks {
        Some(l) => l.len(),
        None => 0,
    }
}

pub(crate) fn snapshot_vacuum_len(s: &Snapshot) -> (r: usize)
    ensures
        r == vacuum_len(*s),
{
    match &s.schema {
        Some(sd) => sd.vacuum_tables.len(),
        None => 0,
    }
}

pub(crate) fn snapshot_idle_len(s: &Snapshot) -> (r: usize)
    ensures
        r == idle_len(*s),
{
    match s.idle_sessions {
        Some(n) => n,
        None => 0,
    }
}

pub(crate) fn target_length(o: &Orders, s: &Snapshot, t: SelTarget) -> (r: usize)
    ensures
        r == target_len(*o, *s, t),
{
    match t {
        SelTarget::BlocksTree => snapshot_tree_len(s),
        SelTarget::BlocksLocks => snapshot_locks_len(s),
        SelTarget::Index => o.index.len(),
        SelTarget::Replication => o.replication.len(),
        SelTarget::Vacuum => snapshot_vacuum_len(s),
        SelTarget::Sequences => o.sequences.len(),
        SelTarget::Schema => o.schema.len(),
        SelTarget::Statements => o.statements.len(),
        SelTarget::Progress => o.progress.len(),
        SelTarget::Records => o.records.len(),
        SelTarget::Idle => snapshot_idle_len(s),
        SelTarget::Activity => o.activity.len(),
    }
}

pub(crate) fn get_target_sel(c: &Cursors, t: SelTarget) -> (r: Option<usize>)
    ensures
        r == target_sel(*c, t),
{
    match t {
        SelTarget::BlocksTree => c.blocks_tree,
        SelTarget::BlocksLocks => c.blocks_locks,
        SelTarget::Index => c.index,
        SelTarget::Replication => c.replication,
        SelTarget::Vacuum => c.vacuum,
        SelTarget::Sequences => c.sequences,
        SelTarget::Schema => c.schema,
        SelTarget::Statements => c.statements,
        SelTarget::Progress => c.progress,
        SelTarget::Records => c.records,
        SelTarget::Idle => c.idle,
        SelTarget::Activity => c.activity,
    }
}

pub(crate) fn set_target_sel(c: &mut Cursors, t: SelTarget, v: Option<usize>)
    ensures
        *final(c) == with_target_sel(*old(c), t, v),
{
    match t {
        SelTarget::BlocksTree => c.blocks_tree = v,
        SelTarget::BlocksLocks => c.blocks_locks = v,
        SelTarget::Index => c.index = v,
        SelTarget::Replication => c.replication = v,
        SelTarget::Vacuum => c.vacuum = v,
        SelTarget::Sequences => c.sequences = v,
        SelTarget::Schema => c.schema = v,
        SelTarget::Statements => c.statements = v,
        SelTarget::Progress => c.progress = v,
        SelTarget::Records => c.records = v,
        SelTarget::Idle => c.idle = v,
        SelTarget::Activity => c.activity = v,
    }
}

// ---------------------------------------------------------------------
// Display orders
// ---------------------------------------------------------------------

/// `a` with only the display orders replaced.
pub open spec fn with_orders(a: App, o: Orders) -> App {
    App { orders: o, ..a }
}

pub(crate) fn resort(app: &mut App)
    ensures
        *final(app) == with_orders(*old(app), Orders { activity: final(app).orders.activity, ..old(app).orders }),
        activity_fresh(*final(app).snapshot, final(app).filters.micro.text@, final(app).sort.activity, final(app).orders.activity@),
{
    let order = activity_order(&app.snapshot.activity, app.filters.micro.text.as_str(), app.sort.activity);
    app.orders.activity = order;
    proof {
        reveal(activity_fresh);
    }
}

pub(crate) fn resort_schema(app: &mut App)
    requires
        snapshot_ok(*old(app).snapshot),
    ensures
        *final(app) == with_orders(*old(app), Orders { schema: final(app).orders.schema, ..old(app).orders }),
        schema_fresh(
            *final(app).snapshot,
            final(app).filters.schema.text@,
            final(app).schema_show_partitions,
            final(app).sort.schema,
            final(app).orders.schema@,
        ),
{
    let order = match &app.snapshot.schema {
        Some(sd) => table_order(sd, app.filters.schema.text.as_str(), app.schema_show_partitions, app.sort.schema),
        None => Vec::new(),
    };
    app.orders.schema = order;
    proof {
        reveal(schema_fresh);
    }
}

pub(crate) fn resort_sequences(app: &mut App)
    ensures
        *final(app) == with_orders(*old(app), Orders { sequences: final(app).orders.sequences, ..old(app).orders }),
        sequences_fresh(*final(app).snapshot, final(app).filters.schema.text@, final(app).orders.sequences@),
{
    let order = match &app.snapshot.schema {
        Some(sd) => sequence_order(&sd.sequences, app.filters.schema.text.as_str()),
        None => Vec::new(),
    };
    app.orders.sequences = order;
    proof {
        reveal(sequences_fresh);
    }
}

pub(crate) fn resort_indexes(app: &mut App)
    ensures
        *final(app) == with_orders(*old(app), Orders { index: final(app).orders.index, ..old(app).orders }),
        indexes_fresh(*final(app).snapshot, final(app).filters.index.text@, final(app).orders.index@),
{
    let order = match &app.snapshot.schema {
        Some(sd) => index_order(&sd.indexes, app.filters.index.text.as_str()),
        None => Vec::new(),
    };
    app.orders.index = order;
    proof {
        reveal(indexes_fresh);
    }
}

pub(crate) fn resort_replication(app: &mut App)
    ensures
        *final(app) == with_orders(*old(app), Orders { replication: final(app).orders.replication, ..old(app).orders }),
        replication_fresh(*final(app).snapshot, final(app).orders.replication@),
{
    let order = match &app.snapshot.replication_slots {
        Some(slots) => slot_order(slots),
        None => Vec::new(),
    };
    app.orders.replication = order;
    proof {
        reveal(replication_fresh);
    }
}

pub(crate) fn resort_statements(app: &mut App)
    ensures
        *final(app) == with_orders(*old(app), Orders { statements: final(app).orders.statements, ..old(app).orders }),
        statements_fresh(*final(app).snapshot, final(app).filters.query.text@, final(app).sort.statements, final(app).orders.statements@),
{
    let order = match &app.snapshot.statements {
        Some(st) => statement_order(st, app.filters.query.text.as_str(), app.sort.statements),
        None => Vec::new(),
    };
    app.orders.statements = order;
    proof {
        reveal(statements_fresh);
    }
}

pub(crate) fn resort_progress(app: &mut App)
    ensures
        *final(app) == with_orders(*old(app), Orders { progress: final(app).orders.progress, ..old(app).orders }),
        progress_fresh(*final(app).snapshot, final(app).filters.progress.text@, final(app).orders.progress@),
{
    let order = progress_order(&app.snapshot.progress, app.filters.progress.text.as_str());
    app.orders.progress = order;
    proof {
        reveal(progress_fresh);
    }
}

/// The Records Lens display order, recomputed from the entries on disk.
pub fn resort_records(app: &mut App)
    ensures
        *final(app) == with_orders(*old(app), Orders { records: final(app).orders.records, ..old(app).orders }),
        records_fresh(final(app).records@, final(app).filters.records.text@, final(app).sort.records, final(app).orders.records@),
{
    let order = record_order(&app.records, app.filters.records.text.as_str(), app.sort.records);
    app.orders.records = order;
    proof {
        reveal(records_fresh);
    }
}

/// Every lens's display order recomputed for the snapshot on screen.
pub(crate) fn resort_all(app: &mut App)
    requires
        snapshot_ok(*old(app).snapshot),
    ensures
        *final(app) == with_orders(*old(app), final(app).orders),
        final(app).orders_fresh(),
{
    resort(app);
    resort_schema(app);
    resort_sequences(app);
    resort_indexes(app);
    resort_replication(app);
    resort_statements(app);
    resort_progress(app);
    resort_records(app);
}

// ---------------------------------------------------------------------
// Clamping
// ---------------------------------------------------------------------

/// Every cursor clamped to its table (`clamp_selection`).
pub open spec fn clamped_cursors(c: Cursors, o: Orders, s: Snapshot) -> Cursors {
    Cursors {
        activity: clamped(c.activity, o.activity@.len() as int),
        schema: clamped(c.schema, o.schema@.len() as int),
        vacuum: clamped(c.vacuum, vacuum_len(s)),
        sequences: clamped(c.sequences, o.sequences@.len() as int),
        index: clamped(c.index, o.index@.len() as int),
        replication: clamped(c.replication, o.replication@.len() as int),
        statements: clamped(c.statements, o.statements@.len() as int),
        progress: clamped(c.progress, o.progress@.len() as int),
        idle: clamped(c.idle, idle_len(s)),
        blocks_tree: clamped(c.blocks_tree, tree_len(s)),
        blocks_locks: clamped(c.blocks_locks, locks_len(s)),
        records: clamped(c.records, o.records@.len() as int),
    }
}

/// The active lens's detail panel closes when its table became empty
/// (Micro, Schema, Index, Query and Progress Lens).
pub open spec fn detail_emptied(a: App) -> bool {
    ||| (a.orders.activity@.len() == 0 && a.active_tab == Tab::MicroLens)
    ||| (a.orders.schema@.len() == 0 && a.active_tab == Tab::SchemaLens)
    ||| (a.orders.index@.len() == 0 && a.active_tab == Tab::IndexLens)
    ||| (a.orders.statements@.len() == 0 && a.active_tab == Tab::QueryLens)
    ||| (a.orders.progress@.len() == 0 && a.active_tab == Tab::ProgressLens)
}

/// `a` after `clamp_selection`.
pub open spec fn clamp_result(a: App) -> App {
    App {
        cursors: clamped_cursors(a.cursors, a.orders, *a.snapshot),
        detail_open: a.detail_open && !detail_emptied(a),
        ..a
    }
}

/// Keeps every cursor on a row of its table after the tables changed.
pub(crate) fn clamp_selection(app: &mut App)
    ensures
        *final(app) == clamp_result(*old(app)),
        final(app).cursors_ok(),
{
    let n_act = app.orders.activity.len();
    let n_sch = app.orders.schema.len();
    let n_idx = app.orders.index.len();
    let n_st = app.orders.statements.len();
    let n_pr = app.orders.progress.len();
    let c = app.cursors;
    let nc = Cursors {
        activity: clamp_sel(c.activity, n_act),
        schema: clamp_sel(c.schema, n_sch),
        vacuum: clamp_sel(c.vacuum, snapshot_vacuum_len(&app.snapshot)),
        sequences: clamp_sel(c.sequences, app.orders.sequences.len()),
        index: clamp_sel(c.index, n_idx),
        replication: clamp_sel(c.replication, app.orders.replication.len()),
        statements: clamp_sel(c.statements, n_st),
        progress: clamp_sel(c.progress, n_pr),
        idle: clamp_sel(c.idle, snapshot_idle_len(&app.snapshot)),
        blocks_tree: clamp_sel(c.blocks_tree, snapshot_tree_len(&app.snapshot)),
        blocks_locks: clamp_sel(c.blocks_locks, snapshot_locks_len(&app.snapshot)),
        records: clamp_sel(c.records, app.orders.records.len()),
    };
    let tab = app.active_tab;
    let emptied = (n_act == 0 && tab == Tab::MicroLens) || (n_sch == 0 && tab == Tab::SchemaLens)
        || (n_idx == 0 && tab == Tab::IndexLens) || (n_st == 0 && tab == Tab::QueryLens)
        || (n_pr == 0 && tab == Tab::ProgressLens);
    app.cursors = nc;
    if emptied {
        app.detail_open = false;
    }
}


// ---------------------------------------------------------------------
// Feedback line
// ---------------------------------------------------------------------

/// The feedback line shows `text` until tick `expires`.
pub open spec fn feedback_is(f: Option<AdminFeedback>, text: Seq<char>, error: bool, expires: int) -> bool {
    f matches Some(fb) && fb.text@ == text && fb.error == error && fb.expires_at_tick == expires
}

/// `b` is `a` with the feedback line set to `text` for `ttl` ticks.
pub open spec fn feedback_set(a: App, b: App, text: Seq<char>, error: bool, ttl: int) -> bool {
    &&& b == App { admin_feedback: b.admin_feedback, ..a }
    &&& feedback_is(b.admin_feedback, text, error, a.tick_count + ttl)
}

pub(crate) fn set_feedback(app: &mut App, text: String, error: bool, ttl: u64)
    requires
        old(app).tick_count <= TICK_HEADROOM,
        ttl <= 2 * ADMIN_FEEDBACK_TICKS,
    ensures
        feedback_set(*old(app), *final(app), text@, error, ttl as int),
{
    app.admin_feedback = Some(AdminFeedback { text, error, expires_at_tick: app.tick_count + ttl });
}

pub(crate) fn feedback_str(app: &mut App, text: &str, error: bool, ttl: u64)
    requires
        old(app).tick_count <= TICK_HEADROOM,
        ttl <= 2 * ADMIN_FEEDBACK_TICKS,
    ensures
        feedback_set(*old(app), *final(app), text@, error, ttl as int),
{
    let mut t = String::new();
    push_str(&mut t, text);
    set_feedback(app, t, error, ttl);
}

// ---------------------------------------------------------------------
// Admin results
// ---------------------------------------------------------------------

pub open spec fn verb_of(kind: AdminKind) -> Seq<char> {
    match kind {
        AdminKind::Cancel => "cancel"@,
        AdminKind::Terminate => "terminate"@,
    }
}

/// The hint appended when the role may not signal the backend.
pub open spec fn privilege_hint() -> Seq<char> {
    " (needs same user or pg_signal_backend)"@
}

/// The server refused for lack of privilege.
pub open spec fn privilege_error(msg: Seq<char>) -> bool {
    contains_seq(msg, "permission denied"@) || contains_seq(msg, "must be a member"@)
}

/// The feedback text announcing an admin result.
pub open spec fn admin_result_text(r: AdminResult) -> Seq<char> {
    let pid = signed_decimal(r.pid as int);
    match r.outcome {
        AdminOutcome::Signalled(done) => if done {
            match r.kind {
                AdminKind::Cancel => "query cancelled (PID "@ + pid + ")"@,
                AdminKind::Terminate => "backend terminated (PID "@ + pid + ")"@,
            }
        } else {
            "PID "@ + pid + " not signalled \u{2014} gone or insufficient privilege (needs same user or pg_signal_backend)"@
        },
        AdminOutcome::Error(msg) => verb_of(r.kind) + " PID "@ + pid + " failed: "@ + msg@ + (if privilege_error(msg@) {
            privilege_hint()
        } else {
            Seq::empty()
        }),
    }
}

/// Every admin result but a successful signal is shown as an error.
pub open spec fn admin_result_error(r: AdminResult) -> bool {
    !(r.outcome matches AdminOutcome::Signalled(true))
}

/// `seen` and `fb` after announcing the snapshot's admin result (once per
/// result, by its timestamp).
pub open spec fn admin_noted(a: App, seen: Option<u64>, fb: Option<AdminFeedback>) -> bool {
    match (*a.snapshot).last_admin_action {
        Some(r) => if a.admin_seen_epoch_ms == Some(r.at_epoch_ms) {
            seen == a.admin_seen_epoch_ms && fb == a.admin_feedback
        } else {
            seen == Some(r.at_epoch_ms) && feedback_is(
                fb,
                admin_result_text(r),
                admin_result_error(r),
                a.tick_count + ADMIN_FEEDBACK_TICKS,
            )
        },
        None => seen == a.admin_seen_epoch_ms && fb == a.admin_feedback,
    }
}

pub(crate) fn admin_text(r: &AdminResult) -> (t: String)
    ensures
        t@ == admin_result_text(*r),
{
    let mut t = String::new();
    match &r.outcome {
        AdminOutcome::Signalled(done) => {
            if *done {
                match r.kind {
                    AdminKind::Cancel => push_str(&mut t, "query cancelled (PID "),
                    AdminKind::Terminate => push_str(&mut t, "backend terminated (PID "),
                }
                push_signed_decimal(&mut t, r.pid as i64);
                push_str(&mut t, ")");
            } else {
                push_str(&mut t, "PID ");
                push_signed_decimal(&mut t, r.pid as i64);
                push_str(
                    &mut t,
                    " not signalled \u{2014} gone or insufficient privilege (needs same user or pg_signal_backend)",
                );
            }
        },
        AdminOutcome::Error(msg) => {
            match r.kind {
                AdminKind::Cancel => push_str(&mut t, "cancel"),
                AdminKind::Terminate => push_str(&mut t, "terminate"),
            }
            push_str(&mut t, " PID ");
            push_signed_decimal(&mut t, r.pid as i64);
            push_str(&mut t, " failed: ");
            push_str(&mut t, msg.as_str());
            if str_contains(msg.as_str(), "permission denied") || str_contains(msg.as_str(), "must be a member") {
                push_str(&mut t, " (needs same user or pg_signal_backend)");
            }
        },
    }
    assert(t@ =~= admin_result_text(*r));
    t
}

/// Announces the snapshot's admin result, once per result.
pub(crate) fn note_admin_result(app: &mut App)
    requires
        old(app).tick_count <= TICK_HEADROOM,
    ensures
        *final(app) == (App {
            admin_seen_epoch_ms: final(app).admin_seen_epoch_ms,
            admin_feedback: final(app).admin_feedback,
            ..*old(app)
        }),
        admin_noted(*old(app), final(app).admin_seen_epoch_ms, final(app).admin_feedback),
{
    let (at, text, error) = match &app.snapshot.last_admin_action {
        Some(r) => {
            if app.admin_seen_epoch_ms == Some(r.at_epoch_ms) {
                return;
            }
            let error = match &r.outcome {
                AdminOutcome::Signalled(done) => !*done,
                AdminOutcome::Error(_) => true,
            };
            (r.at_epoch_ms, admin_text(r), error)
        },
        None => {
            return;
        },
    };
    app.admin_seen_epoch_ms = Some(at);
    set_feedback(app, text, error, ADMIN_FEEDBACK_TICKS);
}

// ---------------------------------------------------------------------
// Snapshots
// ---------------------------------------------------------------------

/// `new` is `old` with `req` pushed to the host queue when `cond` holds.
pub open spec fn host_queued(old: Requests, new: Requests, cond: bool, req: HostRequest) -> bool {
    if cond {
        new == Requests { host: new.host, ..old } && new.host@ == old.host@.push(req)
    } else {
        new == old
    }
}

/// `b` is `a` once `snap` is the snapshot on screen (`apply_snapshot`):
/// the splash gate opens on the first `Ok`, a fresh admin result is
/// announced, every display order is recomputed, every cursor clamped, and
/// an open Records Lens asks for a rescan while a recording runs.
pub open spec fn snapshot_applied(a: App, snap: Arc<Snapshot>, b: App) -> bool {
    let a1 = App {
        snapshot: snap,
        first_data_seen: a.first_data_seen || (*snap).status_ok,
        last_snapshot_at_ms: Some(a.clock_ms),
        ..a
    };
    &&& b == App {
        orders: b.orders,
        cursors: b.cursors,
        detail_open: b.detail_open,
        admin_seen_epoch_ms: b.admin_seen_epoch_ms,
        admin_feedback: b.admin_feedback,
        requests: b.requests,
        ..a1
    }
    &&& b.orders_fresh()
    &&& b.cursors == clamped_cursors(a.cursors, b.orders, *snap)
    &&& b.detail_open == (a.detail_open && !detail_emptied(with_orders(a1, b.orders)))
    &&& admin_noted(a1, b.admin_seen_epoch_ms, b.admin_feedback)
    &&& host_queued(
        a.requests,
        b.requests,
        a.active_tab == Tab::RecordsLens && a.recording_active,
        HostRequest::RefreshRecords,
    )
}

/// Makes `snap` the snapshot on screen.
pub(crate) fn apply_snapshot(app: &mut App, snap: Arc<Snapshot>)
    requires
        snapshot_ok(*snap),
        old(app).tick_count <= TICK_HEADROOM,
    ensures
        snapshot_applied(*old(app), snap, *final(app)),
        final(app).cursors_ok(),
{
    let ok = snap.status_ok;
    app.snapshot = snap;
    app.first_data_seen = app.first_data_seen || ok;
    app.last_snapshot_at_ms = Some(app.clock_ms);
    note_admin_result(app);
    resort_all(app);
    if app.active_tab == Tab::RecordsLens && app.recording_active {
        app.requests.host.push(HostRequest::RefreshRecords);
    }
    clamp_selection(app);
}


// ---------------------------------------------------------------------
// Selected rows
// ---------------------------------------------------------------------

/// The row under a cursor: the display order's entry at the cursor, when
/// both exist.
pub open spec fn picked_row(order: Seq<usize>, sel: Option<usize>, n: int) -> Option<int> {
    match sel {
        Some(s) => if s < order.len() && order[s as int] < n {
            Some(order[s as int] as int)
        } else {
            None
        },
        None => None,
    }
}

pub(crate) fn pick_row(order: &Vec<usize>, sel: Option<usize>, n: usize) -> (r: Option<usize>)
    ensures
        r matches Some(i) ==> picked_row(order@, sel, n as int) == Some(i as int),
        r is None ==> picked_row(order@, sel, n as int) is None,
{
    match sel {
        Some(s) => if s < order.len() && order[s] < n {
            Some(order[s])
        } else {
            None
        },
        None => None,
    }
}

pub open spec fn selected_activity(a: App) -> Option<int> {
    picked_row(a.orders.activity@, a.cursors.activity, (*a.snapshot).activity@.len() as int)
}

pub open spec fn selected_table_idx(a: App) -> Option<int> {
    match (*a.snapshot).schema {
        Some(sd) => picked_row(a.orders.schema@, a.cursors.schema, sd.tables@.len() as int),
        None => None,
    }
}

pub open spec fn selected_sequence_idx(a: App) -> Option<int> {
    match (*a.snapshot).schema {
        Some(sd) => picked_row(a.orders.sequences@, a.cursors.sequences, sd.sequences@.len() as int),
        None => None,
    }
}

pub open spec fn selected_index_idx(a: App) -> Option<int> {
    match (*a.snapshot).schema {
        Some(sd) => picked_row(a.orders.index@, a.cursors.index, sd.indexes@.len() as int),
        None => None,
    }
}

pub open spec fn selected_statement_idx(a: App) -> Option<int> {
    match (*a.snapshot).statements {
        Some(st) => picked_row(a.orders.statements@, a.cursors.statements, st@.len() as int),
        None => None,
    }
}

pub open spec fn selected_node_idx(a: App) -> Option<int> {
    match ((*a.snapshot).blocking_tree, a.cursors.blocks_tree) {
        (Some(t), Some(i)) => if i < t@.len() {
            Some(i as int)
        } else {
            None
        },
        _ => None,
    }
}

pub open spec fn selected_lock_idx(a: App) -> Option<int> {
    match ((*a.snapshot).active_locks, a.cursors.blocks_locks) {
        (Some(l), Some(i)) => if i < l@.len() {
            Some(i as int)
        } else {
            None
        },
        _ => None,
    }
}

pub open spec fn selected_progress_idx(a: App) -> Option<int> {
    picked_row(a.orders.progress@, a.cursors.progress, (*a.snapshot).progress@.len() as int)
}

pub open spec fn selected_record_idx(a: App) -> Option<int> {
    picked_row(a.orders.records@, a.cursors.records, a.records@.len() as int)
}

impl App {
    /// The Micro Lens session under the cursor.
    pub fn selected_row(&self) -> (r: Option<&ActivityRow>)
        ensures
            r == (match selected_activity(*self) {
                Some(i) => Some(&(*self.snapshot).activity@[i]),
                None => None,
            }),
    {
        match pick_row(&self.orders.activity, self.cursors.activity, self.snapshot.activity.len()) {
            Some(i) => Some(&self.snapshot.activity[i]),
            None => None,
        }
    }

    /// The Schema Lens table under the cursor.
    pub fn selected_table(&self) -> (r: Option<&TableStatRow>)
        ensures
            r == (match selected_table_idx(*self) {
                Some(i) => Some(&(*self.snapshot).schema->0.tables@[i]),
                None => None,
            }),
    {
        match &self.snapshot.schema {
            Some(sd) => match pick_row(&self.orders.schema, self.cursors.schema, sd.tables.len()) {
                Some(i) => Some(&sd.tables[i]),
                None => None,
            },
            None => None,
        }
    }

    /// The Sequences sub-view row under the cursor.
    pub fn selected_sequence(&self) -> (r: Option<&SequenceRow>)
        ensures
            r == (match selected_sequence_idx(*self) {
                Some(i) => Some(&(*self.snapshot).schema->0.sequences@[i]),
                None => None,
            }),
    {
        match &self.snapshot.schema {
            Some(sd) => match pick_row(&self.orders.sequences, self.cursors.sequences, sd.sequences.len()) {
                Some(i) => Some(&sd.sequences[i]),
                None => None,
            },
            None => None,
        }
    }

    /// The Index Lens row under the cursor.
    pub fn selected_index(&self) -> (r: Option<&IndexRow>)
        ensures
            r == (match selected_index_idx(*self) {
                Some(i) => Some(&(*self.snapshot).schema->0.indexes@[i]),
                None => None,
            }),
    {
        match &self.snapshot.schema {
            Some(sd) => match pick_row(&self.orders.index, self.cursors.index, sd.indexes.len()) {
                Some(i) => Some(&sd.indexes[i]),
                None => None,
            },
            None => None,
        }
    }

    /// The Query Lens statement under the cursor.
    pub fn selected_statement(&self) -> (r: Option<&StatementRow>)
        ensures
            r == (match selected_statement_idx(*self) {
                Some(i) => Some(&(*self.snapshot).statements->0@[i]),
                None => None,
            }),
    {
        match &self.snapshot.statements {
            Some(st) => match pick_row(&self.orders.statements, self.cursors.statements, st.len()) {
                Some(i) => Some(&st[i]),
                None => None,
            },
            None => None,
        }
    }

    /// The Blocks Lens tree node under the cursor (pre-order position).
    pub fn selected_block_node(&self) -> (r: Option<&FlattenedNode>)
        ensures
            r == (match selected_node_idx(*self) {
                Some(i) => Some(&(*self.snapshot).blocking_tree->0@[i]),
                None => None,
            }),
    {
        match (&self.snapshot.blocking_tree, self.cursors.blocks_tree) {
            (Some(t), Some(i)) => if i < t.len() {
                Some(&t[i])
            } else {
                None
            },
            _ => None,
        }
    }

    /// The Blocks Lens lock under the cursor.
    pub fn selected_active_lock(&self) -> (r: Option<&LockRow>)
        ensures
            r == (match selected_lock_idx(*self) {
                Some(i) => Some(&(*self.snapshot).active_locks->0@[i]),
                None => None,
            }),
    {
        match (&self.snapshot.active_locks, self.cursors.blocks_locks) {
            (Some(l), Some(i)) => if i < l.len() {
                Some(&l[i])
            } else {
                None
            },
            _ => None,
        }
    }

    /// The Progress Lens row under the cursor.
    pub fn selected_progress_row(&self) -> (r: Option<&ProgressRow>)
        ensures
            r == (match selected_progress_idx(*self) {
                Some(i) => Some(&(*self.snapshot).progress@[i]),
                None => None,
            }),
    {
        match pick_row(&self.orders.progress, self.cursors.progress, self.snapshot.progress.len()) {
            Some(i) => Some(&self.snapshot.progress[i]),
            None => None,
        }
    }

    /// The Records Lens entry under the cursor.
    pub fn selected_recording(&self) -> (r: Option<&RecordEntry>)
        ensures
            r == (match selected_record_idx(*self) {
                Some(i) => Some(&self.records@[i]),
                None => None,
            }),
    {
        match pick_row(&self.orders.records, self.cursors.records, self.records.len()) {
            Some(i) => Some(&self.records[i]),
            None => None,
        }
    }

    /// The full-screen connection splash shows until the first `Ok`
    /// snapshot, unless the poller is `Ok` now.
    pub fn show_splash(&self) -> (r: bool)
        ensures
            r == (!self.first_data_seen && !(*self.snapshot).status_ok),
    {
        !self.first_data_seen && !self.snapshot.status_ok
    }
}


// ---------------------------------------------------------------------
// Clipboard payload
// ---------------------------------------------------------------------

/// `name type [NOT NULL]`.
pub open spec fn column_line(c: ColumnRow) -> Seq<char> {
    c.name@ + " "@ + c.data_type@ + (if c.not_null {
        " NOT NULL"@
    } else {
        Seq::empty()
    })
}

/// One column per line.
pub open spec fn column_list(cols: Seq<ColumnRow>) -> Seq<char>
    decreases cols.len(),
{
    if cols.len() == 0 {
        Seq::empty()
    } else if cols.len() == 1 {
        column_line(cols[0])
    } else {
        column_list(cols.drop_last()) + "\n"@ + column_line(cols.last())
    }
}

pub(crate) fn schema_column_list(detail: &TableDetail) -> (r: String)
    ensures
        r@ == column_list(detail.columns@),
{
    let cols = &detail.columns;
    let n = cols.len();
    let mut out = String::new();
    let mut i: usize = 0;
    while i < n
        invariant
            n == cols@.len(),
            0 <= i <= n,
            out@ == column_list(cols@.take(i as int)),
        decreases n - i,
    {
        let c = &cols[i];
        let ghost before = out@;
        if i > 0 {
            push_str(&mut out, "\n");
        }
        push_str(&mut out, c.name.as_str());
        push_str(&mut out, " ");
        push_str(&mut out, c.data_type.as_str());
        if c.not_null {
            push_str(&mut out, " NOT NULL");
        }
        proof {
            let t = cols@.take(i as int + 1);
            assert(t.drop_last() =~= cols@.take(i as int));
            assert(t.last() == cols@[i as int]);
            if i == 0 {
                assert(before.len() == 0);
                assert(out@ =~= column_line(cols@[0]));
            } else {
                assert(out@ =~= before + "\n"@ + column_line(cols@[i as int]));
            }
        }
        i = i + 1;
    }
    assert(cols@.take(n as int) =~= cols@);
    out
}

/// Position of the first session with process id `pid`, from `from` on.
pub open spec fn first_session(acts: Seq<ActivityRow>, pid: i32, from: int) -> Option<int>
    decreases acts.len() - from,
{
    if from < 0 || from >= acts.len() {
        None
    } else if acts[from].pid == pid {
        Some(from)
    } else {
        first_session(acts, pid, from + 1)
    }
}

pub(crate) fn find_session(acts: &Vec<ActivityRow>, pid: i32) -> (r: Option<usize>)
    ensures
        r matches Some(i) ==> first_session(acts@, pid, 0) == Some(i as int) && i < acts@.len(),
        r is None ==> first_session(acts@, pid, 0) is None,
{
    let n = acts.len();
    let mut i: usize = 0;
    while i < n
        invariant
            n == acts@.len(),
            0 <= i <= n,
            first_session(acts@, pid, 0) == first_session(acts@, pid, i as int),
        decreases n - i,
    {
        if acts[i].pid == pid {
            return Some(i);
        }
        i = i + 1;
    }
    None
}

/// The structure detail on screen belongs to table `oid` and lists its
/// columns.
pub open spec fn detail_shows(detail: Option<TableDetail>, oid: u32) -> bool {
    detail matches Some(d) && d.oid == oid && !d.has_error && d.columns@.len() > 0
}

/// What `y` copies on the active lens (`None`: nothing to copy).
pub open spec fn clipboard_payload(a: App) -> Option<Seq<char>> {
    let s = *a.snapshot;
    match a.active_tab {
        Tab::MicroLens => if a.micro_view == MicroView::Activity {
            match selected_activity(a) {
                Some(i) => Some(s.activity@[i].query@),
                None => None,
            }
        } else {
            None
        },
        Tab::QueryLens => match selected_statement_idx(a) {
            Some(i) => Some(s.statements->0@[i].query@),
            None => None,
        },
        Tab::IndexLens => match selected_index_idx(a) {
            Some(i) => Some(s.schema->0.indexes@[i].indexdef@),
            None => None,
        },
        Tab::SchemaLens => if a.schema_view == SchemaView::Tables {
            match selected_table_idx(a) {
                Some(i) => {
                    let t = s.schema->0.tables@[i];
                    if a.detail_open && detail_shows(s.table_detail, t.oid) {
                        Some(column_list(s.table_detail->0.columns@))
                    } else {
                        Some(t.schema@ + "."@ + t.name@)
                    }
                },
                None => None,
            }
        } else if a.schema_view == SchemaView::Sequences {
            match selected_sequence_idx(a) {
                Some(i) => Some(s.schema->0.sequences@[i].schema@ + "."@ + s.schema->0.sequences@[i].sequence_name@),
                None => None,
            }
        } else {
            None
        },
        Tab::BlocksLens => if a.blocks_active_pane == BlocksPane::Tree {
            match selected_node_idx(a) {
                Some(i) => Some(s.blocking_tree->0@[i].query@),
                None => None,
            }
        } else {
            match selected_lock_idx(a) {
                Some(i) => Some(s.active_locks->0@[i].query@),
                None => None,
            }
        },
        Tab::ProgressLens => match selected_progress_idx(a) {
            Some(i) => {
                let row = s.progress@[i];
                match first_session(s.activity@, row.pid, 0) {
                    Some(j) => Some(s.activity@[j].query@),
                    None => Some(row.command@ + " on "@ + row.relation@),
                }
            },
            None => None,
        },
        Tab::RecordsLens => match selected_record_idx(a) {
            Some(i) => Some(a.records@[i].path@),
            None => None,
        },
        _ => None,
    }
}

pub(crate) fn copy_string(s: &str) -> (r: String)
    ensures
        r@ == s@,
{
    let mut r = String::new();
    push_str(&mut r, s);
    r
}

pub(crate) fn joined(a: &str, sep: &str, b: &str) -> (r: String)
    ensures
        r@ == a@ + sep@ + b@,
{
    let mut r = String::new();
    push_str(&mut r, a);
    push_str(&mut r, sep);
    push_str(&mut r, b);
    r
}

/// The text `y` copies for the active lens's selection.
pub fn clipboard_text(app: &App) -> (r: Option<String>)
    ensures
        match clipboard_payload(*app) {
            Some(t) => r matches Some(x) && x@ == t,
            None => r is None,
        },
{
    proof {
        reveal_strlit(".");
        reveal_strlit(" on ");
    }
    match app.active_tab {
        Tab::MicroLens => {
            if app.micro_view == MicroView::Activity {
                match app.selected_row() {
                    Some(row) => Some(copy_string(row.query.as_str())),
                    None => None,
                }
            } else {
                None
            }
        },
        Tab::QueryLens => match app.selected_statement() {
            Some(row) => Some(copy_string(row.query.as_str())),
            None => None,
        },
        Tab::IndexLens => match app.selected_index() {
            Some(row) => Some(copy_string(row.indexdef.as_str())),
            None => None,
        },
        Tab::SchemaLens => {
            if app.schema_view == SchemaView::Tables {
                match app.selected_table() {
                    Some(t) => {
                        if app.detail_open {
                            match &app.snapshot.table_detail {
                                Some(d) => {
                                    if d.oid == t.oid && !d.has_error && d.columns.len() > 0 {
                                        return Some(schema_column_list(d));
                                    }
                                },
                                None => {},
                            }
                        }
                        Some(joined(t.schema.as_str(), ".", t.name.as_str()))
                    },
                    None => None,
                }
            } else if app.schema_view == SchemaView::Sequences {
                match app.selected_sequence() {
                    Some(q) => Some(joined(q.schema.as_str(), ".", q.sequence_name.as_str())),
                    None => None,
                }
            } else {
                None
            }
        },
        Tab::BlocksLens => {
            if app.blocks_active_pane == BlocksPane::Tree {
                match app.selected_block_node() {
                    Some(n) => Some(copy_string(n.query.as_str())),
                    None => None,
                }
            } else {
                match app.selected_active_lock() {
                    Some(l) => Some(copy_string(l.query.as_str())),
                    None => None,
                }
            }
        },
        Tab::ProgressLens => match app.selected_progress_row() {
            Some(row) => match find_session(&app.snapshot.activity, row.pid) {
                Some(j) => Some(copy_string(app.snapshot.activity[j].query.as_str())),
                None => Some(joined(row.command.as_str(), " on ", row.relation.as_str())),
            },
            None => None,
        },
        Tab::RecordsLens => match app.selected_recording() {
            Some(e) => Some(copy_string(e.path.as_str())),
            None => None,
        },
        _ => None,
    }
}


} // verus!
