//! The library's own model of one poller snapshot: the plain values the
//! dashboard's key handling, filtering, sorting and clipboard logic read.
//! Floating-point measures are carried as integer order keys (larger key =
//! larger value under `f64::total_cmp`), computed where the snapshot is
//! built.
use vstd::prelude::*;

verus! {

/// One session of `pg_stat_activity` (Micro Lens).
pub struct ActivityRow {
    pub pid: i32,
    pub database: String,
    pub username: String,
    pub application_name: String,
    pub client: String,
    pub state: String,
    pub wait_event: Option<String>,
    pub query: String,
    /// Order key of the session's duration in seconds.
    pub duration_order: i64,
}

/// One table of the Schema Lens.
pub struct TableStatRow {
    pub oid: u32,
    pub schema: String,
    pub name: String,
    pub is_partition: bool,
    /// Number of leaf partitions, set on a partitioned parent's aggregate
    /// row.
    pub partition_count: Option<u32>,
    pub total_bytes: i64,
    pub n_dead_tup: i64,
    pub seq_scan: i64,
    pub growth_1h_bytes: Option<i64>,
}

/// One row of the Vacuum sub-view's worst-tables list, joined to its
/// table by (schema, name).
pub struct VacuumTableRow {
    pub schema: String,
    pub name: String,
}

/// One estimated-bloat row, joined to its table by (schema, name).
pub struct BloatRow {
    pub schema: String,
    pub name: String,
    /// Order key of the estimated bloat percentage, `None` when the
    /// estimate is not available.
    pub bloat_pct_order: Option<i64>,
}

/// One sequence of the Sequences sub-view.
pub struct SequenceRow {
    pub schema: String,
    pub sequence_name: String,
    pub table_name: String,
    pub column_name: String,
    /// Order key of the percentage of the sequence's range already used.
    pub percent_used_order: i64,
    pub remaining_count: i64,
}

/// The index advisor's verdict on one index; a duplicate names the index
/// it duplicates.
pub enum IndexFinding {
    Invalid,
    Unused,
    DuplicateExact { partner: String },
    DuplicatePrefix { partner: String },
    NoFinding,
}

/// One index of the Index Lens.
pub struct IndexRow {
    pub schema: String,
    pub table: String,
    pub name: String,
    pub finding: IndexFinding,
    pub index_bytes: i64,
    pub indexdef: String,
    pub is_primary: bool,
    pub is_unique: bool,
    pub is_exclusion: bool,
    pub is_constraint: bool,
}

/// One replication slot.
pub struct ReplicationSlotRow {
    pub slot_name: String,
    /// `physical` or `logical`.
    pub slot_type: String,
    pub active: bool,
    pub wal_status: Option<String>,
    pub retained_wal_bytes: Option<i64>,
    /// Why the server invalidated the slot, if it did.
    pub invalidated: Option<String>,
    /// Age of the oldest transaction the slot holds back.
    pub xmin_age: Option<i64>,
}

/// One logical-replication publication.
pub struct PublicationRow {
    pub pubname: String,
    pub owner: String,
    pub all_tables: bool,
    pub pubinsert: bool,
    pub pubupdate: bool,
    pub pubdelete: bool,
    pub pubtruncate: bool,
    pub pubviaroot: bool,
    pub table_count: i64,
    /// A sample of the published tables' qualified names.
    pub published_tables: Vec<String>,
}

/// One logical-replication subscription.
pub struct SubscriptionRow {
    pub subname: String,
    pub owner: String,
    pub enabled: bool,
    pub publications: Vec<String>,
    pub sync_commit: Option<String>,
    pub publisher_host: Option<String>,
    pub publisher_dbname: Option<String>,
    pub worker_pid: Option<i32>,
    pub received_lsn: Option<String>,
    /// Tables still copying or catching up, ready, and in all.
    pub sync_tables: i64,
    pub ready_tables: i64,
    pub total_tables: i64,
    pub syncing_table_names: Vec<String>,
    pub apply_error_count: Option<i64>,
    pub sync_error_count: Option<i64>,
}

/// One `pg_stat_statements` entry (Query Lens).
pub struct StatementRow {
    pub query: String,
    pub query_id: Option<String>,
    pub calls: i64,
    /// Order key of the total execution time.
    pub total_exec_order: i64,
    /// Order key of the mean execution time.
    pub mean_exec_order: i64,
    pub rows: i64,
    pub temp_blks_written: i64,
}

/// One in-flight maintenance operation (Progress Lens).
pub struct ProgressRow {
    pub pid: i32,
    pub command: String,
    pub relation: String,
    pub phase: String,
    pub detail: String,
}

/// One session of the poller's wait-for forest, with the sessions that
/// wait on it.
pub struct BlockTreeNode {
    pub pid: i32,
    pub usename: String,
    pub application_name: String,
    pub state: String,
    pub query: String,
    /// The lock mode the session waits for, and on which relation.
    pub mode: Option<String>,
    pub relation: Option<String>,
    pub is_root: bool,
    pub is_deadlock: bool,
    /// Sessions blocked, directly or not, behind this one.
    pub num_descendants: u32,
    pub children: Vec<BlockTreeNode>,
}

/// One row of the Blocks Lens tree, in pre-order (the order the tree is
/// drawn and the cursor walks it): a session of the forest with its depth
/// and whether it is the last of its siblings.
pub struct FlattenedNode {
    pub pid: i32,
    pub usename: String,
    pub application_name: String,
    pub state: String,
    pub query: String,
    pub mode: Option<String>,
    pub relation: Option<String>,
    pub is_root: bool,
    pub is_deadlock: bool,
    pub num_descendants: u32,
    /// Nesting depth (0 for a top-level session).
    pub depth: usize,
    pub is_last_child: bool,
}

/// One row of the active-locks table.
pub struct LockRow {
    pub pid: i32,
    pub usename: String,
    pub query: String,
    pub locktype: String,
    pub schema: String,
    pub relation: String,
    pub mode: String,
    pub granted: bool,
}

/// One database of the in-session database picker.
pub struct DatabaseRow {
    pub name: String,
    pub size_bytes: Option<i64>,
}

/// One column of a table's structure detail.
pub struct ColumnRow {
    pub name: String,
    pub data_type: String,
    pub not_null: bool,
}

/// The on-demand structure detail of one table.
pub struct TableDetail {
    pub oid: u32,
    pub has_error: bool,
    pub columns: Vec<ColumnRow>,
}

/// Which admin signal was sent.
#[derive(Clone, Copy, Debug, PartialEq, Eq, Structural)]
pub enum AdminKind {
    Cancel,
    Terminate,
}

/// What the server answered to an admin signal.
pub enum AdminOutcome {
    Signalled(bool),
    Error(String),
}

/// The poller's most recent admin result, re-stamped on every snapshot.
pub struct AdminResult {
    pub at_epoch_ms: u64,
    pub pid: i32,
    pub kind: AdminKind,
    pub outcome: AdminOutcome,
}

/// An admin command queued for the poller.
#[derive(Clone, Copy, Debug, PartialEq, Eq, Structural)]
pub enum AdminCommand {
    CancelBackend(i32),
    TerminateBackend(i32),
}

impl AdminCommand {
    pub fn kind(self) -> (r: AdminKind)
        ensures
            r == (match self {
                AdminCommand::CancelBackend(_) => AdminKind::Cancel,
                AdminCommand::TerminateBackend(_) => AdminKind::Terminate,
            }),
    {
        match self {
            AdminCommand::CancelBackend(_) => AdminKind::Cancel,
            AdminCommand::TerminateBackend(_) => AdminKind::Terminate,
        }
    }

    pub fn pid(self) -> (r: i32)
        ensures
            r == (match self {
                AdminCommand::CancelBackend(p) => p,
                AdminCommand::TerminateBackend(p) => p,
            }),
    {
        match self {
            AdminCommand::CancelBackend(p) => p,
            AdminCommand::TerminateBackend(p) => p,
        }
    }
}

/// The slow (per-database schema) collection.
pub struct SchemaData {
    pub tables: Vec<TableStatRow>,
    pub table_bloat: Vec<BloatRow>,
    /// Rows of the Vacuum sub-view's worst-tables list.
    pub vacuum_tables: Vec<VacuumTableRow>,
    pub sequences: Vec<SequenceRow>,
    pub indexes: Vec<IndexRow>,
}

/// Session and database counters shown in the Macro Lens's vitals panel.
#[derive(Clone, Copy, Debug, PartialEq, Eq, Structural)]
pub struct Vitals {
    pub active: i64,
    pub idle: i64,
    pub idle_in_transaction: i64,
    pub waiting: i64,
    pub deadlocks: i64,
    pub temp_files: i64,
    pub temp_bytes: i64,
}

/// One snapshot as the dashboard reads it.
pub struct Snapshot {
    /// The poller is currently `Ok` (not connecting, not in error).
    pub status_ok: bool,
    /// The connected database.
    pub database: String,
    /// Server vitals shown in the header.
    pub server_version: String,
    pub uptime_secs: u64,
    pub connections_total: i64,
    pub max_connections: i64,
    /// Session and database counters of the Macro Lens's vitals panel.
    pub vitals: Vitals,
    pub activity: Vec<ActivityRow>,
    pub schema: Option<SchemaData>,
    pub statements: Option<Vec<StatementRow>>,
    pub replication_slots: Option<Vec<ReplicationSlotRow>>,
    pub subscriptions: Option<Vec<SubscriptionRow>>,
    /// Number of idle sessions in the idle census, when collected.
    pub idle_sessions: Option<usize>,
    pub blocking_tree: Option<Vec<FlattenedNode>>,
    pub active_locks: Option<Vec<LockRow>>,
    pub progress: Vec<ProgressRow>,
    pub databases: Option<Vec<DatabaseRow>>,
    pub last_admin_action: Option<AdminResult>,
    pub table_detail: Option<TableDetail>,
}

impl Snapshot {
    /// A snapshot with no data yet (the poller is still connecting).
    pub fn empty() -> (r: Self)
        ensures
            !r.status_ok,
            r.database@.len() == 0,
            r.server_version@.len() == 0,
            r.uptime_secs == 0,
            r.connections_total == 0,
            r.vitals == (Vitals {
                active: 0,
                idle: 0,
                idle_in_transaction: 0,
                waiting: 0,
                deadlocks: 0,
                temp_files: 0,
                temp_bytes: 0,
            }),
            r.max_connections == 0,
            r.activity@.len() == 0,
            r.schema is None,
            r.statements is None,
            r.replication_slots is None,
            r.subscriptions is None,
            r.idle_sessions is None,
            r.blocking_tree is None,
            r.active_locks is None,
            r.progress@.len() == 0,
            r.databases is None,
            r.last_admin_action is None,
            r.table_detail is None,
    {
        Snapshot {
            status_ok: false,
            database: String::new(),
            server_version: String::new(),
            uptime_secs: 0,
            connections_total: 0,
            vitals: Vitals {
                active: 0,
                idle: 0,
                idle_in_transaction: 0,
                waiting: 0,
                deadlocks: 0,
                temp_files: 0,
                temp_bytes: 0,
            },
            max_connections: 0,
            activity: Vec::new(),
            schema: None,
            statements: None,
            replication_slots: None,
            subscriptions: None,
            idle_sessions: None,
            blocking_tree: None,
            active_locks: None,
            progress: Vec::new(),
            databases: None,
            last_admin_action: None,
            table_detail: None,
        }
    }
}

/// Whether a Records Lens entry is a recording or a snapshot bookmark.
#[derive(Clone, Copy, Debug, PartialEq, Eq, Structural)]
pub enum RecordingKind {
    Recording,
    Bookmark,
}

/// One incident recording or snapshot bookmark on disk (Records Lens).
pub struct RecordEntry {
    pub path: String,
    pub filename: String,
    pub target: String,
    pub kind: RecordingKind,
    pub size_bytes: u64,
    pub started_at_secs: Option<i64>,
    pub started_at: Option<String>,
    pub ended_at: Option<String>,
    pub is_active: bool,
    /// Frames in the file, when its footer says.
    pub frame_count: Option<u64>,
    /// The recording's length, already written out by the host.
    pub duration_text: Option<String>,
}

/// Order key of the `f64` value `-1.0` (the "no estimate" bloat
/// percentage), under the same mapping used for every `*_order` field.
pub const MINUS_ONE_ORDER: i64 = -4607182418800017409;

} // verus!
