//! What each lens's sort and search promise, stated over the rows' own
//! fields: which row may come before which, and which rows a search term
//! keeps.
use vstd::prelude::*;
use crate::modes::{RecordsSortMode, SchemaSortMode, SortMode, StatementsSortMode};
use crate::order::{is_display_order, lemma_display_first_num, lemma_display_second_num};
use crate::rows::{
    abs_growth, activity_keep, activity_keys, activity_matches, bloat_order_of, finding_rank,
    index_keep, index_keys, index_matches, keep_all, progress_matches, record_keep, record_keys,
    record_matches, sequence_matches, slot_keys, slot_rank, statement_keep, statement_keys,
    statement_matches, table_keep, table_keys, table_matches,
};
use crate::snapshot::{
    ActivityRow, IndexRow, ProgressRow, RecordEntry, ReplicationSlotRow, SchemaData,
    SequenceRow, StatementRow, TableStatRow,
};
use crate::text::{contains_seq, signed_decimal, unicode_lowercase};

verus! {

// ---------------------------------------------------------------------
// Sorting
// ---------------------------------------------------------------------

/// The Micro Lens shows the longest-running sessions first in duration
/// mode, and the smallest pids first in pid mode.
pub proof fn lemma_activity_sort(
    rows: Seq<ActivityRow>,
    filter: Seq<char>,
    mode: SortMode,
    order: Seq<usize>,
    p: int,
    q: int,
)
    requires
        is_display_order(activity_keys(rows, mode), activity_keep(rows, filter), rows.len() as int, order),
        0 <= p < q < order.len(),
    ensures
        mode == SortMode::Duration ==> rows[order[p] as int].duration_order >= rows[order[q] as int].duration_order,
        mode == SortMode::Pid ==> rows[order[p] as int].pid <= rows[order[q] as int].pid,
        mode == SortMode::Duration && rows[order[p] as int].duration_order == rows[order[q] as int].duration_order
            ==> rows[order[p] as int].pid <= rows[order[q] as int].pid,
{
    let keys = activity_keys(rows, mode);
    let (i, j) = (order[p] as int, order[q] as int);
    if mode == SortMode::Duration {
        lemma_display_first_num(keys, activity_keep(rows, filter), rows.len() as int, order, p, q,
            -rows[i].duration_order, -rows[j].duration_order);
        if rows[i].duration_order == rows[j].duration_order {
            lemma_display_second_num(keys, activity_keep(rows, filter), rows.len() as int, order, p, q,
                -rows[i].duration_order, rows[i].pid as int, rows[j].pid as int);
        }
    } else if mode == SortMode::Pid {
        lemma_display_first_num(keys, activity_keep(rows, filter), rows.len() as int, order, p, q,
            rows[i].pid as int, rows[j].pid as int);
    }
}

/// An empty Micro Lens filter hides nothing: every session is shown.
pub proof fn lemma_activity_empty_filter_shows_all(
    rows: Seq<ActivityRow>,
    filter: Seq<char>,
    mode: SortMode,
    order: Seq<usize>,
    i: int,
)
    requires
        is_display_order(activity_keys(rows, mode), activity_keep(rows, filter), rows.len() as int, order),
        unicode_lowercase(filter).len() == 0,
        0 <= i < rows.len(),
    ensures
        order.contains(i as usize),
{
    assert(activity_keep(rows, filter)(i));
}

/// The Schema Lens sorts largest first in every mode: total size, dead
/// tuples, estimated bloat, sequential scans, or the size of the last
/// hour's change.
pub proof fn lemma_tables_sort(
    schema: SchemaData,
    filter: Seq<char>,
    show_partitions: bool,
    mode: SchemaSortMode,
    order: Seq<usize>,
    p: int,
    q: int,
)
    requires
        is_display_order(
            table_keys(schema, mode),
            table_keep(schema.tables@, filter, show_partitions),
            schema.tables@.len() as int,
            order,
        ),
        0 <= p < q < order.len(),
    ensures
        ({
            let a: TableStatRow = schema.tables@[order[p] as int];
            let b: TableStatRow = schema.tables@[order[q] as int];
            &&& mode == SchemaSortMode::TotalSize ==> a.total_bytes >= b.total_bytes
            &&& mode == SchemaSortMode::DeadTuples ==> a.n_dead_tup >= b.n_dead_tup
            &&& mode == SchemaSortMode::BloatPct ==> bloat_order_of(schema, a) >= bloat_order_of(schema, b)
            &&& mode == SchemaSortMode::SeqScans ==> a.seq_scan >= b.seq_scan
            &&& mode == SchemaSortMode::Growth ==> abs_growth(a) >= abs_growth(b)
        }),
{
    let keys = table_keys(schema, mode);
    let keep = table_keep(schema.tables@, filter, show_partitions);
    let n = schema.tables@.len() as int;
    let a = schema.tables@[order[p] as int];
    let b = schema.tables@[order[q] as int];
    match mode {
        SchemaSortMode::TotalSize => {
            lemma_display_first_num(keys, keep, n, order, p, q, -a.total_bytes, -b.total_bytes);
        },
        SchemaSortMode::DeadTuples => {
            lemma_display_first_num(keys, keep, n, order, p, q, -a.n_dead_tup, -b.n_dead_tup);
        },
        SchemaSortMode::BloatPct => {
            lemma_display_first_num(keys, keep, n, order, p, q, -bloat_order_of(schema, a), -bloat_order_of(schema, b));
        },
        SchemaSortMode::SeqScans => {
            lemma_display_first_num(keys, keep, n, order, p, q, -a.seq_scan, -b.seq_scan);
        },
        SchemaSortMode::Growth => {
            lemma_display_first_num(keys, keep, n, order, p, q, -abs_growth(a), -abs_growth(b));
        },
    }
}

/// The Index Lens shows invalid indexes first and indexes with nothing
/// to report last, in between unused before duplicates.
pub proof fn lemma_index_sort(rows: Seq<IndexRow>, filter: Seq<char>, order: Seq<usize>, p: int, q: int)
    requires
        is_display_order(index_keys(rows), index_keep(rows, filter), rows.len() as int, order),
        0 <= p < q < order.len(),
    ensures
        finding_rank(rows[order[p] as int].finding) <= finding_rank(rows[order[q] as int].finding),
        rows[order[q] as int].finding is Invalid ==> rows[order[p] as int].finding is Invalid,
        rows[order[p] as int].finding is NoFinding ==> rows[order[q] as int].finding is NoFinding,
        rows[order[q] as int].finding is Unused ==> (rows[order[p] as int].finding is Invalid
            || rows[order[p] as int].finding is Unused),
        finding_rank(rows[order[p] as int].finding) == finding_rank(rows[order[q] as int].finding)
            ==> rows[order[p] as int].index_bytes >= rows[order[q] as int].index_bytes,
{
    let (i, j) = (order[p] as int, order[q] as int);
    lemma_display_first_num(index_keys(rows), index_keep(rows, filter), rows.len() as int, order, p, q,
        finding_rank(rows[i].finding) as int, finding_rank(rows[j].finding) as int);
    if finding_rank(rows[i].finding) == finding_rank(rows[j].finding) {
        lemma_display_second_num(index_keys(rows), index_keep(rows, filter), rows.len() as int, order, p, q,
            finding_rank(rows[i].finding) as int, -rows[i].index_bytes, -rows[j].index_bytes);
    }
}

/// The WAL a slot retains, 0 when unknown.
pub open spec fn retained_or_zero(slot: ReplicationSlotRow) -> int {
    match slot.retained_wal_bytes {
        Some(b) => b as int,
        None => 0,
    }
}

/// The Replication Lens lists the most dangerous slots first (the same
/// rank its severity marker shows), and among equally dangerous ones the
/// slots retaining the most WAL first.
pub proof fn lemma_slots_sort(rows: Seq<ReplicationSlotRow>, order: Seq<usize>, p: int, q: int)
    requires
        is_display_order(slot_keys(rows), keep_all(), rows.len() as int, order),
        0 <= p < q < order.len(),
    ensures
        slot_rank(rows[order[p] as int]) <= slot_rank(rows[order[q] as int]),
        slot_rank(rows[order[p] as int]) == slot_rank(rows[order[q] as int])
            ==> retained_or_zero(rows[order[p] as int]) >= retained_or_zero(rows[order[q] as int]),
{
    let (i, j) = (order[p] as int, order[q] as int);
    lemma_display_first_num(slot_keys(rows), keep_all(), rows.len() as int, order, p, q,
        slot_rank(rows[i]) as int, slot_rank(rows[j]) as int);
    if slot_rank(rows[i]) == slot_rank(rows[j]) {
        lemma_display_second_num(slot_keys(rows), keep_all(), rows.len() as int, order, p, q,
            slot_rank(rows[i]) as int, -retained_or_zero(rows[i]), -retained_or_zero(rows[j]));
    }
}

/// The value a Query Lens sort mode ranks statements by.
pub open spec fn statement_lead(row: StatementRow, mode: StatementsSortMode) -> int {
    match mode {
        StatementsSortMode::TotalTime => row.total_exec_order as int,
        StatementsSortMode::Calls => row.calls as int,
        StatementsSortMode::Mean => row.mean_exec_order as int,
        StatementsSortMode::Rows => row.rows as int,
        StatementsSortMode::Temp => row.temp_blks_written as int,
    }
}

/// The Query Lens sorts largest first in every mode: total time, calls,
/// mean time, rows, or temp blocks written; ties by most calls.
pub proof fn lemma_statements_sort(
    rows: Seq<StatementRow>,
    filter: Seq<char>,
    mode: StatementsSortMode,
    order: Seq<usize>,
    p: int,
    q: int,
)
    requires
        is_display_order(statement_keys(rows, mode), statement_keep(rows, filter), rows.len() as int, order),
        0 <= p < q < order.len(),
    ensures
        ({
            let a = rows[order[p] as int];
            let b = rows[order[q] as int];
            &&& mode == StatementsSortMode::TotalTime ==> a.total_exec_order >= b.total_exec_order
            &&& mode == StatementsSortMode::Calls ==> a.calls >= b.calls
            &&& mode == StatementsSortMode::Mean ==> a.mean_exec_order >= b.mean_exec_order
            &&& mode == StatementsSortMode::Rows ==> a.rows >= b.rows
            &&& mode == StatementsSortMode::Temp ==> a.temp_blks_written >= b.temp_blks_written
            &&& mode != StatementsSortMode::Calls && statement_lead(a, mode) == statement_lead(b, mode)
                ==> a.calls >= b.calls
        }),
{
    let keys = statement_keys(rows, mode);
    let keep = statement_keep(rows, filter);
    let n = rows.len() as int;
    let a = rows[order[p] as int];
    let b = rows[order[q] as int];
    if mode != StatementsSortMode::Calls && statement_lead(a, mode) == statement_lead(b, mode) {
        lemma_display_second_num(keys, keep, n, order, p, q, -statement_lead(a, mode), -a.calls, -b.calls);
    }
    match mode {
        StatementsSortMode::TotalTime => {
            lemma_display_first_num(keys, keep, n, order, p, q, -a.total_exec_order, -b.total_exec_order);
        },
        StatementsSortMode::Calls => {
            lemma_display_first_num(keys, keep, n, order, p, q, -a.calls, -b.calls);
        },
        StatementsSortMode::Mean => {
            lemma_display_first_num(keys, keep, n, order, p, q, -a.mean_exec_order, -b.mean_exec_order);
        },
        StatementsSortMode::Rows => {
            lemma_display_first_num(keys, keep, n, order, p, q, -a.rows, -b.rows);
        },
        StatementsSortMode::Temp => {
            lemma_display_first_num(keys, keep, n, order, p, q, -a.temp_blks_written, -b.temp_blks_written);
        },
    }
}

/// The Records Lens: largest file first by size; newest first puts every
/// entry with a start time before those without, oldest first the other
/// way round.
pub proof fn lemma_records_sort(
    rows: Seq<RecordEntry>,
    filter: Seq<char>,
    mode: RecordsSortMode,
    order: Seq<usize>,
    p: int,
    q: int,
)
    requires
        is_display_order(record_keys(rows, mode), record_keep(rows, filter), rows.len() as int, order),
        0 <= p < q < order.len(),
    ensures
        ({
            let a = rows[order[p] as int];
            let b = rows[order[q] as int];
            &&& mode == RecordsSortMode::SizeDesc ==> a.size_bytes >= b.size_bytes
            &&& mode == RecordsSortMode::StartedDesc ==> (b.started_at_secs is Some ==> a.started_at_secs is Some)
            &&& mode == RecordsSortMode::StartedAsc ==> (a.started_at_secs is Some ==> b.started_at_secs is Some)
        }),
{
    let keys = record_keys(rows, mode);
    let keep = record_keep(rows, filter);
    let n = rows.len() as int;
    let a = rows[order[p] as int];
    let b = rows[order[q] as int];
    let ta: int = if a.started_at_secs is Some { 1 } else { 0 };
    let tb: int = if b.started_at_secs is Some { 1 } else { 0 };
    match mode {
        RecordsSortMode::SizeDesc => {
            lemma_display_first_num(keys, keep, n, order, p, q, -a.size_bytes, -b.size_bytes);
        },
        RecordsSortMode::StartedDesc => {
            lemma_display_first_num(keys, keep, n, order, p, q, -ta, -tb);
        },
        RecordsSortMode::StartedAsc => {
            lemma_display_first_num(keys, keep, n, order, p, q, ta, tb);
        },
        RecordsSortMode::NameAsc => {},
    }
}

// ---------------------------------------------------------------------
// Searching
// ---------------------------------------------------------------------

/// The Micro Lens search reads every column of a session: a needle found
/// (case-insensitively) in the database, user, application, client,
/// state, wait event or query, or in the pid's digits, matches the row.
pub proof fn lemma_activity_search_fields(row: ActivityRow, needle: Seq<char>)
    ensures
        contains_seq(signed_decimal(row.pid as int), needle) ==> activity_matches(row, needle),
        contains_seq(unicode_lowercase(row.database@), needle) ==> activity_matches(row, needle),
        contains_seq(unicode_lowercase(row.username@), needle) ==> activity_matches(row, needle),
        contains_seq(unicode_lowercase(row.application_name@), needle) ==> activity_matches(row, needle),
        contains_seq(unicode_lowercase(row.client@), needle) ==> activity_matches(row, needle),
        contains_seq(unicode_lowercase(row.state@), needle) ==> activity_matches(row, needle),
        (row.wait_event matches Some(w) && contains_seq(unicode_lowercase(w@), needle)) ==> activity_matches(row, needle),
        contains_seq(unicode_lowercase(row.query@), needle) ==> activity_matches(row, needle),
{
}

/// The Schema Lens search finds a table by its schema, its name, or its
/// qualified `schema.name`.
pub proof fn lemma_table_search_fields(row: TableStatRow, needle: Seq<char>)
    ensures
        contains_seq(unicode_lowercase(row.schema@), needle) ==> table_matches(row, needle),
        contains_seq(unicode_lowercase(row.name@), needle) ==> table_matches(row, needle),
        contains_seq(unicode_lowercase(row.schema@ + "."@ + row.name@), needle) ==> table_matches(row, needle),
{
}

/// The Sequences search finds a sequence by its schema, its name, or the
/// table and column it feeds.
pub proof fn lemma_sequence_search_fields(row: SequenceRow, needle: Seq<char>)
    ensures
        contains_seq(unicode_lowercase(row.schema@), needle) ==> sequence_matches(row, needle),
        contains_seq(unicode_lowercase(row.sequence_name@), needle) ==> sequence_matches(row, needle),
        contains_seq(unicode_lowercase(row.table_name@), needle) ==> sequence_matches(row, needle),
        contains_seq(unicode_lowercase(row.column_name@), needle) ==> sequence_matches(row, needle),
{
}

/// The Index Lens search finds an index by its schema, table or name.
pub proof fn lemma_index_search_fields(row: IndexRow, needle: Seq<char>)
    ensures
        contains_seq(unicode_lowercase(row.schema@), needle) ==> index_matches(row, needle),
        contains_seq(unicode_lowercase(row.table@), needle) ==> index_matches(row, needle),
        contains_seq(unicode_lowercase(row.name@), needle) ==> index_matches(row, needle),
{
}

/// The Query Lens search finds a statement by its text or its query id.
pub proof fn lemma_statement_search_fields(row: StatementRow, needle: Seq<char>)
    ensures
        contains_seq(unicode_lowercase(row.query@), needle) ==> statement_matches(row, needle),
        (row.query_id matches Some(id) && contains_seq(unicode_lowercase(id@), needle)) ==> statement_matches(row, needle),
{
}

/// The Progress Lens search finds an operation by its pid, command,
/// relation, phase or detail.
pub proof fn lemma_progress_search_fields(row: ProgressRow, needle: Seq<char>)
    ensures
        contains_seq(signed_decimal(row.pid as int), needle) ==> progress_matches(row, needle),
        contains_seq(unicode_lowercase(row.command@), needle) ==> progress_matches(row, needle),
        contains_seq(unicode_lowercase(row.relation@), needle) ==> progress_matches(row, needle),
        contains_seq(unicode_lowercase(row.phase@), needle) ==> progress_matches(row, needle),
        contains_seq(unicode_lowercase(row.detail@), needle) ==> progress_matches(row, needle),
{
}

/// The Records Lens search finds an entry by its file name, target, or
/// start and end times.
pub proof fn lemma_record_search_fields(row: RecordEntry, needle: Seq<char>)
    ensures
        contains_seq(unicode_lowercase(row.filename@), needle) ==> record_matches(row, needle),
        contains_seq(unicode_lowercase(row.target@), needle) ==> record_matches(row, needle),
        (row.started_at matches Some(t) && contains_seq(unicode_lowercase(t@), needle)) ==> record_matches(row, needle),
        (row.ended_at matches Some(t) && contains_seq(unicode_lowercase(t@), needle)) ==> record_matches(row, needle),
{
}

} // verus!
