//! Per-lens filtering and display order: which snapshot rows a lens shows
//! (its case-insensitive `/` filter) and in which order (its sort mode,
//! with deterministic tie-breaks). Each `*_order` function returns indices
//! into the lens's row vector.
use vstd::prelude::*;
use vstd::string::*;
use crate::modes::{RecordsSortMode, SchemaSortMode, SortMode, StatementsSortMode};
use crate::order::{is_display_order, key_view, sort_rows, KeyPart, PartView};
use crate::snapshot::{
    ActivityRow, BloatRow, IndexFinding, IndexRow, ProgressRow, RecordEntry, RecordingKind,
    ReplicationSlotRow, SchemaData, SequenceRow, StatementRow, TableStatRow, VacuumTableRow,
    MINUS_ONE_ORDER,
};
use crate::text::{
    contains_seq, push_char, push_signed_decimal, push_str, signed_decimal, str_contains, str_eq,
    to_lowercase, trim, trimmed, unicode_lowercase,
};

verus! {

/// Case-insensitive containment: `needle` (already lowercased) occurs in
/// the Unicode-lowercased `field`.
pub open spec fn lc_contains(field: Seq<char>, needle: Seq<char>) -> bool {
    contains_seq(unicode_lowercase(field), needle)
}

pub fn lower_contains(field: &str, needle: &str) -> (r: bool)
    ensures
        r == lc_contains(field@, needle@),
{
    let lowered = to_lowercase(field);
    str_contains(lowered.as_str(), needle)
}

pub open spec fn opt_lc_contains(field: Option<String>, needle: Seq<char>) -> bool {
    match field {
        Some(s) => lc_contains(s@, needle),
        None => false,
    }
}

fn opt_lower_contains(field: &Option<String>, needle: &str) -> (r: bool)
    ensures
        r == opt_lc_contains(*field, needle@),
{
    match field {
        Some(s) => lower_contains(s.as_str(), needle),
        None => false,
    }
}

/// `needle` occurs in the decimal rendering of `n`.
pub fn decimal_contains(n: i64, needle: &str) -> (r: bool)
    ensures
        r == contains_seq(signed_decimal(n as int), needle@),
{
    let mut s = String::new();
    push_signed_decimal(&mut s, n);
    assert(s@ =~= signed_decimal(n as int));
    str_contains(s.as_str(), needle)
}

/// Ascending list of the rows `i < n` that pass `keep`.
pub open spec fn kept_rows(keep: spec_fn(int) -> bool, n: int, out: Seq<usize>) -> bool {
    &&& forall|p: int| 0 <= p < out.len() ==> 0 <= #[trigger] out[p] < n && keep(out[p] as int)
    &&& forall|p: int, q: int| 0 <= p < q < out.len() ==> out[p] < out[q]
    &&& forall|i: int| 0 <= i < n && keep(i) ==> #[trigger] out.contains(i as usize)
}

/// Extending the scanned prefix by row `i`: pushing `i` exactly when it is
/// kept preserves `kept_rows`.
proof fn lemma_kept_rows_step(
    keep: spec_fn(int) -> bool,
    i: int,
    before: Seq<usize>,
    after: Seq<usize>,
    take: bool,
)
    requires
        0 <= i,
        i < usize::MAX,
        kept_rows(keep, i, before),
        take == keep(i),
        after == (if take { before.push(i as usize) } else { before }),
    ensures
        kept_rows(keep, i + 1, after),
{
    assert forall|j: int| 0 <= j < i + 1 && keep(j) implies #[trigger] after.contains(j as usize) by {
        if j == i {
            assert(after[after.len() - 1] == i);
        } else {
            assert(before.contains(j as usize));
            let p = choose|p: int| 0 <= p < before.len() && before[p] == j as usize;
            assert(after[p] == j as usize);
        }
    }
}

/// Combines the filter's kept rows with the stable sort by `keys`.
fn sorted_kept(
    keys: &Vec<Vec<KeyPart>>,
    kept: Vec<usize>,
    Ghost(kv): Ghost<Seq<Seq<PartView>>>,
    Ghost(keep): Ghost<spec_fn(int) -> bool>,
) -> (out: Vec<usize>)
    requires
        kv == keys@.map_values(|k: Vec<KeyPart>| key_view(k@)),
        kept_rows(keep, keys@.len() as int, kept@),
    ensures
        is_display_order(kv, keep, keys@.len() as int, out@),
{
    let out = sort_rows(keys, kept);
    proof {
        let n = keys@.len() as int;
        assert forall|p: int| 0 <= p < out@.len() implies 0 <= #[trigger] out@[p] < n && keep(
            out@[p] as int,
        ) by {
            assert(out@.contains(out@[p]));
            assert(kept@.contains(out@[p]));
            let q = choose|q: int| 0 <= q < kept@.len() && kept@[q] == out@[p];
            assert(kept@[q] < n && keep(kept@[q] as int));
        }
        assert forall|i: int| 0 <= i < n && keep(i) implies #[trigger] out@.contains(i as usize) by {
            assert(kept@.contains(i as usize));
        }
    }
    out
}

// ---------------------------------------------------------------------
// Micro Lens (activity)
// ---------------------------------------------------------------------

/// The Micro Lens filter: pid (as text), database, user, application,
/// client, state, wait event or query contain the needle.
pub open spec fn activity_matches(row: ActivityRow, needle: Seq<char>) -> bool {
    ||| contains_seq(signed_decimal(row.pid as int), needle)
    ||| lc_contains(row.database@, needle)
    ||| lc_contains(row.username@, needle)
    ||| lc_contains(row.application_name@, needle)
    ||| lc_contains(row.client@, needle)
    ||| lc_contains(row.state@, needle)
    ||| opt_lc_contains(row.wait_event, needle)
    ||| lc_contains(row.query@, needle)
}

/// Micro Lens order: longest-running first, alphabetical by state, or by
/// pid; ties by pid.
pub open spec fn activity_key(row: ActivityRow, mode: SortMode) -> Seq<PartView> {
    match mode {
        SortMode::Duration => seq![PartView::Num(-row.duration_order), PartView::Num(row.pid as int)],
        SortMode::State => seq![PartView::Text(row.state@), PartView::Num(row.pid as int)],
        SortMode::Pid => seq![PartView::Num(row.pid as int)],
    }
}

pub open spec fn filter_keeps(needle: Seq<char>, matched: bool) -> bool {
    needle.len() == 0 || matched
}

pub open spec fn activity_keep(rows: Seq<ActivityRow>, filter: Seq<char>) -> spec_fn(int) -> bool {
    |i: int| filter_keeps(unicode_lowercase(filter), activity_matches(rows[i], unicode_lowercase(filter)))
}

pub open spec fn activity_keys(rows: Seq<ActivityRow>, mode: SortMode) -> Seq<Seq<PartView>> {
    Seq::new(rows.len(), |i: int| activity_key(rows[i], mode))
}

pub fn row_matches(row: &ActivityRow, needle: &str) -> (r: bool)
    ensures
        r == activity_matches(*row, needle@),
{
    decimal_contains(row.pid as i64, needle) || lower_contains(row.database.as_str(), needle)
        || lower_contains(row.username.as_str(), needle) || lower_contains(
        row.application_name.as_str(),
        needle,
    ) || lower_contains(row.client.as_str(), needle) || lower_contains(row.state.as_str(), needle)
        || opt_lower_contains(&row.wait_event, needle) || lower_contains(row.query.as_str(), needle)
}

/// The Micro Lens display order (`resort`).
pub fn activity_order(rows: &Vec<ActivityRow>, filter: &str, mode: SortMode) -> (out: Vec<usize>)
    ensures
        is_display_order(
            activity_keys(rows@, mode),
            activity_keep(rows@, filter@),
            rows@.len() as int,
            out@,
        ),
{
    let needle = to_lowercase(filter);
    let nd = needle.as_str();
    let empty = nd.unicode_len() == 0;
    let ghost keep = activity_keep(rows@, filter@);
    let n = rows.len();
    let mut kept: Vec<usize> = Vec::new();
    let mut keys: Vec<Vec<KeyPart>> = Vec::new();
    let mut i: usize = 0;
    while i < n
        invariant
            n == rows@.len(),
            nd@ == unicode_lowercase(filter@),
            empty == (nd@.len() == 0),
            keep == activity_keep(rows@, filter@),
            0 <= i <= n,
            keys@.len() == i,
            forall|k: int| 0 <= k < i ==> key_view(#[trigger] keys@[k]@) == activity_key(rows@[k], mode),
            kept_rows(keep, i as int, kept@),
        decreases n - i,
    {
        let row = &rows[i];
        let mut key: Vec<KeyPart> = Vec::new();
        match mode {
            SortMode::Duration => {
                key.push(KeyPart::Num(0i128 - row.duration_order as i128));
                key.push(KeyPart::Num(row.pid as i128));
            },
            SortMode::State => {
                key.push(KeyPart::Text(row.state.clone()));
                key.push(KeyPart::Num(row.pid as i128));
            },
            SortMode::Pid => {
                key.push(KeyPart::Num(row.pid as i128));
            },
        }
        assert(key_view(key@) =~= activity_key(rows@[i as int], mode));
        keys.push(key);
        let ghost old_kept = kept@;
        let take = empty || row_matches(row, nd);
        assert(take == keep(i as int));
        if take {
            kept.push(i);
        }
        proof {
            lemma_kept_rows_step(keep, i as int, old_kept, kept@, take);
        }
        i = i + 1;
    }
    proof {
        assert(keys@.map_values(|k: Vec<KeyPart>| key_view(k@)) =~= activity_keys(rows@, mode));
    }
    sorted_kept(&keys, kept, Ghost(activity_keys(rows@, mode)), Ghost(keep))
}

// ---------------------------------------------------------------------
// Schema Lens (tables)
// ---------------------------------------------------------------------

/// Index of the first estimated-bloat row joined to (`schema`, `name`).
pub open spec fn first_bloat_from(bloat: Seq<BloatRow>, schema: Seq<char>, name: Seq<char>, from: int) -> Option<int>
    decreases bloat.len() - from,
{
    if from < 0 || from >= bloat.len() {
        None
    } else if bloat[from].schema@ == schema && bloat[from].name@ == name {
        Some(from)
    } else {
        first_bloat_from(bloat, schema, name, from + 1)
    }
}

/// The `table_bloat` row matching a table, joined by (schema, name): the
/// first one, when several match.
pub fn find_table_bloat<'a>(schema: &'a SchemaData, table: &TableStatRow) -> (r: Option<&'a BloatRow>)
    ensures
        match first_bloat_from(schema.table_bloat@, table.schema@, table.name@, 0) {
            Some(i) => r == Some(&schema.table_bloat@[i]),
            None => r is None,
        },
{
    let n = schema.table_bloat.len();
    let mut i: usize = 0;
    while i < n
        invariant
            n == schema.table_bloat@.len(),
            0 <= i <= n,
            first_bloat_from(schema.table_bloat@, table.schema@, table.name@, 0) == first_bloat_from(
                schema.table_bloat@,
                table.schema@,
                table.name@,
                i as int,
            ),
        decreases n - i,
    {
        let b = &schema.table_bloat[i];
        if str_eq(b.schema.as_str(), table.schema.as_str()) && str_eq(b.name.as_str(), table.name.as_str()) {
            return Some(b);
        }
        i = i + 1;
    }
    None
}

/// Index of the first table named (`schema`, `name`).
pub open spec fn first_table_from(tables: Seq<TableStatRow>, schema: Seq<char>, name: Seq<char>, from: int) -> Option<int>
    decreases tables.len() - from,
{
    if from < 0 || from >= tables.len() {
        None
    } else if tables[from].schema@ == schema && tables[from].name@ == name {
        Some(from)
    } else {
        first_table_from(tables, schema, name, from + 1)
    }
}

/// The table a Vacuum sub-view row speaks of, joined by (schema, name):
/// the first one, when several match.
pub fn find_table_for_vacuum_row<'a>(schema: &'a SchemaData, row: &VacuumTableRow) -> (r: Option<&'a TableStatRow>)
    ensures
        match first_table_from(schema.tables@, row.schema@, row.name@, 0) {
            Some(i) => r == Some(&schema.tables@[i]),
            None => r is None,
        },
{
    let n = schema.tables.len();
    let mut i: usize = 0;
    while i < n
        invariant
            n == schema.tables@.len(),
            0 <= i <= n,
            first_table_from(schema.tables@, row.schema@, row.name@, 0) == first_table_from(
                schema.tables@,
                row.schema@,
                row.name@,
                i as int,
            ),
        decreases n - i,
    {
        let t = &schema.tables[i];
        if str_eq(t.schema.as_str(), row.schema.as_str()) && str_eq(t.name.as_str(), row.name.as_str()) {
            return Some(t);
        }
        i = i + 1;
    }
    None
}

/// Order key of a table's estimated bloat%: tables without a usable
/// estimate sort as `-1.0`.
pub open spec fn bloat_order_of(schema: SchemaData, table: TableStatRow) -> int {
    match first_bloat_from(schema.table_bloat@, table.schema@, table.name@, 0) {
        Some(i) => match schema.table_bloat@[i].bloat_pct_order {
            Some(o) => o as int,
            None => MINUS_ONE_ORDER as int,
        },
        None => MINUS_ONE_ORDER as int,
    }
}

/// The Schema Lens filter: schema, table, or `schema.table` contains the
/// needle.
pub open spec fn table_matches(row: TableStatRow, needle: Seq<char>) -> bool {
    ||| lc_contains(row.schema@, needle)
    ||| lc_contains(row.name@, needle)
    ||| lc_contains(row.schema@ + "."@ + row.name@, needle)
}

pub open spec fn table_keep(rows: Seq<TableStatRow>, filter: Seq<char>, show_partitions: bool) -> spec_fn(int) -> bool {
    |i: int|
        (show_partitions || !rows[i].is_partition) && filter_keeps(
            unicode_lowercase(filter),
            table_matches(rows[i], unicode_lowercase(filter)),
        )
}

/// Largest total size first, then schema, then name.
pub open spec fn size_then_name(row: TableStatRow) -> Seq<PartView> {
    seq![PartView::Num(-row.total_bytes), PartView::Text(row.schema@), PartView::Text(row.name@)]
}

/// |Δ1h bytes|, or -1 when unknown.
pub open spec fn abs_growth(row: TableStatRow) -> int {
    match row.growth_1h_bytes {
        Some(g) => if g < 0 { -g } else { g as int },
        None => -1,
    }
}

/// Schema Lens order per sort mode (all descending), ties by size then name.
pub open spec fn table_key(schema: SchemaData, row: TableStatRow, mode: SchemaSortMode) -> Seq<PartView> {
    match mode {
        SchemaSortMode::TotalSize => size_then_name(row),
        SchemaSortMode::DeadTuples => seq![PartView::Num(-row.n_dead_tup)] + size_then_name(row),
        SchemaSortMode::BloatPct => seq![PartView::Num(-bloat_order_of(schema, row))] + size_then_name(row),
        SchemaSortMode::SeqScans => seq![PartView::Num(-row.seq_scan)] + size_then_name(row),
        SchemaSortMode::Growth => seq![PartView::Num(-abs_growth(row))] + size_then_name(row),
    }
}

pub open spec fn table_keys(schema: SchemaData, mode: SchemaSortMode) -> Seq<Seq<PartView>> {
    Seq::new(schema.tables@.len(), |i: int| table_key(schema, schema.tables@[i], mode))
}

/// No table reports a growth of `i64::MIN` (whose absolute value does not
/// exist as an `i64`).
pub open spec fn growth_in_range(schema: SchemaData) -> bool {
    forall|i: int| 0 <= i < schema.tables@.len() ==> #[trigger] schema.tables@[i].growth_1h_bytes != Some(i64::MIN)
}

pub fn schema_row_matches(row: &TableStatRow, needle: &str) -> (r: bool)
    ensures
        r == table_matches(*row, needle@),
{
    if lower_contains(row.schema.as_str(), needle) || lower_contains(row.name.as_str(), needle) {
        return true;
    }
    let mut qualified = String::new();
    push_str(&mut qualified, row.schema.as_str());
    push_char(&mut qualified, '.');
    push_str(&mut qualified, row.name.as_str());
    assert(qualified@ =~= row.schema@ + "."@ + row.name@) by {
        reveal_strlit(".");
    }
    lower_contains(qualified.as_str(), needle)
}

fn push_size_then_name(key: &mut Vec<KeyPart>, row: &TableStatRow)
    ensures
        key_view(final(key)@) == key_view(old(key)@) + size_then_name(*row),
{
    key.push(KeyPart::Num(0i128 - row.total_bytes as i128));
    key.push(KeyPart::Text(row.schema.clone()));
    key.push(KeyPart::Text(row.name.clone()));
    assert(key_view(key@) =~= key_view(old(key)@) + size_then_name(*row));
}

/// The Schema Lens Tables display order (`resort_schema`): leaf partitions
/// hidden unless `show_partitions`, filtered, then sorted.
pub fn table_order(schema: &SchemaData, filter: &str, show_partitions: bool, mode: SchemaSortMode) -> (out: Vec<usize>)
    requires
        growth_in_range(*schema),
    ensures
        is_display_order(
            table_keys(*schema, mode),
            table_keep(schema.tables@, filter@, show_partitions),
            schema.tables@.len() as int,
            out@,
        ),
{
    let needle = to_lowercase(filter);
    let nd = needle.as_str();
    let empty = nd.unicode_len() == 0;
    let ghost keep = table_keep(schema.tables@, filter@, show_partitions);
    let rows = &schema.tables;
    let n = rows.len();
    let mut kept: Vec<usize> = Vec::new();
    let mut keys: Vec<Vec<KeyPart>> = Vec::new();
    let mut i: usize = 0;
    while i < n
        invariant
            rows == &schema.tables,
            n == rows@.len(),
            growth_in_range(*schema),
            nd@ == unicode_lowercase(filter@),
            empty == (nd@.len() == 0),
            keep == table_keep(schema.tables@, filter@, show_partitions),
            0 <= i <= n,
            keys@.len() == i,
            forall|k: int| 0 <= k < i ==> key_view(#[trigger] keys@[k]@) == table_key(*schema, rows@[k], mode),
            kept_rows(keep, i as int, kept@),
        decreases n - i,
    {
        let row = &rows[i];
        let mut key: Vec<KeyPart> = Vec::new();
        match mode {
            SchemaSortMode::TotalSize => {},
            SchemaSortMode::DeadTuples => {
                key.push(KeyPart::Num(0i128 - row.n_dead_tup as i128));
            },
            SchemaSortMode::BloatPct => {
                let pct: i64 = match find_table_bloat(schema, row) {
                    Some(b) => match b.bloat_pct_order {
                        Some(o) => o,
                        None => MINUS_ONE_ORDER,
                    },
                    None => MINUS_ONE_ORDER,
                };
                key.push(KeyPart::Num(0i128 - pct as i128));
            },
            SchemaSortMode::SeqScans => {
                key.push(KeyPart::Num(0i128 - row.seq_scan as i128));
            },
            SchemaSortMode::Growth => {
                assert(rows@[i as int].growth_1h_bytes != Some(i64::MIN));
                let g: i64 = match row.growth_1h_bytes {
                    Some(g) => if g < 0 { 0 - g } else { g },
                    None => -1,
                };
                key.push(KeyPart::Num(0i128 - g as i128));
            },
        }
        let ghost prefix = key_view(key@);
        push_size_then_name(&mut key, row);
        assert(key_view(key@) =~= table_key(*schema, rows@[i as int], mode));
        keys.push(key);
        let ghost old_kept = kept@;
        let take = (show_partitions || !row.is_partition) && (empty || schema_row_matches(row, nd));
        assert(take == keep(i as int));
        if take {
            kept.push(i);
        }
        proof {
            lemma_kept_rows_step(keep, i as int, old_kept, kept@, take);
        }
        i = i + 1;
    }
    proof {
        assert(keys@.map_values(|k: Vec<KeyPart>| key_view(k@)) =~= table_keys(*schema, mode));
    }
    sorted_kept(&keys, kept, Ghost(table_keys(*schema, mode)), Ghost(keep))
}

// ---------------------------------------------------------------------
// Schema Lens (sequences)
// ---------------------------------------------------------------------

pub open spec fn sequence_matches(row: SequenceRow, needle: Seq<char>) -> bool {
    ||| lc_contains(row.schema@, needle)
    ||| lc_contains(row.sequence_name@, needle)
    ||| lc_contains(row.table_name@, needle)
    ||| lc_contains(row.column_name@, needle)
}

/// The Sequences sub-view filter uses the Schema Lens filter, trimmed.
pub open spec fn sequence_keep(rows: Seq<SequenceRow>, filter: Seq<char>) -> spec_fn(int) -> bool {
    |i: int|
        filter_keeps(
            unicode_lowercase(trimmed(filter)),
            sequence_matches(rows[i], unicode_lowercase(trimmed(filter))),
        )
}

/// Headroom exhaustion first: percent used descending, then remaining
/// ascending, then schema and sequence name.
pub open spec fn sequence_key(row: SequenceRow) -> Seq<PartView> {
    seq![
        PartView::Num(-row.percent_used_order),
        PartView::Num(row.remaining_count as int),
        PartView::Text(row.schema@),
        PartView::Text(row.sequence_name@),
    ]
}

pub open spec fn sequence_keys(rows: Seq<SequenceRow>) -> Seq<Seq<PartView>> {
    Seq::new(rows.len(), |i: int| sequence_key(rows[i]))
}

pub fn sequence_row_matches(row: &SequenceRow, needle: &str) -> (r: bool)
    ensures
        r == sequence_matches(*row, needle@),
{
    lower_contains(row.schema.as_str(), needle) || lower_contains(row.sequence_name.as_str(), needle)
        || lower_contains(row.table_name.as_str(), needle) || lower_contains(
        row.column_name.as_str(),
        needle,
    )
}

/// The Sequences sub-view display order (`resort_sequences`).
pub fn sequence_order(rows: &Vec<SequenceRow>, filter: &str) -> (out: Vec<usize>)
    ensures
        is_display_order(
            sequence_keys(rows@),
            sequence_keep(rows@, filter@),
            rows@.len() as int,
            out@,
        ),
{
    let needle = to_lowercase(trim(filter));
    let nd = needle.as_str();
    let empty = nd.unicode_len() == 0;
    let ghost keep = sequence_keep(rows@, filter@);
    let n = rows.len();
    let mut kept: Vec<usize> = Vec::new();
    let mut keys: Vec<Vec<KeyPart>> = Vec::new();
    let mut i: usize = 0;
    while i < n
        invariant
            n == rows@.len(),
            nd@ == unicode_lowercase(trimmed(filter@)),
            empty == (nd@.len() == 0),
            keep == sequence_keep(rows@, filter@),
            0 <= i <= n,
            keys@.len() == i,
            forall|k: int| 0 <= k < i ==> key_view(#[trigger] keys@[k]@) == sequence_key(rows@[k]),
            kept_rows(keep, i as int, kept@),
        decreases n - i,
    {
        let row = &rows[i];
        let mut key: Vec<KeyPart> = Vec::new();
        key.push(KeyPart::Num(0i128 - row.percent_used_order as i128));
        key.push(KeyPart::Num(row.remaining_count as i128));
        key.push(KeyPart::Text(row.schema.clone()));
        key.push(KeyPart::Text(row.sequence_name.clone()));
        assert(key_view(key@) =~= sequence_key(rows@[i as int]));
        keys.push(key);
        let ghost old_kept = kept@;
        let take = empty || sequence_row_matches(row, nd);
        assert(take == keep(i as int));
        if take {
            kept.push(i);
        }
        proof {
            lemma_kept_rows_step(keep, i as int, old_kept, kept@, take);
        }
        i = i + 1;
    }
    proof {
        assert(keys@.map_values(|k: Vec<KeyPart>| key_view(k@)) =~= sequence_keys(rows@));
    }
    sorted_kept(&keys, kept, Ghost(sequence_keys(rows@)), Ghost(keep))
}

// ---------------------------------------------------------------------
// Index Lens
// ---------------------------------------------------------------------

/// Fixed severity order of an index finding (lower sorts first): invalid,
/// unused, exact duplicate, prefix duplicate, none.
pub open spec fn finding_rank(f: IndexFinding) -> nat {
    match f {
        IndexFinding::Invalid => 0,
        IndexFinding::Unused => 1,
        IndexFinding::DuplicateExact { .. } => 2,
        IndexFinding::DuplicatePrefix { .. } => 3,
        IndexFinding::NoFinding => 4,
    }
}

pub fn index_finding_rank(finding: &IndexFinding) -> (r: u8)
    ensures
        r == finding_rank(*finding),
{
    match finding {
        IndexFinding::Invalid => 0,
        IndexFinding::Unused => 1,
        IndexFinding::DuplicateExact { .. } => 2,
        IndexFinding::DuplicatePrefix { .. } => 3,
        IndexFinding::NoFinding => 4,
    }
}

pub open spec fn index_matches(row: IndexRow, needle: Seq<char>) -> bool {
    ||| lc_contains(row.schema@, needle)
    ||| lc_contains(row.table@, needle)
    ||| lc_contains(row.name@, needle)
}

pub open spec fn index_keep(rows: Seq<IndexRow>, filter: Seq<char>) -> spec_fn(int) -> bool {
    |i: int|
        filter_keeps(
            unicode_lowercase(trimmed(filter)),
            index_matches(rows[i], unicode_lowercase(trimmed(filter))),
        )
}

/// Severity first, then largest index, then schema/table/name.
pub open spec fn index_key(row: IndexRow) -> Seq<PartView> {
    seq![
        PartView::Num(finding_rank(row.finding) as int),
        PartView::Num(-row.index_bytes),
        PartView::Text(row.schema@),
        PartView::Text(row.table@),
        PartView::Text(row.name@),
    ]
}

pub open spec fn index_keys(rows: Seq<IndexRow>) -> Seq<Seq<PartView>> {
    Seq::new(rows.len(), |i: int| index_key(rows[i]))
}

pub fn index_row_matches(row: &IndexRow, needle: &str) -> (r: bool)
    ensures
        r == index_matches(*row, needle@),
{
    lower_contains(row.schema.as_str(), needle) || lower_contains(row.table.as_str(), needle)
        || lower_contains(row.name.as_str(), needle)
}

/// The Index Lens display order (`resort_indexes`).
pub fn index_order(rows: &Vec<IndexRow>, filter: &str) -> (out: Vec<usize>)
    ensures
        is_display_order(index_keys(rows@), index_keep(rows@, filter@), rows@.len() as int, out@),
{
    let needle = to_lowercase(trim(filter));
    let nd = needle.as_str();
    let empty = nd.unicode_len() == 0;
    let ghost keep = index_keep(rows@, filter@);
    let n = rows.len();
    let mut kept: Vec<usize> = Vec::new();
    let mut keys: Vec<Vec<KeyPart>> = Vec::new();
    let mut i: usize = 0;
    while i < n
        invariant
            n == rows@.len(),
            nd@ == unicode_lowercase(trimmed(filter@)),
            empty == (nd@.len() == 0),
            keep == index_keep(rows@, filter@),
            0 <= i <= n,
            keys@.len() == i,
            forall|k: int| 0 <= k < i ==> key_view(#[trigger] keys@[k]@) == index_key(rows@[k]),
            kept_rows(keep, i as int, kept@),
        decreases n - i,
    {
        let row = &rows[i];
        let mut key: Vec<KeyPart> = Vec::new();
        key.push(KeyPart::Num(index_finding_rank(&row.finding) as i128));
        key.push(KeyPart::Num(0i128 - row.index_bytes as i128));
        key.push(KeyPart::Text(row.schema.clone()));
        key.push(KeyPart::Text(row.table.clone()));
        key.push(KeyPart::Text(row.name.clone()));
        assert(key_view(key@) =~= index_key(rows@[i as int]));
        keys.push(key);
        let ghost old_kept = kept@;
        let take = empty || index_row_matches(row, nd);
        assert(take == keep(i as int));
        if take {
            kept.push(i);
        }
        proof {
            lemma_kept_rows_step(keep, i as int, old_kept, kept@, take);
        }
        i = i + 1;
    }
    proof {
        assert(keys@.map_values(|k: Vec<KeyPart>| key_view(k@)) =~= index_keys(rows@));
    }
    sorted_kept(&keys, kept, Ghost(index_keys(rows@)), Ghost(keep))
}

// ---------------------------------------------------------------------
// Replication Lens
// ---------------------------------------------------------------------

/// 10 GiB: an inactive slot retaining more WAL than this is as bad as it
/// gets.
pub const SLOT_RETAINED_BAD_BYTES: i64 = 10 * 1024 * 1024 * 1024;

/// Fixed severity rank of a replication slot (lower is worse): a
/// `wal_status` of `unreserved`/`lost` is always worst; an inactive slot
/// retaining more than 10 GiB is worst too, retaining anything at all is a
/// rising concern; everything else is calm.
pub open spec fn slot_rank(slot: ReplicationSlotRow) -> nat {
    if slot.wal_status matches Some(s) && (s@ == "unreserved"@ || s@ == "lost"@) {
        0
    } else if !slot.active {
        let retained = match slot.retained_wal_bytes {
            Some(b) => b as int,
            None => 0,
        };
        if retained > SLOT_RETAINED_BAD_BYTES {
            0
        } else if retained > 0 {
            1
        } else {
            2
        }
    } else {
        2
    }
}

pub fn slot_severity_rank(slot: &ReplicationSlotRow) -> (r: u8)
    ensures
        r == slot_rank(*slot),
{
    match &slot.wal_status {
        Some(s) => {
            if str_eq(s.as_str(), "unreserved") || str_eq(s.as_str(), "lost") {
                return 0;
            }
        },
        None => {},
    }
    if !slot.active {
        let retained: i64 = match slot.retained_wal_bytes {
            Some(b) => b,
            None => 0,
        };
        if retained > SLOT_RETAINED_BAD_BYTES {
            return 0;
        }
        if retained > 0 {
            return 1;
        }
    }
    2
}

/// Worst slot first, then most retained WAL, then slot name.
pub open spec fn slot_key(slot: ReplicationSlotRow) -> Seq<PartView> {
    let retained = match slot.retained_wal_bytes {
        Some(b) => b as int,
        None => 0,
    };
    seq![PartView::Num(slot_rank(slot) as int), PartView::Num(-retained), PartView::Text(slot.slot_name@)]
}

pub open spec fn slot_keys(rows: Seq<ReplicationSlotRow>) -> Seq<Seq<PartView>> {
    Seq::new(rows.len(), |i: int| slot_key(rows[i]))
}

pub open spec fn keep_all() -> spec_fn(int) -> bool {
    |i: int| true
}

/// The Replication Lens display order (`resort_replication`): every slot.
pub fn slot_order(rows: &Vec<ReplicationSlotRow>) -> (out: Vec<usize>)
    ensures
        is_display_order(slot_keys(rows@), keep_all(), rows@.len() as int, out@),
{
    let ghost keep = keep_all();
    let n = rows.len();
    let mut kept: Vec<usize> = Vec::new();
    let mut keys: Vec<Vec<KeyPart>> = Vec::new();
    let mut i: usize = 0;
    while i < n
        invariant
            n == rows@.len(),
            keep == keep_all(),
            0 <= i <= n,
            keys@.len() == i,
            forall|k: int| 0 <= k < i ==> key_view(#[trigger] keys@[k]@) == slot_key(rows@[k]),
            kept_rows(keep, i as int, kept@),
        decreases n - i,
    {
        let row = &rows[i];
        let retained: i64 = match row.retained_wal_bytes {
            Some(b) => b,
            None => 0,
        };
        let mut key: Vec<KeyPart> = Vec::new();
        key.push(KeyPart::Num(slot_severity_rank(row) as i128));
        key.push(KeyPart::Num(0i128 - retained as i128));
        key.push(KeyPart::Text(row.slot_name.clone()));
        assert(key_view(key@) =~= slot_key(rows@[i as int]));
        keys.push(key);
        let ghost old_kept = kept@;
        kept.push(i);
        proof {
            lemma_kept_rows_step(keep, i as int, old_kept, kept@, true);
        }
        i = i + 1;
    }
    proof {
        assert(keys@.map_values(|k: Vec<KeyPart>| key_view(k@)) =~= slot_keys(rows@));
    }
    sorted_kept(&keys, kept, Ghost(slot_keys(rows@)), Ghost(keep))
}

/// The Macro Lens ranks slots by severity alone (worst first), keeping the
/// collected order within a tier.
pub open spec fn panel_slot_keys(rows: Seq<ReplicationSlotRow>) -> Seq<Seq<PartView>> {
    Seq::new(rows.len(), |i: int| seq![PartView::Num(slot_rank(rows[i]) as int)])
}

/// The Macro Lens replication panel's slot order.
pub fn panel_slot_order(rows: &Vec<ReplicationSlotRow>) -> (out: Vec<usize>)
    ensures
        is_display_order(panel_slot_keys(rows@), keep_all(), rows@.len() as int, out@),
{
    let ghost keep = keep_all();
    let n = rows.len();
    let mut kept: Vec<usize> = Vec::new();
    let mut keys: Vec<Vec<KeyPart>> = Vec::new();
    let mut i: usize = 0;
    while i < n
        invariant
            n == rows@.len(),
            keep == keep_all(),
            0 <= i <= n,
            keys@.len() == i,
            forall|k: int| 0 <= k < i ==> key_view(#[trigger] keys@[k]@) == panel_slot_keys(rows@)[k],
            kept_rows(keep, i as int, kept@),
        decreases n - i,
    {
        let mut key: Vec<KeyPart> = Vec::new();
        key.push(KeyPart::Num(slot_severity_rank(&rows[i]) as i128));
        assert(key_view(key@) =~= panel_slot_keys(rows@)[i as int]);
        keys.push(key);
        let ghost old_kept = kept@;
        kept.push(i);
        proof {
            lemma_kept_rows_step(keep, i as int, old_kept, kept@, true);
        }
        i = i + 1;
    }
    proof {
        assert(keys@.map_values(|k: Vec<KeyPart>| key_view(k@)) =~= panel_slot_keys(rows@));
    }
    sorted_kept(&keys, kept, Ghost(panel_slot_keys(rows@)), Ghost(keep))
}

// ---------------------------------------------------------------------
// Query Lens
// ---------------------------------------------------------------------

pub open spec fn statement_matches(row: StatementRow, needle: Seq<char>) -> bool {
    lc_contains(row.query@, needle) || opt_lc_contains(row.query_id, needle)
}

pub open spec fn statement_keep(rows: Seq<StatementRow>, filter: Seq<char>) -> spec_fn(int) -> bool {
    |i: int| filter_keeps(unicode_lowercase(filter), statement_matches(rows[i], unicode_lowercase(filter)))
}

/// Most calls first, then query text.
pub open spec fn calls_then_query(row: StatementRow) -> Seq<PartView> {
    seq![PartView::Num(-row.calls), PartView::Text(row.query@)]
}

/// Query Lens order per sort mode (all descending), ties by calls then
/// query text.
pub open spec fn statement_key(row: StatementRow, mode: StatementsSortMode) -> Seq<PartView> {
    match mode {
        StatementsSortMode::TotalTime => seq![PartView::Num(-row.total_exec_order)] + calls_then_query(row),
        StatementsSortMode::Calls => calls_then_query(row),
        StatementsSortMode::Mean => seq![PartView::Num(-row.mean_exec_order)] + calls_then_query(row),
        StatementsSortMode::Rows => seq![PartView::Num(-row.rows)] + calls_then_query(row),
        StatementsSortMode::Temp => seq![PartView::Num(-row.temp_blks_written)] + calls_then_query(row),
    }
}

pub open spec fn statement_keys(rows: Seq<StatementRow>, mode: StatementsSortMode) -> Seq<Seq<PartView>> {
    Seq::new(rows.len(), |i: int| statement_key(rows[i], mode))
}

pub fn statements_row_matches(row: &StatementRow, needle: &str) -> (r: bool)
    ensures
        r == statement_matches(*row, needle@),
{
    lower_contains(row.query.as_str(), needle) || opt_lower_contains(&row.query_id, needle)
}

/// The Query Lens display order (`resort_statements`).
pub fn statement_order(rows: &Vec<StatementRow>, filter: &str, mode: StatementsSortMode) -> (out: Vec<usize>)
    ensures
        is_display_order(
            statement_keys(rows@, mode),
            statement_keep(rows@, filter@),
            rows@.len() as int,
            out@,
        ),
{
    let needle = to_lowercase(filter);
    let nd = needle.as_str();
    let empty = nd.unicode_len() == 0;
    let ghost keep = statement_keep(rows@, filter@);
    let n = rows.len();
    let mut kept: Vec<usize> = Vec::new();
    let mut keys: Vec<Vec<KeyPart>> = Vec::new();
    let mut i: usize = 0;
    while i < n
        invariant
            n == rows@.len(),
            nd@ == unicode_lowercase(filter@),
            empty == (nd@.len() == 0),
            keep == statement_keep(rows@, filter@),
            0 <= i <= n,
            keys@.len() == i,
            forall|k: int| 0 <= k < i ==> key_view(#[trigger] keys@[k]@) == statement_key(rows@[k], mode),
            kept_rows(keep, i as int, kept@),
        decreases n - i,
    {
        let row = &rows[i];
        let mut key: Vec<KeyPart> = Vec::new();
        match mode {
            StatementsSortMode::TotalTime => {
                key.push(KeyPart::Num(0i128 - row.total_exec_order as i128));
            },
            StatementsSortMode::Calls => {},
            StatementsSortMode::Mean => {
                key.push(KeyPart::Num(0i128 - row.mean_exec_order as i128));
            },
            StatementsSortMode::Rows => {
                key.push(KeyPart::Num(0i128 - row.rows as i128));
            },
            StatementsSortMode::Temp => {
                key.push(KeyPart::Num(0i128 - row.temp_blks_written as i128));
            },
        }
        key.push(KeyPart::Num(0i128 - row.calls as i128));
        key.push(KeyPart::Text(row.query.clone()));
        assert(key_view(key@) =~= statement_key(rows@[i as int], mode));
        keys.push(key);
        let ghost old_kept = kept@;
        let take = empty || statements_row_matches(row, nd);
        assert(take == keep(i as int));
        if take {
            kept.push(i);
        }
        proof {
            lemma_kept_rows_step(keep, i as int, old_kept, kept@, take);
        }
        i = i + 1;
    }
    proof {
        assert(keys@.map_values(|k: Vec<KeyPart>| key_view(k@)) =~= statement_keys(rows@, mode));
    }
    sorted_kept(&keys, kept, Ghost(statement_keys(rows@, mode)), Ghost(keep))
}

// ---------------------------------------------------------------------
// Progress Lens
// ---------------------------------------------------------------------

pub open spec fn progress_matches(row: ProgressRow, needle: Seq<char>) -> bool {
    ||| contains_seq(signed_decimal(row.pid as int), needle)
    ||| lc_contains(row.command@, needle)
    ||| lc_contains(row.relation@, needle)
    ||| lc_contains(row.phase@, needle)
    ||| lc_contains(row.detail@, needle)
}

pub open spec fn progress_keep(rows: Seq<ProgressRow>, filter: Seq<char>) -> spec_fn(int) -> bool {
    |i: int| filter_keeps(unicode_lowercase(filter), progress_matches(rows[i], unicode_lowercase(filter)))
}

pub fn progress_row_matches(row: &ProgressRow, needle: &str) -> (r: bool)
    ensures
        r == progress_matches(*row, needle@),
{
    decimal_contains(row.pid as i64, needle) || lower_contains(row.command.as_str(), needle)
        || lower_contains(row.relation.as_str(), needle) || lower_contains(row.phase.as_str(), needle)
        || lower_contains(row.detail.as_str(), needle)
}

/// The Progress Lens display order (`resort_progress`): the matching rows
/// in snapshot order.
pub fn progress_order(rows: &Vec<ProgressRow>, filter: &str) -> (out: Vec<usize>)
    ensures
        kept_rows(progress_keep(rows@, filter@), rows@.len() as int, out@),
{
    let needle = to_lowercase(filter);
    let nd = needle.as_str();
    let empty = nd.unicode_len() == 0;
    let ghost keep = progress_keep(rows@, filter@);
    let n = rows.len();
    let mut kept: Vec<usize> = Vec::new();
    let mut i: usize = 0;
    while i < n
        invariant
            n == rows@.len(),
            nd@ == unicode_lowercase(filter@),
            empty == (nd@.len() == 0),
            keep == progress_keep(rows@, filter@),
            0 <= i <= n,
            kept_rows(keep, i as int, kept@),
        decreases n - i,
    {
        let ghost old_kept = kept@;
        let take = empty || progress_row_matches(&rows[i], nd);
        assert(take == keep(i as int));
        if take {
            kept.push(i);
        }
        proof {
            lemma_kept_rows_step(keep, i as int, old_kept, kept@, take);
        }
        i = i + 1;
    }
    kept
}

// ---------------------------------------------------------------------
// Records Lens
// ---------------------------------------------------------------------

/// Words the kind column matches: `recording rec` or `bookmark snapshot
/// point`.
pub open spec fn kind_words(kind: RecordingKind) -> Seq<char> {
    match kind {
        RecordingKind::Recording => "recording rec"@,
        RecordingKind::Bookmark => "bookmark snapshot point"@,
    }
}

pub open spec fn record_matches(row: RecordEntry, needle: Seq<char>) -> bool {
    ||| lc_contains(row.filename@, needle)
    ||| lc_contains(row.target@, needle)
    ||| contains_seq(kind_words(row.kind), needle)
    ||| opt_lc_contains(row.started_at, needle)
    ||| opt_lc_contains(row.ended_at, needle)
}

pub open spec fn record_keep(rows: Seq<RecordEntry>, filter: Seq<char>) -> spec_fn(int) -> bool {
    |i: int| filter_keeps(unicode_lowercase(filter), record_matches(rows[i], unicode_lowercase(filter)))
}

/// An optional start time as key parts ordered like `Option`'s own order
/// (`None` first), negated for descending.
pub open spec fn started_parts(started: Option<i64>, descending: bool) -> Seq<PartView> {
    let (tag, value) = match started {
        Some(s) => (1int, s as int),
        None => (0int, 0int),
    };
    if descending {
        seq![PartView::Num(-tag), PartView::Num(-value)]
    } else {
        seq![PartView::Num(tag), PartView::Num(value)]
    }
}

/// Records Lens order per sort mode; ties by filename.
pub open spec fn record_key(row: RecordEntry, mode: RecordsSortMode) -> Seq<PartView> {
    match mode {
        RecordsSortMode::StartedDesc => started_parts(row.started_at_secs, true) + seq![PartView::Text(row.filename@)],
        RecordsSortMode::StartedAsc => started_parts(row.started_at_secs, false) + seq![PartView::Text(row.filename@)],
        RecordsSortMode::SizeDesc => seq![PartView::Num(-row.size_bytes), PartView::Text(row.filename@)],
        RecordsSortMode::NameAsc => seq![PartView::Text(row.filename@)],
    }
}

pub open spec fn record_keys(rows: Seq<RecordEntry>, mode: RecordsSortMode) -> Seq<Seq<PartView>> {
    Seq::new(rows.len(), |i: int| record_key(rows[i], mode))
}

pub fn records_row_matches(row: &RecordEntry, needle: &str) -> (r: bool)
    ensures
        r == record_matches(*row, needle@),
{
    if lower_contains(row.filename.as_str(), needle) || lower_contains(row.target.as_str(), needle) {
        return true;
    }
    let words = match row.kind {
        RecordingKind::Recording => "recording rec",
        RecordingKind::Bookmark => "bookmark snapshot point",
    };
    str_contains(words, needle) || opt_lower_contains(&row.started_at, needle) || opt_lower_contains(
        &row.ended_at,
        needle,
    )
}

fn push_started(key: &mut Vec<KeyPart>, started: Option<i64>, descending: bool)
    ensures
        key_view(final(key)@) == key_view(old(key)@) + started_parts(started, descending),
{
    let (tag, value): (i128, i128) = match started {
        Some(s) => (1, s as i128),
        None => (0, 0),
    };
    if descending {
        key.push(KeyPart::Num(0 - tag));
        key.push(KeyPart::Num(0 - value));
    } else {
        key.push(KeyPart::Num(tag));
        key.push(KeyPart::Num(value));
    }
    assert(key_view(key@) =~= key_view(old(key)@) + started_parts(started, descending));
}

/// The Records Lens display order (`resort_records`).
pub fn record_order(rows: &Vec<RecordEntry>, filter: &str, mode: RecordsSortMode) -> (out: Vec<usize>)
    ensures
        is_display_order(record_keys(rows@, mode), record_keep(rows@, filter@), rows@.len() as int, out@),
{
    let needle = to_lowercase(filter);
    let nd = needle.as_str();
    let empty = nd.unicode_len() == 0;
    let ghost keep = record_keep(rows@, filter@);
    let n = rows.len();
    let mut kept: Vec<usize> = Vec::new();
    let mut keys: Vec<Vec<KeyPart>> = Vec::new();
    let mut i: usize = 0;
    while i < n
        invariant
            n == rows@.len(),
            nd@ == unicode_lowercase(filter@),
            empty == (nd@.len() == 0),
            keep == record_keep(rows@, filter@),
            0 <= i <= n,
            keys@.len() == i,
            forall|k: int| 0 <= k < i ==> key_view(#[trigger] keys@[k]@) == record_key(rows@[k], mode),
            kept_rows(keep, i as int, kept@),
        decreases n - i,
    {
        let row = &rows[i];
        let mut key: Vec<KeyPart> = Vec::new();
        match mode {
            RecordsSortMode::StartedDesc => push_started(&mut key, row.started_at_secs, true),
            RecordsSortMode::StartedAsc => push_started(&mut key, row.started_at_secs, false),
            RecordsSortMode::SizeDesc => {
                key.push(KeyPart::Num(0i128 - row.size_bytes as i128));
            },
            RecordsSortMode::NameAsc => {},
        }
        key.push(KeyPart::Text(row.filename.clone()));
        assert(key_view(key@) =~= record_key(rows@[i as int], mode));
        keys.push(key);
        let ghost old_kept = kept@;
        let take = empty || records_row_matches(row, nd);
        assert(take == keep(i as int));
        if take {
            kept.push(i);
        }
        proof {
            lemma_kept_rows_step(keep, i as int, old_kept, kept@, take);
        }
        i = i + 1;
    }
    proof {
        assert(keys@.map_values(|k: Vec<KeyPart>| key_view(k@)) =~= record_keys(rows@, mode));
    }
    sorted_kept(&keys, kept, Ghost(record_keys(rows@, mode)), Ghost(keep))
}

} // verus!
