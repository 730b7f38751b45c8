//! The lens (tab) identifiers and the small cyclic view / sort-mode enums of
//! the dashboard, each with its exact successor function.
use vstd::prelude::*;

verus! {

/// Which lens (tab) is on screen.
#[derive(Clone, Copy, Debug, PartialEq, Eq, Structural)]
pub enum Tab {
    MacroLens,
    MicroLens,
    BlocksLens,
    ReplicationLens,
    SchemaLens,
    IndexLens,
    QueryLens,
    ProgressLens,
    RecordsLens,
}

/// Number of lenses; `Tab::index` ranges over `0..TAB_COUNT`.
pub const TAB_COUNT: usize = 9;

/// Position of a lens in the tab bar (and the `1`-`9` jump key minus one).
pub open spec fn tab_position(t: Tab) -> nat {
    match t {
        Tab::MacroLens => 0,
        Tab::MicroLens => 1,
        Tab::BlocksLens => 2,
        Tab::ReplicationLens => 3,
        Tab::SchemaLens => 4,
        Tab::IndexLens => 5,
        Tab::QueryLens => 6,
        Tab::ProgressLens => 7,
        Tab::RecordsLens => 8,
    }
}

/// The lens at a tab-bar position, if there is one.
pub open spec fn tab_at(i: int) -> Option<Tab> {
    if i == 0 {
        Some(Tab::MacroLens)
    } else if i == 1 {
        Some(Tab::MicroLens)
    } else if i == 2 {
        Some(Tab::BlocksLens)
    } else if i == 3 {
        Some(Tab::ReplicationLens)
    } else if i == 4 {
        Some(Tab::SchemaLens)
    } else if i == 5 {
        Some(Tab::IndexLens)
    } else if i == 6 {
        Some(Tab::QueryLens)
    } else if i == 7 {
        Some(Tab::ProgressLens)
    } else if i == 8 {
        Some(Tab::RecordsLens)
    } else {
        None
    }
}

/// The lens after `t` in the forward cycle (wrapping after the last).
pub open spec fn tab_after(t: Tab) -> Tab {
    match t {
        Tab::MacroLens => Tab::MicroLens,
        Tab::MicroLens => Tab::BlocksLens,
        Tab::BlocksLens => Tab::ReplicationLens,
        Tab::ReplicationLens => Tab::SchemaLens,
        Tab::SchemaLens => Tab::IndexLens,
        Tab::IndexLens => Tab::QueryLens,
        Tab::QueryLens => Tab::ProgressLens,
        Tab::ProgressLens => Tab::RecordsLens,
        Tab::RecordsLens => Tab::MacroLens,
    }
}

/// The lens before `t` in the forward cycle.
pub open spec fn tab_before(t: Tab) -> Tab {
    match t {
        Tab::MacroLens => Tab::RecordsLens,
        Tab::MicroLens => Tab::MacroLens,
        Tab::BlocksLens => Tab::MicroLens,
        Tab::ReplicationLens => Tab::BlocksLens,
        Tab::SchemaLens => Tab::ReplicationLens,
        Tab::IndexLens => Tab::SchemaLens,
        Tab::QueryLens => Tab::IndexLens,
        Tab::ProgressLens => Tab::QueryLens,
        Tab::RecordsLens => Tab::ProgressLens,
    }
}

impl Default for Tab {
    fn default() -> (r: Self)
        ensures
            r == Tab::MacroLens,
    {
        Tab::MacroLens
    }
}

impl Tab {
    /// Tab-bar titles, number-prefixed to document the `1`-`9` jump keys.
    pub const TITLES: [&'static str; 9] = [
        "1 Macro Lens",
        "2 Micro Lens",
        "3 Blocks & Locks Lens",
        "4 Replication Lens",
        "5 Schema Lens",
        "6 Indexes",
        "7 Query Lens",
        "8 Progress Lens",
        "9 Records Lens",
    ];

    pub fn index(self) -> (r: usize)
        ensures
            r == tab_position(self),
            r < TAB_COUNT,
    {
        match self {
            Tab::MacroLens => 0,
            Tab::MicroLens => 1,
            Tab::BlocksLens => 2,
            Tab::ReplicationLens => 3,
            Tab::SchemaLens => 4,
            Tab::IndexLens => 5,
            Tab::QueryLens => 6,
            Tab::ProgressLens => 7,
            Tab::RecordsLens => 8,
        }
    }

    /// Inverse of [`Tab::index`]; `None` for anything outside `0..9`.
    pub fn from_index(index: usize) -> (r: Option<Self>)
        ensures
            r == tab_at(index as int),
            r is Some <==> index < TAB_COUNT,
            r matches Some(t) ==> tab_position(t) == index,
    {
        match index {
            0 => Some(Tab::MacroLens),
            1 => Some(Tab::MicroLens),
            2 => Some(Tab::BlocksLens),
            3 => Some(Tab::ReplicationLens),
            4 => Some(Tab::SchemaLens),
            5 => Some(Tab::IndexLens),
            6 => Some(Tab::QueryLens),
            7 => Some(Tab::ProgressLens),
            8 => Some(Tab::RecordsLens),
            _ => None,
        }
    }

    /// Forward cycle (`Tab`): the next position, wrapping after the last.
    pub fn next(self) -> (r: Self)
        ensures
            r == tab_after(self),
            tab_position(r) == (tab_position(self) + 1) % 9,
    {
        match self {
            Tab::MacroLens => Tab::MicroLens,
            Tab::MicroLens => Tab::BlocksLens,
            Tab::BlocksLens => Tab::ReplicationLens,
            Tab::ReplicationLens => Tab::SchemaLens,
            Tab::SchemaLens => Tab::IndexLens,
            Tab::IndexLens => Tab::QueryLens,
            Tab::QueryLens => Tab::ProgressLens,
            Tab::ProgressLens => Tab::RecordsLens,
            Tab::RecordsLens => Tab::MacroLens,
        }
    }

    /// Backward cycle (`BackTab`): the exact inverse of [`Tab::next`].
    pub fn prev(self) -> (r: Self)
        ensures
            r == tab_before(self),
            tab_position(r) == (tab_position(self) + 8) % 9,
    {
        match self {
            Tab::MacroLens => Tab::RecordsLens,
            Tab::MicroLens => Tab::MacroLens,
            Tab::BlocksLens => Tab::MicroLens,
            Tab::ReplicationLens => Tab::BlocksLens,
            Tab::SchemaLens => Tab::ReplicationLens,
            Tab::IndexLens => Tab::SchemaLens,
            Tab::QueryLens => Tab::IndexLens,
            Tab::ProgressLens => Tab::QueryLens,
            Tab::RecordsLens => Tab::ProgressLens,
        }
    }
}

/// `index` and `from_index` are mutually inverse: every lens sits at exactly
/// one position below 9, and every position below 9 holds exactly one lens.
pub proof fn lemma_tab_index_roundtrip(t: Tab, i: int)
    ensures
        tab_at(tab_position(t) as int) == Some(t),
        0 <= i < 9 ==> tab_at(i) is Some && tab_position(tab_at(i).unwrap()) == i,
        !(0 <= i < 9) ==> tab_at(i) is None,
{
}

/// `BackTab` undoes `Tab` and `Tab` undoes `BackTab`.
pub proof fn lemma_tab_next_prev_inverse(t: Tab)
    ensures
        tab_before(tab_after(t)) == t,
        tab_after(tab_before(t)) == t,
{
}

/// Nine presses of `Tab` visit every lens once and come back to the start.
pub proof fn lemma_tab_cycle_has_period_nine(t: Tab)
    ensures
        tab_after(tab_after(tab_after(tab_after(tab_after(tab_after(tab_after(tab_after(
            tab_after(t),
        )))))))) == t,
{
    match t {
        Tab::MacroLens => {},
        Tab::MicroLens => {},
        Tab::BlocksLens => {},
        Tab::ReplicationLens => {},
        Tab::SchemaLens => {},
        Tab::IndexLens => {},
        Tab::QueryLens => {},
        Tab::ProgressLens => {},
        Tab::RecordsLens => {},
    }
}

/// Sort modes for the Records Lens.
#[derive(Clone, Copy, Debug, PartialEq, Eq, Structural)]
pub enum RecordsSortMode {
    StartedDesc,
    StartedAsc,
    SizeDesc,
    NameAsc,
}

impl Default for RecordsSortMode {
    fn default() -> (r: Self)
        ensures
            r == RecordsSortMode::StartedDesc,
    {
        RecordsSortMode::StartedDesc
    }
}

/// Successor of `m` under `RecordsSortMode::next`.
pub open spec fn records_sort_after(m: RecordsSortMode) -> RecordsSortMode {
    match m {
        RecordsSortMode::StartedDesc => RecordsSortMode::StartedAsc,
        RecordsSortMode::StartedAsc => RecordsSortMode::SizeDesc,
        RecordsSortMode::SizeDesc => RecordsSortMode::NameAsc,
        RecordsSortMode::NameAsc => RecordsSortMode::StartedDesc,
    }
}

impl RecordsSortMode {
    pub fn next(self) -> (r: Self)
        ensures
            r == records_sort_after(self),
    {
        match self {
            Self::StartedDesc => Self::StartedAsc,
            Self::StartedAsc => Self::SizeDesc,
            Self::SizeDesc => Self::NameAsc,
            Self::NameAsc => Self::StartedDesc,
        }
    }

    pub fn label(self) -> (r: &'static str)
        ensures
            r@ == (match self {
                RecordsSortMode::StartedDesc => "started (newest)"@,
                RecordsSortMode::StartedAsc => "started (oldest)"@,
                RecordsSortMode::SizeDesc => "size (largest)"@,
                RecordsSortMode::NameAsc => "name (A-Z)"@,
            }),
    {
        match self {
            Self::StartedDesc => "started (newest)",
            Self::StartedAsc => "started (oldest)",
            Self::SizeDesc => "size (largest)",
            Self::NameAsc => "name (A-Z)",
        }
    }
}

/// Active pane of the Blocks Lens.
#[derive(Clone, Copy, Debug, PartialEq, Eq, Structural)]
pub enum BlocksPane {
    Tree,
    Locks,
}

impl Default for BlocksPane {
    fn default() -> (r: Self)
        ensures
            r == BlocksPane::Tree,
    {
        BlocksPane::Tree
    }
}

/// Successor of `m` under `BlocksPane::toggle`.
pub open spec fn pane_toggled(m: BlocksPane) -> BlocksPane {
    match m {
        BlocksPane::Tree => BlocksPane::Locks,
        BlocksPane::Locks => BlocksPane::Tree,
    }
}

impl BlocksPane {
    pub fn toggle(self) -> (r: Self)
        ensures
            r != self,
            r == pane_toggled(self),
    {
        match self {
            Self::Tree => Self::Locks,
            Self::Locks => Self::Tree,
        }
    }
}

/// Sort column of the Micro Lens table.
#[derive(Clone, Copy, Debug, PartialEq, Eq, Structural)]
pub enum SortMode {
    Duration,
    State,
    Pid,
}

impl Default for SortMode {
    fn default() -> (r: Self)
        ensures
            r == SortMode::Duration,
    {
        SortMode::Duration
    }
}

/// Successor of `m` under `SortMode::next`.
pub open spec fn sort_mode_after(m: SortMode) -> SortMode {
    match m {
        SortMode::Duration => SortMode::State,
        SortMode::State => SortMode::Pid,
        SortMode::Pid => SortMode::Duration,
    }
}

impl SortMode {
    pub fn next(self) -> (r: Self)
        ensures
            r == sort_mode_after(self),
    {
        match self {
            SortMode::Duration => SortMode::State,
            SortMode::State => SortMode::Pid,
            SortMode::Pid => SortMode::Duration,
        }
    }

    pub fn label(self) -> (r: &'static str)
        ensures
            r@ == (match self {
                SortMode::Duration => "duration"@,
                SortMode::State => "state"@,
                SortMode::Pid => "pid"@,
            }),
    {
        match self {
            SortMode::Duration => "duration",
            SortMode::State => "state",
            SortMode::Pid => "pid",
        }
    }
}

/// Sort column of the Schema Lens table.
#[derive(Clone, Copy, Debug, PartialEq, Eq, Structural)]
pub enum SchemaSortMode {
    TotalSize,
    DeadTuples,
    BloatPct,
    SeqScans,
    Growth,
}

impl Default for SchemaSortMode {
    fn default() -> (r: Self)
        ensures
            r == SchemaSortMode::TotalSize,
    {
        SchemaSortMode::TotalSize
    }
}

/// Successor of `m` under `SchemaSortMode::next`.
pub open spec fn schema_sort_after(m: SchemaSortMode) -> SchemaSortMode {
    match m {
        SchemaSortMode::TotalSize => SchemaSortMode::DeadTuples,
        SchemaSortMode::DeadTuples => SchemaSortMode::BloatPct,
        SchemaSortMode::BloatPct => SchemaSortMode::SeqScans,
        SchemaSortMode::SeqScans => SchemaSortMode::Growth,
        SchemaSortMode::Growth => SchemaSortMode::TotalSize,
    }
}

impl SchemaSortMode {
    pub fn next(self) -> (r: Self)
        ensures
            r == schema_sort_after(self),
    {
        match self {
            SchemaSortMode::TotalSize => SchemaSortMode::DeadTuples,
            SchemaSortMode::DeadTuples => SchemaSortMode::BloatPct,
            SchemaSortMode::BloatPct => SchemaSortMode::SeqScans,
            SchemaSortMode::SeqScans => SchemaSortMode::Growth,
            SchemaSortMode::Growth => SchemaSortMode::TotalSize,
        }
    }

    pub fn label(self) -> (r: &'static str)
        ensures
            r@ == (match self {
                SchemaSortMode::TotalSize => "size"@,
                SchemaSortMode::DeadTuples => "dead"@,
                SchemaSortMode::BloatPct => "bloat%"@,
                SchemaSortMode::SeqScans => "seq"@,
                SchemaSortMode::Growth => "\u{394}1h"@,
            }),
    {
        match self {
            SchemaSortMode::TotalSize => "size",
            SchemaSortMode::DeadTuples => "dead",
            SchemaSortMode::BloatPct => "bloat%",
            SchemaSortMode::SeqScans => "seq",
            SchemaSortMode::Growth => "\u{394}1h",
        }
    }
}

/// Which sub-view of the Schema Lens is on screen.
#[derive(Clone, Copy, Debug, PartialEq, Eq, Structural)]
pub enum SchemaView {
    Tables,
    Vacuum,
    Sequences,
}

impl Default for SchemaView {
    fn default() -> (r: Self)
        ensures
            r == SchemaView::Tables,
    {
        SchemaView::Tables
    }
}

/// Successor of `m` under `SchemaView::next`.
pub open spec fn schema_view_after(m: SchemaView) -> SchemaView {
    match m {
        SchemaView::Tables => SchemaView::Vacuum,
        SchemaView::Vacuum => SchemaView::Tables,
        SchemaView::Sequences => SchemaView::Tables,
    }
}

impl SchemaView {
    /// `v`: Tables and Vacuum swap; the Sequences view goes back to Tables.
    pub fn next(self) -> (r: Self)
        ensures
            r == schema_view_after(self),
    {
        match self {
            SchemaView::Tables => SchemaView::Vacuum,
            SchemaView::Vacuum => SchemaView::Tables,
            SchemaView::Sequences => SchemaView::Tables,
        }
    }
}

/// Which body the Micro Lens shows.
#[derive(Clone, Copy, Debug, PartialEq, Eq, Structural)]
pub enum MicroView {
    Activity,
    Idle,
}

impl Default for MicroView {
    fn default() -> (r: Self)
        ensures
            r == MicroView::Activity,
    {
        MicroView::Activity
    }
}

/// Successor of `m` under `MicroView::next`.
pub open spec fn micro_view_after(m: MicroView) -> MicroView {
    match m {
        MicroView::Activity => MicroView::Idle,
        MicroView::Idle => MicroView::Activity,
    }
}

impl MicroView {
    pub fn next(self) -> (r: Self)
        ensures
            r != self,
            r == micro_view_after(self),
    {
        match self {
            MicroView::Activity => MicroView::Idle,
            MicroView::Idle => MicroView::Activity,
        }
    }
}

/// Sort column of the Query Lens table.
#[derive(Clone, Copy, Debug, PartialEq, Eq, Structural)]
pub enum StatementsSortMode {
    TotalTime,
    Calls,
    Mean,
    Rows,
    Temp,
}

impl Default for StatementsSortMode {
    fn default() -> (r: Self)
        ensures
            r == StatementsSortMode::TotalTime,
    {
        StatementsSortMode::TotalTime
    }
}

/// Successor of `m` under `StatementsSortMode::next`.
pub open spec fn statements_sort_after(m: StatementsSortMode) -> StatementsSortMode {
    match m {
        StatementsSortMode::TotalTime => StatementsSortMode::Calls,
        StatementsSortMode::Calls => StatementsSortMode::Mean,
        StatementsSortMode::Mean => StatementsSortMode::Rows,
        StatementsSortMode::Rows => StatementsSortMode::Temp,
        StatementsSortMode::Temp => StatementsSortMode::TotalTime,
    }
}

impl StatementsSortMode {
    pub fn next(self) -> (r: Self)
        ensures
            r == statements_sort_after(self),
    {
        match self {
            StatementsSortMode::TotalTime => StatementsSortMode::Calls,
            StatementsSortMode::Calls => StatementsSortMode::Mean,
            StatementsSortMode::Mean => StatementsSortMode::Rows,
            StatementsSortMode::Rows => StatementsSortMode::Temp,
            StatementsSortMode::Temp => StatementsSortMode::TotalTime,
        }
    }

    pub fn label(self) -> (r: &'static str)
        ensures
            r@ == (match self {
                StatementsSortMode::TotalTime => "total"@,
                StatementsSortMode::Calls => "calls"@,
                StatementsSortMode::Mean => "mean"@,
                StatementsSortMode::Rows => "rows"@,
                StatementsSortMode::Temp => "temp"@,
            }),
    {
        match self {
            StatementsSortMode::TotalTime => "total",
            StatementsSortMode::Calls => "calls",
            StatementsSortMode::Mean => "mean",
            StatementsSortMode::Rows => "rows",
            StatementsSortMode::Temp => "temp",
        }
    }
}

/// Every sort mode's `next` is a cycle through all of its variants: the
/// Micro Lens modes return after three presses of `s`, the Records Lens
/// modes after four, the Schema and Query Lens modes after five.
pub proof fn lemma_sort_modes_cycle(
    m: SortMode,
    r: RecordsSortMode,
    s: SchemaSortMode,
    q: StatementsSortMode,
    v: MicroView,
    p: BlocksPane,
)
    ensures
        sort_mode_after(sort_mode_after(sort_mode_after(m))) == m,
        records_sort_after(records_sort_after(records_sort_after(records_sort_after(r)))) == r,
        schema_sort_after(schema_sort_after(schema_sort_after(schema_sort_after(schema_sort_after(s))))) == s,
        statements_sort_after(statements_sort_after(statements_sort_after(statements_sort_after(statements_sort_after(q))))) == q,
        micro_view_after(micro_view_after(v)) == v,
        pane_toggled(pane_toggled(p)) == p,
{
}

} // verus!
