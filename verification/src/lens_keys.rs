//! Lens-specific top-level keys: cycling a lens's sort, collapsing
//! partitions, the Schema Lens's cross-lens jumps, Enter (detail panels and
//! loading a recording), Esc (closing what is open, leaving replay, the
//! double-Esc quit barrier) and the admin confirmation's targets.
use vstd::prelude::*;
use crate::app::{
    activity_fresh, clamp_result, clamp_selection, clamped, feedback_set, feedback_str,
    first_session, find_session, indexes_fresh, lemma_wf_parts, records_fresh, resort,
    resort_indexes, resort_records, resort_schema, resort_statements, schema_fresh,
    selected_activity, selected_index_idx, selected_lock_idx, selected_node_idx,
    selected_progress_idx, selected_record_idx, selected_statement_idx, selected_table_idx,
    snapshot_applied, statements_fresh, App, ConfirmState, Cursors, FilterEdit, Filters,
    HostRequest, Orders, SortModes, ADMIN_FEEDBACK_TICKS, ESC_QUIT_WINDOW_TICKS,
};
use crate::dashboard::{ask_host, host_asked};
use crate::modes::{
    records_sort_after, schema_sort_after, sort_mode_after, statements_sort_after, BlocksPane,
    MicroView, SchemaView, Tab,
};
use crate::navigation::{detail_synced, sync_table_detail_request};
use crate::order::lemma_display_order_same_len;
use crate::rows::{
    activity_keep, activity_keys, record_keep, record_keys, statement_keep, statement_keys,
    table_keep, table_keys,
};
use crate::snapshot::AdminCommand;
use crate::text::push_str;

verus! {

// ---------------------------------------------------------------------
// `s`: sort cycling
// ---------------------------------------------------------------------

/// The Micro Lens's next sort; the row count stays.
pub open spec fn activity_resorted(a: App, b: App) -> bool {
    &&& b == App {
        sort: SortModes { activity: sort_mode_after(a.sort.activity), ..a.sort },
        orders: Orders { activity: b.orders.activity, ..a.orders },
        ..a
    }
    &&& activity_fresh(*b.snapshot, b.filters.micro.text@, b.sort.activity, b.orders.activity@)
}

fn cycle_activity_sort(app: &mut App)
    requires
        old(app).wf(),
    ensures
        activity_resorted(*old(app), *final(app)),
        final(app).wf(),
{
    proof {
        lemma_wf_parts(*old(app));
    }
    app.sort.activity = app.sort.activity.next();
    resort(app);
    proof {
        reveal(activity_fresh);
        lemma_display_order_same_len(
            activity_keys(old(app).snapshot.activity@, old(app).sort.activity),
            activity_keys(app.snapshot.activity@, app.sort.activity),
            activity_keep(app.snapshot.activity@, app.filters.micro.text@),
            app.snapshot.activity@.len() as int,
            old(app).orders.activity@,
            app.orders.activity@,
        );
        lemma_wf_parts(*app);
    }
}

/// The Schema Lens Tables view's next sort; the row count stays.
pub open spec fn schema_resorted(a: App, b: App) -> bool {
    &&& b == App {
        sort: SortModes { schema: schema_sort_after(a.sort.schema), ..a.sort },
        orders: Orders { schema: b.orders.schema, ..a.orders },
        ..a
    }
    &&& schema_fresh(*b.snapshot, b.filters.schema.text@, b.schema_show_partitions, b.sort.schema, b.orders.schema@)
}

proof fn lemma_schema_resort_len(a: App, b: App)
    requires
        schema_fresh(*a.snapshot, a.filters.schema.text@, a.schema_show_partitions, a.sort.schema, a.orders.schema@),
        schema_fresh(*b.snapshot, b.filters.schema.text@, b.schema_show_partitions, b.sort.schema, b.orders.schema@),
        a.snapshot == b.snapshot,
        a.filters.schema.text@ == b.filters.schema.text@,
        a.schema_show_partitions == b.schema_show_partitions,
    ensures
        a.orders.schema@.len() == b.orders.schema@.len(),
{
    reveal(schema_fresh);
    match (*a.snapshot).schema {
        Some(sd) => {
            lemma_display_order_same_len(
                table_keys(sd, a.sort.schema),
                table_keys(sd, b.sort.schema),
                table_keep(sd.tables@, a.filters.schema.text@, a.schema_show_partitions),
                sd.tables@.len() as int,
                a.orders.schema@,
                b.orders.schema@,
            );
        },
        None => {},
    }
}

fn cycle_schema_sort(app: &mut App)
    requires
        old(app).wf(),
    ensures
        schema_resorted(*old(app), *final(app)),
        final(app).wf(),
{
    proof {
        lemma_wf_parts(*old(app));
    }
    app.sort.schema = app.sort.schema.next();
    resort_schema(app);
    proof {
        reveal(schema_fresh);
        lemma_schema_resort_len(*old(app), *app);
        lemma_wf_parts(*app);
    }
}

/// The Query Lens's next sort; the row count stays.
pub open spec fn statements_resorted(a: App, b: App) -> bool {
    &&& b == App {
        sort: SortModes { statements: statements_sort_after(a.sort.statements), ..a.sort },
        orders: Orders { statements: b.orders.statements, ..a.orders },
        ..a
    }
    &&& statements_fresh(*b.snapshot, b.filters.query.text@, b.sort.statements, b.orders.statements@)
}

proof fn lemma_statements_resort_len(a: App, b: App)
    requires
        statements_fresh(*a.snapshot, a.filters.query.text@, a.sort.statements, a.orders.statements@),
        statements_fresh(*b.snapshot, b.filters.query.text@, b.sort.statements, b.orders.statements@),
        a.snapshot == b.snapshot,
        a.filters.query.text@ == b.filters.query.text@,
    ensures
        a.orders.statements@.len() == b.orders.statements@.len(),
{
    reveal(statements_fresh);
    match (*a.snapshot).statements {
        Some(st) => {
            lemma_display_order_same_len(
                statement_keys(st@, a.sort.statements),
                statement_keys(st@, b.sort.statements),
                statement_keep(st@, a.filters.query.text@),
                st@.len() as int,
                a.orders.statements@,
                b.orders.statements@,
            );
        },
        None => {},
    }
}

fn cycle_statements_sort(app: &mut App)
    requires
        old(app).wf(),
    ensures
        statements_resorted(*old(app), *final(app)),
        final(app).wf(),
{
    proof {
        lemma_wf_parts(*old(app));
    }
    app.sort.statements = app.sort.statements.next();
    resort_statements(app);
    proof {
        reveal(statements_fresh);
        lemma_statements_resort_len(*old(app), *app);
        lemma_wf_parts(*app);
    }
}

/// The Records Lens's next sort; the row count stays.
pub open spec fn records_resorted(a: App, b: App) -> bool {
    &&& b == App {
        sort: SortModes { records: records_sort_after(a.sort.records), ..a.sort },
        orders: Orders { records: b.orders.records, ..a.orders },
        ..a
    }
    &&& records_fresh(b.records@, b.filters.records.text@, b.sort.records, b.orders.records@)
}

fn cycle_records_sort(app: &mut App)
    requires
        old(app).wf(),
    ensures
        records_resorted(*old(app), *final(app)),
        final(app).wf(),
{
    proof {
        lemma_wf_parts(*old(app));
    }
    app.sort.records = app.sort.records.next();
    resort_records(app);
    proof {
        reveal(records_fresh);
        lemma_display_order_same_len(
            record_keys(app.records@, old(app).sort.records),
            record_keys(app.records@, app.sort.records),
            record_keep(app.records@, app.filters.records.text@),
            app.records@.len() as int,
            old(app).orders.records@,
            app.orders.records@,
        );
        lemma_wf_parts(*app);
    }
}

/// `s`: the lens on screen takes its next sort. The Index and Replication
/// Lenses, the Vacuum and Sequences sub-views and the idle census have
/// fixed orders; the Macro Lens cycles the Micro Lens's sort.
#[verifier::opaque]
pub open spec fn sort_cycled(a: App, b: App) -> bool {
    match a.active_tab {
        Tab::SchemaLens => if a.schema_view == SchemaView::Tables {
            schema_resorted(a, b)
        } else {
            b == a
        },
        Tab::QueryLens => statements_resorted(a, b),
        Tab::RecordsLens => records_resorted(a, b),
        Tab::IndexLens => b == a,
        Tab::ReplicationLens => b == a,
        Tab::MicroLens => if a.micro_view == MicroView::Idle {
            b == a
        } else {
            activity_resorted(a, b)
        },
        _ => activity_resorted(a, b),
    }
}

pub(crate) fn cycle_sort(app: &mut App)
    requires
        old(app).wf(),
    ensures
        sort_cycled(*old(app), *final(app)),
        final(app).wf(),
{
    proof {
        reveal(sort_cycled);
    }
    match app.active_tab {
        Tab::SchemaLens => {
            if app.schema_view == SchemaView::Tables {
                cycle_schema_sort(app);
            }
        },
        Tab::QueryLens => cycle_statements_sort(app),
        Tab::RecordsLens => cycle_records_sort(app),
        Tab::IndexLens => {},
        Tab::ReplicationLens => {},
        Tab::MicroLens => {
            if app.micro_view != MicroView::Idle {
                cycle_activity_sort(app);
            }
        },
        _ => cycle_activity_sort(app),
    }
}

// ---------------------------------------------------------------------
// `p`: partitions
// ---------------------------------------------------------------------

/// `p` on the Schema Lens Tables view: leaf partitions show or hide; the
/// table is re-filtered and the cursors clamped.
#[verifier::opaque]
pub open spec fn partitions_toggled(a: App, b: App) -> bool {
    &&& b == clamp_result(
        App {
            schema_show_partitions: !a.schema_show_partitions,
            orders: Orders { schema: b.orders.schema, ..a.orders },
            ..a
        },
    )
    &&& schema_fresh(*b.snapshot, b.filters.schema.text@, b.schema_show_partitions, b.sort.schema, b.orders.schema@)
}

pub(crate) fn toggle_partitions(app: &mut App)
    requires
        old(app).wf(),
    ensures
        partitions_toggled(*old(app), *final(app)),
        final(app).wf(),
{
    proof {
        reveal(partitions_toggled);
        lemma_wf_parts(*old(app));
    }
    app.schema_show_partitions = !app.schema_show_partitions;
    resort_schema(app);
    clamp_selection(app);
    proof {
        lemma_wf_parts(*app);
    }
}

// ---------------------------------------------------------------------
// `x` / `i`: cross-lens jumps from the selected table
// ---------------------------------------------------------------------

/// `x` on the Schema Lens Tables view: jump to the Query Lens filtered by
/// the selected table's name, cursor on its first row.
#[verifier::opaque]
pub open spec fn query_jumped(a: App, b: App) -> bool {
    match selected_table_idx(a) {
        Some(i) => {
            let name = (*a.snapshot).schema->0.tables@[i].name;
            &&& b == clamp_result(
                App {
                    previous_tab: Some(a.active_tab),
                    detail_open: false,
                    waits_open: false,
                    active_tab: Tab::QueryLens,
                    filters: Filters { query: FilterEdit { text: name, saved: name, editing: false }, ..a.filters },
                    orders: Orders { statements: b.orders.statements, ..a.orders },
                    cursors: Cursors { statements: Some(0), ..a.cursors },
                    ..a
                },
            )
            &&& statements_fresh(*b.snapshot, b.filters.query.text@, b.sort.statements, b.orders.statements@)
        },
        None => b == a,
    }
}

fn jump_query(app: &mut App, name: String)
    requires
        old(app).wf(),
    ensures
        *final(app) == clamp_result(
            App {
                previous_tab: Some(old(app).active_tab),
                detail_open: false,
                waits_open: false,
                active_tab: Tab::QueryLens,
                filters: Filters { query: FilterEdit { text: name, saved: name, editing: false }, ..old(app).filters },
                orders: Orders { statements: final(app).orders.statements, ..old(app).orders },
                cursors: Cursors { statements: Some(0), ..old(app).cursors },
                ..*old(app)
            },
        ),
        statements_fresh(*final(app).snapshot, final(app).filters.query.text@, final(app).sort.statements, final(app).orders.statements@),
        final(app).wf(),
{
    proof {
        lemma_wf_parts(*old(app));
    }
    app.previous_tab = Some(app.active_tab);
    app.detail_open = false;
    app.waits_open = false;
    app.active_tab = Tab::QueryLens;
    app.filters.query = FilterEdit { text: name.clone(), saved: name, editing: false };
    resort_statements(app);
    app.cursors.statements = Some(0);
    clamp_selection(app);
    proof {
        lemma_wf_parts(*app);
    }
}

pub(crate) fn cross_to_query(app: &mut App)
    requires
        old(app).wf(),
    ensures
        query_jumped(*old(app), *final(app)),
        final(app).wf(),
{
    proof {
        reveal(query_jumped);
    }
    let name = match app.selected_table() {
        Some(t) => t.name.clone(),
        None => {
            return;
        },
    };
    jump_query(app, name);
}

/// `i` on the Schema Lens Tables view: jump to the Index Lens filtered by
/// the selected table's name, cursor on its first row.
#[verifier::opaque]
pub open spec fn index_jumped(a: App, b: App) -> bool {
    match selected_table_idx(a) {
        Some(i) => {
            let name = (*a.snapshot).schema->0.tables@[i].name;
            &&& b == clamp_result(
                App {
                    previous_tab: Some(a.active_tab),
                    detail_open: false,
                    waits_open: false,
                    active_tab: Tab::IndexLens,
                    filters: Filters { index: FilterEdit { text: name, saved: name, editing: false }, ..a.filters },
                    orders: Orders { index: b.orders.index, ..a.orders },
                    cursors: Cursors { index: Some(0), ..a.cursors },
                    ..a
                },
            )
            &&& indexes_fresh(*b.snapshot, b.filters.index.text@, b.orders.index@)
        },
        None => b == a,
    }
}

fn jump_index(app: &mut App, name: String)
    requires
        old(app).wf(),
    ensures
        *final(app) == clamp_result(
            App {
                previous_tab: Some(old(app).active_tab),
                detail_open: false,
                waits_open: false,
                active_tab: Tab::IndexLens,
                filters: Filters { index: FilterEdit { text: name, saved: name, editing: false }, ..old(app).filters },
                orders: Orders { index: final(app).orders.index, ..old(app).orders },
                cursors: Cursors { index: Some(0), ..old(app).cursors },
                ..*old(app)
            },
        ),
        indexes_fresh(*final(app).snapshot, final(app).filters.index.text@, final(app).orders.index@),
        final(app).wf(),
{
    proof {
        lemma_wf_parts(*old(app));
    }
    app.previous_tab = Some(app.active_tab);
    app.detail_open = false;
    app.waits_open = false;
    app.active_tab = Tab::IndexLens;
    app.filters.index = FilterEdit { text: name.clone(), saved: name, editing: false };
    resort_indexes(app);
    app.cursors.index = Some(0);
    clamp_selection(app);
    proof {
        lemma_wf_parts(*app);
    }
}

pub(crate) fn cross_to_index(app: &mut App)
    requires
        old(app).wf(),
    ensures
        index_jumped(*old(app), *final(app)),
        final(app).wf(),
{
    proof {
        reveal(index_jumped);
    }
    let name = match app.selected_table() {
        Some(t) => t.name.clone(),
        None => {
            return;
        },
    };
    jump_index(app, name);
}

} // verus!
