use std::sync::Arc;

use pg_lens_tui::app::{
    resort_records, Action, App, HostRequest, Key, KeyInput, PickerEntry, PickerState, Replay,
    ADMIN_FEEDBACK_TICKS, DEFAULT_REFRESH_MS, ESC_QUIT_WINDOW_TICKS, PAGE_SIZE, REFRESH_MAX_MS,
    REFRESH_MIN_MS, REFRESH_STEP_MS,
};
use pg_lens_tui::modes::{
    MicroView, RecordsSortMode, SchemaSortMode, SchemaView, SortMode, StatementsSortMode, Tab,
};
use pg_lens_tui::snapshot::{
    ActivityRow, AdminCommand, AdminKind, AdminOutcome, AdminResult, BlockTreeNode, BloatRow,
    ColumnRow, DatabaseRow, IndexFinding, IndexRow, LockRow, ProgressRow, RecordEntry,
    RecordingKind, ReplicationSlotRow, SchemaData, SequenceRow, Snapshot, StatementRow,
    TableDetail, TableStatRow, VacuumTableRow, Vitals,
};
use pg_lens_tui::rows::{activity_order, find_table_bloat, find_table_for_vacuum_row, row_matches};
use pg_lens_tui::ui::blocks::flatten_tree;
use pg_lens_tui::ui::index_lens::{index_finding_line, index_flags_summary};
use pg_lens_tui::update::update;

// ---------------------------------------------------------------------
// Fixture: a small, fully populated snapshot of a busy "shop" database.
// ---------------------------------------------------------------------

fn s(x: &str) -> String {
    x.to_string()
}

fn activity(
    pid: i32,
    database: &str,
    username: &str,
    app: &str,
    state: &str,
    wait: Option<&str>,
    query: &str,
    duration_order: i64,
) -> ActivityRow {
    ActivityRow {
        pid,
        database: s(database),
        username: s(username),
        application_name: s(app),
        client: s("10.0.0.5"),
        state: s(state),
        wait_event: wait.map(s),
        query: s(query),
        duration_order,
    }
}

#[allow(clippy::too_many_arguments)]
fn table(
    oid: u32,
    schema: &str,
    name: &str,
    is_partition: bool,
    partition_count: Option<u32>,
    total_bytes: i64,
    n_dead_tup: i64,
    seq_scan: i64,
    growth_1h_bytes: Option<i64>,
) -> TableStatRow {
    TableStatRow {
        oid,
        schema: s(schema),
        name: s(name),
        is_partition,
        partition_count,
        total_bytes,
        n_dead_tup,
        seq_scan,
        growth_1h_bytes,
    }
}

fn vacuum_row(schema: &str, name: &str) -> VacuumTableRow {
    VacuumTableRow { schema: s(schema), name: s(name) }
}

fn bloat(schema: &str, name: &str, pct_order: Option<i64>) -> BloatRow {
    BloatRow { schema: s(schema), name: s(name), bloat_pct_order: pct_order }
}

fn index(table: &str, name: &str, finding: IndexFinding, bytes: i64, def: &str) -> IndexRow {
    let primary = name.ends_with("_pkey");
    IndexRow {
        schema: s("public"),
        table: s(table),
        name: s(name),
        finding,
        index_bytes: bytes,
        indexdef: s(def),
        is_primary: primary,
        is_unique: primary,
        is_exclusion: false,
        is_constraint: primary,
    }
}

fn statement(query: &str, id: &str, calls: i64, total: i64, mean: i64, rows: i64, temp: i64) -> StatementRow {
    StatementRow {
        query: s(query),
        query_id: Some(s(id)),
        calls,
        total_exec_order: total,
        mean_exec_order: mean,
        rows,
        temp_blks_written: temp,
    }
}

fn sequence(name: &str, table: &str, pct_order: i64, remaining: i64) -> SequenceRow {
    SequenceRow {
        schema: s("public"),
        sequence_name: s(name),
        table_name: s(table),
        column_name: s("id"),
        percent_used_order: pct_order,
        remaining_count: remaining,
    }
}

fn blocker(pid: i32, user: &str, query: &str, mode: Option<&str>, children: Vec<BlockTreeNode>) -> BlockTreeNode {
    BlockTreeNode {
        pid,
        usename: s(user),
        application_name: s("psql"),
        state: s("active"),
        query: s(query),
        mode: mode.map(s),
        relation: mode.map(|_| s("orders")),
        is_root: children.len() > 0,
        is_deadlock: false,
        num_descendants: children.len() as u32,
        children,
    }
}

fn lock(pid: i32, user: &str, query: &str, mode: &str, granted: bool) -> LockRow {
    LockRow {
        pid,
        usename: s(user),
        query: s(query),
        locktype: s("relation"),
        schema: s("public"),
        relation: s("orders"),
        mode: s(mode),
        granted,
    }
}

/// Order keys of a few positive percentages (the `f64` bit patterns).
const PCT_2: i64 = 0x4000_0000_0000_0000;
const PCT_5: i64 = 0x4014_0000_0000_0000;
const PCT_12: i64 = 0x4028_0000_0000_0000;
const PCT_30: i64 = 0x403E_0000_0000_0000;
const PCT_50: i64 = 0x4049_0000_0000_0000;

fn mock_schema() -> SchemaData {
    SchemaData {
        tables: vec![
            table(16384, "public", "pgbench_accounts", false, None, 130_000_000, 1_200, 3, Some(1_000_000)),
            table(16390, "public", "pgbench_branches", false, None, 40_960, 10, 90_000, Some(0)),
            table(16400, "public", "orders", false, None, 50_000_000, 5_000, 40, Some(2_000_000)),
            table(16410, "public", "order_items", false, None, 80_000_000, 250_000, 12, Some(-9_000_000)),
            table(16420, "audit", "raw_events", false, None, 20_000_000, 100, 2, None),
            table(16430, "public", "events_by_month", false, Some(3), 30_000_000, 300, 5, Some(500_000)),
            table(16431, "public", "events_by_month_2026_01", true, None, 10_000_000, 100, 1, Some(100)),
            table(16432, "public", "events_by_month_2026_02", true, None, 10_000_000, 100, 2, Some(200)),
            table(16433, "public", "events_by_month_2026_03", true, None, 10_000_000, 100, 2, Some(200)),
        ],
        table_bloat: vec![
            bloat("public", "pgbench_accounts", Some(PCT_5)),
            bloat("public", "orders", Some(PCT_12)),
            bloat("public", "order_items", Some(PCT_30)),
            bloat("audit", "raw_events", None),
            bloat("public", "events_by_month", Some(PCT_2)),
        ],
        vacuum_tables: vec![
            vacuum_row("public", "order_items"),
            vacuum_row("public", "orders"),
            vacuum_row("audit", "raw_events"),
        ],
        sequences: vec![
            sequence("orders_id_seq", "orders", PCT_50, 1_073_000_000),
            sequence("order_items_id_seq", "order_items", PCT_12, 1_890_000_000),
            sequence("pgbench_history_seq", "pgbench_history", PCT_2, 2_100_000_000),
        ],
        indexes: vec![
            index(
                "pgbench_accounts",
                "pgbench_accounts_pkey",
                IndexFinding::NoFinding,
                22_000_000,
                "CREATE UNIQUE INDEX pgbench_accounts_pkey ON public.pgbench_accounts USING btree (aid)",
            ),
            index(
                "orders",
                "orders_pkey",
                IndexFinding::NoFinding,
                9_000_000,
                "CREATE UNIQUE INDEX orders_pkey ON public.orders USING btree (id)",
            ),
            index(
                "order_items",
                "order_items_order_id_idx",
                IndexFinding::DuplicatePrefix { partner: s("order_items_order_id_qty_idx") },
                7_000_000,
                "CREATE INDEX order_items_order_id_idx ON public.order_items USING btree (order_id)",
            ),
            index(
                "order_items",
                "order_items_order_id_qty_idx",
                IndexFinding::Unused,
                8_000_000,
                "CREATE INDEX order_items_order_id_qty_idx ON public.order_items USING btree (order_id, qty)",
            ),
            index(
                "order_items",
                "order_items_shipped_at_idx",
                IndexFinding::Invalid,
                1_000_000,
                "CREATE INDEX order_items_shipped_at_idx ON public.order_items USING btree (shipped_at)",
            ),
        ],
    }
}

/// An `Ok` snapshot with every collection populated.
fn mock() -> Snapshot {
    Snapshot {
        status_ok: true,
        database: s("shop"),
        server_version: s("16.4"),
        uptime_secs: 3 * 86_400 + 4 * 3_600,
        connections_total: 12,
        max_connections: 100,
        vitals: Vitals {
            active: 3,
            idle: 8,
            idle_in_transaction: 1,
            waiting: 1,
            deadlocks: 0,
            temp_files: 4,
            temp_bytes: 8_388_608,
        },
        activity: vec![
            activity(4312, "shop", "app", "pgbench", "active", None,
                "UPDATE pgbench_accounts SET abalance = abalance + 1 WHERE aid = 1", 900),
            activity(4977, "shop", "app", "psql", "active", Some("PgSleep"), "SELECT pg_sleep(30)", 3_000),
            activity(5120, "postgres", "postgres", "pgbench", "idle in transaction", Some("ClientRead"),
                "SELECT abalance FROM pgbench_accounts WHERE aid = 7", 1_500),
            activity(6001, "analytics", "report", "metabase", "active", None, "SELECT count(*) FROM orders", 600),
            activity(7002, "shop", "app", "web", "idle", None, "COMMIT", 100),
        ],
        schema: Some(mock_schema()),
        statements: Some(vec![
            statement("UPDATE pgbench_accounts SET abalance = abalance + $1 WHERE aid = $2", "-728",
                120_000, 900, 10, 120_000, 0),
            statement("SELECT abalance FROM pgbench_accounts WHERE aid = $1", "3311", 95_000, 500, 5, 95_000, 0),
            statement("SELECT pg_sleep($1)", "42", 12, 400, 5_000, 12, 0),
            statement("SELECT * FROM orders o JOIN order_items i ON i.order_id = o.id ORDER BY o.created_at",
                "77", 300, 800, 300, 2_000_000, 51_200),
            statement("INSERT INTO pgbench_history (tid, bid, aid, delta, mtime) VALUES ($1, $2, $3, $4, now())",
                "88", 119_000, 300, 3, 119_000, 0),
        ]),
        replication_slots: Some(vec![ReplicationSlotRow {
            slot_name: s("standby_1"),
            slot_type: s("physical"),
            active: true,
            wal_status: Some(s("reserved")),
            retained_wal_bytes: Some(16_777_216),
            invalidated: None,
            xmin_age: None,
        }]),
        subscriptions: None,
        idle_sessions: Some(4),
        blocking_tree: Some(flatten_tree(&vec![blocker(
            4312,
            "app",
            "LOCK TABLE orders",
            None,
            vec![blocker(6001, "report", "SELECT count(*) FROM orders", Some("AccessShareLock"), Vec::new())],
        )])),
        active_locks: Some(vec![
            lock(4312, "app", "LOCK TABLE orders", "AccessExclusiveLock", true),
            lock(6001, "report", "SELECT count(*) FROM orders", "AccessShareLock", false),
        ]),
        progress: vec![ProgressRow {
            pid: 7100,
            command: s("VACUUM"),
            relation: s("public.order_items"),
            phase: s("scanning heap"),
            detail: s("41%"),
        }],
        databases: Some(vec![
            DatabaseRow { name: s("postgres"), size_bytes: Some(8_000_000) },
            DatabaseRow { name: s("shop"), size_bytes: Some(300_000_000) },
            DatabaseRow { name: s("analytics"), size_bytes: Some(90_000_000) },
        ]),
        last_admin_action: None,
        table_detail: Some(TableDetail {
            oid: 16410,
            has_error: false,
            columns: vec![
                ColumnRow { name: s("id"), data_type: s("bigint"), not_null: true },
                ColumnRow { name: s("order_id"), data_type: s("bigint"), not_null: true },
                ColumnRow { name: s("qty"), data_type: s("integer"), not_null: false },
            ],
        }),
    }
}

/// The poller before its first connection: no data at all.
fn connecting() -> Snapshot {
    Snapshot::empty()
}

/// A fresh model showing the fixture snapshot.
fn new_app() -> App {
    let mut app = App::new();
    update(&mut app, Action::Snapshot(Arc::new(mock()), 1_000));
    app
}

fn press(code: Key) -> Action {
    Action::Key(KeyInput::press(code))
}

fn ch(c: char) -> Action {
    press(Key::Char(c))
}

fn ctrl(c: char) -> Action {
    Action::Key(KeyInput::ctrl(Key::Char(c)))
}

fn tick() -> Action {
    Action::Tick { frame_due: false, now_ms: 1_000 }
}

fn type_str(app: &mut App, text: &str) {
    for c in text.chars() {
        update(app, ch(c));
    }
}

fn feedback_text(app: &App) -> String {
    app.admin_feedback.as_ref().expect("feedback shown").text.clone()
}

/// Activity rows in display order, projected by `field`.
fn displayed<T>(app: &App, field: impl Fn(&ActivityRow) -> T) -> Vec<T> {
    app.orders.activity.iter().map(|&i| field(&app.snapshot.activity[i])).collect()
}

/// Schema Lens rows in display order, projected by `field`.
fn schema_displayed<T>(app: &App, field: impl Fn(&TableStatRow) -> T) -> Vec<T> {
    let schema = app.snapshot.schema.as_ref().expect("schema");
    app.orders.schema.iter().map(|&i| field(&schema.tables[i])).collect()
}

/// Query Lens rows in display order, projected by `field`.
fn statements_displayed<T>(app: &App, field: impl Fn(&StatementRow) -> T) -> Vec<T> {
    let statements = app.snapshot.statements.as_ref().expect("statements");
    app.orders.statements.iter().map(|&i| field(&statements[i])).collect()
}

fn descending(v: &[i64]) -> bool {
    v.windows(2).all(|w| w[0] >= w[1])
}

// ---------------------------------------------------------------------
// Quitting and the double-Esc barrier
// ---------------------------------------------------------------------

#[test]
fn q_quits() {
    let mut app = new_app();
    update(&mut app, ch('q'));
    assert!(app.should_quit);
}

#[test]
fn esc_arms_then_second_esc_quits() {
    let mut app = new_app();
    update(&mut app, press(Key::Esc));
    assert!(!app.should_quit, "first Esc must not quit");
    assert!(app.esc_quit_armed_until.is_some());
    let text = feedback_text(&app);
    assert!(text.contains("Esc again"), "{}", text);
    update(&mut app, press(Key::Esc));
    assert!(app.should_quit, "second Esc inside the window quits");
}

#[test]
fn esc_barrier_expires_after_the_window() {
    let mut app = new_app();
    update(&mut app, press(Key::Esc));
    assert!(!app.should_quit);
    for _ in 0..=ESC_QUIT_WINDOW_TICKS {
        update(&mut app, tick());
    }
    update(&mut app, press(Key::Esc));
    assert!(!app.should_quit, "late Esc re-arms instead of quitting");
    update(&mut app, press(Key::Esc));
    assert!(app.should_quit);
}

#[test]
fn esc_closing_the_detail_does_not_arm_quitting() {
    let mut app = new_app();
    app.active_tab = Tab::MicroLens;
    update(&mut app, press(Key::Enter));
    assert!(app.detail_open);
    update(&mut app, press(Key::Esc));
    assert!(!app.detail_open);
    assert!(!app.should_quit);
    assert!(app.esc_quit_armed_until.is_none(), "closing an overlay must not arm the quit barrier");
}

// ---------------------------------------------------------------------
// Waits panel, help overlay, vacuum and idle sub-views
// ---------------------------------------------------------------------

#[test]
fn w_toggles_the_waits_panel_on_the_micro_lens_only() {
    let mut app = new_app();
    app.active_tab = Tab::MicroLens;
    update(&mut app, ch('w'));
    assert!(app.waits_open);
    update(&mut app, ch('w'));
    assert!(!app.waits_open);

    for tab in [Tab::MacroLens, Tab::ReplicationLens, Tab::SchemaLens, Tab::IndexLens, Tab::QueryLens] {
        let mut app = new_app();
        app.active_tab = tab;
        update(&mut app, ch('w'));
        assert!(!app.waits_open, "{tab:?}");
    }
}

#[test]
fn w_and_enter_detail_are_mutually_exclusive_overlays() {
    let mut app = new_app();
    app.active_tab = Tab::MicroLens;
    update(&mut app, press(Key::Enter));
    assert!(app.detail_open);
    update(&mut app, ch('w'));
    assert!(app.waits_open);
    assert!(!app.detail_open);
    update(&mut app, press(Key::Enter));
    assert!(!app.waits_open);
    assert!(!app.detail_open);
}

#[test]
fn esc_closing_the_waits_panel_does_not_arm_quitting() {
    let mut app = new_app();
    app.active_tab = Tab::MicroLens;
    update(&mut app, ch('w'));
    assert!(app.waits_open);
    update(&mut app, press(Key::Esc));
    assert!(!app.waits_open);
    assert!(!app.should_quit);
    assert!(app.esc_quit_armed_until.is_none(), "closing an overlay must not arm the quit barrier");
}

#[test]
fn question_mark_opens_the_help_overlay_from_any_lens() {
    for tab in [
        Tab::MacroLens,
        Tab::MicroLens,
        Tab::ReplicationLens,
        Tab::SchemaLens,
        Tab::IndexLens,
        Tab::QueryLens,
    ] {
        let mut app = new_app();
        app.active_tab = tab;
        update(&mut app, ch('?'));
        assert!(app.help_open, "{tab:?}");
    }
}

#[test]
fn esc_closes_help_without_arming_the_quit_barrier() {
    let mut app = new_app();
    update(&mut app, ch('?'));
    assert!(app.help_open);
    update(&mut app, press(Key::Esc));
    assert!(!app.help_open);
    assert!(!app.should_quit);
    assert!(app.esc_quit_armed_until.is_none(), "closing the help overlay must not arm the quit barrier");
}

#[test]
fn question_mark_again_closes_help() {
    let mut app = new_app();
    update(&mut app, ch('?'));
    assert!(app.help_open);
    update(&mut app, ch('?'));
    assert!(!app.help_open);
}

#[test]
fn help_esc_precedence_closes_help_before_other_overlay_state() {
    let mut app = new_app();
    app.active_tab = Tab::MicroLens;
    app.waits_open = true;
    app.help_open = true;
    update(&mut app, press(Key::Esc));
    assert!(!app.help_open, "help must close first");
    assert!(app.waits_open, "the overlay underneath is untouched");
    assert!(!app.should_quit);
}

#[test]
fn q_and_navigation_are_inert_while_help_is_open() {
    let mut app = new_app();
    app.active_tab = Tab::MicroLens;
    let before = app.cursors.activity;
    update(&mut app, ch('?'));
    update(&mut app, ch('q'));
    assert!(!app.should_quit, "q must be inert while help is open");
    update(&mut app, ch('j'));
    assert_eq!(app.cursors.activity, before);
    assert!(app.help_open);
}

#[test]
fn ctrl_c_still_quits_while_help_is_open() {
    let mut app = new_app();
    update(&mut app, ch('?'));
    update(&mut app, ctrl('c'));
    assert!(app.should_quit);
}

#[test]
fn tab_switch_closes_the_waits_panel() {
    let mut app = new_app();
    app.active_tab = Tab::MicroLens;
    update(&mut app, ch('w'));
    assert!(app.waits_open);
    update(&mut app, press(Key::Tab));
    assert!(!app.waits_open);
}

#[test]
fn v_toggles_the_schema_lens_vacuum_view_only() {
    let mut app = new_app();
    app.active_tab = Tab::SchemaLens;
    assert_eq!(app.schema_view, SchemaView::Tables);
    update(&mut app, ch('v'));
    assert_eq!(app.schema_view, SchemaView::Vacuum);
    update(&mut app, ch('v'));
    assert_eq!(app.schema_view, SchemaView::Tables);

    for tab in [Tab::MacroLens, Tab::MicroLens, Tab::ReplicationLens, Tab::IndexLens, Tab::QueryLens] {
        let mut app = new_app();
        app.active_tab = tab;
        update(&mut app, ch('v'));
        assert_eq!(app.schema_view, SchemaView::Tables, "{tab:?}");
    }
}

#[test]
fn esc_closes_the_vacuum_view_without_arming_quit() {
    let mut app = new_app();
    app.active_tab = Tab::SchemaLens;
    update(&mut app, ch('v'));
    assert_eq!(app.schema_view, SchemaView::Vacuum);
    update(&mut app, press(Key::Esc));
    assert_eq!(app.schema_view, SchemaView::Tables, "Esc returns to Tables");
    assert!(!app.should_quit);
    assert!(app.esc_quit_armed_until.is_none(), "closing the sub-view must not arm the quit barrier");
}

#[test]
fn v_closes_the_tables_view_detail_panel() {
    let mut app = new_app();
    app.active_tab = Tab::SchemaLens;
    update(&mut app, press(Key::Enter));
    assert!(app.detail_open);
    update(&mut app, ch('v'));
    assert_eq!(app.schema_view, SchemaView::Vacuum);
    assert!(!app.detail_open);
}

#[test]
fn enter_is_inert_in_the_vacuum_view() {
    let mut app = new_app();
    app.active_tab = Tab::SchemaLens;
    update(&mut app, ch('v'));
    update(&mut app, press(Key::Enter));
    assert!(!app.detail_open);
}

#[test]
fn s_is_inert_in_the_vacuum_view() {
    let mut app = new_app();
    app.active_tab = Tab::SchemaLens;
    update(&mut app, ch('v'));
    let before = app.sort.schema;
    update(&mut app, ch('s'));
    assert_eq!(app.sort.schema, before, "sort mode must not change");
}

#[test]
fn vacuum_view_scrolls_its_own_independent_cursor() {
    let mut app = new_app();
    app.active_tab = Tab::SchemaLens;
    update(&mut app, ch('j'));
    assert_eq!(app.cursors.schema, Some(1));

    update(&mut app, ch('v'));
    assert_eq!(app.cursors.vacuum, Some(0));
    update(&mut app, ch('j'));
    assert_eq!(app.cursors.vacuum, Some(1));
    assert_eq!(app.cursors.schema, Some(1));
}

// ---------------------------------------------------------------------
// On-demand table structure detail
// ---------------------------------------------------------------------

#[test]
fn enter_on_a_schema_table_queues_a_detail_fetch_request() {
    let mut app = new_app();
    app.active_tab = Tab::SchemaLens;
    app.table_detail_scroll = 7;
    let (oid, schema, name) = {
        let t = app.selected_table().expect("fixture has tables");
        (t.oid, t.schema.clone(), t.name.clone())
    };
    update(&mut app, press(Key::Enter));
    assert!(app.detail_open);
    assert_eq!(app.table_detail_scroll, 0);
    let request = app.requests.table_detail.take().expect("request queued");
    assert_eq!(request.oid, oid);
    assert_eq!(request.schema, schema);
    assert_eq!(request.name, name);
}

#[test]
fn moving_selection_with_detail_open_requeues_the_request() {
    let mut app = new_app();
    app.active_tab = Tab::SchemaLens;
    update(&mut app, press(Key::Enter));
    app.requests.table_detail.take();
    app.table_detail_scroll = 3;
    update(&mut app, press(Key::End));
    assert_eq!(app.table_detail_scroll, 0);
    assert!(app.requests.table_detail.is_some());
}

#[test]
fn jk_scroll_the_detail_overlay_instead_of_moving_selection() {
    let mut app = new_app();
    app.active_tab = Tab::SchemaLens;
    update(&mut app, press(Key::Enter));
    let selection_before = app.cursors.schema;
    update(&mut app, ch('j'));
    assert_eq!(app.table_detail_scroll, 1);
    assert_eq!(app.cursors.schema, selection_before, "row selection must not move while the detail overlay is open");
    update(&mut app, ch('j'));
    assert_eq!(app.table_detail_scroll, 2);
    update(&mut app, ch('k'));
    assert_eq!(app.table_detail_scroll, 1);
}

#[test]
fn detail_scroll_clamps_at_zero() {
    let mut app = new_app();
    app.active_tab = Tab::SchemaLens;
    update(&mut app, press(Key::Enter));
    assert_eq!(app.table_detail_scroll, 0);
    update(&mut app, ch('k'));
    assert_eq!(app.table_detail_scroll, 0, "must not underflow");
}

#[test]
fn jk_still_moves_selection_on_other_lens_detail_overlays() {
    let mut app = new_app();
    app.active_tab = Tab::MicroLens;
    update(&mut app, press(Key::Enter));
    assert!(app.detail_open);
    let before = app.cursors.activity;
    update(&mut app, ch('j'));
    assert_ne!(app.cursors.activity, before, "selection should move");
}

#[test]
fn i_toggles_the_micro_lens_idle_view_only() {
    let mut app = new_app();
    app.active_tab = Tab::MicroLens;
    assert_eq!(app.micro_view, MicroView::Activity);
    update(&mut app, ch('I'));
    assert_eq!(app.micro_view, MicroView::Idle);
    update(&mut app, ch('I'));
    assert_eq!(app.micro_view, MicroView::Activity);

    for tab in [Tab::MacroLens, Tab::SchemaLens, Tab::ReplicationLens, Tab::IndexLens, Tab::QueryLens] {
        let mut app = new_app();
        app.active_tab = tab;
        update(&mut app, ch('I'));
        assert_eq!(app.micro_view, MicroView::Activity, "{tab:?}");
    }
}

#[test]
fn esc_closes_the_idle_view_without_arming_quit() {
    let mut app = new_app();
    app.active_tab = Tab::MicroLens;
    update(&mut app, ch('I'));
    assert_eq!(app.micro_view, MicroView::Idle);
    update(&mut app, press(Key::Esc));
    assert_eq!(app.micro_view, MicroView::Activity, "Esc returns to Activity");
    assert!(!app.should_quit);
    assert!(app.esc_quit_armed_until.is_none(), "closing the idle view must not arm the quit barrier");
}

#[test]
fn i_closes_the_activity_view_detail_panel() {
    let mut app = new_app();
    app.active_tab = Tab::MicroLens;
    update(&mut app, press(Key::Enter));
    assert!(app.detail_open);
    update(&mut app, ch('I'));
    assert_eq!(app.micro_view, MicroView::Idle);
    assert!(!app.detail_open);
}

#[test]
fn enter_is_inert_in_the_idle_view() {
    let mut app = new_app();
    app.active_tab = Tab::MicroLens;
    update(&mut app, ch('I'));
    update(&mut app, press(Key::Enter));
    assert!(!app.detail_open);
}

#[test]
fn s_is_inert_in_the_idle_view() {
    let mut app = new_app();
    app.active_tab = Tab::MicroLens;
    update(&mut app, ch('I'));
    let before = app.sort.activity;
    update(&mut app, ch('s'));
    assert_eq!(app.sort.activity, before, "sort mode must not change");
}

#[test]
fn idle_view_scrolls_its_own_independent_cursor() {
    let mut app = new_app();
    app.active_tab = Tab::MicroLens;
    update(&mut app, ch('j'));
    assert_eq!(app.cursors.activity, Some(1));

    update(&mut app, ch('I'));
    assert_eq!(app.cursors.idle, Some(0));
    update(&mut app, ch('j'));
    assert_eq!(app.cursors.idle, Some(1));
    assert_eq!(app.cursors.activity, Some(1));
}

#[test]
fn admin_actions_are_inert_in_the_idle_view() {
    let mut app = new_app();
    app.active_tab = Tab::MicroLens;
    update(&mut app, ch('I'));
    update(&mut app, ch('c'));
    assert!(app.confirm.is_none());
    update(&mut app, ch('K'));
    assert!(app.confirm.is_none());
}

// ---------------------------------------------------------------------
// Lens switching
// ---------------------------------------------------------------------

#[test]
fn tab_cycles_the_nine_lenses() {
    let mut app = new_app();
    assert_eq!(app.active_tab, Tab::MacroLens);
    for expected in [
        Tab::MicroLens,
        Tab::BlocksLens,
        Tab::ReplicationLens,
        Tab::SchemaLens,
        Tab::IndexLens,
        Tab::QueryLens,
        Tab::ProgressLens,
        Tab::RecordsLens,
        Tab::MacroLens,
    ] {
        update(&mut app, press(Key::Tab));
        assert_eq!(app.active_tab, expected);
    }
    assert!(!app.should_quit);
}

#[test]
fn back_tab_cycles_the_nine_lenses_backward() {
    let mut app = new_app();
    assert_eq!(app.active_tab, Tab::MacroLens);
    for expected in [
        Tab::RecordsLens,
        Tab::ProgressLens,
        Tab::QueryLens,
        Tab::IndexLens,
        Tab::SchemaLens,
        Tab::ReplicationLens,
        Tab::BlocksLens,
        Tab::MicroLens,
        Tab::MacroLens,
    ] {
        update(&mut app, press(Key::BackTab));
        assert_eq!(app.active_tab, expected);
    }
    assert!(!app.should_quit);
}

#[test]
fn digit_keys_jump_directly_to_the_matching_tab() {
    let mut app = new_app();
    for (digit, tab) in [
        ('1', Tab::MacroLens),
        ('2', Tab::MicroLens),
        ('3', Tab::BlocksLens),
        ('4', Tab::ReplicationLens),
        ('5', Tab::SchemaLens),
        ('6', Tab::IndexLens),
        ('7', Tab::QueryLens),
        ('8', Tab::ProgressLens),
    ] {
        update(&mut app, ch(digit));
        assert_eq!(app.active_tab, tab, "digit {digit}");
    }
}

#[test]
fn digit_jump_closes_detail_and_waits_overlays() {
    let mut app = new_app();
    app.active_tab = Tab::MicroLens;
    update(&mut app, press(Key::Enter));
    assert!(app.detail_open);
    update(&mut app, ch('4'));
    assert_eq!(app.active_tab, Tab::ReplicationLens);
    assert!(!app.detail_open);
}

#[test]
fn digit_keys_are_inert_while_filter_editing() {
    let mut app = new_app();
    app.active_tab = Tab::MicroLens;
    update(&mut app, ch('/'));
    assert!(app.filters.micro.editing);
    update(&mut app, ch('4'));
    assert_eq!(app.active_tab, Tab::MicroLens, "digit must stay in the filter text");
    assert_eq!(app.filters.micro.text, "4");
}

#[test]
fn digit_keys_are_inert_while_the_confirm_modal_is_open() {
    let mut app = new_app();
    app.active_tab = Tab::MicroLens;
    update(&mut app, ch('c'));
    assert!(app.confirm.is_some());
    update(&mut app, ch('4'));
    assert_eq!(app.active_tab, Tab::MicroLens);
    assert!(app.confirm.is_some());
}

#[test]
fn backspace_swaps_to_the_previous_tab_and_toggles_back() {
    let mut app = new_app();
    assert!(app.previous_tab.is_none());
    update(&mut app, press(Key::Backspace));
    assert_eq!(app.active_tab, Tab::MacroLens);

    update(&mut app, ch('6'));
    assert_eq!(app.active_tab, Tab::IndexLens);
    update(&mut app, press(Key::Backspace));
    assert_eq!(app.active_tab, Tab::MacroLens);
    update(&mut app, press(Key::Backspace));
    assert_eq!(app.active_tab, Tab::IndexLens);
}

// ---------------------------------------------------------------------
// Cross-lens jump `x`: Schema Lens table -> Query Lens
// ---------------------------------------------------------------------

#[test]
fn x_jumps_to_query_lens_seeded_with_the_selected_table_name() {
    let mut app = new_app();
    app.active_tab = Tab::SchemaLens;
    app.cursors.schema = Some(0);
    let table_name = app.selected_table().expect("fixture has tables").name.clone();

    update(&mut app, ch('x'));

    assert_eq!(app.active_tab, Tab::QueryLens);
    assert_eq!(app.previous_tab, Some(Tab::SchemaLens));
    assert_eq!(app.filters.query.text, table_name);
    assert_eq!(app.filters.query.saved, table_name);
    assert!(!app.filters.query.editing);
    assert_eq!(app.cursors.statements, Some(0));
    let statements = app.snapshot.statements.as_ref().unwrap();
    assert!(!app.orders.statements.is_empty());
    assert!(app
        .orders
        .statements
        .iter()
        .all(|&i| statements[i].query.to_lowercase().contains(&table_name.to_lowercase())));
}

#[test]
fn x_backspace_returns_to_schema_lens() {
    let mut app = new_app();
    app.active_tab = Tab::SchemaLens;
    app.cursors.schema = Some(0);
    update(&mut app, ch('x'));
    assert_eq!(app.active_tab, Tab::QueryLens);

    update(&mut app, press(Key::Backspace));
    assert_eq!(app.active_tab, Tab::SchemaLens);
}

#[test]
fn x_never_touches_the_schema_lens_filter() {
    let mut app = new_app();
    app.active_tab = Tab::SchemaLens;
    update(&mut app, ch('/'));
    type_str(&mut app, "public");
    update(&mut app, press(Key::Enter));
    assert_eq!(app.filters.schema.text, "public");
    app.cursors.schema = Some(0);

    update(&mut app, ch('x'));

    assert_eq!(app.active_tab, Tab::QueryLens);
    assert_eq!(app.filters.schema.text, "public", "Schema Lens filter untouched");
}

#[test]
fn x_works_on_a_partition_parent_row() {
    let mut app = new_app();
    app.active_tab = Tab::SchemaLens;
    let idx = {
        let schema = app.snapshot.schema.as_ref().expect("fixture has schema");
        app.orders
            .schema
            .iter()
            .position(|&i| schema.tables[i].partition_count.is_some())
            .expect("fixture has a partition parent row")
    };
    app.cursors.schema = Some(idx);
    let parent_name = app.selected_table().expect("selected").name.clone();

    update(&mut app, ch('x'));

    assert_eq!(app.active_tab, Tab::QueryLens);
    assert_eq!(app.filters.query.text, parent_name);
}

#[test]
fn x_is_inert_off_the_tables_view_and_with_no_selection() {
    let mut app = new_app();
    app.active_tab = Tab::SchemaLens;
    app.schema_view = SchemaView::Vacuum;
    app.cursors.schema = Some(0);
    update(&mut app, ch('x'));
    assert_eq!(app.active_tab, Tab::SchemaLens, "Vacuum sub-view: no jump");

    app.schema_view = SchemaView::Tables;
    app.cursors.schema = None;
    update(&mut app, ch('x'));
    assert_eq!(app.active_tab, Tab::SchemaLens, "no selection: no jump");
}

#[test]
fn x_is_inert_on_other_lenses() {
    let mut app = new_app();
    app.active_tab = Tab::MicroLens;
    update(&mut app, ch('x'));
    assert_eq!(app.active_tab, Tab::MicroLens);
}

// ---------------------------------------------------------------------
// Filters
// ---------------------------------------------------------------------

#[test]
fn backspace_deletes_in_the_filter_editor_not_go_back() {
    let mut app = new_app();
    app.active_tab = Tab::MicroLens;
    update(&mut app, ch('/'));
    type_str(&mut app, "abc");
    assert_eq!(app.filters.micro.text, "abc");
    update(&mut app, press(Key::Backspace));
    assert_eq!(app.filters.micro.text, "ab");
    assert_eq!(app.active_tab, Tab::MicroLens, "must not have navigated");
}

#[test]
fn slash_filters_activity_live_and_moves_cursor_within_matches() {
    let mut app = new_app();
    app.active_tab = Tab::MicroLens;
    let total = app.snapshot.activity.len();

    update(&mut app, ch('/'));
    assert!(app.filters.micro.editing);
    type_str(&mut app, "bench");

    assert!(!app.orders.activity.is_empty());
    assert!(app.orders.activity.len() < total);
    for &i in &app.orders.activity {
        let r = &app.snapshot.activity[i];
        let hay = format!("{} {} {} {} {}", r.pid, r.application_name, r.database, r.username, r.query)
            .to_lowercase();
        assert!(hay.contains("bench"), "row {i} does not match: {hay}");
    }
    update(&mut app, press(Key::Enter));
    for _ in 0..total + 5 {
        update(&mut app, ch('j'));
    }
    assert!(app.cursors.activity.unwrap() < app.orders.activity.len());
}

#[test]
fn filter_enter_commits_esc_reverts() {
    let mut app = new_app();
    app.active_tab = Tab::MicroLens;
    let total = app.snapshot.activity.len();

    update(&mut app, ch('/'));
    type_str(&mut app, "shop");
    update(&mut app, press(Key::Enter));
    assert!(!app.filters.micro.editing);
    assert_eq!(app.filters.micro.text, "shop");
    let narrowed = app.orders.activity.len();
    assert!(narrowed < total);

    update(&mut app, ch('/'));
    type_str(&mut app, "xyz");
    assert!(app.orders.activity.is_empty());
    update(&mut app, press(Key::Esc));
    assert!(!app.filters.micro.editing);
    assert_eq!(app.filters.micro.text, "shop");
    assert_eq!(app.orders.activity.len(), narrowed);
}

#[test]
fn backspace_widens_the_filter() {
    let mut app = new_app();
    app.active_tab = Tab::MicroLens;
    let total = app.snapshot.activity.len();
    update(&mut app, ch('/'));
    type_str(&mut app, "bench");
    let narrowed = app.orders.activity.len();
    for _ in 0..5 {
        update(&mut app, press(Key::Backspace));
    }
    assert_eq!(app.filters.micro.text, "");
    assert_eq!(app.orders.activity.len(), total);
    assert!(narrowed < total);
}

#[test]
fn slash_is_inert_off_the_micro_lens() {
    let mut app = new_app();
    app.active_tab = Tab::MacroLens;
    update(&mut app, ch('/'));
    assert!(!app.filters.micro.editing);
}

#[test]
fn ctrl_c_quits_even_while_filtering() {
    let mut app = new_app();
    app.active_tab = Tab::MicroLens;
    update(&mut app, ch('/'));
    update(&mut app, ctrl('c'));
    assert!(app.should_quit);
}

#[test]
fn slash_arms_the_schema_filter_only_on_the_tables_view() {
    let mut app = new_app();
    app.active_tab = Tab::SchemaLens;
    assert_eq!(app.schema_view, SchemaView::Tables);
    update(&mut app, ch('/'));
    assert!(app.filters.schema.editing);
    assert!(!app.filters.micro.editing);

    let mut app = new_app();
    app.active_tab = Tab::SchemaLens;
    app.schema_view = SchemaView::Vacuum;
    update(&mut app, ch('/'));
    assert!(!app.filters.schema.editing);
}

#[test]
fn slash_filters_the_schema_tables_view_live_and_narrows_the_count() {
    let mut app = new_app();
    app.active_tab = Tab::SchemaLens;
    let total = app.snapshot.schema.as_ref().expect("fixture schema").tables.len();

    update(&mut app, ch('/'));
    type_str(&mut app, "order");
    assert!(!app.orders.schema.is_empty());
    assert!(app.orders.schema.len() < total);
    let schema = app.snapshot.schema.as_ref().expect("fixture schema");
    for &i in &app.orders.schema {
        let t = &schema.tables[i];
        let hay = format!("{}.{}", t.schema, t.name).to_lowercase();
        assert!(hay.contains("order"), "row {i} does not match: {hay}");
    }

    update(&mut app, press(Key::Enter));
    assert!(!app.filters.schema.editing);
    for _ in 0..total + 5 {
        update(&mut app, ch('j'));
    }
    assert!(app.cursors.schema.unwrap() < app.orders.schema.len());
}

#[test]
fn schema_filter_esc_reverts_to_the_committed_value() {
    let mut app = new_app();
    app.active_tab = Tab::SchemaLens;
    update(&mut app, ch('/'));
    type_str(&mut app, "order");
    update(&mut app, press(Key::Enter));
    let narrowed = app.orders.schema.len();

    update(&mut app, ch('/'));
    type_str(&mut app, "zzz");
    assert!(app.orders.schema.is_empty());
    update(&mut app, press(Key::Esc));
    assert!(!app.filters.schema.editing);
    assert_eq!(app.filters.schema.text, "order");
    assert_eq!(app.orders.schema.len(), narrowed);
}

#[test]
fn slash_arms_the_query_lens_filter() {
    let mut app = new_app();
    app.active_tab = Tab::QueryLens;
    update(&mut app, ch('/'));
    assert!(app.filters.query.editing);
    assert!(!app.filters.micro.editing);
    assert!(!app.filters.schema.editing);
}

#[test]
fn slash_filters_the_query_lens_live_and_narrows_the_count() {
    let mut app = new_app();
    app.active_tab = Tab::QueryLens;
    let total = app.snapshot.statements.as_ref().expect("fixture statements").len();

    update(&mut app, ch('/'));
    type_str(&mut app, "pgbench_accounts");
    assert!(!app.orders.statements.is_empty());
    assert!(app.orders.statements.len() < total);
    let statements = app.snapshot.statements.as_ref().expect("fixture statements");
    for &i in &app.orders.statements {
        let hay = statements[i].query.to_lowercase();
        assert!(hay.contains("pgbench_accounts"), "row {i}: {hay}");
    }
}

#[test]
fn backslash_clears_the_committed_filter_of_the_active_lens_only() {
    let mut app = new_app();
    app.active_tab = Tab::MicroLens;
    update(&mut app, ch('/'));
    type_str(&mut app, "bench");
    update(&mut app, press(Key::Enter));
    assert_eq!(app.filters.micro.text, "bench");
    update(&mut app, ch('\\'));
    assert_eq!(app.filters.micro.text, "");
    assert_eq!(app.orders.activity.len(), app.snapshot.activity.len());

    let mut app = new_app();
    app.active_tab = Tab::SchemaLens;
    update(&mut app, ch('/'));
    type_str(&mut app, "order");
    update(&mut app, press(Key::Enter));
    assert_eq!(app.filters.schema.text, "order");
    update(&mut app, ch('\\'));
    assert_eq!(app.filters.schema.text, "");
    let schema = app.snapshot.schema.as_ref().expect("fixture schema");
    let hidden_leaves = schema.tables.iter().filter(|t| t.is_partition).count();
    assert_eq!(app.orders.schema.len(), schema.tables.len() - hidden_leaves);

    let mut app = new_app();
    app.active_tab = Tab::QueryLens;
    update(&mut app, ch('/'));
    type_str(&mut app, "pgbench_accounts");
    update(&mut app, press(Key::Enter));
    assert_eq!(app.filters.query.text, "pgbench_accounts");
    update(&mut app, ch('\\'));
    assert_eq!(app.filters.query.text, "");
    let total = app.snapshot.statements.as_ref().expect("fixture statements").len();
    assert_eq!(app.orders.statements.len(), total);
}

#[test]
fn backslash_is_inert_with_no_active_filter_and_never_arms_quitting() {
    let mut app = new_app();
    app.active_tab = Tab::MicroLens;
    assert_eq!(app.filters.micro.text, "");
    update(&mut app, ch('\\'));
    assert_eq!(app.filters.micro.text, "");
    assert!(!app.should_quit);
    assert!(app.esc_quit_armed_until.is_none());
}

#[test]
fn filters_never_cross_contaminate_across_lenses() {
    let mut app = new_app();

    app.active_tab = Tab::MicroLens;
    update(&mut app, ch('/'));
    type_str(&mut app, "micro-term");
    update(&mut app, press(Key::Enter));

    app.active_tab = Tab::SchemaLens;
    update(&mut app, ch('/'));
    type_str(&mut app, "schema-term");
    update(&mut app, press(Key::Enter));

    app.active_tab = Tab::QueryLens;
    update(&mut app, ch('/'));
    type_str(&mut app, "query-term");
    update(&mut app, press(Key::Enter));

    assert_eq!(app.filters.micro.text, "micro-term");
    assert_eq!(app.filters.schema.text, "schema-term");
    assert_eq!(app.filters.query.text, "query-term");

    update(&mut app, ch('\\'));
    assert_eq!(app.filters.query.text, "");
    assert_eq!(app.filters.micro.text, "micro-term");
    assert_eq!(app.filters.schema.text, "schema-term");

    app.active_tab = Tab::MicroLens;
    assert_eq!(app.filters.micro.text, "micro-term");
    app.active_tab = Tab::SchemaLens;
    assert_eq!(app.filters.schema.text, "schema-term");
}

// ---------------------------------------------------------------------
// Navigation, sorting and detail panels
// ---------------------------------------------------------------------

#[test]
fn navigation_saturates_at_both_ends() {
    let mut app = new_app();
    let last = app.snapshot.activity.len() - 1;
    assert_eq!(app.cursors.activity, Some(0));

    update(&mut app, ch('k'));
    assert_eq!(app.cursors.activity, Some(0));
    update(&mut app, press(Key::Up));
    assert_eq!(app.cursors.activity, Some(0));

    for _ in 0..app.snapshot.activity.len() + 3 {
        update(&mut app, ch('j'));
    }
    assert_eq!(app.cursors.activity, Some(last));
    update(&mut app, press(Key::Down));
    assert_eq!(app.cursors.activity, Some(last));

    update(&mut app, press(Key::Up));
    assert_eq!(app.cursors.activity, Some(last - 1));
}

#[test]
fn home_end_and_g_shift_g_jump_to_the_first_and_last_row() {
    let mut app = new_app();
    let last = app.orders.activity.len() - 1;
    assert!(last > 0, "fixture must carry more than one activity row");

    update(&mut app, press(Key::End));
    assert_eq!(app.cursors.activity, Some(last));
    update(&mut app, press(Key::Home));
    assert_eq!(app.cursors.activity, Some(0));

    update(&mut app, ch('G'));
    assert_eq!(app.cursors.activity, Some(last));
    update(&mut app, ch('g'));
    assert_eq!(app.cursors.activity, Some(0));
}

#[test]
fn page_up_and_page_down_move_by_a_page_and_clamp() {
    let mut app = new_app();
    let last = app.orders.activity.len() - 1;

    update(&mut app, press(Key::PageDown));
    assert_eq!(app.cursors.activity, Some((PAGE_SIZE as usize).min(last)));

    let mut app = new_app();
    update(&mut app, press(Key::PageUp));
    assert_eq!(app.cursors.activity, Some(0));

    update(&mut app, press(Key::End));
    update(&mut app, press(Key::PageDown));
    assert_eq!(app.cursors.activity, Some(last));
}

#[test]
fn fast_scroll_works_on_the_schema_lens_table_too() {
    let mut app = new_app();
    app.active_tab = Tab::SchemaLens;
    let last = app.orders.schema.len() - 1;
    assert!(last > 0, "fixture must carry more than one schema table row");

    update(&mut app, ch('G'));
    assert_eq!(app.cursors.schema, Some(last));
    update(&mut app, ch('g'));
    assert_eq!(app.cursors.schema, Some(0));
}

#[test]
fn g_and_shift_g_are_inert_while_filter_editing() {
    let mut app = new_app();
    app.active_tab = Tab::MicroLens;
    update(&mut app, ch('/'));
    type_str(&mut app, "g");
    assert_eq!(app.filters.micro.text, "g", "the letter must land in the filter text");
}

#[test]
fn sort_cycles_and_reorders_rows() {
    let mut app = new_app();

    assert_eq!(app.sort.activity, SortMode::Duration);
    assert!(descending(&displayed(&app, |r| r.duration_order)));

    update(&mut app, ch('s'));
    assert_eq!(app.sort.activity, SortMode::State);
    let states = displayed(&app, |r| r.state.clone());
    assert!(states.windows(2).all(|w| w[0] <= w[1]));

    update(&mut app, ch('s'));
    assert_eq!(app.sort.activity, SortMode::Pid);
    let pids = displayed(&app, |r| r.pid);
    assert!(pids.windows(2).all(|w| w[0] < w[1]));

    update(&mut app, ch('s'));
    assert_eq!(app.sort.activity, SortMode::Duration);

    let mut seen = app.orders.activity.clone();
    seen.sort_unstable();
    assert_eq!(seen, (0..app.snapshot.activity.len()).collect::<Vec<_>>());
}

#[test]
fn enter_opens_and_closes_detail_on_micro_lens_only() {
    let mut app = new_app();

    update(&mut app, press(Key::Enter));
    assert!(!app.detail_open);

    update(&mut app, press(Key::Tab));
    update(&mut app, press(Key::Enter));
    assert!(app.detail_open);
    update(&mut app, press(Key::Enter));
    assert!(!app.detail_open);
}

#[test]
fn esc_closes_detail_before_quitting() {
    let mut app = new_app();
    update(&mut app, press(Key::Tab));
    update(&mut app, press(Key::Enter));
    assert!(app.detail_open);

    update(&mut app, press(Key::Esc));
    assert!(!app.detail_open);
    assert!(!app.should_quit);

    update(&mut app, press(Key::Esc));
    assert!(!app.should_quit);
    update(&mut app, press(Key::Esc));
    assert!(app.should_quit);
}

#[test]
fn tab_and_navigation_behave_while_detail_is_open() {
    let mut app = new_app();
    update(&mut app, press(Key::Tab));
    update(&mut app, press(Key::Enter));
    assert!(app.detail_open);

    let before = app.selected_row().expect("selection").pid;
    update(&mut app, ch('j'));
    assert!(app.detail_open);
    assert_ne!(app.selected_row().expect("selection").pid, before);

    update(&mut app, press(Key::Tab));
    assert!(!app.detail_open);
    assert_eq!(app.active_tab, Tab::BlocksLens);
}

#[test]
fn schema_sort_cycles_and_reorders_rows() {
    let mut app = new_app();
    for _ in 0..4 {
        update(&mut app, press(Key::Tab));
    }
    assert_eq!(app.active_tab, Tab::SchemaLens);

    assert_eq!(app.sort.schema, SchemaSortMode::TotalSize);
    assert!(descending(&schema_displayed(&app, |t| t.total_bytes)));
    assert_eq!(schema_displayed(&app, |t| t.name.clone())[0], "pgbench_accounts");

    update(&mut app, ch('s'));
    assert_eq!(app.sort.schema, SchemaSortMode::DeadTuples);
    assert!(descending(&schema_displayed(&app, |t| t.n_dead_tup)));
    assert_eq!(schema_displayed(&app, |t| t.name.clone())[0], "order_items");

    update(&mut app, ch('s'));
    assert_eq!(app.sort.schema, SchemaSortMode::BloatPct);
    let names = schema_displayed(&app, |t| t.name.clone());
    assert_eq!(names[0], "order_items", "highest estimated bloat first");
    let no_estimate_from = names
        .iter()
        .position(|n| n == "pgbench_branches" || n == "raw_events")
        .expect("estimate-less tables present");
    assert!(
        names[no_estimate_from..].iter().all(|n| n == "pgbench_branches" || n == "raw_events"),
        "None estimates must sort last: {names:?}"
    );

    update(&mut app, ch('s'));
    assert_eq!(app.sort.schema, SchemaSortMode::SeqScans);
    assert!(descending(&schema_displayed(&app, |t| t.seq_scan)));

    update(&mut app, ch('s'));
    assert_eq!(app.sort.schema, SchemaSortMode::Growth);
    let names = schema_displayed(&app, |t| t.name.clone());
    assert_eq!(names[0], "order_items", "largest |growth| first");
    assert_eq!(names[names.len() - 1], "raw_events", "unknown growth sorts last");

    update(&mut app, ch('s'));
    assert_eq!(app.sort.schema, SchemaSortMode::TotalSize);
    assert_eq!(app.sort.activity, SortMode::Duration);

    let mut seen = app.orders.schema.clone();
    seen.sort_unstable();
    let schema = app.snapshot.schema.as_ref().expect("schema");
    let expected: Vec<usize> = (0..schema.tables.len()).filter(|&i| !schema.tables[i].is_partition).collect();
    assert_eq!(seen, expected);
}

#[test]
fn partition_leaves_are_collapsed_by_default_and_p_toggles_them() {
    let mut app = new_app();
    app.active_tab = Tab::SchemaLens;

    let (leaf_count, parent_oid) = {
        let schema = app.snapshot.schema.as_ref().expect("fixture schema");
        let leaves = schema.tables.iter().filter(|t| t.is_partition).count();
        let parent = schema
            .tables
            .iter()
            .find(|t| t.partition_count.is_some())
            .expect("fixture must carry a partition parent")
            .oid;
        (leaves, parent)
    };
    assert!(leaf_count > 0, "fixture must carry at least one leaf");

    let visible_leaves = |app: &App| {
        let schema = app.snapshot.schema.as_ref().expect("schema");
        app.orders.schema.iter().filter(|&&i| schema.tables[i].is_partition).count()
    };
    assert!(!app.schema_show_partitions);
    assert_eq!(visible_leaves(&app), 0);
    {
        let schema = app.snapshot.schema.as_ref().expect("schema");
        assert!(
            app.orders.schema.iter().any(|&i| schema.tables[i].oid == parent_oid),
            "the parent's aggregate row must stay visible while collapsed"
        );
    }

    update(&mut app, ch('p'));
    assert!(app.schema_show_partitions);
    assert_eq!(visible_leaves(&app), leaf_count);

    update(&mut app, ch('p'));
    assert!(!app.schema_show_partitions);
    assert_eq!(visible_leaves(&app), 0);
}

#[test]
fn p_is_inert_outside_schema_tables_view() {
    let mut app = new_app();
    app.active_tab = Tab::MicroLens;
    update(&mut app, ch('p'));
    assert!(!app.schema_show_partitions);

    app.active_tab = Tab::SchemaLens;
    update(&mut app, ch('v'));
    assert_eq!(app.schema_view, SchemaView::Vacuum);
    update(&mut app, ch('p'));
    assert!(!app.schema_show_partitions, "Vacuum sub-view has no partitions toggle");
}

#[test]
fn schema_filter_matches_parent_and_leaves_when_expanded() {
    let mut app = new_app();
    app.active_tab = Tab::SchemaLens;
    update(&mut app, ch('/'));
    type_str(&mut app, "events_by_month");
    update(&mut app, press(Key::Enter));

    assert_eq!(app.orders.schema.len(), 1);
    {
        let schema = app.snapshot.schema.as_ref().expect("schema");
        assert_eq!(schema.tables[app.orders.schema[0]].partition_count, Some(3));
    }

    update(&mut app, ch('p'));
    let schema = app.snapshot.schema.as_ref().expect("schema");
    let matched_leaves = app.orders.schema.iter().filter(|&&i| schema.tables[i].is_partition).count();
    assert!(matched_leaves > 0, "expanded view must surface matching leaves too");
}

#[test]
fn schema_lens_has_its_own_selection_and_detail() {
    let mut app = new_app();
    for _ in 0..4 {
        update(&mut app, press(Key::Tab));
    }
    assert_eq!(app.active_tab, Tab::SchemaLens);

    assert_eq!(app.cursors.schema, Some(0));
    update(&mut app, ch('j'));
    assert_eq!(app.cursors.schema, Some(1));
    assert_eq!(app.cursors.activity, Some(0), "micro cursor untouched");

    let selected = app.selected_table().expect("selection").name.clone();
    update(&mut app, press(Key::Enter));
    assert!(app.detail_open);
    assert_eq!(app.selected_table().expect("selection").name, selected);
    update(&mut app, press(Key::Enter));
    assert!(!app.detail_open);

    update(&mut app, press(Key::Enter));
    update(&mut app, press(Key::Esc));
    assert!(!app.detail_open);
    assert!(!app.should_quit);
}

#[test]
fn uppercase_b_requests_schema_recollection_from_any_lens() {
    let mut app = new_app();
    assert_eq!(app.requests.schema_refresh, 0);

    update(&mut app, ch('B'));
    assert_eq!(app.requests.schema_refresh, 1);

    for _ in 0..4 {
        update(&mut app, press(Key::Tab));
    }
    assert_eq!(app.active_tab, Tab::SchemaLens);
    update(&mut app, ch('B'));
    assert_eq!(app.requests.schema_refresh, 2);
    assert!(!app.should_quit);
}

// ---------------------------------------------------------------------
// Recording, export and replay (the host performs the file work and
// reports back through actions)
// ---------------------------------------------------------------------

fn last_host_request(app: &App) -> &HostRequest {
    app.requests.host.last().expect("a host request was queued")
}

#[test]
fn shift_r_and_ctrl_r_toggle_recording() {
    let mut app = new_app();
    assert!(!app.recording_active);

    update(&mut app, ch('R'));
    assert!(matches!(last_host_request(&app), HostRequest::StartRecording));
    update(&mut app, Action::RecordingStarted);
    assert!(app.recording_active);

    update(&mut app, Action::Snapshot(Arc::new(mock()), 1_000));
    assert!(app.recording_active, "snapshots keep the recording running");

    update(&mut app, ch('R'));
    assert!(!app.recording_active);
    assert!(matches!(last_host_request(&app), HostRequest::StopRecording));
    update(
        &mut app,
        Action::RecordingSaved { path: s("/state/rec-shop-20260907_100000.jsonl"), frame_count: 2, bytes: 4096 },
    );
    assert_eq!(app.requests.clipboard, Some(s("/state/rec-shop-20260907_100000.jsonl")));

    update(&mut app, ctrl('r'));
    assert!(matches!(last_host_request(&app), HostRequest::StartRecording));
    update(&mut app, Action::RecordingStarted);
    assert!(app.recording_active);
    update(&mut app, ch('R'));
    assert!(!app.recording_active);
}

#[test]
fn e_exports_snapshot_bookmark() {
    let mut app = new_app();
    assert!(app.requests.clipboard.is_none());

    update(&mut app, ch('E'));
    assert!(matches!(last_host_request(&app), HostRequest::ExportSnapshot));
    update(&mut app, Action::Exported { path: s("/state/snapshot-shop-20260907_120000.json") });
    let path = app.requests.clipboard.clone().expect("path queued for the clipboard");
    assert!(path.ends_with(".json"));
    assert!(path.contains("snapshot-"));
}

#[test]
fn replay_mode_navigation_and_playback_controls() {
    let mut app = new_app();
    let frames = vec![Arc::new(mock()), Arc::new(mock()), Arc::new(mock())];
    app.replay = Some(Replay { frames, current_idx: 0, is_paused: false, loop_playback: false, speed_exp: 0 });
    let idx = |app: &App| app.replay.as_ref().unwrap().current_idx;
    let paused = |app: &App| app.replay.as_ref().unwrap().is_paused;

    update(&mut app, ch(' '));
    assert!(paused(&app));

    update(&mut app, press(Key::Right));
    assert_eq!(idx(&app), 1);
    update(&mut app, press(Key::Right));
    assert_eq!(idx(&app), 2);
    update(&mut app, press(Key::Right));
    assert_eq!(idx(&app), 2);

    update(&mut app, press(Key::Left));
    assert_eq!(idx(&app), 1);
    update(&mut app, press(Key::Left));
    assert_eq!(idx(&app), 0);
    update(&mut app, press(Key::Left));
    assert_eq!(idx(&app), 0);

    update(&mut app, press(Key::Right));
    update(&mut app, press(Key::Right));
    assert_eq!(idx(&app), 2);
    assert!(paused(&app));

    update(&mut app, ch(' '));
    assert_eq!(idx(&app), 0);
    assert!(!paused(&app));

    update(&mut app, ch(' '));
    assert!(paused(&app));
    assert_eq!(idx(&app), 0);

    // Speed is 2^speed_exp: `]` doubles it to 2x, `[` halves it back to 1x.
    update(&mut app, ch(']'));
    assert_eq!(app.replay.as_ref().unwrap().speed_exp, 1);
    update(&mut app, ch('['));
    assert_eq!(app.replay.as_ref().unwrap().speed_exp, 0);

    update(&mut app, ch('B'));
    assert_eq!(app.requests.schema_refresh, 0);

    update(&mut app, ch('R'));
    assert!(!app.recording_active);
    assert!(!app.requests.host.iter().any(|r| matches!(r, HostRequest::StartRecording)));
}

#[test]
fn refresh_interval_adjusts_within_bounds() {
    let mut app = new_app();
    assert_eq!(app.refresh_interval_ms, DEFAULT_REFRESH_MS);

    update(&mut app, ch('+'));
    assert_eq!(app.refresh_interval_ms, DEFAULT_REFRESH_MS + REFRESH_STEP_MS);

    for _ in 0..50 {
        update(&mut app, ch('-'));
    }
    assert_eq!(app.refresh_interval_ms, REFRESH_MIN_MS);

    for _ in 0..50 {
        update(&mut app, ch('+'));
    }
    assert_eq!(app.refresh_interval_ms, REFRESH_MAX_MS);
}

#[test]
fn tick_advances_the_spinner_counter_and_nothing_else() {
    let mut app = App::new();
    assert_eq!(app.tick_count, 0);
    update(&mut app, tick());
    update(&mut app, tick());
    assert_eq!(app.tick_count, 2);
    assert!(!app.should_quit);
    assert!(!app.first_data_seen, "ticks never count as data");
}

#[test]
fn splash_shows_until_the_first_ok_snapshot_then_never_again() {
    let mut app = App::new();
    update(&mut app, Action::Snapshot(Arc::new(connecting()), 1_000));
    assert!(app.show_splash(), "Connecting + no data ever = splash");

    let failed = connecting();
    update(&mut app, Action::Snapshot(Arc::new(failed), 1_000));
    assert!(app.show_splash(), "pre-first-data errors stay on splash");
    assert!(!app.first_data_seen);

    update(&mut app, Action::Snapshot(Arc::new(mock()), 1_000));
    assert!(!app.show_splash());
    assert!(app.first_data_seen);

    let mut lost = mock();
    lost.status_ok = false;
    update(&mut app, Action::Snapshot(Arc::new(lost), 1_000));
    assert!(!app.show_splash(), "post-first-data errors use the banner");
}

// ---------------------------------------------------------------------
// Query Lens
// ---------------------------------------------------------------------

fn query_lens_app() -> App {
    let mut app = new_app();
    for _ in 0..6 {
        update(&mut app, press(Key::Tab));
    }
    assert_eq!(app.active_tab, Tab::QueryLens);
    app
}

#[test]
fn statements_sort_cycles_and_reorders_rows() {
    let mut app = query_lens_app();

    assert_eq!(app.sort.statements, StatementsSortMode::TotalTime);
    assert!(descending(&statements_displayed(&app, |s| s.total_exec_order)));

    update(&mut app, ch('s'));
    assert_eq!(app.sort.statements, StatementsSortMode::Calls);
    assert!(descending(&statements_displayed(&app, |s| s.calls)));

    update(&mut app, ch('s'));
    assert_eq!(app.sort.statements, StatementsSortMode::Mean);
    assert!(descending(&statements_displayed(&app, |s| s.mean_exec_order)));
    assert!(
        statements_displayed(&app, |s| s.query.clone())[0].contains("pg_sleep"),
        "pg_sleep has the highest mean in the fixture"
    );

    update(&mut app, ch('s'));
    assert_eq!(app.sort.statements, StatementsSortMode::Rows);
    assert!(descending(&statements_displayed(&app, |s| s.rows)));

    update(&mut app, ch('s'));
    assert_eq!(app.sort.statements, StatementsSortMode::Temp);
    let temp = statements_displayed(&app, |s| s.temp_blks_written);
    assert!(descending(&temp));
    assert!(temp[0] > 0, "the fixture's heavy spiller must sort first");

    update(&mut app, ch('s'));
    assert_eq!(app.sort.statements, StatementsSortMode::TotalTime);
    assert_eq!(app.sort.activity, SortMode::Duration);
    assert_eq!(app.sort.schema, SchemaSortMode::TotalSize);

    let mut seen = app.orders.statements.clone();
    seen.sort_unstable();
    let n = app.snapshot.statements.as_ref().expect("statements").len();
    assert_eq!(seen, (0..n).collect::<Vec<_>>());
}

#[test]
fn query_lens_has_its_own_selection_and_detail() {
    let mut app = query_lens_app();

    assert_eq!(app.cursors.statements, Some(0));
    update(&mut app, ch('j'));
    assert_eq!(app.cursors.statements, Some(1));
    assert_eq!(app.cursors.activity, Some(0), "micro cursor untouched");
    assert_eq!(app.cursors.schema, Some(0), "schema cursor untouched");

    let selected = app.selected_statement().expect("selection").query.clone();
    update(&mut app, press(Key::Enter));
    assert!(app.detail_open);
    assert_eq!(app.selected_statement().expect("selection").query, selected);
    update(&mut app, press(Key::Enter));
    assert!(!app.detail_open);

    update(&mut app, press(Key::Enter));
    update(&mut app, press(Key::Esc));
    assert!(!app.detail_open);
    assert!(!app.should_quit);
}

#[test]
fn query_lens_without_statements_has_no_selection_or_detail() {
    let mut app = query_lens_app();
    let mut snap = mock();
    snap.statements = None;
    update(&mut app, Action::Snapshot(Arc::new(snap), 1_000));
    assert!(app.orders.statements.is_empty());
    assert_eq!(app.cursors.statements, None);
    update(&mut app, press(Key::Enter));
    assert!(!app.detail_open, "no data, nothing to detail");
    update(&mut app, ch('j'));
}

// ---------------------------------------------------------------------
// Startup service picker
// ---------------------------------------------------------------------

fn picker_app() -> App {
    let mut app = new_app();
    app.picker = Some(PickerState::new(vec![
        PickerEntry { name: s("prod"), detail: s("svc@db.prod.internal"), service: Some(s("prod")) },
        PickerEntry { name: s("staging"), detail: s("postgres@db.staging.internal"), service: Some(s("staging")) },
        PickerEntry { name: s("localhost"), detail: s("(default)"), service: None },
    ]));
    app
}

fn picker_selected(app: &App) -> usize {
    app.picker.as_ref().expect("picker open").selected
}

#[test]
fn picker_navigation_saturates_at_both_ends() {
    let mut app = picker_app();
    assert_eq!(picker_selected(&app), 0);

    update(&mut app, ch('k'));
    assert_eq!(picker_selected(&app), 0);
    update(&mut app, press(Key::Up));
    assert_eq!(picker_selected(&app), 0);

    for _ in 0..10 {
        update(&mut app, ch('j'));
    }
    assert_eq!(picker_selected(&app), 2);
    update(&mut app, press(Key::Down));
    assert_eq!(picker_selected(&app), 2);
    update(&mut app, press(Key::Up));
    assert_eq!(picker_selected(&app), 1);
    assert!(!app.should_quit);
    assert!(app.picked.is_none(), "navigation never picks");
}

#[test]
fn picker_enter_picks_the_highlighted_entry_and_closes_the_picker() {
    let mut app = picker_app();
    update(&mut app, ch('j'));
    update(&mut app, press(Key::Enter));
    assert!(app.picker.is_none(), "picker leaves the screen");
    let picked = app.picked.as_ref().expect("entry picked");
    assert_eq!(picked.name, "staging");
    assert_eq!(picked.service.as_deref(), Some("staging"));
    assert!(!app.should_quit);
}

#[test]
fn picker_enter_on_the_default_entry_maps_to_no_service() {
    let mut app = picker_app();
    for _ in 0..5 {
        update(&mut app, ch('j'));
    }
    update(&mut app, press(Key::Enter));
    let picked = app.picked.as_ref().expect("entry picked");
    assert_eq!(picked.name, "localhost");
    assert_eq!(picked.service, None, "default = plain resolution");
}

#[test]
fn picker_q_and_esc_quit_without_picking() {
    for code in [Key::Char('q'), Key::Esc] {
        let mut app = picker_app();
        update(&mut app, press(code));
        assert!(app.should_quit);
        assert!(app.picked.is_none());
        assert!(app.picker.is_some(), "no entry was consumed");
    }
}

#[test]
fn picker_ignores_lens_keybindings() {
    let mut app = picker_app();
    for code in [
        Key::Tab,
        Key::Char('s'),
        Key::Char('B'),
        Key::Char('R'),
        Key::Char('E'),
        Key::Char('+'),
        Key::Char('-'),
    ] {
        update(&mut app, press(code));
    }
    assert_eq!(app.active_tab, Tab::MacroLens);
    assert_eq!(app.sort.activity, SortMode::Duration);
    assert_eq!(app.requests.schema_refresh, 0);
    assert_eq!(app.refresh_interval_ms, DEFAULT_REFRESH_MS);
    assert!(app.picker.is_some());
    assert!(!app.should_quit);
}

// ---------------------------------------------------------------------
// In-session database picker
// ---------------------------------------------------------------------

#[test]
fn d_opens_the_picker_starting_on_the_current_database() {
    let mut app = new_app();
    update(&mut app, ch('d'));
    let picker = app.db_picker.as_ref().expect("picker opened");
    assert!(picker.entries.iter().any(|e| e.name == "shop"), "fixture entries");
    let current = &picker.entries[picker.selected];
    assert_eq!(current.name, app.snapshot.database);
}

#[test]
fn d_opens_the_picker_from_any_lens() {
    for tab_presses in 0..Tab::TITLES.len() {
        let mut app = new_app();
        for _ in 0..tab_presses {
            update(&mut app, press(Key::Tab));
        }
        update(&mut app, ch('d'));
        assert!(app.db_picker.is_some(), "tab {tab_presses}: picker must open");
    }
}

#[test]
fn d_is_a_no_op_without_a_database_list() {
    let mut app = new_app();
    let mut snap = mock();
    snap.databases = None;
    update(&mut app, Action::Snapshot(Arc::new(snap), 1_000));
    update(&mut app, ch('d'));
    assert!(app.db_picker.is_none());
}

#[test]
fn picker_j_k_move_the_db_picker_selection_saturating() {
    let mut app = new_app();
    update(&mut app, ch('d'));
    update(&mut app, press(Key::Up));
    let len = app.db_picker.as_ref().expect("open").entries.len();
    assert!(len >= 2, "fixture must carry at least 2 databases");
    for _ in 0..len + 3 {
        update(&mut app, ch('j'));
    }
    assert_eq!(app.db_picker.as_ref().unwrap().selected, len - 1);
    for _ in 0..len + 3 {
        update(&mut app, ch('k'));
    }
    assert_eq!(app.db_picker.as_ref().unwrap().selected, 0);
}

#[test]
fn esc_closes_the_db_picker_without_arming_quit() {
    let mut app = new_app();
    update(&mut app, ch('d'));
    update(&mut app, press(Key::Esc));
    assert!(app.db_picker.is_none());
    assert!(!app.should_quit);
    assert!(app.esc_quit_armed_until.is_none());
}

#[test]
fn q_is_inert_while_the_db_picker_is_open() {
    let mut app = new_app();
    update(&mut app, ch('d'));
    update(&mut app, ch('q'));
    assert!(app.db_picker.is_some());
    assert!(!app.should_quit);
}

#[test]
fn enter_on_a_different_database_queues_the_switch() {
    let mut app = new_app();
    update(&mut app, ch('d'));
    update(&mut app, ch('j'));
    let target = {
        let picker = app.db_picker.as_ref().unwrap();
        picker.entries[picker.selected].name.clone()
    };
    assert_ne!(target, app.snapshot.database, "test needs a different pick");
    update(&mut app, press(Key::Enter));
    assert!(app.db_picker.is_none(), "overlay closes on Enter");
    assert_eq!(app.requests.pending_db_switch, Some(target));
}

#[test]
fn enter_on_the_current_database_does_not_queue_a_switch() {
    let mut app = new_app();
    update(&mut app, ch('d'));
    update(&mut app, press(Key::Enter));
    assert!(app.db_picker.is_none());
    assert!(app.requests.pending_db_switch.is_none());
}

#[test]
fn mock_mode_toasts_instead_of_queueing_a_switch() {
    let mut app = new_app();
    app.is_mock = true;
    update(&mut app, ch('d'));
    update(&mut app, ch('j'));
    update(&mut app, press(Key::Enter));
    assert!(app.requests.pending_db_switch.is_none(), "mock never queues a real switch");
    let text = feedback_text(&app);
    assert!(text.contains("mock mode"), "{}", text);
    assert!(!app.admin_feedback.as_ref().unwrap().error);
}

#[test]
fn host_label_action_updates_the_header_host() {
    let mut app = new_app();
    update(&mut app, Action::HostLabel(s("svc@db.prod.internal")));
    assert_eq!(app.host, "svc@db.prod.internal");
}

// ---------------------------------------------------------------------
// `!`: psql shell request
// ---------------------------------------------------------------------

#[test]
fn bang_key_sets_the_launch_request_flag() {
    let mut app = new_app();
    update(&mut app, ch('!'));
    assert!(app.requests.launch_psql);
    assert!(app.admin_feedback.is_none());
}

#[test]
fn bang_key_in_mock_mode_toasts_instead_of_requesting_a_launch() {
    let mut app = new_app();
    app.is_mock = true;
    update(&mut app, ch('!'));
    assert!(!app.requests.launch_psql);
    let text = feedback_text(&app);
    assert!(text.contains("mock mode"), "{}", text);
    assert!(!app.admin_feedback.as_ref().unwrap().error);
}

#[test]
fn psql_result_action_surfaces_as_admin_feedback() {
    let mut app = new_app();
    update(&mut app, Action::PsqlResult { text: s("psql not found on PATH"), error: true });
    let feedback = app.admin_feedback.as_ref().expect("feedback set");
    assert_eq!(feedback.text, "psql not found on PATH");
    assert!(feedback.error);

    update(&mut app, Action::PsqlResult { text: s("psql session ended"), error: false });
    let feedback = app.admin_feedback.as_ref().expect("feedback set");
    assert_eq!(feedback.text, "psql session ended");
    assert!(!feedback.error);
}

// ---------------------------------------------------------------------
// Admin actions (cancel / terminate)
// ---------------------------------------------------------------------

/// The model on the Micro Lens with a selected row, and that row's pid.
fn micro_app() -> (App, i32) {
    let mut app = new_app();
    update(&mut app, press(Key::Tab));
    let pid = app.selected_row().expect("selection").pid;
    (app, pid)
}

#[test]
fn c_opens_the_cancel_modal_only_on_the_micro_lens() {
    let mut app = new_app();
    update(&mut app, ch('c'));
    assert!(app.confirm.is_none());

    app.active_tab = Tab::ReplicationLens;
    update(&mut app, ch('c'));
    assert!(app.confirm.is_none());

    let (mut app, pid) = micro_app();
    update(&mut app, ch('c'));
    let confirm = app.confirm.as_ref().expect("modal open");
    assert_eq!(confirm.command, AdminCommand::CancelBackend(pid));
    assert!(app.requests.pending_admin.is_empty(), "nothing executes before y");
}

#[test]
fn read_only_refuses_cancel_and_terminate_before_the_modal_opens() {
    let (mut app, _pid) = micro_app();
    app.read_only = true;

    update(&mut app, ch('c'));
    assert!(app.confirm.is_none(), "read-only must not open the cancel modal");
    assert!(app.requests.pending_admin.is_empty(), "no AdminCommand queued");
    let text = feedback_text(&app);
    assert!(text.contains("read-only"), "{}", text);
    assert!(app.admin_feedback.as_ref().unwrap().error);

    app.admin_feedback = None;
    update(&mut app, ch('K'));
    assert!(app.confirm.is_none(), "read-only must not open the terminate modal");
    assert!(app.requests.pending_admin.is_empty(), "no AdminCommand queued");
    assert!(app.admin_feedback.is_some());
}

#[test]
fn uppercase_k_opens_terminate_and_lowercase_k_still_navigates() {
    let (mut app, _) = micro_app();
    update(&mut app, ch('j'));
    let selected = app.cursors.activity;

    update(&mut app, ch('k'));
    assert!(app.confirm.is_none(), "k must stay navigation");
    assert_ne!(app.cursors.activity, selected);

    let pid = app.selected_row().expect("selection").pid;
    update(&mut app, ch('K'));
    let confirm = app.confirm.as_ref().expect("modal open");
    assert_eq!(confirm.command, AdminCommand::TerminateBackend(pid));
}

#[test]
fn admin_keys_work_with_the_detail_panel_open() {
    let (mut app, pid) = micro_app();
    update(&mut app, press(Key::Enter));
    assert!(app.detail_open);
    update(&mut app, ch('c'));
    let confirm = app.confirm.as_ref().expect("modal open over detail");
    assert_eq!(confirm.command, AdminCommand::CancelBackend(pid));
}

#[test]
fn y_confirms_queueing_the_command_and_showing_sent_feedback() {
    let (mut app, pid) = micro_app();
    update(&mut app, ch('c'));
    update(&mut app, ch('y'));
    assert!(app.confirm.is_none(), "modal closed");
    assert_eq!(app.requests.pending_admin, vec![AdminCommand::CancelBackend(pid)]);
    let feedback = app.admin_feedback.as_ref().expect("sent feedback");
    assert_eq!(feedback.text, format!("cancel sent to PID {pid}\u{2026}"));
    assert!(!feedback.error);
    assert!(!app.should_quit);
}

#[test]
fn n_and_esc_abort_without_queueing() {
    for code in [Key::Char('n'), Key::Esc] {
        let (mut app, _) = micro_app();
        update(&mut app, ch('K'));
        assert!(app.confirm.is_some());
        update(&mut app, press(code));
        assert!(app.confirm.is_none(), "modal aborted");
        assert!(app.requests.pending_admin.is_empty(), "nothing queued");
        assert!(!app.should_quit, "Esc in the modal must not quit");
    }
}

#[test]
fn every_other_key_is_inert_while_the_modal_is_open() {
    let (mut app, pid) = micro_app();
    update(&mut app, ch('c'));
    let sort_before = app.sort.activity;
    let selected_before = app.cursors.activity;
    for code in [
        Key::Char('q'),
        Key::Tab,
        Key::Char('j'),
        Key::Char('k'),
        Key::Char('s'),
        Key::Char('K'),
        Key::Enter,
        Key::Char('+'),
    ] {
        update(&mut app, press(code));
    }
    assert!(!app.should_quit, "q inert while modal open");
    assert_eq!(app.active_tab, Tab::MicroLens, "Tab inert");
    assert_eq!(app.cursors.activity, selected_before, "j/k inert");
    assert_eq!(app.sort.activity, sort_before, "s inert");
    assert!(!app.detail_open, "Enter inert");
    assert_eq!(app.refresh_interval_ms, DEFAULT_REFRESH_MS, "+ inert");
    assert!(app.requests.pending_admin.is_empty());
    let confirm = app.confirm.as_ref().expect("modal still open");
    assert_eq!(confirm.command, AdminCommand::CancelBackend(pid));
}

fn with_admin_result(kind: AdminKind, pid: i32, outcome: AdminOutcome, at_epoch_ms: u64) -> Snapshot {
    let mut snap = mock();
    snap.last_admin_action = Some(AdminResult { at_epoch_ms, pid, kind, outcome });
    snap
}

#[test]
fn snapshot_result_becomes_feedback_once_per_result() {
    let mut app = new_app();
    update(
        &mut app,
        Action::Snapshot(Arc::new(with_admin_result(AdminKind::Cancel, 4977, AdminOutcome::Signalled(true), 111)), 1_000),
    );
    let feedback = app.admin_feedback.as_ref().expect("outcome feedback");
    assert_eq!(feedback.text, "query cancelled (PID 4977)");
    assert!(!feedback.error);

    app.admin_feedback = None;
    update(
        &mut app,
        Action::Snapshot(Arc::new(with_admin_result(AdminKind::Cancel, 4977, AdminOutcome::Signalled(true), 111)), 1_000),
    );
    assert!(app.admin_feedback.is_none(), "deduped by at_epoch_ms");

    update(
        &mut app,
        Action::Snapshot(Arc::new(with_admin_result(AdminKind::Terminate, 4312, AdminOutcome::Signalled(true), 222)), 1_000),
    );
    assert_eq!(feedback_text(&app), "backend terminated (PID 4312)");
}

#[test]
fn returned_false_surfaces_the_privilege_hint() {
    let mut app = new_app();
    update(
        &mut app,
        Action::Snapshot(Arc::new(with_admin_result(AdminKind::Cancel, 999, AdminOutcome::Signalled(false), 1)), 1_000),
    );
    let feedback = app.admin_feedback.as_ref().expect("feedback");
    assert!(feedback.error, "false return renders loud");
    assert!(feedback.text.contains("PID 999"));
    assert!(feedback.text.contains("gone or insufficient privilege"));
    assert!(feedback.text.contains("pg_signal_backend"));
}

#[test]
fn error_outcome_surfaces_the_message() {
    let mut app = new_app();
    update(
        &mut app,
        Action::Snapshot(Arc::new(with_admin_result(
            AdminKind::Terminate,
            7,
            AdminOutcome::Error(s("permission denied")),
            1,
        )), 1_000),
    );
    let feedback = app.admin_feedback.as_ref().expect("feedback");
    assert!(feedback.error);
    assert_eq!(
        feedback.text,
        "terminate PID 7 failed: permission denied (needs same user or pg_signal_backend)"
    );

    update(
        &mut app,
        Action::Snapshot(Arc::new(with_admin_result(
            AdminKind::Cancel,
            8,
            AdminOutcome::Error(s("connection closed")),
            2,
        )), 1_000),
    );
    assert_eq!(
        feedback_text(&app),
        "cancel PID 8 failed: connection closed",
        "non-permission errors get no privilege hint"
    );
}

#[test]
fn admin_feedback_fades_after_the_tick_deadline() {
    let (mut app, _) = micro_app();
    update(&mut app, ch('c'));
    update(&mut app, ch('y'));
    assert!(app.admin_feedback.is_some());

    for _ in 0..ADMIN_FEEDBACK_TICKS - 1 {
        update(&mut app, tick());
    }
    assert!(app.admin_feedback.is_some(), "still visible at deadline-1");
    update(&mut app, tick());
    assert!(app.admin_feedback.is_none(), "faded");
}

// ---------------------------------------------------------------------
// Pause / freeze (Space)
// ---------------------------------------------------------------------

#[test]
fn space_toggles_pause_in_every_lens() {
    let mut app = new_app();
    update(&mut app, ch(' '));
    assert!(app.paused);
    update(&mut app, ch(' '));
    assert!(!app.paused);

    for _ in 0..2 {
        update(&mut app, press(Key::Tab));
        update(&mut app, ch(' '));
        assert!(app.paused, "space pauses on {:?}", app.active_tab);
        update(&mut app, ch(' '));
        assert!(!app.paused);
    }
    assert!(!app.should_quit);
}

#[test]
fn paused_snapshots_park_in_pending_last_wins_and_staleness_keeps_counting() {
    let mut app = new_app();
    update(&mut app, Action::Snapshot(Arc::new(mock()), 1_000));
    let frozen = Arc::clone(&app.snapshot);
    let stamped_at = app.last_snapshot_at_ms;

    update(&mut app, ch(' '));
    assert!(app.paused);

    let first = Arc::new(mock());
    update(&mut app, Action::Snapshot(Arc::clone(&first), 3_000));
    assert!(Arc::ptr_eq(&app.snapshot, &frozen), "display stays frozen");
    assert!(Arc::ptr_eq(app.pending_snapshot.as_ref().expect("parked"), &first));
    assert_eq!(app.last_snapshot_at_ms, stamped_at);

    let second = Arc::new(mock());
    update(&mut app, Action::Snapshot(Arc::clone(&second), 5_000));
    assert!(Arc::ptr_eq(&app.snapshot, &frozen));
    assert!(Arc::ptr_eq(app.pending_snapshot.as_ref().expect("parked"), &second));
}

#[test]
fn resume_applies_the_pending_snapshot_and_clears_it() {
    let mut app = new_app();
    update(&mut app, Action::Snapshot(Arc::new(mock()), 1_000));
    update(&mut app, ch(' '));
    let parked = Arc::new(mock());
    update(&mut app, Action::Snapshot(Arc::clone(&parked), 1_000));

    update(&mut app, ch(' '));
    assert!(!app.paused);
    assert!(Arc::ptr_eq(&app.snapshot, &parked), "jumped to latest");
    assert!(app.pending_snapshot.is_none());
    assert!(app.last_snapshot_at_ms.is_some());
    assert_eq!(app.orders.activity.len(), parked.activity.len());
}

#[test]
fn resume_without_a_pending_snapshot_just_unfreezes() {
    let mut app = new_app();
    let frozen = Arc::clone(&app.snapshot);
    update(&mut app, ch(' '));
    update(&mut app, ch(' '));
    assert!(!app.paused);
    assert!(Arc::ptr_eq(&app.snapshot, &frozen), "nothing to apply");
}

#[test]
fn navigation_sort_and_detail_keep_working_on_the_frozen_data() {
    let mut app = new_app();
    update(&mut app, ch(' '));
    assert!(app.paused);

    update(&mut app, press(Key::Tab));
    assert_eq!(app.active_tab, Tab::MicroLens);

    update(&mut app, ch('j'));
    assert_eq!(app.cursors.activity, Some(1));

    update(&mut app, ch('s'));
    assert_eq!(app.sort.activity, SortMode::State);
    let states = displayed(&app, |r| r.state.clone());
    assert!(states.windows(2).all(|w| w[0] <= w[1]));

    update(&mut app, press(Key::Enter));
    assert!(app.detail_open);

    assert!(app.paused);
}

#[test]
fn space_is_inert_in_picker_mode() {
    let mut app = picker_app();
    update(&mut app, ch(' '));
    assert!(!app.paused, "space must not pause from the picker");
    assert!(app.picker.is_some());
    assert!(!app.should_quit);
}

#[test]
fn space_is_inert_while_the_confirm_modal_is_open() {
    let (mut app, pid) = micro_app();
    update(&mut app, ch('c'));
    update(&mut app, ch(' '));
    assert!(!app.paused, "space inert like every non-y/n/Esc key");
    let confirm = app.confirm.as_ref().expect("modal still open");
    assert_eq!(confirm.command, AdminCommand::CancelBackend(pid));
}

#[test]
fn space_is_inert_on_the_connection_splash() {
    let mut app = App::new();
    update(&mut app, Action::Snapshot(Arc::new(connecting()), 1_000));
    assert!(app.show_splash());
    update(&mut app, ch(' '));
    assert!(!app.paused, "no data to freeze yet");
    update(&mut app, Action::Snapshot(Arc::new(mock()), 1_000));
    assert!(!app.show_splash());
}

#[test]
fn space_works_with_the_detail_panel_open() {
    let (mut app, _) = micro_app();
    update(&mut app, press(Key::Enter));
    assert!(app.detail_open);
    update(&mut app, ch(' '));
    assert!(app.paused, "analysis time IS detail time");
    assert!(app.detail_open, "the panel stays open");
}

#[test]
fn confirming_an_admin_action_while_paused_auto_resumes() {
    let (mut app, pid) = micro_app();
    update(&mut app, ch(' '));
    let parked = Arc::new(mock());
    update(&mut app, Action::Snapshot(Arc::clone(&parked), 1_000));

    update(&mut app, ch('c'));
    update(&mut app, ch('y'));
    assert!(!app.paused, "y while paused unfreezes");
    assert!(Arc::ptr_eq(&app.snapshot, &parked), "pending applied");
    assert!(app.pending_snapshot.is_none());
    assert_eq!(app.requests.pending_admin, vec![AdminCommand::CancelBackend(pid)]);
    update(&mut app, ch(' '));
    update(&mut app, ch('K'));
    update(&mut app, press(Key::Esc));
    assert!(app.paused, "abort keeps the freeze");
}

#[test]
fn b_still_counts_requests_while_paused() {
    let mut app = new_app();
    update(&mut app, ch(' '));
    update(&mut app, ch('B'));
    assert_eq!(app.requests.schema_refresh, 1, "signal still goes out");
    assert!(app.paused, "data stays frozen regardless");
}

#[test]
fn snapshot_action_replaces_data_and_marks_freshness() {
    let mut app = App::new();
    assert!(!app.first_data_seen);
    assert!(app.last_snapshot_at_ms.is_none());

    let fresh = Arc::new(mock());
    update(&mut app, Action::Snapshot(Arc::clone(&fresh), 1_000));

    assert!(Arc::ptr_eq(&app.snapshot, &fresh));
    assert!(app.first_data_seen);
    assert_eq!(app.last_snapshot_at_ms, Some(1_000));
    assert_eq!(app.orders.activity.len(), fresh.activity.len());
    let selected = app.cursors.activity.expect("non-empty table");
    assert!(selected < fresh.activity.len());
}

// ---------------------------------------------------------------------
// `y` copy-to-clipboard
// ---------------------------------------------------------------------

#[test]
fn y_queues_the_selected_micro_lens_row_query_and_is_free_at_top_level() {
    let mut app = new_app();
    app.active_tab = Tab::MicroLens;
    let expected = app.selected_row().expect("fixture has rows").query.clone();
    update(&mut app, ch('y'));
    assert_eq!(app.requests.clipboard, Some(expected));
    assert!(!app.should_quit);
}

#[test]
fn y_queues_the_full_query_lens_statement_text() {
    let mut app = new_app();
    app.active_tab = Tab::QueryLens;
    let expected = app.selected_statement().expect("fixture has statements").query.clone();
    update(&mut app, ch('y'));
    assert_eq!(app.requests.clipboard, Some(expected));
}

#[test]
fn y_queues_the_index_definition_on_the_index_lens() {
    let mut app = new_app();
    app.active_tab = Tab::IndexLens;
    let expected = app.selected_index().expect("fixture has indexes").indexdef.clone();
    update(&mut app, ch('y'));
    assert_eq!(app.requests.clipboard, Some(expected));
}

#[test]
fn y_queues_the_qualified_table_name_on_the_schema_lens() {
    let mut app = new_app();
    app.active_tab = Tab::SchemaLens;
    let expected = {
        let table = app.selected_table().expect("fixture has tables");
        format!("{}.{}", table.schema, table.name)
    };
    update(&mut app, ch('y'));
    assert_eq!(app.requests.clipboard, Some(expected));
}

#[test]
fn y_queues_the_column_list_when_the_schema_structure_detail_is_open() {
    let mut app = new_app();
    app.active_tab = Tab::SchemaLens;
    let idx = {
        let schema = app.snapshot.schema.as_ref().unwrap();
        app.orders
            .schema
            .iter()
            .position(|&i| schema.tables[i].name == "order_items")
            .expect("fixture has order_items")
    };
    app.cursors.schema = Some(idx);
    app.detail_open = true;
    update(&mut app, ch('y'));
    let text = app.requests.clipboard.clone().expect("queued");
    assert!(text.contains("id bigint NOT NULL"), "{text}");
    assert!(text.lines().count() > 1, "one line per column: {text}");
}

#[test]
fn y_shows_a_calm_toast_when_there_is_nothing_to_copy() {
    let mut app = new_app();
    app.active_tab = Tab::ReplicationLens;
    update(&mut app, ch('y'));
    assert!(app.requests.clipboard.is_none());
    let text = feedback_text(&app);
    assert!(text.contains("nothing to copy"), "{}", text);
    assert!(!app.admin_feedback.as_ref().unwrap().error);
}

#[test]
fn y_inside_the_confirm_modal_still_confirms_not_copies() {
    let mut app = new_app();
    app.active_tab = Tab::MicroLens;
    update(&mut app, ch('c'));
    assert!(app.confirm.is_some(), "modal open");
    update(&mut app, ch('y'));
    assert!(app.confirm.is_none(), "confirmed and closed");
    assert!(!app.requests.pending_admin.is_empty(), "the cancel command was queued");
    assert!(app.requests.clipboard.is_none(), "not a copy request");
}

#[test]
fn clipboard_copied_action_sets_admin_feedback() {
    let mut app = new_app();
    update(
        &mut app,
        Action::ClipboardCopied { text: s("sent to clipboard (OSC 52) \u{2014} copied 8 chars") },
    );
    let feedback = app.admin_feedback.as_ref().expect("feedback set");
    assert!(feedback.text.contains("copied 8 chars"));
    assert!(!feedback.error);
}

// ---------------------------------------------------------------------
// Records Lens, sequences sub-view, Index Lens
// ---------------------------------------------------------------------

#[test]
fn tab_9_jumps_to_records_lens_and_cycles() {
    let mut app = new_app();
    assert_eq!(app.active_tab, Tab::MacroLens);
    update(&mut app, ch('9'));
    assert_eq!(app.active_tab, Tab::RecordsLens);
    assert_eq!(app.active_tab.index(), 8);
    assert_eq!(app.active_tab.next(), Tab::MacroLens);
    assert_eq!(app.active_tab.prev(), Tab::ProgressLens);
}

fn record(
    path: &str,
    target: &str,
    kind: RecordingKind,
    size_bytes: u64,
    started_at_secs: i64,
    started_at: &str,
    ended_at: Option<&str>,
) -> RecordEntry {
    RecordEntry {
        path: s(path),
        filename: s(path.trim_start_matches("/tmp/")),
        target: s(target),
        kind,
        size_bytes,
        started_at_secs: Some(started_at_secs),
        started_at: Some(s(started_at)),
        ended_at: ended_at.map(s),
        is_active: false,
        frame_count: None,
        duration_text: None,
    }
}

#[test]
fn records_sort_and_filter_test() {
    let mut app = new_app();
    app.records = vec![
        record("/tmp/rec-prod-20260907_100000.jsonl", "prod", RecordingKind::Recording, 5_000, 100,
            "2026-09-07 10:00:00", None),
        record("/tmp/snapshot-staging-20260907_120000.json", "staging", RecordingKind::Bookmark, 20_000, 200,
            "2026-09-07 12:00:00", Some("2026-09-07 12:00:00")),
        record("/tmp/rec-analytics-20260907_080000.jsonl", "analytics", RecordingKind::Recording, 1_000, 50,
            "2026-09-07 08:00:00", None),
    ];

    app.sort.records = RecordsSortMode::StartedDesc;
    resort_records(&mut app);
    assert_eq!(app.orders.records, vec![1, 0, 2]);

    app.sort.records = RecordsSortMode::StartedAsc;
    resort_records(&mut app);
    assert_eq!(app.orders.records, vec![2, 0, 1]);

    app.sort.records = RecordsSortMode::SizeDesc;
    resort_records(&mut app);
    assert_eq!(app.orders.records, vec![1, 0, 2]);

    app.sort.records = RecordsSortMode::NameAsc;
    resort_records(&mut app);
    assert_eq!(app.orders.records, vec![2, 0, 1]);

    app.filters.records.text = s("analytics");
    resort_records(&mut app);
    assert_eq!(app.orders.records, vec![2]);

    app.filters.records.text = s("bookmark");
    resort_records(&mut app);
    assert_eq!(app.orders.records, vec![1]);
}

#[test]
fn records_clipboard_and_delete_confirm() {
    let mut app = new_app();
    app.active_tab = Tab::RecordsLens;
    app.records = vec![record(
        "/tmp/rec-prod-20260907_100000.jsonl",
        "prod",
        RecordingKind::Recording,
        5_000,
        100,
        "2026-09-07 10:00:00",
        None,
    )];
    app.orders.records = vec![0];
    app.cursors.records = Some(0);

    update(&mut app, ch('y'));
    assert_eq!(app.requests.clipboard, Some(s("/tmp/rec-prod-20260907_100000.jsonl")));

    update(&mut app, press(Key::Delete));
    assert!(app.delete_record_target.is_some());
    assert_eq!(app.delete_record_target.as_ref().unwrap().filename, "rec-prod-20260907_100000.jsonl");

    update(&mut app, ch('n'));
    assert!(app.delete_record_target.is_none());

    update(&mut app, ch('x'));
    assert!(app.delete_record_target.is_some());

    update(&mut app, press(Key::Esc));
    assert!(app.delete_record_target.is_none());
}

#[test]
fn schema_sequences_subview_toggle_and_filter() {
    let mut app = new_app();
    app.active_tab = Tab::SchemaLens;
    assert_eq!(app.schema_view, SchemaView::Tables);

    update(&mut app, ch('S'));
    assert_eq!(app.schema_view, SchemaView::Sequences);
    assert!(!app.orders.sequences.is_empty());

    update(&mut app, ch('S'));
    assert_eq!(app.schema_view, SchemaView::Tables);

    update(&mut app, ch('S'));
    assert_eq!(app.schema_view, SchemaView::Sequences);

    update(&mut app, press(Key::Esc));
    assert_eq!(app.schema_view, SchemaView::Tables);

    update(&mut app, ch('S'));
    assert_eq!(app.schema_view, SchemaView::Sequences);

    update(&mut app, ch('/'));
    assert!(app.filters.schema.editing);
    type_str(&mut app, "ord");
    update(&mut app, press(Key::Enter));
    assert!(!app.filters.schema.editing);
    assert_eq!(app.filters.schema.text, "ord");

    update(&mut app, ch('\\'));
    assert!(app.filters.schema.text.is_empty());
}

#[test]
fn cross_lens_jump_from_table_to_index_lens() {
    let mut app = new_app();
    app.active_tab = Tab::SchemaLens;
    assert_eq!(app.schema_view, SchemaView::Tables);

    let table_name = app.selected_table().expect("selected table").name.clone();

    update(&mut app, ch('i'));
    assert_eq!(app.active_tab, Tab::IndexLens);
    assert_eq!(app.previous_tab, Some(Tab::SchemaLens));
    assert_eq!(app.filters.index.text, table_name);

    {
        let schema = app.snapshot.schema.as_ref().expect("schema");
        let needle = table_name.to_lowercase();
        for &i in &app.orders.index {
            let ix = &schema.indexes[i];
            assert!(ix.table.to_lowercase().contains(&needle) || ix.name.to_lowercase().contains(&needle));
        }
    }

    update(&mut app, press(Key::Backspace));
    assert_eq!(app.active_tab, Tab::SchemaLens);

    update(&mut app, ch('i'));
    assert_eq!(app.active_tab, Tab::IndexLens);
    assert_eq!(app.filters.index.text, table_name);

    update(&mut app, press(Key::Esc));
    assert_eq!(app.active_tab, Tab::SchemaLens);
    assert!(app.filters.index.text.is_empty());
}

#[test]
fn index_lens_filter_and_clear() {
    let mut app = new_app();
    app.active_tab = Tab::IndexLens;
    assert!(app.filters.index.text.is_empty());

    update(&mut app, ch('/'));
    assert!(app.filters.index.editing);

    update(&mut app, ch('p'));
    update(&mut app, ch('k'));
    assert_eq!(app.filters.index.text, "pk");

    update(&mut app, press(Key::Esc));
    assert!(!app.filters.index.editing);
    assert!(app.filters.index.text.is_empty());

    update(&mut app, ch('/'));
    update(&mut app, ch('p'));
    update(&mut app, ch('k'));
    update(&mut app, press(Key::Enter));
    assert!(!app.filters.index.editing);
    assert_eq!(app.filters.index.text, "pk");

    update(&mut app, ch('\\'));
    assert!(app.filters.index.text.is_empty());
}

#[test]
fn index_lens_detail_panel_explains_the_invalid_finding() {
    let mut app = new_app();
    app.active_tab = Tab::IndexLens;
    let pos = {
        let schema = app.snapshot.schema.as_ref().expect("schema");
        app.orders
            .index
            .iter()
            .position(|&i| schema.indexes[i].name == "order_items_shipped_at_idx")
            .expect("the fixture's invalid index is present")
    };
    app.cursors.index = Some(pos);
    app.detail_open = true;
    let idx = app.selected_index().expect("selection");
    let line = index_finding_line(&idx.finding);
    assert!(line.contains("INVALID"), "{line}");
    assert!(line.contains("CREATE INDEX CONCURRENTLY"), "detail panel names the likely cause: {line}");
    assert_eq!(index_flags_summary(idx), "plain (non-unique, no constraint)");
}

#[test]
fn index_lens_renders_the_invalid_marker_from_mock() {
    let mut app = new_app();
    app.active_tab = Tab::IndexLens;
    let schema = app.snapshot.schema.as_ref().expect("schema");
    let first = &schema.indexes[app.orders.index[0]];
    assert_eq!(first.name, "order_items_shipped_at_idx", "invalid indexes rank first");
    assert!(index_finding_line(&first.finding).starts_with("  INVALID"));
}

#[test]
fn vacuum_row_finds_its_table_by_schema_and_name() {
    let schema = mock_schema();
    let row = &schema.vacuum_tables[0];
    let table = find_table_for_vacuum_row(&schema, row).expect("order_items is in the table list");
    assert_eq!(table.oid, 16410);
    assert_eq!(table.name, "order_items");
    let stranger = vacuum_row("public", "no_such_table");
    assert!(find_table_for_vacuum_row(&schema, &stranger).is_none());
    let wrong_schema = vacuum_row("audit", "orders");
    assert!(find_table_for_vacuum_row(&schema, &wrong_schema).is_none());
}

#[test]
fn table_bloat_row_joins_by_schema_and_name() {
    let schema = mock_schema();
    let orders = schema.tables.iter().find(|t| t.name == "orders").expect("orders");
    let b = find_table_bloat(&schema, orders).expect("orders has a bloat estimate");
    assert_eq!(b.bloat_pct_order, Some(PCT_12));
    let branches = schema.tables.iter().find(|t| t.name == "pgbench_branches").expect("branches");
    assert!(find_table_bloat(&schema, branches).is_none());
}

#[test]
fn display_order_is_the_same_on_every_refresh() {
    let rows = vec![
        activity(30, "shop", "app", "web", "active", None, "SELECT 1", 500),
        activity(10, "shop", "app", "web", "idle", None, "SELECT 2", 500),
        activity(20, "shop", "app", "web", "active", None, "SELECT 3", 900),
    ];
    for mode in [SortMode::Duration, SortMode::State, SortMode::Pid] {
        let first = activity_order(&rows, "", mode);
        let second = activity_order(&rows, "", mode);
        assert_eq!(first, second);
        assert_eq!(first.len(), 3);
    }
    // Equal durations fall back to the pid: 10 before 30.
    assert_eq!(activity_order(&rows, "", SortMode::Duration), vec![2, 1, 0]);
    assert_eq!(activity_order(&rows, "", SortMode::Pid), vec![1, 2, 0]);
}

#[test]
fn activity_filter_ignores_letter_case_on_both_sides() {
    let rows = vec![
        activity(41, "Shop", "App", "PgBench", "active", None, "SELECT 1", 10),
        activity(42, "shop", "app", "psql", "idle", None, "select 2", 20),
    ];
    assert!(row_matches(&rows[0], "pgbench"), "the haystack is lowercased before matching");
    assert!(!row_matches(&rows[1], "pgbench"));
    assert_eq!(activity_order(&rows, "PGBENCH", SortMode::Pid), vec![0], "the typed filter is lowercased too");
    assert_eq!(activity_order(&rows, "SELECT", SortMode::Pid), vec![0, 1]);
}

#[test]
fn a_new_app_starts_every_cursor_on_the_first_row() {
    let app = App::new();
    let c = app.cursors;
    for sel in [
        c.activity, c.schema, c.vacuum, c.sequences, c.index, c.replication, c.statements, c.progress,
        c.idle, c.blocks_tree, c.blocks_locks, c.records,
    ] {
        assert_eq!(sel, Some(0));
    }
    assert!(app.last_snapshot_at_ms.is_none());
}

#[test]
fn enter_on_the_micro_lens_opens_the_detail_before_any_snapshot() {
    let mut app = App::new();
    app.active_tab = Tab::MicroLens;
    update(&mut app, press(Key::Enter));
    assert!(app.detail_open);
}

#[test]
fn the_first_snapshot_clamps_the_initial_cursors_to_their_tables() {
    let mut app = App::new();
    update(&mut app, Action::Snapshot(Arc::new(Snapshot::empty()), 500));
    assert_eq!(app.cursors.activity, None, "an empty table has no selection");
    assert_eq!(app.last_snapshot_at_ms, Some(500));
    update(&mut app, Action::Snapshot(Arc::new(mock()), 2_500));
    assert_eq!(app.cursors.activity, Some(0));
    assert_eq!(app.last_snapshot_at_ms, Some(2_500));
}

#[test]
fn resume_stamps_the_parked_snapshot_with_the_latest_clock() {
    let mut app = App::new();
    update(&mut app, Action::Snapshot(Arc::new(mock()), 1_000));
    update(&mut app, ch(' '));
    update(&mut app, Action::Snapshot(Arc::new(mock()), 3_000));
    update(&mut app, Action::Tick { frame_due: false, now_ms: 3_250 });
    assert_eq!(app.last_snapshot_at_ms, Some(1_000), "frozen: the stamp stays put");
    update(&mut app, ch(' '));
    assert_eq!(app.last_snapshot_at_ms, Some(3_250));
}
