use std::sync::Arc;

use pg_lens_tui::app::{Action, App, ConfirmState, FilterEdit, Key, KeyInput, PickerEntry, PickerState};
use pg_lens_tui::modes::{RecordsSortMode, Tab};
use pg_lens_tui::snapshot::{
    ActivityRow, AdminCommand, DatabaseRow, IndexFinding, IndexRow, RecordEntry, RecordingKind, Snapshot,
};
use pg_lens_tui::ui::index_lens::{index_finding_line, index_flags_summary};
use pg_lens_tui::ui::db_picker::db_row;
use pg_lens_tui::ui::picker::picker_row;
use pg_lens_tui::ui::progress::{command_class, CommandClass};
use pg_lens_tui::ui::titles::{
    activity_empty_message, activity_title, confirm_question, confirm_title, header, pause_indicator,
    progress_empty_title, progress_no_match, progress_title, record_cells, records_title, staleness,
    status_badge,
    statusbar_keys,
};
use pg_lens_tui::update::update;

fn filter(text: &str, editing: bool) -> FilterEdit {
    FilterEdit { text: text.to_string(), saved: String::new(), editing }
}

fn session(pid: i32, user: &str, db: &str) -> ActivityRow {
    ActivityRow {
        pid,
        database: db.to_string(),
        username: user.to_string(),
        application_name: "psql".to_string(),
        client: "10.0.0.5".to_string(),
        state: "active".to_string(),
        wait_event: None,
        query: "SELECT 1".to_string(),
        duration_order: i64::from(pid),
    }
}

/// A model showing two sessions of the `shop` database.
fn app_with_sessions() -> App {
    let mut snap = Snapshot::empty();
    snap.status_ok = true;
    snap.database = "shop".to_string();
    snap.activity = vec![session(4312, "app", "shop"), session(4977, "ro", "shop")];
    let mut app = App::new();
    update(&mut app, Action::Snapshot(Arc::new(snap), 1_000));
    app
}

fn press(app: &mut App, code: Key) {
    update(app, Action::Key(KeyInput::press(code)));
}

#[test]
fn micro_lens_statusbar_shows_the_admin_hints() {
    let mut app = app_with_sessions();
    press(&mut app, Key::Tab);
    let bar = statusbar_keys(&app);
    assert!(bar.contains("c: cancel"), "cancel hint: {bar}");
    assert!(bar.contains("K: kill"), "kill hint: {bar}");
    assert!(bar.contains("row 1/2"), "{bar}");

    let app = app_with_sessions();
    let bar = statusbar_keys(&app);
    assert!(!bar.contains("c: cancel"));
    assert!(!bar.contains("K: kill"));
    assert!(bar.contains("Enter: detail"));
}

#[test]
fn statusbar_follows_the_schema_lens_selection_and_sort() {
    let mut app = app_with_sessions();
    app.active_tab = Tab::SchemaLens;
    assert_eq!(
        statusbar_keys(&app),
        " q/Esc: quit \u{2502} Tab: lens \u{2502} j/k: row - \u{2502} Enter: detail \u{2502} s: sort=size \u{2502} R: recollect"
    );
}

#[test]
fn cancel_modal_renders_pid_target_and_key_hints() {
    let mut app = app_with_sessions();
    press(&mut app, Key::Tab);
    let (pid, user, db) = {
        let row = app.selected_row().expect("selection");
        (row.pid, row.username.clone(), row.database.clone())
    };
    press(&mut app, Key::Char('c'));
    let confirm = app.confirm.as_ref().expect("modal open");
    let (title, warning) = confirm_title(confirm.command);
    assert!(title.contains("Cancel query"));
    assert_eq!(confirm_question(confirm), format!("Cancel query on PID {pid} ({user}@{db})?"));
    assert!(warning.is_none(), "no kill warning on a cancel");
}

#[test]
fn terminate_modal_renders_the_kill_warning() {
    let mut app = app_with_sessions();
    press(&mut app, Key::Tab);
    let pid = app.selected_row().expect("selection").pid;
    press(&mut app, Key::Char('K'));
    let confirm = app.confirm.as_ref().expect("modal open");
    let (title, warning) = confirm_title(confirm.command);
    assert!(title.contains("Terminate backend"));
    assert!(confirm_question(confirm).starts_with(&format!("Terminate backend PID {pid}")));
    assert_eq!(warning, Some("The connection will be killed."));
}

#[test]
fn confirm_question_prints_negative_pids_with_their_sign() {
    let c = ConfirmState {
        command: AdminCommand::TerminateBackend(-7),
        username: "u".to_string(),
        database: "d".to_string(),
    };
    assert_eq!(confirm_question(&c), "Terminate backend PID -7 (u@d)?");
}

#[test]
fn header_hint_switches_between_pause_and_resume() {
    let mut app = app_with_sessions();
    let hint = pause_indicator(app.paused);
    assert!(hint.contains("Space: pause"), "live hint: {hint}");
    assert!(!hint.contains("PAUSED"));

    press(&mut app, Key::Char(' '));
    let hint = pause_indicator(app.paused);
    assert!(hint.contains("\u{25ae}\u{25ae} PAUSED"), "indicator: {hint}");
    assert!(hint.contains("Space: resume"), "resume hint: {hint}");
    assert!(!hint.contains("Space: pause"));
}

#[test]
fn picker_marks_the_selected_entry_and_follows_j() {
    let mut app = App::new();
    app.picker = Some(PickerState::new(vec![
        PickerEntry {
            name: "prod".to_string(),
            detail: "svc_ro@db.prod.internal".to_string(),
            service: Some("prod".to_string()),
        },
        PickerEntry {
            name: "staging".to_string(),
            detail: "postgres@db.staging.internal".to_string(),
            service: Some("staging".to_string()),
        },
    ]));
    let rows = |app: &App| {
        let p = app.picker.as_ref().unwrap();
        p.entries.iter().enumerate().map(|(i, e)| picker_row(e, i == p.selected, 9)).collect::<Vec<_>>()
    };
    let r = rows(&app);
    assert!(r[0].contains('\u{25b8}'), "first entry starts selected: {r:?}");
    assert!(!r[1].contains('\u{25b8}'));

    press(&mut app, Key::Char('j'));
    let r = rows(&app);
    assert!(r[1].contains('\u{25b8}'));
    assert!(!r[0].contains('\u{25b8}'));
    assert_eq!(r[0], "   prod       \u{2014}  svc_ro@db.prod.internal");
    assert_eq!(r[1], " \u{25b8} staging    \u{2014}  postgres@db.staging.internal");
}

#[test]
fn db_picker_rows_pad_names_align_sizes_and_mark_the_current_database() {
    let shop = DatabaseRow { name: "shop".to_string(), size_bytes: Some(1024) };
    assert_eq!(db_row(&shop, true, true, 8, 8), " \u{25b8} shop        1.0 KB (current)");
    let unknown = DatabaseRow { name: "analytics".to_string(), size_bytes: None };
    assert_eq!(db_row(&unknown, false, false, 4, 3), "   analytics    \u{2014}");
}

#[test]
fn activity_title_shows_counts_and_the_filter_state() {
    assert_eq!(activity_title(5, 5, &filter("", false)), "Activity (5)");
    assert_eq!(activity_title(2, 5, &filter("bench", true)), "Activity  /bench\u{2588}  2/5");
    assert_eq!(activity_title(2, 5, &filter("bench", false)), "Activity  filter: bench  2/5");
}

#[test]
fn records_and_progress_titles_describe_the_filter() {
    assert_eq!(
        records_title(3, &filter("", false), RecordsSortMode::StartedDesc),
        " Records Lens (3 items) (sort: started (newest)) "
    );
    assert_eq!(
        records_title(1, &filter("prod", false), RecordsSortMode::SizeDesc),
        " Records Lens [filter: \"prod\" \u{2014} 1 matching] (sort: size (largest)) "
    );
    assert_eq!(
        records_title(1, &filter("pr", true), RecordsSortMode::NameAsc),
        " Records Lens [filter: pr_\u{2588}] "
    );
    assert_eq!(progress_title(2, &filter("", false)), " Progress Lens (2 in-flight operations) ");
    assert_eq!(progress_title(1, &filter("vac", false)), " Progress Lens [filter: \"vac\" \u{2014} 1 matching] ");
    assert_eq!(progress_title(0, &filter("v", true)), " Progress Lens [filter: v_\u{2588}] ");
}

#[test]
fn status_badge_tells_live_recordings_from_files() {
    let mut entry = RecordEntry {
        path: "/tmp/rec-prod.jsonl".to_string(),
        filename: "rec-prod.jsonl".to_string(),
        target: "prod".to_string(),
        kind: RecordingKind::Recording,
        size_bytes: 10,
        started_at_secs: None,
        started_at: None,
        ended_at: None,
        is_active: true,
        frame_count: None,
        duration_text: None,
    };
    assert_eq!(status_badge(&entry), "\u{25cf} REC");
    entry.is_active = false;
    assert_eq!(status_badge(&entry), "REC");
    entry.kind = RecordingKind::Bookmark;
    assert_eq!(status_badge(&entry), "BOOKMARK");
}

#[test]
fn index_flags_name_what_applies_or_plain() {
    let mut idx = IndexRow {
        schema: "public".to_string(),
        table: "t".to_string(),
        name: "t_pkey".to_string(),
        finding: IndexFinding::DuplicateExact { partner: "t_id_idx".to_string() },
        index_bytes: 8192,
        indexdef: "CREATE UNIQUE INDEX t_pkey ON public.t USING btree (id)".to_string(),
        is_primary: true,
        is_unique: true,
        is_exclusion: false,
        is_constraint: true,
    };
    assert_eq!(index_flags_summary(&idx), "primary key");
    idx.is_primary = false;
    assert_eq!(index_flags_summary(&idx), "unique \u{b7} constraint-backed");
    idx.is_exclusion = true;
    assert_eq!(index_flags_summary(&idx), "unique \u{b7} exclusion \u{b7} constraint-backed");
    assert_eq!(
        index_finding_line(&idx.finding),
        "  DUP \u{2014} exact duplicate of \u{2018}t_id_idx\u{2019} (same columns, opclasses, predicate and uniqueness)"
    );
    assert_eq!(
        index_finding_line(&IndexFinding::DuplicatePrefix { partner: "wide".to_string() }),
        "  prefix \u{2014} this index's columns are a strict prefix of \u{2018}wide\u{2019}'s; the wider index can likely serve both"
    );
    assert_eq!(index_finding_line(&IndexFinding::NoFinding), "  no finding \u{2014} in use, or uniquely useful");
}

#[test]
fn command_badges_group_maintenance_commands_whatever_their_case() {
    assert_eq!(command_class("vacuum (full)"), CommandClass::Vacuum);
    assert_eq!(command_class("VACUUM ANALYZE"), CommandClass::Vacuum);
    assert_eq!(command_class("create index concurrently"), CommandClass::Index);
    assert_eq!(command_class("REINDEX"), CommandClass::Index);
    assert_eq!(command_class("Cluster"), CommandClass::Cluster);
    assert_eq!(command_class("analyze"), CommandClass::Analyze);
    assert_eq!(command_class("BASE_BACKUP"), CommandClass::Other);
    assert_eq!(command_class(""), CommandClass::Other);
}

#[test]
fn header_names_versions_host_uptime_and_connections() {
    let mut snap = Snapshot::empty();
    snap.status_ok = true;
    snap.server_version = "16.4".to_string();
    snap.uptime_secs = 3 * 86_400 + 4 * 3_600 + 59;
    snap.connections_total = 12;
    snap.max_connections = 100;
    let mut app = App::new();
    update(&mut app, Action::Snapshot(Arc::new(snap), 1_000));
    update(&mut app, Action::HostLabel("svc@db.prod.internal".to_string()));
    assert_eq!(
        header(&app, "0.17.0"),
        " pg_lens v0.17.0 \u{2502} PG 16.4 @ svc@db.prod.internal \u{2502} up 3d 4h \u{2502} 12/100 conns"
    );
}

#[test]
fn empty_placeholders_explain_why_nothing_shows() {
    let mut app = app_with_sessions();
    assert_eq!(activity_empty_message(&app), "No active sessions");
    app.filters.micro.text = "zzz".to_string();
    assert_eq!(activity_empty_message(&app), "No sessions match \u{201c}zzz\u{201d}");
    let empty = App::new();
    assert_eq!(activity_empty_message(&empty), "No active sessions");

    assert_eq!(progress_empty_title(&filter("", false)), " Progress Lens ");
    assert_eq!(progress_empty_title(&filter("vac", false)), " Progress Lens [filter: \"vac\"] ");
    assert_eq!(progress_empty_title(&filter("va", true)), " Progress Lens [filter: va_\u{2588}] ");
    assert_eq!(
        progress_no_match(&filter("vac", false)).as_deref(),
        Some(" No operations match filter \"vac\" (press \\ to clear)")
    );
    assert_eq!(progress_no_match(&filter("", false)), None);
}

#[test]
fn staleness_counts_whole_seconds_since_the_stamp() {
    assert_eq!(staleness(None, 5_000), "data: waiting");
    assert_eq!(staleness(Some(1_000), 1_000), "data: 0s ago");
    assert_eq!(staleness(Some(1_000), 3_999), "data: 2s ago");
    assert_eq!(staleness(Some(1_000), 61_000), "data: 60s ago");
    assert_eq!(staleness(Some(9_000), 1_000), "data: 0s ago", "a clock behind the stamp reads fresh");
}

#[test]
fn records_row_cells_fill_dashes_and_live_markers() {
    let mut entry = RecordEntry {
        path: "/tmp/rec-prod.jsonl".to_string(),
        filename: "rec-prod.jsonl".to_string(),
        target: "prod".to_string(),
        kind: RecordingKind::Recording,
        size_bytes: 2048,
        started_at_secs: None,
        started_at: Some("2026-01-02 10:00:00".to_string()),
        ended_at: None,
        is_active: true,
        frame_count: None,
        duration_text: None,
    };
    assert_eq!(
        record_cells(&entry),
        vec!["\u{25cf} REC", "prod", "rec-prod.jsonl", "2.0 KB", "\u{2014}", "2026-01-02 10:00:00", "recording...", "live..."]
    );
    entry.is_active = false;
    entry.frame_count = Some(42);
    entry.duration_text = Some("1m 24s".to_string());
    entry.started_at = None;
    assert_eq!(
        record_cells(&entry),
        vec!["REC", "prod", "rec-prod.jsonl", "2.0 KB", "42", "\u{2014}", "\u{2014}", "1m 24s"]
    );
}
