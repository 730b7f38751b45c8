use pg_lens_tui::rows::slot_order;
use pg_lens_tui::snapshot::{PublicationRow, ReplicationSlotRow, SubscriptionRow};
use pg_lens_tui::ui::replication::{
    buffers_full_cell, pause_badge, publication_line, replication_lines, slot_line, slot_severity, subscription_line,
    subscription_severity, upstream, wal_buffers_full_severity, ReplicationRole, Severity,
};

fn slot(active: bool, wal_status: Option<&str>, retained_wal_bytes: Option<i64>) -> ReplicationSlotRow {
    ReplicationSlotRow {
        slot_name: "probe_slot".to_string(),
        slot_type: "physical".to_string(),
        active,
        wal_status: wal_status.map(str::to_string),
        retained_wal_bytes,
        invalidated: None,
        xmin_age: None,
    }
}

#[test]
fn active_reserved_slot_is_calm() {
    assert_eq!(slot_severity(&slot(true, Some("reserved"), Some(0))), Severity::Calm);
    assert_eq!(slot_severity(&slot(true, Some("reserved"), Some(20 * 1024 * 1024 * 1024))), Severity::Calm);
}

#[test]
fn inactive_slot_retaining_wal_is_yellow_then_red() {
    assert_eq!(
        slot_severity(&slot(false, Some("extended"), Some(0))),
        Severity::Calm,
        "inactive but retaining nothing stays calm"
    );
    assert_eq!(slot_severity(&slot(false, Some("extended"), Some(1024))), Severity::Warn);
    assert_eq!(slot_severity(&slot(false, Some("extended"), Some(11 * 1024 * 1024 * 1024))), Severity::Bad);
}

#[test]
fn unreserved_or_lost_wal_status_is_always_red() {
    assert_eq!(slot_severity(&slot(false, Some("unreserved"), Some(1024))), Severity::Bad);
    assert_eq!(slot_severity(&slot(false, Some("lost"), None)), Severity::Bad);
    assert_eq!(slot_severity(&slot(true, Some("unreserved"), Some(0))), Severity::Bad);
}

#[test]
fn slots_rank_worst_severity_first() {
    let mut lost = slot(false, Some("lost"), Some(10));
    lost.slot_name = "lost_slot".to_string();
    let mut calm = slot(true, Some("reserved"), Some(999_999_999));
    calm.slot_name = "calm_slot".to_string();
    let mut warn = slot(false, Some("extended"), Some(5_000));
    warn.slot_name = "warn_slot".to_string();
    let slots = vec![calm, warn, lost];
    let order = slot_order(&slots);
    assert_eq!(slots[order[0]].slot_name, "lost_slot", "red first");
    assert_eq!(order, vec![2, 1, 0]);
}

#[test]
fn wal_generation_is_calm_when_buffers_full_is_not_climbing() {
    assert_eq!(wal_buffers_full_severity(Some(0)), Severity::Calm);
    assert_eq!(wal_buffers_full_severity(None), Severity::Calm);
}

#[test]
fn wal_generation_warns_when_buffers_full_is_actively_climbing() {
    assert_eq!(wal_buffers_full_severity(Some(3)), Severity::Warn);
}

#[test]
fn wal_generation_line_shows_the_climbing_delta() {
    assert_eq!(buffers_full_cell(15, Some(3)), "15 (+3 this tick)");
    assert_eq!(buffers_full_cell(0, None), "0");
    assert_eq!(buffers_full_cell(40, Some(0)), "40");
}

#[test]
fn severity_markers_read_without_color() {
    assert_eq!(Severity::Calm.marker(), "  ");
    assert_eq!(Severity::Warn.marker(), "! ");
    assert_eq!(Severity::Bad.marker(), "!!");
}

#[test]
fn slots_render_under_the_senders_with_a_marker() {
    let text = slot_line(&slot(false, Some("extended"), Some(2_600_000_000)));
    assert!(text.contains("probe_slot"));
    assert!(text.contains('!'), "warn marker must be visible: {text}");
    assert_eq!(text, "!  slot probe_slot/physical  inactive  retained: 2.4 GB  (extended)");
}

#[test]
fn slot_line_names_invalidation_and_an_old_xmin() {
    let mut s = slot(true, None, None);
    s.invalidated = Some("wal_removed".to_string());
    s.xmin_age = Some(12_000_000);
    assert_eq!(
        slot_line(&s),
        "   slot probe_slot/physical  active  retained: \u{2014}  (\u{2014})  [invalidated: wal_removed]  [xmin age: 12.0M]"
    );
    s.xmin_age = Some(10_000_000);
    assert!(!slot_line(&s).contains("xmin age"), "ten million is not yet old");
}

fn subscription() -> SubscriptionRow {
    SubscriptionRow {
        subname: "billing_sub".to_string(),
        owner: "app".to_string(),
        enabled: true,
        publications: vec!["billing_pub".to_string()],
        sync_commit: Some("off".to_string()),
        publisher_host: Some("10.0.0.1".to_string()),
        publisher_dbname: Some("prod".to_string()),
        worker_pid: Some(1234),
        received_lsn: Some("0/1A2B3C".to_string()),
        sync_tables: 2,
        ready_tables: 8,
        total_tables: 10,
        syncing_table_names: vec!["public.users (copy)".to_string()],
        apply_error_count: Some(5),
        sync_error_count: Some(0),
    }
}

#[test]
fn subscription_line_renders_sync_and_errors() {
    let text = subscription_line(&subscription());
    assert!(text.contains("sub billing_sub"), "{text}");
    assert!(text.contains("from 10.0.0.1/prod"), "{text}");
    assert!(text.contains("sync_commit: off"), "{text}");
    assert!(text.contains("worker: pid 1234"), "{text}");
    assert!(text.contains("tables: 8/10 ready"), "{text}");
    assert!(text.contains("(2 syncing)"), "{text}");
    assert!(text.contains("[public.users (copy)]"), "{text}");
    assert!(text.contains("[apply errors: 5]"), "{text}");
    assert!(!text.contains("sync errors"), "a zero counter stays quiet: {text}");
    assert_eq!(
        text,
        "!! sub billing_sub (app)  enabled  from 10.0.0.1/prod  sync_commit: off  worker: pid 1234  \
         pubs: [billing_pub]  recv: 0/1A2B3C  tables: 8/10 ready (2 syncing)  [public.users (copy)]  [apply errors: 5]"
    );
}

#[test]
fn subscription_severity_ranks_errors_over_disabled() {
    let mut s = subscription();
    assert_eq!(subscription_severity(&s), Severity::Bad);
    s.apply_error_count = None;
    assert_eq!(subscription_severity(&s), Severity::Calm);
    s.enabled = false;
    assert_eq!(subscription_severity(&s), Severity::Warn);
    s.sync_error_count = Some(1);
    assert_eq!(subscription_severity(&s), Severity::Bad);
    s.worker_pid = None;
    s.publications = vec!["a".to_string(), "b".to_string()];
    s.publisher_host = None;
    s.sync_commit = None;
    s.received_lsn = None;
    s.sync_tables = 0;
    s.syncing_table_names = Vec::new();
    assert_eq!(
        subscription_line(&s),
        "!! sub billing_sub (app)  disabled  worker: idle  pubs: [a,b]  recv: \u{2014}  tables: 8/10 ready  [sync errors: 1]"
    );
}

#[test]
fn receiver_line_shows_paused_badge() {
    assert_eq!(pause_badge(true, &Some("paused".to_string())), "  [paused]");
    assert_eq!(pause_badge(true, &None), "  [paused]");
    assert_eq!(pause_badge(false, &Some("pause requested".to_string())), "");
    assert_eq!(upstream(&Some("primary.internal".to_string()), Some(5432)), "primary.internal:5432");
    assert_eq!(upstream(&Some("primary.internal".to_string()), None), "primary.internal");
    assert_eq!(upstream(&None, Some(5432)), "upstream");
}

#[test]
fn primary_without_replicas_hides_the_panel() {
    assert!(replication_lines(Some(ReplicationRole::Primary(Vec::new())), None).is_none());
    assert!(replication_lines(None, None).is_none());
    assert!(replication_lines(None, Some(&Vec::new())).is_none());
}

#[test]
fn standby_always_shows_a_line() {
    let lines = replication_lines(Some(ReplicationRole::StandbyWaiting), None).expect("a line");
    assert_eq!(lines, vec!["standby \u{b7} waiting for a WAL sender\u{2026}".to_string()]);
    let lines = replication_lines(Some(ReplicationRole::Standby("standby line".to_string())), None).unwrap();
    assert_eq!(lines.len(), 1);
}

#[test]
fn empty_slots_list_renders_no_extra_rows() {
    assert!(replication_lines(Some(ReplicationRole::Primary(Vec::new())), Some(&Vec::new())).is_none());
}

#[test]
fn many_senders_do_not_push_slots_out_of_the_panel() {
    let senders: Vec<String> = (0..10).map(|i| format!("   cdc_{i}/10.0.0.1  streaming/async  lag: 0 B")).collect();
    let slots: Vec<ReplicationSlotRow> = (0..10)
        .map(|i| {
            let mut s = slot(false, Some("extended"), Some(1_000_000 * (i + 1)));
            s.slot_name = format!("slot_{i}");
            s
        })
        .collect();
    let lines = replication_lines(Some(ReplicationRole::Primary(senders)), Some(&slots)).expect("panel renders");
    let text: String = lines.concat();
    assert!(text.contains("+6 more replicas"), "{text}");
    assert!(text.contains("slot_"), "slot rows must render: {text}");
    assert!(text.contains("+4 more slots"), "{text}");
    assert!(text.contains("Tab \u{2192} Replication for all"), "{text}");
    assert!(lines.len() <= 13, "got {} lines", lines.len());
    assert_eq!(lines.len(), 4 + 1 + 6 + 1 + 1);
    assert!(lines[5].contains("slot_0"), "equal tiers keep the collected order: {}", lines[5]);
}

#[test]
fn unclipped_panel_has_no_tab_hint() {
    let slots = vec![slot(false, Some("extended"), Some(2_600_000_000))];
    let lines = replication_lines(Some(ReplicationRole::Primary(Vec::new())), Some(&slots)).expect("panel renders");
    let text: String = lines.concat();
    assert!(!text.contains("Tab \u{2192}"), "{text}");
    assert_eq!(lines.len(), 1);
}

#[test]
fn panel_lists_the_worst_slot_first() {
    let mut lost = slot(false, Some("lost"), Some(10));
    lost.slot_name = "lost_slot".to_string();
    let mut calm = slot(true, Some("reserved"), Some(999_999_999));
    calm.slot_name = "calm_slot".to_string();
    let mut warn = slot(false, Some("extended"), Some(5_000));
    warn.slot_name = "warn_slot".to_string();
    let lines = replication_lines(None, Some(&vec![calm, warn, lost])).expect("panel renders");
    assert!(lines[0].contains("lost_slot"), "red first: {}", lines[0]);
    assert!(lines[1].contains("warn_slot"));
    assert!(lines[2].contains("calm_slot"));
}

fn publication(tables: Vec<&str>) -> PublicationRow {
    PublicationRow {
        pubname: "test_pub".to_string(),
        owner: "admin".to_string(),
        all_tables: false,
        pubinsert: true,
        pubupdate: true,
        pubdelete: false,
        pubtruncate: false,
        pubviaroot: true,
        table_count: 3,
        published_tables: tables.into_iter().map(str::to_string).collect(),
    }
}

#[test]
fn publication_line_renders_ops_and_tables() {
    let pub_row = publication(vec!["public.orders"]);
    let text = publication_line(&pub_row);
    assert!(text.contains("pub test_pub"), "{text}");
    assert!(text.contains("3 tables"), "{text}");
    assert!(text.contains("ins,upd"), "{text}");
    assert!(text.contains("(via_root)"), "{text}");
    assert!(text.contains("[public.orders]"), "{text}");
}

#[test]
fn publication_line_exact_text_and_edge_cases() {
    let mut p = publication(vec!["public.orders"]);
    assert_eq!(
        publication_line(&p),
        "  pub test_pub (admin)  tables: 3 tables  ops: ins,upd  (via_root)  [public.orders]"
    );
    p.pubinsert = false;
    p.pubupdate = false;
    p.pubviaroot = false;
    p.table_count = 1;
    p.published_tables.clear();
    assert_eq!(publication_line(&p), "  pub test_pub (admin)  tables: 1 table  ops: none");
    p.all_tables = true;
    p.pubdelete = true;
    p.pubtruncate = true;
    assert_eq!(publication_line(&p), "  pub test_pub (admin)  tables: all tables  ops: del,trunc");
}

#[test]
fn publication_sample_over_forty_bytes_is_cut_at_thirty_seven() {
    let p = publication(vec!["public.orders", "public.order_items", "public.customers"]);
    let text = publication_line(&p);
    // "public.orders, public.order_items, public.customers" is 51 bytes.
    assert!(text.ends_with("  [public.orders, public.order_items, pu[\u{2026}]]"), "{text}");
    let exactly_forty = publication(vec!["public.abcdefghijklmnopqrstuvwxyz0123456"]);
    assert_eq!("public.abcdefghijklmnopqrstuvwxyz0123456".len(), 40);
    let t = publication_line(&exactly_forty);
    assert!(t.ends_with("[public.abcdefghijklmnopqrstuvwxyz0123456]"), "{t}");
}

#[test]
fn publication_sample_cut_keeps_whole_characters() {
    // 35 ASCII bytes, then a 2-byte character that ends at byte 37.
    let name = format!("{}\u{e9}{}", "a".repeat(35), "b".repeat(10));
    assert_eq!(name.len(), 47);
    let p = publication(vec![name.as_str()]);
    let text = publication_line(&p);
    let expected = format!("[{}\u{e9}[\u{2026}]]", "a".repeat(35));
    assert!(text.ends_with(&expected), "{text}");
}
