use std::sync::Arc;

use pg_lens_tui::app::{Action, App};
use pg_lens_tui::modes::Tab;
use pg_lens_tui::snapshot::{BlockTreeNode, LockRow, Snapshot};
use pg_lens_tui::ui::blocks::{
    flatten_tree, lock_detail_title, lock_info, lock_relation, lock_status, locks_title, node_banner,
    session_label, tree_title,
};
use pg_lens_tui::update::update;

fn node(pid: i32, root: bool, children: Vec<BlockTreeNode>) -> BlockTreeNode {
    BlockTreeNode {
        pid,
        usename: "app".to_string(),
        application_name: "psql".to_string(),
        state: "active".to_string(),
        query: format!("SELECT {pid}"),
        mode: if root { None } else { Some("RowExclusiveLock".to_string()) },
        relation: if root { None } else { Some("orders".to_string()) },
        is_root: root,
        is_deadlock: false,
        num_descendants: children.len() as u32,
        children,
    }
}

fn lock(pid: i32, schema: &str, relation: &str, granted: bool) -> LockRow {
    LockRow {
        pid,
        usename: "app".to_string(),
        query: "SELECT 1".to_string(),
        locktype: "relation".to_string(),
        schema: schema.to_string(),
        relation: relation.to_string(),
        mode: "AccessShareLock".to_string(),
        granted,
    }
}

/// 4312 blocks 5120 (which blocks 7002) and 6001; 8000 blocks nobody.
fn forest() -> Vec<BlockTreeNode> {
    vec![
        node(4312, true, vec![node(5120, false, vec![node(7002, false, Vec::new())]), node(6001, false, Vec::new())]),
        node(8000, true, Vec::new()),
    ]
}

fn blocks_app() -> App {
    let mut snap = Snapshot::empty();
    snap.status_ok = true;
    snap.blocking_tree = Some(flatten_tree(&forest()));
    snap.active_locks = Some(vec![lock(4312, "public", "orders", true), lock(5120, "public", "orders", false)]);
    let mut app = App::new();
    update(&mut app, Action::Snapshot(Arc::new(snap), 1_000));
    app.active_tab = Tab::BlocksLens;
    app
}

#[test]
fn flatten_walks_the_forest_in_pre_order_with_depths() {
    let rows = flatten_tree(&forest());
    let shape: Vec<(i32, usize, bool)> = rows.iter().map(|r| (r.pid, r.depth, r.is_last_child)).collect();
    assert_eq!(
        shape,
        vec![(4312, 0, false), (5120, 1, false), (7002, 2, true), (6001, 1, true), (8000, 0, true)]
    );
    assert!(flatten_tree(&Vec::new()).is_empty());
}

#[test]
fn session_labels_draw_the_hierarchy() {
    let rows = flatten_tree(&forest());
    let labels: Vec<String> = rows.iter().map(session_label).collect();
    assert_eq!(labels[0], "[ROOT BLOCKER] PID 4312 (2 waiters)");
    assert_eq!(labels[1], " \u{251c}\u{2500} PID 5120");
    assert_eq!(labels[2], "    \u{2514}\u{2500} PID 7002");
    assert_eq!(labels[3], " \u{2514}\u{2500} PID 6001");
    assert_eq!(labels[4], "[ROOT BLOCKER] PID 8000 (0 waiters)");
}

#[test]
fn deadlocked_sessions_are_flagged_first() {
    let mut n = node(9, true, Vec::new());
    n.is_deadlock = true;
    let rows = flatten_tree(&vec![n]);
    assert_eq!(session_label(&rows[0]), "[DEADLOCK] PID 9");
    assert_eq!(node_banner(&rows[0]).as_deref(), Some("DEADLOCK DETECTED IN THIS CYCLE"));
}

#[test]
fn tree_title_counts_roots_and_blocked_sessions() {
    let rows = flatten_tree(&forest());
    assert_eq!(tree_title(&rows), " Blocking Tree (2 roots, 3 blocked) ");
}

#[test]
fn lock_texts_qualify_non_public_relations_and_show_the_status() {
    assert_eq!(lock_relation(&lock(1, "public", "orders", true)), "orders");
    assert_eq!(lock_relation(&lock(1, "audit", "raw_events", true)), "audit.raw_events");
    assert_eq!(lock_relation(&lock(1, "", "", true)), "-");
    assert_eq!(lock_status(&lock(1, "public", "orders", false)), "WAIT");
    assert_eq!(lock_status(&lock(1, "public", "orders", true)), "GRANT");
    assert_eq!(locks_title(2), " Active Locks (2 entries) ");
    assert_eq!(
        lock_detail_title(&lock(5120, "public", "orders", false)),
        "Detail \u{2014} Lock on PID 5120 \u{2502} relation \u{2502} WAITING (Enter/Esc: close)"
    );
}

#[test]
fn awaited_lock_names_mode_and_relation() {
    let some = |x: &str| Some(x.to_string());
    assert_eq!(lock_info(&some("RowExclusiveLock"), &some("orders")), "RowExclusiveLock on orders");
    assert_eq!(lock_info(&some("RowExclusiveLock"), &some("")), "RowExclusiveLock");
    assert_eq!(lock_info(&some("RowExclusiveLock"), &None), "RowExclusiveLock");
    assert_eq!(lock_info(&None, &some("orders")), "-");
}

#[test]
fn blocks_lens_renders_tree_and_locks_from_mock() {
    let app = blocks_app();
    let rows = app.snapshot.blocking_tree.as_ref().expect("tree");
    assert!(tree_title(rows).contains("Blocking Tree"));
    let locks = app.snapshot.active_locks.as_ref().expect("locks");
    assert!(locks_title(locks.len()).contains("Active Locks"));
    let labels: Vec<String> = rows.iter().map(session_label).collect();
    assert!(labels.iter().any(|l| l.contains("4312")));
    assert!(labels.iter().any(|l| l.contains("ROOT BLOCKER")));
    assert!(locks.iter().any(|l| lock_status(l) == "WAIT"));
}

#[test]
fn blocks_lens_detail_panel_renders() {
    let mut app = blocks_app();
    app.detail_open = true;
    app.cursors.blocks_tree = Some(0);
    let selected = app.selected_block_node().expect("selection");
    assert_eq!(selected.pid, 4312);
    let banner = node_banner(selected).expect("root banner");
    assert_eq!(banner, "ROOT BLOCKER \u{2014} blocking 2 descendant session(s)");
    assert_eq!(lock_info(&selected.mode, &selected.relation), "-");
}
