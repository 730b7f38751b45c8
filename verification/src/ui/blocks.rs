//! Blocks & Locks Lens: the wait-for forest flattened into the rows the
//! tree pane shows (pre-order, with depth and last-sibling marks), and the
//! texts of its rows, titles and detail panel.
use vstd::prelude::*;
use vstd::string::*;
use crate::snapshot::{FlattenedNode, BlockTreeNode, LockRow};
use crate::text::{decimal, push_decimal, push_signed_decimal, push_str, signed_decimal};

verus! {

// ---------------------------------------------------------------------
// Flattening the forest
// ---------------------------------------------------------------------

/// The forest in pre-order: each session with its depth and whether it is
/// the last of its siblings, followed by the sessions waiting on it.
pub open spec fn forest_rows(nodes: Seq<BlockTreeNode>, depth: nat) -> Seq<(BlockTreeNode, nat, bool)>
    decreases nodes,
{
    if nodes.len() == 0 {
        Seq::empty()
    } else {
        let n = nodes[0];
        seq![(n, depth, nodes.len() == 1)] + forest_rows(n.children@, depth + 1) + forest_rows(
            nodes.subrange(1, nodes.len() as int),
            depth,
        )
    }
}

/// A depth as stored in a row (a `usize`, saturating).
pub open spec fn stored_depth(d: nat) -> usize {
    if d < usize::MAX {
        d as usize
    } else {
        usize::MAX
    }
}

/// Row `b` shows entry `t` of [`forest_rows`].
pub open spec fn row_shows(b: FlattenedNode, t: (BlockTreeNode, nat, bool)) -> bool {
    let n = t.0;
    &&& b.pid == n.pid
    &&& b.usename == n.usename
    &&& b.application_name == n.application_name
    &&& b.state == n.state
    &&& b.query == n.query
    &&& b.mode == n.mode
    &&& b.relation == n.relation
    &&& b.is_root == n.is_root
    &&& b.is_deadlock == n.is_deadlock
    &&& b.num_descendants == n.num_descendants
    &&& b.depth == stored_depth(t.1)
    &&& b.is_last_child == t.2
}

pub open spec fn rows_show(rows: Seq<FlattenedNode>, entries: Seq<(BlockTreeNode, nat, bool)>) -> bool {
    &&& rows.len() == entries.len()
    &&& forall|k: int| 0 <= k < rows.len() ==> row_shows(#[trigger] rows[k], entries[k])
}

fn copy_opt(v: &Option<String>) -> (r: Option<String>)
    ensures
        r == *v,
{
    match v {
        Some(s) => Some(s.clone()),
        None => None,
    }
}

fn node_row(n: &BlockTreeNode, depth: usize, last: bool) -> (r: FlattenedNode)
    ensures
        r.pid == n.pid,
        r.usename == n.usename,
        r.application_name == n.application_name,
        r.state == n.state,
        r.query == n.query,
        r.mode == n.mode,
        r.relation == n.relation,
        r.is_root == n.is_root,
        r.is_deadlock == n.is_deadlock,
        r.num_descendants == n.num_descendants,
        r.depth == depth,
        r.is_last_child == last,
{
    FlattenedNode {
        pid: n.pid,
        usename: n.usename.clone(),
        application_name: n.application_name.clone(),
        state: n.state.clone(),
        query: n.query.clone(),
        mode: copy_opt(&n.mode),
        relation: copy_opt(&n.relation),
        is_root: n.is_root,
        is_deadlock: n.is_deadlock,
        num_descendants: n.num_descendants,
        depth,
        is_last_child: last,
    }
}

proof fn lemma_rows_show_concat(
    a: Seq<FlattenedNode>,
    ea: Seq<(BlockTreeNode, nat, bool)>,
    b: Seq<FlattenedNode>,
    eb: Seq<(BlockTreeNode, nat, bool)>,
)
    requires
        rows_show(a, ea),
        rows_show(b, eb),
    ensures
        rows_show(a + b, ea + eb),
{
    assert forall|k: int| 0 <= k < (a + b).len() implies row_shows(#[trigger] (a + b)[k], (ea + eb)[k]) by {
        if k < a.len() {
            assert((a + b)[k] == a[k]);
        } else {
            assert((a + b)[k] == b[k - a.len()]);
        }
    }
}

/// Appends the rows of `nodes[i..]` at depth `d` to `out`.
fn flatten_from(nodes: &Vec<BlockTreeNode>, i: usize, depth: usize, Ghost(d): Ghost<nat>, out: &mut Vec<FlattenedNode>)
    requires
        i <= nodes@.len(),
        depth == stored_depth(d),
    ensures
        final(out)@.len() >= old(out)@.len(),
        final(out)@.subrange(0, old(out)@.len() as int) == old(out)@,
        rows_show(
            final(out)@.subrange(old(out)@.len() as int, final(out)@.len() as int),
            forest_rows(nodes@.subrange(i as int, nodes@.len() as int), d),
        ),
    decreases nodes@, nodes@.len() - i,
{
    let ghost start = out@;
    let ghost rest = nodes@.subrange(i as int, nodes@.len() as int);
    if i == nodes.len() {
        assert(rest.len() == 0);
        assert(out@.subrange(start.len() as int, out@.len() as int) =~= Seq::<FlattenedNode>::empty());
        assert(out@.subrange(0, start.len() as int) =~= start);
        return;
    }
    let n = &nodes[i];
    let last = i + 1 == nodes.len();
    out.push(node_row(n, depth, last));
    let ghost after_row = out@;
    let child_depth = depth.saturating_add(1);
    assert(n.children@ == nodes@[i as int].children@);
    flatten_from(&n.children, 0, child_depth, Ghost(d + 1), out);
    let ghost after_children = out@;
    flatten_from(nodes, i + 1, depth, Ghost(d), out);
    proof {
        let cs = n.children@;
        let e_row: Seq<(BlockTreeNode, nat, bool)> = seq![(nodes@[i as int], d, rest.len() == 1)];
        let e_children = forest_rows(cs.subrange(0, cs.len() as int), d + 1);
        let e_rest = forest_rows(nodes@.subrange(i as int + 1, nodes@.len() as int), d);
        assert(cs.subrange(0, cs.len() as int) =~= cs);
        assert(rest[0] == nodes@[i as int]);
        assert(rest.subrange(1, rest.len() as int) =~= nodes@.subrange(i as int + 1, nodes@.len() as int));
        assert(forest_rows(rest, d) == e_row + e_children + e_rest);
        let r_row = after_row.subrange(start.len() as int, after_row.len() as int);
        let r_children = after_children.subrange(after_row.len() as int, after_children.len() as int);
        let r_rest = out@.subrange(after_children.len() as int, out@.len() as int);
        assert(r_row =~= seq![after_row[start.len() as int]]);
        assert(rows_show(r_row, e_row));
        assert(after_children.subrange(0, after_row.len() as int) =~= after_row);
        assert(out@.subrange(0, after_children.len() as int) =~= after_children);
        lemma_rows_show_concat(r_row, e_row, r_children, e_children);
        lemma_rows_show_concat(r_row + r_children, e_row + e_children, r_rest, e_rest);
        assert(out@.subrange(start.len() as int, out@.len() as int) =~= r_row + r_children + r_rest);
        assert forall|k: int| 0 <= k < start.len() implies out@[k] == start[k] by {
            assert(out@.subrange(0, after_children.len() as int)[k] == out@[k]);
            assert(after_children.subrange(0, after_row.len() as int)[k] == after_children[k]);
            assert(after_row[k] == start[k]);
        }
        assert(out@.subrange(0, start.len() as int) =~= start);
    }
}

/// The tree pane's rows: the forest in pre-order with depths and
/// last-sibling marks.
pub fn flatten_tree(nodes: &Vec<BlockTreeNode>) -> (r: Vec<FlattenedNode>)
    ensures
        rows_show(r@, forest_rows(nodes@, 0)),
{
    let mut out: Vec<FlattenedNode> = Vec::new();
    flatten_from(nodes, 0, 0, Ghost(0), &mut out);
    assert(nodes@.subrange(0, nodes@.len() as int) =~= nodes@);
    assert(out@.subrange(0, out@.len() as int) =~= out@);
    out
}

// ---------------------------------------------------------------------
// Texts of the tree pane
// ---------------------------------------------------------------------

/// `n` indentation steps of three spaces.
pub open spec fn indent(n: nat) -> Seq<char>
    decreases n,
{
    if n == 0 {
        Seq::empty()
    } else {
        indent((n - 1) as nat) + "   "@
    }
}

/// The hierarchy prefix of a row: nothing for a top-level session, else
/// the indentation of its depth and a branch to it.
pub open spec fn tree_prefix_text(depth: nat, last: bool) -> Seq<char> {
    if depth == 0 {
        Seq::empty()
    } else {
        indent((depth - 1) as nat) + (if last {
            " \u{2514}\u{2500} "@
        } else {
            " \u{251c}\u{2500} "@
        })
    }
}

/// The session cell of a tree row: prefix, then a deadlocked session, a
/// root blocker with its number of waiters, or a plain waiting session.
pub open spec fn session_label_text(b: FlattenedNode) -> Seq<char> {
    tree_prefix_text(b.depth as nat, b.is_last_child) + (if b.is_deadlock {
        "[DEADLOCK] PID "@ + signed_decimal(b.pid as int)
    } else if b.is_root {
        "[ROOT BLOCKER] PID "@ + signed_decimal(b.pid as int) + " ("@ + decimal(b.num_descendants as nat)
            + " waiters)"@
    } else {
        "PID "@ + signed_decimal(b.pid as int)
    })
}

fn push_prefix(out: &mut String, depth: usize, last: bool)
    ensures
        final(out)@ == old(out)@ + tree_prefix_text(depth as nat, last),
{
    if depth == 0 {
        assert(old(out)@ + tree_prefix_text(0, last) =~= old(out)@);
        return;
    }
    let ghost start = out@;
    let mut i: usize = 0;
    while i < depth - 1
        invariant
            0 < depth,
            0 <= i <= depth - 1,
            out@ == start + indent(i as nat),
        decreases depth - 1 - i,
    {
        push_str(out, "   ");
        assert(start + indent(i as nat + 1) =~= start + indent(i as nat) + "   "@);
        i = i + 1;
    }
    if last {
        push_str(out, " \u{2514}\u{2500} ");
    } else {
        push_str(out, " \u{251c}\u{2500} ");
    }
}

pub fn session_label(b: &FlattenedNode) -> (r: String)
    ensures
        r@ == session_label_text(*b),
{
    let mut out = String::new();
    push_prefix(&mut out, b.depth, b.is_last_child);
    if b.is_deadlock {
        push_str(&mut out, "[DEADLOCK] PID ");
        push_signed_decimal(&mut out, b.pid as i64);
    } else if b.is_root {
        push_str(&mut out, "[ROOT BLOCKER] PID ");
        push_signed_decimal(&mut out, b.pid as i64);
        push_str(&mut out, " (");
        push_decimal(&mut out, b.num_descendants as u128);
        push_str(&mut out, " waiters)");
    } else {
        push_str(&mut out, "PID ");
        push_signed_decimal(&mut out, b.pid as i64);
    }
    out
}

/// The lock a session waits for: `mode on relation`, the mode alone, or
/// `-`.
pub open spec fn lock_info_text(mode: Option<String>, relation: Option<String>) -> Seq<char> {
    match mode {
        Some(m) => match relation {
            Some(r) => if r@.len() > 0 {
                m@ + " on "@ + r@
            } else {
                m@
            },
            None => m@,
        },
        None => "-"@,
    }
}

pub fn lock_info(mode: &Option<String>, relation: &Option<String>) -> (r: String)
    ensures
        r@ == lock_info_text(*mode, *relation),
{
    let mut out = String::new();
    match mode {
        Some(m) => {
            push_str(&mut out, m.as_str());
            match relation {
                Some(r) => {
                    if r.as_str().unicode_len() > 0 {
                        push_str(&mut out, " on ");
                        push_str(&mut out, r.as_str());
                    }
                },
                None => {},
            }
        },
        None => push_str(&mut out, "-"),
    }
    out
}

/// Rows of top-level sessions.
pub open spec fn count_roots(rows: Seq<FlattenedNode>) -> nat
    decreases rows.len(),
{
    if rows.len() == 0 {
        0
    } else {
        count_roots(rows.drop_last()) + (if rows.last().depth == 0 {
            1nat
        } else {
            0nat
        })
    }
}

/// Rows of sessions that are not root blockers.
pub open spec fn count_blocked(rows: Seq<FlattenedNode>) -> nat
    decreases rows.len(),
{
    if rows.len() == 0 {
        0
    } else {
        count_blocked(rows.drop_last()) + (if rows.last().is_root {
            0nat
        } else {
            1nat
        })
    }
}

/// The tree pane's title: how many top-level sessions and how many
/// blocked sessions it shows.
pub open spec fn tree_title_text(rows: Seq<FlattenedNode>) -> Seq<char> {
    " Blocking Tree ("@ + decimal(count_roots(rows)) + " roots, "@ + decimal(count_blocked(rows)) + " blocked) "@
}

pub fn tree_title(rows: &Vec<FlattenedNode>) -> (r: String)
    ensures
        r@ == tree_title_text(rows@),
{
    let n = rows.len();
    let mut roots: usize = 0;
    let mut blocked: usize = 0;
    let mut i: usize = 0;
    while i < n
        invariant
            n == rows@.len(),
            0 <= i <= n,
            roots == count_roots(rows@.take(i as int)),
            blocked == count_blocked(rows@.take(i as int)),
            roots <= i,
            blocked <= i,
        decreases n - i,
    {
        proof {
            let t = rows@.take(i as int + 1);
            assert(t.drop_last() =~= rows@.take(i as int));
            assert(t.last() == rows@[i as int]);
        }
        if rows[i].depth == 0 {
            roots = roots + 1;
        }
        if !rows[i].is_root {
            blocked = blocked + 1;
        }
        i = i + 1;
    }
    assert(rows@.take(n as int) =~= rows@);
    let mut out = String::new();
    push_str(&mut out, " Blocking Tree (");
    push_decimal(&mut out, roots as u128);
    push_str(&mut out, " roots, ");
    push_decimal(&mut out, blocked as u128);
    push_str(&mut out, " blocked) ");
    out
}

/// The banner of a tree row's detail panel: a deadlock, or a root blocker
/// with the number of sessions behind it.
pub open spec fn node_banner_text(b: FlattenedNode) -> Option<Seq<char>> {
    if b.is_deadlock {
        Some("DEADLOCK DETECTED IN THIS CYCLE"@)
    } else if b.is_root {
        Some("ROOT BLOCKER \u{2014} blocking "@ + decimal(b.num_descendants as nat) + " descendant session(s)"@)
    } else {
        None
    }
}

pub fn node_banner(b: &FlattenedNode) -> (r: Option<String>)
    ensures
        match node_banner_text(*b) {
            Some(t) => r matches Some(x) && x@ == t,
            None => r is None,
        },
{
    if b.is_deadlock {
        let mut out = String::new();
        push_str(&mut out, "DEADLOCK DETECTED IN THIS CYCLE");
        Some(out)
    } else if b.is_root {
        let mut out = String::new();
        push_str(&mut out, "ROOT BLOCKER \u{2014} blocking ");
        push_decimal(&mut out, b.num_descendants as u128);
        push_str(&mut out, " descendant session(s)");
        Some(out)
    } else {
        None
    }
}

// ---------------------------------------------------------------------
// Texts of the locks pane
// ---------------------------------------------------------------------

/// The locks pane's title.
pub open spec fn locks_title_text(n: nat) -> Seq<char> {
    " Active Locks ("@ + decimal(n) + " entries) "@
}

pub fn locks_title(n: usize) -> (r: String)
    ensures
        r@ == locks_title_text(n as nat),
{
    let mut out = String::new();
    push_str(&mut out, " Active Locks (");
    push_decimal(&mut out, n as u128);
    push_str(&mut out, " entries) ");
    out
}

/// The relation a lock is on, schema-qualified outside `public`, or `-`.
pub open spec fn lock_relation_text(l: LockRow) -> Seq<char> {
    if l.relation@.len() > 0 {
        if l.schema@.len() > 0 && l.schema@ != "public"@ {
            l.schema@ + "."@ + l.relation@
        } else {
            l.relation@
        }
    } else {
        "-"@
    }
}

pub fn lock_relation(l: &LockRow) -> (r: String)
    ensures
        r@ == lock_relation_text(*l),
{
    let mut out = String::new();
    if l.relation.as_str().unicode_len() > 0 {
        if l.schema.as_str().unicode_len() > 0 && !crate::text::str_eq(l.schema.as_str(), "public") {
            push_str(&mut out, l.schema.as_str());
            push_str(&mut out, ".");
            push_str(&mut out, l.relation.as_str());
        } else {
            push_str(&mut out, l.relation.as_str());
        }
    } else {
        push_str(&mut out, "-");
    }
    out
}

/// The status cell of a lock: waiting or granted.
pub fn lock_status(l: &LockRow) -> (r: &'static str)
    ensures
        r@ == (if l.granted {
            "GRANT"@
        } else {
            "WAIT"@
        }),
{
    if l.granted {
        "GRANT"
    } else {
        "WAIT"
    }
}

/// The title of a lock's detail panel.
pub open spec fn lock_detail_title_text(l: LockRow) -> Seq<char> {
    "Detail \u{2014} Lock on PID "@ + signed_decimal(l.pid as int) + " \u{2502} "@ + l.locktype@ + " \u{2502} "@
        + (if l.granted {
        "GRANTED"@
    } else {
        "WAITING"@
    }) + " (Enter/Esc: close)"@
}

pub fn lock_detail_title(l: &LockRow) -> (r: String)
    ensures
        r@ == lock_detail_title_text(*l),
{
    let mut out = String::new();
    push_str(&mut out, "Detail \u{2014} Lock on PID ");
    push_signed_decimal(&mut out, l.pid as i64);
    push_str(&mut out, " \u{2502} ");
    push_str(&mut out, l.locktype.as_str());
    push_str(&mut out, " \u{2502} ");
    if l.granted {
        push_str(&mut out, "GRANTED");
    } else {
        push_str(&mut out, "WAITING");
    }
    push_str(&mut out, " (Enter/Esc: close)");
    out
}

} // verus!
