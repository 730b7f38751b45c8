//! Column-width math, the waits strip and bar, and the blocking-chain
//! line of the Micro Lens.
use vstd::prelude::*;
use crate::snapshot::ActivityRow;
use crate::text::{decimal, occurs_at, push_char, push_decimal, push_signed_decimal, push_str, signed_decimal, str_eq, str_starts_with};

verus! {

/// Fixed columns: pid, user, db, app, client, state, duration, xact (6 +
/// 10 + 12 + 12 + 11 + 22 + 8 + 8) plus the one-character status column.
pub const FIXED_WIDTHS_SUM: u16 = 89;
pub const STATUS_WIDTH: u16 = 1;
pub const COLUMN_SPACING: u16 = 1;
pub const HIGHLIGHT_WIDTH: u16 = 2;

/// Width left for the query text of the activity table (saturating at 0).
pub open spec fn query_column_width_spec(area_width: int) -> int {
    let overhead = 2 + HIGHLIGHT_WIDTH + FIXED_WIDTHS_SUM + STATUS_WIDTH + 9 * COLUMN_SPACING;
    if area_width > overhead { area_width - overhead } else { 0 }
}

pub fn query_column_width(area_width: u16) -> (r: usize)
    ensures
        r == query_column_width_spec(area_width as int),
{
    let fixed: u16 = FIXED_WIDTHS_SUM + STATUS_WIDTH;
    let overhead: u16 = 2 + HIGHLIGHT_WIDTH + fixed + 9 * COLUMN_SPACING;
    area_width.saturating_sub(overhead) as usize
}

/// Number of full blocks the waits bar shows: `count / max` of `width`
/// (the product saturating at `usize::MAX`), 0 for a zero `max`, and never
/// more than `width`.
pub open spec fn wait_bar_cells(count: int, max: int, width: int) -> int {
    let product = if count * width > usize::MAX { usize::MAX as int } else { count * width };
    let filled = if max == 0 { 0 } else { product / max };
    if filled < width { filled } else { width }
}

/// Proportional bar of `█` characters for one ranked wait event.
pub fn wait_bar(count: usize, max: usize, width: usize) -> (r: String)
    ensures
        r@ == Seq::new(wait_bar_cells(count as int, max as int, width as int) as nat, |i: int| '\u{2588}'),
{
    let product = match count.checked_mul(width) {
        Some(p) => p,
        None => usize::MAX,
    };
    let filled = if max == 0 { 0 } else { product / max };
    let cells = if filled < width { filled } else { width };
    let mut out = String::new();
    let mut i: usize = 0;
    while i < cells
        invariant
            0 <= i <= cells,
            out@ =~= Seq::new(i as nat, |k: int| '\u{2588}'),
        decreases cells - i,
    {
        push_char(&mut out, '\u{2588}');
        i = i + 1;
    }
    out
}

/// How a session's state is tinted: running, idle, idle holding a
/// transaction (locks and a snapshot), idle in a failed transaction, or
/// anything else.
#[derive(Clone, Copy, Debug, PartialEq, Eq, Structural)]
pub enum StateClass {
    Active,
    Idle,
    IdleInTransaction,
    Aborted,
    Other,
}

pub fn state_class(state: &str) -> (r: StateClass)
    ensures
        r == (if state@ == "active"@ {
            StateClass::Active
        } else if state@ == "idle"@ {
            StateClass::Idle
        } else if state@ == "idle in transaction"@ {
            StateClass::IdleInTransaction
        } else if state@ == "idle in transaction (aborted)"@ {
            StateClass::Aborted
        } else {
            StateClass::Other
        }),
{
    if str_eq(state, "active") {
        StateClass::Active
    } else if str_eq(state, "idle") {
        StateClass::Idle
    } else if str_eq(state, "idle in transaction") {
        StateClass::IdleInTransaction
    } else if str_eq(state, "idle in transaction (aborted)") {
        StateClass::Aborted
    } else {
        StateClass::Other
    }
}

/// The one-character status column of the activity table: blocked beats
/// waiting.
#[derive(Clone, Copy, Debug, PartialEq, Eq, Structural)]
pub enum SessionMark {
    Blocked,
    Waiting,
    Plain,
}

impl SessionMark {
    /// `B`, `W`, or a blank.
    pub fn text(self) -> (r: &'static str)
        ensures
            r@ == (match self {
                SessionMark::Blocked => "B"@,
                SessionMark::Waiting => "W"@,
                SessionMark::Plain => " "@,
            }),
    {
        match self {
            SessionMark::Blocked => "B",
            SessionMark::Waiting => "W",
            SessionMark::Plain => " ",
        }
    }
}

/// A session is blocked when the blocking query lists its pid; otherwise it
/// is waiting when it reports a wait event.
pub open spec fn session_mark_of(row: ActivityRow, blocked: Seq<i32>) -> SessionMark {
    if blocked.contains(row.pid) {
        SessionMark::Blocked
    } else if row.wait_event is Some {
        SessionMark::Waiting
    } else {
        SessionMark::Plain
    }
}

pub fn session_mark(row: &ActivityRow, blocked: &Vec<i32>) -> (r: SessionMark)
    ensures
        r == session_mark_of(*row, blocked@),
{
    let n = blocked.len();
    let mut i: usize = 0;
    while i < n
        invariant
            n == blocked@.len(),
            0 <= i <= n,
            forall|j: int| 0 <= j < i ==> blocked@[j] != row.pid,
        decreases n - i,
    {
        if blocked[i] == row.pid {
            return SessionMark::Blocked;
        }
        i = i + 1;
    }
    if row.wait_event.is_some() {
        SessionMark::Waiting
    } else {
        SessionMark::Plain
    }
}

/// The sessions waiting on something, and the wait events ranked by how
/// many sessions hold each (most first).
pub struct WaitSummary {
    pub waiting: usize,
    pub total: usize,
    pub ranked: Vec<(String, usize)>,
}

/// How many wait events the one-line strip names.
pub const WAITS_TOP_N: usize = 5;

/// How a wait event is tinted: lock contention, disk pressure, or neither.
#[derive(Clone, Copy, Debug, PartialEq, Eq, Structural)]
pub enum WaitClass {
    Lock,
    Io,
    Other,
}

pub fn wait_class(wait: &str) -> (r: WaitClass)
    ensures
        r == (if occurs_at(wait@, "Lock:"@, 0) {
            WaitClass::Lock
        } else if occurs_at(wait@, "IO:"@, 0) {
            WaitClass::Io
        } else {
            WaitClass::Other
        }),
{
    if str_starts_with(wait, "Lock:") {
        WaitClass::Lock
    } else if str_starts_with(wait, "IO:") {
        WaitClass::Io
    } else {
        WaitClass::Other
    }
}

/// The strip's entries: ` │ event ×count` for each named wait event.
pub open spec fn wait_entries_text(ranked: Seq<(String, usize)>) -> Seq<char>
    decreases ranked.len(),
{
    if ranked.len() == 0 {
        Seq::empty()
    } else {
        wait_entries_text(ranked.drop_last()) + " \u{2502} "@ + ranked.last().0@ + " \u{d7}"@ + decimal(
            ranked.last().1 as nat,
        )
    }
}

/// The one-line waits strip: `waiting/total waiting`, then the first
/// [`WAITS_TOP_N`] ranked wait events with their counts.
pub open spec fn waits_strip_text(w: WaitSummary) -> Seq<char> {
    let shown = if w.ranked@.len() <= WAITS_TOP_N {
        w.ranked@
    } else {
        w.ranked@.take(WAITS_TOP_N as int)
    };
    " waits "@ + decimal(w.waiting as nat) + "/"@ + decimal(w.total as nat) + " waiting"@ + wait_entries_text(shown)
}

pub fn waits_strip(w: &WaitSummary) -> (r: String)
    ensures
        r@ == waits_strip_text(*w),
{
    let mut out = String::new();
    push_str(&mut out, " waits ");
    push_decimal(&mut out, w.waiting as u128);
    push_str(&mut out, "/");
    push_decimal(&mut out, w.total as u128);
    push_str(&mut out, " waiting");
    let ghost head = out@;
    let n = if w.ranked.len() <= WAITS_TOP_N {
        w.ranked.len()
    } else {
        WAITS_TOP_N
    };
    let mut i: usize = 0;
    while i < n
        invariant
            n <= w.ranked@.len(),
            0 <= i <= n,
            out@ == head + wait_entries_text(w.ranked@.take(i as int)),
        decreases n - i,
    {
        let entry = &w.ranked[i];
        push_str(&mut out, " \u{2502} ");
        push_str(&mut out, entry.0.as_str());
        push_str(&mut out, " \u{d7}");
        push_decimal(&mut out, entry.1 as u128);
        proof {
            let t = w.ranked@.take(i as int + 1);
            assert(t.drop_last() =~= w.ranked@.take(i as int));
            assert(t.last() == w.ranked@[i as int]);
        }
        i = i + 1;
    }
    proof {
        if w.ranked@.len() <= WAITS_TOP_N {
            assert(w.ranked@.take(n as int) =~= w.ranked@);
        }
    }
    out
}

/// The wait-for chain of a blocked session, from it to the session at the
/// head (the one to act on); a deadlock when the walk looped.
pub struct BlockingChain {
    pub chain: Vec<i32>,
    pub deadlock: bool,
}

/// The pids of a chain joined by arrows.
pub open spec fn arrow_joined(pids: Seq<i32>) -> Seq<char>
    decreases pids.len(),
{
    if pids.len() == 0 {
        Seq::empty()
    } else if pids.len() == 1 {
        signed_decimal(pids[0] as int)
    } else {
        arrow_joined(pids.drop_last()) + " \u{2192} "@ + signed_decimal(pids.last() as int)
    }
}

/// The detail panel's chain line, the head marked `(root)` unless the
/// chain is a deadlock cycle.
pub open spec fn chain_line_text(c: BlockingChain) -> Seq<char> {
    "blocked by: "@ + arrow_joined(c.chain@) + (if c.deadlock {
        Seq::empty()
    } else {
        " (root)"@
    })
}

/// The line added under a deadlock cycle.
pub open spec fn deadlock_line_text() -> Seq<char> {
    "\u{26a0} deadlock cycle detected \u{2014} the chain loops back on itself"@
}

pub fn blocking_chain_lines(c: &BlockingChain) -> (r: (String, Option<String>))
    requires
        c.chain@.len() > 0,
    ensures
        r.0@ == chain_line_text(*c),
        if c.deadlock {
            r.1 matches Some(x) && x@ == deadlock_line_text()
        } else {
            r.1 is None
        },
{
    let mut out = String::new();
    push_str(&mut out, "blocked by: ");
    let ghost head = out@;
    let n = c.chain.len();
    let mut i: usize = 0;
    while i < n
        invariant
            n == c.chain@.len(),
            0 <= i <= n,
            out@ == head + arrow_joined(c.chain@.take(i as int)),
        decreases n - i,
    {
        let ghost before = out@;
        if i > 0 {
            push_str(&mut out, " \u{2192} ");
        }
        push_signed_decimal(&mut out, c.chain[i] as i64);
        proof {
            let t = c.chain@.take(i as int + 1);
            assert(t.drop_last() =~= c.chain@.take(i as int));
            assert(t.last() == c.chain@[i as int]);
            if i == 0 {
                assert(before =~= head);
                assert(out@ =~= head + arrow_joined(t));
            }
        }
        i = i + 1;
    }
    assert(c.chain@.take(n as int) =~= c.chain@);
    if c.deadlock {
        assert(out@ =~= out@ + Seq::<char>::empty());
        let mut d = String::new();
        push_str(&mut d, "\u{26a0} deadlock cycle detected \u{2014} the chain loops back on itself");
        (out, Some(d))
    } else {
        push_str(&mut out, " (root)");
        (out, None)
    }
}

} // verus!
