//! Replication severity: the tier shown as a text marker beside each slot
//! and beside the WAL generation line, shared by the Macro and Replication
//! Lenses so the two views never disagree on what counts as a warning.
use vstd::prelude::*;
use crate::order::is_display_order;
use crate::rows::{keep_all, panel_slot_keys, panel_slot_order, slot_rank, slot_severity_rank};
use vstd::string::*;
use vstd::utf8::*;
use crate::snapshot::{PublicationRow, ReplicationSlotRow, SubscriptionRow};
use crate::text::{decimal, joined, push_char, push_decimal, push_joined, push_signed_decimal, push_str, signed_decimal, views};
use crate::ui::format::{bytes_text, count_text, human_bytes, human_count};

verus! {

/// Severity tier of a replication row.
#[derive(Clone, Copy, Debug, PartialEq, Eq, Structural)]
pub enum Severity {
    Calm,
    Warn,
    Bad,
}

impl Severity {
    /// Two-character text marker, readable without color.
    pub fn marker(self) -> (r: &'static str)
        ensures
            r@ == (match self {
                Severity::Calm => "  "@,
                Severity::Warn => "! "@,
                Severity::Bad => "!!"@,
            }),
    {
        match self {
            Severity::Calm => "  ",
            Severity::Warn => "! ",
            Severity::Bad => "!!",
        }
    }
}

/// A slot's tier from its rank: lost or unreserved WAL, or an inactive slot
/// retaining past the threshold, is bad; an inactive slot retaining WAL
/// warns; anything else is fine.
pub open spec fn slot_tier(slot: ReplicationSlotRow) -> Severity {
    let r = slot_rank(slot);
    if r == 0 {
        Severity::Bad
    } else if r == 1 {
        Severity::Warn
    } else {
        Severity::Calm
    }
}

pub fn slot_severity(slot: &ReplicationSlotRow) -> (r: Severity)
    ensures
        r == slot_tier(*slot),
{
    let rank = slot_severity_rank(slot);
    if rank == 0 {
        Severity::Bad
    } else if rank == 1 {
        Severity::Warn
    } else {
        Severity::Calm
    }
}

/// `wal_buffers_full` climbing during the last delta window warns.
pub fn wal_buffers_full_severity(delta: Option<i64>) -> (r: Severity)
    ensures
        r == (match delta {
            Some(d) => if d > 0 {
                Severity::Warn
            } else {
                Severity::Calm
            },
            None => Severity::Calm,
        }),
{
    match delta {
        Some(d) => if d > 0 {
            Severity::Warn
        } else {
            Severity::Calm
        },
        None => Severity::Calm,
    }
}

/// The `buffers_full` counter, with the climb of the last window when it
/// climbed: `40 (+3 this tick)`.
pub open spec fn buffers_full_text(total: i64, delta: Option<i64>) -> Seq<char> {
    match delta {
        Some(d) => if d > 0 {
            signed_decimal(total as int) + " (+"@ + signed_decimal(d as int) + " this tick)"@
        } else {
            signed_decimal(total as int)
        },
        None => signed_decimal(total as int),
    }
}

pub fn buffers_full_cell(total: i64, delta: Option<i64>) -> (r: String)
    ensures
        r@ == buffers_full_text(total, delta),
{
    let mut out = String::new();
    push_signed_decimal(&mut out, total);
    match delta {
        Some(d) => {
            if d > 0 {
                push_str(&mut out, " (+");
                push_signed_decimal(&mut out, d);
                push_str(&mut out, " this tick)");
            }
        },
        None => {},
    }
    out
}

/// The dash shown for a missing value.
pub open spec fn dash() -> Seq<char> {
    seq!['\u{2014}']
}

/// The severity's text marker.
pub open spec fn marker_text(sev: Severity) -> Seq<char> {
    match sev {
        Severity::Calm => "  "@,
        Severity::Warn => "! "@,
        Severity::Bad => "!!"@,
    }
}

/// Retained WAL, or a dash when unknown.
pub open spec fn retained_text(slot: ReplicationSlotRow) -> Seq<char> {
    match slot.retained_wal_bytes {
        Some(b) => bytes_text(b as int),
        None => dash(),
    }
}

/// The WAL status, or a dash when unknown.
pub open spec fn wal_status_text(slot: ReplicationSlotRow) -> Seq<char> {
    match slot.wal_status {
        Some(st) => st@,
        None => dash(),
    }
}

/// The invalidation reason and a held-back xmin older than ten million
/// transactions, when present.
pub open spec fn slot_flags_text(slot: ReplicationSlotRow) -> Seq<char> {
    let invalidated = match slot.invalidated {
        Some(reason) => "  [invalidated: "@ + reason@ + "]"@,
        None => Seq::empty(),
    };
    let xmin = match slot.xmin_age {
        Some(x) => if x > 10_000_000 {
            "  [xmin age: "@ + count_text(x as int) + "]"@
        } else {
            Seq::empty()
        },
        None => Seq::empty(),
    };
    invalidated + xmin
}

/// One slot line of the replication panels: severity marker, name and
/// type, activity, retained WAL and WAL status, then the flags.
pub open spec fn slot_line_text(slot: ReplicationSlotRow) -> Seq<char> {
    marker_text(slot_tier(slot)) + " slot "@ + slot.slot_name@ + "/"@ + slot.slot_type@ + (if slot.active {
        "  active  "@
    } else {
        "  inactive  "@
    }) + "retained: "@ + retained_text(slot) + "  ("@ + wal_status_text(slot) + ")"@ + slot_flags_text(slot)
}

fn push_dash(out: &mut String)
    ensures
        final(out)@ == old(out)@ + dash(),
{
    push_char(out, '\u{2014}');
    assert(old(out)@.push('\u{2014}') =~= old(out)@ + dash());
}

fn push_retained(out: &mut String, slot: &ReplicationSlotRow)
    ensures
        final(out)@ == old(out)@ + retained_text(*slot),
{
    match slot.retained_wal_bytes {
        Some(b) => {
            let t = human_bytes(b);
            push_str(out, t.as_str());
        },
        None => push_dash(out),
    }
}

fn push_wal_status(out: &mut String, slot: &ReplicationSlotRow)
    ensures
        final(out)@ == old(out)@ + wal_status_text(*slot),
{
    match &slot.wal_status {
        Some(st) => push_str(out, st.as_str()),
        None => push_dash(out),
    }
}

fn push_slot_flags(out: &mut String, slot: &ReplicationSlotRow)
    ensures
        final(out)@ == old(out)@ + slot_flags_text(*slot),
{
    let ghost start = out@;
    match &slot.invalidated {
        Some(reason) => {
            push_str(out, "  [invalidated: ");
            push_str(out, reason.as_str());
            push_str(out, "]");
        },
        None => {},
    }
    let ghost mid = out@;
    match slot.xmin_age {
        Some(x) => {
            if x > 10_000_000 {
                push_str(out, "  [xmin age: ");
                let t = human_count(x);
                push_str(out, t.as_str());
                push_str(out, "]");
            }
        },
        None => {},
    }
    assert(out@ =~= start + slot_flags_text(*slot));
}

pub fn slot_line(slot: &ReplicationSlotRow) -> (r: String)
    ensures
        r@ == slot_line_text(*slot),
{
    let mut out = String::new();
    push_str(&mut out, slot_severity(slot).marker());
    push_str(&mut out, " slot ");
    push_str(&mut out, slot.slot_name.as_str());
    push_str(&mut out, "/");
    push_str(&mut out, slot.slot_type.as_str());
    if slot.active {
        push_str(&mut out, "  active  ");
    } else {
        push_str(&mut out, "  inactive  ");
    }
    push_str(&mut out, "retained: ");
    push_retained(&mut out, slot);
    push_str(&mut out, "  (");
    push_wal_status(&mut out, slot);
    push_str(&mut out, ")");
    push_slot_flags(&mut out, slot);
    out
}

// ---------------------------------------------------------------------
// Subscriptions
// ---------------------------------------------------------------------

/// Whether a subscription reported apply or table-sync errors.
pub open spec fn sub_has_errors(s: SubscriptionRow) -> bool {
    (s.apply_error_count matches Some(n) && n > 0) || (s.sync_error_count matches Some(n) && n > 0)
}

/// A subscription's tier: errors are bad, a disabled subscription warns.
pub open spec fn sub_tier(s: SubscriptionRow) -> Severity {
    if sub_has_errors(s) {
        Severity::Bad
    } else if !s.enabled {
        Severity::Warn
    } else {
        Severity::Calm
    }
}

pub fn subscription_severity(s: &SubscriptionRow) -> (r: Severity)
    ensures
        r == sub_tier(*s),
{
    let apply = match s.apply_error_count {
        Some(n) => n > 0,
        None => false,
    };
    let sync = match s.sync_error_count {
        Some(n) => n > 0,
        None => false,
    };
    if apply || sync {
        Severity::Bad
    } else if !s.enabled {
        Severity::Warn
    } else {
        Severity::Calm
    }
}

/// Name, owner and whether it is enabled.
pub open spec fn sub_head_text(s: SubscriptionRow) -> Seq<char> {
    marker_text(sub_tier(s)) + " sub "@ + s.subname@ + " ("@ + s.owner@ + ")"@ + (if s.enabled {
        "  enabled  "@
    } else {
        "  disabled  "@
    })
}

/// The publisher and the synchronous-commit setting, when known.
pub open spec fn sub_source_text(s: SubscriptionRow) -> Seq<char> {
    let from = match (s.publisher_host, s.publisher_dbname) {
        (Some(h), Some(d)) => "from "@ + h@ + "/"@ + d@ + "  "@,
        _ => Seq::empty(),
    };
    let sc = match s.sync_commit {
        Some(c) => "sync_commit: "@ + c@ + "  "@,
        None => Seq::empty(),
    };
    from + sc
}

/// Worker, publications, received position and table readiness.
pub open spec fn sub_state_text(s: SubscriptionRow) -> Seq<char> {
    let worker = match s.worker_pid {
        Some(p) => "worker: pid "@ + signed_decimal(p as int),
        None => "worker: idle"@,
    };
    let lsn = match s.received_lsn {
        Some(l) => l@,
        None => dash(),
    };
    worker + "  pubs: ["@ + joined(views(s.publications@), ","@) + "]  recv: "@ + lsn + "  tables: "@
        + signed_decimal(s.ready_tables as int) + "/"@ + signed_decimal(s.total_tables as int) + " ready"@
}

/// An error counter, shown only when non-zero.
pub open spec fn error_count_text(label: Seq<char>, count: Option<i64>) -> Seq<char> {
    match count {
        Some(n) => if n > 0 {
            "  ["@ + label + ": "@ + signed_decimal(n as int) + "]"@
        } else {
            Seq::empty()
        },
        None => Seq::empty(),
    }
}

/// Tables still syncing, by number and by name.
pub open spec fn sub_syncing_text(s: SubscriptionRow) -> Seq<char> {
    let syncing = if s.sync_tables > 0 {
        " ("@ + signed_decimal(s.sync_tables as int) + " syncing)"@
    } else {
        Seq::empty()
    };
    let names = if s.syncing_table_names@.len() > 0 {
        "  ["@ + joined(views(s.syncing_table_names@), ", "@) + "]"@
    } else {
        Seq::empty()
    };
    syncing + names
}

/// Tables still syncing, and the error counters when non-zero.
pub open spec fn sub_flags_text(s: SubscriptionRow) -> Seq<char> {
    sub_syncing_text(s) + error_count_text("apply errors"@, s.apply_error_count) + error_count_text(
        "sync errors"@,
        s.sync_error_count,
    )
}

/// One subscription line of the Replication Lens.
pub open spec fn subscription_line_text(s: SubscriptionRow) -> Seq<char> {
    sub_head_text(s) + sub_source_text(s) + sub_state_text(s) + sub_flags_text(s)
}

fn push_sub_head(out: &mut String, s: &SubscriptionRow)
    ensures
        final(out)@ == old(out)@ + sub_head_text(*s),
{
    push_str(out, subscription_severity(s).marker());
    push_str(out, " sub ");
    push_str(out, s.subname.as_str());
    push_str(out, " (");
    push_str(out, s.owner.as_str());
    push_str(out, ")");
    if s.enabled {
        push_str(out, "  enabled  ");
    } else {
        push_str(out, "  disabled  ");
    }
}

fn push_sub_source(out: &mut String, s: &SubscriptionRow)
    ensures
        final(out)@ == old(out)@ + sub_source_text(*s),
{
    let ghost start = out@;
    match (&s.publisher_host, &s.publisher_dbname) {
        (Some(h), Some(d)) => {
            push_str(out, "from ");
            push_str(out, h.as_str());
            push_str(out, "/");
            push_str(out, d.as_str());
            push_str(out, "  ");
        },
        _ => {},
    }
    let ghost mid = out@;
    match &s.sync_commit {
        Some(c) => {
            push_str(out, "sync_commit: ");
            push_str(out, c.as_str());
            push_str(out, "  ");
        },
        None => {},
    }
    assert(out@ =~= start + sub_source_text(*s));
}

fn push_sub_state(out: &mut String, s: &SubscriptionRow)
    ensures
        final(out)@ == old(out)@ + sub_state_text(*s),
{
    let ghost start = out@;
    match s.worker_pid {
        Some(p) => {
            push_str(out, "worker: pid ");
            push_signed_decimal(out, p as i64);
        },
        None => push_str(out, "worker: idle"),
    }
    push_str(out, "  pubs: [");
    push_joined(out, &s.publications, ",");
    push_str(out, "]  recv: ");
    match &s.received_lsn {
        Some(l) => push_str(out, l.as_str()),
        None => push_dash(out),
    }
    push_str(out, "  tables: ");
    push_signed_decimal(out, s.ready_tables);
    push_str(out, "/");
    push_signed_decimal(out, s.total_tables);
    push_str(out, " ready");
    assert(out@ =~= start + sub_state_text(*s));
}

fn push_error_count(out: &mut String, label: &str, count: Option<i64>)
    ensures
        final(out)@ == old(out)@ + error_count_text(label@, count),
{
    let ghost start = out@;
    match count {
        Some(n) => {
            if n > 0 {
                push_str(out, "  [");
                push_str(out, label);
                push_str(out, ": ");
                push_signed_decimal(out, n);
                push_str(out, "]");
            }
        },
        None => {},
    }
    assert(out@ =~= start + error_count_text(label@, count));
}

fn push_sub_syncing(out: &mut String, s: &SubscriptionRow)
    ensures
        final(out)@ == old(out)@ + sub_syncing_text(*s),
{
    let ghost start = out@;
    if s.sync_tables > 0 {
        push_str(out, " (");
        push_signed_decimal(out, s.sync_tables);
        push_str(out, " syncing)");
    }
    if s.syncing_table_names.len() > 0 {
        push_str(out, "  [");
        push_joined(out, &s.syncing_table_names, ", ");
        push_str(out, "]");
    }
    assert(out@ =~= start + sub_syncing_text(*s));
}

fn push_sub_flags(out: &mut String, s: &SubscriptionRow)
    ensures
        final(out)@ == old(out)@ + sub_flags_text(*s),
{
    let ghost start = out@;
    push_sub_syncing(out, s);
    push_error_count(out, "apply errors", s.apply_error_count);
    push_error_count(out, "sync errors", s.sync_error_count);
    assert(out@ =~= start + sub_flags_text(*s));
}

pub fn subscription_line(s: &SubscriptionRow) -> (r: String)
    ensures
        r@ == subscription_line_text(*s),
{
    let mut out = String::new();
    push_sub_head(&mut out, s);
    push_sub_source(&mut out, s);
    push_sub_state(&mut out, s);
    push_sub_flags(&mut out, s);
    out
}

/// The operations a publication replicates, in the order ins, upd, del,
/// trunc.
pub open spec fn pub_ops(p: PublicationRow) -> Seq<Seq<char>> {
    (if p.pubinsert { seq!["ins"@] } else { Seq::empty() }) + (if p.pubupdate {
        seq!["upd"@]
    } else {
        Seq::empty()
    }) + (if p.pubdelete { seq!["del"@] } else { Seq::empty() }) + (if p.pubtruncate {
        seq!["trunc"@]
    } else {
        Seq::empty()
    })
}

/// The operations joined by commas, `none` when there are none.
pub open spec fn pub_ops_text(p: PublicationRow) -> Seq<char> {
    if pub_ops(p).len() == 0 {
        "none"@
    } else {
        joined(pub_ops(p), ","@)
    }
}

/// `all tables`, or the count with `table`/`tables`.
pub open spec fn pub_tables_text(p: PublicationRow) -> Seq<char> {
    if p.all_tables {
        "all tables"@
    } else {
        signed_decimal(p.table_count as int) + " table"@ + (if p.table_count == 1 {
            Seq::empty()
        } else {
            "s"@
        })
    }
}

/// The published-tables sample: kept whole up to 40 bytes of UTF-8, else
/// its first 37 bytes and `[…]`.
pub open spec fn table_sample_text(sample: Seq<char>) -> Seq<char> {
    let bytes = encode_utf8(sample);
    if bytes.len() > 40 {
        decode_utf8(bytes.subrange(0, 37)) + seq!['[', '\u{2026}', ']']
    } else {
        sample
    }
}

/// The cut of a long sample falls between two characters (byte 37 starts
/// a character), so it can be made without splitting one.
pub open spec fn sample_cuttable(sample: Seq<char>) -> bool {
    encode_utf8(sample).len() > 40 ==> is_char_boundary(encode_utf8(sample), 37)
}

/// The published tables joined by `, `.
pub open spec fn pub_sample(p: PublicationRow) -> Seq<char> {
    joined(views(p.published_tables@), ", "@)
}

/// One publication's line of the Replication Lens.
pub open spec fn publication_line_text(p: PublicationRow) -> Seq<char> {
    "  pub "@ + p.pubname@ + " ("@ + p.owner@ + ")"@ + "  tables: "@ + pub_tables_text(p)
        + "  ops: "@ + pub_ops_text(p) + (if p.pubviaroot {
        "  (via_root)"@
    } else {
        Seq::empty()
    }) + (if p.published_tables@.len() > 0 {
        "  ["@ + table_sample_text(pub_sample(p)) + "]"@
    } else {
        Seq::empty()
    })
}

fn push_op(ops: &mut Vec<String>, on: bool, name: &str)
    ensures
        views(final(ops)@) == views(old(ops)@) + (if on { seq![name@] } else { Seq::empty() }),
{
    if on {
        let mut w = String::new();
        push_str(&mut w, name);
        ops.push(w);
    }
    assert(views(ops@) =~= views(old(ops)@) + (if on { seq![name@] } else { Seq::<Seq<char>>::empty() }));
}

fn push_table_sample(out: &mut String, p: &PublicationRow)
    requires
        sample_cuttable(pub_sample(*p)),
    ensures
        final(out)@ == old(out)@ + table_sample_text(pub_sample(*p)),
{
    proof {
        broadcast use vstd::utf8::group_utf8_lib;
    }
    let mut sample = String::new();
    push_joined(&mut sample, &p.published_tables, ", ");
    assert(sample@ == pub_sample(*p));
    let text = sample.as_str();
    if text.as_bytes().len() > 40 {
        let (head, _tail) = text.split_at(37);
        proof {
            encode_utf8_decode_utf8(head@);
            assert(head.spec_bytes() == encode_utf8(pub_sample(*p)).subrange(0, 37));
            assert(head@ == decode_utf8(encode_utf8(pub_sample(*p)).subrange(0, 37)));
        }
        push_str(out, head);
        push_char(out, '[');
        push_char(out, '\u{2026}');
        push_char(out, ']');
        assert(out@ =~= old(out)@ + table_sample_text(pub_sample(*p)));
    } else {
        assert(encode_utf8(pub_sample(*p)).len() <= 40);
        push_str(out, text);
        assert(out@ =~= old(out)@ + table_sample_text(pub_sample(*p)));
    }
}

/// Name, owner and which tables.
pub open spec fn pub_head_text(p: PublicationRow) -> Seq<char> {
    "  pub "@ + p.pubname@ + " ("@ + p.owner@ + ")"@ + "  tables: "@ + pub_tables_text(p)
}

fn push_pub_head(out: &mut String, p: &PublicationRow)
    ensures
        final(out)@ == old(out)@ + pub_head_text(*p),
{
    push_str(out, "  pub ");
    push_str(out, p.pubname.as_str());
    push_str(out, " (");
    push_str(out, p.owner.as_str());
    push_str(out, ")");
    push_str(out, "  tables: ");
    if p.all_tables {
        push_str(out, "all tables");
    } else {
        push_signed_decimal(out, p.table_count);
        push_str(out, " table");
        if p.table_count != 1 {
            push_str(out, "s");
        }
    }
    assert(out@ =~= old(out)@ + pub_head_text(*p));
}

fn push_pub_ops(out: &mut String, p: &PublicationRow)
    ensures
        final(out)@ == old(out)@ + "  ops: "@ + pub_ops_text(*p),
{
    push_str(out, "  ops: ");
    let ghost mid = out@;
    let mut ops: Vec<String> = Vec::new();
    push_op(&mut ops, p.pubinsert, "ins");
    push_op(&mut ops, p.pubupdate, "upd");
    push_op(&mut ops, p.pubdelete, "del");
    push_op(&mut ops, p.pubtruncate, "trunc");
    assert(views(ops@) =~= pub_ops(*p));
    if ops.len() == 0 {
        push_str(out, "none");
    } else {
        push_joined(out, &ops, ",");
    }
    assert(out@ =~= mid + pub_ops_text(*p));
}

/// One publication's line: name and owner, which tables, which
/// operations, `(via_root)`, and a sample of the published tables.
pub fn publication_line(p: &PublicationRow) -> (r: String)
    requires
        sample_cuttable(pub_sample(*p)),
    ensures
        r@ == publication_line_text(*p),
{
    let mut out = String::new();
    push_pub_head(&mut out, p);
    push_pub_ops(&mut out, p);
    let ghost mid = out@;
    if p.pubviaroot {
        push_str(&mut out, "  (via_root)");
    }
    let ghost mid2 = out@;
    if p.published_tables.len() > 0 {
        push_str(&mut out, "  [");
        push_table_sample(&mut out, p);
        push_str(&mut out, "]");
        assert(out@ =~= mid2 + ("  ["@ + table_sample_text(pub_sample(*p)) + "]"@));
    } else {
        assert(out@ =~= mid2 + Seq::<char>::empty());
    }
    assert(publication_line_text(*p) =~= pub_head_text(*p) + "  ops: "@ + pub_ops_text(*p) + (if p.pubviaroot {
        "  (via_root)"@
    } else {
        Seq::<char>::empty()
    }) + (if p.published_tables@.len() > 0 {
        "  ["@ + table_sample_text(pub_sample(*p)) + "]"@
    } else {
        Seq::<char>::empty()
    }));
    assert(out@ =~= publication_line_text(*p));
    out
}

// ---------------------------------------------------------------------
// Standby receiver
// ---------------------------------------------------------------------

/// Where a standby streams from: `host:port`, the host alone, or
/// `upstream` when unknown.
pub open spec fn upstream_text(host: Option<String>, port: Option<i32>) -> Seq<char> {
    match host {
        Some(h) => match port {
            Some(p) => h@ + ":"@ + signed_decimal(p as int),
            None => h@,
        },
        None => "upstream"@,
    }
}

pub fn upstream(host: &Option<String>, port: Option<i32>) -> (r: String)
    ensures
        r@ == upstream_text(*host, port),
{
    let mut out = String::new();
    match host {
        Some(h) => {
            push_str(&mut out, h.as_str());
            match port {
                Some(p) => {
                    push_str(&mut out, ":");
                    push_signed_decimal(&mut out, p as i64);
                },
                None => {},
            }
        },
        None => push_str(&mut out, "upstream"),
    }
    out
}

/// The badge of a standby whose replay is paused: its pause state, or
/// `paused` when the server did not say.
pub open spec fn pause_badge_text(is_paused: bool, pause_state: Option<String>) -> Seq<char> {
    if is_paused {
        "  ["@ + (match pause_state {
            Some(st) => st@,
            None => "paused"@,
        }) + "]"@
    } else {
        Seq::empty()
    }
}

pub fn pause_badge(is_paused: bool, pause_state: &Option<String>) -> (r: String)
    ensures
        r@ == pause_badge_text(is_paused, *pause_state),
{
    let mut out = String::new();
    if is_paused {
        push_str(&mut out, "  [");
        match pause_state {
            Some(st) => push_str(&mut out, st.as_str()),
            None => push_str(&mut out, "paused"),
        }
        push_str(&mut out, "]");
    } else {
        assert(out@ =~= Seq::<char>::empty());
    }
    out
}

// ---------------------------------------------------------------------
// The Macro Lens replication panel
// ---------------------------------------------------------------------

/// This server's side of replication, with its lines already written
/// (their lag figures are floating point and rendered by the host).
pub enum ReplicationRole {
    /// A primary and the lines of its WAL senders.
    Primary(Vec<String>),
    /// A standby and the line of its WAL receiver.
    Standby(String),
    /// A standby whose WAL receiver has not started.
    StandbyWaiting,
}

/// Sender rows the panel shows before clipping.
pub const SENDERS_SHOWN: usize = 4;
/// Slot rows the panel shows before clipping.
pub const SLOTS_SHOWN: usize = 6;

/// The line standing for clipped rows.
pub open spec fn more_text(n: nat, what: Seq<char>) -> Seq<char> {
    "   \u{2026} +"@ + decimal(n) + " more "@ + what
}

/// The line pointing to the full Replication Lens after clipping.
pub open spec fn tab_hint_text() -> Seq<char> {
    "   Tab \u{2192} Replication for all"@
}

pub open spec fn role_lines(role: Option<ReplicationRole>) -> Seq<Seq<char>> {
    match role {
        Some(ReplicationRole::Primary(ls)) => if ls@.len() > SENDERS_SHOWN {
            views(ls@).take(SENDERS_SHOWN as int).push(more_text((ls@.len() - SENDERS_SHOWN) as nat, "replicas"@))
        } else {
            views(ls@)
        },
        Some(ReplicationRole::Standby(l)) => seq![l@],
        Some(ReplicationRole::StandbyWaiting) => seq!["standby \u{b7} waiting for a WAL sender\u{2026}"@],
        None => seq![],
    }
}

/// The slot rows in panel order, clipped after [`SLOTS_SHOWN`].
pub open spec fn slot_lines(slots: Seq<ReplicationSlotRow>, order: Seq<usize>) -> Seq<Seq<char>> {
    let shown = if order.len() > SLOTS_SHOWN {
        order.take(SLOTS_SHOWN as int)
    } else {
        order
    };
    let ls = shown.map_values(|i: usize| slot_line_text(slots[i as int]));
    if order.len() > SLOTS_SHOWN {
        ls.push(more_text((order.len() - SLOTS_SHOWN) as nat, "slots"@))
    } else {
        ls
    }
}

/// The panel: the senders (clipped) or the standby's line, then the slots
/// worst first (clipped), then the pointer to the full lens when anything
/// was clipped.
pub open spec fn panel_lines(role: Option<ReplicationRole>, slots: Seq<ReplicationSlotRow>, order: Seq<usize>) -> Seq<Seq<char>> {
    let clipped = (role matches Some(ReplicationRole::Primary(ls)) && ls@.len() > SENDERS_SHOWN) || order.len()
        > SLOTS_SHOWN;
    role_lines(role) + (if slots.len() > 0 {
        slot_lines(slots, order)
    } else {
        seq![]
    }) + (if clipped {
        seq![tab_hint_text()]
    } else {
        seq![]
    })
}

proof fn lemma_views_push(v: Seq<String>, x: String)
    ensures
        views(v.push(x)) == views(v).push(x@),
{
    assert(views(v.push(x)) =~= views(v).push(x@));
}

fn more_line(n: usize, what: &str) -> (r: String)
    ensures
        r@ == more_text(n as nat, what@),
{
    let mut out = String::new();
    push_str(&mut out, "   \u{2026} +");
    push_decimal(&mut out, n as u128);
    push_str(&mut out, " more ");
    push_str(&mut out, what);
    out
}

fn push_role_lines(lines: &mut Vec<String>, role: &Option<ReplicationRole>)
    requires
        old(lines)@.len() == 0,
    ensures
        views(final(lines)@) == role_lines(*role),
{
    match role {
        Some(ReplicationRole::Primary(ls)) => {
            let n = ls.len();
            let shown = if n > SENDERS_SHOWN { SENDERS_SHOWN } else { n };
            let mut i: usize = 0;
            while i < shown
                invariant
                    n == ls@.len(),
                    shown <= n,
                    0 <= i <= shown,
                    views(lines@) == views(ls@).take(i as int),
                decreases shown - i,
            {
                let ghost before = lines@;
                let item = ls[i].clone();
                lines.push(item);
                proof {
                    lemma_views_push(before, item);
                    assert(views(ls@).take(i as int + 1) =~= views(ls@).take(i as int).push(ls@[i as int]@));
                }
                i = i + 1;
            }
            if n > SENDERS_SHOWN {
                let m = more_line(n - SENDERS_SHOWN, "replicas");
                let ghost before = lines@;
                lines.push(m);
                proof {
                    lemma_views_push(before, m);
                }
                assert(views(lines@) =~= views(ls@).take(SENDERS_SHOWN as int).push(
                    more_text((n - SENDERS_SHOWN) as nat, "replicas"@),
                ));
            } else {
                assert(views(ls@).take(n as int) =~= views(ls@));
            }
        },
        Some(ReplicationRole::Standby(l)) => {
            let item = l.clone();
            let ghost before = lines@;
            lines.push(item);
            proof {
                lemma_views_push(before, item);
            }
            assert(views(lines@) =~= seq![l@]);
        },
        Some(ReplicationRole::StandbyWaiting) => {
            let mut t = String::new();
            push_str(&mut t, "standby \u{b7} waiting for a WAL sender\u{2026}");
            let ghost before = lines@;
            lines.push(t);
            proof {
                lemma_views_push(before, t);
            }
            assert(views(lines@) =~= seq!["standby \u{b7} waiting for a WAL sender\u{2026}"@]);
        },
        None => {
            assert(views(lines@) =~= Seq::<Seq<char>>::empty());
        },
    }
}

fn push_slot_lines(lines: &mut Vec<String>, slots: &Vec<ReplicationSlotRow>, order: &Vec<usize>)
    requires
        forall|k: int| 0 <= k < order@.len() ==> #[trigger] order@[k] < slots@.len(),
    ensures
        views(final(lines)@) == views(old(lines)@) + slot_lines(slots@, order@),
{
    let ghost start = views(lines@);
    let n = order.len();
    let shown = if n > SLOTS_SHOWN { SLOTS_SHOWN } else { n };
    let ghost sh = if n > SLOTS_SHOWN { order@.take(SLOTS_SHOWN as int) } else { order@ };
    let mut i: usize = 0;
    while i < shown
        invariant
            n == order@.len(),
            shown == sh.len(),
            sh == (if n > SLOTS_SHOWN { order@.take(SLOTS_SHOWN as int) } else { order@ }),
            forall|k: int| 0 <= k < order@.len() ==> #[trigger] order@[k] < slots@.len(),
            0 <= i <= shown,
            views(lines@) == start + sh.take(i as int).map_values(|j: usize| slot_line_text(slots@[j as int])),
        decreases shown - i,
    {
        assert(sh[i as int] == order@[i as int]);
        let line = slot_line(&slots[order[i]]);
        let ghost before = lines@;
        lines.push(line);
        proof {
            lemma_views_push(before, line);
        }
        assert(sh.take(i as int + 1).map_values(|j: usize| slot_line_text(slots@[j as int])) =~= sh.take(
            i as int,
        ).map_values(|j: usize| slot_line_text(slots@[j as int])).push(slot_line_text(slots@[order@[i as int] as int])));
        assert(views(lines@) =~= start + sh.take(i as int + 1).map_values(|j: usize| slot_line_text(slots@[j as int])));
        i = i + 1;
    }
    assert(sh.take(shown as int) =~= sh);
    if n > SLOTS_SHOWN {
        let m = more_line(n - SLOTS_SHOWN, "slots");
        let ghost before = lines@;
        lines.push(m);
        proof {
            lemma_views_push(before, m);
        }
        assert(views(lines@) =~= start + slot_lines(slots@, order@));
    } else {
        assert(views(lines@) =~= start + slot_lines(slots@, order@));
    }
}

/// The slots a panel is given (none when the list is missing).
pub open spec fn given_slots(slots: Option<&Vec<ReplicationSlotRow>>) -> Seq<ReplicationSlotRow> {
    match slots {
        Some(v) => v@,
        None => Seq::empty(),
    }
}

/// `r` is the panel for `role` and the slots `sl` taken in `order`, an
/// order of the slots worst first.
pub open spec fn panel_shown(
    role: Option<ReplicationRole>,
    sl: Seq<ReplicationSlotRow>,
    order: Seq<usize>,
    r: Option<Vec<String>>,
) -> bool {
    &&& is_display_order(panel_slot_keys(sl), keep_all(), sl.len() as int, order)
    &&& (if panel_lines(role, sl, order).len() == 0 {
        r is None
    } else {
        r matches Some(v) && views(v@) == panel_lines(role, sl, order)
    })
}

/// The Macro Lens replication panel's lines, `None` when there is nothing
/// worth a panel (a primary without replicas or slots).
pub fn replication_lines(role: Option<ReplicationRole>, slots: Option<&Vec<ReplicationSlotRow>>) -> (r: Option<Vec<String>>)
    ensures
        exists|order: Seq<usize>| #[trigger] panel_shown(role, given_slots(slots), order, r),
{
    let empty: Vec<ReplicationSlotRow> = Vec::new();
    let sl: &Vec<ReplicationSlotRow> = match slots {
        Some(v) => v,
        None => &empty,
    };
    assert(sl@ == given_slots(slots));
    let order = panel_slot_order(sl);
    proof {
        assert forall|k: int| 0 <= k < order@.len() implies #[trigger] order@[k] < sl@.len() by {}
    }
    let mut lines: Vec<String> = Vec::new();
    push_role_lines(&mut lines, &role);
    if sl.len() > 0 {
        push_slot_lines(&mut lines, sl, &order);
    }
    let primary_clipped = match &role {
        Some(ReplicationRole::Primary(ls)) => ls.len() > SENDERS_SHOWN,
        _ => false,
    };
    let clipped = primary_clipped || order.len() > SLOTS_SHOWN;
    if clipped {
        let mut t = String::new();
        push_str(&mut t, "   Tab \u{2192} Replication for all");
        let ghost before = lines@;
        lines.push(t);
        proof {
            lemma_views_push(before, t);
        }
    }
    proof {
        if sl@.len() == 0 {
            assert(order@.len() == 0) by {
                if order@.len() > 0 {
                    assert(order@[0] < sl@.len());
                }
            }
        }
        assert(views(lines@) =~= panel_lines(role, sl@, order@));
    }
    let r = if lines.len() == 0 {
        None
    } else {
        Some(lines)
    };
    assert(panel_shown(role, sl@, order@, r));
    r
}

} // verus!
