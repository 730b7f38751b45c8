//! The integer texts of the Macro Lens: the connections gauge's label, the
//! active-sessions sparkline's title, and the vitals panel's lines.
use vstd::prelude::*;
use crate::snapshot::{Snapshot, Vitals};
use crate::text::{push_signed_decimal, push_str, signed_decimal, views};
use crate::ui::format::{bytes_text, human_bytes};

verus! {

/// `connections/max` on the connections gauge.
pub open spec fn connections_label_text(s: Snapshot) -> Seq<char> {
    signed_decimal(s.connections_total as int) + "/"@ + signed_decimal(s.max_connections as int)
}

pub fn connections_label(s: &Snapshot) -> (r: String)
    ensures
        r@ == connections_label_text(*s),
{
    let mut t = String::new();
    push_signed_decimal(&mut t, s.connections_total);
    push_str(&mut t, "/");
    push_signed_decimal(&mut t, s.max_connections);
    t
}

/// The active-sessions sparkline's title with the live count.
pub open spec fn active_title_text(v: Vitals) -> Seq<char> {
    "Active sessions (now: "@ + signed_decimal(v.active as int) + ")"@
}

pub fn active_title(v: &Vitals) -> (r: String)
    ensures
        r@ == active_title_text(*v),
{
    let mut t = String::new();
    push_str(&mut t, "Active sessions (now: ");
    push_signed_decimal(&mut t, v.active);
    push_str(&mut t, ")");
    t
}

/// The vitals panel: one `label : value` line per counter, temp files
/// with their total size.
pub open spec fn vitals_lines_text(v: Vitals) -> Seq<Seq<char>> {
    seq![
        "Active          : "@ + signed_decimal(v.active as int),
        "Idle            : "@ + signed_decimal(v.idle as int),
        "Idle in tx      : "@ + signed_decimal(v.idle_in_transaction as int),
        "Waiting         : "@ + signed_decimal(v.waiting as int),
        "Deadlocks       : "@ + signed_decimal(v.deadlocks as int),
        "Temp files      : "@ + signed_decimal(v.temp_files as int) + " ("@ + bytes_text(v.temp_bytes as int) + ")"@,
    ]
}

fn kv(label: &str, value: i64) -> (r: String)
    ensures
        r@ == label@ + signed_decimal(value as int),
{
    let mut t = String::new();
    push_str(&mut t, label);
    push_signed_decimal(&mut t, value);
    t
}

pub fn vitals_lines(v: &Vitals) -> (r: Vec<String>)
    ensures
        views(r@) == vitals_lines_text(*v),
{
    let mut lines: Vec<String> = Vec::new();
    lines.push(kv("Active          : ", v.active));
    lines.push(kv("Idle            : ", v.idle));
    lines.push(kv("Idle in tx      : ", v.idle_in_transaction));
    lines.push(kv("Waiting         : ", v.waiting));
    lines.push(kv("Deadlocks       : ", v.deadlocks));
    let mut temp = kv("Temp files      : ", v.temp_files);
    push_str(&mut temp, " (");
    let size = human_bytes(v.temp_bytes);
    push_str(&mut temp, size.as_str());
    push_str(&mut temp, ")");
    lines.push(temp);
    assert(views(lines@) =~= vitals_lines_text(*v));
    lines
}

} // verus!
