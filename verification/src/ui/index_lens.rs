//! Column-width math of the Index Lens table, and the texts of its detail
//! panel: which constraint flags apply and what the advisor's finding
//! means.
use vstd::prelude::*;
use crate::snapshot::{IndexFinding, IndexRow};
use crate::text::push_str;

verus! {

/// Fixed columns: size, scans, finding, flags, table-size share.
pub const FIXED_WIDTHS_SUM: u16 = 49;
pub const HIGHLIGHT_WIDTH: u16 = 2;
pub const COLUMN_SPACING: u16 = 1;

/// Width left for the index name once borders, the highlight gutter, the
/// fixed columns and the spacing between the six columns are taken
/// (never underflows: a too-narrow terminal gets 0).
pub open spec fn index_column_width_spec(area_width: int) -> int {
    let overhead = 2 + HIGHLIGHT_WIDTH + FIXED_WIDTHS_SUM + 5 * COLUMN_SPACING;
    if area_width > overhead { area_width - overhead } else { 0 }
}

pub fn index_column_width(area_width: u16) -> (r: usize)
    ensures
        r == index_column_width_spec(area_width as int),
{
    let overhead: u16 = 2 + HIGHLIGHT_WIDTH + FIXED_WIDTHS_SUM + 5 * COLUMN_SPACING;
    area_width.saturating_sub(overhead) as usize
}

/// The short marker of a finding in the table's flag column.
pub fn index_marker(f: &IndexFinding) -> (r: &'static str)
    ensures
        r@ == (match *f {
            IndexFinding::Invalid => "INVALID"@,
            IndexFinding::Unused => "UNUSED"@,
            IndexFinding::DuplicateExact { .. } => "DUP"@,
            IndexFinding::DuplicatePrefix { .. } => "prefix"@,
            IndexFinding::NoFinding => ""@,
        }),
{
    match f {
        IndexFinding::Invalid => "INVALID",
        IndexFinding::Unused => "UNUSED",
        IndexFinding::DuplicateExact { .. } => "DUP",
        IndexFinding::DuplicatePrefix { .. } => "prefix",
        IndexFinding::NoFinding => "",
    }
}

/// The pg_index flags that apply, in the order the panel names them: the
/// primary key (or else uniqueness), exclusion, then constraint backing for
/// a non-primary index.
pub open spec fn flag_words(idx: IndexRow) -> Seq<Seq<char>> {
    let first: Seq<Seq<char>> = if idx.is_primary {
        seq!["primary key"@]
    } else if idx.is_unique {
        seq!["unique"@]
    } else {
        seq![]
    };
    let second: Seq<Seq<char>> = if idx.is_exclusion {
        seq!["exclusion"@]
    } else {
        seq![]
    };
    let third: Seq<Seq<char>> = if idx.is_constraint && !idx.is_primary {
        seq!["constraint-backed"@]
    } else {
        seq![]
    };
    first + second + third
}

/// `words` joined by ` · `.
pub open spec fn dot_joined(words: Seq<Seq<char>>) -> Seq<char>
    decreases words.len(),
{
    if words.len() == 0 {
        Seq::empty()
    } else if words.len() == 1 {
        words[0]
    } else {
        dot_joined(words.drop_last()) + " \u{b7} "@ + words.last()
    }
}

/// The detail panel's flags line: the flags that apply, or `plain` when
/// none does.
pub open spec fn flags_summary_text(idx: IndexRow) -> Seq<char> {
    if flag_words(idx).len() == 0 {
        "plain (non-unique, no constraint)"@
    } else {
        dot_joined(flag_words(idx))
    }
}

pub fn index_flags_summary(idx: &IndexRow) -> (r: String)
    ensures
        r@ == flags_summary_text(*idx),
{
    let mut words: Vec<&'static str> = Vec::new();
    if idx.is_primary {
        words.push("primary key");
    } else if idx.is_unique {
        words.push("unique");
    }
    if idx.is_exclusion {
        words.push("exclusion");
    }
    if idx.is_constraint && !idx.is_primary {
        words.push("constraint-backed");
    }
    let ghost ws = words@.map_values(|w: &'static str| w@);
    assert(ws =~= flag_words(*idx));
    let n = words.len();
    let mut out = String::new();
    if n == 0 {
        push_str(&mut out, "plain (non-unique, no constraint)");
        return out;
    }
    let mut i: usize = 0;
    while i < n
        invariant
            n == words@.len(),
            ws == words@.map_values(|w: &'static str| w@),
            0 <= i <= n,
            out@ == dot_joined(ws.take(i as int)),
        decreases n - i,
    {
        let ghost before = out@;
        if i > 0 {
            push_str(&mut out, " \u{b7} ");
        }
        push_str(&mut out, words[i]);
        proof {
            let t = ws.take(i as int + 1);
            assert(t.drop_last() =~= ws.take(i as int));
            assert(t.last() == words@[i as int]@);
            if i == 0 {
                assert(before.len() == 0);
                assert(out@ =~= dot_joined(t));
            } else {
                assert(out@ =~= before + " \u{b7} "@ + t.last());
            }
        }
        i = i + 1;
    }
    assert(ws.take(n as int) =~= ws);
    out
}

/// The detail panel's finding line: a label, then what the finding means
/// (naming the duplicated index).
pub open spec fn finding_line_text(f: IndexFinding) -> Seq<char> {
    match f {
        IndexFinding::Invalid => "  INVALID \u{2014} indisvalid/indisready is false: a CREATE INDEX CONCURRENTLY likely failed or was cancelled; this index is dead weight (never served to the planner, still costs every write) and can safely be dropped and rebuilt"@,
        IndexFinding::Unused => "  UNUSED \u{2014} zero scans since the last stats reset; serves no constraint"@,
        IndexFinding::DuplicateExact { partner } => "  DUP \u{2014} exact duplicate of \u{2018}"@ + partner@
            + "\u{2019} (same columns, opclasses, predicate and uniqueness)"@,
        IndexFinding::DuplicatePrefix { partner } => "  prefix \u{2014} this index's columns are a strict prefix of \u{2018}"@
            + partner@ + "\u{2019}'s; the wider index can likely serve both"@,
        IndexFinding::NoFinding => "  no finding \u{2014} in use, or uniquely useful"@,
    }
}

pub fn index_finding_line(f: &IndexFinding) -> (r: String)
    ensures
        r@ == finding_line_text(*f),
{
    let mut out = String::new();
    match f {
        IndexFinding::Invalid => push_str(&mut out, "  INVALID \u{2014} indisvalid/indisready is false: a CREATE INDEX CONCURRENTLY likely failed or was cancelled; this index is dead weight (never served to the planner, still costs every write) and can safely be dropped and rebuilt"),
        IndexFinding::Unused => push_str(&mut out, "  UNUSED \u{2014} zero scans since the last stats reset; serves no constraint"),
        IndexFinding::DuplicateExact { partner } => {
            push_str(&mut out, "  DUP \u{2014} exact duplicate of \u{2018}");
            push_str(&mut out, partner.as_str());
            push_str(&mut out, "\u{2019} (same columns, opclasses, predicate and uniqueness)");
        },
        IndexFinding::DuplicatePrefix { partner } => {
            push_str(&mut out, "  prefix \u{2014} this index's columns are a strict prefix of \u{2018}");
            push_str(&mut out, partner.as_str());
            push_str(&mut out, "\u{2019}'s; the wider index can likely serve both");
        },
        IndexFinding::NoFinding => push_str(&mut out, "  no finding \u{2014} in use, or uniquely useful"),
    }
    out
}

} // verus!
