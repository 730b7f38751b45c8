//! Database picker overlay helpers.
use vstd::prelude::*;
use crate::text::{push_char, push_str};
use crate::snapshot::DatabaseRow;
use crate::ui::format::{human_bytes, size_cell};
use crate::ui::picker::{marker, pad_left, pad_right, push_marker, push_padded_left, push_padded_right};

verus! {

/// Size column of one database row: the human size, or `—` when unknown.
pub fn size_text(size_bytes: Option<i64>) -> (r: String)
    ensures
        r@ == size_cell(size_bytes),
{
    match size_bytes {
        Some(bytes) => human_bytes(bytes),
        None => {
            let mut s = String::new();
            push_char(&mut s, '\u{2014}');
            assert(s@ =~= size_cell(size_bytes));
            s
        },
    }
}

/// One database picker row: ` ▸ name  size`, plus ` (current)` on the
/// connected database whatever the selection.
pub open spec fn db_row_text(entry: DatabaseRow, selected: bool, current: bool, name_width: nat, size_width: nat) -> Seq<char> {
    " "@ + marker(selected) + pad_right(entry.name@, name_width) + "  "@ + pad_left(
        size_cell(entry.size_bytes),
        size_width,
    ) + (if current {
        " (current)"@
    } else {
        ""@
    })
}

pub fn db_row(entry: &DatabaseRow, selected: bool, current: bool, name_width: usize, size_width: usize) -> (r: String)
    ensures
        r@ == db_row_text(*entry, selected, current, name_width as nat, size_width as nat),
{
    let size = size_text(entry.size_bytes);
    let mut t = String::new();
    push_str(&mut t, " ");
    push_marker(&mut t, selected);
    push_padded_right(&mut t, entry.name.as_str(), name_width);
    push_str(&mut t, "  ");
    push_padded_left(&mut t, size.as_str(), size_width);
    if current {
        push_str(&mut t, " (current)");
    } else {
        proof {
            reveal_strlit("");
        }
        assert(t@ =~= t@ + ""@);
    }
    t
}

} // verus!
