//! Rows of the startup service picker and of the database picker: a
//! selection marker, the name padded to a common width, then the details.
use vstd::prelude::*;
use vstd::string::*;
use crate::app::PickerEntry;
use crate::text::{push_char, push_str};

verus! {

/// `n` spaces.
pub open spec fn spaces(n: nat) -> Seq<char> {
    Seq::new(n, |i: int| ' ')
}

/// `s` followed by spaces up to `width` characters (`{:<width}`).
pub open spec fn pad_right(s: Seq<char>, width: nat) -> Seq<char> {
    if s.len() < width {
        s + spaces((width - s.len()) as nat)
    } else {
        s
    }
}

/// Spaces followed by `s` up to `width` characters (`{:>width}`).
pub open spec fn pad_left(s: Seq<char>, width: nat) -> Seq<char> {
    if s.len() < width {
        spaces((width - s.len()) as nat) + s
    } else {
        s
    }
}

/// Appends `n` spaces.
pub fn push_spaces(out: &mut String, n: usize)
    ensures
        final(out)@ == old(out)@ + spaces(n as nat),
{
    let ghost start = out@;
    let mut i: usize = 0;
    while i < n
        invariant
            0 <= i <= n,
            out@ == start + spaces(i as nat),
        decreases n - i,
    {
        push_char(out, ' ');
        assert(start + spaces(i as nat + 1) =~= (start + spaces(i as nat)).push(' '));
        i = i + 1;
    }
}

/// Appends `s` padded on the right to `width` characters.
pub fn push_padded_right(out: &mut String, s: &str, width: usize)
    ensures
        final(out)@ == old(out)@ + pad_right(s@, width as nat),
{
    let len = s.unicode_len();
    push_str(out, s);
    if len < width {
        push_spaces(out, width - len);
    }
    proof {
        if len < width {
            assert(old(out)@ + s@ + spaces((width - len) as nat) =~= old(out)@ + pad_right(s@, width as nat));
        }
    }
}

/// Appends `s` padded on the left to `width` characters.
pub fn push_padded_left(out: &mut String, s: &str, width: usize)
    ensures
        final(out)@ == old(out)@ + pad_left(s@, width as nat),
{
    let len = s.unicode_len();
    if len < width {
        push_spaces(out, width - len);
    }
    push_str(out, s);
    proof {
        if len < width {
            assert(old(out)@ + spaces((width - len) as nat) + s@ =~= old(out)@ + pad_left(s@, width as nat));
        }
    }
}

/// The selection marker: `▸ ` on the highlighted row.
pub open spec fn marker(selected: bool) -> Seq<char> {
    if selected {
        "\u{25b8} "@
    } else {
        "  "@
    }
}

/// Separator between a service's name and its `user@host`.
pub const PICKER_SEP: &'static str = "  \u{2014}  ";

/// One service picker row: ` ▸ name  —  user@host`.
pub open spec fn picker_row_text(entry: PickerEntry, selected: bool, name_width: nat) -> Seq<char> {
    " "@ + marker(selected) + pad_right(entry.name@, name_width) + PICKER_SEP@ + entry.detail@
}

/// Appends the selection marker.
pub fn push_marker(out: &mut String, selected: bool)
    ensures
        final(out)@ == old(out)@ + marker(selected),
{
    if selected {
        push_str(out, "\u{25b8} ");
    } else {
        push_str(out, "  ");
    }
}

pub fn picker_row(entry: &PickerEntry, selected: bool, name_width: usize) -> (r: String)
    ensures
        r@ == picker_row_text(*entry, selected, name_width as nat),
{
    let mut t = String::new();
    push_str(&mut t, " ");
    push_marker(&mut t, selected);
    push_padded_right(&mut t, entry.name.as_str(), name_width);
    push_str(&mut t, PICKER_SEP);
    push_str(&mut t, entry.detail.as_str());
    t
}

} // verus!
