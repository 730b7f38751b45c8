//! Display order of table rows: a row's sort key is a list of parts
//! (numbers, ascending; text, ascending by character), compared
//! lexicographically; rows with equal keys keep their original relative
//! order (a stable sort). `sort_rows` returns the row indices in that order.
use vstd::prelude::*;
use vstd::string::*;

verus! {

/// One component of a sort key. Descending numeric columns are stored
/// negated, so every part sorts ascending.
pub enum KeyPart {
    Num(i128),
    Text(String),
}

/// Ghost model of a key part.
pub enum PartView {
    Num(int),
    Text(Seq<char>),
}

pub open spec fn part_view(p: KeyPart) -> PartView {
    match p {
        KeyPart::Num(n) => PartView::Num(n as int),
        KeyPart::Text(s) => PartView::Text(s@),
    }
}

pub open spec fn key_view(k: Seq<KeyPart>) -> Seq<PartView> {
    k.map_values(|p: KeyPart| part_view(p))
}

/// Text order of `str`'s `Ord`: the first differing character decides, and
/// a proper prefix comes first.
pub open spec fn text_before(a: Seq<char>, b: Seq<char>) -> bool
    decreases a.len(),
{
    if a.len() == 0 {
        b.len() > 0
    } else if b.len() == 0 {
        false
    } else if a[0] != b[0] {
        (a[0] as u32) < (b[0] as u32)
    } else {
        text_before(a.drop_first(), b.drop_first())
    }
}

/// Strict order on key parts (a number sorts before any text; never needed
/// between rows of one table, whose keys share their shape).
pub open spec fn part_before(a: PartView, b: PartView) -> bool {
    match (a, b) {
        (PartView::Num(x), PartView::Num(y)) => x < y,
        (PartView::Text(x), PartView::Text(y)) => text_before(x, y),
        (PartView::Num(_), PartView::Text(_)) => true,
        (PartView::Text(_), PartView::Num(_)) => false,
    }
}

/// Lexicographic strict order on keys.
pub open spec fn key_before(a: Seq<PartView>, b: Seq<PartView>) -> bool
    decreases a.len(),
{
    if a.len() == 0 {
        b.len() > 0
    } else if b.len() == 0 {
        false
    } else if a[0] != b[0] {
        part_before(a[0], b[0])
    } else {
        key_before(a.drop_first(), b.drop_first())
    }
}

/// Row `i` (key `ka`) is displayed before row `j` (key `kb`): a smaller key,
/// or an equal key and a smaller original index (stability).
pub open spec fn row_before(ka: Seq<PartView>, i: int, kb: Seq<PartView>, j: int) -> bool {
    key_before(ka, kb) || (ka == kb && i < j)
}

/// `order` lists its rows in display order under `keys`.
pub open spec fn in_display_order(keys: Seq<Seq<PartView>>, order: Seq<usize>) -> bool {
    forall|p: int, q: int|
        0 <= p < q < order.len() ==> row_before(
            keys[order[p] as int],
            order[p] as int,
            keys[order[q] as int],
            order[q] as int,
        )
}

/// `order` holds exactly the rows `0 <= i < n` selected by `keep`, each
/// once, in display order under `keys`.
pub open spec fn is_display_order(
    keys: Seq<Seq<PartView>>,
    keep: spec_fn(int) -> bool,
    n: int,
    order: Seq<usize>,
) -> bool {
    &&& forall|p: int| 0 <= p < order.len() ==> 0 <= #[trigger] order[p] < n && keep(order[p] as int)
    &&& forall|i: int| 0 <= i < n && keep(i) ==> #[trigger] order.contains(i as usize)
    &&& in_display_order(keys, order)
}

proof fn lemma_text_trichotomy(a: Seq<char>, b: Seq<char>)
    ensures
        a != b ==> (text_before(a, b) || text_before(b, a)),
        !(text_before(a, b) && text_before(b, a)),
        !text_before(a, a),
    decreases a.len(),
{
    if a.len() > 0 && b.len() > 0 && a[0] == b[0] {
        lemma_text_trichotomy(a.drop_first(), b.drop_first());
        if a != b {
            assert(a.drop_first() != b.drop_first()) by {
                if a.drop_first() == b.drop_first() {
                    assert(a =~= seq![a[0]] + a.drop_first());
                    assert(b =~= seq![b[0]] + b.drop_first());
                }
            }
        }
    } else if a.len() > 0 && b.len() > 0 {
        if (a[0] as u32) == (b[0] as u32) {
            vstd::utf8::char_u32_cast(a[0], a[0] as u32);
            vstd::utf8::char_u32_cast(b[0], b[0] as u32);
        }
    } else if a.len() == 0 && b.len() == 0 {
        assert(a =~= b);
    }
    if a.len() > 0 {
        lemma_text_trichotomy(a.drop_first(), a.drop_first());
    }
}

proof fn lemma_text_transitive(a: Seq<char>, b: Seq<char>, c: Seq<char>)
    requires
        text_before(a, b),
        text_before(b, c),
    ensures
        text_before(a, c),
    decreases a.len(),
{
    if a.len() > 0 && b.len() > 0 && c.len() > 0 && a[0] == b[0] && b[0] == c[0] {
        lemma_text_transitive(a.drop_first(), b.drop_first(), c.drop_first());
    }
}

proof fn lemma_part_trichotomy(a: PartView, b: PartView)
    ensures
        a != b ==> (part_before(a, b) || part_before(b, a)),
        !(part_before(a, b) && part_before(b, a)),
        !part_before(a, a),
{
    match (a, b) {
        (PartView::Text(x), PartView::Text(y)) => {
            lemma_text_trichotomy(x, y);
        },
        (PartView::Text(x), PartView::Num(_)) => {
            lemma_text_trichotomy(x, x);
        },
        (PartView::Num(_), PartView::Text(y)) => {
            lemma_text_trichotomy(y, y);
        },
        _ => {},
    }
}

proof fn lemma_part_transitive(a: PartView, b: PartView, c: PartView)
    requires
        part_before(a, b),
        part_before(b, c),
    ensures
        part_before(a, c),
{
    match (a, b, c) {
        (PartView::Text(x), PartView::Text(y), PartView::Text(z)) => {
            lemma_text_transitive(x, y, z);
        },
        _ => {},
    }
}

proof fn lemma_key_trichotomy(a: Seq<PartView>, b: Seq<PartView>)
    ensures
        a != b ==> (key_before(a, b) || key_before(b, a)),
        !(key_before(a, b) && key_before(b, a)),
        !key_before(a, a),
    decreases a.len(),
{
    if a.len() > 0 && b.len() > 0 {
        lemma_part_trichotomy(a[0], b[0]);
        if a[0] == b[0] {
            lemma_key_trichotomy(a.drop_first(), b.drop_first());
            if a != b {
                assert(a.drop_first() != b.drop_first()) by {
                    if a.drop_first() == b.drop_first() {
                        assert(a =~= seq![a[0]] + a.drop_first());
                        assert(b =~= seq![b[0]] + b.drop_first());
                    }
                }
            }
        }
    } else if a.len() == 0 && b.len() == 0 {
        assert(a =~= b);
    }
    if a.len() > 0 {
        lemma_key_trichotomy(a.drop_first(), a.drop_first());
    }
}

proof fn lemma_key_transitive(a: Seq<PartView>, b: Seq<PartView>, c: Seq<PartView>)
    requires
        key_before(a, b),
        key_before(b, c),
    ensures
        key_before(a, c),
    decreases a.len(),
{
    if a.len() > 0 && b.len() > 0 && c.len() > 0 {
        if a[0] == b[0] && b[0] == c[0] {
            lemma_key_transitive(a.drop_first(), b.drop_first(), c.drop_first());
        } else if a[0] == b[0] {
        } else if b[0] == c[0] {
        } else {
            lemma_part_transitive(a[0], b[0], c[0]);
            lemma_part_trichotomy(a[0], b[0]);
        }
    }
}

/// `row_before` is a strict total order on rows with distinct indices.
pub proof fn lemma_row_before_total(ka: Seq<PartView>, i: int, kb: Seq<PartView>, j: int)
    ensures
        i != j ==> (row_before(ka, i, kb, j) || row_before(kb, j, ka, i)),
        !(row_before(ka, i, kb, j) && row_before(kb, j, ka, i)),
{
    lemma_key_trichotomy(ka, kb);
}

/// `row_before` is transitive.
pub proof fn lemma_row_before_transitive(
    ka: Seq<PartView>,
    i: int,
    kb: Seq<PartView>,
    j: int,
    kc: Seq<PartView>,
    k: int,
)
    requires
        row_before(ka, i, kb, j),
        row_before(kb, j, kc, k),
    ensures
        row_before(ka, i, kc, k),
{
    if key_before(ka, kb) && key_before(kb, kc) {
        lemma_key_transitive(ka, kb, kc);
    }
}

fn text_is_before(a: &str, b: &str) -> (r: bool)
    ensures
        r == text_before(a@, b@),
{
    let n = a.unicode_len();
    let m = b.unicode_len();
    let mut i: usize = 0;
    assert(a@.skip(0) =~= a@);
    assert(b@.skip(0) =~= b@);
    while i < n && i < m
        invariant
            n == a@.len(),
            m == b@.len(),
            0 <= i <= n,
            i <= m,
            forall|k: int| 0 <= k < i ==> a@[k] == b@[k],
            text_before(a@, b@) == text_before(a@.skip(i as int), b@.skip(i as int)),
        decreases n - i,
    {
        let ca = a.get_char(i);
        let cb = b.get_char(i);
        proof {
            let sa = a@.skip(i as int);
            let sb = b@.skip(i as int);
            assert(sa[0] == ca && sb[0] == cb);
            assert(sa.drop_first() =~= a@.skip(i + 1));
            assert(sb.drop_first() =~= b@.skip(i + 1));
        }
        if ca != cb {
            return (ca as u32) < (cb as u32);
        }
        i = i + 1;
    }
    i < m && i == n
}

fn part_is_before(a: &KeyPart, b: &KeyPart) -> (r: bool)
    ensures
        r == part_before(part_view(*a), part_view(*b)),
{
    match (a, b) {
        (KeyPart::Num(x), KeyPart::Num(y)) => *x < *y,
        (KeyPart::Text(x), KeyPart::Text(y)) => text_is_before(x.as_str(), y.as_str()),
        (KeyPart::Num(_), KeyPart::Text(_)) => true,
        (KeyPart::Text(_), KeyPart::Num(_)) => false,
    }
}

fn text_equal(a: &str, b: &str) -> (r: bool)
    ensures
        r == (a@ == b@),
{
    crate::text::str_eq(a, b)
}

fn part_equal(a: &KeyPart, b: &KeyPart) -> (r: bool)
    ensures
        r == (part_view(*a) == part_view(*b)),
{
    match (a, b) {
        (KeyPart::Num(x), KeyPart::Num(y)) => *x == *y,
        (KeyPart::Text(x), KeyPart::Text(y)) => text_equal(x.as_str(), y.as_str()),
        _ => false,
    }
}

/// Compares two keys: returns (a before b, a equal to b).
fn key_compare(a: &Vec<KeyPart>, b: &Vec<KeyPart>) -> (r: (bool, bool))
    ensures
        r.0 == key_before(key_view(a@), key_view(b@)),
        r.1 == (key_view(a@) == key_view(b@)),
{
    let n = a.len();
    let m = b.len();
    let ghost ka = key_view(a@);
    let ghost kb = key_view(b@);
    let mut i: usize = 0;
    assert(ka.skip(0) =~= ka);
    assert(kb.skip(0) =~= kb);
    while i < n && i < m
        invariant
            n == a@.len(),
            m == b@.len(),
            ka == key_view(a@),
            kb == key_view(b@),
            0 <= i <= n,
            i <= m,
            forall|k: int| 0 <= k < i ==> ka[k] == kb[k],
            key_before(ka, kb) == key_before(ka.skip(i as int), kb.skip(i as int)),
        decreases n - i,
    {
        proof {
            let sa = ka.skip(i as int);
            let sb = kb.skip(i as int);
            assert(sa[0] == part_view(a@[i as int]));
            assert(sb[0] == part_view(b@[i as int]));
            assert(sa.drop_first() =~= ka.skip(i + 1));
            assert(sb.drop_first() =~= kb.skip(i + 1));
        }
        if !part_equal(&a[i], &b[i]) {
            let before = part_is_before(&a[i], &b[i]);
            proof {
                if ka == kb {
                    assert(ka[i as int] == kb[i as int]);
                }
            }
            return (before, false);
        }
        i = i + 1;
    }
    proof {
        if i == n && i == m {
            assert(ka =~= kb);
        } else {
            if ka == kb {
                assert(ka.len() == kb.len());
            }
        }
    }
    (i < m && i == n, i == n && i == m)
}

/// Stable sort of the row indices `rows` (ascending and below
/// `keys.len()`) by their keys.
pub fn sort_rows(keys: &Vec<Vec<KeyPart>>, rows: Vec<usize>) -> (out: Vec<usize>)
    requires
        forall|p: int| 0 <= p < rows@.len() ==> #[trigger] rows@[p] < keys@.len(),
        forall|p: int, q: int| 0 <= p < q < rows@.len() ==> rows@[p] < rows@[q],
    ensures
        out@.len() == rows@.len(),
        forall|x: usize| #[trigger] out@.contains(x) <==> rows@.contains(x),
        in_display_order(keys@.map_values(|k: Vec<KeyPart>| key_view(k@)), out@),
{
    let ghost kv = keys@.map_values(|k: Vec<KeyPart>| key_view(k@));
    let n = rows.len();
    let mut out: Vec<usize> = Vec::new();
    let mut i: usize = 0;
    while i < n
        invariant
            n == rows@.len(),
            kv == keys@.map_values(|k: Vec<KeyPart>| key_view(k@)),
            kv.len() == keys@.len(),
            forall|p: int| 0 <= p < rows@.len() ==> #[trigger] rows@[p] < keys@.len(),
            forall|p: int, q: int| 0 <= p < q < rows@.len() ==> rows@[p] < rows@[q],
            0 <= i <= n,
            out@.len() == i,
            forall|x: usize| #[trigger] out@.contains(x) <==> rows@.take(i as int).contains(x),
            in_display_order(kv, out@),
        decreases n - i,
    {
        let r = rows[i];
        let ghost kr = kv[r as int];
        let ghost old_out = out@;
        // `r` is larger than every index already placed.
        assert forall|p: int| 0 <= p < out@.len() implies (#[trigger] out@[p]) < r by {
            assert(out@.contains(out@[p]));
            assert(rows@.take(i as int).contains(out@[p]));
            let q = choose|q: int| 0 <= q < i && rows@.take(i as int)[q] == out@[p];
            assert(rows@[q] == out@[p]);
        }
        let mut pos: usize = 0;
        loop
            invariant
                out@ == old_out,
                0 <= pos <= out@.len(),
                kv == keys@.map_values(|k: Vec<KeyPart>| key_view(k@)),
                kv.len() == keys@.len(),
                r < keys@.len(),
                kr == kv[r as int],
                forall|p: int| 0 <= p < out@.len() ==> (#[trigger] out@[p]) < r,
                forall|p: int| 0 <= p < out@.len() ==> (#[trigger] out@[p]) < keys@.len(),
                forall|p: int|
                    0 <= p < pos ==> row_before(
                        kv[#[trigger] out@[p] as int],
                        out@[p] as int,
                        kr,
                        r as int,
                    ),
            ensures
                out@ == old_out,
                0 <= pos <= out@.len(),
                forall|p: int|
                    0 <= p < pos ==> row_before(
                        kv[#[trigger] out@[p] as int],
                        out@[p] as int,
                        kr,
                        r as int,
                    ),
                pos < out@.len() ==> !row_before(
                    kv[out@[pos as int] as int],
                    out@[pos as int] as int,
                    kr,
                    r as int,
                ),
            decreases out@.len() - pos,
        {
            if pos >= out.len() {
                break;
            }
            let (before, equal) = key_compare(&keys[out[pos]], &keys[r]);
            if !(before || equal) {
                break;
            }
            pos = pos + 1;
        }
        proof {
            // Everything from `pos` on comes after `r`.
            assert forall|p: int| pos <= p < out@.len() implies row_before(
                kr,
                r as int,
                kv[#[trigger] out@[p] as int],
                out@[p] as int,
            ) by {
                if p == pos {
                    lemma_row_before_total(kr, r as int, kv[out@[p] as int], out@[p] as int);
                } else {
                    let a = out@[pos as int];
                    lemma_row_before_total(kr, r as int, kv[a as int], a as int);
                    lemma_row_before_transitive(
                        kr,
                        r as int,
                        kv[a as int],
                        a as int,
                        kv[out@[p] as int],
                        out@[p] as int,
                    );
                }
            }
        }
        out.insert(pos, r);
        proof {
            let new_out = out@;
            assert forall|p: int, q: int| 0 <= p < q < new_out.len() implies row_before(
                kv[new_out[p] as int],
                new_out[p] as int,
                kv[new_out[q] as int],
                new_out[q] as int,
            ) by {
                if q < pos {
                    assert(new_out[p] == old_out[p] && new_out[q] == old_out[q]);
                } else if q == pos {
                    assert(new_out[p] == old_out[p]);
                } else if p == pos {
                    assert(new_out[q] == old_out[q - 1]);
                } else if p < pos {
                    assert(new_out[p] == old_out[p] && new_out[q] == old_out[q - 1]);
                } else {
                    assert(new_out[p] == old_out[p - 1] && new_out[q] == old_out[q - 1]);
                }
            }
            assert forall|x: usize| #[trigger] new_out.contains(x) <==> rows@.take(
                i + 1,
            ).contains(x) by {
                assert(rows@.take(i + 1) =~= rows@.take(i as int).push(r));
                if new_out.contains(x) {
                    let p = choose|p: int| 0 <= p < new_out.len() && new_out[p] == x;
                    if p < pos {
                        assert(old_out[p] == x);
                        assert(old_out.contains(x));
                    } else if p > pos {
                        assert(old_out[p - 1] == x);
                        assert(old_out.contains(x));
                    }
                    if x != r {
                        assert(rows@.take(i as int).contains(x));
                        let q = choose|q: int| 0 <= q < i && #[trigger] rows@.take(i as int)[q] == x;
                        assert(rows@.take(i + 1)[q] == x);
                    } else {
                        assert(rows@.take(i + 1)[i as int] == x);
                    }
                }
                if rows@.take(i + 1).contains(x) {
                    if x == r {
                        assert(new_out[pos as int] == r);
                    } else {
                        let q = choose|q: int| 0 <= q < i + 1 && #[trigger] rows@.take(i + 1)[q] == x;
                        assert(q < i);
                        assert(rows@.take(i as int)[q] == x);
                        assert(rows@.take(i as int).contains(x));
                        assert(old_out.contains(x));
                        let p = choose|p: int| 0 <= p < old_out.len() && old_out[p] == x;
                        if p < pos {
                            assert(new_out[p] == x);
                        } else {
                            assert(new_out[p + 1] == x);
                        }
                    }
                }
            }
        }
        i = i + 1;
    }
    assert(rows@.take(n as int) =~= rows@);
    out
}


/// A display order lists each row at most once.
pub proof fn lemma_display_order_distinct(keys: Seq<Seq<PartView>>, order: Seq<usize>)
    requires
        in_display_order(keys, order),
    ensures
        order.no_duplicates(),
{
    assert forall|p: int, q: int| 0 <= p < order.len() && 0 <= q < order.len() && p != q implies order[p]
        != order[q] by {
        let (a, b) = if p < q { (p, q) } else { (q, p) };
        let k = keys[order[a] as int];
        lemma_row_before_total(k, order[a] as int, k, order[a] as int);
        assert(row_before(
            keys[order[a] as int],
            order[a] as int,
            keys[order[b] as int],
            order[b] as int,
        ));
    }
}

/// Filtering with a looser test never shows fewer rows: when every row
/// kept by `keep1` is also kept by `keep2`, a display order for `keep1`
/// is no longer than one for `keep2` (whatever the sort keys).
pub proof fn lemma_display_order_len_le(
    keys1: Seq<Seq<PartView>>,
    keep1: spec_fn(int) -> bool,
    order1: Seq<usize>,
    keys2: Seq<Seq<PartView>>,
    keep2: spec_fn(int) -> bool,
    order2: Seq<usize>,
    n: int,
)
    requires
        is_display_order(keys1, keep1, n, order1),
        is_display_order(keys2, keep2, n, order2),
        forall|i: int| 0 <= i < n && #[trigger] keep1(i) ==> keep2(i),
    ensures
        order1.len() <= order2.len(),
{
    lemma_display_order_distinct(keys1, order1);
    lemma_display_order_distinct(keys2, order2);
    order1.unique_seq_to_set();
    order2.unique_seq_to_set();
    assert forall|x: usize| order1.to_set().contains(x) implies order2.to_set().contains(x) by {
        let p = choose|p: int| 0 <= p < order1.len() && order1[p] == x;
        assert(0 <= order1[p] < n && keep1(order1[p] as int));
        assert(order2.contains(x as int as usize));
    }
    vstd::seq_lib::seq_to_set_is_finite(order2);
    vstd::set_lib::lemma_len_subset(order1.to_set(), order2.to_set());
}

/// Two display orders of the same rows (same filter, any sort keys) have
/// the same length: re-sorting never changes how many rows are shown.
pub proof fn lemma_display_order_same_len(
    keys1: Seq<Seq<PartView>>,
    keys2: Seq<Seq<PartView>>,
    keep: spec_fn(int) -> bool,
    n: int,
    order1: Seq<usize>,
    order2: Seq<usize>,
)
    requires
        is_display_order(keys1, keep, n, order1),
        is_display_order(keys2, keep, n, order2),
    ensures
        order1.len() == order2.len(),
{
    lemma_display_order_len_le(keys1, keep, order1, keys2, keep, order2, n);
    lemma_display_order_len_le(keys2, keep, order2, keys1, keep, order1, n);
}

/// The display order is determined by its input: two display orders of
/// the same rows under the same keys are the same sequence (the sort is
/// stable, so ties never reorder rows from one refresh to the next).
pub proof fn lemma_display_order_unique(
    keys: Seq<Seq<PartView>>,
    keep: spec_fn(int) -> bool,
    n: int,
    order1: Seq<usize>,
    order2: Seq<usize>,
)
    requires
        is_display_order(keys, keep, n, order1),
        is_display_order(keys, keep, n, order2),
    ensures
        order1 == order2,
{
    lemma_display_order_same_len(keys, keys, keep, n, order1, order2);
    lemma_display_order_distinct(keys, order1);
    lemma_display_order_distinct(keys, order2);
    if exists|p: int| 0 <= p < order1.len() && order1[p] != order2[p] {
        lemma_first_difference(order1, order2);
        let p = choose|p: int| 0 <= p < order1.len() && order1[p] != order2[p]
            && forall|t: int| 0 <= t < p ==> order1[t] == order2[t];
        assert(false) by {
            let x = order1[p];
            let y = order2[p];
            assert(0 <= x < n && keep(x as int));
            assert(0 <= y < n && keep(y as int));
            assert(order2.contains(x as int as usize));
            assert(order1.contains(y as int as usize));
            let q = choose|q: int| 0 <= q < order2.len() && order2[q] == x;
            let r = choose|r: int| 0 <= r < order1.len() && order1[r] == y;
            if q < p {
                assert(order1[q] == x);
            }
            if r < p {
                assert(order2[r] == y);
            }
            assert(q > p);
            assert(r > p);
            assert(row_before(keys[y as int], y as int, keys[x as int], x as int));
            assert(row_before(keys[x as int], x as int, keys[y as int], y as int));
            lemma_row_before_total(keys[x as int], x as int, keys[y as int], y as int);
        }
    }
    assert(order1 =~= order2);
}

/// Along a display order, a numeric leading sort part never decreases:
/// the row shown first has the smaller (or equal) leading value.
pub proof fn lemma_display_first_num(
    keys: Seq<Seq<PartView>>,
    keep: spec_fn(int) -> bool,
    n: int,
    order: Seq<usize>,
    p: int,
    q: int,
    x: int,
    y: int,
)
    requires
        is_display_order(keys, keep, n, order),
        0 <= p < q < order.len(),
        keys[order[p] as int].len() > 0,
        keys[order[q] as int].len() > 0,
        keys[order[p] as int][0] == PartView::Num(x),
        keys[order[q] as int][0] == PartView::Num(y),
    ensures
        x <= y,
{
    let kp = keys[order[p] as int];
    let kq = keys[order[q] as int];
    assert(row_before(kp, order[p] as int, kq, order[q] as int));
    if kp == kq {
        assert(kp[0] == kq[0]);
    }
}

/// Along a display order, when two rows tie on a numeric leading part,
/// their numeric second part never decreases.
pub proof fn lemma_display_second_num(
    keys: Seq<Seq<PartView>>,
    keep: spec_fn(int) -> bool,
    n: int,
    order: Seq<usize>,
    p: int,
    q: int,
    x: int,
    y1: int,
    y2: int,
)
    requires
        is_display_order(keys, keep, n, order),
        0 <= p < q < order.len(),
        keys[order[p] as int].len() > 1,
        keys[order[q] as int].len() > 1,
        keys[order[p] as int][0] == PartView::Num(x),
        keys[order[q] as int][0] == PartView::Num(x),
        keys[order[p] as int][1] == PartView::Num(y1),
        keys[order[q] as int][1] == PartView::Num(y2),
    ensures
        y1 <= y2,
{
    let kp = keys[order[p] as int];
    let kq = keys[order[q] as int];
    assert(row_before(kp, order[p] as int, kq, order[q] as int));
    if kp == kq {
        assert(kp[1] == kq[1]);
    } else {
        assert(key_before(kp, kq));
        assert(kp.drop_first()[0] == kp[1]);
        assert(kq.drop_first()[0] == kq[1]);
        assert(key_before(kp.drop_first(), kq.drop_first()));
    }
}

/// Two sequences of the same length that differ somewhere differ at a
/// first position, before which they agree.
proof fn lemma_first_difference(a: Seq<usize>, b: Seq<usize>)
    requires
        a.len() == b.len(),
        exists|p: int| 0 <= p < a.len() && a[p] != b[p],
    ensures
        exists|p: int| 0 <= p < a.len() && a[p] != b[p] && forall|t: int| 0 <= t < p ==> a[t] == b[t],
    decreases a.len(),
{
    if a[0] != b[0] {
        assert(forall|t: int| 0 <= t < 0 ==> a[t] == b[t]);
    } else {
        let p0 = choose|p: int| 0 <= p < a.len() && a[p] != b[p];
        assert(a.drop_first()[p0 - 1] != b.drop_first()[p0 - 1]);
        lemma_first_difference(a.drop_first(), b.drop_first());
        let p1 = choose|p: int| 0 <= p < a.len() - 1 && a.drop_first()[p] != b.drop_first()[p]
            && forall|t: int| 0 <= t < p ==> a.drop_first()[t] == b.drop_first()[t];
        assert(a[p1 + 1] != b[p1 + 1]);
        assert forall|t: int| 0 <= t < p1 + 1 implies a[t] == b[t] by {
            if t > 0 {
                assert(a.drop_first()[t - 1] == b.drop_first()[t - 1]);
            }
        }
    }
}

} // verus!
