//! Column-width math and the buffer-hit cell of the Query Lens table.
use vstd::prelude::*;
use vstd::arithmetic::power2::{pow2, lemma2_to64, lemma2_to64_rest, lemma_pow2_unfold, lemma_pow2_strictly_increases, lemma_pow2_pos, lemma_pow2_adds};
use crate::binary64::{round_half_even, round_half_even_u128, to_binary64, to_binary64_u64, to_binary64_u128, lemma_round_half_even_bound};
use crate::text::push_str;
use crate::ui::format::{push_tenths, tenths_text};

verus! {

/// Fixed columns: calls, total, mean, rows, hit%.
pub const FIXED_WIDTHS_SUM: u16 = 40;
pub const HIGHLIGHT_WIDTH: u16 = 2;
pub const COLUMN_SPACING: u16 = 1;

/// Width left for the query text (saturating at 0 on narrow terminals).
pub open spec fn query_column_width_spec(area_width: int) -> int {
    let overhead = 2 + HIGHLIGHT_WIDTH + FIXED_WIDTHS_SUM + 5 * COLUMN_SPACING;
    if area_width > overhead { area_width - overhead } else { 0 }
}

pub fn query_column_width(area_width: u16) -> (r: usize)
    ensures
        r == query_column_width_spec(area_width as int),
{
    let overhead: u16 = 2 + HIGHLIGHT_WIDTH + FIXED_WIDTHS_SUM + 5 * COLUMN_SPACING;
    area_width.saturating_sub(overhead) as usize
}

/// For `a / t >= 2^53`: the `j` with `2^(52+j) t <= a < 2^(53+j) t`.
pub open spec fn up_shift(a: nat, t: nat, j: nat) -> nat
    decreases 20 - j,
{
    if j >= 20 || a < pow2(53 + j) * t {
        j
    } else {
        up_shift(a, t, j + 1)
    }
}

/// For `a / t < 2^53`: the `k` with `2^52 t <= a 2^k < 2^53 t`.
pub open spec fn down_shift(a: nat, t: nat, k: nat) -> nat
    decreases 128 - k,
{
    if k >= 128 || a * pow2(k) >= pow2(52) * t {
        k
    } else {
        down_shift(a, t, k + 1)
    }
}

/// Tenths of `a / t` as a binary64 quotient (rounded to nearest, ties to
/// even, at the spacing of its binade) printed with `{:.1}` (ties to even).
pub open spec fn quotient_tenths(a: nat, t: nat) -> nat {
    if a >= pow2(53) * t {
        let j = up_shift(a, t, 1);
        round_half_even(a, t * pow2(j)) * pow2(j) * 10
    } else {
        let k = down_shift(a, t, 0);
        round_half_even(round_half_even(a * pow2(k), t) * 10, pow2(k))
    }
}

fn down_quotient_tenths(a: u128, t: u128) -> (r: u128)
    requires
        0 < a,
        a < pow2(53) * t,
        0 < t < 0x1_0000_0000_0000_0000u128,
    ensures
        r == quotient_tenths(a as nat, t as nat),
{
    proof {
        lemma2_to64();
        lemma2_to64_rest();
        assert(pow2(52) * t <= 0x10_0000_0000_0000u128 * 0x1_0000_0000_0000_0000u128) by (nonlinear_arith)
            requires pow2(52) == 0x10_0000_0000_0000u128, t <= 0x1_0000_0000_0000_0000u128;
    }
    let limit: u128 = 0x10_0000_0000_0000u128 * t;
    let mut k: u32 = 0;
    let mut p: u128 = 1;
    while k < 128 && a * p < limit
        invariant
            0 < a,
            0 < t < 0x1_0000_0000_0000_0000u128,
            limit == pow2(52) * t,
            limit <= 0x10_0000_0000_0000u128 * 0x1_0000_0000_0000_0000u128,
            p == pow2(k as nat),
            k <= 128,
            a * p < 2 * limit,
            down_shift(a as nat, t as nat, 0) == down_shift(a as nat, t as nat, k as nat),
        decreases 128 - k,
    {
        proof {
            lemma_pow2_unfold((k + 1) as nat);
            assert(a * (p * 2) == 2 * (a * p)) by (nonlinear_arith);
            assert(p <= a * p) by (nonlinear_arith)
                requires a >= 1, p >= 0;
        }
        k = k + 1;
        p = p * 2;
    }
    proof {
        lemma_pow2_pos(k as nat);
        assert(p <= a * p) by (nonlinear_arith)
            requires a >= 1, p >= 0;
        if k == 128 {
            lemma_pow2_strictly_increases(117, 128);
            lemma_pow2_adds(53, 64);
            assert(false);
        }
        lemma_round_half_even_bound((a * p) as nat, t as nat);
        assert((a * p) as nat / t as nat <= 2 * pow2(52)) by (nonlinear_arith)
            requires a * p < 2 * (pow2(52) * t), t > 0;
    }
    let m = round_half_even_u128(a * p, t);
    round_half_even_u128(m * 10, p)
}

fn up_quotient_tenths(a: u128, t: u128) -> (r: u128)
    requires
        a < 0x100_0000_0000_0000_0000u128,
        a >= pow2(53) * t,
        0 < t,
    ensures
        r == quotient_tenths(a as nat, t as nat),
{
    proof {
        lemma2_to64();
        lemma2_to64_rest();
        assert(t < 0x8_0000) by (nonlinear_arith)
            requires a >= pow2(53) * t, a < 0x100_0000_0000_0000_0000u128, pow2(53) == 0x20_0000_0000_0000u128;
    }
    let base: u128 = 0x20_0000_0000_0000u128 * t;
    let mut j: u32 = 1;
    let mut p: u128 = 2;
    proof {
        lemma_pow2_unfold(1);
        lemma_pow2_unfold(54);
        assert(base * p == pow2(54) * t) by (nonlinear_arith)
            requires base == pow2(53) * t, p == 2, pow2(54) == 2 * pow2(53);
        assert(base * p <= 0x20_0000_0000_0000u128 * 0x8_0000 * 0x10_0000) by (nonlinear_arith)
            requires base == 0x20_0000_0000_0000u128 * t, t < 0x8_0000, p == 2;
    }
    while j < 20 && a >= base * p
        invariant
            t < 0x8_0000,
            0 < t,
            base == pow2(53) * t,
            base == 0x20_0000_0000_0000u128 * t,
            a < 0x100_0000_0000_0000_0000u128,
            1 <= j <= 20,
            p == pow2(j as nat),
            p <= 0x10_0000,
            base * p <= 0x20_0000_0000_0000u128 * 0x8_0000 * 0x10_0000,
            base * p == pow2(53 + j as nat) * t,
            up_shift(a as nat, t as nat, 1) == up_shift(a as nat, t as nat, j as nat),
        decreases 20 - j,
    {
        proof {
            lemma2_to64();
            lemma_pow2_unfold((j + 1) as nat);
            lemma_pow2_unfold((53 + j + 1) as nat);
            assert(base * (p * 2) == 2 * (base * p)) by (nonlinear_arith);
            assert(2 * (pow2((53 + j) as nat) * t) == pow2((53 + j + 1) as nat) * t) by (nonlinear_arith)
                requires pow2((53 + j + 1) as nat) == 2 * pow2((53 + j) as nat);
            if j < 19 {
                lemma_pow2_strictly_increases((j + 1) as nat, 20);
            }
            assert(base * (p * 2) <= 0x20_0000_0000_0000u128 * 0x8_0000 * 0x10_0000) by (nonlinear_arith)
                requires base == 0x20_0000_0000_0000u128 * t, t < 0x8_0000, p * 2 <= 0x10_0000;
        }
        j = j + 1;
        p = p * 2;
    }
    proof {
        lemma_pow2_pos(j as nat);
        assert(t * p >= 1) by (nonlinear_arith)
            requires t >= 1, p >= 1;
        assert(t * p <= 0x8_0000 * 0x10_0000) by (nonlinear_arith)
            requires t < 0x8_0000, p <= 0x10_0000;
        lemma_round_half_even_bound(a as nat, (t * p) as nat);
        assert(a as nat / (t * p) as nat <= a as nat) by (nonlinear_arith)
            requires t * p >= 1;
    }
    let m = round_half_even_u128(a, t * p);
    assert(m <= a + 1);
    assert(m * p <= (a + 1) * 0x10_0000) by (nonlinear_arith)
        requires m <= a + 1, p <= 0x10_0000, m >= 0;
    m * p * 10
}

/// The cache hit cell: `—` when no shared block was touched, else
/// `hit * 100 / (hit + read)` computed in binary64 (`hit as f64 * 100.0 /
/// total as f64`) and printed with one decimal and a `%`.
pub open spec fn hit_pct_text(hit: int, read: int) -> Seq<char> {
    let total = hit + read;
    if total <= 0 {
        "\u{2014}"@
    } else {
        let h = to_binary64((if hit < 0 { -hit } else { hit }) as nat);
        let a = to_binary64(h * 100);
        let t = to_binary64(total as nat);
        let tenths = if a == 0 { 0 } else { quotient_tenths(a, t) };
        (if hit < 0 { "-"@ } else { Seq::<char>::empty() }) + tenths_text(tenths) + "%"@
    }
}

/// Buffer hit ratio cell of the Query Lens (`—` when nothing was read or
/// hit).
pub fn hit_pct_cell(hit: i64, read: i64) -> (r: String)
    requires
        i64::MIN <= hit + read <= i64::MAX,
    ensures
        r@ == hit_pct_text(hit as int, read as int),
{
    let total = hit + read;
    let mut out = String::new();
    if total <= 0 {
        push_str(&mut out, "\u{2014}");
        return out;
    }
    proof {
        lemma2_to64();
        lemma2_to64_rest();
    }
    let mag: u64 = if hit < 0 { (0i128 - hit as i128) as u64 } else { hit as u64 };
    let h = to_binary64_u64(mag);
    assert(h * 100 < 0x100_0000_0000_0000_0000u128);
    let a = to_binary64_u128(h * 100);
    let t = to_binary64_u64(total as u64);
    proof {
        assert(t > 0) by {
            crate::binary64::lemma_to_binary64_pos(total as nat);
        }
    }
    let tenths: u128 = if a == 0 {
        0
    } else if a >= 0x20_0000_0000_0000u128 * t {
        up_quotient_tenths(a, t)
    } else {
        down_quotient_tenths(a, t)
    };
    if hit < 0 {
        push_str(&mut out, "-");
    }
    push_tenths(&mut out, tenths);
    push_str(&mut out, "%");
    proof {
        reveal_strlit("-");
    }
    assert(out@ =~= hit_pct_text(hit as int, read as int));
    out
}

} // verus!
