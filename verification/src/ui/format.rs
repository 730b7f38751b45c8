//! Pure formatting helpers: total `value -> String` mappings for the header,
//! the vitals cards and the lens tables.
use vstd::prelude::*;
use vstd::string::*;
use vstd::arithmetic::power2::{pow2, lemma2_to64, lemma2_to64_rest, lemma_pow2_unfold};
use crate::binary64::{round_half_even, round_half_even_u128, to_binary64, to_binary64_u64};
use crate::text::{decimal, digit_char, push_char, push_decimal, push_str};

verus! {

/// Server uptime: `3d 4h`, `4h 27m`, `27m`, `42s` — the two largest
/// non-zero units among days/hours, or just minutes, or just seconds.
pub open spec fn uptime_text(secs: nat) -> Seq<char> {
    let days = secs / 86400;
    let hours = (secs % 86400) / 3600;
    let mins = (secs % 3600) / 60;
    if days > 0 {
        decimal(days) + "d "@ + decimal(hours) + "h"@
    } else if hours > 0 {
        decimal(hours) + "h "@ + decimal(mins) + "m"@
    } else if mins > 0 {
        decimal(mins) + "m"@
    } else {
        decimal(secs) + "s"@
    }
}

pub fn human_uptime(secs: u64) -> (r: String)
    ensures
        r@ == uptime_text(secs as nat),
{
    let days = secs / 86_400;
    let hours = (secs % 86_400) / 3_600;
    let mins = (secs % 3_600) / 60;
    let mut out = String::new();
    if days > 0 {
        push_decimal(&mut out, days as u128);
        push_str(&mut out, "d ");
        push_decimal(&mut out, hours as u128);
        push_str(&mut out, "h");
    } else if hours > 0 {
        push_decimal(&mut out, hours as u128);
        push_str(&mut out, "h ");
        push_decimal(&mut out, mins as u128);
        push_str(&mut out, "m");
    } else if mins > 0 {
        push_decimal(&mut out, mins as u128);
        push_str(&mut out, "m");
    } else {
        push_decimal(&mut out, secs as u128);
        push_str(&mut out, "s");
    }
    assert(out@ =~= uptime_text(secs as nat));
    out
}

/// `text` cut to at most `width` characters, the last kept position spent
/// on `…` when anything was cut; empty for `width == 0`.
pub open spec fn truncated(text: Seq<char>, width: nat) -> Seq<char> {
    if text.len() <= width {
        text
    } else if width == 0 {
        Seq::empty()
    } else {
        text.take(width - 1).push('\u{2026}')
    }
}

pub fn truncate_with_ellipsis(text: &str, width: usize) -> (r: String)
    ensures
        r@ == truncated(text@, width as nat),
        r@.len() <= width || r@ == text@,
{
    let n = text.unicode_len();
    if n <= width {
        return String::from_str(text);
    }
    if width == 0 {
        return String::new();
    }
    let kept = text.substring_char(0, width - 1);
    let mut out = String::from_str(kept);
    push_char(&mut out, '\u{2026}');
    assert(out@ =~= truncated(text@, width as nat));
    out
}

/// A value given in tenths, printed with exactly one decimal (`{:.1}`).
pub open spec fn tenths_text(t: nat) -> Seq<char> {
    decimal(t / 10) + seq!['.', digit_char(t % 10)]
}

/// Appends `t / 10` with one decimal.
pub fn push_tenths(out: &mut String, t: u128)
    ensures
        final(out)@ == old(out)@ + tenths_text(t as nat),
{
    push_decimal(out, t / 10);
    push_char(out, '.');
    let d = t % 10;
    let c = if d == 0 { '0' } else if d == 1 { '1' } else if d == 2 { '2' } else if d == 3 { '3' } else if d == 4 { '4' } else if d == 5 { '5' } else if d == 6 { '6' } else if d == 7 { '7' } else if d == 8 { '8' } else { '9' };
    push_char(out, c);
    assert(final(out)@ =~= old(out)@ + tenths_text(t as nat));
}

/// 1024-based unit index of a byte count: B, KB, MB, GB, TB.
pub open spec fn byte_unit(f: nat) -> nat {
    if f >= pow2(40) {
        4
    } else if f >= pow2(30) {
        3
    } else if f >= pow2(20) {
        2
    } else if f >= pow2(10) {
        1
    } else {
        0
    }
}

pub open spec fn byte_unit_name(u: nat) -> Seq<char> {
    if u == 0 {
        "B"@
    } else if u == 1 {
        "KB"@
    } else if u == 2 {
        "MB"@
    } else if u == 3 {
        "GB"@
    } else {
        "TB"@
    }
}

/// Human byte size, 1024-based: `512 B`, `3.4 MB`, `1.2 GB`; negative
/// counts show as `0 B`. The count is taken as a binary64 value (exact below
/// 2^53) and printed with one decimal, ties to even.
pub open spec fn bytes_text(bytes: int) -> Seq<char> {
    let b: nat = if bytes < 0 { 0 } else { bytes as nat };
    let f = to_binary64(b);
    let u = byte_unit(f);
    if u == 0 {
        decimal(f) + " B"@
    } else {
        tenths_text(round_half_even(f * 10, pow2(10 * u))) + " "@ + byte_unit_name(u)
    }
}

pub fn human_bytes(bytes: i64) -> (r: String)
    ensures
        r@ == bytes_text(bytes as int),
{
    proof {
        lemma2_to64();
        lemma2_to64_rest();
    }
    let b: u64 = if bytes < 0 { 0 } else { bytes as u64 };
    let f = to_binary64_u64(b);
    let (u, name, scale): (u32, &str, u128) = if f >= 0x100_0000_0000 {
        (4, "TB", 0x100_0000_0000)
    } else if f >= 0x4000_0000 {
        (3, "GB", 0x4000_0000)
    } else if f >= 0x10_0000 {
        (2, "MB", 0x10_0000)
    } else if f >= 0x400 {
        (1, "KB", 0x400)
    } else {
        (0, "B", 1)
    };
    assert(u == byte_unit(f as nat));
    assert(name@ == byte_unit_name(u as nat));
    assert(scale == pow2(10 * u as nat));
    let mut out = String::new();
    if u == 0 {
        push_decimal(&mut out, f);
        push_str(&mut out, " B");
    } else {
        let t = round_half_even_u128(f * 10, scale);
        push_tenths(&mut out, t);
        push_str(&mut out, " ");
        push_str(&mut out, name);
    }
    assert(out@ =~= bytes_text(bytes as int));
    out
}

/// Database size cell of the database picker: the human size, or `—` when
/// unknown.
pub open spec fn size_cell(size_bytes: Option<i64>) -> Seq<char> {
    match size_bytes {
        Some(b) => bytes_text(b as int),
        None => seq!['\u{2014}'],
    }
}


/// The shift `k` (at most 60) that brings `a / s` into `[2^52, 2^53)` as
/// `a * 2^k / s`: the exponent at which a binary64 quotient is rounded.
pub open spec fn shift_for(a: nat, s: nat, k: nat) -> nat
    decreases 60 - k,
{
    if k >= 60 || a * pow2(k) >= pow2(52) * s {
        k
    } else {
        shift_for(a, s, k + 1)
    }
}

/// `n / s` taken as binary64 values and divided (round to nearest, ties to
/// even: the significand `m` at shift `k`), printed as `{:.1}` below 100
/// and `{:.0}` from 100 on (each rounding ties to even).
pub open spec fn scaled_text(n: nat, s: nat) -> Seq<char> {
    let a = to_binary64(n);
    let k = shift_for(a, s, 0);
    let m = round_half_even(a * pow2(k), s);
    if m < 100 * pow2(k) {
        tenths_text(round_half_even(m * 10, pow2(k)))
    } else {
        decimal(round_half_even(m, pow2(k)))
    }
}

/// Compact decimal count: `988`, `14.2K`, `500K`, `1.2M`, `3.4B`;
/// negative counts show as `0`.
pub open spec fn count_text(n: int) -> Seq<char> {
    let v: nat = if n < 0 { 0 } else { n as nat };
    if v >= 1_000_000_000 {
        scaled_text(v, 1_000_000_000) + "B"@
    } else if v >= 1_000_000 {
        scaled_text(v, 1_000_000) + "M"@
    } else if v >= 1000 {
        scaled_text(v, 1000) + "K"@
    } else {
        decimal(v)
    }
}

fn push_scaled(out: &mut String, n: u64, s: u64)
    requires
        n <= i64::MAX,
        1000 <= s <= 1_000_000_000,
    ensures
        final(out)@ == old(out)@ + scaled_text(n as nat, s as nat),
{
    proof {
        lemma2_to64();
        lemma2_to64_rest();
    }
    let a = to_binary64_u64(n);
    let s128 = s as u128;
    let limit: u128 = 0x10_0000_0000_0000u128 * s128;
    let mut k: u32 = 0;
    let mut p: u128 = 1;
    assert(a * p <= 0x8000_0000_0000_0800u128 * 0x1000_0000_0000_0000u128);
    while k < 60 && a * p < limit
        invariant
            a == to_binary64(n as nat),
            a <= 0x8000_0000_0000_0800u128,
            limit == pow2(52) * s,
            0 <= k <= 60,
            p == pow2(k as nat),
            p <= 0x1000_0000_0000_0000u128,
            a * p <= 0x8000_0000_0000_0800u128 * 0x1000_0000_0000_0000u128,
            shift_for(a as nat, s as nat, 0) == shift_for(a as nat, s as nat, k as nat),
        decreases 60 - k,
    {
        proof {
            lemma2_to64_rest();
            lemma_pow2_unfold((k + 1) as nat);
            if k < 59 {
                vstd::arithmetic::power2::lemma_pow2_strictly_increases(k as nat, 59);
            }
            assert(p <= 0x0800_0000_0000_0000u128);
        }
        k = k + 1;
        p = p * 2;
        assert(a * p <= 0x8000_0000_0000_0800u128 * 0x1000_0000_0000_0000u128) by (nonlinear_arith)
            requires
                a <= 0x8000_0000_0000_0800u128,
                p <= 0x1000_0000_0000_0000u128,
                a >= 0,
                p >= 0;
    }
    let m = round_half_even_u128(a * p, s128);
    proof {
        crate::binary64::lemma_round_half_even_bound((a * p) as nat, s as nat);
    }
    if m < 100 * p {
        let t = round_half_even_u128(m * 10, p);
        push_tenths(out, t);
    } else {
        let u = round_half_even_u128(m, p);
        push_decimal(out, u);
    }
}

/// Compact human tuple/scan count (decimal, not 1024-based): `988`,
/// `14.2K`, `1.2M`, `3.4B`; negative counts show as `0`.
pub fn human_count(n: i64) -> (r: String)
    ensures
        r@ == count_text(n as int),
{
    let v: u64 = if n < 0 { 0 } else { n as u64 };
    let mut out = String::new();
    if v >= 1_000_000_000 {
        push_scaled(&mut out, v, 1_000_000_000);
        push_str(&mut out, "B");
    } else if v >= 1_000_000 {
        push_scaled(&mut out, v, 1_000_000);
        push_str(&mut out, "M");
    } else if v >= 1000 {
        push_scaled(&mut out, v, 1000);
        push_str(&mut out, "K");
    } else {
        push_decimal(&mut out, v as u128);
    }
    assert(out@ =~= count_text(n as int));
    out
}

} // verus!
