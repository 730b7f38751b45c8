//! Exact integer model of the few IEEE-754 binary64 steps the dashboard's
//! number formatting performs (an integer converted to `f64`, divided, and
//! printed with a fixed number of decimals), so the rendered text can be
//! computed and specified without floating point. Rounding is always to
//! nearest, ties to even — both for the binary64 results and for the
//! decimal digits printed by `{:.N}`.
use vstd::prelude::*;
use vstd::arithmetic::power2::{pow2, lemma_pow2_pos, lemma_pow2_unfold, lemma2_to64, lemma_pow2_strictly_increases};
use vstd::arithmetic::div_mod::{lemma_fundamental_div_mod, lemma_mod_bound, lemma_div_denominator};

verus! {

/// `n / d` rounded to the nearest integer, ties to the even neighbour.
pub open spec fn round_half_even(n: nat, d: nat) -> nat {
    let q = n / d;
    let r = n % d;
    if 2 * r > d || (2 * r == d && q % 2 == 1) {
        q + 1
    } else {
        q
    }
}

/// How many low bits of `b` fall below a 53-bit significand.
pub open spec fn excess_bits(b: nat) -> nat
    decreases b,
{
    if b < 0x20_0000_0000_0000 {
        0
    } else {
        1 + excess_bits(b / 2)
    }
}

/// The binary64 value nearest to the integer `b` (what `b as f64` holds),
/// ties to even.
pub open spec fn to_binary64(b: nat) -> nat {
    let s = excess_bits(b);
    round_half_even(b, pow2(s)) * pow2(s)
}

pub proof fn lemma_round_half_even_bound(n: nat, d: nat)
    requires
        d > 0,
    ensures
        round_half_even(n, d) <= n / d + 1,
        round_half_even(n, d) * d <= n + d,
        n / d <= n,
{
    lemma_fundamental_div_mod(n as int, d as int);
    lemma_mod_bound(n as int, d as int);
    let q = n / d;
    assert(q * d <= n) by (nonlinear_arith)
        requires d * q + n % d == n, n % d >= 0;
    assert(q <= n) by (nonlinear_arith)
        requires q * d <= n, d >= 1;
    assert((q + 1) * d <= n + d) by (nonlinear_arith)
        requires q * d <= n;
    assert(round_half_even(n, d) * d <= (q + 1) * d) by (nonlinear_arith)
        requires round_half_even(n, d) <= q + 1;
}

pub fn round_half_even_u128(n: u128, d: u128) -> (r: u128)
    requires
        d > 0,
        n < u128::MAX,
    ensures
        r == round_half_even(n as nat, d as nat),
{
    proof {
        lemma_round_half_even_bound(n as nat, d as nat);
    }
    let q = n / d;
    let rem = n % d;
    if rem > d - rem || (rem == d - rem && q % 2 == 1) {
        q + 1
    } else {
        q
    }
}

/// `b / 2^k / 2 == b / 2^(k+1)`.
proof fn lemma_halve(b: nat, k: nat)
    ensures
        b / pow2(k) / 2 == b / pow2(k + 1),
{
    lemma_pow2_pos(k);
    lemma_pow2_unfold(k + 1);
    lemma_div_denominator(b as int, pow2(k) as int, 2);
    assert(pow2(k) * 2 == pow2(k + 1));
}

/// `b as f64` for `b < 2^64`, as the exact integer value it holds.
pub fn to_binary64_u64(b: u64) -> (r: u128)
    ensures
        r == to_binary64(b as nat),
        r <= b as nat + 2048,
{
    proof {
        lemma2_to64();
    }
    let mut v: u64 = b;
    let mut s: u32 = 0;
    let mut p: u64 = 1;
    while v >= 0x20_0000_0000_0000
        invariant
            pow2(11) == 2048,
            p == pow2(s as nat),
            s <= 11,
            v == b as nat / pow2(s as nat),
            v as nat * pow2(s as nat) <= b as nat,
            excess_bits(b as nat) == s + excess_bits(v as nat),
        decreases v,
    {
        proof {
            lemma_halve(b as nat, s as nat);
            lemma_pow2_unfold((s + 1) as nat);
            if s == 11 {
                assert(v as nat * 2048 >= 0x20_0000_0000_0000 * 2048) by (nonlinear_arith)
                    requires v >= 0x20_0000_0000_0000;
                assert(false);
            }
            lemma_fundamental_div_mod(b as int, pow2((s + 1) as nat) as int);
            lemma_mod_bound(b as int, pow2((s + 1) as nat) as int);
            assert((v / 2) as nat * pow2((s + 1) as nat) <= b as nat) by (nonlinear_arith)
                requires
                    pow2((s + 1) as nat) * (b as nat / pow2((s + 1) as nat)) + b as nat % pow2(
                        (s + 1) as nat,
                    ) == b as nat,
                    b as nat % pow2((s + 1) as nat) >= 0,
                    (v / 2) as nat == b as nat / pow2((s + 1) as nat),
            ;
            assert(pow2((s + 1) as nat) <= 2048) by {
                if s + 1 < 11 {
                    lemma_pow2_strictly_increases((s + 1) as nat, 11);
                }
            }
        }
        v = v / 2;
        s = s + 1;
        p = p * 2;
    }
    proof {
        lemma_pow2_pos(s as nat);
        lemma_round_half_even_bound(b as nat, p as nat);
        assert(pow2(s as nat) <= 2048) by {
            if s < 11 {
                lemma_pow2_strictly_increases(s as nat, 11);
            }
        }
    }
    let q = round_half_even_u128(b as u128, p as u128);
    q * (p as u128)
}


/// `b as f64` for `b < 2^72` (such as a product of an `f64` integer and a
/// small factor), as the exact integer value it holds.
pub fn to_binary64_u128(b: u128) -> (r: u128)
    requires
        b < 0x100_0000_0000_0000_0000u128,
    ensures
        r == to_binary64(b as nat),
        r <= b as nat + 0x8_0000,
{
    proof {
        lemma2_to64();
    }
    let mut v: u128 = b;
    let mut s: u32 = 0;
    let mut p: u128 = 1;
    while v >= 0x20_0000_0000_0000
        invariant
            pow2(19) == 0x8_0000,
            p == pow2(s as nat),
            s <= 19,
            b < 0x100_0000_0000_0000_0000u128,
            v == b as nat / pow2(s as nat),
            v as nat * pow2(s as nat) <= b as nat,
            excess_bits(b as nat) == s + excess_bits(v as nat),
        decreases v,
    {
        proof {
            lemma_halve(b as nat, s as nat);
            lemma_pow2_unfold((s + 1) as nat);
            if s == 19 {
                assert(v as nat * 0x8_0000 >= 0x20_0000_0000_0000 * 0x8_0000) by (nonlinear_arith)
                    requires v >= 0x20_0000_0000_0000;
                assert(false);
            }
            lemma_fundamental_div_mod(b as int, pow2((s + 1) as nat) as int);
            lemma_mod_bound(b as int, pow2((s + 1) as nat) as int);
            assert((v / 2) as nat * pow2((s + 1) as nat) <= b as nat) by (nonlinear_arith)
                requires
                    pow2((s + 1) as nat) * (b as nat / pow2((s + 1) as nat)) + b as nat % pow2(
                        (s + 1) as nat,
                    ) == b as nat,
                    b as nat % pow2((s + 1) as nat) >= 0,
                    (v / 2) as nat == b as nat / pow2((s + 1) as nat),
            ;
            assert(pow2((s + 1) as nat) <= 0x8_0000) by {
                if s + 1 < 19 {
                    lemma_pow2_strictly_increases((s + 1) as nat, 19);
                }
            }
        }
        v = v / 2;
        s = s + 1;
        p = p * 2;
    }
    proof {
        lemma_pow2_pos(s as nat);
        lemma_round_half_even_bound(b as nat, p as nat);
        assert(pow2(s as nat) <= 0x8_0000) by {
            if s < 19 {
                lemma_pow2_strictly_increases(s as nat, 19);
            }
        }
    }
    let q = round_half_even_u128(b, p);
    q * p
}


/// A positive integer stays positive as a binary64 value.
pub proof fn lemma_to_binary64_pos(b: nat)
    requires
        b > 0,
    ensures
        to_binary64(b) > 0,
{
    let s = excess_bits(b);
    lemma_pow2_pos(s);
    lemma_excess_bits_bound(b);
    let d = pow2(s);
    lemma_fundamental_div_mod(b as int, d as int);
    assert(b / d >= 1) by (nonlinear_arith)
        requires b >= d, d > 0, d * (b / d) + b % d == b, b % d < d, b % d >= 0;
    assert(round_half_even(b, d) >= 1);
    assert(round_half_even(b, d) * d > 0) by (nonlinear_arith)
        requires round_half_even(b, d) >= 1, d > 0;
}

/// `2^excess_bits(b) <= b` for positive `b`.
proof fn lemma_excess_bits_bound(b: nat)
    requires
        b > 0,
    ensures
        pow2(excess_bits(b)) <= b,
    decreases b,
{
    if b < 0x20_0000_0000_0000 {
        assert(pow2(0) == 1) by {
            vstd::arithmetic::power2::lemma2_to64();
        }
    } else {
        lemma_excess_bits_bound(b / 2);
        lemma_pow2_unfold(excess_bits(b));
    }
}

} // verus!
