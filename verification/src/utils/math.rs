//! Scalar integer helpers used by the bounded non-symmetric decoder.

use vstd::prelude::*;
use vstd::arithmetic::power2::{lemma2_to64, lemma_pow2_strictly_increases, lemma_pow2_unfold, pow2};

verus! {

/// Exponent of the greatest power of two that is at most `n` (for `n >= 1`).
pub open spec fn floor_log2_spec(n: nat) -> nat
    decreases n,
{
    if n <= 1 {
        0
    } else {
        1 + floor_log2_spec(n / 2)
    }
}

/// `floor_log2_spec(n)` is the unique exponent `e` with `pow2(e) <= n < pow2(e + 1)`.
pub proof fn lemma_floor_log2_spec(n: nat)
    requires
        n >= 1,
    ensures
        pow2(floor_log2_spec(n)) <= n < pow2(floor_log2_spec(n) + 1),
    decreases n,
{
    lemma2_to64();
    if n <= 1 {
    } else {
        lemma_floor_log2_spec(n / 2);
        lemma_pow2_unfold(floor_log2_spec(n));
        lemma_pow2_unfold(floor_log2_spec(n) + 1);
    }
}

/// Any exponent `e` with `pow2(e) <= n < pow2(e + 1)` equals `floor_log2_spec(n)`.
pub proof fn lemma_floor_log2_unique(n: nat, e: nat)
    requires
        pow2(e) <= n < pow2(e + 1),
    ensures
        e == floor_log2_spec(n),
{
    vstd::arithmetic::power2::lemma_pow2_pos(e);
    lemma_floor_log2_spec(n);
    let f = floor_log2_spec(n);
    if e < f {
        if e + 1 < f {
            lemma_pow2_strictly_increases(e + 1, f);
        }
        assert(pow2(e + 1) <= pow2(f));
    }
    if f < e {
        if f + 1 < e {
            lemma_pow2_strictly_increases(f + 1, e);
        }
        assert(pow2(f + 1) <= pow2(e));
    }
}

/// Floor of the base-two logarithm of `n`: the position of the highest set bit.
pub fn floor_log2(n: u64) -> (r: u8)
    requires
        n >= 1,
    ensures
        r == floor_log2_spec(n as nat),
        pow2(r as nat) <= n < pow2(r as nat + 1),
        r <= 63,
{
    let mut cur: u64 = n;
    let mut s: u8 = 0;
    proof {
        lemma2_to64();
    }
    while cur != 0
        invariant
            n >= 1,
            s <= 64,
            cur as nat == n as nat / pow2(s as nat),
            s > 0 ==> pow2((s - 1) as nat) <= n,
        decreases cur,
    {
        proof {
            let p = pow2(s as nat) as int;
            vstd::arithmetic::power2::lemma_pow2_pos(s as nat);
            lemma_pow2_unfold(s as nat + 1);
            assert(cur >> 1u64 == cur / 2) by (bit_vector);
            vstd::arithmetic::div_mod::lemma_div_denominator(n as int, p, 2);
            vstd::arithmetic::div_mod::lemma_fundamental_div_mod(n as int, p);
            vstd::arithmetic::div_mod::lemma_mod_division_less_than_divisor(n as int, p);
            assert(p * (cur as int) >= p * 1) by (nonlinear_arith)
                requires
                    p > 0,
                    cur >= 1,
            ;
            assert(pow2(s as nat) <= n);
            assert(s < 64) by {
                if s >= 64 {
                    lemma2_to64_rest_is_pow2_64();
                    if s > 64 {
                        lemma_pow2_strictly_increases(64, s as nat);
                    }
                    assert(pow2(64) <= pow2(s as nat));
                }
            }
        }
        cur = cur >> 1;
        s = s + 1;
    }
    proof {
        lemma2_to64();
        assert(s >= 1);
        vstd::arithmetic::power2::lemma_pow2_pos(s as nat);
        vstd::arithmetic::div_mod::lemma_fundamental_div_mod(n as int, pow2(s as nat) as int);
        vstd::arithmetic::div_mod::lemma_mod_division_less_than_divisor(
            n as int,
            pow2(s as nat) as int,
        );
        assert(n < pow2(s as nat));
        lemma_floor_log2_unique(n as nat, (s - 1) as nat);
    }
    s - 1
}

/// Ceiling of the base-two logarithm: the smallest `r` with `pow2(r) >= x`,
/// except that inputs below 2 yield 0.
pub fn ceil_log2(x: u64) -> (r: u8)
    ensures
        x < 2 ==> r == 0,
        x >= 2 ==> r >= 1 && pow2(r as nat) >= x && pow2((r - 1) as nat) < x,
{
    if x < 2 {
        return 0;
    }
    let mut i: u8 = 1;
    let mut p: u128 = 2;
    proof {
        lemma2_to64();
    }
    while p < x as u128
        invariant
            2 <= x,
            1 <= i <= 64,
            p == pow2(i as nat),
            pow2((i - 1) as nat) < x,
        decreases 64 - i,
    {
        proof {
            lemma_pow2_unfold(i as nat + 1);
            assert((p << 1u128) == p * 2) by (bit_vector)
                requires
                    p <= 0x1_0000_0000_0000_0000u128,
            ;
            assert(i < 64) by {
                if i >= 64 {
                    lemma2_to64_rest_is_pow2_64();
                    assert(pow2(i as nat) >= pow2(64)) by {
                        if i > 64 {
                            lemma_pow2_strictly_increases(64, i as nat);
                        }
                    }
                }
            }
        }
        i = i + 1;
        p = p << 1;
    }
    i
}

/// `pow2(64)` is `0x1_0000_0000_0000_0000`, past the range of `u64`.
proof fn lemma2_to64_rest_is_pow2_64()
    ensures
        pow2(64) == 0x1_0000_0000_0000_0000,
{
    vstd::arithmetic::power2::lemma2_to64_rest();
}

/// Clamp `z` to the interval `[x, y]`: values below `x` become `x`, values
/// above `y` become `y`. The lower bound wins when the interval is empty.
pub fn clip3(x: i64, y: i64, z: i64) -> (r: i64)
    ensures
        r == (if z < x {
            x
        } else if z > y {
            y
        } else {
            z
        }),
{
    if z < x {
        x
    } else if z > y {
        y
    } else {
        z
    }
}

} // verus!
