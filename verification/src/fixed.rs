//! Fixed-point quantities.
//!
//! Every measurement in this crate is an `i64` that counts billionths of its
//! unit: `1_200_000_000` stands for 1.2, `85_000_000_000` for 85. The values
//! that can be held lie between -9,223,372,036.854775808 and
//! 9,223,372,036.854775807 units. All arithmetic on such values is integer
//! arithmetic, so every result is exact or rounded by a rule stated here.
//! Sums, differences and products that leave the range stop at its nearest
//! end; quotients are rounded toward zero.

use vstd::prelude::*;

verus! {

/// The number of representable steps in one whole unit.
pub const SCALE: i64 = 1_000_000_000;

/// The value of type `i64` nearest to `x`.
pub open spec fn saturate(x: int) -> int {
    if x > i64::MAX {
        i64::MAX as int
    } else if x < i64::MIN {
        i64::MIN as int
    } else {
        x
    }
}

/// `a` divided by a positive `d`, rounded toward zero.
pub open spec fn quotient(a: int, d: int) -> int
    recommends
        d > 0,
{
    if a >= 0 {
        a / d
    } else {
        -((-a) / d)
    }
}

/// The distance of `v` from zero.
pub open spec fn magnitude(v: int) -> nat {
    if v < 0 {
        (-v) as nat
    } else {
        v as nat
    }
}

/// Ten to the power `k`.
pub open spec fn pow10(k: nat) -> nat
    decreases k,
{
    if k == 0 {
        1
    } else {
        10 * pow10((k - 1) as nat)
    }
}

/// The value of type `i64` nearest to `t`.
fn saturate_wide(t: i128) -> (r: i64)
    ensures
        r == saturate(t as int),
{
    if t > i64::MAX as i128 {
        i64::MAX
    } else if t < i64::MIN as i128 {
        i64::MIN
    } else {
        t as i64
    }
}

/// `a + b`, stopping at the ends of the range.
pub fn saturating_sum(a: i64, b: i64) -> (r: i64)
    ensures
        r == saturate(a + b),
{
    saturate_wide(a as i128 + b as i128)
}

/// `a - b`, stopping at the ends of the range.
pub fn saturating_difference(a: i64, b: i64) -> (r: i64)
    ensures
        r == saturate(a - b),
{
    saturate_wide(a as i128 - b as i128)
}

/// `a * b`, stopping at the ends of the range.
pub fn saturating_product(a: i64, b: i64) -> (r: i64)
    ensures
        r == saturate(a * b),
{
    proof {
        lemma_product_bounds(a as int, b as int);
    }
    saturate_wide(a as i128 * b as i128)
}

/// `a / d` rounded toward zero.
pub fn divide(a: i64, d: u64) -> (r: i64)
    requires
        d > 0,
    ensures
        r == quotient(a as int, d as int),
{
    let q: i128 = a as i128 / d as i128;
    proof {
        lemma_quotient_bounds(a as int, d as int);
    }
    q as i64
}

/// The distance of `v` from zero.
pub fn absolute(v: i64) -> (r: u64)
    ensures
        r == magnitude(v as int),
{
    if v < 0 {
        (-(v as i128)) as u64
    } else {
        v as u64
    }
}

/// Ten to the power `k`, for the powers that fit: up to the nineteenth.
pub fn power_of_ten(k: u8) -> (r: u64)
    requires
        k <= 19,
    ensures
        r == pow10(k as nat),
        k <= 9 ==> 1 <= r <= 1_000_000_000,
{
    let mut r: u64 = 1;
    let mut i: u8 = 0;
    while i < k
        invariant
            i <= k <= 19,
            r == pow10(i as nat),
        decreases k - i,
    {
        proof {
            lemma_pow10_grows(i as nat + 1, 19);
            lemma_pow10_values();
        }
        r = r * 10;
        i += 1;
    }
    proof {
        lemma_pow10_values();
        if k <= 9 {
            lemma_pow10_grows(k as nat, 9);
        }
    }
    r
}

/// The ninth and the nineteenth power of ten.
pub proof fn lemma_pow10_values()
    ensures
        pow10(9) == 1_000_000_000,
        pow10(19) == 10_000_000_000_000_000_000,
{
    reveal_with_fuel(pow10, 11);
    assert(pow10(10) == 10_000_000_000);
    assert(pow10(19) == 1_000_000_000 * pow10(10));
}

/// A greater power of ten is no less, and no power of ten is zero.
pub proof fn lemma_pow10_grows(a: nat, b: nat)
    requires
        a <= b,
    ensures
        1 <= pow10(a) <= pow10(b),
    decreases b,
{
    if a == 0 && b == 0 {
    } else if a < b {
        lemma_pow10_grows(a, (b - 1) as nat);
    } else {
        lemma_pow10_grows((a - 1) as nat, (b - 1) as nat);
    }
}

/// The product of two `i64` values fits in an `i128`.
pub proof fn lemma_product_bounds(a: int, b: int)
    requires
        i64::MIN <= a <= i64::MAX,
        i64::MIN <= b <= i64::MAX,
    ensures
        -0x4000_0000_0000_0000_0000_0000_0000_0000 <= a * b
            <= 0x4000_0000_0000_0000_0000_0000_0000_0000,
{
    assert(-0x4000_0000_0000_0000_0000_0000_0000_0000 <= a * b
        <= 0x4000_0000_0000_0000_0000_0000_0000_0000) by (nonlinear_arith)
        requires
            -0x8000_0000_0000_0000 <= a <= 0x8000_0000_0000_0000,
            -0x8000_0000_0000_0000 <= b <= 0x8000_0000_0000_0000,
    ;
}

/// A quotient is no further from zero than what was divided, and has its sign.
pub proof fn lemma_quotient_bounds(a: int, d: int)
    requires
        d > 0,
    ensures
        a >= 0 ==> 0 <= quotient(a, d) <= a,
        a <= 0 ==> a <= quotient(a, d) <= 0,
{
    if a >= 0 {
        assert(0 <= a / d <= a) by (nonlinear_arith)
            requires
                a >= 0,
                d > 0,
        ;
    } else {
        assert(0 <= (-a) / d <= -a) by (nonlinear_arith)
            requires
                -a >= 0,
                d > 0,
        ;
    }
}

/// Dividing a multiple gives back the factor: `(n * x) / n == x`.
pub proof fn lemma_quotient_of_multiple(x: int, n: int)
    requires
        n > 0,
    ensures
        quotient(n * x, n) == x,
{
    if x >= 0 {
        assert(n * x >= 0 && (n * x) / n == x) by (nonlinear_arith)
            requires
                n > 0,
                x >= 0,
        ;
    } else {
        assert(n * x < 0 && -(n * x) == n * (-x) && (n * (-x)) / n == -x) by (nonlinear_arith)
            requires
                n > 0,
                x < 0,
        ;
    }
}

} // verus!
