//! Double-precision numbers, read from their bits.
//!
//! The sixty-four bits of a double are a sign, an exponent field of eleven
//! bits and a fraction field of fifty-two. A finite double stands for
//! `significand * 2^exponent`, and its fixed-point value is the number of
//! billionths nearest to that, counted away from zero where two are equally
//! near. Everything here is integer arithmetic on the bits.

use vstd::prelude::*;
use crate::fixed::{saturate, SCALE};

verus! {

/// Two to the power `k`.
pub open spec fn pow2(k: nat) -> nat
    decreases k,
{
    if k == 0 {
        1
    } else {
        2 * pow2((k - 1) as nat)
    }
}

/// The sign bit is set.
pub open spec fn is_negative(bits: u64) -> bool {
    bits >= 0x8000_0000_0000_0000
}

/// The exponent field: the eleven bits below the sign.
pub open spec fn exponent_field(bits: u64) -> int {
    ((bits / 0x10_0000_0000_0000) % 0x800) as int
}

/// The fraction field: the lowest fifty-two bits.
pub open spec fn fraction_field(bits: u64) -> int {
    (bits % 0x10_0000_0000_0000) as int
}

/// The whole number that the exponent scales: the fraction field, with the
/// leading one of every double but the smallest put before it.
pub open spec fn significand(bits: u64) -> int {
    if exponent_field(bits) == 0 {
        fraction_field(bits)
    } else {
        0x10_0000_0000_0000 + fraction_field(bits)
    }
}

/// The power of two by which the significand is scaled.
pub open spec fn binary_exponent(bits: u64) -> int {
    if exponent_field(bits) == 0 {
        -1074
    } else {
        exponent_field(bits) - 1075
    }
}

/// The distance of a finite double from zero in billionths, rounded to the
/// nearest and away from zero where two are equally near.
pub open spec fn billionths(bits: u64) -> int {
    let scaled = significand(bits) * SCALE;
    let exponent = binary_exponent(bits);
    if exponent >= 0 {
        scaled * pow2(exponent as nat)
    } else {
        (scaled + pow2((-exponent - 1) as nat)) / (pow2((-exponent) as nat) as int)
    }
}

/// The fixed-point value of the double with the bits `bits`: the nearest
/// number of billionths, and the end of the range for a double beyond it.
/// What is not a number counts as zero.
pub open spec fn spec_from_double_bits(bits: u64) -> int {
    if exponent_field(bits) == 0x7ff {
        if fraction_field(bits) != 0 {
            0
        } else if is_negative(bits) {
            i64::MIN as int
        } else {
            i64::MAX as int
        }
    } else if is_negative(bits) {
        saturate(-billionths(bits))
    } else {
        saturate(billionths(bits))
    }
}

/// Two to the power `k`, for the powers up to the eighty-fourth.
pub fn power_of_two(k: u64) -> (r: u128)
    requires
        k <= 84,
    ensures
        r == pow2(k as nat),
        1 <= r <= 0x10_0000_0000_0000_0000_0000,
{
    let mut r: u128 = 1;
    let mut i: u64 = 0;
    while i < k
        invariant
            i <= k <= 84,
            r == pow2(i as nat),
        decreases k - i,
    {
        proof {
            lemma_pow2_grows(i as nat + 1, 84);
            lemma_pow2_values();
        }
        r = r * 2;
        i += 1;
    }
    proof {
        lemma_pow2_grows(k as nat, 84);
        lemma_pow2_values();
    }
    r
}

/// The fixed-point value of the double with the bits `bits`.
pub fn from_double_bits(bits: u64) -> (r: i64)
    ensures
        r == spec_from_double_bits(bits),
{
    let negative = bits >= 0x8000_0000_0000_0000;
    let exponent: u64 = (bits / 0x10_0000_0000_0000) % 0x800;
    let fraction: u64 = bits % 0x10_0000_0000_0000;
    if exponent == 0x7ff {
        return if fraction != 0 {
            0
        } else if negative {
            i64::MIN
        } else {
            i64::MAX
        };
    }
    if exponent >= 1075 {
        proof {
            lemma_large_double(bits);
        }
        return if negative {
            i64::MIN
        } else {
            i64::MAX
        };
    }
    let whole: u64 = if exponent == 0 {
        fraction
    } else {
        0x10_0000_0000_0000 + fraction
    };
    let shift: u64 = if exponent == 0 {
        1074
    } else {
        1075 - exponent
    };
    let scaled: u128 = whole as u128 * 1_000_000_000;
    let distance: u128 = if shift > 84 {
        proof {
            lemma_small_double(bits);
        }
        0
    } else {
        let unit: u128 = power_of_two(shift);
        assert(pow2(shift as nat) == 2 * pow2((shift - 1) as nat));
        (scaled + unit / 2) / unit
    };
    assert(distance == billionths(bits));
    if negative {
        if distance >= 0x8000_0000_0000_0000 {
            i64::MIN
        } else {
            -(distance as i64)
        }
    } else {
        if distance > 0x7fff_ffff_ffff_ffff {
            i64::MAX
        } else {
            distance as i64
        }
    }
}

/// A greater power of two is no less, and no power of two is zero.
pub proof fn lemma_pow2_grows(a: nat, b: nat)
    requires
        a <= b,
    ensures
        1 <= pow2(a) <= pow2(b),
    decreases b,
{
    if a == 0 && b == 0 {
    } else if a < b {
        lemma_pow2_grows(a, (b - 1) as nat);
    } else {
        lemma_pow2_grows((a - 1) as nat, (b - 1) as nat);
    }
}

/// The power of a sum is the product of the powers.
pub proof fn lemma_pow2_adds(a: nat, b: nat)
    ensures
        pow2(a + b) == pow2(a) * pow2(b),
    decreases b,
{
    if b == 0 {
        assert(pow2(a) * 1 == pow2(a));
    } else {
        lemma_pow2_adds(a, (b - 1) as nat);
        assert(pow2(a + b) == 2 * pow2((a + b - 1) as nat));
        assert(2 * (pow2(a) * pow2((b - 1) as nat)) == pow2(a) * (2 * pow2((b - 1) as nat)))
            by (nonlinear_arith);
    }
}

/// The eighty-fourth power of two.
pub proof fn lemma_pow2_values()
    ensures
        pow2(84) == 0x10_0000_0000_0000_0000_0000,
{
    reveal_with_fuel(pow2, 22);
    assert(pow2(21) == 0x20_0000);
    lemma_pow2_adds(21, 21);
    assert(pow2(42) == 0x400_0000_0000) by (nonlinear_arith)
        requires
            pow2(42) == pow2(21) * pow2(21),
            pow2(21) == 0x20_0000,
    ;
    lemma_pow2_adds(42, 42);
    assert(pow2(84) == 0x10_0000_0000_0000_0000_0000) by (nonlinear_arith)
        requires
            pow2(84) == pow2(42) * pow2(42),
            pow2(42) == 0x400_0000_0000,
    ;
}

/// A finite double whose significand is scaled up lies beyond the range.
proof fn lemma_large_double(bits: u64)
    requires
        1075 <= exponent_field(bits) < 0x7ff,
    ensures
        billionths(bits) > i64::MAX + 1,
{
    let scaled = significand(bits) * SCALE;
    let power = pow2(binary_exponent(bits) as nat);
    lemma_pow2_grows(0, binary_exponent(bits) as nat);
    assert(scaled * power >= scaled) by (nonlinear_arith)
        requires
            scaled >= 0,
            power >= 1,
    ;
}

/// A finite double that is scaled down by more than eighty-four powers of two
/// is nearer to zero than to one billionth.
proof fn lemma_small_double(bits: u64)
    requires
        exponent_field(bits) < 1075,
        -binary_exponent(bits) > 84,
    ensures
        billionths(bits) == 0,
{
    let scaled = significand(bits) * SCALE;
    let shift = (-binary_exponent(bits)) as nat;
    let half = pow2((shift - 1) as nat);
    lemma_pow2_grows(84, (shift - 1) as nat);
    lemma_pow2_values();
    assert(pow2(shift) == 2 * half);
    assert((scaled + half) / ((2 * half) as int) == 0) by (nonlinear_arith)
        requires
            0 <= scaled < half,
    ;
}

} // verus!
