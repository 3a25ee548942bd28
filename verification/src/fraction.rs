//! Fractions of a byte count, rounded as IEEE 754 binary64 arithmetic rounds them.
//!
//! A limit such as "85 % of the budget" is the product of two binary64 numbers, truncated to an
//! integer. Both roundings are computed here on integers, so the limit is the same on every
//! machine and can be reasoned about.
use vstd::prelude::*;

verus! {

/// One past the largest 53-bit significand: every smaller integer is a binary64 number.
pub const SIGNIFICAND_LIMIT: u64 = 9007199254740992;

/// The binary64 number closest to 0.85 is this significand over `SIGNIFICAND_LIMIT`.
pub const SOFT_LIMIT_SIGNIFICAND: u64 = 7656119366529843;

/// The binary64 number closest to 0.9 is this significand over `SIGNIFICAND_LIMIT`.
pub const NEAR_LIMIT_SIGNIFICAND: u64 = 8106479329266893;

/// The distance between neighbouring binary64 numbers in the binade that holds the integer `x`.
pub open spec fn spacing(x: nat) -> nat
    decreases x,
{
    if x < SIGNIFICAND_LIMIT {
        1
    } else {
        2 * spacing(x / 2)
    }
}

/// The multiple of `unit` closest to `x`; of two equally close ones, the even multiple.
pub open spec fn nearest_multiple(x: nat, unit: nat) -> nat {
    let below = x / unit;
    let rest = x % unit;
    if 2 * rest < unit || (2 * rest == unit && below % 2 == 0) {
        below * unit
    } else {
        (below + 1) * unit
    }
}

/// The binary64 number that the integer `x` is rounded to.
pub open spec fn rounded(x: nat) -> nat {
    nearest_multiple(x, spacing(x))
}

/// `total` as a binary64 number, times the binary64 number `significand` over
/// `SIGNIFICAND_LIMIT`, truncated to an integer.
pub open spec fn fraction_of(total: nat, significand: nat) -> nat {
    rounded(rounded(total) * significand) / (SIGNIFICAND_LIMIT as nat)
}

proof fn lemma_spacing_bound(x: nat)
    ensures
        spacing(x) >= 1,
        spacing(x) == 1 || spacing(x) * 4503599627370496 <= x,
    decreases x,
{
    if x >= SIGNIFICAND_LIMIT {
        lemma_spacing_bound(x / 2);
    }
}

/// Rounding moves an integer up by less than one part in a hundred.
proof fn lemma_rounded_bound(x: nat)
    ensures
        100 * rounded(x) <= 101 * x,
{
    lemma_spacing_bound(x);
    let unit = spacing(x);
    let below = x / unit;
    vstd::arithmetic::div_mod::lemma_fundamental_div_mod(x as int, unit as int);
    assert(unit * below == below * unit) by (nonlinear_arith);
    assert((below + 1) * unit == below * unit + unit) by (nonlinear_arith);
    if unit == 1 {
        assert(x % 1 == 0);
    } else {
        assert(unit * 4503599627370496 <= x);
    }
}

/// A fraction that stays clear of one never exceeds the whole.
pub proof fn lemma_fraction_within_total(total: nat, significand: nat)
    requires
        10201 * significand <= 10000 * SIGNIFICAND_LIMIT,
    ensures
        fraction_of(total, significand) <= total,
{
    let whole = rounded(total);
    let product = whole * significand;
    lemma_rounded_bound(total);
    lemma_rounded_bound(product);
    let limit = SIGNIFICAND_LIMIT as nat;
    assert(100 * product <= 101 * (total * significand)) by (nonlinear_arith)
        requires
            product == whole * significand,
            100 * whole <= 101 * total,
    ;
    assert(10201 * (total * significand) <= 10000 * (total * limit)) by (nonlinear_arith)
        requires
            10201 * significand <= 10000 * limit,
    ;
    assert(rounded(product) <= total * limit);
    assert(rounded(product) / limit <= total) by (nonlinear_arith)
        requires
            rounded(product) <= total * limit,
            limit > 0,
    ;
}

/// Rounding an integer to binary64 moves it by at most one part in `SIGNIFICAND_LIMIT`.
pub proof fn lemma_rounding_error(x: nat)
    ensures
        (rounded(x) - x) * 9007199254740992 <= x,
        (x - rounded(x)) * 9007199254740992 <= x,
{
    lemma_spacing_bound(x);
    let unit = spacing(x);
    let below = x / unit;
    vstd::arithmetic::div_mod::lemma_fundamental_div_mod(x as int, unit as int);
    assert(unit * below == below * unit) by (nonlinear_arith);
    assert((below + 1) * unit == below * unit + unit) by (nonlinear_arith);
    if unit == 1 {
        assert(x % 1 == 0);
    }
}

/// A fraction is the product of the whole and the significand, up to the two roundings and the
/// truncation to an integer.
proof fn lemma_fraction_error(total: nat, significand: nat)
    ensures
        ({
            let product = rounded(total) * significand;
            let part = fraction_of(total, significand);
            &&& 9007199254740992 * product <= 9007199254740993 * (total * significand)
            &&& 9007199254740992 * product >= 9007199254740991 * (total * significand)
            &&& 9007199254740992 * rounded(product) <= 9007199254740993 * product
            &&& 9007199254740992 * rounded(product) >= 9007199254740991 * product
            &&& part * 9007199254740992 <= rounded(product) < (part + 1) * 9007199254740992
        }),
{
    let whole = rounded(total);
    let product = whole * significand;
    let exact = total * significand;
    lemma_rounding_error(total);
    lemma_rounding_error(product);
    assert(9007199254740992 * product <= 9007199254740993 * exact) by (nonlinear_arith)
        requires
            product == whole * significand,
            exact == total * significand,
            9007199254740992 * whole <= 9007199254740993 * total,
            significand >= 0,
    ;
    assert(9007199254740992 * product >= 9007199254740991 * exact) by (nonlinear_arith)
        requires
            product == whole * significand,
            exact == total * significand,
            9007199254740992 * whole >= 9007199254740991 * total,
            significand >= 0,
    ;
}

/// The soft limit's fraction is 85 % of the whole, rounded down to an integer. Only of wholes of
/// 2^45 and more can it be off by more than that, and then by less than one part in 2^50.
pub proof fn lemma_soft_limit_is_eighty_five_percent(total: nat)
    ensures
        100 * fraction_of(total, SOFT_LIMIT_SIGNIFICAND as nat) <= 85 * total + total
            / 35184372088832,
        100 * (fraction_of(total, SOFT_LIMIT_SIGNIFICAND as nat) + 1) + total / 35184372088832
            >= 85 * total,
{
    lemma_fraction_error(total, SOFT_LIMIT_SIGNIFICAND as nat);
    assert(total * (SOFT_LIMIT_SIGNIFICAND as nat) == total * 7656119366529843);
}

/// The near limit's fraction is 90 % of the whole, rounded down to an integer. Only of wholes of
/// 2^45 and more can it be off by more than that, and then by less than one part in 2^50.
pub proof fn lemma_near_limit_is_ninety_percent(total: nat)
    ensures
        100 * fraction_of(total, NEAR_LIMIT_SIGNIFICAND as nat) <= 90 * total + total
            / 35184372088832,
        100 * (fraction_of(total, NEAR_LIMIT_SIGNIFICAND as nat) + 1) + total / 35184372088832
            >= 90 * total,
{
    lemma_fraction_error(total, NEAR_LIMIT_SIGNIFICAND as nat);
    assert(total * (NEAR_LIMIT_SIGNIFICAND as nat) == total * 8106479329266893);
}

fn round(x: u128) -> (r: u128)
    requires
        x < 0x400000000000000000000000000000,
    ensures
        r == rounded(x as nat),
{
    let mut unit: u128 = 1;
    let mut scaled: u128 = x;
    while scaled >= SIGNIFICAND_LIMIT as u128
        invariant
            unit >= 1,
            scaled == x as nat / unit as nat,
            spacing(x as nat) == unit * spacing(scaled as nat),
            unit * scaled <= x,
            x < 0x400000000000000000000000000000,
        decreases scaled,
    {
        assert(unit * 2 * (scaled / 2) <= unit * scaled) by (nonlinear_arith)
            requires
                scaled >= 0,
                unit >= 0,
        ;
        assert(unit * 9007199254740992 <= x) by (nonlinear_arith)
            requires
                unit * scaled <= x,
                scaled >= 9007199254740992,
                unit >= 0,
        ;
        proof {
            vstd::arithmetic::div_mod::lemma_div_denominator(x as int, unit as int, 2);
            let s = spacing((scaled / 2) as nat);
            assert(unit * (2 * s) == (unit * 2) * s) by (nonlinear_arith);
        }
        scaled = scaled / 2;
        unit = unit * 2;
    }
    assert(spacing(scaled as nat) == 1);
    assert(unit * 1 == unit) by (nonlinear_arith);
    let below: u128 = x / unit;
    let rest: u128 = x % unit;
    proof {
        lemma_spacing_bound(x as nat);
        vstd::arithmetic::div_mod::lemma_fundamental_div_mod(x as int, unit as int);
        assert(unit * below == below * unit) by (nonlinear_arith);
        assert((below + 1) * unit == below * unit + unit) by (nonlinear_arith);
    }
    if 2 * rest < unit || (2 * rest == unit && below % 2 == 0) {
        below * unit
    } else {
        (below + 1) * unit
    }
}

/// The fraction `significand / SIGNIFICAND_LIMIT` of `total`, rounded as binary64 rounds it.
pub fn scaled(total: usize, significand: u64) -> (r: usize)
    requires
        10201 * significand <= 10000 * SIGNIFICAND_LIMIT,
    ensures
        r == fraction_of(total as nat, significand as nat),
        r <= total,
{
    let whole: u128 = round(total as u128);
    proof {
        lemma_rounded_bound(total as nat);
        lemma_fraction_within_total(total as nat, significand as nat);
        assert(whole * significand < 0x400000000000000000000000000000) by (nonlinear_arith)
            requires
                whole <= 0x1_051E_B851_EB85_1EB8,
                significand <= 9007199254740992,
        ;
    }
    let product: u128 = round(whole * significand as u128);
    (product / SIGNIFICAND_LIMIT as u128) as usize
}

} // verus!
