use vstd::prelude::*;

verus! {

/// The largest multiple of `increment` that is not above `value`.
pub open spec fn floor_to(value: int, increment: int) -> int
    recommends
        increment > 0,
{
    value - value % increment
}

/// `num / den` rounded to the nearest integer, halves away from zero.
pub open spec fn round_half_away(num: int, den: int) -> int
    recommends
        den > 0,
{
    if num >= 0 {
        (2 * num + den) / (2 * den)
    } else {
        -((-2 * num + den) / (2 * den))
    }
}

/// The multiple of 1,000 dollars nearest to `num / den` dollars, halves away
/// from zero.
pub open spec fn nearest_thousand(num: int, den: int) -> int
    recommends
        den > 0,
{
    1000 * round_half_away(num, 1000 * den)
}

/// Rounds `value` down to a multiple of `increment`.
pub fn round_down_to_increment(value: i64, increment: i64) -> (rounded: i64)
    requires
        increment > 0,
        floor_to(value as int, increment as int) >= i64::MIN,
    ensures
        rounded == floor_to(value as int, increment as int),
        rounded <= value < rounded + increment,
        rounded % increment == 0,
{
    let remainder = value % increment;
    proof {
        lemma_trunc_rem(value as int, increment as int, remainder as int);
    }
    if remainder < 0 {
        value - remainder - increment
    } else {
        value - remainder
    }
}

proof fn lemma_trunc_rem(value: int, increment: int, remainder: int)
    requires
        increment > 0,
        remainder == (if value >= 0 {
            value % increment
        } else {
            -((-value) % increment)
        }),
    ensures
        remainder < 0 ==> value % increment == remainder + increment,
        remainder >= 0 ==> value % increment == remainder,
        floor_to(value, increment) <= value < floor_to(value, increment) + increment,
        floor_to(value, increment) % increment == 0,
{
    vstd::arithmetic::div_mod::lemma_fundamental_div_mod(value, increment);
    vstd::arithmetic::div_mod::lemma_fundamental_div_mod(-value, increment);
    vstd::arithmetic::div_mod::lemma_mod_multiples_basic(value / increment, increment);
    assert((value - value % increment) == increment * (value / increment));
    vstd::arithmetic::div_mod::lemma_mod_multiples_basic(value / increment, increment);
    vstd::arithmetic::mul::lemma_mul_is_commutative(value / increment, increment);
    if value < 0 {
        let q = (-value) / increment;
        let r = (-value) % increment;
        assert(value == -(increment * q) - r);
        if r == 0 {
            vstd::arithmetic::div_mod::lemma_mod_multiples_vanish(-q, 0, increment);
            assert(value == increment * (-q)) by (nonlinear_arith)
                requires value == -(increment * q) - r, r == 0;
            vstd::arithmetic::div_mod::lemma_mod_multiples_basic(-q, increment);
        } else {
            assert(value == increment * (-q - 1) + (increment - r)) by (nonlinear_arith)
                requires value == -(increment * q) - r;
            vstd::arithmetic::div_mod::lemma_mod_multiples_vanish(-q - 1, increment - r, increment);
            vstd::arithmetic::div_mod::lemma_small_mod((increment - r) as nat, increment as nat);
        }
    }
}

/// Rounds `num / den` dollars to the nearest thousand, halves away from zero.
pub fn round_to_1000(num: i128, den: i128) -> (rounded: i128)
    requires
        den > 0,
        -0x1_0000_0000_0000_0000_0000_0000i128 <= num <= 0x1_0000_0000_0000_0000_0000_0000i128,
        den <= 0x1_0000_0000_0000i128,
    ensures
        rounded == nearest_thousand(num as int, den as int),
{
    let d: i128 = den * 2000;
    let half: i128 = den * 1000;
    if num >= 0 {
        let q: i128 = (2 * num + half) / d;
        assert(0 <= q <= 2 * num + half) by (nonlinear_arith)
            requires q == (2 * num + half) as int / d as int, d >= 2000, 2 * num + half >= 0;
        1000 * q
    } else {
        let q: i128 = (-2 * num + half) / d;
        assert(0 <= q <= -2 * num + half) by (nonlinear_arith)
            requires q == (-2 * num + half) as int / d as int, d >= 2000, -2 * num + half >= 0;
        -(1000 * q)
    }
}

/// Rounding down to a multiple keeps the order of the values rounded.
pub proof fn lemma_floor_to_monotone(a: int, b: int, increment: int)
    requires
        increment > 0,
        a <= b,
    ensures
        floor_to(a, increment) <= floor_to(b, increment),
{
    vstd::arithmetic::div_mod::lemma_fundamental_div_mod(a, increment);
    vstd::arithmetic::div_mod::lemma_fundamental_div_mod(b, increment);
    vstd::arithmetic::div_mod::lemma_div_is_ordered(a, b, increment);
    vstd::arithmetic::mul::lemma_mul_inequality(a / increment, b / increment, increment);
    vstd::arithmetic::mul::lemma_mul_is_commutative(a / increment, increment);
    vstd::arithmetic::mul::lemma_mul_is_commutative(b / increment, increment);
}

/// Rounding down never passes a multiple of the increment that lies below the
/// value.
pub proof fn lemma_floor_to_keeps_multiple_below(value: int, multiple: int, increment: int)
    requires
        increment > 0,
        multiple <= value,
        multiple % increment == 0,
    ensures
        multiple <= floor_to(value, increment),
{
    lemma_floor_to_monotone(multiple, value, increment);
}

/// Rounding to the nearest integer keeps the order of the values rounded.
pub proof fn lemma_round_half_away_monotone(a: int, b: int, den: int)
    requires
        den > 0,
        a <= b,
    ensures
        round_half_away(a, den) <= round_half_away(b, den),
{
    if a >= 0 {
        vstd::arithmetic::div_mod::lemma_div_is_ordered(2 * a + den, 2 * b + den, 2 * den);
    } else if b < 0 {
        vstd::arithmetic::div_mod::lemma_div_is_ordered(-2 * b + den, -2 * a + den, 2 * den);
    } else {
        vstd::arithmetic::div_mod::lemma_div_pos_is_pos(-2 * a + den, 2 * den);
        vstd::arithmetic::div_mod::lemma_div_pos_is_pos(2 * b + den, 2 * den);
    }
}

/// Rounding to the nearest thousand keeps the order of the amounts rounded.
pub proof fn lemma_nearest_thousand_monotone(a: int, b: int, den: int)
    requires
        den > 0,
        a <= b,
    ensures
        nearest_thousand(a, den) <= nearest_thousand(b, den),
{
    lemma_round_half_away_monotone(a, b, 1000 * den);
}

} // verus!
