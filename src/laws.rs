use vstd::prelude::*;
use vstd::arithmetic::div_mod::{
    lemma_div_by_multiple, lemma_div_is_ordered_by_denominator, lemma_div_multiples_vanish_fancy,
    lemma_fundamental_div_mod,
};
use vstd::math::abs;
use crate::percentage::{clamp, max_basis_points, saturate, scaled, signed, Percentage};

verus! {

/// Taking `n` percent of `100` gives `n` back: `100 * n.percent() == n`,
/// for every integer `n`.
pub proof fn lemma_hundred_times_percent(n: int)
    ensures
        scaled(100, n * 100) == n,
{
    assert(abs(100) * abs(n * 100) == abs(n) * 10000) by (nonlinear_arith);
    lemma_div_by_multiple(abs(n) as int, 10000);
    assert((n * 100 < 0) == (n < 0)) by (nonlinear_arith);
}

/// Percentages of numbers add as the numbers do:
/// `a.percent() + b.percent() == (a + b).percent()`, for every `a` and `b`
/// of any integer type.
pub proof fn lemma_percent_add(a: int, b: int)
    requires
        i128::MIN <= a <= u128::MAX,
        i128::MIN <= b <= u128::MAX,
    ensures
        saturate(a * 100 + b * 100) == (a + b) * 100,
{
    assert(a * 100 + b * 100 == (a + b) * 100) by (nonlinear_arith);
}

/// Two numbers have the same percentage exactly when they are equal:
/// `a.percent() == b.percent()` iff `a == b`, for every integer `a` and `b`.
pub proof fn lemma_percent_injective(a: int, b: int)
    ensures
        a * 100 == b * 100 <==> a == b,
{
}

/// Multiplying a number in place by `50%` halves it, rounded toward zero:
/// after `x *= 50.percent()`, `x` holds `x / 2` in its own type, for every
/// `x` of an integer type whose bounds are `lo` and `hi`.
pub proof fn lemma_times_fifty_percent_halves(x: int, lo: int, hi: int)
    requires
        lo <= 0 <= hi,
        lo <= x <= hi,
    ensures
        clamp(scaled(x, 50int * 100), lo, hi) == signed(x < 0, (abs(x) / 2) as int),
{
    let a = abs(x) as int;
    let q = a / 2;
    let r = a % 2;
    lemma_fundamental_div_mod(a, 2);
    assert(a * 5000 == 10000 * q + 5000 * r) by (nonlinear_arith)
        requires
            a == 2 * q + r,
    ;
    lemma_div_multiples_vanish_fancy(q, 5000 * r, 10000);
    assert(abs(x) * abs(5000) == a * 5000);
    assert(0 <= a / 2 <= a) by {
        lemma_div_is_ordered_by_denominator(a, 1, 2);
    }
}

/// Adding a number to a percentage adds it as a whole, `1` being `100%`:
/// `n + p`, and `p` after `p += n`, hold `p` plus `n.percent()` a hundred
/// times over, for every `n` of any integer type and every `p` whose sum
/// with it is a percentage (`1 + 49.percent() == 149.percent()`); on `0%`
/// that is every `n`.
pub proof fn lemma_add_number_adds_wholes(p: int, n: int)
    requires
        i128::MIN <= n <= u128::MAX,
        -max_basis_points() <= p + n * 10000 <= max_basis_points(),
    ensures
        saturate(p + n * 10000) == p + (n * 100) * 100,
        saturate(0 + n * 10000) == n * 10000,
{
}

/// A percentage rebuilt from its parts is the same percentage:
/// `Percentage::from_parts(p.parts()) == p`.
pub proof fn lemma_parts_round_trip(p: Percentage, negative: bool, whole: u128, ten_thousandths: u16)
    requires
        p == Percentage::canonical(p@),
        ten_thousandths < 10000,
        signed(negative, whole * 10000 + ten_thousandths) == p@,
    ensures
        Percentage::canonical(saturate(signed(negative, whole * 10000 + ten_thousandths))) == p,
{
}

} // verus!
