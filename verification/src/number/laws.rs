//! Laws of numeric equality.

use vstd::prelude::*;
use vstd::arithmetic::mul::{
    lemma_mul_equality_converse, lemma_mul_is_associative, lemma_mul_strict_inequality,
    lemma_mul_strict_inequality_converse, lemma_mul_strictly_positive,
};
use crate::number::{pow10, Number};

verus! {

/// A power of ten is positive.
pub proof fn lemma_pow10_positive(n: nat)
    ensures
        pow10(n) > 0,
    decreases n,
{
    if n > 0 {
        lemma_pow10_positive((n - 1) as nat);
    }
}

/// `10^(a+b) = 10^a · 10^b`.
pub proof fn lemma_pow10_adds(a: nat, b: nat)
    ensures
        pow10(a + b) == pow10(a) * pow10(b),
    decreases a,
{
    if a == 0 {
        assert(pow10(0 + b) == 1 * pow10(b));
    } else {
        lemma_pow10_adds((a - 1) as nat, b);
        assert(pow10(a + b) == 10 * pow10((a - 1 + b) as nat));
        lemma_mul_is_associative(10, pow10((a - 1) as nat) as int, pow10(b) as int);
    }
}

/// Writing a number with `extra` more digits after the point multiplies its
/// coefficient by `10^extra`.
pub proof fn lemma_aligned_shift(a: Number, scale: int, extra: nat)
    requires
        scale >= a.scale_of(),
    ensures
        a.aligned(scale + extra) == a.aligned(scale) * pow10(extra),
{
    let base = (scale - a.scale_of()) as nat;
    lemma_pow10_adds(base, extra);
    assert((scale + extra - a.scale_of()) as nat == base + extra);
    lemma_mul_is_associative(a.coefficient() as int, pow10(base) as int, pow10(extra) as int);
}

/// Two finite numbers have equal coefficients at one scale that is not
/// below their own scales exactly where they have them at every such scale.
pub proof fn lemma_aligned_equal_at_any_scale(a: Number, b: Number, scale: int)
    requires
        scale >= a.scale_of(),
        scale >= b.scale_of(),
    ensures
        (a.aligned(scale) == b.aligned(scale)) <==> (a.aligned(a.common_scale(b)) == b.aligned(
            a.common_scale(b),
        )),
{
    let m = a.common_scale(b);
    let extra = (scale - m) as nat;
    lemma_aligned_shift(a, m, extra);
    lemma_aligned_shift(b, m, extra);
    lemma_pow10_positive(extra);
    assert(m + extra == scale);
    if a.aligned(scale) == b.aligned(scale) {
        lemma_mul_equality_converse(pow10(extra) as int, a.aligned(m) as int, b.aligned(m) as int);
    }
}

/// A finite number has coefficient zero at a scale exactly where its own
/// coefficient is zero.
pub proof fn lemma_aligned_zero(a: Number, scale: int)
    requires
        scale >= a.scale_of(),
    ensures
        (a.aligned(scale) == 0) <==> a.coefficient() == 0,
{
    let k = (scale - a.scale_of()) as nat;
    let c = a.coefficient();
    let p = pow10(k);
    lemma_pow10_positive(k);
    if c > 0 {
        lemma_mul_strictly_positive(c as int, p as int);
    } else {
        assert(c * p == 0) by (nonlinear_arith)
            requires
                c == 0,
        ;
    }
}

/// Numeric equality does not depend on the order of the operands.
pub proof fn lemma_same_value_symmetric(a: Number, b: Number)
    ensures
        a.same_value(b) == b.same_value(a),
{
}

/// Every number but not-a-number equals itself.
pub proof fn law_same_value_reflexive(a: Number)
    requires
        !a.is_nan(),
    ensures
        a.same_value(a),
{
}

/// Numeric equality is transitive.
pub proof fn lemma_same_value_transitive(a: Number, b: Number, c: Number)
    requires
        a.same_value(b),
        b.same_value(c),
    ensures
        a.same_value(c),
{
    if a is Finite {
        let top = if a.common_scale(b) >= c.scale_of() {
            a.common_scale(b)
        } else {
            c.scale_of()
        };
        lemma_aligned_equal_at_any_scale(a, b, top);
        lemma_aligned_equal_at_any_scale(b, c, top);
        lemma_aligned_equal_at_any_scale(a, c, top);
        lemma_aligned_zero(a, top);
        lemma_aligned_zero(b, top);
        lemma_aligned_zero(c, top);
    }
}

/// A finite number that equals a zero is a zero.
pub proof fn lemma_same_as_zero(a: Number, zero: Number)
    requires
        zero.is_zero(),
        a.same_value(zero),
    ensures
        a.is_zero(),
{
    lemma_aligned_zero(a, a.common_scale(zero));
    lemma_aligned_zero(zero, a.common_scale(zero));
}

/// The sum of two zeros is a zero.
pub proof fn lemma_zeros_add_to_zero(a: Number, b: Number)
    requires
        a.is_zero(),
        b.is_zero(),
    ensures
        a.plus(b).is_zero(),
{
    lemma_aligned_zero(a, a.common_scale(b));
    lemma_aligned_zero(b, a.common_scale(b));
}

/// The square of a zero is a zero.
pub proof fn lemma_zero_squared(a: Number)
    requires
        a.is_zero(),
    ensures
        a.times(a).is_zero(),
{
    assert(a.coefficient() * a.coefficient() == 0) by (nonlinear_arith)
        requires
            a.coefficient() == 0,
    ;
}

/// One times a finite number is the number itself, exactly.
pub proof fn lemma_one_times(a: Number)
    requires
        a.is_finite(),
    ensures
        Number::one_value().multiplies_exactly(a),
        Number::one_value().exact_product(a) == a,
        a.multiplies_exactly(Number::one_value()),
        a.exact_product(Number::one_value()) == a,
{
    let d = a.coefficient();
    assert(1 * d == d && d * 1 == d) by (nonlinear_arith);
}

/// Zero times a finite number is a zero, exactly.
pub proof fn lemma_zero_times(a: Number)
    requires
        a.is_finite(),
    ensures
        Number::zero_value().multiplies_exactly(a),
        Number::zero_value().exact_product(a).is_zero(),
        a.multiplies_exactly(Number::zero_value()),
        a.exact_product(Number::zero_value()).is_zero(),
{
    let d = a.coefficient();
    assert(0 * d == 0 && d * 0 == 0) by (nonlinear_arith);
}

/// Of two finite numbers one has the smaller coefficient at one scale that
/// is not below their own scales exactly where it has it at every such
/// scale.
pub proof fn lemma_aligned_less_at_any_scale(a: Number, b: Number, scale: int)
    requires
        scale >= a.scale_of(),
        scale >= b.scale_of(),
    ensures
        (a.aligned(scale) < b.aligned(scale)) <==> (a.aligned(a.common_scale(b)) < b.aligned(
            a.common_scale(b),
        )),
{
    let m = a.common_scale(b);
    let extra = (scale - m) as nat;
    lemma_aligned_shift(a, m, extra);
    lemma_aligned_shift(b, m, extra);
    lemma_pow10_positive(extra);
    assert(m + extra == scale);
    if a.aligned(m) < b.aligned(m) {
        lemma_mul_strict_inequality(a.aligned(m) as int, b.aligned(m) as int, pow10(extra) as int);
    }
    if a.aligned(scale) < b.aligned(scale) {
        lemma_mul_strict_inequality_converse(a.aligned(m) as int, b.aligned(m) as int, pow10(extra) as int);
    }
}

/// The order of magnitudes is transitive.
pub proof fn lemma_smaller_magnitude_transitive(a: Number, b: Number, c: Number)
    requires
        a.smaller_magnitude(b),
        b.smaller_magnitude(c),
    ensures
        a.smaller_magnitude(c),
{
    if a is Finite && b is Finite && c is Finite {
        let top = if a.common_scale(b) >= c.scale_of() {
            a.common_scale(b)
        } else {
            c.scale_of()
        };
        lemma_aligned_less_at_any_scale(a, b, top);
        lemma_aligned_less_at_any_scale(b, c, top);
        lemma_aligned_less_at_any_scale(a, c, top);
    }
}

/// Of two magnitudes at most one is the smaller.
pub proof fn law_smaller_magnitude_asymmetric(a: Number, b: Number)
    requires
        a.smaller_magnitude(b),
    ensures
        !b.smaller_magnitude(a),
{
}

/// No number is below itself.
pub proof fn law_below_irreflexive(a: Number)
    ensures
        !a.below(a),
{
}

/// Of two numbers at most one is below the other.
pub proof fn law_below_asymmetric(a: Number, b: Number)
    requires
        a.below(b),
    ensures
        !b.below(a),
{
}

/// The order is transitive.
pub proof fn law_below_transitive(a: Number, b: Number, c: Number)
    requires
        a.below(b),
        b.below(c),
    ensures
        a.below(c),
{
    if a.sign_bit() == b.sign_bit() && b.sign_bit() == c.sign_bit() {
        if a.sign_bit() {
            lemma_smaller_magnitude_transitive(c, b, a);
        } else {
            lemma_smaller_magnitude_transitive(a, b, c);
        }
    }
}

/// Numbers of which neither is below the other take one place in the
/// order: whatever is below the one is below the other.
pub proof fn law_below_respects_ties(a: Number, b: Number, c: Number)
    requires
        !a.below(b),
        !b.below(a),
    ensures
        c.below(a) == c.below(b),
        a.below(c) == b.below(c),
{
    if a is Finite && b is Finite && c is Finite {
        let top = if a.common_scale(b) >= c.scale_of() {
            a.common_scale(b)
        } else {
            c.scale_of()
        };
        lemma_aligned_less_at_any_scale(a, b, top);
        lemma_aligned_less_at_any_scale(b, a, top);
        lemma_aligned_less_at_any_scale(a, c, top);
        lemma_aligned_less_at_any_scale(c, a, top);
        lemma_aligned_less_at_any_scale(b, c, top);
        lemma_aligned_less_at_any_scale(c, b, top);
    }
}

/// Finite numbers that are equal take one place in the order, but for the
/// two zeros, of which the negative one comes first.
pub proof fn law_equal_numbers_tie(a: Number, b: Number)
    requires
        a.same_value(b),
        a.sign_bit() == b.sign_bit(),
    ensures
        !a.below(b),
        !b.below(a),
{
    if a is Finite {
        lemma_aligned_zero(a, a.common_scale(b));
        lemma_aligned_zero(b, a.common_scale(b));
    }
}

} // verus!
