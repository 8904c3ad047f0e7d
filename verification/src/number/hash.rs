//! Hashing of numbers.
//!
//! Numbers that are equal must hash alike, whatever their scale, and the
//! special values must hash at all.  A number is therefore hashed by a key:
//! a name for each special value, and for a finite number its sign and its
//! coefficient without trailing zeros.

use vstd::prelude::*;
use vstd::arithmetic::mul::lemma_mul_is_associative;
use crate::number::laws::{
    lemma_aligned_zero, lemma_pow10_adds, lemma_same_value_symmetric, lemma_same_value_transitive,
};
use crate::number::{pow10, Number};

verus! {

/// What a number is hashed by.
#[derive(Debug, Clone, Copy, Hash, PartialEq, Eq, Structural)]
pub enum HashKey {
    PositiveInfinity,
    NegativeInfinity,
    NotANumber,
    Finite { negative: bool, digits: u128, scale: i16 },
}

impl HashKey {
    /// The number that a key of a finite number stands for; zero for the
    /// other keys.
    pub open spec fn number(self) -> Number {
        match self {
            HashKey::Finite { negative, digits, scale } => Number::Finite { negative, digits, scale },
            _ => Number::zero_value(),
        }
    }

    /// Whether the key of a finite number has no trailing zero that could be
    /// taken off: a zero is written as plus zero of scale zero, and another
    /// coefficient does not end in zero unless the scale is the least one.
    pub open spec fn reduced(self) -> bool {
        match self {
            HashKey::Finite { negative, digits, scale } => if digits == 0 {
                !negative && scale == 0
            } else {
                digits % 10 != 0 || scale == i16::MIN
            },
            _ => true,
        }
    }
}

impl Number {
    /// The key that a number is hashed by.
    pub open spec fn keyed(self, key: HashKey) -> bool {
        match self {
            Number::NotANumber { .. } => key == HashKey::NotANumber,
            Number::Infinite { negative } => key == if negative {
                HashKey::NegativeInfinity
            } else {
                HashKey::PositiveInfinity
            },
            Number::Finite { .. } => {
                &&& key is Finite
                &&& key.reduced()
                &&& key.number().same_value(self)
            },
        }
    }

    /// The key to hash the number by: one key for every not-a-number, one
    /// for each infinity, and for a finite number the reduced number that
    /// equals it.
    pub fn hash_key(&self) -> (r: HashKey)
        ensures
            self.keyed(r),
    {
        match self {
            Number::NotANumber { .. } => HashKey::NotANumber,
            Number::Infinite { negative } => {
                if *negative {
                    HashKey::NegativeInfinity
                } else {
                    HashKey::PositiveInfinity
                }
            },
            Number::Finite { negative, digits, scale } => {
                if *digits == 0 {
                    return HashKey::Finite { negative: false, digits: 0, scale: 0 };
                }
                let mut d: u128 = *digits;
                let mut s: i16 = *scale;
                let ghost mut taken: nat = 0;
                proof {
                    assert(pow10(0) == 1);
                    assert(d * pow10(0) == d) by (nonlinear_arith)
                        requires
                            pow10(0) == 1,
                    ;
                }
                while d % 10 == 0 && s > i16::MIN
                    invariant
                        d > 0,
                        s as int + taken == *scale as int,
                        d * pow10(taken) == *digits as int,
                    decreases d,
                {
                    proof {
                        let next = (d / 10) as int;
                        assert(d == next * 10);
                        lemma_pow10_adds(1, taken);
                        assert(pow10(1) == 10) by {
                            assert(pow10(0) == 1);
                        }
                        lemma_mul_is_associative(next, 10, pow10(taken) as int);
                    }
                    d = d / 10;
                    s = s - 1;
                    proof {
                        taken = taken + 1;
                    }
                }
                let key = HashKey::Finite { negative: *negative, digits: d, scale: s };
                proof {
                    let reduced = key.number();
                    assert(reduced.common_scale(*self) == *scale as int);
                    assert(reduced.aligned(*scale as int) == d * pow10(taken));
                    assert(self.aligned(*scale as int) == *digits as nat * pow10(0));
                    assert(*digits as nat * pow10(0) == *digits as nat) by (nonlinear_arith)
                        requires
                            pow10(0) == 1,
                    ;
                }
                key
            },
        }
    }
}

/// A coefficient that is written with more digits after the point ends in
/// zero.
proof fn lemma_shifted_ends_in_zero(digits: nat, extra: nat)
    requires
        extra > 0,
    ensures
        (digits * pow10(extra)) % 10 == 0,
{
    let rest = pow10((extra - 1) as nat);
    assert(pow10(extra) == 10 * rest);
    assert(digits * (10 * rest) == 10 * (digits * rest)) by (nonlinear_arith);
    assert((10 * (digits * rest)) % 10 == 0) by (nonlinear_arith);
}

/// Two reduced keys of finite numbers that stand for equal numbers are one
/// key.
proof fn lemma_reduced_is_unique(first: HashKey, second: HashKey)
    requires
        first is Finite,
        second is Finite,
        first.reduced(),
        second.reduced(),
        first.number().same_value(second.number()),
    ensures
        first == second,
{
    let a = first.number();
    let b = second.number();
    let top = a.common_scale(b);
    lemma_aligned_zero(a, top);
    lemma_aligned_zero(b, top);
    if a.coefficient() != 0 || b.coefficient() != 0 {
        assert(a.coefficient() != 0 && b.coefficient() != 0);
        if a.scale_of() > b.scale_of() {
            let extra = (a.scale_of() - b.scale_of()) as nat;
            lemma_shifted_ends_in_zero(b.coefficient(), extra);
            assert(a.aligned(top) == a.coefficient() * pow10(0));
            assert(a.coefficient() * pow10(0) == a.coefficient()) by (nonlinear_arith)
                requires
                    pow10(0) == 1,
            ;
        } else if b.scale_of() > a.scale_of() {
            let extra = (b.scale_of() - a.scale_of()) as nat;
            lemma_shifted_ends_in_zero(a.coefficient(), extra);
            assert(b.aligned(top) == b.coefficient() * pow10(0));
            assert(b.coefficient() * pow10(0) == b.coefficient()) by (nonlinear_arith)
                requires
                    pow10(0) == 1,
            ;
        } else {
            assert(a.aligned(top) == a.coefficient() * pow10(0));
            assert(b.aligned(top) == b.coefficient() * pow10(0));
            assert(a.coefficient() * pow10(0) == a.coefficient() && b.coefficient() * pow10(0)
                == b.coefficient()) by (nonlinear_arith)
                requires
                    pow10(0) == 1,
            ;
        }
    }
}

impl Number {
    /// Numbers that are equal are hashed by one key, whatever their scales
    /// and whichever zero they are.
    pub proof fn law_equal_numbers_share_a_key(self, other: Number, key: HashKey, other_key: HashKey)
        requires
            self.same_value(other),
            self.keyed(key),
            other.keyed(other_key),
        ensures
            key == other_key,
    {
        if self is Finite {
            lemma_same_value_symmetric(other_key.number(), other);
            lemma_same_value_transitive(key.number(), self, other);
            lemma_same_value_transitive(key.number(), other, other_key.number());
            lemma_reduced_is_unique(key, other_key);
        }
    }
}

/// `Hash::hash` of a key: feeds the key to the hasher.  What the hasher makes
/// of it is the hasher's own.
#[verifier::external_body]
fn feed<H: core::hash::Hasher>(key: &HashKey, state: &mut H) {
    core::hash::Hash::hash(key, state)
}

impl core::hash::Hash for Number {
    /// Hashes the number by its key, so that equal numbers of different
    /// scales hash alike and every special value hashes.
    fn hash<H: core::hash::Hasher>(&self, state: &mut H) {
        feed(&self.hash_key(), state)
    }
}

} // verus!
