//! Angles modulo a full turn.
//!
//! Sine, cosine and tangent repeat after two pi.  The backend takes them
//! only of arguments between minus 32 and 32, so a larger angle is first
//! brought below one turn: its coefficient, written with 37 digits after the
//! point, is divided by that of two pi, and the remainder is kept with the
//! sign of the angle.  The division is exact; two pi itself is rounded to 38
//! digits.

use vstd::prelude::*;
use vstd::arithmetic::div_mod::{
    lemma_add_mod_noop,
    lemma_mod_bound,
    lemma_mod_sub_multiples_vanish,
    lemma_mul_mod_noop_left,
    lemma_small_mod,
};
use crate::number::{pow10, Number};

verus! {

/// The coefficient of two pi at [`TURN_SCALE`] digits after the point.
pub const TURN: u128 = 62831853071795864769252867665590057684;

/// The scale at which angles are reduced.
pub const TURN_SCALE: i16 = 37;

/// What `digits * 10^shift` leaves after division by [`TURN`].
pub open spec fn turn_remainder(digits: nat, shift: nat) -> nat {
    (digits * pow10(shift)) % (TURN as nat)
}

/// The sum of two remainders, as a remainder.
fn sum_in_turn(a: u128, b: u128) -> (r: u128)
    requires
        a < TURN,
        b < TURN,
    ensures
        r < TURN,
        r == (a + b) % (TURN as int),
{
    let sum: u128 = a + b;
    if sum >= TURN {
        proof {
            lemma_mod_sub_multiples_vanish(sum as int, TURN as int);
            lemma_small_mod((sum - TURN) as nat, TURN as nat);
        }
        sum - TURN
    } else {
        proof {
            lemma_small_mod(sum as nat, TURN as nat);
        }
        sum
    }
}

/// Ten times a remainder, as a remainder.
fn tenfold_in_turn(a: u128) -> (r: u128)
    requires
        a < TURN,
    ensures
        r < TURN,
        r == (a * 10) % (TURN as int),
{
    let two = sum_in_turn(a, a);
    let four = sum_in_turn(two, two);
    let five = sum_in_turn(four, a);
    let ten = sum_in_turn(five, five);
    proof {
        let m = TURN as int;
        lemma_add_mod_noop(a + a, a + a, m);
        lemma_add_mod_noop(4 * a, a as int, m);
        lemma_small_mod(a as nat, TURN as nat);
        lemma_add_mod_noop(5 * a, 5 * a, m);
    }
    ten
}

/// The remainder of `digits * 10^shift` after division by [`TURN`].
pub fn remainder_in_turn(digits: u128, shift: u32) -> (r: u128)
    ensures
        r < TURN,
        r == turn_remainder(digits as nat, shift as nat),
{
    let mut rest: u128 = digits % TURN;
    let mut i: u32 = 0;
    proof {
        assert(digits * pow10(0) == digits) by (nonlinear_arith)
            requires
                pow10(0) == 1,
        ;
    }
    while i < shift
        invariant
            i <= shift,
            rest < TURN,
            rest == turn_remainder(digits as nat, i as nat),
        decreases shift - i,
    {
        let ghost before = (digits * pow10(i as nat)) as int;
        rest = tenfold_in_turn(rest);
        proof {
            lemma_mul_mod_noop_left(before, 10, TURN as int);
            assert(before * 10 == digits * pow10((i + 1) as nat)) by (nonlinear_arith)
                requires
                    before == digits * pow10(i as nat),
                    pow10((i + 1) as nat) == 10 * pow10(i as nat),
            ;
        }
        i = i + 1;
    }
    rest
}

impl Number {
    /// The angle brought below one turn: an angle within the angle range,
    /// and whatever is no finite number, as it is; any other with the
    /// remainder that its coefficient at [`TURN_SCALE`] leaves after
    /// division by [`TURN`], and with its sign.
    pub open spec fn reduced(self) -> Number {
        if self.in_angle_range() || !(self is Finite) || self.scale_of() > TURN_SCALE as int {
            self
        } else {
            Number::Finite {
                negative: self.sign_bit(),
                digits: turn_remainder(self.coefficient(), (TURN_SCALE as int - self.scale_of()) as nat) as u128,
                scale: TURN_SCALE,
            }
        }
    }

    /// Every finite angle is within the angle range once it is reduced.
    pub proof fn law_reduced_is_within_range(self)
        requires
            self is Finite,
        ensures
            self.reduced().in_angle_range(),
    {
        if !self.in_angle_range() {
            let scale = self.scale_of();
            let c = self.coefficient();
            lemma_pow10_values();
            if scale > TURN_SCALE as int {
                lemma_pow10_grows(38, scale as nat);
                lemma_bounds_of_32(self, scale, c, pow10(scale as nat));
                assert(false);
            } else {
                let r = self.reduced();
                lemma_mod_bound((c * pow10((TURN_SCALE as int - scale) as nat)) as int, TURN as int);
                lemma_bounds_of_32(r, 37, r.coefficient(), pow10(37));
            }
        }
    }

    /// Brings an angle below one turn.
    pub fn reduce(&self) -> (r: Number)
        ensures
            r == self.reduced(),
            self is Finite ==> r.in_angle_range(),
    {
        proof {
            if self is Finite {
                self.law_reduced_is_within_range();
            }
        }
        if self.within_angle_range() {
            return *self;
        }
        match *self {
            Number::Finite { negative, digits, scale } => {
                if scale > TURN_SCALE {
                    *self
                } else {
                    let shift: u32 = (TURN_SCALE as i32 - scale as i32) as u32;
                    Number::Finite { negative, digits: remainder_in_turn(digits, shift), scale: TURN_SCALE }
                }
            },
            _ => *self,
        }
    }
}

/// The powers of ten next to the scale of the turn.
proof fn lemma_pow10_values()
    ensures
        pow10(0) == 1,
        pow10(37) == 10000000000000000000000000000000000000,
        pow10(38) == 100000000000000000000000000000000000000,
{
    reveal_with_fuel(pow10, 39);
}

/// A number of scale zero or more whose coefficient is below 32 at its own
/// scale lies between minus 32 and 32.
proof fn lemma_bounds_of_32(a: Number, scale: int, c: nat, p: nat)
    requires
        a is Finite,
        scale == a.scale_of(),
        scale >= 0,
        c == a.coefficient(),
        p == pow10(scale as nat),
        c < 32 * p,
        pow10(0) == 1,
    ensures
        a.in_angle_range(),
{
    let high = Number::whole(32);
    let low = Number::whole(-32);
    assert(high.common_scale(a) == scale && a.common_scale(high) == scale);
    assert(low.common_scale(a) == scale && a.common_scale(low) == scale);
    assert(a.aligned(scale) == c) by (nonlinear_arith)
        requires
            a.aligned(scale) == c * pow10(0),
            pow10(0) == 1,
    ;
    assert(high.aligned(scale) == 32 * p);
    assert(low.aligned(scale) == 32 * p);
}

/// Ten to a larger power is no less.
proof fn lemma_pow10_grows(low: nat, high: nat)
    requires
        low <= high,
    ensures
        pow10(low) <= pow10(high),
    decreases high,
{
    if low < high {
        lemma_pow10_grows(low, (high - 1) as nat);
    }
}

} // verus!
