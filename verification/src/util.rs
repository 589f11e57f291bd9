//! Integer geometry of the screen.

use std::ops::{Add, Div, Mul, Neg, Sub};
use vstd::prelude::*;
use vstd::std_specs::convert::FromSpecImpl;
use vstd::std_specs::ops::{AddSpecImpl, DivSpecImpl, MulSpecImpl, NegSpecImpl, SubSpecImpl};

verus! {

/// A point or an extent on the integer grid of the screen: `x`, then `y`.
#[derive(Debug, Clone, Copy, Hash, PartialEq, Eq, Structural)]
pub struct Vec2I(pub i32, pub i32);

/// Whether `value` can be held by a component of a [`Vec2I`].
pub open spec fn fits(value: int) -> bool {
    i32::MIN <= value <= i32::MAX
}

impl Add for Vec2I {
    type Output = Self;

    /// The sum, component by component.
    fn add(self, rhs: Self) -> (sum: Self) {
        Vec2I(self.0 + rhs.0, self.1 + rhs.1)
    }
}

impl AddSpecImpl for Vec2I {
    open spec fn obeys_add_spec() -> bool {
        true
    }

    open spec fn add_req(self, rhs: Self) -> bool {
        fits(self.0 + rhs.0) && fits(self.1 + rhs.1)
    }

    open spec fn add_spec(self, rhs: Self) -> Self {
        Vec2I((self.0 + rhs.0) as i32, (self.1 + rhs.1) as i32)
    }
}

impl Neg for Vec2I {
    type Output = Self;

    /// The vector that points the other way.
    fn neg(self) -> (opposite: Self) {
        Vec2I(-self.0, -self.1)
    }
}

impl NegSpecImpl for Vec2I {
    open spec fn obeys_neg_spec() -> bool {
        true
    }

    open spec fn neg_req(self) -> bool {
        fits(-self.0) && fits(-self.1)
    }

    open spec fn neg_spec(self) -> Self {
        Vec2I((-self.0) as i32, (-self.1) as i32)
    }
}

impl Sub for Vec2I {
    type Output = Self;

    /// The difference, component by component, formed as the sum of `self`
    /// and the opposite of `rhs`.
    fn sub(self, rhs: Self) -> (difference: Self) {
        self.add(rhs.neg())
    }
}

impl SubSpecImpl for Vec2I {
    open spec fn obeys_sub_spec() -> bool {
        true
    }

    open spec fn sub_req(self, rhs: Self) -> bool {
        &&& fits(-rhs.0)
        &&& fits(-rhs.1)
        &&& fits(self.0 - rhs.0)
        &&& fits(self.1 - rhs.1)
    }

    open spec fn sub_spec(self, rhs: Self) -> Self {
        Vec2I((self.0 - rhs.0) as i32, (self.1 - rhs.1) as i32)
    }
}

impl Mul<i32> for Vec2I {
    type Output = Self;

    /// Both components scaled by `rhs`.
    fn mul(self, rhs: i32) -> (scaled: Self) {
        Vec2I(self.0 * rhs, self.1 * rhs)
    }
}

impl MulSpecImpl<i32> for Vec2I {
    open spec fn obeys_mul_spec() -> bool {
        true
    }

    open spec fn mul_req(self, rhs: i32) -> bool {
        fits(self.0 * rhs) && fits(self.1 * rhs)
    }

    open spec fn mul_spec(self, rhs: i32) -> Self {
        Vec2I((self.0 * rhs) as i32, (self.1 * rhs) as i32)
    }
}

/// The quotient of `a` by `b` rounded toward zero.
pub open spec fn quotient(a: int, b: int) -> int {
    let magnitude = (if a < 0 { -a } else { a }) / (if b < 0 { -b } else { b });
    if (a < 0) == (b < 0) {
        magnitude
    } else {
        -magnitude
    }
}

/// Divides `a` by `b`, rounding toward zero.
fn divide(a: i32, b: i32) -> (q: i32)
    requires
        b != 0,
        !(a == i32::MIN && b == -1),
    ensures
        q == quotient(a as int, b as int),
{
    if b > 0 {
        a / b
    } else if b == i32::MIN {
        if a == i32::MIN {
            1
        } else {
            0
        }
    } else {
        let positive: i32 = a / (-b);
        proof {
            let m = if a < 0 { -a } else { a as int };
            let c = -b;
            assert(0 <= m / c <= m && (c >= 2 && m > 0 ==> m / c < m)) by (nonlinear_arith)
                requires
                    m >= 0,
                    c > 0,
            ;
        }
        -positive
    }
}

impl Div<i32> for Vec2I {
    type Output = Self;

    /// Both components divided by `rhs`, each quotient rounded toward zero.
    fn div(self, rhs: i32) -> (shrunk: Self) {
        Vec2I(divide(self.0, rhs), divide(self.1, rhs))
    }
}

impl DivSpecImpl<i32> for Vec2I {
    open spec fn obeys_div_spec() -> bool {
        true
    }

    open spec fn div_req(self, rhs: i32) -> bool {
        &&& rhs != 0
        &&& rhs == -1 ==> self.0 != i32::MIN && self.1 != i32::MIN
    }

    open spec fn div_spec(self, rhs: i32) -> Self {
        Vec2I(quotient(self.0 as int, rhs as int) as i32, quotient(self.1 as int, rhs as int) as i32)
    }
}

impl From<(i32, i32)> for Vec2I {
    /// The vector with the pair's components.
    fn from(pair: (i32, i32)) -> (vector: Self) {
        Vec2I(pair.0, pair.1)
    }
}

impl FromSpecImpl<(i32, i32)> for Vec2I {
    open spec fn obeys_from_spec() -> bool {
        true
    }

    open spec fn from_spec(pair: (i32, i32)) -> Self {
        Vec2I(pair.0, pair.1)
    }
}

/// An axis-parallel rectangle on the integer grid.
#[derive(Debug, Clone, Copy, Hash, PartialEq, Eq, Structural)]
pub struct RectI {
    /// Where its origin corner lies.
    pub pos: Vec2I,
    /// Its width and height.
    pub dim: Vec2I,
}

} // verus!
