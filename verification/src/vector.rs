//! Plane vectors and the change between the world frame and the car's frame.
use vstd::prelude::*;
use crate::fixed::{wide_product, Num};
use crate::root::{floor_sqrt, isqrt};

verus! {

/// A vector of two defined quantities.
#[derive(Clone, Copy, Debug, PartialEq, Eq, Structural)]
pub struct Vec2 {
    pub x: i64,
    pub y: i64,
}

/// A vector whose components may be undefined.
#[derive(Clone, Copy, Debug)]
pub struct NumVec2 {
    pub x: Num,
    pub y: Num,
}

/// The raw length of the vector with raw components `x` and `y`, rounded
/// down.
pub open spec fn norm(x: int, y: int) -> int {
    floor_sqrt(x * x + y * y)
}

impl Vec2 {
    /// The zero vector.
    pub open spec fn spec_zero() -> Vec2 {
        Vec2 { x: 0, y: 0 }
    }

    #[verifier::when_used_as_spec(spec_zero)]
    pub fn zero() -> (r: Vec2)
        ensures
            r == Vec2::spec_zero(),
    {
        Vec2 { x: 0, y: 0 }
    }

    /// Whether both components are in range.
    pub open spec fn in_range(self) -> bool {
        crate::fixed::in_range(self.x as int) && crate::fixed::in_range(self.y as int)
    }
}

impl NumVec2 {
    /// The vector with the components of `v`.
    pub open spec fn spec_of(v: Vec2) -> NumVec2 {
        NumVec2 { x: Num::of(v.x), y: Num::of(v.y) }
    }

    #[verifier::when_used_as_spec(spec_of)]
    pub fn of(v: Vec2) -> (r: NumVec2)
        ensures
            r == NumVec2::spec_of(v),
    {
        NumVec2 { x: Num::of(v.x), y: Num::of(v.y) }
    }

    /// Whether both components are defined.
    pub open spec fn is_defined(self) -> bool {
        self.x.is_defined() && self.y.is_defined()
    }

    /// The vector of the raw values of two defined components.
    pub open spec fn value(self) -> Vec2 {
        Vec2 { x: self.x.raw->0, y: self.y.raw->0 }
    }

    /// Component-wise sum.
    pub open spec fn spec_plus(self, rhs: NumVec2) -> NumVec2 {
        NumVec2 { x: self.x.plus(rhs.x), y: self.y.plus(rhs.y) }
    }

    #[verifier::when_used_as_spec(spec_plus)]
    pub fn plus(self, rhs: NumVec2) -> (r: NumVec2)
        ensures
            r == self.spec_plus(rhs),
    {
        NumVec2 { x: self.x.plus(rhs.x), y: self.y.plus(rhs.y) }
    }

    /// Length of the vector, rounded down to the last decimal place.
    pub open spec fn spec_length(self) -> Num {
        match (self.x.raw, self.y.raw) {
            (Some(a), Some(b)) => Num::lift(norm(a as int, b as int)),
            _ => Num::undefined(),
        }
    }

    #[verifier::when_used_as_spec(spec_length)]
    pub fn length(self) -> (r: Num)
        ensures
            r == self.spec_length(),
    {
        match (self.x.raw, self.y.raw) {
            (Some(a), Some(b)) => {
                assert(a * a >= 0 && b * b >= 0) by (nonlinear_arith);
                let square: u128 = wide_product(a, a) as u128 + wide_product(b, b) as u128;
                Num::narrow(isqrt(square) as i128)
            },
            _ => Num { raw: None },
        }
    }

    /// The world-frame vector `self` seen from a car with the given heading:
    /// `x` along the car, `y` across it.
    pub open spec fn spec_to_local(self, heading: Num) -> NumVec2 {
        let sin = heading.sin();
        let cos = heading.cos();
        NumVec2 {
            x: cos.times(self.x).plus(sin.times(self.y)),
            y: cos.times(self.y).minus(sin.times(self.x)),
        }
    }

    #[verifier::when_used_as_spec(spec_to_local)]
    pub fn to_local(self, heading: Num) -> (r: NumVec2)
        ensures
            r == self.spec_to_local(heading),
    {
        let sin: Num = heading.sin();
        let cos: Num = heading.cos();
        NumVec2 {
            x: cos.times(self.x).plus(sin.times(self.y)),
            y: cos.times(self.y).minus(sin.times(self.x)),
        }
    }

    /// The car-frame vector `self` of a car with the given heading, in the
    /// world frame.
    pub open spec fn spec_to_world(self, heading: Num) -> NumVec2 {
        let sin = heading.sin();
        let cos = heading.cos();
        NumVec2 {
            x: cos.times(self.x).minus(sin.times(self.y)),
            y: sin.times(self.x).plus(cos.times(self.y)),
        }
    }

    #[verifier::when_used_as_spec(spec_to_world)]
    pub fn to_world(self, heading: Num) -> (r: NumVec2)
        ensures
            r == self.spec_to_world(heading),
    {
        let sin: Num = heading.sin();
        let cos: Num = heading.cos();
        NumVec2 {
            x: cos.times(self.x).minus(sin.times(self.y)),
            y: sin.times(self.x).plus(cos.times(self.y)),
        }
    }
}

/// The length of a vector does not depend on the signs of its components.
pub proof fn lemma_norm_even(x: int, y: int)
    ensures
        norm(x, -y) == norm(x, y),
        norm(-x, y) == norm(x, y),
{
    assert((-y) * (-y) == y * y) by (nonlinear_arith);
    assert((-x) * (-x) == x * x) by (nonlinear_arith);
}

/// The zero vector has length zero.
pub proof fn lemma_norm_zero()
    ensures
        norm(0, 0) == 0,
{
    crate::root::lemma_floor_sqrt_is(0, 0);
}

/// Mirroring a vector at an axis keeps its length.
pub proof fn lemma_length_even(v: NumVec2)
    requires
        v.y.wf(),
    ensures
        (NumVec2 { x: v.x, y: v.y.neg() }).length() == v.length(),
{
    reveal(Num::spec_neg);
    if v.x.raw is Some && v.y.raw is Some {
        lemma_norm_even(v.x.raw->0 as int, v.y.raw->0 as int);
    }
}

} // verus!
