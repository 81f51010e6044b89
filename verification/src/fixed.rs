//! Decimal fixed-point arithmetic.
//!
//! Every physical quantity of the model is an `i64` counting millionths of
//! its unit (metres, seconds, radians, newtons, ...). Products and quotients
//! are rounded toward zero, so that negating an operand negates the result.
//! A quantity whose magnitude would exceed [`LIMIT`] is *undefined*; the
//! type [`Num`] carries either a quantity or the fact that it is undefined,
//! and every operation on an undefined operand is undefined.
use vstd::prelude::*;

verus! {

/// Raw units per whole unit: quantities carry six decimal places.
pub const SCALE: i64 = 1_000_000;

/// Largest magnitude, in raw units, of a defined quantity.
pub const LIMIT: i64 = 1_000_000_000_000_000_000;

/// Absolute value of an integer.
pub open spec fn magnitude(x: int) -> int {
    if x < 0 {
        -x
    } else {
        x
    }
}

/// Whether `x` is the raw value of a defined quantity.
pub open spec fn in_range(x: int) -> bool {
    -LIMIT <= x <= LIMIT
}

/// `a / b` rounded toward zero. Meaningful for `b != 0`.
pub open spec fn quot(a: int, b: int) -> int {
    if (a >= 0) == (b > 0) {
        magnitude(a) / magnitude(b)
    } else {
        -(magnitude(a) / magnitude(b))
    }
}

/// Raw value of the product of the quantities with raw values `a` and `b`.
pub open spec fn product(a: int, b: int) -> int {
    quot(a * b, SCALE as int)
}

/// Raw value of the quotient of the quantities with raw values `a` and `b`.
pub open spec fn ratio(a: int, b: int) -> int {
    quot(a * SCALE, b)
}

/// `x` limited to the interval from `lo` to `hi`: first raised to `lo`, then
/// lowered to `hi`.
pub open spec fn clamped(x: int, lo: int, hi: int) -> int {
    let raised = if x < lo { lo } else { x };
    if raised > hi {
        hi
    } else {
        raised
    }
}

/// Sign of `x` as an integer: -1, 0 or 1.
pub open spec fn sign(x: int) -> int {
    if x > 0 {
        1
    } else if x < 0 {
        -1
    } else {
        0
    }
}

/// A quantity, or the mark that it is undefined.
#[derive(Clone, Copy, Debug)]
pub struct Num {
    /// The raw value, `None` when the quantity is undefined.
    pub raw: Option<i64>,
}

impl Num {
    /// The quantity with raw value `x`, undefined when `x` is out of range.
    pub open spec fn lift(x: int) -> Num {
        if in_range(x) {
            Num { raw: Some(x as i64) }
        } else {
            Num { raw: None }
        }
    }

    /// The undefined quantity.
    pub open spec fn undefined() -> Num {
        Num { raw: None }
    }

    /// Whether the quantity is defined.
    pub open spec fn is_defined(self) -> bool {
        self.raw is Some
    }

    /// Raw value of a defined quantity.
    pub open spec fn value(self) -> int {
        self.raw->0 as int
    }

    /// Whether the raw value, if there is one, is in range. Every operation
    /// gives such a quantity.
    pub open spec fn wf(self) -> bool {
        self.raw is Some ==> in_range(self.raw->0 as int)
    }

    /// The sum, undefined when it leaves the range.
    #[verifier::opaque]
    pub open spec fn spec_plus(self, rhs: Num) -> Num {
        match (self.raw, rhs.raw) {
            (Some(a), Some(b)) => Num::lift(a + b),
            _ => Num::undefined(),
        }
    }

    /// The difference, undefined when it leaves the range.
    #[verifier::opaque]
    pub open spec fn spec_minus(self, rhs: Num) -> Num {
        match (self.raw, rhs.raw) {
            (Some(a), Some(b)) => Num::lift(a - b),
            _ => Num::undefined(),
        }
    }

    /// The product rounded toward zero, undefined when it leaves the range.
    #[verifier::opaque]
    pub open spec fn spec_times(self, rhs: Num) -> Num {
        match (self.raw, rhs.raw) {
            (Some(a), Some(b)) => Num::lift(product(a as int, b as int)),
            _ => Num::undefined(),
        }
    }

    /// The quotient rounded toward zero, undefined when it leaves the range
    /// or the divisor is zero.
    #[verifier::opaque]
    pub open spec fn spec_over(self, rhs: Num) -> Num {
        match (self.raw, rhs.raw) {
            (Some(a), Some(b)) => if b == 0 {
                Num::undefined()
            } else {
                Num::lift(ratio(a as int, b as int))
            },
            _ => Num::undefined(),
        }
    }

    /// The negative.
    #[verifier::opaque]
    pub open spec fn spec_neg(self) -> Num {
        match self.raw {
            Some(a) => Num::lift(-a),
            None => Num::undefined(),
        }
    }

    /// The magnitude.
    #[verifier::opaque]
    pub open spec fn spec_abs(self) -> Num {
        match self.raw {
            Some(a) => Num::lift(magnitude(a as int)),
            None => Num::undefined(),
        }
    }

    /// The sign as a quantity: minus one, zero or one.
    #[verifier::opaque]
    pub open spec fn spec_signum(self) -> Num {
        match self.raw {
            Some(a) => Num::lift(sign(a as int) * SCALE),
            None => Num::undefined(),
        }
    }

    /// The smaller of two quantities.
    #[verifier::opaque]
    pub open spec fn spec_smaller(self, rhs: Num) -> Num {
        match (self.raw, rhs.raw) {
            (Some(a), Some(b)) => Num::lift(if a <= b { a as int } else { b as int }),
            _ => Num::undefined(),
        }
    }

    /// The quantity raised to `lo`, then lowered to `hi`.
    #[verifier::opaque]
    pub open spec fn spec_clamp(self, lo: Num, hi: Num) -> Num {
        match (self.raw, lo.raw, hi.raw) {
            (Some(x), Some(l), Some(h)) => Num::lift(clamped(x as int, l as int, h as int)),
            _ => Num::undefined(),
        }
    }

    /// Whether both quantities are defined and `self` is strictly below `rhs`.
    pub open spec fn spec_below(self, rhs: Num) -> bool {
        match (self.raw, rhs.raw) {
            (Some(a), Some(b)) => a < b,
            _ => false,
        }
    }

    /// Whether the quantity is defined and zero.
    pub open spec fn spec_is_zero(self) -> bool {
        self.raw == Some(0i64)
    }

    /// The quantity with raw value `x`.
    #[verifier::when_used_as_spec(spec_of)]
    pub fn of(x: i64) -> (r: Num)
        ensures
            r == Num::lift(x as int),
    {
        if -LIMIT <= x && x <= LIMIT {
            Num { raw: Some(x) }
        } else {
            Num { raw: None }
        }
    }

    /// The quantity with raw value `x`, undefined when `x` is out of range.
    pub open spec fn spec_of(x: i64) -> Num {
        Num::lift(x as int)
    }

    /// The quantity with raw value `x`, which may be wider than a quantity.
    pub fn narrow(x: i128) -> (r: Num)
        ensures
            r == Num::lift(x as int),
    {
        if -(LIMIT as i128) <= x && x <= LIMIT as i128 {
            Num { raw: Some(x as i64) }
        } else {
            Num { raw: None }
        }
    }

    #[verifier::when_used_as_spec(spec_plus)]
    pub fn plus(self, rhs: Num) -> (r: Num)
        ensures
            r == self.spec_plus(rhs),
    {
        proof {
            reveal(Num::spec_plus);
        }
        match (self.raw, rhs.raw) {
            (Some(a), Some(b)) => Num::narrow(a as i128 + b as i128),
            _ => Num { raw: None },
        }
    }

    #[verifier::when_used_as_spec(spec_minus)]
    pub fn minus(self, rhs: Num) -> (r: Num)
        ensures
            r == self.spec_minus(rhs),
    {
        proof {
            reveal(Num::spec_minus);
        }
        match (self.raw, rhs.raw) {
            (Some(a), Some(b)) => Num::narrow(a as i128 - b as i128),
            _ => Num { raw: None },
        }
    }

    #[verifier::when_used_as_spec(spec_times)]
    pub fn times(self, rhs: Num) -> (r: Num)
        ensures
            r == self.spec_times(rhs),
    {
        proof {
            reveal(Num::spec_times);
        }
        match (self.raw, rhs.raw) {
            (Some(a), Some(b)) => {
                let wide: i128 = wide_product(a, b);
                Num::narrow(wide / (SCALE as i128))
            },
            _ => Num { raw: None },
        }
    }

    #[verifier::when_used_as_spec(spec_over)]
    pub fn over(self, rhs: Num) -> (r: Num)
        ensures
            r == self.spec_over(rhs),
    {
        proof {
            reveal(Num::spec_over);
        }
        match (self.raw, rhs.raw) {
            (Some(a), Some(b)) => {
                if b == 0 {
                    Num { raw: None }
                } else {
                    let wide: i128 = wide_product(a, SCALE);
                    if b > 0 {
                        Num::narrow(wide / (b as i128))
                    } else {
                        Num::narrow((-wide) / (-(b as i128)))
                    }
                }
            },
            _ => Num { raw: None },
        }
    }

    #[verifier::when_used_as_spec(spec_neg)]
    pub fn neg(self) -> (r: Num)
        ensures
            r == self.spec_neg(),
    {
        proof {
            reveal(Num::spec_neg);
        }
        match self.raw {
            Some(a) => Num::narrow(-(a as i128)),
            None => Num { raw: None },
        }
    }

    #[verifier::when_used_as_spec(spec_abs)]
    pub fn abs(self) -> (r: Num)
        ensures
            r == self.spec_abs(),
    {
        proof {
            reveal(Num::spec_abs);
        }
        match self.raw {
            Some(a) => if a < 0 {
                Num::narrow(-(a as i128))
            } else {
                Num::narrow(a as i128)
            },
            None => Num { raw: None },
        }
    }

    #[verifier::when_used_as_spec(spec_signum)]
    pub fn signum(self) -> (r: Num)
        ensures
            r == self.spec_signum(),
    {
        proof {
            reveal(Num::spec_signum);
        }
        match self.raw {
            Some(a) => if a > 0 {
                Num { raw: Some(SCALE) }
            } else if a < 0 {
                Num { raw: Some(-SCALE) }
            } else {
                Num { raw: Some(0) }
            },
            None => Num { raw: None },
        }
    }

    #[verifier::when_used_as_spec(spec_smaller)]
    pub fn smaller(self, rhs: Num) -> (r: Num)
        ensures
            r == self.spec_smaller(rhs),
    {
        proof {
            reveal(Num::spec_smaller);
        }
        match (self.raw, rhs.raw) {
            (Some(a), Some(b)) => if a <= b {
                Num::of(a)
            } else {
                Num::of(b)
            },
            _ => Num { raw: None },
        }
    }

    #[verifier::when_used_as_spec(spec_clamp)]
    pub fn clamp(self, lo: Num, hi: Num) -> (r: Num)
        ensures
            r == self.spec_clamp(lo, hi),
    {
        proof {
            reveal(Num::spec_clamp);
        }
        match (self.raw, lo.raw, hi.raw) {
            (Some(x), Some(l), Some(h)) => {
                let raised: i64 = if x < l { l } else { x };
                if raised > h {
                    Num::of(h)
                } else {
                    Num::of(raised)
                }
            },
            _ => Num { raw: None },
        }
    }

    #[verifier::when_used_as_spec(spec_below)]
    pub fn below(self, rhs: Num) -> (r: bool)
        ensures
            r == self.spec_below(rhs),
    {
        match (self.raw, rhs.raw) {
            (Some(a), Some(b)) => a < b,
            _ => false,
        }
    }

    #[verifier::when_used_as_spec(spec_is_zero)]
    pub fn is_zero(self) -> (r: bool)
        ensures
            r == self.spec_is_zero(),
    {
        match self.raw {
            Some(a) => a == 0,
            None => false,
        }
    }
}

/// The exact product of two raw values, which always fits in 128 bits.
pub fn wide_product(a: i64, b: i64) -> (r: i128)
    ensures
        r == a * b,
        -0x4000_0000_0000_0000_0000_0000_0000_0000 <= r <= 0x4000_0000_0000_0000_0000_0000_0000_0000,
{
    let x: i128 = a as i128;
    let y: i128 = b as i128;
    assert(-0x4000_0000_0000_0000_0000_0000_0000_0000 <= x * y
        <= 0x4000_0000_0000_0000_0000_0000_0000_0000) by (nonlinear_arith)
        requires
            -0x8000_0000_0000_0000 <= x <= 0x8000_0000_0000_0000,
            -0x8000_0000_0000_0000 <= y <= 0x8000_0000_0000_0000,
    ;
    x * y
}

/// Rounding toward zero commutes with negation.
pub proof fn lemma_quot_neg(a: int, b: int)
    requires
        b != 0,
    ensures
        quot(-a, b) == -quot(a, b),
        quot(a, -b) == -quot(a, b),
{
}

/// The product of quantities is odd in each factor.
pub proof fn lemma_product_neg(a: int, b: int)
    ensures
        product(-a, b) == -product(a, b),
        product(a, -b) == -product(a, b),
{
    assert((-a) * b == -(a * b)) by (nonlinear_arith);
    assert(a * (-b) == -(a * b)) by (nonlinear_arith);
    lemma_quot_neg(a * b, SCALE as int);
}

/// The quotient of quantities is odd in the dividend and in the divisor.
pub proof fn lemma_ratio_neg(a: int, b: int)
    requires
        b != 0,
    ensures
        ratio(-a, b) == -ratio(a, b),
        ratio(a, -b) == -ratio(a, b),
{
    assert((-a) * SCALE == -(a * SCALE)) by (nonlinear_arith);
    lemma_quot_neg(a * SCALE, b);
}

/// A product with zero is zero, and a product with one is the other factor.
pub proof fn lemma_product_unit(a: int)
    ensures
        product(a, 0) == 0,
        product(0, a) == 0,
        product(a, SCALE as int) == a,
        product(SCALE as int, a) == a,
{
    assert(a * 0 == 0 && 0 * a == 0) by (nonlinear_arith);
    assert(a * 1_000_000 == 1_000_000 * a) by (nonlinear_arith);
    if a >= 0 {
        assert((a * 1_000_000) / 1_000_000 == a) by (nonlinear_arith)
            requires
                a >= 0,
        ;
    } else {
        assert(-(a * 1_000_000) == (-a) * 1_000_000) by (nonlinear_arith);
        assert(((-a) * 1_000_000) / 1_000_000 == -a) by (nonlinear_arith)
            requires
                a < 0,
        ;
    }
}

/// The magnitude of a product is the product of the magnitudes, so a product
/// grows with the magnitude of each factor.
pub proof fn lemma_product_magnitude(a: int, b: int, l: int)
    requires
        magnitude(a) <= magnitude(b),
    ensures
        magnitude(product(a, l)) <= magnitude(product(b, l)),
{
    let ma = magnitude(a);
    let mb = magnitude(b);
    let ml = magnitude(l);
    assert(magnitude(a * l) == ma * ml) by (nonlinear_arith)
        requires
            ma == magnitude(a),
            ml == magnitude(l),
    ;
    assert(magnitude(b * l) == mb * ml) by (nonlinear_arith)
        requires
            mb == magnitude(b),
            ml == magnitude(l),
    ;
    assert(ma * ml <= mb * ml) by (nonlinear_arith)
        requires
            0 <= ma <= mb,
            0 <= ml,
    ;
    assert((ma * ml) / 1_000_000 <= (mb * ml) / 1_000_000) by (nonlinear_arith)
        requires
            ma * ml <= mb * ml,
    ;
    assert(0 <= (ma * ml) / 1_000_000) by (nonlinear_arith)
        requires
            0 <= ma * ml,
    ;
    assert(0 <= ma * ml) by (nonlinear_arith)
        requires
            0 <= ma,
            0 <= ml,
    ;
}

/// Negating the operands of an operation negates its result, or leaves it as
/// it is where the operation is even.
pub proof fn lemma_num_neg(a: Num, b: Num)
    requires
        a.wf(),
        b.wf(),
    ensures
        a.neg().neg() == a,
        a.neg().is_defined() == a.is_defined(),
        a.neg().times(b) == a.times(b).neg(),
        a.times(b.neg()) == a.times(b).neg(),
        a.neg().times(b.neg()) == a.times(b),
        a.neg().over(b) == a.over(b).neg(),
        a.neg().plus(b.neg()) == a.plus(b).neg(),
        a.neg().minus(b.neg()) == a.minus(b).neg(),
        a.neg().abs() == a.abs(),
        a.neg().signum() == a.signum().neg(),
{
    reveal(Num::spec_neg);
    reveal(Num::spec_times);
    reveal(Num::spec_over);
    reveal(Num::spec_plus);
    reveal(Num::spec_minus);
    reveal(Num::spec_abs);
    reveal(Num::spec_signum);
    if a.raw is Some && b.raw is Some {
        let x = a.raw->0 as int;
        let y = b.raw->0 as int;
        lemma_product_neg(x, y);
        lemma_product_neg(-x, y);
        if y != 0 {
            lemma_ratio_neg(x, y);
        }
    }
}

/// Limiting to a range that is symmetric about zero commutes with negation.
pub proof fn lemma_clamp_neg(x: Num, g: Num)
    requires
        x.wf(),
        g.wf(),
        g.is_defined() ==> g.value() >= 0,
    ensures
        x.neg().clamp(g.neg(), g) == x.clamp(g.neg(), g).neg(),
{
    reveal(Num::spec_neg);
    reveal(Num::spec_clamp);
}

/// Every operation gives a well-formed quantity, and an undefined operand
/// gives an undefined result.
pub proof fn lemma_num_wf(a: Num, b: Num, c: Num)
    ensures
        a.plus(b).wf(),
        a.minus(b).wf(),
        a.times(b).wf(),
        a.over(b).wf(),
        a.neg().wf(),
        a.abs().wf(),
        a.signum().wf(),
        a.smaller(b).wf(),
        a.clamp(b, c).wf(),
        a.plus(b).is_defined() ==> a.is_defined() && b.is_defined(),
        a.minus(b).is_defined() ==> a.is_defined() && b.is_defined(),
        a.times(b).is_defined() ==> a.is_defined() && b.is_defined(),
        a.over(b).is_defined() ==> a.is_defined() && b.is_defined(),
        a.neg().is_defined() ==> a.is_defined(),
        a.abs().is_defined() ==> a.is_defined() && a.abs().value() >= 0,
        a.signum().is_defined() ==> a.is_defined(),
        a.smaller(b).is_defined() ==> a.is_defined() && b.is_defined(),
        a.clamp(b, c).is_defined() ==> a.is_defined() && b.is_defined() && c.is_defined(),
{
    reveal(Num::spec_neg);
    reveal(Num::spec_times);
    reveal(Num::spec_over);
    reveal(Num::spec_plus);
    reveal(Num::spec_minus);
    reveal(Num::spec_abs);
    reveal(Num::spec_signum);
    reveal(Num::spec_smaller);
    reveal(Num::spec_clamp);
}

/// The facts of [`lemma_num_wf`], [`lemma_num_neg`] and [`lemma_clamp_neg`]
/// for all quantities at once.
pub proof fn lemma_num_rules()
    ensures
        forall|a: Num, b: Num| (#[trigger] a.plus(b)).wf() && (a.plus(b).is_defined() ==> a.is_defined() && b.is_defined()),
        forall|a: Num, b: Num| (#[trigger] a.minus(b)).wf() && (a.minus(b).is_defined() ==> a.is_defined() && b.is_defined()),
        forall|a: Num, b: Num| (#[trigger] a.times(b)).wf() && (a.times(b).is_defined() ==> a.is_defined() && b.is_defined()),
        forall|a: Num, b: Num| (#[trigger] a.over(b)).wf() && (a.over(b).is_defined() ==> a.is_defined() && b.is_defined()),
        forall|a: Num| (#[trigger] a.neg()).wf() && (a.neg().is_defined() ==> a.is_defined()),
        forall|a: Num| (#[trigger] a.abs()).wf() && (a.abs().is_defined() ==> a.is_defined() && a.abs().value() >= 0),
        forall|a: Num| (#[trigger] a.signum()).wf() && (a.signum().is_defined() ==> a.is_defined()),
        forall|a: Num, b: Num| (#[trigger] a.smaller(b)).wf() && (a.smaller(b).is_defined() ==> a.is_defined() && b.is_defined()),
        forall|a: Num, b: Num, c: Num|
            (#[trigger] a.clamp(b, c)).wf() && (a.clamp(b, c).is_defined() ==> a.is_defined()
                && b.is_defined() && c.is_defined()),
        forall|a: Num| a.wf() ==> #[trigger] a.neg().neg() == a,
        forall|a: Num| a.wf() ==> (#[trigger] a.neg()).is_defined() == a.is_defined(),
        forall|a: Num, b: Num| a.wf() && b.wf() ==> #[trigger] a.neg().times(b) == a.times(b).neg(),
        forall|a: Num, b: Num| a.wf() && b.wf() ==> #[trigger] a.times(b.neg()) == a.times(b).neg(),
        forall|a: Num, b: Num| a.wf() && b.wf() ==> #[trigger] a.neg().over(b) == a.over(b).neg(),
        forall|a: Num, b: Num| a.wf() && b.wf() ==> #[trigger] a.neg().plus(b.neg()) == a.plus(b).neg(),
        forall|a: Num, b: Num| a.wf() && b.wf() ==> #[trigger] a.neg().minus(b.neg()) == a.minus(b).neg(),
        forall|a: Num| a.wf() ==> #[trigger] a.neg().abs() == a.abs(),
        forall|a: Num| a.wf() ==> #[trigger] a.neg().signum() == a.signum().neg(),
        forall|x: Num, g: Num|
            x.wf() && g.wf() && (g.is_defined() ==> g.value() >= 0) ==> #[trigger] x.neg().clamp(
                g.neg(),
                g,
            ) == x.clamp(g.neg(), g).neg(),
{
    assert forall|a: Num, b: Num| (#[trigger] a.plus(b)).wf() && (a.plus(b).is_defined() ==> a.is_defined() && b.is_defined()) by {
        lemma_num_wf(a, b, b);
    }
    assert forall|a: Num, b: Num| (#[trigger] a.minus(b)).wf() && (a.minus(b).is_defined() ==> a.is_defined() && b.is_defined()) by {
        lemma_num_wf(a, b, b);
    }
    assert forall|a: Num, b: Num| (#[trigger] a.times(b)).wf() && (a.times(b).is_defined() ==> a.is_defined() && b.is_defined()) by {
        lemma_num_wf(a, b, b);
    }
    assert forall|a: Num, b: Num| (#[trigger] a.over(b)).wf() && (a.over(b).is_defined() ==> a.is_defined() && b.is_defined()) by {
        lemma_num_wf(a, b, b);
    }
    assert forall|a: Num| (#[trigger] a.neg()).wf() && (a.neg().is_defined() ==> a.is_defined()) by {
        lemma_num_wf(a, a, a);
    }
    assert forall|a: Num| (#[trigger] a.abs()).wf() && (a.abs().is_defined() ==> a.is_defined() && a.abs().value() >= 0) by {
        lemma_num_wf(a, a, a);
    }
    assert forall|a: Num| (#[trigger] a.signum()).wf() && (a.signum().is_defined() ==> a.is_defined()) by {
        lemma_num_wf(a, a, a);
    }
    assert forall|a: Num, b: Num| (#[trigger] a.smaller(b)).wf() && (a.smaller(b).is_defined() ==> a.is_defined() && b.is_defined()) by {
        lemma_num_wf(a, b, b);
    }
    assert forall|a: Num, b: Num, c: Num|
        (#[trigger] a.clamp(b, c)).wf() && (a.clamp(b, c).is_defined() ==> a.is_defined()
            && b.is_defined() && c.is_defined()) by {
        lemma_num_wf(a, b, c);
    }
    assert forall|a: Num| a.wf() implies #[trigger] a.neg().neg() == a by {
        lemma_num_neg(a, a);
    }
    assert forall|a: Num| a.wf() implies (#[trigger] a.neg()).is_defined() == a.is_defined() by {
        lemma_num_neg(a, a);
    }
    assert forall|a: Num, b: Num| a.wf() && b.wf() implies #[trigger] a.neg().times(b) == a.times(b).neg() by {
        lemma_num_neg(a, b);
    }
    assert forall|a: Num, b: Num| a.wf() && b.wf() implies #[trigger] a.times(b.neg()) == a.times(b).neg() by {
        lemma_num_neg(a, b);
    }
    assert forall|a: Num, b: Num| a.wf() && b.wf() implies #[trigger] a.neg().over(b) == a.over(b).neg() by {
        lemma_num_neg(a, b);
    }
    assert forall|a: Num, b: Num| a.wf() && b.wf() implies #[trigger] a.neg().plus(b.neg()) == a.plus(b).neg() by {
        lemma_num_neg(a, b);
    }
    assert forall|a: Num, b: Num| a.wf() && b.wf() implies #[trigger] a.neg().minus(b.neg()) == a.minus(b).neg() by {
        lemma_num_neg(a, b);
    }
    assert forall|a: Num| a.wf() implies #[trigger] a.neg().abs() == a.abs() by {
        lemma_num_neg(a, a);
    }
    assert forall|a: Num| a.wf() implies #[trigger] a.neg().signum() == a.signum().neg() by {
        lemma_num_neg(a, a);
    }
    assert forall|x: Num, g: Num|
        x.wf() && g.wf() && (g.is_defined() ==> g.value() >= 0) implies #[trigger] x.neg().clamp(
            g.neg(),
            g,
        ) == x.clamp(g.neg(), g).neg() by {
        lemma_clamp_neg(x, g);
    }
}

/// Zero and one behave as they should: zero annihilates a defined factor
/// and is neutral in sums, one is neutral in products.
pub proof fn lemma_num_units(a: Num)
    requires
        a.wf(),
        a.is_defined(),
    ensures
        a.times(Num::of(0)) == Num::of(0),
        Num::of(0).times(a) == Num::of(0),
        a.times(Num::of(SCALE)) == a,
        Num::of(SCALE).times(a) == a,
        a.plus(Num::of(0)) == a,
        Num::of(0).plus(a) == a,
        a.minus(Num::of(0)) == a,
        Num::of(0).minus(a) == a.neg(),
        a.value() != 0 ==> Num::of(0).over(a) == Num::of(0),
        Num::of(0).neg() == Num::of(0),
        Num::of(0).abs() == Num::of(0),
        Num::of(0).signum() == Num::of(0),
        a.value() >= 0 ==> Num::of(0).clamp(a.neg(), a) == Num::of(0),
{
    reveal(Num::spec_neg);
    reveal(Num::spec_times);
    reveal(Num::spec_over);
    reveal(Num::spec_plus);
    reveal(Num::spec_minus);
    reveal(Num::spec_abs);
    reveal(Num::spec_signum);
    reveal(Num::spec_clamp);
    lemma_product_unit(a.value());
    assert(0 * SCALE == 0) by (nonlinear_arith);
    if a.value() != 0 {
        assert(0int / magnitude(a.value()) == 0) by (nonlinear_arith)
            requires
                magnitude(a.value()) > 0,
        ;
    }
}

/// The facts of [`lemma_num_units`] for all quantities at once.
pub proof fn lemma_num_unit_rules()
    ensures
        forall|a: Num| a.wf() && a.is_defined() ==> #[trigger] a.times(Num::of(0)) == Num::of(0),
        forall|a: Num| a.wf() && a.is_defined() ==> #[trigger] Num::of(0).times(a) == Num::of(0),
        forall|a: Num| a.wf() && a.is_defined() ==> #[trigger] a.times(Num::of(SCALE)) == a,
        forall|a: Num| a.wf() && a.is_defined() ==> #[trigger] Num::of(SCALE).times(a) == a,
        forall|a: Num| a.wf() && a.is_defined() ==> #[trigger] a.plus(Num::of(0)) == a,
        forall|a: Num| a.wf() && a.is_defined() ==> #[trigger] Num::of(0).plus(a) == a,
        forall|a: Num| a.wf() && a.is_defined() ==> #[trigger] a.minus(Num::of(0)) == a,
        forall|a: Num| a.wf() && a.is_defined() ==> #[trigger] Num::of(0).minus(a) == a.neg(),
        forall|a: Num|
            a.wf() && a.is_defined() && a.value() != 0 ==> #[trigger] Num::of(0).over(a) == Num::of(0),
        forall|a: Num|
            a.wf() && a.is_defined() && a.value() >= 0 ==> #[trigger] Num::of(0).clamp(a.neg(), a)
                == Num::of(0),
        Num::of(0).neg() == Num::of(0),
        Num::of(0).abs() == Num::of(0),
        Num::of(0).signum() == Num::of(0),
{
    assert forall|a: Num| a.wf() && a.is_defined() implies #[trigger] a.times(Num::of(0)) == Num::of(0) by {
        lemma_num_units(a);
    }
    assert forall|a: Num| a.wf() && a.is_defined() implies #[trigger] Num::of(0).times(a) == Num::of(0) by {
        lemma_num_units(a);
    }
    assert forall|a: Num| a.wf() && a.is_defined() implies #[trigger] a.times(Num::of(SCALE)) == a by {
        lemma_num_units(a);
    }
    assert forall|a: Num| a.wf() && a.is_defined() implies #[trigger] Num::of(SCALE).times(a) == a by {
        lemma_num_units(a);
    }
    assert forall|a: Num| a.wf() && a.is_defined() implies #[trigger] a.plus(Num::of(0)) == a by {
        lemma_num_units(a);
    }
    assert forall|a: Num| a.wf() && a.is_defined() implies #[trigger] Num::of(0).plus(a) == a by {
        lemma_num_units(a);
    }
    assert forall|a: Num| a.wf() && a.is_defined() implies #[trigger] a.minus(Num::of(0)) == a by {
        lemma_num_units(a);
    }
    assert forall|a: Num| a.wf() && a.is_defined() implies #[trigger] Num::of(0).minus(a) == a.neg() by {
        lemma_num_units(a);
    }
    assert forall|a: Num| a.wf() && a.is_defined() && a.value() != 0 implies #[trigger] Num::of(0).over(a)
        == Num::of(0) by {
        lemma_num_units(a);
    }
    assert forall|a: Num| a.wf() && a.is_defined() && a.value() >= 0 implies #[trigger] Num::of(0).clamp(
        a.neg(),
        a,
    ) == Num::of(0) by {
        lemma_num_units(a);
    }
    lemma_num_units(Num::of(0));
}

} // verus!
