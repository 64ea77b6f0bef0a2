//! Absolute-ratio arithmetic: the larger magnitude of a pair of numbers
//! divided by the smaller, for 128-bit signed integers, non-zero integers,
//! and a generic family of ordered, negatable, divisible types.

use vstd::prelude::*;

verus! {

/// Magnitude of a mathematical integer: its distance from zero.
pub open spec fn mag(x: int) -> int {
    if x < 0 {
        -x
    } else {
        x
    }
}

/// The absolute ratio of two integers: the larger magnitude divided by the
/// smaller. Both operands of the division are non-negative, so Euclidean
/// and truncating division coincide.
pub open spec fn ratio(x: int, y: int) -> int {
    let a = mag(x);
    let b = mag(y);
    if a < b {
        b / a
    } else {
        a / b
    }
}

/// Magnitude of a signed 128-bit integer, widened to an unsigned 128-bit
/// value so that even the magnitude of `i128::MIN` is representable.
fn magnitude_u128(x: i128) -> (r: u128)
    ensures
        r == mag(x as int),
{
    if x == i128::MIN {
        0x8000_0000_0000_0000_0000_0000_0000_0000u128
    } else if x < 0 {
        (-x) as u128
    } else {
        x as u128
    }
}

/// Absolute ratio of two non-zero signed 128-bit integers: the larger
/// magnitude divided by the smaller, truncating toward zero.
pub fn abs_ratio_i(x: i128, y: i128) -> (r: u128)
    requires
        x != 0,
        y != 0,
    ensures
        r == ratio(x as int, y as int),
{
    let a = magnitude_u128(x);
    let b = magnitude_u128(y);
    if a < b {
        b / a
    } else {
        a / b
    }
}

/// Absolute ratio of two signed 128-bit integers, reporting the absence of
/// a result instead of failing when either input is zero.
pub fn checked_abs_ratio_i(x: i128, y: i128) -> (r: Option<u128>)
    ensures
        r is None <==> (x == 0 || y == 0),
        r matches Some(v) ==> v == ratio(x as int, y as int),
{
    let a = magnitude_u128(x);
    let b = magnitude_u128(y);
    if a < b {
        b.checked_div(a)
    } else {
        a.checked_div(b)
    }
}

/// A signed 128-bit integer whose valid range excludes zero by
/// construction, so that ratio computations on it need no zero check.
#[derive(Clone, Copy, Debug, PartialEq, Eq, Structural)]
pub struct NonZeroI128 {
    repr: i128,
}

impl NonZeroI128 {
    #[verifier::type_invariant]
    spec fn inv(self) -> bool {
        self.repr != 0
    }

    /// The integer this value stands for.
    pub closed spec fn value(self) -> int {
        self.repr as int
    }

    /// Wraps a signed integer; yields nothing when it is zero.
    pub fn new(v: i128) -> (r: Option<NonZeroI128>)
        ensures
            r is None <==> v == 0,
            r matches Some(n) ==> n.value() == v,
    {
        if v == 0 {
            None
        } else {
            Some(NonZeroI128 { repr: v })
        }
    }

    /// The wrapped integer, which is never zero.
    pub fn get(self) -> (r: i128)
        ensures
            r == self.value(),
            r != 0,
    {
        proof {
            use_type_invariant(self);
        }
        self.repr
    }
}

/// Absolute ratio of two non-zero signed 128-bit integers; the zero
/// precondition is carried by the input type, so this never fails.
pub fn abs_ratio_nz(x: NonZeroI128, y: NonZeroI128) -> (r: u128)
    ensures
        x.value() != 0 && y.value() != 0,
        r == ratio(x.value(), y.value()),
{
    proof {
        use_type_invariant(x);
        use_type_invariant(y);
    }
    let a = magnitude_u128(x.get());
    let b = magnitude_u128(y.get());
    if a < b {
        b / a
    } else {
        a / b
    }
}

/// What a type needs for the generic absolute ratio: a total-order
/// comparison, negation, and division, each described exactly by a spec
/// function that the implementing type supplies.
pub trait RatioOps: Sized {
    /// What the type's `le` comparison returns.
    spec fn le_spec(&self, other: &Self) -> bool;

    /// On which values negation is defined.
    spec fn can_neg(&self) -> bool;

    /// What negation returns.
    spec fn neg_spec(&self) -> Self;

    /// On which pairs division is defined.
    spec fn can_div(&self, other: &Self) -> bool;

    /// What division returns.
    spec fn div_spec(&self, other: &Self) -> Self;

    /// Whether `self` is at most `other` in the type's order.
    fn le(&self, other: &Self) -> (r: bool)
        ensures
            r == self.le_spec(other),
    ;

    /// The negation of `self`.
    fn neg(&self) -> (r: Self)
        requires
            self.can_neg(),
        ensures
            r == self.neg_spec(),
    ;

    /// `self` divided by `other`.
    fn div(&self, other: &Self) -> (r: Self)
        requires
            self.can_div(other),
        ensures
            r == self.div_spec(other),
    ;
}

/// The magnitude of `x` under its type's own order and negation: the
/// larger of `x` and `-x`, the negation winning a tie.
pub open spec fn abs_of<T: RatioOps>(x: T) -> T {
    if x.le_spec(&x.neg_spec()) {
        x.neg_spec()
    } else {
        x
    }
}

/// The generic absolute ratio: with `a` and `b` the magnitudes of `x` and
/// `y`, the larger of the two divided by the smaller.
pub open spec fn ratio_of<T: RatioOps>(x: T, y: T) -> T {
    let a = abs_of(x);
    let b = abs_of(y);
    if a.le_spec(&b) {
        b.div_spec(&a)
    } else {
        a.div_spec(&b)
    }
}

/// When the generic ratio of `x` and `y` is defined: both magnitudes can
/// be taken, and the larger is divisible by the smaller.
pub open spec fn ratio_of_req<T: RatioOps>(x: T, y: T) -> bool {
    let a = abs_of(x);
    let b = abs_of(y);
    &&& x.can_neg()
    &&& y.can_neg()
    &&& (a.le_spec(&b) ==> b.can_div(&a))
    &&& (!a.le_spec(&b) ==> a.can_div(&b))
}

/// The larger of `x` and its negation.
fn abs<T: RatioOps>(x: T) -> (r: T)
    requires
        x.can_neg(),
    ensures
        r == abs_of(x),
{
    let n = x.neg();
    if x.le(&n) {
        n
    } else {
        x
    }
}

/// Absolute ratio over any type with order, negation and division: the
/// larger magnitude divided by the smaller. Whether division is defined
/// on a zero (or any other) divisor is the instantiating type's policy.
pub fn abs_ratio<T: RatioOps>(x: T, y: T) -> (r: T)
    requires
        ratio_of_req(x, y),
    ensures
        r == ratio_of(x, y),
{
    let a = abs(x);
    let b = abs(y);
    if a.le(&b) {
        b.div(&a)
    } else {
        a.div(&b)
    }
}

/// Euclidean division negates its quotient when its divisor is negated.
proof fn lemma_div_negate_divisor(x: int, d: int)
    requires
        x >= 0,
        d > 0,
    ensures
        x / (-d) == -(x / d),
{
    assert(x / (-d) == -(x / d)) by (nonlinear_arith)
        requires
            x >= 0,
            d > 0,
    ;
}

/// Signed division as Rust's `/` computes it: the quotient of the
/// magnitudes, truncated toward zero, negated when the signs differ.
pub open spec fn trunc_div(x: int, y: int) -> int {
    if (x < 0) != (y < 0) {
        -(mag(x) / mag(y))
    } else {
        mag(x) / mag(y)
    }
}

/// A 128-bit signed integer with the ordinary order, negation and
/// truncating division, as an instance of the generic ratio family.
#[derive(Clone, Copy, Debug, PartialEq, Eq, Structural)]
pub struct Int128 {
    pub v: i128,
}

impl RatioOps for Int128 {
    open spec fn le_spec(&self, other: &Self) -> bool {
        self.v <= other.v
    }

    open spec fn can_neg(&self) -> bool {
        self.v != i128::MIN
    }

    open spec fn neg_spec(&self) -> Self {
        Int128 { v: (-(self.v as int)) as i128 }
    }

    open spec fn can_div(&self, other: &Self) -> bool {
        other.v != 0 && !(self.v == i128::MIN && other.v == -1)
    }

    open spec fn div_spec(&self, other: &Self) -> Self {
        Int128 { v: trunc_div(self.v as int, other.v as int) as i128 }
    }

    fn le(&self, other: &Self) -> (r: bool) {
        self.v <= other.v
    }

    fn neg(&self) -> (r: Self) {
        Int128 { v: -self.v }
    }

    fn div(&self, other: &Self) -> (r: Self) {
        let q = self.v / other.v;
        proof {
            let a = mag(self.v as int);
            let b = mag(other.v as int);
            vstd::arithmetic::div_mod::lemma_div_pos_is_pos(a, b);
            vstd::arithmetic::div_mod::lemma_div_nonincreasing(a, b);
            if other.v < 0 {
                lemma_div_negate_divisor(a, -(other.v as int));
            }
            if self.v == i128::MIN && other.v < 0 {
                vstd::arithmetic::div_mod::lemma_div_is_ordered_by_denominator(a, 2, b);
            }
            assert(q == trunc_div(self.v as int, other.v as int));
        }
        Int128 { v: q }
    }
}

/// The absolute ratio of two non-zero integers is at least 1: the larger
/// magnitude is divided by the smaller.
pub proof fn lemma_ratio_at_least_one(x: int, y: int)
    requires
        x != 0,
        y != 0,
    ensures
        ratio(x, y) >= 1,
{
    if mag(x) < mag(y) {
        vstd::arithmetic::div_mod::lemma_div_non_zero(mag(y), mag(x));
    } else {
        vstd::arithmetic::div_mod::lemma_div_non_zero(mag(x), mag(y));
    }
}

/// Sign invariance: the absolute ratio of two non-zero signed integers is
/// unchanged when both arguments are negated, or when the first one is,
/// wherever the negations are representable.
pub proof fn lemma_abs_ratio_sign_invariance(x: i128, y: i128)
    requires
        x != 0,
        y != 0,
        x != i128::MIN,
        y != i128::MIN,
    ensures
        ratio(x as int, y as int) == ratio(-(x as int), -(y as int)),
        ratio(x as int, y as int) == ratio(-(x as int), y as int),
{
}

/// On non-zero arguments whose negations are representable, the generic
/// absolute ratio instantiated at ordinary signed-integer semantics is
/// defined, and computes the same number as the integer absolute ratio.
pub proof fn lemma_generic_matches_integer(x: i128, y: i128)
    requires
        x != 0,
        y != 0,
        x != i128::MIN,
        y != i128::MIN,
    ensures
        ratio_of_req(Int128 { v: x }, Int128 { v: y }),
        ratio_of(Int128 { v: x }, Int128 { v: y }).v == ratio(x as int, y as int),
{
    let a = mag(x as int);
    let b = mag(y as int);
    vstd::arithmetic::div_mod::lemma_div_pos_is_pos(a, b);
    vstd::arithmetic::div_mod::lemma_div_nonincreasing(a, b);
    vstd::arithmetic::div_mod::lemma_div_pos_is_pos(b, a);
    vstd::arithmetic::div_mod::lemma_div_nonincreasing(b, a);
}

} // verus!
