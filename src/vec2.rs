//! Vectors in the plane.
use vstd::prelude::*;
use crate::scalar::{
    decimal, decimal_string, divisible, fits, mag,
    magnitude, quot, quotient,
};

verus! {

/// The componentwise sum of `u` and `v`.
pub open spec fn add2(u: (int, int), v: (int, int)) -> (int, int) {
    (u.0 + v.0, u.1 + v.1)
}

/// The componentwise difference of `u` and `v`.
pub open spec fn sub2(u: (int, int), v: (int, int)) -> (int, int) {
    (u.0 - v.0, u.1 - v.1)
}

/// The componentwise product of `u` and `v`.
pub open spec fn mul2(u: (int, int), v: (int, int)) -> (int, int) {
    (u.0 * v.0, u.1 * v.1)
}

/// `u` with each component multiplied by `k`.
pub open spec fn scale2(u: (int, int), k: int) -> (int, int) {
    (u.0 * k, u.1 * k)
}

/// The componentwise quotient of `u` by `v`, rounded toward zero.
pub open spec fn div2(u: (int, int), v: (int, int)) -> (int, int) {
    (quot(u.0, v.0), quot(u.1, v.1))
}

/// `u` with each component divided by `k`, rounded toward zero.
pub open spec fn div2_by(u: (int, int), k: int) -> (int, int) {
    (quot(u.0, k), quot(u.1, k))
}

/// `k` divided by each component of `u`, rounded toward zero.
pub open spec fn div2_into(k: int, u: (int, int)) -> (int, int) {
    (quot(k, u.0), quot(k, u.1))
}

/// `u` with each component negated.
pub open spec fn neg2(u: (int, int)) -> (int, int) {
    (-u.0, -u.1)
}

/// `u` with each component replaced by its absolute value.
pub open spec fn abs2(u: (int, int)) -> (int, int) {
    (mag(u.0), mag(u.1))
}

/// The left-hand perpendicular of `u`: `(-y, x)`.
pub open spec fn normal2(u: (int, int)) -> (int, int) {
    (-u.1, u.0)
}

/// The dot product of `u` and `v`.
pub open spec fn dot2(u: (int, int), v: (int, int)) -> int {
    u.0 * v.0 + u.1 * v.1
}

/// The squared length of `u`: `x^2 + y^2`.
pub open spec fn length_squared2(u: (int, int)) -> int {
    u.0 * u.0 + u.1 * u.1
}

/// Every component of `u` can be held by an `i64`.
pub open spec fn fits2(u: (int, int)) -> bool {
    fits(u.0) && fits(u.1)
}

/// The text of `u`: `(x, y)`.
pub open spec fn text2(u: (int, int)) -> Seq<char> {
    seq!['('] + decimal(u.0) + seq![',', ' '] + decimal(u.1) + seq![')']
}

/// A vector in the plane, with `i64` components.
#[derive(PartialEq, Eq, Structural, Debug, Clone, Copy)]
pub struct Vec2 {
    x: i64,
    y: i64,
}

impl View for Vec2 {
    type V = (int, int);

    closed spec fn view(&self) -> (int, int) {
        (self.x as int, self.y as int)
    }
}

impl Vec2 {
    /// The vector `(x, y)`.
    pub fn new(x: i64, y: i64) -> (r: Vec2)
        ensures
            r@ == (x as int, y as int),
    {
        Vec2 { x, y }
    }

    /// The dot product `self.x * other.x + self.y * other.y`.
    pub fn dot(&self, other: Vec2) -> (r: i64)
        requires
            fits2(mul2(self@, other@)),
            fits(dot2(self@, other@)),
        ensures
            r == dot2(self@, other@),
    {
        self.x * other.x + self.y * other.y
    }

    /// The squared length `x^2 + y^2`.
    pub fn length_squared(&self) -> (r: i64)
        requires
            fits2(mul2(self@, self@)),
            fits(length_squared2(self@)),
        ensures
            r == length_squared2(self@),
    {
        self.x * self.x + self.y * self.y
    }

    /// The left-hand perpendicular `(-y, x)`; not a unit vector.
    pub fn normal(&self) -> (r: Vec2)
        requires
            fits2(normal2(self@)),
        ensures
            r@ == normal2(self@),
    {
        Vec2::new(-self.y, self.x)
    }

    /// The vector of the absolute values of the components.
    pub fn abs(&self) -> (r: Vec2)
        requires
            fits2(abs2(self@)),
        ensures
            r@ == abs2(self@),
    {
        Vec2::new(magnitude(self.x), magnitude(self.y))
    }

    /// The first component.
    pub fn x(&self) -> (r: i64)
        ensures
            r == self@.0,
    {
        self.x
    }

    /// The second component.
    pub fn y(&self) -> (r: i64)
        ensures
            r == self@.1,
    {
        self.y
    }

    /// Replaces both components.
    pub fn set(&mut self, x: i64, y: i64)
        ensures
            final(self)@ == (x as int, y as int),
    {
        self.x = x;
        self.y = y;
    }

    /// Adds `rhs` to `self` in place.
    pub fn add_assign(&mut self, rhs: Vec2)
        requires
            fits2(add2(old(self)@, rhs@)),
        ensures
            final(self)@ == add2(old(self)@, rhs@),
    {
        self.x = self.x + rhs.x;
        self.y = self.y + rhs.y;
    }

    /// Subtracts `rhs` from `self` in place.
    pub fn sub_assign(&mut self, rhs: Vec2)
        requires
            fits2(sub2(old(self)@, rhs@)),
        ensures
            final(self)@ == sub2(old(self)@, rhs@),
    {
        self.x = self.x - rhs.x;
        self.y = self.y - rhs.y;
    }

    /// The text `(x, y)`, each component in decimal.
    pub fn to_string(&self) -> (r: String)
        ensures
            r@ == text2(self@),
    {
        proof {
            reveal_strlit("(");
            reveal_strlit(", ");
            reveal_strlit(")");
        }
        let mut s = String::from_str("(");
        let x = decimal_string(self.x);
        s.append(x.as_str());
        s.append(", ");
        let y = decimal_string(self.y);
        s.append(y.as_str());
        s.append(")");
        s
    }
}

impl core::ops::Add for Vec2 {
    type Output = Vec2;

    /// The componentwise sum.
    fn add(self, rhs: Vec2) -> (r: Vec2)
        ensures
            r@ == add2(self@, rhs@),
    {
        Vec2 { x: self.x + rhs.x, y: self.y + rhs.y }
    }
}

impl vstd::std_specs::ops::AddSpecImpl for Vec2 {
    open spec fn obeys_add_spec() -> bool {
        true
    }

    open spec fn add_req(self, rhs: Vec2) -> bool {
        fits2(add2(self@, rhs@))
    }

    closed spec fn add_spec(self, rhs: Vec2) -> Vec2 {
        Vec2 { x: (self.x + rhs.x) as i64, y: (self.y + rhs.y) as i64 }
    }
}

impl core::ops::Sub for Vec2 {
    type Output = Vec2;

    /// The componentwise difference.
    fn sub(self, rhs: Vec2) -> (r: Vec2)
        ensures
            r@ == sub2(self@, rhs@),
    {
        Vec2 { x: self.x - rhs.x, y: self.y - rhs.y }
    }
}

impl vstd::std_specs::ops::SubSpecImpl for Vec2 {
    open spec fn obeys_sub_spec() -> bool {
        true
    }

    open spec fn sub_req(self, rhs: Vec2) -> bool {
        fits2(sub2(self@, rhs@))
    }

    closed spec fn sub_spec(self, rhs: Vec2) -> Vec2 {
        Vec2 { x: (self.x - rhs.x) as i64, y: (self.y - rhs.y) as i64 }
    }
}

impl core::ops::Mul<i64> for Vec2 {
    type Output = Vec2;

    /// Each component multiplied by the scalar `rhs`.
    fn mul(self, rhs: i64) -> (r: Vec2)
        ensures
            r@ == scale2(self@, rhs as int),
    {
        Vec2 { x: self.x * rhs, y: self.y * rhs }
    }
}

impl vstd::std_specs::ops::MulSpecImpl<i64> for Vec2 {
    open spec fn obeys_mul_spec() -> bool {
        true
    }

    open spec fn mul_req(self, rhs: i64) -> bool {
        fits2(scale2(self@, rhs as int))
    }

    closed spec fn mul_spec(self, rhs: i64) -> Vec2 {
        Vec2 { x: (self.x * rhs) as i64, y: (self.y * rhs) as i64 }
    }
}

impl core::ops::Mul<Vec2> for i64 {
    type Output = Vec2;

    /// The scalar `self` multiplied into each component of `rhs`.
    fn mul(self, rhs: Vec2) -> (r: Vec2)
        ensures
            r@ == scale2(rhs@, self as int),
    {
        Vec2 { x: rhs.x * self, y: rhs.y * self }
    }
}

impl vstd::std_specs::ops::MulSpecImpl<Vec2> for i64 {
    open spec fn obeys_mul_spec() -> bool {
        true
    }

    open spec fn mul_req(self, rhs: Vec2) -> bool {
        fits2(scale2(rhs@, self as int))
    }

    closed spec fn mul_spec(self, rhs: Vec2) -> Vec2 {
        Vec2 { x: (self * rhs.x) as i64, y: (self * rhs.y) as i64 }
    }
}

impl core::ops::Mul<Vec2> for Vec2 {
    type Output = Vec2;

    /// The componentwise product.
    fn mul(self, rhs: Vec2) -> (r: Vec2)
        ensures
            r@ == mul2(self@, rhs@),
    {
        Vec2 { x: self.x * rhs.x, y: self.y * rhs.y }
    }
}

impl vstd::std_specs::ops::MulSpecImpl<Vec2> for Vec2 {
    open spec fn obeys_mul_spec() -> bool {
        true
    }

    open spec fn mul_req(self, rhs: Vec2) -> bool {
        fits2(mul2(self@, rhs@))
    }

    closed spec fn mul_spec(self, rhs: Vec2) -> Vec2 {
        Vec2 { x: (self.x * rhs.x) as i64, y: (self.y * rhs.y) as i64 }
    }
}

impl core::ops::Div<i64> for Vec2 {
    type Output = Vec2;

    /// Each component divided by the scalar `rhs`, rounded toward zero.
    fn div(self, rhs: i64) -> (r: Vec2)
        ensures
            r@ == div2_by(self@, rhs as int),
    {
        Vec2 { x: quotient(self.x, rhs), y: quotient(self.y, rhs) }
    }
}

impl vstd::std_specs::ops::DivSpecImpl<i64> for Vec2 {
    open spec fn obeys_div_spec() -> bool {
        true
    }

    open spec fn div_req(self, rhs: i64) -> bool {
        divisible(self@.0, rhs as int) && divisible(self@.1, rhs as int)
    }

    closed spec fn div_spec(self, rhs: i64) -> Vec2 {
        Vec2 {
            x: quot(self.x as int, rhs as int) as i64,
            y: quot(self.y as int, rhs as int) as i64,
        }
    }
}

impl core::ops::Div<Vec2> for i64 {
    type Output = Vec2;

    /// The scalar `self` divided by each component of `rhs`, rounded toward zero.
    fn div(self, rhs: Vec2) -> (r: Vec2)
        ensures
            r@ == div2_into(self as int, rhs@),
    {
        Vec2 { x: quotient(self, rhs.x), y: quotient(self, rhs.y) }
    }
}

impl vstd::std_specs::ops::DivSpecImpl<Vec2> for i64 {
    open spec fn obeys_div_spec() -> bool {
        true
    }

    open spec fn div_req(self, rhs: Vec2) -> bool {
        divisible(self as int, rhs@.0) && divisible(self as int, rhs@.1)
    }

    closed spec fn div_spec(self, rhs: Vec2) -> Vec2 {
        Vec2 {
            x: quot(self as int, rhs.x as int) as i64,
            y: quot(self as int, rhs.y as int) as i64,
        }
    }
}

impl core::ops::Div<Vec2> for Vec2 {
    type Output = Vec2;

    /// The componentwise quotient, rounded toward zero.
    fn div(self, rhs: Vec2) -> (r: Vec2)
        ensures
            r@ == div2(self@, rhs@),
    {
        Vec2 { x: quotient(self.x, rhs.x), y: quotient(self.y, rhs.y) }
    }
}

impl vstd::std_specs::ops::DivSpecImpl<Vec2> for Vec2 {
    open spec fn obeys_div_spec() -> bool {
        true
    }

    open spec fn div_req(self, rhs: Vec2) -> bool {
        divisible(self@.0, rhs@.0) && divisible(self@.1, rhs@.1)
    }

    closed spec fn div_spec(self, rhs: Vec2) -> Vec2 {
        Vec2 {
            x: quot(self.x as int, rhs.x as int) as i64,
            y: quot(self.y as int, rhs.y as int) as i64,
        }
    }
}

impl core::ops::Neg for Vec2 {
    type Output = Vec2;

    /// Each component negated.
    fn neg(self) -> (r: Vec2)
        ensures
            r@ == neg2(self@),
    {
        Vec2 { x: -self.x, y: -self.y }
    }
}

impl vstd::std_specs::ops::NegSpecImpl for Vec2 {
    open spec fn obeys_neg_spec() -> bool {
        true
    }

    open spec fn neg_req(self) -> bool {
        fits2(neg2(self@))
    }

    closed spec fn neg_spec(self) -> Vec2 {
        Vec2 { x: (-self.x) as i64, y: (-self.y) as i64 }
    }
}

} // verus!

verus! {

/// The dot product does not depend on the order of its operands.
pub proof fn lemma_dot_commutative(a: Vec2, b: Vec2)
    ensures
        dot2(a@, b@) == dot2(b@, a@),
{
    assert(a@.0 * b@.0 == b@.0 * a@.0 && a@.1 * b@.1 == b@.1 * a@.1) by (nonlinear_arith);
}

/// Adding the zero vector gives back the vector.
pub proof fn lemma_add_zero(a: Vec2)
    ensures
        add2(a@, (0, 0)) == a@,
{
}

/// A vector minus itself is the zero vector.
pub proof fn lemma_sub_self(a: Vec2)
    ensures
        sub2(a@, a@) == (0int, 0int),
{
}

/// Two vectors are equal exactly when each component of one equals the
/// matching component of the other.
pub proof fn lemma_eq_componentwise(a: Vec2, b: Vec2)
    ensures
        (a == b) <==> (a@.0 == b@.0 && a@.1 == b@.1),
{
}

/// Scaling a vector by `k` multiplies its squared length by `k * k`.
pub proof fn lemma_scale_length_squared(a: Vec2, k: int)
    ensures
        length_squared2(scale2(a@, k)) == length_squared2(a@) * (k * k),
{
    assert((a@.0 * k) * (a@.0 * k) + (a@.1 * k) * (a@.1 * k) == (a@.0 * a@.0 + a@.1 * a@.1) * (k
        * k)) by (nonlinear_arith);
}

} // verus!
