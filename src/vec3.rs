//! Vectors in space.
use vstd::prelude::*;
use crate::scalar::{
    decimal, decimal_string, divisible, fits, mag,
    magnitude, quot, quotient,
};

verus! {

/// The componentwise sum of `u` and `v`.
pub open spec fn add3(u: (int, int, int), v: (int, int, int)) -> (int, int, int) {
    (u.0 + v.0, u.1 + v.1, u.2 + v.2)
}

/// The componentwise difference of `u` and `v`.
pub open spec fn sub3(u: (int, int, int), v: (int, int, int)) -> (int, int, int) {
    (u.0 - v.0, u.1 - v.1, u.2 - v.2)
}

/// The componentwise product of `u` and `v`.
pub open spec fn mul3(u: (int, int, int), v: (int, int, int)) -> (int, int, int) {
    (u.0 * v.0, u.1 * v.1, u.2 * v.2)
}

/// `u` with each component multiplied by `k`.
pub open spec fn scale3(u: (int, int, int), k: int) -> (int, int, int) {
    (u.0 * k, u.1 * k, u.2 * k)
}

/// The componentwise quotient of `u` by `v`, rounded toward zero.
pub open spec fn div3(u: (int, int, int), v: (int, int, int)) -> (int, int, int) {
    (quot(u.0, v.0), quot(u.1, v.1), quot(u.2, v.2))
}

/// `u` with each component divided by `k`, rounded toward zero.
pub open spec fn div3_by(u: (int, int, int), k: int) -> (int, int, int) {
    (quot(u.0, k), quot(u.1, k), quot(u.2, k))
}

/// `k` divided by each component of `u`, rounded toward zero.
pub open spec fn div3_into(k: int, u: (int, int, int)) -> (int, int, int) {
    (quot(k, u.0), quot(k, u.1), quot(k, u.2))
}

/// `u` with each component negated.
pub open spec fn neg3(u: (int, int, int)) -> (int, int, int) {
    (-u.0, -u.1, -u.2)
}

/// `u` with each component replaced by its absolute value.
pub open spec fn abs3(u: (int, int, int)) -> (int, int, int) {
    (mag(u.0), mag(u.1), mag(u.2))
}

/// The dot product of `u` and `v`.
pub open spec fn dot3(u: (int, int, int), v: (int, int, int)) -> int {
    u.0 * v.0 + u.1 * v.1 + u.2 * v.2
}

/// The squared length of `u`: `x^2 + y^2 + z^2`.
pub open spec fn length_squared3(u: (int, int, int)) -> int {
    u.0 * u.0 + u.1 * u.1 + u.2 * u.2
}

/// The right-handed cross product of `u` and `v`.
pub open spec fn cross3(u: (int, int, int), v: (int, int, int)) -> (int, int, int) {
    (u.1 * v.2 - u.2 * v.1, -(u.0 * v.2 - u.2 * v.0), u.0 * v.1 - u.1 * v.0)
}

/// Every component of `u` can be held by an `i64`.
pub open spec fn fits3(u: (int, int, int)) -> bool {
    fits(u.0) && fits(u.1) && fits(u.2)
}

/// Each product, difference and negation on the way to `cross3(u, v)`
/// can be held by an `i64`.
pub open spec fn cross_fits(u: (int, int, int), v: (int, int, int)) -> bool {
    &&& fits3((u.1 * v.2, u.0 * v.2, u.0 * v.1))
    &&& fits3((u.2 * v.1, u.2 * v.0, u.1 * v.0))
    &&& fits3((u.1 * v.2 - u.2 * v.1, u.0 * v.2 - u.2 * v.0, u.0 * v.1 - u.1 * v.0))
    &&& fits(cross3(u, v).1)
}

/// The text of `u`: `(x, y, z)`.
pub open spec fn text3(u: (int, int, int)) -> Seq<char> {
    seq!['('] + decimal(u.0) + seq![',', ' '] + decimal(u.1) + seq![',', ' '] + decimal(u.2)
        + seq![')']
}

/// A vector in space, with `i64` components.
#[derive(PartialEq, Eq, Structural, Debug, Clone, Copy)]
pub struct Vec3 {
    x: i64,
    y: i64,
    z: i64,
}

impl View for Vec3 {
    type V = (int, int, int);

    closed spec fn view(&self) -> (int, int, int) {
        (self.x as int, self.y as int, self.z as int)
    }
}

impl Vec3 {
    /// The vector `(x, y, z)`.
    pub fn new(x: i64, y: i64, z: i64) -> (r: Vec3)
        ensures
            r@ == (x as int, y as int, z as int),
    {
        Vec3 { x, y, z }
    }

    /// The dot product `self.x * other.x + self.y * other.y + self.z * other.z`.
    pub fn dot(&self, other: Vec3) -> (r: i64)
        requires
            fits3(mul3(self@, other@)),
            fits(self@.0 * other@.0 + self@.1 * other@.1),
            fits(dot3(self@, other@)),
        ensures
            r == dot3(self@, other@),
    {
        self.x * other.x + self.y * other.y + self.z * other.z
    }

    /// The right-handed cross product:
    /// `(y*oz - z*oy, -(x*oz - z*ox), x*oy - y*ox)`.
    pub fn cross(&self, other: Vec3) -> (r: Vec3)
        requires
            cross_fits(self@, other@),
        ensures
            r@ == cross3(self@, other@),
    {
        let x = (self.y * other.z) - (self.z * other.y);
        let y = (self.x * other.z) - (self.z * other.x);
        let z = (self.x * other.y) - (self.y * other.x);
        Vec3::new(x, -y, z)
    }

    /// The squared length `x^2 + y^2 + z^2`.
    pub fn length_squared(&self) -> (r: i64)
        requires
            fits3(mul3(self@, self@)),
            fits(self@.0 * self@.0 + self@.1 * self@.1),
            fits(length_squared3(self@)),
        ensures
            r == length_squared3(self@),
    {
        self.x * self.x + self.y * self.y + self.z * self.z
    }

    /// The vector of the absolute values of the components.
    pub fn abs(&self) -> (r: Vec3)
        requires
            fits3(abs3(self@)),
        ensures
            r@ == abs3(self@),
    {
        Vec3::new(magnitude(self.x), magnitude(self.y), magnitude(self.z))
    }

    /// The first component.
    pub fn x(&self) -> (r: i64)
        ensures
            r == self@.0,
    {
        self.x
    }

    /// The second component.
    pub fn y(&self) -> (r: i64)
        ensures
            r == self@.1,
    {
        self.y
    }

    /// The third component.
    pub fn z(&self) -> (r: i64)
        ensures
            r == self@.2,
    {
        self.z
    }

    /// Replaces all three components.
    pub fn set(&mut self, x: i64, y: i64, z: i64)
        ensures
            final(self)@ == (x as int, y as int, z as int),
    {
        self.x = x;
        self.y = y;
        self.z = z;
    }

    /// Adds `rhs` to `self` in place.
    pub fn add_assign(&mut self, rhs: Vec3)
        requires
            fits3(add3(old(self)@, rhs@)),
        ensures
            final(self)@ == add3(old(self)@, rhs@),
    {
        self.x = self.x + rhs.x;
        self.y = self.y + rhs.y;
        self.z = self.z + rhs.z;
    }

    /// Subtracts `rhs` from `self` in place.
    pub fn sub_assign(&mut self, rhs: Vec3)
        requires
            fits3(sub3(old(self)@, rhs@)),
        ensures
            final(self)@ == sub3(old(self)@, rhs@),
    {
        self.x = self.x - rhs.x;
        self.y = self.y - rhs.y;
        self.z = self.z - rhs.z;
    }

    /// The text `(x, y, z)`, each component in decimal.
    pub fn to_string(&self) -> (r: String)
        ensures
            r@ == text3(self@),
    {
        proof {
            reveal_strlit("(");
            reveal_strlit(", ");
            reveal_strlit(")");
        }
        let mut s = String::from_str("(");
        let x = decimal_string(self.x);
        s.append(x.as_str());
        s.append(", ");
        let y = decimal_string(self.y);
        s.append(y.as_str());
        s.append(", ");
        let z = decimal_string(self.z);
        s.append(z.as_str());
        s.append(")");
        s
    }
}

impl core::ops::Add for Vec3 {
    type Output = Vec3;

    /// The componentwise sum.
    fn add(self, rhs: Vec3) -> (r: Vec3)
        ensures
            r@ == add3(self@, rhs@),
    {
        Vec3 { x: self.x + rhs.x, y: self.y + rhs.y, z: self.z + rhs.z }
    }
}

impl vstd::std_specs::ops::AddSpecImpl for Vec3 {
    open spec fn obeys_add_spec() -> bool {
        true
    }

    open spec fn add_req(self, rhs: Vec3) -> bool {
        fits3(add3(self@, rhs@))
    }

    closed spec fn add_spec(self, rhs: Vec3) -> Vec3 {
        Vec3 { x: (self.x + rhs.x) as i64, y: (self.y + rhs.y) as i64, z: (self.z + rhs.z) as i64 }
    }
}

impl core::ops::Sub for Vec3 {
    type Output = Vec3;

    /// The componentwise difference.
    fn sub(self, rhs: Vec3) -> (r: Vec3)
        ensures
            r@ == sub3(self@, rhs@),
    {
        Vec3 { x: self.x - rhs.x, y: self.y - rhs.y, z: self.z - rhs.z }
    }
}

impl vstd::std_specs::ops::SubSpecImpl for Vec3 {
    open spec fn obeys_sub_spec() -> bool {
        true
    }

    open spec fn sub_req(self, rhs: Vec3) -> bool {
        fits3(sub3(self@, rhs@))
    }

    closed spec fn sub_spec(self, rhs: Vec3) -> Vec3 {
        Vec3 { x: (self.x - rhs.x) as i64, y: (self.y - rhs.y) as i64, z: (self.z - rhs.z) as i64 }
    }
}

impl core::ops::Mul<i64> for Vec3 {
    type Output = Vec3;

    /// Each component multiplied by the scalar `rhs`.
    fn mul(self, rhs: i64) -> (r: Vec3)
        ensures
            r@ == scale3(self@, rhs as int),
    {
        Vec3 { x: self.x * rhs, y: self.y * rhs, z: self.z * rhs }
    }
}

impl vstd::std_specs::ops::MulSpecImpl<i64> for Vec3 {
    open spec fn obeys_mul_spec() -> bool {
        true
    }

    open spec fn mul_req(self, rhs: i64) -> bool {
        fits3(scale3(self@, rhs as int))
    }

    closed spec fn mul_spec(self, rhs: i64) -> Vec3 {
        Vec3 { x: (self.x * rhs) as i64, y: (self.y * rhs) as i64, z: (self.z * rhs) as i64 }
    }
}

impl core::ops::Mul<Vec3> for i64 {
    type Output = Vec3;

    /// The scalar `self` multiplied into each component of `rhs`.
    fn mul(self, rhs: Vec3) -> (r: Vec3)
        ensures
            r@ == scale3(rhs@, self as int),
    {
        Vec3 { x: rhs.x * self, y: rhs.y * self, z: rhs.z * self }
    }
}

impl vstd::std_specs::ops::MulSpecImpl<Vec3> for i64 {
    open spec fn obeys_mul_spec() -> bool {
        true
    }

    open spec fn mul_req(self, rhs: Vec3) -> bool {
        fits3(scale3(rhs@, self as int))
    }

    closed spec fn mul_spec(self, rhs: Vec3) -> Vec3 {
        Vec3 { x: (self * rhs.x) as i64, y: (self * rhs.y) as i64, z: (self * rhs.z) as i64 }
    }
}

impl core::ops::Mul<Vec3> for Vec3 {
    type Output = Vec3;

    /// The componentwise product.
    fn mul(self, rhs: Vec3) -> (r: Vec3)
        ensures
            r@ == mul3(self@, rhs@),
    {
        Vec3 { x: self.x * rhs.x, y: self.y * rhs.y, z: self.z * rhs.z }
    }
}

impl vstd::std_specs::ops::MulSpecImpl<Vec3> for Vec3 {
    open spec fn obeys_mul_spec() -> bool {
        true
    }

    open spec fn mul_req(self, rhs: Vec3) -> bool {
        fits3(mul3(self@, rhs@))
    }

    closed spec fn mul_spec(self, rhs: Vec3) -> Vec3 {
        Vec3 { x: (self.x * rhs.x) as i64, y: (self.y * rhs.y) as i64, z: (self.z * rhs.z) as i64 }
    }
}

impl core::ops::Div<i64> for Vec3 {
    type Output = Vec3;

    /// Each component divided by the scalar `rhs`, rounded toward zero.
    fn div(self, rhs: i64) -> (r: Vec3)
        ensures
            r@ == div3_by(self@, rhs as int),
    {
        Vec3 { x: quotient(self.x, rhs), y: quotient(self.y, rhs), z: quotient(self.z, rhs) }
    }
}

impl vstd::std_specs::ops::DivSpecImpl<i64> for Vec3 {
    open spec fn obeys_div_spec() -> bool {
        true
    }

    open spec fn div_req(self, rhs: i64) -> bool {
        &&& divisible(self@.0, rhs as int)
        &&& divisible(self@.1, rhs as int)
        &&& divisible(self@.2, rhs as int)
    }

    closed spec fn div_spec(self, rhs: i64) -> Vec3 {
        Vec3 {
            x: quot(self.x as int, rhs as int) as i64,
            y: quot(self.y as int, rhs as int) as i64,
            z: quot(self.z as int, rhs as int) as i64,
        }
    }
}

impl core::ops::Div<Vec3> for i64 {
    type Output = Vec3;

    /// The scalar `self` divided by each component of `rhs`, rounded toward zero.
    fn div(self, rhs: Vec3) -> (r: Vec3)
        ensures
            r@ == div3_into(self as int, rhs@),
    {
        Vec3 { x: quotient(self, rhs.x), y: quotient(self, rhs.y), z: quotient(self, rhs.z) }
    }
}

impl vstd::std_specs::ops::DivSpecImpl<Vec3> for i64 {
    open spec fn obeys_div_spec() -> bool {
        true
    }

    open spec fn div_req(self, rhs: Vec3) -> bool {
        &&& divisible(self as int, rhs@.0)
        &&& divisible(self as int, rhs@.1)
        &&& divisible(self as int, rhs@.2)
    }

    closed spec fn div_spec(self, rhs: Vec3) -> Vec3 {
        Vec3 {
            x: quot(self as int, rhs.x as int) as i64,
            y: quot(self as int, rhs.y as int) as i64,
            z: quot(self as int, rhs.z as int) as i64,
        }
    }
}

impl core::ops::Div<Vec3> for Vec3 {
    type Output = Vec3;

    /// The componentwise quotient, rounded toward zero.
    fn div(self, rhs: Vec3) -> (r: Vec3)
        ensures
            r@ == div3(self@, rhs@),
    {
        Vec3 { x: quotient(self.x, rhs.x), y: quotient(self.y, rhs.y), z: quotient(self.z, rhs.z) }
    }
}

impl vstd::std_specs::ops::DivSpecImpl<Vec3> for Vec3 {
    open spec fn obeys_div_spec() -> bool {
        true
    }

    open spec fn div_req(self, rhs: Vec3) -> bool {
        divisible(self@.0, rhs@.0) && divisible(self@.1, rhs@.1) && divisible(self@.2, rhs@.2)
    }

    closed spec fn div_spec(self, rhs: Vec3) -> Vec3 {
        Vec3 {
            x: quot(self.x as int, rhs.x as int) as i64,
            y: quot(self.y as int, rhs.y as int) as i64,
            z: quot(self.z as int, rhs.z as int) as i64,
        }
    }
}

impl core::ops::Neg for Vec3 {
    type Output = Vec3;

    /// Each component negated.
    fn neg(self) -> (r: Vec3)
        ensures
            r@ == neg3(self@),
    {
        Vec3 { x: -self.x, y: -self.y, z: -self.z }
    }
}

impl vstd::std_specs::ops::NegSpecImpl for Vec3 {
    open spec fn obeys_neg_spec() -> bool {
        true
    }

    open spec fn neg_req(self) -> bool {
        fits3(neg3(self@))
    }

    closed spec fn neg_spec(self) -> Vec3 {
        Vec3 { x: (-self.x) as i64, y: (-self.y) as i64, z: (-self.z) as i64 }
    }
}

} // verus!

verus! {

/// The dot product does not depend on the order of its operands.
pub proof fn lemma_dot_commutative(a: Vec3, b: Vec3)
    ensures
        dot3(a@, b@) == dot3(b@, a@),
{
    assert(a@.0 * b@.0 == b@.0 * a@.0 && a@.1 * b@.1 == b@.1 * a@.1 && a@.2 * b@.2 == b@.2
        * a@.2) by (nonlinear_arith);
}

/// Swapping the operands of the cross product negates it.
pub proof fn lemma_cross_anticommutative(a: Vec3, b: Vec3)
    ensures
        cross3(a@, b@) == neg3(cross3(b@, a@)),
{
    assert(a@.0 * b@.1 == b@.1 * a@.0 && a@.1 * b@.0 == b@.0 * a@.1) by (nonlinear_arith);
    assert(a@.0 * b@.2 == b@.2 * a@.0 && a@.2 * b@.0 == b@.0 * a@.2) by (nonlinear_arith);
    assert(a@.1 * b@.2 == b@.2 * a@.1 && a@.2 * b@.1 == b@.1 * a@.2) by (nonlinear_arith);
}

/// Adding the zero vector gives back the vector.
pub proof fn lemma_add_zero(a: Vec3)
    ensures
        add3(a@, (0, 0, 0)) == a@,
{
}

/// A vector minus itself is the zero vector.
pub proof fn lemma_sub_self(a: Vec3)
    ensures
        sub3(a@, a@) == (0int, 0int, 0int),
{
}

/// Two vectors are equal exactly when each component of one equals the
/// matching component of the other.
pub proof fn lemma_eq_componentwise(a: Vec3, b: Vec3)
    ensures
        (a == b) <==> (a@.0 == b@.0 && a@.1 == b@.1 && a@.2 == b@.2),
{
}

/// Scaling a vector by `k` multiplies its squared length by `k * k`.
pub proof fn lemma_scale_length_squared(a: Vec3, k: int)
    ensures
        length_squared3(scale3(a@, k)) == length_squared3(a@) * (k * k),
{
    assert((a@.0 * k) * (a@.0 * k) + (a@.1 * k) * (a@.1 * k) + (a@.2 * k) * (a@.2 * k) == (a@.0
        * a@.0 + a@.1 * a@.1 + a@.2 * a@.2) * (k * k)) by (nonlinear_arith);
}

} // verus!
