//! Facts about single components: the range of `i64`, division rounded
//! toward zero, and the decimal text of an integer.
use vstd::prelude::*;

verus! {

/// `v` can be held by an `i64`.
pub open spec fn fits(v: int) -> bool {
    i64::MIN <= v <= i64::MAX
}

/// The absolute value of `v`.
pub open spec fn mag(v: int) -> int {
    if v < 0 {
        -v
    } else {
        v
    }
}

/// `a / b` rounded toward zero, as Rust's integer division does it.
pub open spec fn quot(a: int, b: int) -> int {
    if (a < 0) == (b < 0) {
        mag(a) / mag(b)
    } else {
        -(mag(a) / mag(b))
    }
}

/// `a / b` can be computed on `i64` without a panic or an overflow.
pub open spec fn divisible(a: int, b: int) -> bool {
    b != 0 && !(a == i64::MIN && b == -1)
}

/// The character of a digit `d` in `0..10`.
pub open spec fn digit(d: int) -> char {
    seq!['0', '1', '2', '3', '4', '5', '6', '7', '8', '9'][d]
}

/// The base-ten digits of `n`, most significant first, without leading zeros.
pub open spec fn digits(n: nat) -> Seq<char>
    decreases n,
{
    if n < 10 {
        seq![digit(n as int)]
    } else {
        digits(n / 10) + seq![digit((n % 10) as int)]
    }
}

/// The decimal text of `v`: its digits, after a `-` where `v` is negative.
pub open spec fn decimal(v: int) -> Seq<char> {
    if v < 0 {
        seq!['-'] + digits((-v) as nat)
    } else {
        digits(v as nat)
    }
}

/// `a / b` rounded toward zero.
pub fn quotient(a: i64, b: i64) -> (q: i64)
    requires
        divisible(a as int, b as int),
    ensures
        q == quot(a as int, b as int),
{
    let ghost m = mag(a as int) / mag(b as int);
    proof {
        assert(0 <= m <= mag(a as int)) by (nonlinear_arith)
            requires
                mag(a as int) >= 0,
                mag(b as int) >= 1,
                m == mag(a as int) / mag(b as int),
        ;
        if mag(b as int) >= 2 {
            assert(m <= mag(a as int) / 2) by (nonlinear_arith)
                requires
                    mag(a as int) >= 0,
                    mag(b as int) >= 2,
                    m == mag(a as int) / mag(b as int),
            ;
        }
    }
    a.checked_div(b).unwrap()
}

/// The absolute value of `v`.
pub(crate) fn magnitude(v: i64) -> (r: i64)
    requires
        v != i64::MIN,
    ensures
        r == mag(v as int),
{
    if v < 0 {
        -v
    } else {
        v
    }
}

/// Relies on the `Display` impl of `i64`, through `ToString::to_string`:
/// base ten, a `-` before a negative value, no leading zeros.
#[verifier::external_body]
pub(crate) fn decimal_string(v: i64) -> (r: String)
    ensures
        r@ == decimal(v as int),
{
    v.to_string()
}

} // verus!
