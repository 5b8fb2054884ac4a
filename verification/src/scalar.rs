//! The arithmetic capability set that a dual number is built over.

use vstd::prelude::*;

verus! {

/// A field-like numeric type: the four operations, negation and the two
/// identities.
///
/// Every operation is total and is a function of its operands alone; the
/// `*_spec` functions name those functions, so that contracts of generic code
/// can say exactly which operations were applied and in which order. A type
/// implemented outside verified code, such as a floating-point number, gives
/// each `*_spec` item the body of the operation it names.
pub trait Scalar: Copy {
    spec fn zero_spec() -> Self;

    spec fn one_spec() -> Self;

    spec fn add_spec(self, rhs: Self) -> Self;

    spec fn sub_spec(self, rhs: Self) -> Self;

    spec fn mul_spec(self, rhs: Self) -> Self;

    spec fn div_spec(self, rhs: Self) -> Self;

    spec fn neg_spec(self) -> Self;

    /// The additive identity.
    fn zero() -> (r: Self)
        ensures
            r == Self::zero_spec(),
    ;

    /// The multiplicative identity.
    fn one() -> (r: Self)
        ensures
            r == Self::one_spec(),
    ;

    fn add(self, rhs: Self) -> (r: Self)
        ensures
            r == self.add_spec(rhs),
    ;

    fn sub(self, rhs: Self) -> (r: Self)
        ensures
            r == self.sub_spec(rhs),
    ;

    fn mul(self, rhs: Self) -> (r: Self)
        ensures
            r == self.mul_spec(rhs),
    ;

    fn div(self, rhs: Self) -> (r: Self)
        ensures
            r == self.div_spec(rhs),
    ;

    fn neg(self) -> (r: Self)
        ensures
            r == self.neg_spec(),
    ;
}

/// The quotient of `x` by `d` rounded toward zero, as machine integers divide.
pub open spec fn truncated_quotient(x: int, d: int) -> int
    recommends
        d != 0,
{
    let magnitude = (if x < 0 { -x } else { x }) / (if d < 0 { -d } else { d });
    if (x < 0) == (d < 0) {
        magnitude
    } else {
        -magnitude
    }
}

/// The one `i64` that is congruent to `x` modulo 2^64.
pub open spec fn wrapped(x: int) -> i64 {
    let residue = x % 0x1_0000_0000_0000_0000;
    if residue > i64::MAX {
        (residue - 0x1_0000_0000_0000_0000) as i64
    } else {
        residue as i64
    }
}

/// What `i64` division yields here: the truncated quotient where it exists as
/// an `i64`, and zero where it does not (a zero divisor, or the one quotient
/// that is out of range).
pub open spec fn i64_quotient(x: i64, d: i64) -> i64 {
    if d == 0 || (x == i64::MIN && d == -1) {
        0
    } else {
        truncated_quotient(x as int, d as int) as i64
    }
}

/// The magnitude of a truncated quotient never exceeds that of the dividend,
/// and is strictly smaller once the divisor's magnitude is at least two.
proof fn lemma_quotient_magnitude(x: int, d: int)
    requires
        d != 0,
    ensures
        ({
            let a = if x < 0 { -x } else { x };
            let b = if d < 0 { -d } else { d };
            &&& 0 <= a / b <= a
            &&& (a > 0 && b >= 2) ==> a / b < a
        }),
{
    let a = if x < 0 { -x } else { x };
    let b = if d < 0 { -d } else { d };
    assert(0 <= a / b <= a && ((a > 0 && b >= 2) ==> a / b < a)) by (nonlinear_arith)
        requires
            a >= 0,
            b >= 1,
    ;
}

/// Two's-complement integers: addition, subtraction, multiplication and
/// negation wrap round, so each of them is exact modulo 2^64.
impl Scalar for i64 {
    open spec fn zero_spec() -> i64 {
        0
    }

    open spec fn one_spec() -> i64 {
        1
    }

    open spec fn add_spec(self, rhs: i64) -> i64 {
        wrapped(self + rhs)
    }

    open spec fn sub_spec(self, rhs: i64) -> i64 {
        wrapped(self - rhs)
    }

    open spec fn mul_spec(self, rhs: i64) -> i64 {
        wrapped(self * rhs)
    }

    open spec fn div_spec(self, rhs: i64) -> i64 {
        i64_quotient(self, rhs)
    }

    open spec fn neg_spec(self) -> i64 {
        wrapped(-self)
    }

    fn zero() -> i64 {
        0
    }

    fn one() -> i64 {
        1
    }

    fn add(self, rhs: i64) -> i64 {
        self.wrapping_add(rhs)
    }

    fn sub(self, rhs: i64) -> i64 {
        self.wrapping_sub(rhs)
    }

    fn mul(self, rhs: i64) -> i64 {
        self.wrapping_mul(rhs)
    }

    fn div(self, rhs: i64) -> i64 {
        let quotient = self.checked_div(rhs);
        proof {
            if rhs != 0 {
                lemma_quotient_magnitude(self as int, rhs as int);
                let exact = truncated_quotient(self as int, rhs as int);
                if self == i64::MIN && rhs == -1 {
                    assert(quotient.is_none());
                } else {
                    assert(quotient == Some(exact as i64));
                }
            }
        }
        match quotient {
            Some(q) => q,
            None => 0,
        }
    }

    fn neg(self) -> i64 {
        0i64.wrapping_sub(self)
    }
}

/// Zero is exact in `C`: it annihilates every product and adds to itself.
///
/// This holds of exact arithmetic. It fails where a product with zero can be
/// something else than zero, as with the infinities of floating point.
pub open spec fn zero_is_exact<C: Scalar>() -> bool {
    &&& forall|x: C| #[trigger] C::zero_spec().mul_spec(x) == C::zero_spec()
    &&& forall|x: C| #[trigger] x.mul_spec(C::zero_spec()) == C::zero_spec()
    &&& C::zero_spec().add_spec(C::zero_spec()) == C::zero_spec()
}

/// Zero is exact in wrapping `i64` arithmetic.
pub proof fn lemma_i64_zero_is_exact()
    ensures
        zero_is_exact::<i64>(),
{
    assert forall|x: i64| #[trigger] i64::zero_spec().mul_spec(x) == i64::zero_spec() by {
        assert(0 * x == 0);
    }
    assert forall|x: i64| #[trigger] x.mul_spec(i64::zero_spec()) == i64::zero_spec() by {
        assert(x * 0 == 0);
    }
}

/// The identities of a commutative ring that relate a bare scalar to the
/// constant it stands for: zero is exact and neutral, subtracting from zero
/// negates, products commute, and a sign moves through a product.
pub open spec fn obeys_ring_identities<C: Scalar>() -> bool {
    &&& zero_is_exact::<C>()
    &&& forall|x: C| #[trigger] x.add_spec(C::zero_spec()) == x
    &&& forall|x: C| #[trigger] C::zero_spec().add_spec(x) == x
    &&& forall|x: C| #[trigger] x.sub_spec(C::zero_spec()) == x
    &&& forall|x: C| #[trigger] C::zero_spec().sub_spec(x) == x.neg_spec()
    &&& forall|x: C, y: C| #[trigger] x.mul_spec(y) == y.mul_spec(x)
    &&& forall|x: C, y: C| #[trigger] x.neg_spec().mul_spec(y) == x.mul_spec(y).neg_spec()
}

/// Numbers that differ by a multiple of 2^64 wrap to the same `i64`, and a
/// number differs from what it wraps to by such a multiple.
proof fn lemma_wrapped_congruent(x: int, k: int)
    ensures
        wrapped(x + k * 0x1_0000_0000_0000_0000) == wrapped(x),
        exists|m: int| x == wrapped(x) + #[trigger] (m * 0x1_0000_0000_0000_0000),
{
    vstd::arithmetic::div_mod::lemma_mod_multiples_vanish(k, x, 0x1_0000_0000_0000_0000);
    let q = x / 0x1_0000_0000_0000_0000;
    let residue = x % 0x1_0000_0000_0000_0000;
    if residue > i64::MAX {
        assert(x == wrapped(x) + (q + 1) * 0x1_0000_0000_0000_0000);
    } else {
        assert(x == wrapped(x) + q * 0x1_0000_0000_0000_0000);
    }
}

/// Wrapping `i64` arithmetic obeys the ring identities.
pub proof fn lemma_i64_obeys_ring_identities()
    ensures
        obeys_ring_identities::<i64>(),
{
    lemma_i64_zero_is_exact();
    assert forall|x: i64, y: i64| #[trigger] x.mul_spec(y) == y.mul_spec(x) by {
        assert(x * y == y * x) by (nonlinear_arith);
    }
    assert forall|x: i64, y: i64| #[trigger]
        x.neg_spec().mul_spec(y) == x.mul_spec(y).neg_spec() by {
        let modulus = 0x1_0000_0000_0000_0000int;
        lemma_wrapped_congruent(-x, 0);
        let m = choose|m: int| -x == wrapped(-x) + #[trigger] (m * modulus);
        lemma_wrapped_congruent(x * y, 0);
        let n = choose|n: int| x * y == wrapped(x * y) + #[trigger] (n * modulus);
        assert(-wrapped(x * y) == wrapped(-x) * y + (m * y + n) * modulus) by (nonlinear_arith)
            requires
                -x == wrapped(-x) + m * modulus,
                x * y == wrapped(x * y) + n * modulus,
        ;
        lemma_wrapped_congruent(wrapped(-x) * y, m * y + n);
    }
}

} // verus!
