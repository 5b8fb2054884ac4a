//! Dual numbers: a value together with its first-order sensitivity.

use crate::scalar::{obeys_ring_identities, Scalar};
use vstd::prelude::*;

verus! {

/// A value (`order0`) paired with its derivative (`order1`) with respect to
/// one designated parameter.
///
/// Every operator returns a new node whose `order1` follows from the operands
/// by the chain rule, so a node built from a seed of unit sensitivity carries
/// the exact derivative of the expression that built it.
#[derive(Clone, Copy)]
pub struct ForwardADNode<C: Scalar> {
    pub order0: C,
    pub order1: C,
}

impl<C: Scalar> ForwardADNode<C> {
    /// The node that is zero in both components.
    pub open spec fn zero_spec() -> Self {
        ForwardADNode { order0: C::zero_spec(), order1: C::zero_spec() }
    }

    /// A value that does not depend on the parameter.
    pub open spec fn constant_spec(value: C) -> Self {
        ForwardADNode { order0: value, order1: C::zero_spec() }
    }

    /// The parameter itself, at `value`.
    pub open spec fn variable_spec(value: C) -> Self {
        ForwardADNode { order0: value, order1: C::one_spec() }
    }

    /// `a + b = (a0 + b0, a1 + b1)`.
    pub open spec fn add_spec(self, rhs: Self) -> Self {
        ForwardADNode {
            order0: self.order0.add_spec(rhs.order0),
            order1: self.order1.add_spec(rhs.order1),
        }
    }

    /// `a - b = (a0 - b0, a1 - b1)`.
    pub open spec fn sub_spec(self, rhs: Self) -> Self {
        ForwardADNode {
            order0: self.order0.sub_spec(rhs.order0),
            order1: self.order1.sub_spec(rhs.order1),
        }
    }

    /// The product rule: `a * b = (a0 * b0, a1 * b0 + b1 * a0)`.
    pub open spec fn mul_spec(self, rhs: Self) -> Self {
        ForwardADNode {
            order0: self.order0.mul_spec(rhs.order0),
            order1: self.order1.mul_spec(rhs.order0).add_spec(rhs.order1.mul_spec(self.order0)),
        }
    }

    /// The quotient rule: `a / b = (a0 / b0, (a1 * b0 - b1 * a0) / (b0 * b0))`.
    pub open spec fn div_spec(self, rhs: Self) -> Self {
        ForwardADNode {
            order0: self.order0.div_spec(rhs.order0),
            order1: self.order1.mul_spec(rhs.order0).sub_spec(
                rhs.order1.mul_spec(self.order0),
            ).div_spec(rhs.order0.mul_spec(rhs.order0)),
        }
    }

    /// `a + s = (a0 + s, a1)`.
    pub open spec fn add_scalar_spec(self, rhs: C) -> Self {
        ForwardADNode { order0: self.order0.add_spec(rhs), order1: self.order1 }
    }

    /// `a - s = (a0 - s, a1)`.
    pub open spec fn sub_scalar_spec(self, rhs: C) -> Self {
        ForwardADNode { order0: self.order0.sub_spec(rhs), order1: self.order1 }
    }

    /// `a * s = (a0 * s, a1 * s)`.
    pub open spec fn mul_scalar_spec(self, rhs: C) -> Self {
        ForwardADNode { order0: self.order0.mul_spec(rhs), order1: self.order1.mul_spec(rhs) }
    }

    /// `a / s = (a0 / s, a1 / s)`.
    pub open spec fn div_scalar_spec(self, rhs: C) -> Self {
        ForwardADNode { order0: self.order0.div_spec(rhs), order1: self.order1.div_spec(rhs) }
    }

    /// `s + a = (s + a0, a1)`.
    pub open spec fn scalar_add_spec(lhs: C, rhs: Self) -> Self {
        ForwardADNode { order0: lhs.add_spec(rhs.order0), order1: rhs.order1 }
    }

    /// `s - a = (s - a0, -a1)`.
    pub open spec fn scalar_sub_spec(lhs: C, rhs: Self) -> Self {
        ForwardADNode { order0: lhs.sub_spec(rhs.order0), order1: rhs.order1.neg_spec() }
    }

    /// `s * a = (s * a0, s * a1)`.
    pub open spec fn scalar_mul_spec(lhs: C, rhs: Self) -> Self {
        ForwardADNode { order0: lhs.mul_spec(rhs.order0), order1: lhs.mul_spec(rhs.order1) }
    }

    /// `s / a = (s / a0, (-s * a1) / (a0 * a0))`.
    pub open spec fn scalar_div_spec(lhs: C, rhs: Self) -> Self {
        ForwardADNode {
            order0: lhs.div_spec(rhs.order0),
            order1: lhs.neg_spec().mul_spec(rhs.order1).div_spec(
                rhs.order0.mul_spec(rhs.order0),
            ),
        }
    }

    /// The sine of a node whose value has the given sine and cosine:
    /// `(sin a0, cos a0 * a1)`.
    pub open spec fn sin_from_spec(self, sine: C, cosine: C) -> Self {
        ForwardADNode { order0: sine, order1: cosine.mul_spec(self.order1) }
    }

    /// The zero state that every trajectory starts from.
    pub fn zero() -> (r: Self)
        ensures
            r == Self::zero_spec(),
    {
        ForwardADNode { order0: C::zero(), order1: C::zero() }
    }

    /// Lifts a bare scalar: its sensitivity is zero.
    pub fn constant(value: C) -> (r: Self)
        ensures
            r == Self::constant_spec(value),
    {
        ForwardADNode { order0: value, order1: C::zero() }
    }

    /// Seeds the differentiation parameter: its sensitivity is one.
    pub fn variable(value: C) -> (r: Self)
        ensures
            r == Self::variable_spec(value),
    {
        ForwardADNode { order0: value, order1: C::one() }
    }

    pub fn add(self, rhs: Self) -> (r: Self)
        ensures
            r == self.add_spec(rhs),
    {
        ForwardADNode {
            order0: self.order0.add(rhs.order0),
            order1: self.order1.add(rhs.order1),
        }
    }

    pub fn sub(self, rhs: Self) -> (r: Self)
        ensures
            r == self.sub_spec(rhs),
    {
        ForwardADNode {
            order0: self.order0.sub(rhs.order0),
            order1: self.order1.sub(rhs.order1),
        }
    }

    pub fn mul(self, rhs: Self) -> (r: Self)
        ensures
            r == self.mul_spec(rhs),
    {
        ForwardADNode {
            order0: self.order0.mul(rhs.order0),
            order1: self.order1.mul(rhs.order0).add(rhs.order1.mul(self.order0)),
        }
    }

    /// Where `rhs.order0` is zero the result is whatever the scalar type's
    /// own division gives; nothing is raised.
    pub fn div(self, rhs: Self) -> (r: Self)
        ensures
            r == self.div_spec(rhs),
    {
        let numerator = self.order1.mul(rhs.order0).sub(rhs.order1.mul(self.order0));
        ForwardADNode {
            order0: self.order0.div(rhs.order0),
            order1: numerator.div(rhs.order0.mul(rhs.order0)),
        }
    }

    pub fn add_scalar(self, rhs: C) -> (r: Self)
        ensures
            r == self.add_scalar_spec(rhs),
    {
        ForwardADNode { order0: self.order0.add(rhs), order1: self.order1 }
    }

    pub fn sub_scalar(self, rhs: C) -> (r: Self)
        ensures
            r == self.sub_scalar_spec(rhs),
    {
        ForwardADNode { order0: self.order0.sub(rhs), order1: self.order1 }
    }

    pub fn mul_scalar(self, rhs: C) -> (r: Self)
        ensures
            r == self.mul_scalar_spec(rhs),
    {
        ForwardADNode { order0: self.order0.mul(rhs), order1: self.order1.mul(rhs) }
    }

    pub fn div_scalar(self, rhs: C) -> (r: Self)
        ensures
            r == self.div_scalar_spec(rhs),
    {
        ForwardADNode { order0: self.order0.div(rhs), order1: self.order1.div(rhs) }
    }

    /// The scalar on the left is a constant: only `rhs` is differentiated.
    pub fn scalar_add(lhs: C, rhs: Self) -> (r: Self)
        ensures
            r == Self::scalar_add_spec(lhs, rhs),
    {
        ForwardADNode { order0: lhs.add(rhs.order0), order1: rhs.order1 }
    }

    /// The scalar on the left is a constant, so the sensitivity changes sign.
    pub fn scalar_sub(lhs: C, rhs: Self) -> (r: Self)
        ensures
            r == Self::scalar_sub_spec(lhs, rhs),
    {
        ForwardADNode { order0: lhs.sub(rhs.order0), order1: rhs.order1.neg() }
    }

    pub fn scalar_mul(lhs: C, rhs: Self) -> (r: Self)
        ensures
            r == Self::scalar_mul_spec(lhs, rhs),
    {
        ForwardADNode { order0: lhs.mul(rhs.order0), order1: lhs.mul(rhs.order1) }
    }

    /// The derivative of `s / x` is `-s / x^2`, times the sensitivity of `x`.
    pub fn scalar_div(lhs: C, rhs: Self) -> (r: Self)
        ensures
            r == Self::scalar_div_spec(lhs, rhs),
    {
        ForwardADNode {
            order0: lhs.div(rhs.order0),
            order1: lhs.neg().mul(rhs.order1).div(rhs.order0.mul(rhs.order0)),
        }
    }

    /// The chain rule for the sine: the caller supplies the sine and cosine of
    /// `self.order0`, and the sensitivity is scaled by the cosine.
    pub fn sin_from(self, sine: C, cosine: C) -> (r: Self)
        ensures
            r == self.sin_from_spec(sine, cosine),
    {
        ForwardADNode { order0: sine, order1: cosine.mul(self.order1) }
    }
}

/// A scalar on the right of `+`, `-` or `*` acts as the constant it stands
/// for, wherever the scalar type obeys the ring identities. (The quotient by
/// a scalar is left out: it agrees with the quotient rule in a field only.)
pub proof fn lemma_scalar_right_is_constant<C: Scalar>(a: ForwardADNode<C>, s: C)
    requires
        obeys_ring_identities::<C>(),
    ensures
        a.add_scalar_spec(s) == a.add_spec(ForwardADNode::constant_spec(s)),
        a.sub_scalar_spec(s) == a.sub_spec(ForwardADNode::constant_spec(s)),
        a.mul_scalar_spec(s) == a.mul_spec(ForwardADNode::constant_spec(s)),
{
}

/// A scalar on the left of any of the four operators acts as the constant it
/// stands for, wherever the scalar type obeys the ring identities: only the
/// node on the right is differentiated.
pub proof fn lemma_scalar_left_is_constant<C: Scalar>(s: C, a: ForwardADNode<C>)
    requires
        obeys_ring_identities::<C>(),
    ensures
        ForwardADNode::scalar_add_spec(s, a) == ForwardADNode::constant_spec(s).add_spec(a),
        ForwardADNode::scalar_sub_spec(s, a) == ForwardADNode::constant_spec(s).sub_spec(a),
        ForwardADNode::scalar_mul_spec(s, a) == ForwardADNode::constant_spec(s).mul_spec(a),
        ForwardADNode::scalar_div_spec(s, a) == ForwardADNode::constant_spec(s).div_spec(a),
{
}

} // verus!
