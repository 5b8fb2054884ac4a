//! The drift term of the stochastic differential equation
//! `dx = force(x, parameter) dt + dW`.

use crate::node::ForwardADNode;
use crate::scalar::{zero_is_exact, Scalar};
use vstd::prelude::*;

verus! {

/// A pure function of the state and of the force parameter, both dual-valued.
///
/// `force_spec` is that function; `force` computes it through the dual-number
/// operators alone, so that sensitivities follow by the chain rule.
pub trait Drift<C: Scalar> {
    spec fn force_spec(&self, x: ForwardADNode<C>, parameter: ForwardADNode<C>) -> ForwardADNode<C>;

    fn force(&self, x: ForwardADNode<C>, parameter: ForwardADNode<C>) -> (r: ForwardADNode<C>)
        ensures
            r == self.force_spec(x, parameter),
    ;
}

/// The linear restoring force of the harmonic oscillator:
/// `force(x, parameter) = -1 * parameter * x`.
pub struct Harmonic;

/// `(-1 * parameter) * x`: the scalar `-1` on the left, then the product rule.
pub open spec fn harmonic_force<C: Scalar>(
    x: ForwardADNode<C>,
    parameter: ForwardADNode<C>,
) -> ForwardADNode<C> {
    ForwardADNode::scalar_mul_spec(C::one_spec().neg_spec(), parameter).mul_spec(x)
}

impl<C: Scalar> Drift<C> for Harmonic {
    open spec fn force_spec(
        &self,
        x: ForwardADNode<C>,
        parameter: ForwardADNode<C>,
    ) -> ForwardADNode<C> {
        harmonic_force(x, parameter)
    }

    fn force(&self, x: ForwardADNode<C>, parameter: ForwardADNode<C>) -> (r: ForwardADNode<C>) {
        ForwardADNode::scalar_mul(C::one().neg(), parameter).mul(x)
    }
}

/// `(1 * parameter) * sin(x)`, for a state whose value has the given sine and
/// cosine.
pub open spec fn periodic_force_spec<C: Scalar>(
    x: ForwardADNode<C>,
    parameter: ForwardADNode<C>,
    sine: C,
    cosine: C,
) -> ForwardADNode<C> {
    ForwardADNode::scalar_mul_spec(C::one_spec(), parameter).mul_spec(
        x.sin_from_spec(sine, cosine),
    )
}

/// The nonlinear periodic force `parameter * sin(x)`.
///
/// The scalar type offers no sine of its own, so the caller hands in the sine
/// and the cosine of `x.order0`; the sensitivities are worked out here.
pub fn periodic_force<C: Scalar>(
    x: ForwardADNode<C>,
    parameter: ForwardADNode<C>,
    sine: C,
    cosine: C,
) -> (r: ForwardADNode<C>)
    ensures
        r == periodic_force_spec(x, parameter, sine, cosine),
{
    ForwardADNode::scalar_mul(C::one(), parameter).mul(x.sin_from(sine, cosine))
}

/// The drift adds no sensitivity of its own: where neither the state nor the
/// parameter carries any, the force carries none.
pub open spec fn keeps_zero_sensitivity<C: Scalar, D: Drift<C>>(drift: D) -> bool {
    forall|x: ForwardADNode<C>, parameter: ForwardADNode<C>|
        x.order1 == C::zero_spec() && parameter.order1 == C::zero_spec() ==> (
        #[trigger] drift.force_spec(x, parameter)).order1 == C::zero_spec()
}

/// Over a scalar type in which zero is exact, the harmonic force adds no
/// sensitivity of its own.
pub proof fn lemma_harmonic_keeps_zero_sensitivity<C: Scalar>()
    requires
        zero_is_exact::<C>(),
    ensures
        keeps_zero_sensitivity::<C, Harmonic>(Harmonic),
{
}

} // verus!
