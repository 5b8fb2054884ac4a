//! The correction applied to the sensitivity channel after each sub-step.

use crate::scalar::Scalar;
use vstd::prelude::*;

verus! {

/// Maps an angle to its representative within one period.
///
/// `wrapped` is the map; how it is computed is up to the scalar type.
pub trait PhaseWrap<C: Scalar> {
    spec fn wrapped(&self, angle: C) -> C;

    fn wrap(&self, angle: C) -> (r: C)
        ensures
            r == self.wrapped(angle),
    ;
}

/// The correction switched off: every angle is left as it is.
pub struct Unwrapped;

impl<C: Scalar> PhaseWrap<C> for Unwrapped {
    open spec fn wrapped(&self, angle: C) -> C {
        angle
    }

    fn wrap(&self, angle: C) -> (r: C) {
        angle
    }
}

/// The representative of `angle` modulo `period` that lies in the half-open
/// interval from minus half a period (excluded) to half a period (included).
pub open spec fn canonical_angle(angle: int, period: int) -> int
    recommends
        period > 0,
{
    let residue = angle % period;
    if 2 * residue > period {
        residue - period
    } else {
        residue
    }
}

/// The exact wrap of integer angles. A period that is not positive switches
/// the correction off.
pub struct Modular {
    pub period: i64,
}

impl PhaseWrap<i64> for Modular {
    open spec fn wrapped(&self, angle: i64) -> i64 {
        if self.period > 0 {
            canonical_angle(angle as int, self.period as int) as i64
        } else {
            angle
        }
    }

    fn wrap(&self, angle: i64) -> (r: i64) {
        if self.period <= 0 {
            return angle;
        }
        let period = self.period;
        match angle.checked_rem_euclid(period) {
            Some(residue) => if residue > period - residue {
                residue - period
            } else {
                residue
            },
            None => angle,
        }
    }
}

/// The wrapped angle lies within half a period of zero, on the side that the
/// convention fixes, and differs from the angle by a whole number of periods.
pub proof fn lemma_canonical_angle(angle: int, period: int)
    requires
        period > 0,
    ensures
        -period < 2 * canonical_angle(angle, period) <= period,
        (angle - canonical_angle(angle, period)) % period == 0,
{
    let residue = angle % period;
    vstd::arithmetic::div_mod::lemma_fundamental_div_mod(angle, period);
    let q = angle / period;
    if 2 * residue > period {
        assert(angle - (residue - period) == (q + 1) * period) by (nonlinear_arith)
            requires
                angle == period * q + residue,
        ;
        vstd::arithmetic::div_mod::lemma_mod_multiples_basic(q + 1, period);
    } else {
        assert(angle - residue == q * period) by (nonlinear_arith)
            requires
                angle == period * q + residue,
        ;
        vstd::arithmetic::div_mod::lemma_mod_multiples_basic(q, period);
    }
}

/// An angle that is already within half a period of zero is left as it is:
/// zero above all, and every wrapped angle, so that wrapping twice is
/// wrapping once.
pub proof fn lemma_canonical_angle_is_fixed(angle: int, period: int)
    requires
        period > 0,
        -period < 2 * angle <= period,
    ensures
        canonical_angle(angle, period) == angle,
{
    if angle >= 0 {
        vstd::arithmetic::div_mod::lemma_small_mod(angle as nat, period as nat);
    } else {
        vstd::arithmetic::div_mod::lemma_fundamental_div_mod_converse(
            angle,
            period,
            -1,
            angle + period,
        );
    }
}

/// The correction introduces no sensitivity of its own: zero stays at zero,
/// whatever the period.
pub proof fn lemma_wrap_keeps_zero(wrap: Modular)
    ensures
        wrap.wrapped(0i64) == 0i64,
{
    if wrap.period > 0 {
        lemma_canonical_angle_is_fixed(0, wrap.period as int);
    }
}

/// Wrapping twice is wrapping once.
pub proof fn lemma_wrap_is_idempotent(wrap: Modular, angle: i64)
    ensures
        wrap.wrapped(wrap.wrapped(angle)) == wrap.wrapped(angle),
{
    if wrap.period > 0 {
        lemma_canonical_angle(angle as int, wrap.period as int);
        lemma_canonical_angle_is_fixed(
            canonical_angle(angle as int, wrap.period as int),
            wrap.period as int,
        );
    }
}

} // verus!
