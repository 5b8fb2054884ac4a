//! The Euler–Maruyama stepper: one trajectory, and an ensemble of them.

use crate::drift::{keeps_zero_sensitivity, Drift};
use crate::node::ForwardADNode;
use crate::phase::PhaseWrap;
use crate::scalar::{zero_is_exact, Scalar};
use vstd::prelude::*;

verus! {

/// How the sampled noise enters the two channels of the state.
#[derive(Clone, Copy, Debug, PartialEq, Eq, Structural)]
pub enum NoiseCoupling {
    /// The noise perturbs the value; the sensitivity receives none.
    OnlyValue,
    /// Two independent draws, one for each channel.
    Independent,
    /// One draw, added to both channels alike.
    Shared,
}

/// What stays fixed while an ensemble is generated.
#[derive(Clone, Copy)]
pub struct Scheme<C: Scalar> {
    /// The force parameter, with the sensitivity it is seeded with.
    pub parameter: ForwardADNode<C>,
    /// The length of one sub-step in simulated time.
    pub eps: C,
    /// The factor applied to every draw: the square root of `eps`.
    pub noise_scale: C,
    pub coupling: NoiseCoupling,
    /// The number of sub-steps of one trajectory.
    pub steps: u32,
}

/// A source of independent draws. It owns whatever state it advances.
pub trait Sampler<C> {
    fn sample(&mut self) -> C;
}

/// The outcome of a run: the final value and the final sensitivity of each
/// sample, in lockstep.
pub struct Ensemble<C> {
    pub values: Vec<C>,
    pub sensitivities: Vec<C>,
}

/// The policy that a configuration text names; any other text names
/// `OnlyValue`.
pub open spec fn coupling_named(name: Seq<char>) -> NoiseCoupling {
    if name == "independent"@ {
        NoiseCoupling::Independent
    } else if name == "shared"@ {
        NoiseCoupling::Shared
    } else {
        NoiseCoupling::OnlyValue
    }
}

/// The number of draws that one sub-step consumes.
pub open spec fn draws_per_step_spec(coupling: NoiseCoupling) -> nat {
    match coupling {
        NoiseCoupling::Independent => 2,
        _ => 1,
    }
}

/// The noise of one sub-step as a dual number. `second` is read by
/// `Independent` alone.
pub open spec fn noise_term_spec<C: Scalar>(
    coupling: NoiseCoupling,
    scale: C,
    first: C,
    second: C,
) -> ForwardADNode<C> {
    match coupling {
        NoiseCoupling::OnlyValue => ForwardADNode {
            order0: scale.mul_spec(first),
            order1: C::zero_spec(),
        },
        NoiseCoupling::Independent => ForwardADNode {
            order0: scale.mul_spec(first),
            order1: scale.mul_spec(second),
        },
        NoiseCoupling::Shared => ForwardADNode {
            order0: C::one_spec(),
            order1: C::one_spec(),
        }.mul_scalar_spec(scale).mul_scalar_spec(first),
    }
}

/// The Euler–Maruyama update: `x + eps * force + noise`.
pub open spec fn advance_spec<C: Scalar>(
    x: ForwardADNode<C>,
    force: ForwardADNode<C>,
    eps: C,
    noise: ForwardADNode<C>,
) -> ForwardADNode<C> {
    x.add_spec(ForwardADNode::scalar_mul_spec(eps, force)).add_spec(noise)
}

/// One sub-step: the update with the drift at `x`, then the correction of the
/// sensitivity channel.
pub open spec fn step_spec<C: Scalar, D: Drift<C>, W: PhaseWrap<C>>(
    drift: D,
    wrap: W,
    scheme: Scheme<C>,
    x: ForwardADNode<C>,
    first: C,
    second: C,
) -> ForwardADNode<C> {
    let moved = advance_spec(
        x,
        drift.force_spec(x, scheme.parameter),
        scheme.eps,
        noise_term_spec(scheme.coupling, scheme.noise_scale, first, second),
    );
    ForwardADNode { order0: moved.order0, order1: wrap.wrapped(moved.order1) }
}

/// The state after `steps` sub-steps from `start`. Sub-step `j` (from zero)
/// reads its draws at `j * k` and `j * k + k - 1`, where `k` is the number of
/// draws per sub-step.
pub open spec fn trajectory_spec<C: Scalar, D: Drift<C>, W: PhaseWrap<C>>(
    drift: D,
    wrap: W,
    scheme: Scheme<C>,
    start: ForwardADNode<C>,
    draws: Seq<C>,
    steps: nat,
) -> ForwardADNode<C>
    decreases steps,
{
    if steps == 0 {
        start
    } else {
        let k = draws_per_step_spec(scheme.coupling);
        let at = (steps - 1) * k;
        step_spec(
            drift,
            wrap,
            scheme,
            trajectory_spec(drift, wrap, scheme, start, draws, (steps - 1) as nat),
            draws[at],
            draws[at + k - 1],
        )
    }
}

/// The number of draws that one whole trajectory consumes.
pub open spec fn draws_per_trajectory<C: Scalar>(scheme: Scheme<C>) -> nat {
    scheme.steps as nat * draws_per_step_spec(scheme.coupling)
}

/// `e` holds, sample by sample, the end of the trajectory that starts at zero
/// and is driven by that sample's draws.
pub open spec fn is_ensemble_of<C: Scalar, D: Drift<C>, W: PhaseWrap<C>>(
    e: Ensemble<C>,
    drift: D,
    wrap: W,
    scheme: Scheme<C>,
    draws: Seq<Seq<C>>,
) -> bool {
    &&& e.values@.len() == draws.len()
    &&& e.sensitivities@.len() == draws.len()
    &&& forall|i: int|
        0 <= i < draws.len() ==> {
            let end = trajectory_spec(
                drift,
                wrap,
                scheme,
                ForwardADNode::zero_spec(),
                #[trigger] draws[i],
                scheme.steps as nat,
            );
            e.values@[i] == end.order0 && e.sensitivities@[i] == end.order1
        }
}

fn same_text(a: &str, b: &str) -> (r: bool)
    ensures
        r == (a@ == b@),
{
    let n = a.unicode_len();
    if n != b.unicode_len() {
        return false;
    }
    let mut i: usize = 0;
    while i < n
        invariant
            i <= n,
            n == a@.len(),
            n == b@.len(),
            forall|j: int| 0 <= j < i ==> a@[j] == b@[j],
        decreases n - i,
    {
        if a.get_char(i) != b.get_char(i) {
            return false;
        }
        i += 1;
    }
    assert(a@ =~= b@);
    true
}

impl NoiseCoupling {
    /// Reads the policy from its configuration text: `independent`, `shared`,
    /// and `OnlyValue` for everything else.
    pub fn from_name(name: &str) -> (r: NoiseCoupling)
        ensures
            r == coupling_named(name@),
    {
        if same_text(name, "independent") {
            NoiseCoupling::Independent
        } else if same_text(name, "shared") {
            NoiseCoupling::Shared
        } else {
            NoiseCoupling::OnlyValue
        }
    }

    pub fn draws_per_step(self) -> (k: usize)
        ensures
            k == draws_per_step_spec(self),
    {
        match self {
            NoiseCoupling::Independent => 2,
            _ => 1,
        }
    }
}

/// Builds the noise of one sub-step from the draws it consumed.
pub fn noise_term<C: Scalar>(coupling: NoiseCoupling, scale: C, first: C, second: C) -> (r:
    ForwardADNode<C>)
    ensures
        r == noise_term_spec(coupling, scale, first, second),
{
    match coupling {
        NoiseCoupling::OnlyValue => ForwardADNode { order0: scale.mul(first), order1: C::zero() },
        NoiseCoupling::Independent => ForwardADNode {
            order0: scale.mul(first),
            order1: scale.mul(second),
        },
        NoiseCoupling::Shared => {
            let unit = ForwardADNode { order0: C::one(), order1: C::one() };
            unit.mul_scalar(scale).mul_scalar(first)
        },
    }
}

/// `x + eps * force + noise`, with `eps` as a scalar on the left.
pub fn advance<C: Scalar>(
    x: ForwardADNode<C>,
    force: ForwardADNode<C>,
    eps: C,
    noise: ForwardADNode<C>,
) -> (r: ForwardADNode<C>)
    ensures
        r == advance_spec(x, force, eps, noise),
{
    x.add(ForwardADNode::scalar_mul(eps, force)).add(noise)
}

/// One sub-step from `x` with the given draws.
pub fn step<C: Scalar, D: Drift<C>, W: PhaseWrap<C>>(
    drift: &D,
    wrap: &W,
    scheme: &Scheme<C>,
    x: ForwardADNode<C>,
    first: C,
    second: C,
) -> (r: ForwardADNode<C>)
    ensures
        r == step_spec(*drift, *wrap, *scheme, x, first, second),
{
    let force = drift.force(x, scheme.parameter);
    let noise = noise_term(scheme.coupling, scheme.noise_scale, first, second);
    let moved = advance(x, force, scheme.eps, noise);
    ForwardADNode { order0: moved.order0, order1: wrap.wrap(moved.order1) }
}

/// A trajectory reads only the draws of the sub-steps it takes: two sequences
/// that agree on them give the same state.
pub proof fn lemma_trajectory_reads_prefix<C: Scalar, D: Drift<C>, W: PhaseWrap<C>>(
    drift: D,
    wrap: W,
    scheme: Scheme<C>,
    start: ForwardADNode<C>,
    a: Seq<C>,
    b: Seq<C>,
    steps: nat,
)
    requires
        steps * draws_per_step_spec(scheme.coupling) <= a.len(),
        steps * draws_per_step_spec(scheme.coupling) <= b.len(),
        forall|j: int| 0 <= j < steps * draws_per_step_spec(scheme.coupling) ==> a[j] == b[j],
    ensures
        trajectory_spec(drift, wrap, scheme, start, a, steps) == trajectory_spec(
            drift,
            wrap,
            scheme,
            start,
            b,
            steps,
        ),
    decreases steps,
{
    if steps > 0 {
        let k = draws_per_step_spec(scheme.coupling);
        assert((steps - 1) * k + k == steps * k) by (nonlinear_arith);
        lemma_trajectory_reads_prefix(drift, wrap, scheme, start, a, b, (steps - 1) as nat);
    }
}

/// Runs one trajectory from `start` on draws made beforehand.
pub fn trajectory_from_draws<C: Scalar, D: Drift<C>, W: PhaseWrap<C>>(
    drift: &D,
    wrap: &W,
    scheme: &Scheme<C>,
    start: ForwardADNode<C>,
    draws: &Vec<C>,
) -> (r: ForwardADNode<C>)
    requires
        draws@.len() == draws_per_trajectory(*scheme),
    ensures
        r == trajectory_spec(*drift, *wrap, *scheme, start, draws@, scheme.steps as nat),
{
    let k = scheme.coupling.draws_per_step();
    let n = draws.len();
    let mut x = start;
    let mut done: u32 = 0;
    let mut at: usize = 0;
    while done < scheme.steps
        invariant
            done <= scheme.steps,
            k == draws_per_step_spec(scheme.coupling),
            at == done * k,
            n == draws@.len(),
            n == scheme.steps * k,
            x == trajectory_spec(*drift, *wrap, *scheme, start, draws@, done as nat),
        decreases scheme.steps - done,
    {
        assert(done * k + k == (done + 1) * k && (done + 1) * k <= scheme.steps * k)
            by (nonlinear_arith)
            requires
                done < scheme.steps,
                k >= 1,
        ;
        x = step(drift, wrap, scheme, x, draws[at], draws[at + (k - 1)]);
        done += 1;
        at += k;
    }
    x
}

/// Runs one trajectory from `start`, taking each draw from `sampler` when the
/// sub-step needs it: one per sub-step, or two where the channels are
/// independent, the value's first.
pub fn trajectory<C: Scalar, D: Drift<C>, W: PhaseWrap<C>, S: Sampler<C>>(
    drift: &D,
    wrap: &W,
    scheme: &Scheme<C>,
    start: ForwardADNode<C>,
    sampler: &mut S,
) -> (r: ForwardADNode<C>)
    ensures
        exists|draws: Seq<C>|
            draws.len() == draws_per_trajectory(*scheme) && r == trajectory_spec(
                *drift,
                *wrap,
                *scheme,
                start,
                draws,
                scheme.steps as nat,
            ),
{
    let k = scheme.coupling.draws_per_step();
    let ghost mut drawn: Seq<C> = Seq::empty();
    let mut x = start;
    let mut done: u32 = 0;
    while done < scheme.steps
        invariant
            done <= scheme.steps,
            k == draws_per_step_spec(scheme.coupling),
            drawn.len() == done * k,
            x == trajectory_spec(*drift, *wrap, *scheme, start, drawn, done as nat),
        decreases scheme.steps - done,
    {
        let ghost before = drawn;
        let first = sampler.sample();
        proof {
            drawn = drawn.push(first);
        }
        let second = if k == 2 {
            let other = sampler.sample();
            proof {
                drawn = drawn.push(other);
            }
            other
        } else {
            first
        };
        proof {
            assert(done * k + k == (done + 1) * k) by (nonlinear_arith);
            lemma_trajectory_reads_prefix(
                *drift,
                *wrap,
                *scheme,
                start,
                before,
                drawn,
                done as nat,
            );
        }
        x = step(drift, wrap, scheme, x, first, second);
        done += 1;
    }
    x
}

/// Generates an ensemble on draws made beforehand, one row of draws for each
/// sample. Every sample starts from the zero state.
pub fn ensemble_from_draws<C: Scalar, D: Drift<C>, W: PhaseWrap<C>>(
    drift: &D,
    wrap: &W,
    scheme: &Scheme<C>,
    draws: &Vec<Vec<C>>,
) -> (r: Ensemble<C>)
    requires
        forall|i: int| 0 <= i < draws@.len() ==> draws@[i]@.len() == draws_per_trajectory(*scheme),
    ensures
        is_ensemble_of(r, *drift, *wrap, *scheme, draws@.map_values(|row: Vec<C>| row@)),
{
    let ghost rows = draws@.map_values(|row: Vec<C>| row@);
    let mut values: Vec<C> = Vec::new();
    let mut sensitivities: Vec<C> = Vec::new();
    let mut i: usize = 0;
    while i < draws.len()
        invariant
            i <= draws@.len(),
            rows == draws@.map_values(|row: Vec<C>| row@),
            forall|j: int|
                0 <= j < draws@.len() ==> draws@[j]@.len() == draws_per_trajectory(*scheme),
            values@.len() == i,
            sensitivities@.len() == i,
            forall|j: int|
                0 <= j < i ==> {
                    let end = trajectory_spec(
                        *drift,
                        *wrap,
                        *scheme,
                        ForwardADNode::zero_spec(),
                        #[trigger] rows[j],
                        scheme.steps as nat,
                    );
                    values@[j] == end.order0 && sensitivities@[j] == end.order1
                },
        decreases draws@.len() - i,
    {
        let end = trajectory_from_draws(drift, wrap, scheme, ForwardADNode::zero(), &draws[i]);
        values.push(end.order0);
        sensitivities.push(end.order1);
        i += 1;
    }
    Ensemble { values, sensitivities }
}

/// Generates `n_sample` independent trajectories, one after the other, each
/// from the zero state and all on the one `sampler`.
pub fn ensemble<C: Scalar, D: Drift<C>, W: PhaseWrap<C>, S: Sampler<C>>(
    drift: &D,
    wrap: &W,
    scheme: &Scheme<C>,
    n_sample: usize,
    sampler: &mut S,
) -> (r: Ensemble<C>)
    ensures
        exists|draws: Seq<Seq<C>>|
            {
                &&& draws.len() == n_sample
                &&& forall|i: int|
                    0 <= i < draws.len() ==> (#[trigger] draws[i]).len() == draws_per_trajectory(
                        *scheme,
                    )
                &&& is_ensemble_of(r, *drift, *wrap, *scheme, draws)
            },
{
    let ghost mut rows: Seq<Seq<C>> = Seq::empty();
    let mut values: Vec<C> = Vec::new();
    let mut sensitivities: Vec<C> = Vec::new();
    let mut i: usize = 0;
    while i < n_sample
        invariant
            i <= n_sample,
            rows.len() == i,
            forall|j: int|
                0 <= j < i ==> (#[trigger] rows[j]).len() == draws_per_trajectory(*scheme),
            values@.len() == i,
            sensitivities@.len() == i,
            forall|j: int|
                0 <= j < i ==> {
                    let end = trajectory_spec(
                        *drift,
                        *wrap,
                        *scheme,
                        ForwardADNode::zero_spec(),
                        #[trigger] rows[j],
                        scheme.steps as nat,
                    );
                    values@[j] == end.order0 && sensitivities@[j] == end.order1
                },
        decreases n_sample - i,
    {
        let end = trajectory(drift, wrap, scheme, ForwardADNode::zero(), sampler);
        proof {
            let row = choose|draws: Seq<C>|
                draws.len() == draws_per_trajectory(*scheme) && end == trajectory_spec(
                    *drift,
                    *wrap,
                    *scheme,
                    ForwardADNode::zero_spec(),
                    draws,
                    scheme.steps as nat,
                );
            rows = rows.push(row);
        }
        values.push(end.order0);
        sensitivities.push(end.order1);
        i += 1;
    }
    let r = Ensemble { values, sensitivities };
    proof {
        assert(is_ensemble_of(r, *drift, *wrap, *scheme, rows));
    }
    r
}

/// A trajectory that starts without sensitivity never acquires any, however
/// many sub-steps it takes and whatever is drawn, provided that zero is exact
/// in the scalar type, the parameter carries no sensitivity, the drift adds
/// none, the noise enters the value alone, and the correction leaves zero
/// where it is.
pub proof fn lemma_zero_sensitivity_persists<C: Scalar, D: Drift<C>, W: PhaseWrap<C>>(
    drift: D,
    wrap: W,
    scheme: Scheme<C>,
    start: ForwardADNode<C>,
    draws: Seq<C>,
    steps: nat,
)
    requires
        zero_is_exact::<C>(),
        keeps_zero_sensitivity(drift),
        wrap.wrapped(C::zero_spec()) == C::zero_spec(),
        scheme.parameter.order1 == C::zero_spec(),
        scheme.coupling == NoiseCoupling::OnlyValue,
        start.order1 == C::zero_spec(),
    ensures
        trajectory_spec(drift, wrap, scheme, start, draws, steps).order1 == C::zero_spec(),
    decreases steps,
{
    if steps > 0 {
        lemma_zero_sensitivity_persists(drift, wrap, scheme, start, draws, (steps - 1) as nat);
    }
}

/// The draws determine the ensemble: two runs of one scheme on the same
/// draws end with the same values and the same sensitivities.
pub proof fn lemma_ensemble_is_determined<C: Scalar, D: Drift<C>, W: PhaseWrap<C>>(
    first: Ensemble<C>,
    second: Ensemble<C>,
    drift: D,
    wrap: W,
    scheme: Scheme<C>,
    draws: Seq<Seq<C>>,
)
    requires
        is_ensemble_of(first, drift, wrap, scheme, draws),
        is_ensemble_of(second, drift, wrap, scheme, draws),
    ensures
        first.values@ == second.values@,
        first.sensitivities@ == second.sensitivities@,
{
    assert forall|i: int| 0 <= i < draws.len() implies first.values@[i] == second.values@[i]
        && first.sensitivities@[i] == second.sensitivities@[i] by {
        let end = trajectory_spec(
            drift,
            wrap,
            scheme,
            ForwardADNode::zero_spec(),
            draws[i],
            scheme.steps as nat,
        );
        assert(first.values@[i] == end.order0 && second.values@[i] == end.order0);
    }
    assert(first.values@ =~= second.values@);
    assert(first.sensitivities@ =~= second.sensitivities@);
}

} // verus!
