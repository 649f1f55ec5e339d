//! What a learner may ask of a policy, and the greedy policy that a learner
//! derives from its own action values.
pub mod epsilon_greedy;

use crate::fa::{argmax, argmax_spec};
use crate::scalar::Scalar;
use rand::rngs::ThreadRng;
use rand::Rng;
use vstd::prelude::*;

verus! {

/// The thread-local generator of `rand`, `rand::rngs::ThreadRng`. Nothing
/// is known of the numbers that it gives.
#[verifier::external_type_specification]
#[verifier::external_body]
pub struct ExThreadRng(ThreadRng);

/// `rand::thread_rng` hands out the calling thread's generator. No claim is
/// made of it. It fails only where the operating system refuses the
/// entropy to seed the generator, as any call fails on a machine that has
/// run out of memory.
pub assume_specification[ rand::thread_rng ]() -> (rng: ThreadRng)
;

/// `rand::Rng::gen_range` on the range `0..n`, called on the thread-local
/// generator. The number that comes out lies in the range; which one is
/// left to chance. An empty range makes `gen_range` fail, so `n` is not
/// zero. The generator reseeds itself from time to time, and the call
/// fails where the operating system then refuses the entropy; no input
/// decides that.
#[verifier::external_body]
pub(crate) fn random_below(rng: &mut ThreadRng, n: usize) -> (r: usize)
    requires
        n > 0,
    ensures
        r < n,
{
    rng.gen_range(0..n)
}

/// A rule for choosing actions, with the probability of each choice.
pub trait Policy<S, N: Scalar>: Sized {
    type Action;

    /// Whether the policy may choose the action in the state.
    spec fn supports(&self, state: S, action: Self::Action) -> bool;

    /// The probability of an action in a state.
    spec fn probability_spec(&self, state: S, action: Self::Action) -> N;

    /// Draws an action for a state. Which one comes out is left to chance,
    /// among those that the policy may choose.
    fn sample(&self, rng: &mut ThreadRng, state: &S) -> (action: Self::Action)
        ensures
            self.supports(*state, action),
    ;

    /// The probability of an action in a state, from zero to one.
    fn probability(&self, state: &S, action: &Self::Action) -> (p: N)
        ensures
            p == self.probability_spec(*state, *action),
            !p.lt_spec(N::zero_spec()),
            !N::one_spec().lt_spec(p),
    ;
}

/// A policy over the actions `0..n`.
pub trait EnumerablePolicy<S, N: Scalar>: Policy<S, N, Action = usize> {
    /// Number of actions.
    spec fn n_actions_spec(&self) -> usize;

    /// The probability of every action in a state, in order.
    fn probabilities(&self, state: &S) -> (ps: Vec<N>)
        ensures
            ps@.len() == self.n_actions_spec(),
            forall|a: usize|
                a < self.n_actions_spec() ==> ps@[a as int] == self.probability_spec(*state, a),
    ;
}

/// The probabilities that a policy gives to every action in a state.
pub open spec fn policy_probabilities<S, N: Scalar, P: EnumerablePolicy<S, N>>(
    policy: P,
    state: S,
) -> Seq<N> {
    Seq::new(policy.n_actions_spec() as nat, |a: int| policy.probability_spec(state, a as usize))
}

/// A policy whose parameters can be moved along the gradient of the
/// probability of an action.
pub trait DifferentiablePolicy<S, N: Scalar>: Policy<S, N> + View {
    /// The policy after an error has been applied at a state and action.
    spec fn update_spec(model: Self::V, state: S, action: Self::Action, error: N) -> Self::V;

    /// The action that the policy holds most probable in a state.
    spec fn mpa_spec(model: Self::V, state: S) -> Self::Action;

    /// The action that the policy holds most probable in a state.
    fn mpa(&self, state: &S) -> (action: Self::Action)
        ensures
            action == Self::mpa_spec(self@, *state),
    ;

    /// Applies an error that the caller has already scaled by its rate.
    fn update(&mut self, state: &S, action: &Self::Action, error: N)
        ensures
            final(self)@ == Self::update_spec(old(self)@, *state, *action, error),
    ;
}

/// Number of the leading `k` values that are not less than `values[best]`.
pub open spec fn count_maxima<N: Scalar>(values: Seq<N>, best: int, k: nat) -> nat
    decreases k,
{
    if k == 0 || k > values.len() {
        0
    } else {
        count_maxima(values, best, (k - 1) as nat) + if values[k - 1].lt_spec(values[best]) {
            0nat
        } else {
            1nat
        }
    }
}

/// The probabilities that the greedy policy gives to actions of the given
/// values: the actions whose value is not less than the greatest share one
/// evenly, and every other action has zero.
pub open spec fn greedy_probabilities_spec<N: Scalar>(values: Seq<N>) -> Seq<N> {
    let best = argmax_spec(values, values.len());
    let share = N::one_spec().div_spec(
        N::from_count_spec(count_maxima(values, best, values.len()) as usize),
    );
    Seq::new(
        values.len(),
        |a: int|
            if values[a].lt_spec(values[best]) {
                N::zero_spec()
            } else {
                share
            },
    )
}

/// The probability of each action under the greedy policy for these values.
pub fn greedy_probabilities<N: Scalar>(values: &Vec<N>) -> (ps: Vec<N>)
    ensures
        ps@ == greedy_probabilities_spec(values@),
{
    let n = values.len();
    if n == 0 {
        let ps: Vec<N> = Vec::new();
        assert(ps@ =~= greedy_probabilities_spec(values@));
        return ps;
    }
    let (_, top) = argmax(values);
    let ghost best = argmax_spec(values@, values@.len());
    let mut count: usize = 0;
    let mut k: usize = 0;
    while k < n
        invariant
            k <= n,
            n == values@.len(),
            0 <= best < n,
            top == values@[best],
            count == count_maxima(values@, best, k as nat),
            count <= k,
        decreases n - k,
    {
        if !values[k].lt(top) {
            count += 1;
        }
        k += 1;
    }
    let share = N::one().div(N::from_count(count));
    let mut ps: Vec<N> = Vec::new();
    let mut a: usize = 0;
    while a < n
        invariant
            a <= n,
            n == values@.len(),
            0 <= best < n,
            top == values@[best],
            ps@.len() == a,
            forall|b: int|
                0 <= b < a ==> ps@[b] == (if values@[b].lt_spec(values@[best]) {
                    N::zero_spec()
                } else {
                    share
                }),
        decreases n - a,
    {
        if values[a].lt(top) {
            ps.push(N::zero());
        } else {
            ps.push(share);
        }
        a += 1;
    }
    assert(ps@ =~= greedy_probabilities_spec(values@));
    ps
}

} // verus!
