//! The policy that is greedy most of the time and uniform the rest.
use crate::fa::{argmax, argmax_spec};
use crate::policies::{greedy_probabilities, greedy_probabilities_spec, random_below};
use crate::scalar::Scalar;
use rand::rngs::ThreadRng;
use vstd::prelude::*;

verus! {

/// Number of steps into which a draw from the unit interval is divided.
pub const DRAW_STEPS: usize = 2147483648;

/// A policy over action values: with probability `epsilon` an action
/// drawn evenly from `0..n_actions`, else the greedy one.
pub struct EpsilonGreedy<N> {
    pub epsilon: N,
    pub n_actions: usize,
}

/// The probabilities that the policy gives to actions of the given
/// values: `(1 - epsilon) / n + p * epsilon` for the greedy probability `p`
/// of each of the `n` actions.
pub open spec fn epsilon_greedy_probabilities<N: Scalar>(epsilon: N, qs: Seq<N>) -> Seq<N> {
    let pr = N::one_spec().sub_spec(epsilon).div_spec(N::from_count_spec(qs.len() as usize));
    Seq::new(
        qs.len(),
        |a: int| pr.add_spec(greedy_probabilities_spec(qs)[a].mul_spec(epsilon)),
    )
}

/// The action that the policy takes for a draw from the unit interval and
/// an action drawn evenly: the latter where the draw is below `epsilon`,
/// else the greedy one.
pub open spec fn epsilon_greedy_choice<N: Scalar>(
    epsilon: N,
    qs: Seq<N>,
    draw: N,
    random_action: usize,
) -> usize {
    if draw.lt_spec(epsilon) {
        random_action
    } else {
        argmax_spec(qs, qs.len()) as usize
    }
}

/// The point of the unit interval that stands at step `k` of `DRAW_STEPS`.
pub open spec fn unit_draw<N: Scalar>(k: usize) -> N {
    N::from_count_spec(k).div_spec(N::from_count_spec(DRAW_STEPS))
}

impl<N: Scalar> EpsilonGreedy<N> {
    /// The policy over `n_actions` actions that explores with probability `epsilon`.
    pub fn new(n_actions: usize, epsilon: N) -> (r: Self)
        ensures
            r.epsilon == epsilon,
            r.n_actions == n_actions,
    {
        EpsilonGreedy { epsilon, n_actions }
    }

    /// The action taken for given draws.
    pub fn sample_with(&self, qs: &Vec<N>, draw: N, random_action: usize) -> (a: usize)
        requires
            qs@.len() > 0,
        ensures
            a == epsilon_greedy_choice(self.epsilon, qs@, draw, random_action),
    {
        if draw.lt(self.epsilon) {
            random_action
        } else {
            argmax(qs).0
        }
    }

    /// Draws an action: first a point of the unit interval and then, where
    /// that is below `epsilon`, one of the actions `0..n_actions`.
    pub fn sample(&self, rng: &mut ThreadRng, qs: &Vec<N>) -> (a: usize)
        requires
            qs@.len() > 0,
            self.n_actions > 0,
        ensures
            exists|k: usize, random_action: usize|
                k < DRAW_STEPS && random_action < self.n_actions && a == #[trigger] epsilon_greedy_choice(
                    self.epsilon,
                    qs@,
                    unit_draw::<N>(k),
                    random_action,
                ),
    {
        let k = random_below(rng, DRAW_STEPS);
        let draw = N::from_count(k).div(N::from_count(DRAW_STEPS));
        if draw.lt(self.epsilon) {
            let random_action = random_below(rng, self.n_actions);
            let a = self.sample_with(qs, draw, random_action);
            assert(a == epsilon_greedy_choice(self.epsilon, qs@, unit_draw::<N>(k), random_action));
            a
        } else {
            let a = self.sample_with(qs, draw, 0);
            assert(a == epsilon_greedy_choice(self.epsilon, qs@, unit_draw::<N>(k), 0));
            a
        }
    }

    /// The probability of each action for the given action values.
    pub fn probabilities(&self, qs: &Vec<N>) -> (ps: Vec<N>)
        ensures
            ps@ == epsilon_greedy_probabilities(self.epsilon, qs@),
    {
        let pr = N::one().sub(self.epsilon).div(N::from_count(qs.len()));
        let greedy = greedy_probabilities(qs);
        let mut ps: Vec<N> = Vec::new();
        let mut a: usize = 0;
        while a < greedy.len()
            invariant
                a <= greedy@.len(),
                greedy@.len() == qs@.len(),
                greedy@ == greedy_probabilities_spec(qs@),
                ps@.len() == a,
                forall|b: int|
                    0 <= b < a ==> ps@[b] == pr.add_spec(greedy@[b].mul_spec(self.epsilon)),
            decreases greedy@.len() - a,
        {
            ps.push(pr.add(greedy[a].mul(self.epsilon)));
            a += 1;
        }
        assert(ps@ =~= epsilon_greedy_probabilities(self.epsilon, qs@));
        ps
    }
}

} // verus!
