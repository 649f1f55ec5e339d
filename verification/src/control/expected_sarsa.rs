//! Action-value learning toward the expected value of the state reached.
use crate::domains::Transition;
use crate::fa::{action_values, covers, EnumerableStateActionFunction};
use crate::features::dot_dense;
use crate::policies::{policy_probabilities, EnumerablePolicy};
use crate::prediction::td::advance;
use crate::scalar::Scalar;
use rand::rngs::ThreadRng;
use vstd::prelude::*;

verus! {

/// The expectation of the values `qs` under the probabilities `ps`: the
/// products `q * p`, summed from the left over the shorter length.
pub open spec fn expectation<N: Scalar>(qs: Seq<N>, ps: Seq<N>) -> N {
    dot_dense(
        qs,
        ps,
        if qs.len() <= ps.len() {
            qs.len()
        } else {
            ps.len()
        },
    )
}

/// The expectation of action values under probabilities.
pub fn expected_value<N: Scalar>(qs: &Vec<N>, ps: &Vec<N>) -> (r: N)
    ensures
        r == expectation(qs@, ps@),
{
    let n = if qs.len() <= ps.len() {
        qs.len()
    } else {
        ps.len()
    };
    let mut acc = N::zero();
    let mut k: usize = 0;
    while k < n
        invariant
            k <= n,
            n <= qs@.len(),
            n <= ps@.len(),
            acc == dot_dense(qs@, ps@, k as nat),
        decreases n - k,
    {
        acc = acc.add(qs[k].mul(ps[k]));
        k += 1;
    }
    acc
}

/// Expected SARSA: the bootstrap is the expectation of the action values
/// of the state reached under the policy.
pub struct ExpectedSARSA<S, Q, P, N> {
    pub q_func: Q,
    pub policy: P,
    pub alpha: N,
    pub gamma: N,
    pub prior_state: S,
}

impl<S: Copy, N: Scalar, Q: EnumerableStateActionFunction<S, N>, P: EnumerablePolicy<
    S,
    N,
>> ExpectedSARSA<S, Q, P, N> {
    /// A learner that starts in `initial_state`.
    pub fn new(q_func: Q, policy: P, alpha: N, gamma: N, initial_state: S) -> (r: Self)
        ensures
            r.q_func == q_func,
            r.policy == policy,
            r.alpha == alpha,
            r.gamma == gamma,
            r.prior_state == initial_state,
    {
        ExpectedSARSA { q_func, policy, alpha, gamma, prior_state: initial_state }
    }

    /// The value of a state: the expectation of its action values under the policy.
    pub open spec fn state_value(&self, s: S) -> N {
        expectation(
            action_values::<S, N, Q>(self.q_func@, s),
            policy_probabilities::<S, N, P>(self.policy, s),
        )
    }

    /// The value that a step holds out for the action taken: the reward,
    /// and `gamma` times the value of the state reached where the step goes on.
    pub open spec fn target(&self, t: Transition<S, usize, N>) -> N {
        if t.terminal {
            t.reward
        } else {
            t.reward.add_spec(self.gamma.mul_spec(self.state_value(t.to)))
        }
    }

    /// Learns from one step taken from the current state.
    pub fn handle_transition(&mut self, t: &Transition<S, usize, N>)
        requires
            Q::in_domain(old(self).q_func@, old(self).prior_state, t.action),
            !t.terminal ==> covers::<S, N, Q>(old(self).q_func@, t.to),
        ensures
            final(self).q_func@ == Q::update_spec(
                old(self).q_func@,
                old(self).prior_state,
                t.action,
                old(self).alpha.mul_spec(
                    old(self).target(*t).sub_spec(
                        Q::value_spec(old(self).q_func@, old(self).prior_state, t.action),
                    ),
                ),
            ),
            final(self).prior_state == advance(old(self).prior_state, t.to, t.terminal),
            final(self).policy == old(self).policy,
            final(self).alpha == old(self).alpha,
            final(self).gamma == old(self).gamma,
    {
        let qsa = self.q_func.evaluate(&self.prior_state, &t.action);
        let actual = if t.terminated() {
            t.reward
        } else {
            let exp_nv = self.predict_v(&t.to);
            t.reward.add(self.gamma.mul(exp_nv))
        };
        self.q_func.update(&self.prior_state, &t.action, actual, qsa, self.alpha);
        if !t.terminated() {
            self.prior_state = t.to;
        }
    }

    /// An action drawn from the policy, which is both target and behaviour.
    pub fn sample_target(&self, rng: &mut ThreadRng, s: &S) -> (a: usize)
        ensures
            self.policy.supports(*s, a),
    {
        self.policy.sample(rng, s)
    }

    /// An action drawn from the policy.
    pub fn sample_behaviour(&self, rng: &mut ThreadRng, s: &S) -> (a: usize)
        ensures
            self.policy.supports(*s, a),
    {
        self.policy.sample(rng, s)
    }

    /// The value of a state: the expectation of its action values under the policy.
    pub fn predict_v(&self, s: &S) -> (r: N)
        requires
            covers::<S, N, Q>(self.q_func@, *s),
        ensures
            r == self.state_value(*s),
    {
        let qs = self.q_func.evaluate_all(s);
        let ps = self.policy.probabilities(s);
        assert(qs@ =~= action_values::<S, N, Q>(self.q_func@, *s));
        assert(ps@ =~= policy_probabilities::<S, N, P>(self.policy, *s));
        expected_value(&qs, &ps)
    }

    /// The estimated value of an action in a state.
    pub fn predict_q(&self, s: &S, a: &usize) -> (r: N)
        requires
            Q::in_domain(self.q_func@, *s, *a),
        ensures
            r == Q::value_spec(self.q_func@, *s, *a),
    {
        self.q_func.evaluate(s, a)
    }
}

} // verus!
