//! Actor-critic learning from the critic's action values.
use crate::domains::Transition;
use crate::learner::OnlineLearner;
use crate::policies::DifferentiablePolicy;
use crate::prediction::td::advance;
use crate::prediction::{ActionValuePredictor, ValuePredictor};
use crate::scalar::Scalar;
use rand::rngs::ThreadRng;
use vstd::prelude::*;

verus! {

/// Action-value actor-critic: the policy is moved by `alpha` times the
/// value that the critic gives to the action taken, once the critic has
/// learned from the step.
pub struct QAC<S, C, P, N> {
    pub critic: C,
    pub policy: P,
    pub alpha: N,
    pub prior_state: S,
}

impl<S: Copy, N: Scalar, P: DifferentiablePolicy<S, N>, C: OnlineLearner<
    S,
    P::Action,
    N,
> + ActionValuePredictor<S, P::Action, N>> QAC<S, C, P, N> {
    /// A learner that starts in `initial_state`.
    pub fn new(critic: C, policy: P, alpha: N, initial_state: S) -> (r: Self)
        ensures
            r.critic == critic,
            r.policy == policy,
            r.alpha == alpha,
            r.prior_state == initial_state,
    {
        QAC { critic, policy, alpha, prior_state: initial_state }
    }

    /// Moves the policy by `alpha` times the critic's value of the action
    /// taken in the current state.
    pub fn update_policy(&mut self, t: &Transition<S, P::Action, N>)
        requires
            C::covers_action(old(self).critic@, old(self).prior_state, t.action),
        ensures
            final(self).policy@ == P::update_spec(
                old(self).policy@,
                old(self).prior_state,
                t.action,
                old(self).alpha.mul_spec(
                    C::q_spec(old(self).critic@, old(self).prior_state, t.action),
                ),
            ),
            final(self).critic == old(self).critic,
            final(self).alpha == old(self).alpha,
            final(self).prior_state == old(self).prior_state,
    {
        let qsa = self.critic.predict_q(&self.prior_state, &t.action);
        self.policy.update(&self.prior_state, &t.action, self.alpha.mul(qsa));
    }

    /// Learns from one step taken from the current state: first the
    /// critic, then the policy.
    pub fn handle_transition(&mut self, t: &Transition<S, P::Action, N>)
        requires
            C::ready(old(self).critic@, *t),
            forall|post: C::V| #[trigger]
                C::steps(old(self).critic@, *t, post) ==> C::covers_action(
                    post,
                    old(self).prior_state,
                    t.action,
                ),
        ensures
            C::steps(old(self).critic@, *t, final(self).critic@),
            final(self).policy@ == P::update_spec(
                old(self).policy@,
                old(self).prior_state,
                t.action,
                old(self).alpha.mul_spec(
                    C::q_spec(final(self).critic@, old(self).prior_state, t.action),
                ),
            ),
            final(self).prior_state == advance(old(self).prior_state, t.to, t.terminal),
            final(self).alpha == old(self).alpha,
    {
        self.critic.handle_transition(t);
        self.update_policy(t);
        if !t.terminated() {
            self.prior_state = t.to;
        }
    }

    /// Ends the episode for the critic.
    pub fn handle_terminal(&mut self)
        ensures
            C::ends(old(self).critic@, final(self).critic@),
            final(self).policy == old(self).policy,
            final(self).alpha == old(self).alpha,
            final(self).prior_state == old(self).prior_state,
    {
        self.critic.handle_terminal();
    }

    /// The critic's value of an action in a state.
    pub fn predict_q(&self, s: &S, a: &P::Action) -> (r: N)
        requires
            C::covers_action(self.critic@, *s, *a),
        ensures
            r == C::q_spec(self.critic@, *s, *a),
    {
        self.critic.predict_q(s, a)
    }

    /// An action drawn from the policy, which is both target and behaviour.
    pub fn sample_target(&self, rng: &mut ThreadRng, s: &S) -> (a: P::Action)
        ensures
            self.policy.supports(*s, a),
    {
        self.policy.sample(rng, s)
    }

    /// An action drawn from the policy.
    pub fn sample_behaviour(&self, rng: &mut ThreadRng, s: &S) -> (a: P::Action)
        ensures
            self.policy.supports(*s, a),
    {
        self.policy.sample(rng, s)
    }
}

impl<S: Copy, N: Scalar, P, C: ValuePredictor<S, N>> QAC<S, C, P, N> {
    /// The critic's value of a state.
    pub fn predict_v(&self, s: &S) -> (r: N)
        requires
            C::covers_state(self.critic@, *s),
        ensures
            r == C::v_spec(self.critic@, *s),
    {
        self.critic.predict_v(s)
    }
}

} // verus!
