//! Actor-critic learning from the critic's temporal-difference residual.
use crate::domains::Transition;
use crate::learner::OnlineLearner;
use crate::policies::DifferentiablePolicy;
use crate::prediction::td::{advance, td_residual};
use crate::prediction::{ActionValuePredictor, ValuePredictor};
use crate::scalar::Scalar;
use rand::rngs::ThreadRng;
use vstd::prelude::*;

verus! {

/// TD-error actor-critic: the policy is moved by `alpha` times the
/// residual that the critic sees before it learns from the step.
pub struct TDAC<S, C, P, N> {
    pub critic: C,
    pub policy: P,
    pub alpha: N,
    pub gamma: N,
    pub prior_state: S,
}

impl<S: Copy, N: Scalar, P: DifferentiablePolicy<S, N>, C: OnlineLearner<
    S,
    P::Action,
    N,
> + ValuePredictor<S, N>> TDAC<S, C, P, N> {
    /// A learner that starts in `initial_state`.
    pub fn new(critic: C, policy: P, alpha: N, gamma: N, initial_state: S) -> (r: Self)
        ensures
            r.critic == critic,
            r.policy == policy,
            r.alpha == alpha,
            r.gamma == gamma,
            r.prior_state == initial_state,
    {
        TDAC { critic, policy, alpha, gamma, prior_state: initial_state }
    }

    /// The residual of a step against the critic as it stands.
    pub open spec fn residual(&self, t: Transition<S, P::Action, N>) -> N {
        td_residual(
            t.reward,
            self.gamma,
            C::v_spec(self.critic@, self.prior_state),
            C::v_spec(self.critic@, t.to),
            t.terminal,
        )
    }

    /// Learns from one step taken from the current state: the critic takes
    /// the step, and the policy the residual that the critic saw before.
    pub fn handle_transition(&mut self, t: &Transition<S, P::Action, N>)
        requires
            C::covers_state(old(self).critic@, old(self).prior_state),
            !t.terminal ==> C::covers_state(old(self).critic@, t.to),
            C::ready(old(self).critic@, *t),
        ensures
            C::steps(old(self).critic@, *t, final(self).critic@),
            final(self).policy@ == P::update_spec(
                old(self).policy@,
                old(self).prior_state,
                t.action,
                old(self).alpha.mul_spec(old(self).residual(*t)),
            ),
            final(self).prior_state == advance(old(self).prior_state, t.to, t.terminal),
            final(self).alpha == old(self).alpha,
            final(self).gamma == old(self).gamma,
    {
        let v = self.critic.predict_v(&self.prior_state);
        let td_error = if t.terminated() {
            t.reward.sub(v)
        } else {
            t.reward.add(self.gamma.mul(self.critic.predict_v(&t.to))).sub(v)
        };
        self.critic.handle_transition(t);
        self.policy.update(&self.prior_state, &t.action, self.alpha.mul(td_error));
        if !t.terminated() {
            self.prior_state = t.to;
        }
    }

    /// Ends the episode for the critic.
    pub fn handle_terminal(&mut self)
        ensures
            C::ends(old(self).critic@, final(self).critic@),
            final(self).policy == old(self).policy,
            final(self).alpha == old(self).alpha,
            final(self).gamma == old(self).gamma,
            final(self).prior_state == old(self).prior_state,
    {
        self.critic.handle_terminal();
    }

    /// The critic's value of a state.
    pub fn predict_v(&self, s: &S) -> (r: N)
        requires
            C::covers_state(self.critic@, *s),
        ensures
            r == C::v_spec(self.critic@, *s),
    {
        self.critic.predict_v(s)
    }

    /// An action drawn from the policy, which is both target and behaviour.
    pub fn sample_target(&self, rng: &mut ThreadRng, s: &S) -> (a: P::Action)
        ensures
            self.policy.supports(*s, a),
    {
        self.policy.sample(rng, s)
    }

    /// An action drawn from the policy.
    pub fn sample_behaviour(&self, rng: &mut ThreadRng, s: &S) -> (a: P::Action)
        ensures
            self.policy.supports(*s, a),
    {
        self.policy.sample(rng, s)
    }
}

impl<S: Copy, N: Scalar, P: DifferentiablePolicy<S, N>, C: ActionValuePredictor<
    S,
    P::Action,
    N,
>> TDAC<S, C, P, N> {
    /// The critic's value of an action in a state.
    pub fn predict_q(&self, s: &S, a: &P::Action) -> (r: N)
        requires
            C::covers_action(self.critic@, *s, *a),
        ensures
            r == C::q_spec(self.critic@, *s, *a),
    {
        self.critic.predict_q(s, a)
    }
}

} // verus!
