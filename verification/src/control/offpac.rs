//! Off-policy actor-critic with importance sampling.
use crate::domains::Transition;
use crate::learner::OnlineLearner;
use crate::policies::{DifferentiablePolicy, Policy};
use crate::prediction::td::{advance, td_residual};
use crate::prediction::{ActionValuePredictor, ValuePredictor};
use crate::scalar::Scalar;
use rand::rngs::ThreadRng;
use vstd::prelude::*;

verus! {

/// Off-policy actor-critic: the target policy is moved by `alpha` times
/// the critic's residual times the ratio of the probabilities that target
/// and behaviour give to the action taken.
pub struct OffPAC<S, C, T, B, N> {
    pub critic: C,
    pub target: T,
    pub behaviour: B,
    pub alpha: N,
    pub gamma: N,
    pub prior_state: S,
}

impl<S: Copy, N: Scalar, T: DifferentiablePolicy<S, N>, B: Policy<
    S,
    N,
    Action = T::Action,
>, C: OnlineLearner<S, T::Action, N> + ValuePredictor<S, N>> OffPAC<S, C, T, B, N> {
    /// A learner that starts in `initial_state`.
    pub fn new(critic: C, target: T, behaviour: B, alpha: N, gamma: N, initial_state: S) -> (r:
        Self)
        ensures
            r.critic == critic,
            r.target == target,
            r.behaviour == behaviour,
            r.alpha == alpha,
            r.gamma == gamma,
            r.prior_state == initial_state,
    {
        OffPAC { critic, target, behaviour, alpha, gamma, prior_state: initial_state }
    }

    /// The error that a step gives the target policy, against the critic
    /// `critic`: `alpha * residual * (pi / b)` for the probabilities `pi`
    /// and `b` of the action taken under target and behaviour.
    pub open spec fn policy_error(&self, critic: C::V, t: Transition<S, T::Action, N>) -> N {
        self.alpha.mul_spec(
            td_residual(
                t.reward,
                self.gamma,
                C::v_spec(critic, self.prior_state),
                C::v_spec(critic, t.to),
                t.terminal,
            ),
        ).mul_spec(
            self.target.probability_spec(self.prior_state, t.action).div_spec(
                self.behaviour.probability_spec(self.prior_state, t.action),
            ),
        )
    }

    /// Moves the target policy by the error of the step and goes on to the
    /// state reached.
    pub fn update_policy(&mut self, t: &Transition<S, T::Action, N>)
        requires
            C::covers_state(old(self).critic@, old(self).prior_state),
            !t.terminal ==> C::covers_state(old(self).critic@, t.to),
        ensures
            final(self).target@ == T::update_spec(
                old(self).target@,
                old(self).prior_state,
                t.action,
                old(self).policy_error(old(self).critic@, *t),
            ),
            final(self).prior_state == advance(old(self).prior_state, t.to, t.terminal),
            final(self).critic == old(self).critic,
            final(self).behaviour == old(self).behaviour,
            final(self).alpha == old(self).alpha,
            final(self).gamma == old(self).gamma,
    {
        let v = self.critic.predict_v(&self.prior_state);
        let residual = if t.terminated() {
            t.reward.sub(v)
        } else {
            t.reward.add(self.gamma.mul(self.critic.predict_v(&t.to))).sub(v)
        };
        let pi = self.target.probability(&self.prior_state, &t.action);
        let b = self.behaviour.probability(&self.prior_state, &t.action);
        let is_ratio = pi.div(b);
        self.target.update(&self.prior_state, &t.action, self.alpha.mul(residual).mul(is_ratio));
        if !t.terminated() {
            self.prior_state = t.to;
        }
    }

    /// Learns from one step taken from the current state: first the
    /// critic, then the target policy against the critic as it then stands.
    pub fn handle_transition(&mut self, t: &Transition<S, T::Action, N>)
        requires
            C::ready(old(self).critic@, *t),
            forall|post: C::V| #[trigger]
                C::steps(old(self).critic@, *t, post) ==> C::covers_state(
                    post,
                    old(self).prior_state,
                ) && (!t.terminal ==> C::covers_state(post, t.to)),
        ensures
            C::steps(old(self).critic@, *t, final(self).critic@),
            final(self).target@ == T::update_spec(
                old(self).target@,
                old(self).prior_state,
                t.action,
                old(self).policy_error(final(self).critic@, *t),
            ),
            final(self).prior_state == advance(old(self).prior_state, t.to, t.terminal),
            final(self).behaviour == old(self).behaviour,
            final(self).alpha == old(self).alpha,
            final(self).gamma == old(self).gamma,
    {
        self.critic.handle_transition(t);
        self.update_policy(t);
    }

    /// Ends the episode for the critic.
    pub fn handle_terminal(&mut self)
        ensures
            C::ends(old(self).critic@, final(self).critic@),
            final(self).target == old(self).target,
            final(self).behaviour == old(self).behaviour,
            final(self).alpha == old(self).alpha,
            final(self).gamma == old(self).gamma,
            final(self).prior_state == old(self).prior_state,
    {
        self.critic.handle_terminal();
    }

    /// The critic's value of a state.
    pub fn predict_v(&self, s: &S) -> (r: N)
        requires
            C::covers_state(self.critic@, *s),
        ensures
            r == C::v_spec(self.critic@, *s),
    {
        self.critic.predict_v(s)
    }

    /// An action drawn from the target policy.
    pub fn sample_target(&self, rng: &mut ThreadRng, s: &S) -> (a: T::Action)
        ensures
            self.target.supports(*s, a),
    {
        self.target.sample(rng, s)
    }

    /// An action drawn from the behaviour policy.
    pub fn sample_behaviour(&self, rng: &mut ThreadRng, s: &S) -> (a: T::Action)
        ensures
            self.behaviour.supports(*s, a),
    {
        self.behaviour.sample(rng, s)
    }
}

impl<S: Copy, N: Scalar, T: Policy<S, N>, B, C: ActionValuePredictor<S, T::Action, N>> OffPAC<
    S,
    C,
    T,
    B,
    N,
> {
    /// The critic's value of an action in a state.
    pub fn predict_q(&self, s: &S, a: &T::Action) -> (r: N)
        requires
            C::covers_action(self.critic@, *s, *a),
        ensures
            r == C::q_spec(self.critic@, *s, *a),
    {
        self.critic.predict_q(s, a)
    }
}

} // verus!
