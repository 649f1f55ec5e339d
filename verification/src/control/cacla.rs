//! The continuous actor-critic learning automaton.
use crate::domains::Transition;
use crate::learner::OnlineLearner;
use crate::policies::{DifferentiablePolicy, Policy};
use crate::prediction::td::advance;
use crate::prediction::{ActionValuePredictor, ValuePredictor};
use crate::scalar::Scalar;
use rand::rngs::ThreadRng;
use vstd::prelude::*;

verus! {

/// CACLA: over actions that are numbers, the target policy is moved
/// toward the action taken whenever the step turned out better than the
/// critic expected.
pub struct CACLA<S, C, PT, PB, N> {
    pub critic: C,
    pub target_policy: PT,
    pub behaviour_policy: PB,
    pub alpha: N,
    pub gamma: N,
    pub prior_state: S,
}

impl<S: Copy, N: Scalar, PT: DifferentiablePolicy<S, N, Action = N>, PB, C: OnlineLearner<
    S,
    N,
    N,
> + ValuePredictor<S, N>> CACLA<S, C, PT, PB, N> {
    /// A learner that starts in `initial_state`.
    pub fn new(
        critic: C,
        target_policy: PT,
        behaviour_policy: PB,
        alpha: N,
        gamma: N,
        initial_state: S,
    ) -> (r: Self)
        ensures
            r.critic == critic,
            r.target_policy == target_policy,
            r.behaviour_policy == behaviour_policy,
            r.alpha == alpha,
            r.gamma == gamma,
            r.prior_state == initial_state,
    {
        CACLA { critic, target_policy, behaviour_policy, alpha, gamma, prior_state: initial_state }
    }

    /// The value that a step holds out for the state left: the reward, and
    /// `gamma` times the critic's value of the state reached where the step
    /// goes on.
    pub open spec fn target(&self, t: Transition<S, N, N>) -> N {
        if t.terminal {
            t.reward
        } else {
            t.reward.add_spec(self.gamma.mul_spec(C::v_spec(self.critic@, t.to)))
        }
    }

    /// Whether the step turned out better than the critic expected.
    pub open spec fn improves(&self, t: Transition<S, N, N>) -> bool {
        C::v_spec(self.critic@, self.prior_state).lt_spec(self.target(t))
    }

    /// Learns from one step taken from the current state. Where the step
    /// improves on the critic's value, the target policy takes the error
    /// `alpha * (action - mpa)` for its most probable action `mpa`.
    pub fn handle_transition(&mut self, t: &Transition<S, N, N>)
        requires
            C::covers_state(old(self).critic@, old(self).prior_state),
            !t.terminal ==> C::covers_state(old(self).critic@, t.to),
            C::ready(old(self).critic@, *t),
        ensures
            C::steps(old(self).critic@, *t, final(self).critic@),
            final(self).target_policy@ == if old(self).improves(*t) {
                PT::update_spec(
                    old(self).target_policy@,
                    old(self).prior_state,
                    t.action,
                    old(self).alpha.mul_spec(
                        t.action.sub_spec(
                            PT::mpa_spec(old(self).target_policy@, old(self).prior_state),
                        ),
                    ),
                )
            } else {
                old(self).target_policy@
            },
            final(self).prior_state == advance(old(self).prior_state, t.to, t.terminal),
            final(self).behaviour_policy == old(self).behaviour_policy,
            final(self).alpha == old(self).alpha,
            final(self).gamma == old(self).gamma,
    {
        let v = self.critic.predict_v(&self.prior_state);
        let target = if t.terminated() {
            t.reward
        } else {
            t.reward.add(self.gamma.mul(self.critic.predict_v(&t.to)))
        };
        self.critic.handle_transition(t);
        if v.lt(target) {
            let mpa = self.target_policy.mpa(&self.prior_state);
            self.target_policy.update(
                &self.prior_state,
                &t.action,
                self.alpha.mul(t.action.sub(mpa)),
            );
        }
        if !t.terminated() {
            self.prior_state = t.to;
        }
    }

    /// Ends the episode for the critic.
    pub fn handle_terminal(&mut self)
        ensures
            C::ends(old(self).critic@, final(self).critic@),
            final(self).target_policy == old(self).target_policy,
            final(self).behaviour_policy == old(self).behaviour_policy,
            final(self).alpha == old(self).alpha,
            final(self).gamma == old(self).gamma,
            final(self).prior_state == old(self).prior_state,
    {
        self.critic.handle_terminal();
    }

    /// The critic's value of a state.
    pub fn predict_v(&self, s: &S) -> (r: N)
        requires
            C::covers_state(self.critic@, *s),
        ensures
            r == C::v_spec(self.critic@, *s),
    {
        self.critic.predict_v(s)
    }

    /// An action drawn from the target policy.
    pub fn sample_target(&self, rng: &mut ThreadRng, s: &S) -> (a: N)
        ensures
            self.target_policy.supports(*s, a),
    {
        self.target_policy.sample(rng, s)
    }
}

impl<S: Copy, N: Scalar, PT, PB: Policy<S, N, Action = N>, C> CACLA<S, C, PT, PB, N> {
    /// An action drawn from the behaviour policy.
    pub fn sample_behaviour(&self, rng: &mut ThreadRng, s: &S) -> (a: N)
        ensures
            self.behaviour_policy.supports(*s, a),
    {
        self.behaviour_policy.sample(rng, s)
    }
}

impl<S: Copy, N: Scalar, PT, PB, C: ActionValuePredictor<S, N, N>> CACLA<S, C, PT, PB, N> {
    /// The critic's value of an action in a state.
    pub fn predict_q(&self, s: &S, a: &N) -> (r: N)
        requires
            C::covers_action(self.critic@, *s, *a),
        ensures
            r == C::q_spec(self.critic@, *s, *a),
    {
        self.critic.predict_q(s, a)
    }
}

} // verus!
