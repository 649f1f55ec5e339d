//! On-policy action-value learning along an eligibility trace.
use crate::domains::Transition;
use crate::fa::DifferentiableStateActionFunction;
use crate::features::{lemma_axpy_len, FeaturesView};
use crate::policies::Policy;
use crate::prediction::td::{advance, td_residual};
use crate::scalar::Scalar;
use crate::traces::{scaled, updated, zeros, Trace};
use rand::rngs::ThreadRng;
use vstd::prelude::*;

verus! {

/// SARSA(lambda): the bootstrap is the value of the action that the
/// behaviour policy draws in the state reached.
pub struct SARSALambda<S, F, P, N> {
    pub fa_theta: F,
    pub policy: P,
    pub alpha: N,
    pub gamma: N,
    pub lambda: N,
    pub trace: Trace<N>,
    pub prior_state: S,
}

impl<S: Copy, N: Scalar, A, F: DifferentiableStateActionFunction<S, A, N>, P: Policy<
    S,
    N,
    Action = A,
>> SARSALambda<S, F, P, N> {
    /// A learner that starts in `initial_state`.
    pub fn new(
        fa_theta: F,
        policy: P,
        trace: Trace<N>,
        alpha: N,
        gamma: N,
        lambda: N,
        initial_state: S,
    ) -> (r: Self)
        ensures
            r.fa_theta == fa_theta,
            r.policy == policy,
            r.trace == trace,
            r.alpha == alpha,
            r.gamma == gamma,
            r.lambda == lambda,
            r.prior_state == initial_state,
    {
        SARSALambda { fa_theta, policy, alpha, gamma, lambda, trace, prior_state: initial_state }
    }

    /// The trace once a step has decayed it and taken the gradient in.
    pub open spec fn next_trace(&self, action: A) -> Seq<N> {
        updated(
            self.trace.kind(),
            scaled(self.trace.values(), self.lambda.mul_spec(self.gamma)),
            F::grad_spec(self.fa_theta@, self.prior_state, action),
        )
    }

    /// The residual of a step against the estimator as it stands, with
    /// `next_action` drawn for the state reached.
    pub open spec fn residual(&self, t: Transition<S, A, N>, next_action: A) -> N {
        td_residual(
            t.reward,
            self.gamma,
            F::value_spec(self.fa_theta@, self.prior_state, t.action),
            F::value_spec(self.fa_theta@, t.to, next_action),
            t.terminal,
        )
    }

    /// What one step makes of a learner, given the action drawn for the
    /// state reached.
    pub open spec fn stepped(pre: Self, post: Self, t: Transition<S, A, N>, next_action: A) -> bool {
        &&& post.fa_theta@ == F::with_weights(
            pre.fa_theta@,
            FeaturesView::Dense(pre.next_trace(t.action)).axpy(
                F::weights_spec(pre.fa_theta@),
                pre.alpha.mul_spec(pre.residual(t, next_action)),
            ),
        )
        &&& post.trace.values() == if t.terminal {
            zeros::<N>(pre.next_trace(t.action).len())
        } else {
            pre.next_trace(t.action)
        }
        &&& post.trace.kind() == pre.trace.kind()
        &&& post.prior_state == advance(pre.prior_state, t.to, t.terminal)
        &&& post.policy == pre.policy
        &&& post.alpha == pre.alpha
        &&& post.gamma == pre.gamma
        &&& post.lambda == pre.lambda
    }

    /// What one step makes of a learner where `next_action` is an action
    /// that the behaviour policy may have drawn for the state reached.
    pub open spec fn stepped_on_draw(
        pre: Self,
        post: Self,
        t: Transition<S, A, N>,
        next_action: A,
    ) -> bool {
        &&& t.terminal || pre.policy.supports(t.to, next_action)
        &&& Self::stepped(pre, post, t, next_action)
    }

    /// Learns from one step taken from the current state, with
    /// `next_action` as the action drawn for the state reached.
    pub fn handle_transition_with(&mut self, t: &Transition<S, A, N>, next_action: &A)
        requires
            F::in_domain(old(self).fa_theta@, old(self).prior_state, t.action),
            !t.terminal ==> F::in_domain(old(self).fa_theta@, t.to, *next_action),
        ensures
            Self::stepped(*old(self), *final(self), *t, *next_action),
    {
        let qsa = self.fa_theta.evaluate(&self.prior_state, &t.action);
        self.trace.scale(self.lambda.mul(self.gamma));
        let grad = self.fa_theta.grad(&self.prior_state, &t.action);
        self.trace.update(&grad);
        let residual = if t.terminated() {
            t.reward.sub(qsa)
        } else {
            let nqsna = self.fa_theta.evaluate(&t.to, next_action);
            t.reward.add(self.gamma.mul(nqsna)).sub(qsa)
        };
        self.fa_theta.update_grad_scaled(self.trace.deref(), self.alpha.mul(residual));
        if t.terminated() {
            self.trace.reset();
        } else {
            self.prior_state = t.to;
        }
    }

    /// Learns from one step taken from the current state. Where the step
    /// goes on, the behaviour policy draws the action for the state reached.
    pub fn handle_transition(&mut self, t: &Transition<S, A, N>)
        requires
            F::in_domain(old(self).fa_theta@, old(self).prior_state, t.action),
            !t.terminal ==> forall|a: A|
                old(self).policy.supports(t.to, a) ==> F::in_domain(old(self).fa_theta@, t.to, a),
        ensures
            exists|next_action: A|
                Self::stepped_on_draw(*old(self), *final(self), *t, next_action),
    {
        if t.terminated() {
            self.handle_transition_with(t, &t.action);
            assert(Self::stepped_on_draw(*old(self), *self, *t, t.action));
        } else {
            let mut rng = rand::thread_rng();
            let na = self.policy.sample(&mut rng, &t.to);
            self.handle_transition_with(t, &na);
            assert(Self::stepped_on_draw(*old(self), *self, *t, na));
        }
    }

    /// Weights of as many entries leave the estimator's domain as it was:
    /// after a step the learner can be asked what it could be asked before.
    pub proof fn lemma_step_keeps_domain(
        pre: Self,
        post: Self,
        t: Transition<S, A, N>,
        next_action: A,
        s: S,
        a: A,
    )
        requires
            Self::stepped(pre, post, t, next_action),
        ensures
            F::in_domain(post.fa_theta@, s, a) == F::in_domain(pre.fa_theta@, s, a),
    {
        let factor = pre.alpha.mul_spec(pre.residual(t, next_action));
        let direction = FeaturesView::Dense(pre.next_trace(t.action));
        lemma_axpy_len(direction, F::weights_spec(pre.fa_theta@), factor);
        F::lemma_weights_domain(
            pre.fa_theta@,
            direction.axpy(F::weights_spec(pre.fa_theta@), factor),
            s,
            a,
        );
    }

    /// An action drawn from the behaviour policy, which is also the target.
    pub fn sample_target(&self, rng: &mut ThreadRng, s: &S) -> (a: A)
        ensures
            self.policy.supports(*s, a),
    {
        self.policy.sample(rng, s)
    }

    /// An action drawn from the behaviour policy.
    pub fn sample_behaviour(&self, rng: &mut ThreadRng, s: &S) -> (a: A)
        ensures
            self.policy.supports(*s, a),
    {
        self.policy.sample(rng, s)
    }

    /// The estimated value of an action in a state.
    pub fn predict_q(&self, s: &S, a: &A) -> (r: N)
        requires
            F::in_domain(self.fa_theta@, *s, *a),
        ensures
            r == F::value_spec(self.fa_theta@, *s, *a),
    {
        self.fa_theta.evaluate(s, a)
    }

    /// The value of a state: that of an action drawn from the behaviour policy.
    pub fn predict_v(&self, s: &S) -> (r: N)
        requires
            forall|a: A| self.policy.supports(*s, a) ==> F::in_domain(self.fa_theta@, *s, a),
        ensures
            exists|a: A| self.policy.supports(*s, a) && r == F::value_spec(self.fa_theta@, *s, a),
    {
        let mut rng = rand::thread_rng();
        let a = self.policy.sample(&mut rng, s);
        self.fa_theta.evaluate(s, &a)
    }
}

} // verus!
