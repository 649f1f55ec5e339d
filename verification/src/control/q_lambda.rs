//! Watkins' Q-learning along an eligibility trace.
use crate::domains::Transition;
use crate::fa::{covers, greedy_action, EnumerableDifferentiableFunction};
use crate::features::{lemma_axpy_len, FeaturesView};
use crate::memory::{make_shared, Shared};
use crate::policies::Policy;
use crate::prediction::td::{advance, td_residual};
use crate::scalar::Scalar;
use crate::traces::{scaled, updated, zeros, Trace};
use rand::rngs::ThreadRng;
use vstd::prelude::*;

verus! {

/// Q(lambda): the trace decays by `lambda * gamma` while the actions taken
/// are greedy and is cut to zero when one is not; the bootstrap is the
/// greatest action value of the state reached.
pub struct QLambda<S, F, P, N> {
    pub fa_theta: F,
    pub policy: P,
    pub alpha: N,
    pub gamma: N,
    pub lambda: N,
    pub trace: Trace<N>,
    pub prior_state: S,
}

impl<S: Copy, N: Scalar, F: EnumerableDifferentiableFunction<S, N>, P> QLambda<
    S,
    Shared<F>,
    P,
    N,
> {
    /// A learner that holds its estimator behind a handle.
    pub fn new(
        fa_theta: F,
        policy: P,
        trace: Trace<N>,
        alpha: N,
        gamma: N,
        lambda: N,
        initial_state: S,
    ) -> (r: Self)
        ensures
            r.fa_theta.get() == fa_theta,
            r.policy == policy,
            r.trace == trace,
            r.alpha == alpha,
            r.gamma == gamma,
            r.lambda == lambda,
            r.prior_state == initial_state,
    {
        QLambda {
            fa_theta: make_shared(fa_theta),
            policy,
            alpha,
            gamma,
            lambda,
            trace,
            prior_state: initial_state,
        }
    }
}

impl<S: Copy, N: Scalar, F: EnumerableDifferentiableFunction<S, N>, P> QLambda<S, F, P, N> {
    /// The estimator has an action and can be asked about every action in
    /// the current state.
    pub open spec fn wf(&self) -> bool {
        &&& F::n_actions_spec(self.fa_theta@) > 0
        &&& covers::<S, N, F>(self.fa_theta@, self.prior_state)
    }

    /// The factor by which a step decays the trace: `lambda * gamma` where
    /// the action taken is the greedy one, zero where it is not.
    pub open spec fn decay(&self, action: usize) -> N {
        if action == greedy_action::<S, N, F>(self.fa_theta@, self.prior_state) {
            self.lambda.mul_spec(self.gamma)
        } else {
            N::zero_spec()
        }
    }

    /// The trace once a step has decayed it and taken the gradient in.
    pub open spec fn next_trace(&self, action: usize) -> Seq<N> {
        updated(
            self.trace.kind(),
            scaled(self.trace.values(), self.decay(action)),
            F::grad_spec(self.fa_theta@, self.prior_state, action),
        )
    }

    /// The residual of a step against the estimator as it stands.
    pub open spec fn residual(&self, t: Transition<S, usize, N>) -> N {
        td_residual(
            t.reward,
            self.gamma,
            F::value_spec(self.fa_theta@, self.prior_state, t.action),
            F::value_spec(self.fa_theta@, t.to, greedy_action::<S, N, F>(self.fa_theta@, t.to)),
            t.terminal,
        )
    }

    /// Learns from one step taken from the current state. A step that ends
    /// the episode leaves the trace at zero.
    pub fn handle_transition(&mut self, t: &Transition<S, usize, N>)
        requires
            old(self).wf(),
            t.action < F::n_actions_spec(old(self).fa_theta@),
            !t.terminal ==> covers::<S, N, F>(old(self).fa_theta@, t.to),
        ensures
            final(self).fa_theta@ == F::with_weights(
                old(self).fa_theta@,
                FeaturesView::Dense(old(self).next_trace(t.action)).axpy(
                    F::weights_spec(old(self).fa_theta@),
                    old(self).alpha.mul_spec(old(self).residual(*t)),
                ),
            ),
            final(self).trace.values() == if t.terminal {
                zeros::<N>(old(self).next_trace(t.action).len())
            } else {
                old(self).next_trace(t.action)
            },
            final(self).trace.kind() == old(self).trace.kind(),
            final(self).prior_state == advance(old(self).prior_state, t.to, t.terminal),
            final(self).policy == old(self).policy,
            final(self).alpha == old(self).alpha,
            final(self).gamma == old(self).gamma,
            final(self).lambda == old(self).lambda,
            final(self).wf(),
    {
        let qsa = self.fa_theta.evaluate(&self.prior_state, &t.action);
        let decay = if t.action == self.fa_theta.find_max(&self.prior_state).0 {
            self.lambda.mul(self.gamma)
        } else {
            N::zero()
        };
        self.trace.scale(decay);
        let grad = self.fa_theta.grad(&self.prior_state, &t.action);
        self.trace.update(&grad);
        let residual = if t.terminated() {
            t.reward.sub(qsa)
        } else {
            let (_, nqs_max) = self.fa_theta.find_max(&t.to);
            t.reward.add(self.gamma.mul(nqs_max)).sub(qsa)
        };
        let factor = self.alpha.mul(residual);
        proof {
            let w = self.trace.deref_spec().axpy(F::weights_spec(self.fa_theta@), factor);
            lemma_axpy_len(self.trace.deref_spec(), F::weights_spec(self.fa_theta@), factor);
            F::lemma_weights_actions(self.fa_theta@, w);
            let next = advance(self.prior_state, t.to, t.terminal);
            assert forall|a: usize| a < F::n_actions_spec(self.fa_theta@) implies F::in_domain(
                F::with_weights(self.fa_theta@, w),
                next,
                a,
            ) by {
                F::lemma_weights_domain(self.fa_theta@, w, next, a);
            }
        }
        self.fa_theta.update_grad_scaled(self.trace.deref(), factor);
        if t.terminated() {
            self.trace.reset();
        } else {
            self.prior_state = t.to;
        }
    }

    /// The greedy action in a state.
    pub fn sample_target(&self, s: &S) -> (a: usize)
        requires
            F::n_actions_spec(self.fa_theta@) > 0,
            covers::<S, N, F>(self.fa_theta@, *s),
        ensures
            a == greedy_action::<S, N, F>(self.fa_theta@, *s),
    {
        self.fa_theta.find_max(s).0
    }

    /// The value of a state: the greatest of its action values.
    pub fn predict_v(&self, s: &S) -> (r: N)
        requires
            F::n_actions_spec(self.fa_theta@) > 0,
            covers::<S, N, F>(self.fa_theta@, *s),
        ensures
            r == F::value_spec(self.fa_theta@, *s, greedy_action::<S, N, F>(self.fa_theta@, *s)),
    {
        self.fa_theta.find_max(s).1
    }

    /// The estimated value of an action in a state.
    pub fn predict_q(&self, s: &S, a: &usize) -> (r: N)
        requires
            F::in_domain(self.fa_theta@, *s, *a),
        ensures
            r == F::value_spec(self.fa_theta@, *s, *a),
    {
        self.fa_theta.evaluate(s, a)
    }
}

impl<S: Copy, N: Scalar, F: EnumerableDifferentiableFunction<S, N>, P: Policy<
    S,
    N,
    Action = usize,
>> QLambda<S, F, P, N> {
    /// An action drawn from the behaviour policy.
    pub fn sample_behaviour(&self, rng: &mut ThreadRng, s: &S) -> (a: usize)
        ensures
            self.policy.supports(*s, a),
    {
        self.policy.sample(rng, s)
    }
}

} // verus!
