//! Temporal-difference learning of state values along an eligibility trace.
use crate::domains::Transition;
use crate::fa::DifferentiableStateFunction;
use crate::features::{lemma_axpy_len, FeaturesView};
use crate::prediction::td::{advance, td_residual};
use crate::scalar::Scalar;
use crate::traces::{scaled, updated, zeros, Trace};
use vstd::prelude::*;

verus! {

/// TD(lambda): decays the trace by `lambda * gamma`, takes the gradient at
/// the current state in, and moves the weights along the trace by `alpha`
/// times the residual.
pub struct TDLambda<F, S, N> {
    pub fa_theta: F,
    pub alpha: N,
    pub gamma: N,
    pub lambda: N,
    pub trace: Trace<N>,
    pub prior_state: S,
}

impl<S: Copy, N: Scalar, F: DifferentiableStateFunction<S, N>> TDLambda<F, S, N> {
    /// A learner that starts in `initial_state`.
    pub fn new(fa_theta: F, trace: Trace<N>, alpha: N, gamma: N, lambda: N, initial_state: S) -> (r:
        Self)
        ensures
            r.fa_theta == fa_theta,
            r.trace == trace,
            r.alpha == alpha,
            r.gamma == gamma,
            r.lambda == lambda,
            r.prior_state == initial_state,
    {
        TDLambda { fa_theta, alpha, gamma, lambda, trace, prior_state: initial_state }
    }

    /// The estimator can be asked about the current state.
    pub open spec fn wf(&self) -> bool {
        F::in_domain(self.fa_theta@, self.prior_state)
    }

    /// The trace once a step has decayed it and taken the gradient in.
    pub open spec fn next_trace(&self) -> Seq<N> {
        updated(
            self.trace.kind(),
            scaled(self.trace.values(), self.lambda.mul_spec(self.gamma)),
            F::grad_spec(self.fa_theta@, self.prior_state),
        )
    }

    /// The residual of a step against the estimator as it stands.
    pub open spec fn residual<A>(&self, t: Transition<S, A, N>) -> N {
        td_residual(
            t.reward,
            self.gamma,
            F::value_spec(self.fa_theta@, self.prior_state),
            F::value_spec(self.fa_theta@, t.to),
            t.terminal,
        )
    }

    /// Learns from one step taken from the current state. A step that ends
    /// the episode leaves the trace at zero.
    pub fn handle_transition<A>(&mut self, t: &Transition<S, A, N>)
        requires
            old(self).wf(),
            !t.terminal ==> F::in_domain(old(self).fa_theta@, t.to),
        ensures
            final(self).fa_theta@ == F::with_weights(
                old(self).fa_theta@,
                FeaturesView::Dense(old(self).next_trace()).axpy(
                    F::weights_spec(old(self).fa_theta@),
                    old(self).alpha.mul_spec(old(self).residual(*t)),
                ),
            ),
            final(self).trace.values() == if t.terminal {
                zeros::<N>(old(self).next_trace().len())
            } else {
                old(self).next_trace()
            },
            final(self).trace.kind() == old(self).trace.kind(),
            final(self).prior_state == advance(old(self).prior_state, t.to, t.terminal),
            final(self).alpha == old(self).alpha,
            final(self).gamma == old(self).gamma,
            final(self).lambda == old(self).lambda,
            final(self).wf(),
    {
        let v = self.fa_theta.evaluate(&self.prior_state);
        let grad = self.fa_theta.grad(&self.prior_state);
        self.trace.scaled_update(self.lambda.mul(self.gamma), &grad);
        let td_error = if t.terminated() {
            t.reward.sub(v)
        } else {
            t.reward.add(self.gamma.mul(self.fa_theta.evaluate(&t.to))).sub(v)
        };
        let factor = self.alpha.mul(td_error);
        proof {
            let w = self.trace.deref_spec().axpy(F::weights_spec(self.fa_theta@), factor);
            lemma_axpy_len(self.trace.deref_spec(), F::weights_spec(self.fa_theta@), factor);
            F::lemma_weights_domain(
                self.fa_theta@,
                w,
                advance(self.prior_state, t.to, t.terminal),
            );
        }
        self.fa_theta.update_grad_scaled(self.trace.deref(), factor);
        if t.terminated() {
            self.trace.reset();
        } else {
            self.prior_state = t.to;
        }
    }

    /// Ends the episode: the trace goes back to zero.
    pub fn handle_terminal(&mut self)
        ensures
            final(self).trace.values() == zeros::<N>(old(self).trace.values().len()),
            final(self).trace.kind() == old(self).trace.kind(),
            final(self).fa_theta == old(self).fa_theta,
            final(self).prior_state == old(self).prior_state,
            final(self).alpha == old(self).alpha,
            final(self).gamma == old(self).gamma,
            final(self).lambda == old(self).lambda,
    {
        self.trace.reset();
    }

    /// The estimated value of a state.
    pub fn predict_v(&self, s: &S) -> (r: N)
        requires
            F::in_domain(self.fa_theta@, *s),
        ensures
            r == F::value_spec(self.fa_theta@, *s),
    {
        self.fa_theta.evaluate(s)
    }
}

} // verus!
