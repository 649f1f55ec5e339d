//! Temporal-difference learning with gradient correction.
use crate::domains::Transition;
use crate::fa::DifferentiableStateFunction;
use crate::features::lemma_axpy_len;
use crate::prediction::gtd2::{corrected_component, corrected_direction, ShapeMismatch};
use crate::prediction::td::{advance, td_residual};
use crate::scalar::Scalar;
use vstd::prelude::*;

verus! {

/// TDC: the correcting estimator takes the plain error `beta * (e - W(s))`
/// at the current state.
pub struct TDC<S, F, N> {
    pub fa_theta: F,
    pub fa_w: F,
    pub alpha: N,
    pub beta: N,
    pub gamma: N,
    pub prior_state: S,
}

impl<S: Copy, N: Scalar, F: DifferentiableStateFunction<S, N>> TDC<S, F, N> {
    /// Builds the learner, unless the weights of the two estimators differ in shape.
    pub fn new(fa_theta: F, fa_w: F, alpha: N, beta: N, gamma: N, initial_state: S) -> (r: Result<
        Self,
        ShapeMismatch,
    >)
        ensures
            r is Ok <==> F::dim_spec(fa_theta@) == F::dim_spec(fa_w@),
            r matches Ok(l) ==> l.fa_theta == fa_theta && l.fa_w == fa_w && l.alpha == alpha
                && l.beta == beta && l.gamma == gamma && l.prior_state == initial_state,
            r matches Err(e) ==> e.theta == F::dim_spec(fa_theta@) && e.w == F::dim_spec(fa_w@),
            r matches Ok(l) ==> (F::in_domain(fa_theta@, initial_state) && F::in_domain(
                fa_w@,
                initial_state,
            ) ==> l.wf()),
    {
        let dt = fa_theta.weights_dim();
        let dw = fa_w.weights_dim();
        if dt.0 != dw.0 || dt.1 != dw.1 {
            return Err(ShapeMismatch { theta: dt, w: dw });
        }
        Ok(TDC { fa_theta, fa_w, alpha, beta, gamma, prior_state: initial_state })
    }

    /// Both estimators can be asked about the current state, and their
    /// weights have one shape.
    pub open spec fn wf(&self) -> bool {
        &&& F::in_domain(self.fa_theta@, self.prior_state)
        &&& F::in_domain(self.fa_w@, self.prior_state)
        &&& F::dim_spec(self.fa_theta@) == F::dim_spec(self.fa_w@)
    }

    /// The residual of a step against the main estimator as it stands.
    pub open spec fn residual<A>(&self, t: Transition<S, A, N>) -> N {
        td_residual(
            t.reward,
            self.gamma,
            F::value_spec(self.fa_theta@, self.prior_state),
            F::value_spec(self.fa_theta@, t.to),
            t.terminal,
        )
    }

    /// Learns from one step taken from the current state.
    pub fn handle_transition<A>(&mut self, t: &Transition<S, A, N>)
        requires
            old(self).wf(),
            F::in_domain(old(self).fa_theta@, t.to),
            !t.terminal ==> F::in_domain(old(self).fa_w@, t.to),
        ensures
            final(self).fa_w@ == F::update_spec(
                old(self).fa_w@,
                old(self).prior_state,
                old(self).beta.mul_spec(
                    old(self).residual(*t).sub_spec(
                        F::value_spec(old(self).fa_w@, old(self).prior_state),
                    ),
                ),
            ),
            final(self).fa_theta@ == F::with_weights(
                old(self).fa_theta@,
                corrected_direction(
                    old(self).residual(*t),
                    F::value_spec(old(self).fa_w@, old(self).prior_state),
                    old(self).gamma,
                    F::grad_spec(old(self).fa_theta@, old(self).prior_state),
                    F::grad_spec(old(self).fa_theta@, t.to),
                ).axpy(F::weights_spec(old(self).fa_theta@), old(self).alpha),
            ),
            final(self).prior_state == advance(old(self).prior_state, t.to, t.terminal),
            final(self).alpha == old(self).alpha,
            final(self).beta == old(self).beta,
            final(self).gamma == old(self).gamma,
            final(self).wf(),
    {
        let w_s = self.fa_w.evaluate(&self.prior_state);
        let theta_s = self.fa_theta.evaluate(&self.prior_state);
        let td_error = if t.terminated() {
            t.reward.sub(theta_s)
        } else {
            t.reward.add(self.gamma.mul(self.fa_theta.evaluate(&t.to))).sub(theta_s)
        };
        let grad = self.fa_theta.grad(&self.prior_state);
        let next_grad = self.fa_theta.grad(&t.to);
        let gamma = self.gamma;
        let correct = |x: N, y: N| -> (r: N)
            ensures
                r == corrected_component(td_error, w_s, gamma, x, y),
            { td_error.mul(x).sub(w_s.mul(x.sub(gamma.mul(y)))) };
        let direction = grad.combine(&next_grad, correct);
        let w_error = self.beta.mul(td_error.sub(w_s));
        proof {
            assert(direction@->Dense_0 =~= corrected_direction(
                td_error,
                w_s,
                gamma,
                grad@,
                next_grad@,
            )->Dense_0);
            let next = advance(self.prior_state, t.to, t.terminal);
            F::lemma_update_domain(self.fa_w@, self.prior_state, w_error, next);
            F::lemma_update_shape(self.fa_w@, self.prior_state, w_error);
            F::lemma_with_weights(
                self.fa_theta@,
                direction@.axpy(F::weights_spec(self.fa_theta@), self.alpha),
            );
            lemma_axpy_len(direction@, F::weights_spec(self.fa_theta@), self.alpha);
            F::lemma_weights_domain(
                self.fa_theta@,
                direction@.axpy(F::weights_spec(self.fa_theta@), self.alpha),
                next,
            );
        }
        self.fa_w.update(&self.prior_state, w_error);
        self.fa_theta.update_grad_scaled(&direction, self.alpha);
        if !t.terminated() {
            self.prior_state = t.to;
        }
    }

    /// The estimated value of a state.
    pub fn predict_v(&self, s: &S) -> (r: N)
        requires
            F::in_domain(self.fa_theta@, *s),
        ensures
            r == F::value_spec(self.fa_theta@, *s),
    {
        self.fa_theta.evaluate(s)
    }
}

} // verus!
