//! Gradient temporal-difference learning with a second, correcting estimator.
use crate::domains::Transition;
use crate::fa::DifferentiableStateFunction;
use crate::features::{lemma_axpy_len, FeaturesView};
use crate::prediction::td::{advance, td_residual};
use crate::scalar::Scalar;
use vstd::prelude::*;

verus! {

/// Two estimators that should have had weights of one shape did not.
#[derive(Clone, Copy, Debug, PartialEq, Eq)]
pub struct ShapeMismatch {
    pub theta: (usize, usize),
    pub w: (usize, usize),
}

/// One component of the direction in which the main weights move:
/// `e * x - ws * (x - gamma * y)`, for the residual `e`, the correction
/// `ws`, and the components `x` and `y` of the gradients at the state left
/// and at the state reached.
pub open spec fn corrected_component<N: Scalar>(e: N, ws: N, gamma: N, x: N, y: N) -> N {
    e.mul_spec(x).sub_spec(ws.mul_spec(x.sub_spec(gamma.mul_spec(y))))
}

/// The direction in which the main weights move, component by component
/// over the dimension of the first gradient.
pub open spec fn corrected_direction<N: Scalar>(
    e: N,
    ws: N,
    gamma: N,
    grad: FeaturesView<N>,
    next_grad: FeaturesView<N>,
) -> FeaturesView<N> {
    FeaturesView::Dense(
        Seq::new(
            grad.dim(),
            |i: int| corrected_component(e, ws, gamma, grad.at(i), next_grad.at(i)),
        ),
    )
}

/// GTD2: the correcting estimator follows the gradient at the current
/// state, scaled by `beta * (e - W(s))`.
pub struct GTD2<S, F, N> {
    pub fa_theta: F,
    pub fa_w: F,
    pub alpha: N,
    pub beta: N,
    pub gamma: N,
    pub prior_state: S,
}

impl<S: Copy, N: Scalar, F: DifferentiableStateFunction<S, N>> GTD2<S, F, N> {
    /// Builds the learner, unless the weights of the two estimators differ in shape.
    pub fn new(fa_theta: F, fa_w: F, alpha: N, beta: N, gamma: N, initial_state: S) -> (r: Result<
        Self,
        ShapeMismatch,
    >)
        ensures
            r is Ok <==> F::dim_spec(fa_theta@) == F::dim_spec(fa_w@),
            r matches Ok(l) ==> l.fa_theta == fa_theta && l.fa_w == fa_w && l.alpha == alpha
                && l.beta == beta && l.gamma == gamma && l.prior_state == initial_state,
            r matches Err(e) ==> e.theta == F::dim_spec(fa_theta@) && e.w == F::dim_spec(fa_w@),
            r matches Ok(l) ==> (F::in_domain(fa_theta@, initial_state) && F::in_domain(
                fa_w@,
                initial_state,
            ) ==> l.wf()),
    {
        let dt = fa_theta.weights_dim();
        let dw = fa_w.weights_dim();
        if dt.0 != dw.0 || dt.1 != dw.1 {
            return Err(ShapeMismatch { theta: dt, w: dw });
        }
        Ok(GTD2 { fa_theta, fa_w, alpha, beta, gamma, prior_state: initial_state })
    }

    /// Both estimators can be asked about the current state, and their
    /// weights have one shape.
    pub open spec fn wf(&self) -> bool {
        &&& F::in_domain(self.fa_theta@, self.prior_state)
        &&& F::in_domain(self.fa_w@, self.prior_state)
        &&& F::dim_spec(self.fa_theta@) == F::dim_spec(self.fa_w@)
    }

    /// The residual of a step against the main estimator as it stands.
    pub open spec fn residual<A>(&self, t: Transition<S, A, N>) -> N {
        td_residual(
            t.reward,
            self.gamma,
            F::value_spec(self.fa_theta@, self.prior_state),
            F::value_spec(self.fa_theta@, t.to),
            t.terminal,
        )
    }

    /// Learns from one step taken from the current state.
    pub fn handle_transition<A>(&mut self, t: &Transition<S, A, N>)
        requires
            old(self).wf(),
            F::in_domain(old(self).fa_theta@, t.to),
            !t.terminal ==> F::in_domain(old(self).fa_w@, t.to),
        ensures
            final(self).fa_w@ == F::with_weights(
                old(self).fa_w@,
                F::grad_spec(old(self).fa_theta@, old(self).prior_state).axpy(
                    F::weights_spec(old(self).fa_w@),
                    old(self).beta.mul_spec(
                        old(self).residual(*t).sub_spec(
                            F::value_spec(old(self).fa_w@, old(self).prior_state),
                        ),
                    ),
                ),
            ),
            final(self).fa_theta@ == F::with_weights(
                old(self).fa_theta@,
                corrected_direction(
                    old(self).residual(*t),
                    F::value_spec(old(self).fa_w@, old(self).prior_state),
                    old(self).gamma,
                    F::grad_spec(old(self).fa_theta@, old(self).prior_state),
                    F::grad_spec(old(self).fa_theta@, t.to),
                ).axpy(F::weights_spec(old(self).fa_theta@), old(self).alpha),
            ),
            final(self).prior_state == advance(old(self).prior_state, t.to, t.terminal),
            final(self).alpha == old(self).alpha,
            final(self).beta == old(self).beta,
            final(self).gamma == old(self).gamma,
            final(self).wf(),
    {
        let w_s = self.fa_w.evaluate(&self.prior_state);
        let theta_s = self.fa_theta.evaluate(&self.prior_state);
        let td_error = if t.terminated() {
            t.reward.sub(theta_s)
        } else {
            t.reward.add(self.gamma.mul(self.fa_theta.evaluate(&t.to))).sub(theta_s)
        };
        let grad = self.fa_theta.grad(&self.prior_state);
        let next_grad = self.fa_theta.grad(&t.to);
        let gamma = self.gamma;
        let correct = |x: N, y: N| -> (r: N)
            ensures
                r == corrected_component(td_error, w_s, gamma, x, y),
            { td_error.mul(x).sub(w_s.mul(x.sub(gamma.mul(y)))) };
        let direction = grad.combine(&next_grad, correct);
        let w_factor = self.beta.mul(td_error.sub(w_s));
        proof {
            assert(direction@->Dense_0 =~= corrected_direction(
                td_error,
                w_s,
                gamma,
                grad@,
                next_grad@,
            )->Dense_0);
            let next = advance(self.prior_state, t.to, t.terminal);
            lemma_axpy_len(grad@, F::weights_spec(self.fa_w@), w_factor);
            F::lemma_with_weights(
                self.fa_w@,
                grad@.axpy(F::weights_spec(self.fa_w@), w_factor),
            );
            F::lemma_with_weights(
                self.fa_theta@,
                direction@.axpy(F::weights_spec(self.fa_theta@), self.alpha),
            );
            F::lemma_weights_domain(
                self.fa_w@,
                grad@.axpy(F::weights_spec(self.fa_w@), w_factor),
                next,
            );
            lemma_axpy_len(direction@, F::weights_spec(self.fa_theta@), self.alpha);
            F::lemma_weights_domain(
                self.fa_theta@,
                direction@.axpy(F::weights_spec(self.fa_theta@), self.alpha),
                next,
            );
        }
        self.fa_w.update_grad_scaled(&grad, w_factor);
        self.fa_theta.update_grad_scaled(&direction, self.alpha);
        if !t.terminated() {
            self.prior_state = t.to;
        }
    }

    /// The estimated value of a state.
    pub fn predict_v(&self, s: &S) -> (r: N)
        requires
            F::in_domain(self.fa_theta@, *s),
        ensures
            r == F::value_spec(self.fa_theta@, *s),
    {
        self.fa_theta.evaluate(s)
    }
}

} // verus!
