//! True-online Q(lambda): a dutch trace and a correction along the raw gradient.
use crate::domains::Transition;
use crate::fa::{covers, greedy_action, EnumerableDifferentiableFunction};
use crate::features::{dot_features, lemma_axpy_len, FeaturesView};
use crate::memory::{make_shared, Shared};
use crate::policies::Policy;
use crate::prediction::td::{advance, td_residual};
use crate::scalar::Scalar;
use crate::traces::{zeros, Trace};
use rand::rngs::ThreadRng;
use vstd::prelude::*;

verus! {

/// One component of the dutch trace: `c * x + (1 - alpha * c * dotted) * y`
/// for the trace's component `x` and the gradient's component `y`.
pub open spec fn dutch_component<N: Scalar>(alpha: N, c: N, dotted: N, x: N, y: N) -> N {
    c.mul_spec(x).add_spec(N::one_spec().sub_spec(alpha.mul_spec(c).mul_spec(dotted)).mul_spec(y))
}

/// True-online Q(lambda).
pub struct TOQLambda<S, F, P, N> {
    pub fa_theta: F,
    pub policy: P,
    pub alpha: N,
    pub gamma: N,
    pub lambda: N,
    pub trace: Trace<N>,
    pub q_old: N,
    pub prior_state: S,
}

impl<S: Copy, N: Scalar, F: EnumerableDifferentiableFunction<S, N>, P> TOQLambda<
    S,
    Shared<F>,
    P,
    N,
> {
    /// A learner that holds its estimator behind a handle and whose
    /// remembered estimate `q_old` is zero.
    pub fn new(
        fa_theta: F,
        policy: P,
        trace: Trace<N>,
        alpha: N,
        gamma: N,
        lambda: N,
        initial_state: S,
    ) -> (r: Self)
        ensures
            r.fa_theta.get() == fa_theta,
            r.policy == policy,
            r.trace == trace,
            r.alpha == alpha,
            r.gamma == gamma,
            r.lambda == lambda,
            r.q_old == N::zero_spec(),
            r.prior_state == initial_state,
    {
        TOQLambda {
            fa_theta: make_shared(fa_theta),
            policy,
            alpha,
            gamma,
            lambda,
            trace,
            q_old: N::zero(),
            prior_state: initial_state,
        }
    }
}

impl<S: Copy, N: Scalar, F: EnumerableDifferentiableFunction<S, N>, P> TOQLambda<S, F, P, N> {
    /// The estimator has an action and can be asked about every action in
    /// the current state.
    pub open spec fn wf(&self) -> bool {
        &&& F::n_actions_spec(self.fa_theta@) > 0
        &&& covers::<S, N, F>(self.fa_theta@, self.prior_state)
    }

    /// The trace after a step has taken the gradient of `action` in: the
    /// dutch recurrence where the action is the greedy one of the current
    /// state, with `c = lambda * gamma` and the inner product of gradient
    /// and trace; else the gradient itself.
    pub open spec fn next_trace(&self, action: usize) -> Seq<N> {
        let grad = F::grad_spec(self.fa_theta@, self.prior_state, action);
        let old_trace = self.trace.values();
        if action == greedy_action::<S, N, F>(self.fa_theta@, self.prior_state) {
            Seq::new(
                old_trace.len(),
                |i: int|
                    dutch_component(
                        self.alpha,
                        self.lambda.mul_spec(self.gamma),
                        grad.dot(self.trace.deref_spec()),
                        old_trace[i],
                        grad.at(i),
                    ),
            )
        } else {
            Seq::new(old_trace.len(), |i: int| grad.at(i))
        }
    }

    /// The value at which the step bootstraps: that of the greedy action
    /// in the state reached.
    pub open spec fn bootstrap(&self, to: S) -> N {
        F::value_spec(self.fa_theta@, to, greedy_action::<S, N, F>(self.fa_theta@, to))
    }

    /// The residual of a step, measured against the remembered estimate.
    pub open spec fn residual(&self, t: Transition<S, usize, N>) -> N {
        td_residual(t.reward, self.gamma, self.q_old, self.bootstrap(t.to), t.terminal)
    }

    /// The estimator after a step: moved along the new trace by `alpha`
    /// times the residual, and then along the gradient by `alpha` times
    /// the remembered estimate less the current one.
    pub open spec fn next_model(&self, t: Transition<S, usize, N>) -> F::V {
        let along_trace = F::with_weights(
            self.fa_theta@,
            FeaturesView::Dense(self.next_trace(t.action)).axpy(
                F::weights_spec(self.fa_theta@),
                self.alpha.mul_spec(self.residual(t)),
            ),
        );
        F::with_weights(
            along_trace,
            F::grad_spec(self.fa_theta@, self.prior_state, t.action).axpy(
                F::weights_spec(along_trace),
                self.alpha.mul_spec(
                    self.q_old.sub_spec(
                        F::value_spec(self.fa_theta@, self.prior_state, t.action),
                    ),
                ),
            ),
        )
    }

    /// Whether a step leaves the trace at zero: it ends the episode, or the
    /// greedy action of the state left, under the new weights, is not the
    /// greedy action of the state reached.
    pub open spec fn cuts_trace(&self, t: Transition<S, usize, N>) -> bool {
        t.terminal || greedy_action::<S, N, F>(self.next_model(t), self.prior_state)
            != greedy_action::<S, N, F>(self.fa_theta@, t.to)
    }

    /// Learns from one step taken from the current state.
    pub fn handle_transition(&mut self, t: &Transition<S, usize, N>)
        requires
            old(self).wf(),
            t.action < F::n_actions_spec(old(self).fa_theta@),
            !t.terminal ==> covers::<S, N, F>(old(self).fa_theta@, t.to),
        ensures
            final(self).fa_theta@ == old(self).next_model(*t),
            final(self).trace.values() == if old(self).cuts_trace(*t) {
                zeros::<N>(old(self).trace.values().len())
            } else {
                old(self).next_trace(t.action)
            },
            final(self).trace.kind() == old(self).trace.kind(),
            final(self).q_old == if t.terminal {
                N::zero_spec()
            } else {
                old(self).bootstrap(t.to)
            },
            final(self).prior_state == advance(old(self).prior_state, t.to, t.terminal),
            final(self).policy == old(self).policy,
            final(self).alpha == old(self).alpha,
            final(self).gamma == old(self).gamma,
            final(self).lambda == old(self).lambda,
            final(self).wf(),
    {
        let qsa = self.fa_theta.evaluate(&self.prior_state, &t.action);
        let grad = self.fa_theta.grad(&self.prior_state, &t.action);
        if t.action == self.fa_theta.find_max(&self.prior_state).0 {
            let a = self.alpha;
            let c = self.lambda.mul(self.gamma);
            let dotted = dot_features(&grad, self.trace.deref());
            let dutch = |x: N, y: N| -> (r: N)
                ensures
                    r == dutch_component(a, c, dotted, x, y),
                { c.mul(x).add(N::one().sub(a.mul(c).mul(dotted)).mul(y)) };
            self.trace.combine_inplace(&grad, dutch);
        } else {
            let replace = |x: N, y: N| -> (r: N)
                ensures
                    r == y,
                { y };
            self.trace.combine_inplace(&grad, replace);
        }
        assert(self.trace.values() =~= old(self).next_trace(t.action));
        let (residual, next_greedy, next_q) = if t.terminated() {
            (t.reward.sub(self.q_old), 0, N::zero())
        } else {
            let na = self.fa_theta.find_max(&t.to).0;
            let nqsna = self.fa_theta.evaluate(&t.to, &na);
            (t.reward.add(self.gamma.mul(nqsna)).sub(self.q_old), na, nqsna)
        };
        let along_trace = self.alpha.mul(residual);
        let along_grad = self.alpha.mul(self.q_old.sub(qsa));
        proof {
            let m0 = self.fa_theta@;
            let w1 = self.trace.deref_spec().axpy(F::weights_spec(m0), along_trace);
            lemma_axpy_len(self.trace.deref_spec(), F::weights_spec(m0), along_trace);
            F::lemma_with_weights(m0, w1);
            F::lemma_weights_actions(m0, w1);
            let m1 = F::with_weights(m0, w1);
            let w2 = grad@.axpy(F::weights_spec(m1), along_grad);
            lemma_axpy_len(grad@, F::weights_spec(m1), along_grad);
            F::lemma_weights_actions(m1, w2);
            let m2 = F::with_weights(m1, w2);
            assert forall|s: S, b: usize| F::in_domain(m2, s, b) == F::in_domain(m0, s, b) by {
                F::lemma_weights_domain(m0, w1, s, b);
                F::lemma_weights_domain(m1, w2, s, b);
            }
        }
        self.fa_theta.update_grad_scaled(self.trace.deref(), along_trace);
        self.fa_theta.update_grad_scaled(&grad, along_grad);
        self.q_old = next_q;
        if t.terminated() {
            self.trace.reset();
        } else {
            if self.fa_theta.find_max(&self.prior_state).0 != next_greedy {
                self.trace.reset();
            }
            self.prior_state = t.to;
        }
    }

    /// Ends the episode: the remembered estimate goes back to zero.
    pub fn handle_terminal(&mut self)
        ensures
            final(self).q_old == N::zero_spec(),
            final(self).fa_theta == old(self).fa_theta,
            final(self).trace == old(self).trace,
            final(self).policy == old(self).policy,
            final(self).alpha == old(self).alpha,
            final(self).gamma == old(self).gamma,
            final(self).lambda == old(self).lambda,
            final(self).prior_state == old(self).prior_state,
    {
        self.q_old = N::zero();
    }

    /// The greedy action in a state.
    pub fn sample_target(&self, s: &S) -> (a: usize)
        requires
            F::n_actions_spec(self.fa_theta@) > 0,
            covers::<S, N, F>(self.fa_theta@, *s),
        ensures
            a == greedy_action::<S, N, F>(self.fa_theta@, *s),
            a < F::n_actions_spec(self.fa_theta@),
    {
        self.fa_theta.find_max(s).0
    }

    /// The value of a state: that of its greedy action.
    pub fn predict_v(&self, s: &S) -> (r: N)
        requires
            F::n_actions_spec(self.fa_theta@) > 0,
            covers::<S, N, F>(self.fa_theta@, *s),
        ensures
            r == F::value_spec(self.fa_theta@, *s, greedy_action::<S, N, F>(self.fa_theta@, *s)),
    {
        let a = self.sample_target(s);
        self.fa_theta.evaluate(s, &a)
    }

    /// The estimated value of an action in a state.
    pub fn predict_q(&self, s: &S, a: &usize) -> (r: N)
        requires
            F::in_domain(self.fa_theta@, *s, *a),
        ensures
            r == F::value_spec(self.fa_theta@, *s, *a),
    {
        self.fa_theta.evaluate(s, a)
    }
}

impl<S: Copy, N: Scalar, F: EnumerableDifferentiableFunction<S, N>, P: Policy<
    S,
    N,
    Action = usize,
>> TOQLambda<S, F, P, N> {
    /// An action drawn from the behaviour policy.
    pub fn sample_behaviour(&self, rng: &mut ThreadRng, s: &S) -> (a: usize)
        ensures
            self.policy.supports(*s, a),
    {
        self.policy.sample(rng, s)
    }
}

} // verus!
