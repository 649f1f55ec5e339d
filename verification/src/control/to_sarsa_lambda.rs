//! True-online SARSA(lambda) over the features of a linear estimator.
use crate::domains::Transition;
use crate::control::expected_sarsa::{expectation, expected_value};
use crate::fa::{action_values, covers, EnumerableStateActionFunction, LinearStateActionFunction};
use crate::features::{dot_dense, Features, FeaturesView};
use crate::linalg::dot;
use crate::policies::{policy_probabilities, EnumerablePolicy, Policy};
use crate::prediction::td::{advance, td_residual};
use crate::scalar::Scalar;
use crate::traces::{scaled, updated, zeros, Trace};
use rand::rngs::ThreadRng;
use vstd::prelude::*;

verus! {

/// What the trace takes in at a step: the features `phi`, each times
/// `1 - alpha * decay * (trace . phi)`.
pub open spec fn trace_increment<N: Scalar>(alpha: N, decay: N, trace: Seq<N>, phi: Seq<N>) -> Seq<
    N,
> {
    Seq::new(
        phi.len(),
        |i: int|
            N::one_spec().sub_spec(
                alpha.mul_spec(decay).mul_spec(dot_dense(trace, phi, phi.len())),
            ).mul_spec(phi[i]),
    )
}

/// True-online SARSA(lambda): the trace runs over the features, and the
/// estimator is moved along the trace by the residual against the
/// remembered estimate and along the features by the correction.
pub struct TOSARSALambda<S, F, P, N> {
    pub q_func: F,
    pub policy: P,
    pub alpha: N,
    pub gamma: N,
    pub lambda: N,
    pub trace: Trace<N>,
    pub q_old: N,
    pub prior_state: S,
}

impl<S: Copy, N: Scalar, F: LinearStateActionFunction<S, usize, N>, P: Policy<
    S,
    N,
    Action = usize,
>> TOSARSALambda<S, F, P, N> {
    /// A learner whose remembered estimate `q_old` is zero.
    pub fn new(
        trace: Trace<N>,
        q_func: F,
        policy: P,
        alpha: N,
        gamma: N,
        lambda: N,
        initial_state: S,
    ) -> (r: Self)
        ensures
            r.trace == trace,
            r.q_func == q_func,
            r.policy == policy,
            r.alpha == alpha,
            r.gamma == gamma,
            r.lambda == lambda,
            r.q_old == N::zero_spec(),
            r.prior_state == initial_state,
    {
        TOSARSALambda {
            q_func,
            policy,
            alpha,
            gamma,
            lambda,
            trace,
            q_old: N::zero(),
            prior_state: initial_state,
        }
    }

    /// The features of the current state for an action, written out in full.
    pub open spec fn phi(&self, action: usize) -> Seq<N> {
        F::features_spec(self.q_func@, self.prior_state, action).expanded()
    }

    /// The trace once it has been decayed by `lambda * gamma` and has taken
    /// the increment of the step in.
    pub open spec fn next_trace(&self, action: usize) -> Seq<N> {
        let decay = self.lambda.mul_spec(self.gamma);
        updated(
            self.trace.kind(),
            scaled(self.trace.values(), decay),
            FeaturesView::Dense(
                trace_increment(self.alpha, decay, self.trace.values(), self.phi(action)),
            ),
        )
    }

    /// Decays the trace by `decay_rate` and takes the increment for the
    /// features `phi` in.
    pub fn update_traces(&mut self, phi: Vec<N>, decay_rate: N)
        requires
            old(self).trace.values().len() >= phi@.len(),
        ensures
            final(self).trace.values() == updated(
                old(self).trace.kind(),
                scaled(old(self).trace.values(), decay_rate),
                FeaturesView::Dense(
                    trace_increment(old(self).alpha, decay_rate, old(self).trace.values(), phi@),
                ),
            ),
            final(self).trace.kind() == old(self).trace.kind(),
            final(self).q_func == old(self).q_func,
            final(self).policy == old(self).policy,
            final(self).alpha == old(self).alpha,
            final(self).gamma == old(self).gamma,
            final(self).lambda == old(self).lambda,
            final(self).q_old == old(self).q_old,
            final(self).prior_state == old(self).prior_state,
    {
        let current = self.trace.deref().expanded();
        assert(current@ =~= self.trace.values());
        let factor = N::one().sub(self.alpha.mul(decay_rate).mul(dot(&current, &phi)));
        let mut increment: Vec<N> = Vec::new();
        let mut i: usize = 0;
        while i < phi.len()
            invariant
                i <= phi@.len(),
                increment@.len() == i,
                forall|k: int| 0 <= k < i ==> increment@[k] == factor.mul_spec(phi@[k]),
            decreases phi@.len() - i,
        {
            increment.push(factor.mul(phi[i]));
            i += 1;
        }
        assert(increment@ =~= trace_increment(
            self.alpha,
            decay_rate,
            self.trace.values(),
            phi@,
        ));
        self.trace.scale(decay_rate);
        self.trace.update(&Features::Dense(increment));
    }

    /// The residual of a step, measured against the remembered estimate,
    /// with `next_action` drawn for the state reached.
    pub open spec fn residual(&self, t: Transition<S, usize, N>, next_action: usize) -> N {
        td_residual(
            t.reward,
            self.gamma,
            self.q_old,
            F::value_spec(self.q_func@, t.to, next_action),
            t.terminal,
        )
    }

    /// The estimator after a step: moved along the new trace by `alpha`
    /// times the residual and then along the features by `alpha` times the
    /// remembered estimate less the current one.
    pub open spec fn next_model(&self, t: Transition<S, usize, N>, next_action: usize) -> F::V {
        let features = F::features_spec(self.q_func@, self.prior_state, t.action);
        F::update_features_spec(
            F::update_features_spec(
                self.q_func@,
                FeaturesView::Dense(self.next_trace(t.action)),
                t.action,
                self.alpha.mul_spec(self.residual(t, next_action)),
            ),
            features,
            t.action,
            self.alpha.mul_spec(
                self.q_old.sub_spec(F::evaluate_features_spec(self.q_func@, features, t.action)),
            ),
        )
    }

    /// What one step makes of a learner, given the action drawn for the
    /// state reached.
    pub open spec fn stepped(
        pre: Self,
        post: Self,
        t: Transition<S, usize, N>,
        next_action: usize,
    ) -> bool {
        &&& post.q_func@ == pre.next_model(t, next_action)
        &&& post.trace.values() == if t.terminal {
            zeros::<N>(pre.next_trace(t.action).len())
        } else {
            pre.next_trace(t.action)
        }
        &&& post.trace.kind() == pre.trace.kind()
        &&& post.q_old == if t.terminal {
            N::zero_spec()
        } else {
            F::value_spec(pre.q_func@, t.to, next_action)
        }
        &&& post.prior_state == advance(pre.prior_state, t.to, t.terminal)
        &&& post.policy == pre.policy
        &&& post.alpha == pre.alpha
        &&& post.gamma == pre.gamma
        &&& post.lambda == pre.lambda
    }

    /// What one step makes of a learner where `next_action` is an action
    /// that the behaviour policy may have drawn for the state reached.
    pub open spec fn stepped_on_draw(
        pre: Self,
        post: Self,
        t: Transition<S, usize, N>,
        next_action: usize,
    ) -> bool {
        &&& t.terminal || pre.policy.supports(t.to, next_action)
        &&& Self::stepped(pre, post, t, next_action)
    }

    /// The trace covers the features, and the estimator can be asked about
    /// the action of the step in the current state.
    pub open spec fn ready(&self, action: usize) -> bool {
        &&& F::in_domain(self.q_func@, self.prior_state, action)
        &&& self.trace.values().len() >= F::n_features_spec(self.q_func@)
    }

    /// Learns from one step taken from the current state, with
    /// `next_action` as the action drawn for the state reached.
    pub fn handle_transition_with(&mut self, t: &Transition<S, usize, N>, next_action: usize)
        requires
            old(self).ready(t.action),
            !t.terminal ==> F::in_domain(old(self).q_func@, t.to, next_action),
        ensures
            Self::stepped(*old(self), *final(self), *t, next_action),
    {
        let phi_s = self.q_func.features(&self.prior_state, &t.action);
        let decay_rate = self.lambda.mul(self.gamma);
        self.update_traces(phi_s.expanded(), decay_rate);
        let qsa = self.q_func.evaluate_features(&phi_s, &t.action);
        let q_old = self.q_old;
        let residual = if t.terminated() {
            self.q_old = N::zero();
            t.reward.sub(q_old)
        } else {
            let nqsna = self.q_func.evaluate(&t.to, &next_action);
            self.q_old = nqsna;
            t.reward.add(self.gamma.mul(nqsna)).sub(q_old)
        };
        self.q_func.update_features(self.trace.deref(), &t.action, self.alpha.mul(residual));
        self.q_func.update_features(&phi_s, &t.action, self.alpha.mul(q_old.sub(qsa)));
        if t.terminated() {
            self.trace.reset();
        } else {
            self.prior_state = t.to;
        }
    }

    /// Learns from one step taken from the current state. Where the step
    /// goes on, the behaviour policy draws the action for the state reached.
    pub fn handle_transition(&mut self, t: &Transition<S, usize, N>)
        requires
            old(self).ready(t.action),
            !t.terminal ==> forall|a: usize|
                old(self).policy.supports(t.to, a) ==> F::in_domain(old(self).q_func@, t.to, a),
        ensures
            exists|next_action: usize|
                Self::stepped_on_draw(*old(self), *final(self), *t, next_action),
    {
        if t.terminated() {
            self.handle_transition_with(t, t.action);
            assert(Self::stepped_on_draw(*old(self), *self, *t, t.action));
        } else {
            let mut rng = rand::thread_rng();
            let na = self.sample_behaviour(&mut rng, &t.to);
            self.handle_transition_with(t, na);
            assert(Self::stepped_on_draw(*old(self), *self, *t, na));
        }
    }

    /// An action drawn from the policy, which is both target and behaviour.
    pub fn sample_target(&self, rng: &mut ThreadRng, s: &S) -> (a: usize)
        ensures
            self.policy.supports(*s, a),
    {
        self.policy.sample(rng, s)
    }

    /// An action drawn from the policy.
    pub fn sample_behaviour(&self, rng: &mut ThreadRng, s: &S) -> (a: usize)
        ensures
            self.policy.supports(*s, a),
    {
        self.policy.sample(rng, s)
    }

    /// The estimated value of an action in a state.
    pub fn predict_qsa(&self, s: &S, a: usize) -> (r: N)
        requires
            F::in_domain(self.q_func@, *s, a),
        ensures
            r == F::value_spec(self.q_func@, *s, a),
    {
        self.q_func.evaluate(s, &a)
    }

    /// The weights of the estimator.
    pub fn weights(&self) -> (w: &Vec<N>)
        ensures
            w@ == F::weights_spec(self.q_func@),
    {
        self.q_func.weights_view()
    }
}

impl<S: Copy, N: Scalar, F: LinearStateActionFunction<S, usize, N> + EnumerableStateActionFunction<
    S,
    N,
>, P: EnumerablePolicy<S, N>> TOSARSALambda<S, F, P, N> {
    /// The estimated value of every action in a state.
    pub fn predict_qs(&self, s: &S) -> (r: Vec<N>)
        requires
            covers::<S, N, F>(self.q_func@, *s),
        ensures
            r@ == action_values::<S, N, F>(self.q_func@, *s),
    {
        let qs = self.q_func.evaluate_all(s);
        assert(qs@ =~= action_values::<S, N, F>(self.q_func@, *s));
        qs
    }

    /// The value of a state: the expectation of its action values under the policy.
    pub fn predict_v(&self, s: &S) -> (r: N)
        requires
            covers::<S, N, F>(self.q_func@, *s),
        ensures
            r == expectation(
                action_values::<S, N, F>(self.q_func@, *s),
                policy_probabilities::<S, N, P>(self.policy, *s),
            ),
    {
        let qs = self.predict_qs(s);
        let ps = self.policy.probabilities(s);
        assert(ps@ =~= policy_probabilities::<S, N, P>(self.policy, *s));
        expected_value(&qs, &ps)
    }
}

} // verus!
