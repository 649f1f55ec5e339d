//! Persistent advantage learning: Q-learning with a widened action gap.
use crate::domains::Transition;
use crate::learner::OnlineLearner;
use crate::fa::{action_values, covers, greedy_action, EnumerableStateActionFunction};
use crate::memory::{make_shared, Shared};
use crate::policies::Policy;
use crate::prediction::td::advance;
use crate::prediction::{ActionValuePredictor, ValuePredictor};
use crate::scalar::{max, max_spec, Scalar};
use rand::rngs::ThreadRng;
use vstd::prelude::*;

verus! {

/// The residual of persistent advantage learning for a step that goes on,
/// from the action values `qs` of the state left and `nqs` of the state
/// reached, with `a_star` and `na_star` greedy in the two:
/// `td = reward + gamma * nqs[na_star] - qs[action]`,
/// `al = td - alpha * (qs[a_star] - qs[action])`, and the residual is the
/// larger of `al` and `td - alpha * (nqs[na_star] - nqs[action])`.
pub open spec fn pal_residual<N: Scalar>(
    reward: N,
    alpha: N,
    gamma: N,
    qs: Seq<N>,
    nqs: Seq<N>,
    action: int,
    a_star: int,
    na_star: int,
) -> N {
    let td = reward.add_spec(gamma.mul_spec(nqs[na_star])).sub_spec(qs[action]);
    let al = td.sub_spec(alpha.mul_spec(qs[a_star].sub_spec(qs[action])));
    max_spec(al, td.sub_spec(alpha.mul_spec(nqs[na_star].sub_spec(nqs[action]))))
}

/// PAL: learns action values against the greedy policy of its own estimator.
pub struct PAL<S, Q, P, N> {
    pub q_func: Q,
    pub policy: P,
    pub alpha: N,
    pub gamma: N,
    pub prior_state: S,
}

impl<S: Copy, N: Scalar, Q: EnumerableStateActionFunction<S, N>, P> PAL<S, Shared<Q>, P, N> {
    /// A learner that holds its estimator behind a handle, for the learner
    /// itself and for the greedy policy that it derives from it.
    pub fn new(q_func: Q, policy: P, alpha: N, gamma: N, initial_state: S) -> (r: Self)
        ensures
            r.q_func.get() == q_func,
            r.policy == policy,
            r.alpha == alpha,
            r.gamma == gamma,
            r.prior_state == initial_state,
    {
        PAL { q_func: make_shared(q_func), policy, alpha, gamma, prior_state: initial_state }
    }
}

impl<S: Copy, N: Scalar, Q: EnumerableStateActionFunction<S, N>, P> PAL<S, Q, P, N> {
    /// The estimator has an action and can be asked about every action in
    /// the current state.
    pub open spec fn wf(&self) -> bool {
        &&& Q::n_actions_spec(self.q_func@) > 0
        &&& covers::<S, N, Q>(self.q_func@, self.prior_state)
    }

    /// The residual of a step against the estimator as it stands.
    pub open spec fn residual(&self, t: Transition<S, usize, N>) -> N {
        if t.terminal {
            t.reward.sub_spec(Q::value_spec(self.q_func@, self.prior_state, t.action))
        } else {
            pal_residual(
                t.reward,
                self.alpha,
                self.gamma,
                action_values::<S, N, Q>(self.q_func@, self.prior_state),
                action_values::<S, N, Q>(self.q_func@, t.to),
                t.action as int,
                greedy_action::<S, N, Q>(self.q_func@, self.prior_state) as int,
                greedy_action::<S, N, Q>(self.q_func@, t.to) as int,
            )
        }
    }

    /// Learns from one step taken from the current state.
    pub fn handle_transition(&mut self, t: &Transition<S, usize, N>)
        requires
            old(self).wf(),
            t.action < Q::n_actions_spec(old(self).q_func@),
            !t.terminal ==> covers::<S, N, Q>(old(self).q_func@, t.to),
        ensures
            final(self).q_func@ == Q::update_spec(
                old(self).q_func@,
                old(self).prior_state,
                t.action,
                old(self).alpha.mul_spec(old(self).residual(*t)),
            ),
            final(self).prior_state == advance(old(self).prior_state, t.to, t.terminal),
            final(self).policy == old(self).policy,
            final(self).alpha == old(self).alpha,
            final(self).gamma == old(self).gamma,
            final(self).wf(),
    {
        let residual = if t.terminated() {
            t.reward.sub(self.q_func.evaluate(&self.prior_state, &t.action))
        } else {
            let qs = self.q_func.evaluate_all(&self.prior_state);
            let nqs = self.q_func.evaluate_all(&t.to);
            let a_star = self.sample_target(&self.prior_state);
            let na_star = self.sample_target(&t.to);
            assert(qs@ =~= action_values::<S, N, Q>(self.q_func@, self.prior_state));
            assert(nqs@ =~= action_values::<S, N, Q>(self.q_func@, t.to));
            let td_error = t.reward.add(self.gamma.mul(nqs[na_star])).sub(qs[t.action]);
            let al_error = td_error.sub(self.alpha.mul(qs[a_star].sub(qs[t.action])));
            max(al_error, td_error.sub(self.alpha.mul(nqs[na_star].sub(nqs[t.action]))))
        };
        let error = self.alpha.mul(residual);
        proof {
            Q::lemma_update_actions(self.q_func@, self.prior_state, t.action, error);
            let next = advance(self.prior_state, t.to, t.terminal);
            assert forall|a: usize| a < Q::n_actions_spec(self.q_func@) implies Q::in_domain(
                Q::update_spec(self.q_func@, self.prior_state, t.action, error),
                next,
                a,
            ) by {
                Q::lemma_update_domain(self.q_func@, self.prior_state, t.action, error, next, a);
            }
        }
        self.q_func.update_by_error(&self.prior_state, &t.action, error);
        if !t.terminated() {
            self.prior_state = t.to;
        }
    }

    /// The greedy action in a state.
    pub fn sample_target(&self, s: &S) -> (a: usize)
        requires
            Q::n_actions_spec(self.q_func@) > 0,
            covers::<S, N, Q>(self.q_func@, *s),
        ensures
            a == greedy_action::<S, N, Q>(self.q_func@, *s),
            a < Q::n_actions_spec(self.q_func@),
    {
        self.q_func.find_max(s).0
    }

    /// The value of a state: that of its greedy action.
    pub fn predict_v(&self, s: &S) -> (r: N)
        requires
            Q::n_actions_spec(self.q_func@) > 0,
            covers::<S, N, Q>(self.q_func@, *s),
        ensures
            r == Q::value_spec(self.q_func@, *s, greedy_action::<S, N, Q>(self.q_func@, *s)),
    {
        let a = self.sample_target(s);
        self.q_func.evaluate(s, &a)
    }

    /// The estimated value of an action in a state.
    pub fn predict_q(&self, s: &S, a: &usize) -> (r: N)
        requires
            Q::in_domain(self.q_func@, *s, *a),
        ensures
            r == Q::value_spec(self.q_func@, *s, *a),
    {
        self.q_func.evaluate(s, a)
    }
}

impl<S: Copy, N: Scalar, Q: EnumerableStateActionFunction<S, N>, P: Policy<
    S,
    N,
    Action = usize,
>> PAL<S, Q, P, N> {
    /// An action drawn from the behaviour policy.
    pub fn sample_behaviour(&self, rng: &mut ThreadRng, s: &S) -> (a: usize)
        ensures
            self.policy.supports(*s, a),
    {
        self.policy.sample(rng, s)
    }
}

/// Mathematical model of a PAL learner: its estimator, its rates and
/// the state that it tracks.
pub struct PALView<S, M, N> {
    pub q_func: M,
    pub alpha: N,
    pub gamma: N,
    pub prior_state: S,
}

impl<S, Q: View, P, N> View for PAL<S, Q, P, N> {
    type V = PALView<S, Q::V, N>;

    open spec fn view(&self) -> PALView<S, Q::V, N> {
        PALView {
            q_func: self.q_func@,
            alpha: self.alpha,
            gamma: self.gamma,
            prior_state: self.prior_state,
        }
    }
}

impl<S: Copy, N: Scalar, Q: EnumerableStateActionFunction<S, N>, P> OnlineLearner<
    S,
    usize,
    N,
> for PAL<S, Q, P, N> {
    open spec fn ready(model: PALView<S, Q::V, N>, t: Transition<S, usize, N>) -> bool {
        &&& Q::n_actions_spec(model.q_func) > 0
        &&& covers::<S, N, Q>(model.q_func, model.prior_state)
        &&& t.action < Q::n_actions_spec(model.q_func)
        &&& !t.terminal ==> covers::<S, N, Q>(model.q_func, t.to)
    }

    open spec fn steps(
        pre: PALView<S, Q::V, N>,
        t: Transition<S, usize, N>,
        post: PALView<S, Q::V, N>,
    ) -> bool {
        post == PALView {
            q_func: Q::update_spec(
                pre.q_func,
                pre.prior_state,
                t.action,
                pre.alpha.mul_spec(
                    if t.terminal {
                        t.reward.sub_spec(Q::value_spec(pre.q_func, pre.prior_state, t.action))
                    } else {
                        pal_residual(
                            t.reward,
                            pre.alpha,
                            pre.gamma,
                            action_values::<S, N, Q>(pre.q_func, pre.prior_state),
                            action_values::<S, N, Q>(pre.q_func, t.to),
                            t.action as int,
                            greedy_action::<S, N, Q>(pre.q_func, pre.prior_state) as int,
                            greedy_action::<S, N, Q>(pre.q_func, t.to) as int,
                        )
                    },
                ),
            ),
            alpha: pre.alpha,
            gamma: pre.gamma,
            prior_state: advance(pre.prior_state, t.to, t.terminal),
        }
    }

    open spec fn ends(pre: PALView<S, Q::V, N>, post: PALView<S, Q::V, N>) -> bool {
        post == pre
    }

    fn handle_transition(&mut self, t: &Transition<S, usize, N>) {
        PAL::handle_transition(self, t);
    }

    fn handle_terminal(&mut self) {
    }
}

impl<S: Copy, N: Scalar, Q: EnumerableStateActionFunction<S, N>, P> ActionValuePredictor<
    S,
    usize,
    N,
> for PAL<S, Q, P, N> {
    open spec fn covers_action(model: PALView<S, Q::V, N>, s: S, a: usize) -> bool {
        Q::in_domain(model.q_func, s, a)
    }

    open spec fn q_spec(model: PALView<S, Q::V, N>, s: S, a: usize) -> N {
        Q::value_spec(model.q_func, s, a)
    }

    fn predict_q(&self, s: &S, a: &usize) -> (r: N) {
        PAL::predict_q(self, s, a)
    }
}

impl<S: Copy, N: Scalar, Q: EnumerableStateActionFunction<S, N>, P> ValuePredictor<
    S,
    N,
> for PAL<S, Q, P, N> {
    open spec fn covers_state(model: PALView<S, Q::V, N>, s: S) -> bool {
        Q::n_actions_spec(model.q_func) > 0 && covers::<S, N, Q>(model.q_func, s)
    }

    open spec fn v_spec(model: PALView<S, Q::V, N>, s: S) -> N {
        Q::value_spec(model.q_func, s, greedy_action::<S, N, Q>(model.q_func, s))
    }

    fn predict_v(&self, s: &S) -> (r: N) {
        PAL::predict_v(self, s)
    }
}

} // verus!
