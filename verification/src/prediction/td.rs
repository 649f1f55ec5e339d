//! One-step temporal-difference learning of state values.
use crate::learner::OnlineLearner;
use crate::domains::Transition;
use crate::fa::StateFunction;
use crate::prediction::ValuePredictor;
use crate::scalar::Scalar;
use vstd::prelude::*;

verus! {

/// The temporal-difference residual of an estimate: `reward - estimate`
/// for a step that ends the episode, `reward + gamma * bootstrap - estimate`
/// for any other.
pub open spec fn td_residual<N: Scalar>(
    reward: N,
    gamma: N,
    estimate: N,
    bootstrap: N,
    terminal: bool,
) -> N {
    if terminal {
        reward.sub_spec(estimate)
    } else {
        reward.add_spec(gamma.mul_spec(bootstrap)).sub_spec(estimate)
    }
}

/// The state that a learner tracks after a step: the state reached, unless
/// the step ended the episode.
pub open spec fn advance<S>(current: S, to: S, terminal: bool) -> S {
    if terminal {
        current
    } else {
        to
    }
}

/// The state that a learner tracks after the first `k` steps of a batch.
pub open spec fn walk_state<S, A, N>(start: S, batch: Seq<Transition<S, A, N>>, k: nat) -> S
    decreases k,
{
    if k == 0 || k > batch.len() {
        start
    } else {
        advance(walk_state(start, batch, (k - 1) as nat), batch[k - 1].to, batch[k - 1].terminal)
    }
}

/// The state that a learner tracks before each step of a batch and after
/// the last: entry `k` is the state after the first `k` steps.
pub fn walk_states<S: Copy, A, N>(start: S, batch: &[Transition<S, A, N>]) -> (states: Vec<S>)
    ensures
        states@.len() == batch@.len() + 1,
        forall|k: int|
            0 <= k <= batch@.len() ==> #[trigger] states@[k] == walk_state(start, batch@, k as nat),
{
    let mut states: Vec<S> = Vec::new();
    let mut current = start;
    states.push(current);
    let mut k: usize = 0;
    while k < batch.len()
        invariant
            k <= batch@.len(),
            states@.len() == k + 1,
            current == walk_state(start, batch@, k as nat),
            forall|i: int| 0 <= i <= k ==> #[trigger] states@[i] == walk_state(start, batch@, i as nat),
        decreases batch@.len() - k,
    {
        if !batch[k].terminated() {
            current = batch[k].to;
        }
        states.push(current);
        k += 1;
    }
    states
}

/// A value after `n` steps that each end the episode with the reward `r`
/// and each move the value by `alpha` times what it lacks:
/// `v + alpha * (r - v)`, `n` times over.
pub open spec fn td_value<N: Scalar>(v: N, alpha: N, r: N, n: nat) -> N
    decreases n,
{
    if n == 0 {
        v
    } else {
        let p = td_value(v, alpha, r, (n - 1) as nat);
        p.add_spec(alpha.mul_spec(r.sub_spec(p)))
    }
}

/// A gap multiplied `n` times by `1 - alpha`.
pub open spec fn shrunk_gap<N: Scalar>(gap: N, alpha: N, n: nat) -> N
    decreases n,
{
    if n == 0 {
        gap
    } else {
        N::one_spec().sub_spec(alpha).mul_spec(shrunk_gap(gap, alpha, (n - 1) as nat))
    }
}

/// The arithmetic of one step is exact at the value `v`:
/// `r - (v + alpha * (r - v))` is `(1 - alpha) * (r - v)`.
pub open spec fn exact_at<N: Scalar>(v: N, alpha: N, r: N) -> bool {
    r.sub_spec(v.add_spec(alpha.mul_spec(r.sub_spec(v)))) == N::one_spec().sub_spec(
        alpha,
    ).mul_spec(r.sub_spec(v))
}

/// Over `n` steps that end the episode with the reward `r`, what the value
/// lacks of `r` shrinks by `1 - alpha` at each step, wherever the
/// arithmetic of the steps is exact: `r - v_n == (1 - alpha)^n * (r - v_0)`.
pub proof fn lemma_td_zero_gap<N: Scalar>(v: N, alpha: N, r: N, n: nat)
    requires
        forall|k: nat| k < n ==> exact_at(#[trigger] td_value(v, alpha, r, k), alpha, r),
    ensures
        r.sub_spec(td_value(v, alpha, r, n)) == shrunk_gap(r.sub_spec(v), alpha, n),
    decreases n,
{
    if n > 0 {
        lemma_td_zero_gap(v, alpha, r, (n - 1) as nat);
        assert(exact_at(td_value(v, alpha, r, (n - 1) as nat), alpha, r));
    }
}

/// TD(0): moves the value of the tracked state by `alpha` times the residual.
pub struct TD<S, V, N> {
    pub v_func: V,
    pub alpha: N,
    pub gamma: N,
    pub prior_state: S,
}

impl<S: Copy, N: Scalar, V: StateFunction<S, N>> TD<S, V, N> {
    /// A learner that starts in `initial_state`.
    pub fn new(v_func: V, alpha: N, gamma: N, initial_state: S) -> (r: Self)
        ensures
            r.v_func == v_func,
            r.alpha == alpha,
            r.gamma == gamma,
            r.prior_state == initial_state,
    {
        TD { v_func, alpha, gamma, prior_state: initial_state }
    }

    /// The estimator can be asked about the tracked state.
    pub open spec fn wf(&self) -> bool {
        V::in_domain(self.v_func@, self.prior_state)
    }

    /// The residual that a step gives against the estimator `model`, read
    /// at the tracked state.
    pub open spec fn residual<A>(model: V::V, gamma: N, current: S, t: Transition<S, A, N>) -> N {
        td_residual(
            t.reward,
            gamma,
            V::value_spec(model, current),
            V::value_spec(model, t.to),
            t.terminal,
        )
    }

    /// The estimator after `n` steps from the state `s` that each end the
    /// episode with the reward `r`.
    pub open spec fn repeated(model: V::V, s: S, alpha: N, r: N, n: nat) -> V::V
        decreases n,
    {
        if n == 0 {
            model
        } else {
            let m = Self::repeated(model, s, alpha, r, (n - 1) as nat);
            V::update_spec(m, s, alpha.mul_spec(r.sub_spec(V::value_spec(m, s))))
        }
    }

    /// An update at `s` adds its error to the value of `s`, as a table does.
    pub open spec fn additive_at(model: V::V, s: S, error: N) -> bool {
        V::value_spec(V::update_spec(model, s, error), s) == V::value_spec(model, s).add_spec(
            error,
        )
    }

    /// One step that ends the episode is one repetition.
    pub proof fn lemma_terminal_step_repeats<A>(pre: Self, post: Self, t: Transition<S, A, N>)
        requires
            t.terminal,
            post.v_func@ == V::update_spec(
                pre.v_func@,
                pre.prior_state,
                pre.alpha.mul_spec(
                    Self::residual(pre.v_func@, pre.gamma, pre.prior_state, t),
                ),
            ),
        ensures
            post.v_func@ == Self::repeated(pre.v_func@, pre.prior_state, pre.alpha, t.reward, 1),
    {
        assert(Self::repeated(pre.v_func@, pre.prior_state, pre.alpha, t.reward, 0)
            == pre.v_func@);
    }

    /// Over `n` steps from `s` that each end the episode with the reward
    /// `r`, the value of `s` lacks `(1 - alpha)^n` times what it lacked at
    /// first, wherever updates at `s` add their error to its value and the
    /// arithmetic of the steps is exact.
    pub proof fn lemma_terminal_steps_converge(model: V::V, s: S, alpha: N, r: N, n: nat)
        requires
            forall|k: nat|
                k < n ==> Self::additive_at(
                    #[trigger] Self::repeated(model, s, alpha, r, k),
                    s,
                    alpha.mul_spec(
                        r.sub_spec(V::value_spec(Self::repeated(model, s, alpha, r, k), s)),
                    ),
                ),
            forall|k: nat|
                k < n ==> exact_at(
                    #[trigger] td_value(V::value_spec(model, s), alpha, r, k),
                    alpha,
                    r,
                ),
        ensures
            V::value_spec(Self::repeated(model, s, alpha, r, n), s) == td_value(
                V::value_spec(model, s),
                alpha,
                r,
                n,
            ),
            r.sub_spec(V::value_spec(Self::repeated(model, s, alpha, r, n), s)) == shrunk_gap(
                r.sub_spec(V::value_spec(model, s)),
                alpha,
                n,
            ),
        decreases n,
    {
        if n > 0 {
            Self::lemma_terminal_steps_converge(model, s, alpha, r, (n - 1) as nat);
            let m = Self::repeated(model, s, alpha, r, (n - 1) as nat);
            assert(Self::additive_at(m, s, alpha.mul_spec(r.sub_spec(V::value_spec(m, s)))));
        }
        lemma_td_zero_gap(V::value_spec(model, s), alpha, r, n);
    }

    /// Learns from one step taken from the tracked state.
    pub fn handle_transition<A>(&mut self, t: &Transition<S, A, N>)
        requires
            old(self).wf(),
            !t.terminal ==> V::in_domain(old(self).v_func@, t.to),
        ensures
            final(self).v_func@ == V::update_spec(
                old(self).v_func@,
                old(self).prior_state,
                old(self).alpha.mul_spec(
                    Self::residual(old(self).v_func@, old(self).gamma, old(self).prior_state, *t),
                ),
            ),
            final(self).prior_state == advance(old(self).prior_state, t.to, t.terminal),
            final(self).alpha == old(self).alpha,
            final(self).gamma == old(self).gamma,
            final(self).wf(),
    {
        let v = self.v_func.evaluate(&self.prior_state);
        let td_error = if t.terminated() {
            t.reward.sub(v)
        } else {
            t.reward.add(self.gamma.mul(self.v_func.evaluate(&t.to))).sub(v)
        };
        proof {
            V::lemma_update_domain(
                self.v_func@,
                self.prior_state,
                self.alpha.mul_spec(td_error),
                advance(self.prior_state, t.to, t.terminal),
            );
        }
        self.v_func.update(&self.prior_state, self.alpha.mul(td_error));
        if !t.terminated() {
            self.prior_state = t.to;
        }
    }

    /// The estimated value of a state.
    pub fn predict_v(&self, s: &S) -> (r: N)
        requires
            V::in_domain(self.v_func@, *s),
        ensures
            r == V::value_spec(self.v_func@, *s),
    {
        self.v_func.evaluate(s)
    }
}

/// Mathematical model of a TD(0) learner.
pub struct TDView<S, M, N> {
    pub v_func: M,
    pub alpha: N,
    pub gamma: N,
    pub prior_state: S,
}

impl<S, V: View, N> View for TD<S, V, N> {
    type V = TDView<S, V::V, N>;

    open spec fn view(&self) -> TDView<S, V::V, N> {
        TDView {
            v_func: self.v_func@,
            alpha: self.alpha,
            gamma: self.gamma,
            prior_state: self.prior_state,
        }
    }
}

impl<S: Copy, A, N: Scalar, V: StateFunction<S, N>> OnlineLearner<S, A, N> for TD<S, V, N> {
    open spec fn ready(model: TDView<S, V::V, N>, t: Transition<S, A, N>) -> bool {
        &&& V::in_domain(model.v_func, model.prior_state)
        &&& !t.terminal ==> V::in_domain(model.v_func, t.to)
    }

    open spec fn steps(
        pre: TDView<S, V::V, N>,
        t: Transition<S, A, N>,
        post: TDView<S, V::V, N>,
    ) -> bool {
        post == TDView {
            v_func: V::update_spec(
                pre.v_func,
                pre.prior_state,
                pre.alpha.mul_spec(Self::residual(pre.v_func, pre.gamma, pre.prior_state, t)),
            ),
            alpha: pre.alpha,
            gamma: pre.gamma,
            prior_state: advance(pre.prior_state, t.to, t.terminal),
        }
    }

    open spec fn ends(pre: TDView<S, V::V, N>, post: TDView<S, V::V, N>) -> bool {
        post == pre
    }

    fn handle_transition(&mut self, t: &Transition<S, A, N>) {
        TD::handle_transition(self, t);
    }

    fn handle_terminal(&mut self) {
    }
}

impl<S: Copy, N: Scalar, V: StateFunction<S, N>> ValuePredictor<S, N> for TD<S, V, N> {
    open spec fn covers_state(model: TDView<S, V::V, N>, s: S) -> bool {
        V::in_domain(model.v_func, s)
    }

    open spec fn v_spec(model: TDView<S, V::V, N>, s: S) -> N {
        V::value_spec(model.v_func, s)
    }

    fn predict_v(&self, s: &S) -> (r: N) {
        TD::predict_v(self, s)
    }
}

} // verus!
