//! Monte-Carlo learning of state values from one finished trajectory.
use crate::domains::Transition;
use crate::fa::StateFunction;
use crate::prediction::td::{walk_state, walk_states};
use crate::scalar::Scalar;
use vstd::prelude::*;

verus! {

/// The discounted return gathered over the last `j` steps of a
/// trajectory, scanned from its end: `G = reward + gamma * G`, from zero.
pub open spec fn scan_return<S, A, N: Scalar>(
    batch: Seq<Transition<S, A, N>>,
    gamma: N,
    j: nat,
) -> N
    decreases j,
{
    if j == 0 || j > batch.len() {
        N::zero_spec()
    } else {
        batch[batch.len() - j].reward.add_spec(
            gamma.mul_spec(scan_return(batch, gamma, (j - 1) as nat)),
        )
    }
}

/// The state from which the step scanned as number `j` from the end was
/// taken: the state that a learner tracks after the steps before it.
pub open spec fn origin<S, A, N>(start: S, batch: Seq<Transition<S, A, N>>, j: nat) -> S {
    walk_state(start, batch, (batch.len() - j) as nat)
}

/// Gradient Monte-Carlo: scans a trajectory from its end and moves the value
/// of the state that each step left by the return gathered from that step
/// on, less that value.
pub struct GradientMC<S, V, N> {
    pub v_func: V,
    pub alpha: N,
    pub gamma: N,
    pub prior_state: S,
}

impl<S: Copy, N: Scalar, V: StateFunction<S, N>> GradientMC<S, V, N> {
    /// A learner that starts in `initial_state`.
    pub fn new(v_func: V, alpha: N, gamma: N, initial_state: S) -> (r: Self)
        ensures
            r.v_func == v_func,
            r.alpha == alpha,
            r.gamma == gamma,
            r.prior_state == initial_state,
    {
        GradientMC { v_func, alpha, gamma, prior_state: initial_state }
    }

    /// The estimator can be asked about the current state.
    pub open spec fn wf(&self) -> bool {
        V::in_domain(self.v_func@, self.prior_state)
    }

    /// The estimator once the scan has passed the last `j` steps: each step
    /// applies the error `G - V(s)` at the state `s` that it left.
    pub open spec fn scan_model<A>(
        model: V::V,
        start: S,
        gamma: N,
        batch: Seq<Transition<S, A, N>>,
        j: nat,
    ) -> V::V
        decreases j,
    {
        if j == 0 || j > batch.len() {
            model
        } else {
            let before = Self::scan_model(model, start, gamma, batch, (j - 1) as nat);
            let s = origin(start, batch, j);
            V::update_spec(
                before,
                s,
                scan_return(batch, gamma, j).sub_spec(V::value_spec(before, s)),
            )
        }
    }

    /// Every state that the batch passes through can be asked about.
    proof fn lemma_walk_in_domain<A>(model: V::V, start: S, batch: Seq<Transition<S, A, N>>, k: nat)
        requires
            V::in_domain(model, start),
            forall|i: int|
                0 <= i < batch.len() && !(#[trigger] batch[i]).terminal ==> V::in_domain(
                    model,
                    batch[i].to,
                ),
            k <= batch.len(),
        ensures
            V::in_domain(model, walk_state(start, batch, k)),
        decreases k,
    {
        if k > 0 {
            Self::lemma_walk_in_domain(model, start, batch, (k - 1) as nat);
        }
    }

    /// Learns from one finished trajectory that starts in the current
    /// state. The current state is then the one that the trajectory ends in.
    pub fn handle_batch<A>(&mut self, batch: &[Transition<S, A, N>])
        requires
            old(self).wf(),
            forall|i: int|
                0 <= i < batch@.len() && !(#[trigger] batch@[i]).terminal ==> V::in_domain(
                    old(self).v_func@,
                    batch@[i].to,
                ),
        ensures
            final(self).v_func@ == Self::scan_model(
                old(self).v_func@,
                old(self).prior_state,
                old(self).gamma,
                batch@,
                batch@.len(),
            ),
            final(self).prior_state == walk_state(old(self).prior_state, batch@, batch@.len()),
            final(self).alpha == old(self).alpha,
            final(self).gamma == old(self).gamma,
            final(self).wf(),
    {
        let n = batch.len();
        let states = walk_states(self.prior_state, batch);
        let ghost start = self.prior_state;
        let ghost model = self.v_func@;
        let mut sum = N::zero();
        let mut j: usize = 0;
        while j < n
            invariant
                j <= n,
                n == batch@.len(),
                states@.len() == n + 1,
                forall|k: int|
                    0 <= k <= n ==> #[trigger] states@[k] == walk_state(start, batch@, k as nat),
                start == old(self).prior_state,
                model == old(self).v_func@,
                V::in_domain(model, start),
                forall|i: int|
                    0 <= i < batch@.len() && !(#[trigger] batch@[i]).terminal ==> V::in_domain(
                        model,
                        batch@[i].to,
                    ),
                forall|s: S| V::in_domain(self.v_func@, s) == V::in_domain(model, s),
                sum == scan_return(batch@, self.gamma, j as nat),
                self.v_func@ == Self::scan_model(model, start, old(self).gamma, batch@, j as nat),
                self.prior_state == old(self).prior_state,
                self.alpha == old(self).alpha,
                self.gamma == old(self).gamma,
            decreases n - j,
        {
            let t = &batch[n - 1 - j];
            let s = states[n - 1 - j];
            sum = t.reward.add(self.gamma.mul(sum));
            proof {
                Self::lemma_walk_in_domain(model, start, batch@, (n - 1 - j) as nat);
            }
            let v = self.v_func.evaluate(&s);
            let error = sum.sub(v);
            proof {
                assert forall|other: S|
                    V::in_domain(V::update_spec(self.v_func@, s, error), other) == V::in_domain(
                        model,
                        other,
                    ) by {
                    V::lemma_update_domain(self.v_func@, s, error, other);
                }
            }
            self.v_func.update(&s, error);
            j += 1;
        }
        proof {
            Self::lemma_walk_in_domain(model, start, batch@, n as nat);
        }
        self.prior_state = states[n];
    }

    /// The estimated value of a state.
    pub fn predict_v(&self, s: &S) -> (r: N)
        requires
            V::in_domain(self.v_func@, *s),
        ensures
            r == V::value_spec(self.v_func@, *s),
    {
        self.v_func.evaluate(s)
    }
}

} // verus!
