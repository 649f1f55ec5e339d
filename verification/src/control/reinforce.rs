//! Monte-Carlo policy gradient from one finished trajectory.
use crate::domains::Transition;
use crate::fa::StateActionFunction;
use crate::policies::DifferentiablePolicy;
use crate::prediction::gradient_mc::{origin, scan_return};
use crate::prediction::td::{walk_state, walk_states};
use crate::scalar::Scalar;
use rand::rngs::ThreadRng;
use vstd::prelude::*;

verus! {

/// REINFORCE: scans a trajectory from its end and moves the policy, for
/// the state that each step left and the action it took, by `alpha` times
/// the return gathered from that step on, divided by the length of the
/// trajectory.
pub struct REINFORCE<S, P, N> {
    pub policy: P,
    pub alpha: N,
    pub gamma: N,
    pub prior_state: S,
}

impl<S: Copy, N: Scalar, P: DifferentiablePolicy<S, N>> REINFORCE<S, P, N> {
    /// A learner that starts in `initial_state`.
    pub fn new(policy: P, alpha: N, gamma: N, initial_state: S) -> (r: Self)
        ensures
            r.policy == policy,
            r.alpha == alpha,
            r.gamma == gamma,
            r.prior_state == initial_state,
    {
        REINFORCE { policy, alpha, gamma, prior_state: initial_state }
    }

    /// The policy once the scan has passed the last `j` steps: each step
    /// applies the error `alpha * G / n` for the state that it left and the
    /// action taken, with `n` the length of the trajectory.
    pub open spec fn scan_policy(
        model: P::V,
        start: S,
        alpha: N,
        gamma: N,
        batch: Seq<Transition<S, P::Action, N>>,
        j: nat,
    ) -> P::V
        decreases j,
    {
        if j == 0 || j > batch.len() {
            model
        } else {
            P::update_spec(
                Self::scan_policy(model, start, alpha, gamma, batch, (j - 1) as nat),
                origin(start, batch, j),
                batch[batch.len() - j].action,
                alpha.mul_spec(scan_return(batch, gamma, j)).div_spec(
                    N::from_count_spec(batch.len() as usize),
                ),
            )
        }
    }

    /// Learns from one finished trajectory.
    pub fn handle_batch(&mut self, batch: &[Transition<S, P::Action, N>])
        ensures
            final(self).policy@ == Self::scan_policy(
                old(self).policy@,
                old(self).prior_state,
                old(self).alpha,
                old(self).gamma,
                batch@,
                batch@.len(),
            ),
            final(self).prior_state == walk_state(old(self).prior_state, batch@, batch@.len()),
            final(self).alpha == old(self).alpha,
            final(self).gamma == old(self).gamma,
    {
        let n = batch.len();
        let states = walk_states(self.prior_state, batch);
        let z = N::from_count(n);
        let mut ret = N::zero();
        let mut j: usize = 0;
        while j < n
            invariant
                j <= n,
                n == batch@.len(),
                states@.len() == n + 1,
                forall|k: int|
                    0 <= k <= n ==> #[trigger] states@[k] == walk_state(
                        old(self).prior_state,
                        batch@,
                        k as nat,
                    ),
                z == N::from_count_spec(n),
                ret == scan_return(batch@, self.gamma, j as nat),
                self.policy@ == Self::scan_policy(
                    old(self).policy@,
                    old(self).prior_state,
                    old(self).alpha,
                    old(self).gamma,
                    batch@,
                    j as nat,
                ),
                self.prior_state == old(self).prior_state,
                self.alpha == old(self).alpha,
                self.gamma == old(self).gamma,
            decreases n - j,
        {
            let t = &batch[n - 1 - j];
            let s = states[n - 1 - j];
            ret = t.reward.add(self.gamma.mul(ret));
            self.policy.update(&s, &t.action, self.alpha.mul(ret).div(z));
            j += 1;
        }
        self.prior_state = states[n];
    }

    /// An action drawn from the policy, which is both target and behaviour.
    pub fn sample_target(&self, rng: &mut ThreadRng, s: &S) -> (a: P::Action)
        ensures
            self.policy.supports(*s, a),
    {
        self.policy.sample(rng, s)
    }

    /// An action drawn from the policy.
    pub fn sample_behaviour(&self, rng: &mut ThreadRng, s: &S) -> (a: P::Action)
        ensures
            self.policy.supports(*s, a),
    {
        self.policy.sample(rng, s)
    }
}

/// REINFORCE with a baseline: the error of each step is `alpha` times the
/// return gathered from that step on, less the baseline's value of the
/// action taken in the state that the step left. The baseline is only read.
pub struct BaselineREINFORCE<S, B, P, N> {
    pub policy: P,
    pub baseline: B,
    pub alpha: N,
    pub gamma: N,
    pub prior_state: S,
}

impl<S: Copy, N: Scalar, P: DifferentiablePolicy<S, N>, B: StateActionFunction<
    S,
    P::Action,
    N,
>> BaselineREINFORCE<S, B, P, N> {
    /// A learner that starts in `initial_state`.
    pub fn new(policy: P, baseline: B, alpha: N, gamma: N, initial_state: S) -> (r: Self)
        ensures
            r.policy == policy,
            r.baseline == baseline,
            r.alpha == alpha,
            r.gamma == gamma,
            r.prior_state == initial_state,
    {
        BaselineREINFORCE { policy, baseline, alpha, gamma, prior_state: initial_state }
    }

    /// The baseline can be asked about the action of each step in the state
    /// that the step left.
    pub open spec fn baseline_covers(
        baseline: B::V,
        start: S,
        batch: Seq<Transition<S, P::Action, N>>,
    ) -> bool {
        forall|k: int|
            0 <= k < batch.len() ==> B::in_domain(
                baseline,
                walk_state(start, batch, k as nat),
                (#[trigger] batch[k]).action,
            )
    }

    /// The policy once the scan has passed the last `j` steps: each step
    /// applies the error `alpha * (G - B(s, a))` for the state `s` that it
    /// left and the action `a` taken.
    pub open spec fn scan_policy(
        model: P::V,
        baseline: B::V,
        start: S,
        alpha: N,
        gamma: N,
        batch: Seq<Transition<S, P::Action, N>>,
        j: nat,
    ) -> P::V
        decreases j,
    {
        if j == 0 || j > batch.len() {
            model
        } else {
            let s = origin(start, batch, j);
            P::update_spec(
                Self::scan_policy(model, baseline, start, alpha, gamma, batch, (j - 1) as nat),
                s,
                batch[batch.len() - j].action,
                alpha.mul_spec(
                    scan_return(batch, gamma, j).sub_spec(
                        B::value_spec(baseline, s, batch[batch.len() - j].action),
                    ),
                ),
            )
        }
    }

    /// Learns from one finished trajectory.
    pub fn handle_batch(&mut self, batch: &[Transition<S, P::Action, N>])
        requires
            Self::baseline_covers(old(self).baseline@, old(self).prior_state, batch@),
        ensures
            final(self).policy@ == Self::scan_policy(
                old(self).policy@,
                old(self).baseline@,
                old(self).prior_state,
                old(self).alpha,
                old(self).gamma,
                batch@,
                batch@.len(),
            ),
            final(self).prior_state == walk_state(old(self).prior_state, batch@, batch@.len()),
            final(self).baseline == old(self).baseline,
            final(self).alpha == old(self).alpha,
            final(self).gamma == old(self).gamma,
    {
        let n = batch.len();
        let states = walk_states(self.prior_state, batch);
        let mut ret = N::zero();
        let mut j: usize = 0;
        while j < n
            invariant
                j <= n,
                n == batch@.len(),
                states@.len() == n + 1,
                forall|k: int|
                    0 <= k <= n ==> #[trigger] states@[k] == walk_state(
                        old(self).prior_state,
                        batch@,
                        k as nat,
                    ),
                Self::baseline_covers(old(self).baseline@, old(self).prior_state, batch@),
                ret == scan_return(batch@, self.gamma, j as nat),
                self.policy@ == Self::scan_policy(
                    old(self).policy@,
                    old(self).baseline@,
                    old(self).prior_state,
                    old(self).alpha,
                    old(self).gamma,
                    batch@,
                    j as nat,
                ),
                self.prior_state == old(self).prior_state,
                self.baseline == old(self).baseline,
                self.alpha == old(self).alpha,
                self.gamma == old(self).gamma,
            decreases n - j,
        {
            let t = &batch[n - 1 - j];
            let s = states[n - 1 - j];
            assert(B::in_domain(self.baseline@, s, batch@[n - 1 - j].action));
            let baseline = self.baseline.evaluate(&s, &t.action);
            ret = t.reward.add(self.gamma.mul(ret));
            self.policy.update(&s, &t.action, self.alpha.mul(ret.sub(baseline)));
            j += 1;
        }
        self.prior_state = states[n];
    }

    /// An action drawn from the policy, which is both target and behaviour.
    pub fn sample_target(&self, rng: &mut ThreadRng, s: &S) -> (a: P::Action)
        ensures
            self.policy.supports(*s, a),
    {
        self.policy.sample(rng, s)
    }

    /// An action drawn from the policy.
    pub fn sample_behaviour(&self, rng: &mut ThreadRng, s: &S) -> (a: P::Action)
        ensures
            self.policy.supports(*s, a),
    {
        self.policy.sample(rng, s)
    }
}

} // verus!
