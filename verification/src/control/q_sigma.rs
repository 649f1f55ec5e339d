//! Multi-step action-value learning that blends sampling and expectation.
use crate::control::expected_sarsa::{expectation, expected_value};
use crate::domains::Transition;
use crate::fa::{action_values, covers, greedy_action, EnumerableStateActionFunction};
use crate::memory::{make_shared, Shared};
use crate::policies::{greedy_probabilities, greedy_probabilities_spec, Policy};
use crate::prediction::td::{advance, td_residual};
use crate::scalar::{lemma_fixed_identities, Fixed, Scalar};
use rand::rngs::ThreadRng;
use std::collections::VecDeque;
use vstd::prelude::*;

verus! {

/// What the window keeps of one step: the state and action to be
/// updated, the estimate `q` it had, its one-step residual, the blend
/// `sigma`, and the probabilities `pi` and `mu` that the target and the
/// behaviour policy gave to the action drawn next.
pub struct BackupEntry<S, N> {
    pub s: S,
    pub a: usize,
    pub q: N,
    pub residual: N,
    pub sigma: N,
    pub pi: N,
    pub mu: N,
}

/// A window of the last steps, oldest first, of at most `n_steps` entries.
pub struct Backup<S, N> {
    n_steps: usize,
    entries: VecDeque<BackupEntry<S, N>>,
}

/// The weight `z` that the residual of entry `k` has in the return: the
/// product over the entries `1..=k` of `gamma * ((1 - sigma) * pi + sigma)`.
pub open spec fn return_weight<S, N: Scalar>(
    entries: Seq<BackupEntry<S, N>>,
    gamma: N,
    k: nat,
) -> N
    decreases k,
{
    if k == 0 || k >= entries.len() {
        N::one_spec()
    } else {
        return_weight(entries, gamma, (k - 1) as nat).mul_spec(
            gamma.mul_spec(
                N::one_spec().sub_spec(entries[k as int].sigma).mul_spec(
                    entries[k as int].pi,
                ).add_spec(entries[k as int].sigma),
            ),
        )
    }
}

/// The return propagated over the first `k` entries: the estimate of the
/// oldest entry plus each residual times its weight.
pub open spec fn propagated_return<S, N: Scalar>(
    entries: Seq<BackupEntry<S, N>>,
    gamma: N,
    k: nat,
) -> N
    decreases k,
{
    if k == 0 || k > entries.len() {
        entries[0].q
    } else {
        propagated_return(entries, gamma, (k - 1) as nat).add_spec(
            return_weight(entries, gamma, (k - 1) as nat).mul_spec(entries[k - 1].residual),
        )
    }
}

/// The importance-sampling ratio over the first `k` entries: the product
/// of `1 - sigma + sigma * pi / mu`.
pub open spec fn sampling_ratio<S, N: Scalar>(entries: Seq<BackupEntry<S, N>>, k: nat) -> N
    decreases k,
{
    if k == 0 || k > entries.len() {
        N::one_spec()
    } else {
        sampling_ratio(entries, (k - 1) as nat).mul_spec(
            N::one_spec().sub_spec(entries[k - 1].sigma).add_spec(
                entries[k - 1].sigma.mul_spec(entries[k - 1].pi).div_spec(entries[k - 1].mu),
            ),
        )
    }
}

impl<S, N> Backup<S, N> {
    /// The entries of the window, oldest first.
    pub closed spec fn entries(&self) -> Seq<BackupEntry<S, N>> {
        self.entries@
    }

    /// The number of entries at which the window is full.
    pub closed spec fn capacity(&self) -> usize {
        self.n_steps
    }

    /// The capacity is not zero and the window holds no more entries than that.
    pub open spec fn wf(&self) -> bool {
        0 < self.capacity() && self.entries().len() <= self.capacity()
    }
}

impl<S, N: Scalar> Backup<S, N> {
    /// An empty window that is full at `n_steps` entries.
    pub fn new(n_steps: usize) -> (r: Backup<S, N>)
        requires
            n_steps > 0,
        ensures
            r.entries().len() == 0,
            r.capacity() == n_steps,
            r.wf(),
    {
        Backup { n_steps, entries: VecDeque::new() }
    }

    /// Number of entries in the window.
    pub fn len(&self) -> (r: usize)
        ensures
            r == self.entries().len(),
    {
        self.entries.len()
    }

    /// The number of entries at which the window is full.
    pub fn n_steps(&self) -> (r: usize)
        ensures
            r == self.capacity(),
    {
        self.n_steps
    }

    /// Takes the oldest entry out.
    pub fn pop(&mut self) -> (r: Option<BackupEntry<S, N>>)
        ensures
            final(self).capacity() == old(self).capacity(),
            old(self).entries().len() == 0 ==> r is None && final(self).entries() == old(
                self,
            ).entries(),
            old(self).entries().len() > 0 ==> r == Some(old(self).entries()[0])
                && final(self).entries() == old(self).entries().skip(1),
    {
        let r = self.entries.pop_front();
        proof {
            if old(self).entries().len() > 0 {
                assert(self.entries@ =~= old(self).entries().skip(1));
            }
        }
        r
    }

    /// Puts an entry in as the newest, where the window is not full.
    pub fn push(&mut self, entry: BackupEntry<S, N>)
        requires
            old(self).entries().len() < old(self).capacity(),
        ensures
            final(self).capacity() == old(self).capacity(),
            final(self).entries() == old(self).entries().push(entry),
    {
        self.entries.push_back(entry);
    }

    /// Drops every entry.
    pub fn clear(&mut self)
        ensures
            final(self).capacity() == old(self).capacity(),
            final(self).entries().len() == 0,
    {
        self.entries.clear();
    }

    /// The importance-sampling ratio and the return of a full window: the
    /// return starts at the estimate of the oldest entry and adds the
    /// residual of every entry but the newest, each times its weight; the
    /// ratio is the product over the same entries.
    pub fn propagate(&self, gamma: N) -> (r: (N, N))
        requires
            self.wf(),
            self.entries().len() == self.capacity(),
        ensures
            r.0 == sampling_ratio(self.entries(), (self.capacity() - 1) as nat),
            r.1 == propagated_return(self.entries(), gamma, (self.capacity() - 1) as nat),
    {
        let mut g = self.entries[0].q;
        let mut z = N::one();
        let mut isr = N::one();
        let mut k: usize = 0;
        while k < self.n_steps - 1
            invariant
                0 < self.n_steps,
                self.entries@.len() == self.n_steps,
                k <= self.n_steps - 1,
                g == propagated_return(self.entries@, gamma, k as nat),
                z == return_weight(self.entries@, gamma, k as nat),
                isr == sampling_ratio(self.entries@, k as nat),
            decreases self.n_steps - 1 - k,
        {
            let b1 = &self.entries[k];
            let b2 = &self.entries[k + 1];
            g = g.add(z.mul(b1.residual));
            z = z.mul(gamma.mul(N::one().sub(b2.sigma).mul(b2.pi).add(b2.sigma)));
            isr = isr.mul(N::one().sub(b1.sigma).add(b1.sigma.mul(b1.pi).div(b1.mu)));
            k += 1;
        }
        (isr, g)
    }
}

/// The blend of a sampled value and an expected one:
/// `sigma * sampled + (1 - sigma) * expected`.
pub open spec fn blend<N: Scalar>(sigma: N, sampled: N, expected: N) -> N {
    sigma.mul_spec(sampled).add_spec(N::one_spec().sub_spec(sigma).mul_spec(expected))
}

/// The blend of a sampled value and an expected one.
pub fn blended<N: Scalar>(sigma: N, sampled: N, expected: N) -> (r: N)
    ensures
        r == blend(sigma, sampled, expected),
{
    sigma.mul(sampled).add(N::one().sub(sigma).mul(expected))
}

/// With `sigma` at one the blend is the sampled value, as in SARSA,
/// wherever one and zero behave on these values as they do in exact
/// arithmetic.
pub proof fn lemma_blend_at_one<N: Scalar>(sampled: N, expected: N)
    requires
        N::one_spec().mul_spec(sampled) == sampled,
        N::one_spec().sub_spec(N::one_spec()) == N::zero_spec(),
        N::zero_spec().mul_spec(expected) == N::zero_spec(),
        sampled.add_spec(N::zero_spec()) == sampled,
    ensures
        blend(N::one_spec(), sampled, expected) == sampled,
{
}

/// With `sigma` at zero the blend is the expected value, as in Expected
/// SARSA, wherever one and zero behave on these values as they do in exact
/// arithmetic.
pub proof fn lemma_blend_at_zero<N: Scalar>(sampled: N, expected: N)
    requires
        N::zero_spec().mul_spec(sampled) == N::zero_spec(),
        N::one_spec().sub_spec(N::zero_spec()) == N::one_spec(),
        N::one_spec().mul_spec(expected) == expected,
        N::zero_spec().add_spec(expected) == expected,
    ensures
        blend(N::zero_spec(), sampled, expected) == expected,
{
}

/// In fixed-point arithmetic the blend at one is the sampled value and
/// the blend at zero is the expected value, whatever the two are.
pub proof fn lemma_fixed_blend(sampled: Fixed, expected: Fixed)
    ensures
        blend(Fixed::one_spec(), sampled, expected) == sampled,
        blend(Fixed::zero_spec(), sampled, expected) == expected,
{
    lemma_fixed_identities(sampled);
    lemma_fixed_identities(expected);
    lemma_blend_at_one(sampled, expected);
    lemma_blend_at_zero(sampled, expected);
}

/// In fixed-point arithmetic, with `sigma` at one the residual that a
/// step which goes on puts into the window is the SARSA residual, and with
/// `sigma` at zero it is the Expected SARSA residual under the greedy
/// target policy, whatever the values and whatever action was drawn.
pub proof fn lemma_fixed_residuals<S: Copy, Q: EnumerableStateActionFunction<S, Fixed>, P: Policy<
    S,
    Fixed,
    Action = usize,
>>(learner: QSigma<S, Q, P, Fixed>, t: Transition<S, usize, Fixed>, next_action: usize)
    requires
        !t.terminal,
    ensures
        learner.sigma == Fixed::one_spec() ==> learner.entry(t, next_action).residual
            == td_residual(
            t.reward,
            learner.gamma,
            Q::value_spec(learner.q_func@, learner.prior_state, t.action),
            action_values::<S, Fixed, Q>(learner.q_func@, t.to)[next_action as int],
            false,
        ),
        learner.sigma == Fixed::zero_spec() ==> learner.entry(t, next_action).residual
            == td_residual(
            t.reward,
            learner.gamma,
            Q::value_spec(learner.q_func@, learner.prior_state, t.action),
            expectation(
                action_values::<S, Fixed, Q>(learner.q_func@, t.to),
                greedy_probabilities_spec(action_values::<S, Fixed, Q>(learner.q_func@, t.to)),
            ),
            false,
        ),
{
    let nqs = action_values::<S, Fixed, Q>(learner.q_func@, t.to);
    lemma_fixed_blend(nqs[next_action as int], expectation(nqs, greedy_probabilities_spec(nqs)));
}

/// Q(sigma): every step enters a window of `n_steps` entries; once the
/// window is full, its oldest entry is updated toward the return
/// propagated over the window, scaled by `alpha` times the
/// importance-sampling ratio.
pub struct QSigma<S, Q, P, N> {
    pub q_func: Q,
    pub policy: P,
    pub alpha: N,
    pub gamma: N,
    pub sigma: N,
    pub backup: Backup<S, N>,
    pub prior_state: S,
}

/// The estimator once a window has been backed up: where the window has
/// reached `capacity`, the oldest entry's state and action have been moved
/// toward the propagated return; else nothing has changed.
pub open spec fn backed_up_model<S, N: Scalar, Q: EnumerableStateActionFunction<S, N>>(
    model: Q::V,
    alpha: N,
    gamma: N,
    window: Seq<BackupEntry<S, N>>,
    capacity: usize,
) -> Q::V {
    if window.len() >= capacity && capacity > 0 {
        Q::update_spec(
            model,
            window[0].s,
            window[0].a,
            alpha.mul_spec(sampling_ratio(window, (capacity - 1) as nat)).mul_spec(
                propagated_return(window, gamma, (capacity - 1) as nat).sub_spec(
                    Q::value_spec(model, window[0].s, window[0].a),
                ),
            ),
        )
    } else {
        model
    }
}

/// The window once it has been backed up: without its oldest entry where
/// it had reached `capacity`.
pub open spec fn backed_up_window<S, N>(window: Seq<BackupEntry<S, N>>, capacity: usize) -> Seq<
    BackupEntry<S, N>,
> {
    if window.len() >= capacity && capacity > 0 {
        window.skip(1)
    } else {
        window
    }
}

impl<S: Copy, N: Scalar, Q: EnumerableStateActionFunction<S, N>, P: Policy<
    S,
    N,
    Action = usize,
>> QSigma<S, Shared<Q>, P, N> {
    /// A learner with an empty window of `n_steps` entries, which holds its
    /// estimator behind a handle.
    pub fn new(
        q_func: Q,
        policy: P,
        alpha: N,
        gamma: N,
        sigma: N,
        n_steps: usize,
        initial_state: S,
    ) -> (r: Self)
        requires
            n_steps > 0,
        ensures
            r.q_func.get() == q_func,
            r.policy == policy,
            r.alpha == alpha,
            r.gamma == gamma,
            r.sigma == sigma,
            r.prior_state == initial_state,
            r.backup.entries().len() == 0,
            r.backup.capacity() == n_steps,
    {
        QSigma {
            q_func: make_shared(q_func),
            policy,
            alpha,
            gamma,
            sigma,
            backup: Backup::new(n_steps),
            prior_state: initial_state,
        }
    }
}

impl<S: Copy, N: Scalar, Q: EnumerableStateActionFunction<S, N>, P: Policy<
    S,
    N,
    Action = usize,
>> QSigma<S, Q, P, N> {
    /// The window is not full, the estimator can be asked about every entry
    /// in it and about every action in the current state, and it has an action.
    pub open spec fn wf(&self) -> bool {
        &&& Q::n_actions_spec(self.q_func@) > 0
        &&& covers::<S, N, Q>(self.q_func@, self.prior_state)
        &&& self.backup.wf()
        &&& self.backup.entries().len() < self.backup.capacity()
        &&& forall|i: int|
            0 <= i < self.backup.entries().len() ==> Q::in_domain(
                self.q_func@,
                (#[trigger] self.backup.entries()[i]).s,
                self.backup.entries()[i].a,
            )
    }

    /// The blended value of the state reached: `sigma` times the value of
    /// the action drawn plus `1 - sigma` times the expectation under the
    /// greedy policy.
    pub open spec fn blended_value(&self, to: S, next_action: usize) -> N {
        let nqs = action_values::<S, N, Q>(self.q_func@, to);
        blend(self.sigma, nqs[next_action as int], expectation(nqs, greedy_probabilities_spec(nqs)))
    }

    /// The entry that a step puts into the window, with `next_action`
    /// drawn for the state reached.
    pub open spec fn entry(&self, t: Transition<S, usize, N>, next_action: usize) -> BackupEntry<
        S,
        N,
    > {
        let qa = Q::value_spec(self.q_func@, self.prior_state, t.action);
        if t.terminal {
            BackupEntry {
                s: self.prior_state,
                a: t.action,
                q: qa,
                residual: t.reward.sub_spec(qa),
                sigma: self.sigma,
                pi: N::zero_spec(),
                mu: N::one_spec(),
            }
        } else {
            BackupEntry {
                s: self.prior_state,
                a: t.action,
                q: qa,
                residual: t.reward.add_spec(
                    self.gamma.mul_spec(self.blended_value(t.to, next_action)),
                ).sub_spec(qa),
                sigma: self.sigma,
                pi: greedy_probabilities_spec(
                    action_values::<S, N, Q>(self.q_func@, t.to),
                )[next_action as int],
                mu: self.policy.probability_spec(t.to, next_action),
            }
        }
    }

    /// With `sigma` at one, the residual that a step which goes on puts into
    /// the window is the SARSA residual: it bootstraps at the value of the
    /// action drawn. It holds wherever one and zero behave on the two
    /// values as they do in exact arithmetic.
    pub proof fn lemma_sigma_one_is_sarsa(&self, t: Transition<S, usize, N>, next_action: usize)
        requires
            self.sigma == N::one_spec(),
            !t.terminal,
            ({
                let nqs = action_values::<S, N, Q>(self.q_func@, t.to);
                let expected = expectation(nqs, greedy_probabilities_spec(nqs));
                &&& N::one_spec().mul_spec(nqs[next_action as int]) == nqs[next_action as int]
                &&& N::one_spec().sub_spec(N::one_spec()) == N::zero_spec()
                &&& N::zero_spec().mul_spec(expected) == N::zero_spec()
                &&& nqs[next_action as int].add_spec(N::zero_spec()) == nqs[next_action as int]
            }),
        ensures
            self.entry(t, next_action).residual == td_residual(
                t.reward,
                self.gamma,
                Q::value_spec(self.q_func@, self.prior_state, t.action),
                action_values::<S, N, Q>(self.q_func@, t.to)[next_action as int],
                false,
            ),
    {
    }

    /// With `sigma` at zero, the residual that a step which goes on puts
    /// into the window is the Expected SARSA residual under the greedy
    /// target policy: it bootstraps at the expectation of the action values.
    /// It holds wherever one and zero behave on the two values as they do
    /// in exact arithmetic.
    pub proof fn lemma_sigma_zero_is_expected_sarsa(
        &self,
        t: Transition<S, usize, N>,
        next_action: usize,
    )
        requires
            self.sigma == N::zero_spec(),
            !t.terminal,
            ({
                let nqs = action_values::<S, N, Q>(self.q_func@, t.to);
                let expected = expectation(nqs, greedy_probabilities_spec(nqs));
                &&& N::zero_spec().mul_spec(nqs[next_action as int]) == N::zero_spec()
                &&& N::one_spec().sub_spec(N::zero_spec()) == N::one_spec()
                &&& N::one_spec().mul_spec(expected) == expected
                &&& N::zero_spec().add_spec(expected) == expected
            }),
        ensures
            self.entry(t, next_action).residual == td_residual(
                t.reward,
                self.gamma,
                Q::value_spec(self.q_func@, self.prior_state, t.action),
                expectation(
                    action_values::<S, N, Q>(self.q_func@, t.to),
                    greedy_probabilities_spec(action_values::<S, N, Q>(self.q_func@, t.to)),
                ),
                false,
            ),
    {
    }

    /// Puts an entry into the window and, where that fills it, propagates
    /// the window's return to its oldest entry and takes that entry out.
    pub fn update_backup(&mut self, entry: BackupEntry<S, N>)
        requires
            old(self).wf(),
            Q::in_domain(old(self).q_func@, entry.s, entry.a),
        ensures
            final(self).q_func@ == backed_up_model::<S, N, Q>(
                old(self).q_func@,
                old(self).alpha,
                old(self).gamma,
                old(self).backup.entries().push(entry),
                old(self).backup.capacity(),
            ),
            final(self).backup.entries() == backed_up_window(
                old(self).backup.entries().push(entry),
                old(self).backup.capacity(),
            ),
            final(self).backup.capacity() == old(self).backup.capacity(),
            final(self).policy == old(self).policy,
            final(self).alpha == old(self).alpha,
            final(self).gamma == old(self).gamma,
            final(self).sigma == old(self).sigma,
            final(self).prior_state == old(self).prior_state,
            final(self).backup.entries().len() < final(self).backup.capacity(),
            Q::n_actions_spec(final(self).q_func@) == Q::n_actions_spec(old(self).q_func@),
            forall|s: S, a: usize|
                Q::in_domain(final(self).q_func@, s, a) == Q::in_domain(old(self).q_func@, s, a),
    {
        self.backup.push(entry);
        let ghost window = self.backup.entries();
        if self.backup.len() >= self.backup.n_steps() {
            let (isr, g) = self.backup.propagate(self.gamma);
            match self.backup.pop() {
                Some(anchor) => {
                    assert(anchor == window[0]);
                    assert(Q::in_domain(self.q_func@, anchor.s, anchor.a)) by {
                        if old(self).backup.entries().len() > 0 {
                            assert(window[0] == old(self).backup.entries()[0]);
                        }
                    }
                    let qsa = self.q_func.evaluate(&anchor.s, &anchor.a);
                    let rate = self.alpha.mul(isr);
                    proof {
                        let error = rate.mul_spec(g.sub_spec(qsa));
                        Q::lemma_update_actions(self.q_func@, anchor.s, anchor.a, error);
                        assert forall|s: S, a: usize|
                            Q::in_domain(
                                Q::update_spec(self.q_func@, anchor.s, anchor.a, error),
                                s,
                                a,
                            ) == Q::in_domain(self.q_func@, s, a) by {
                            Q::lemma_update_domain(self.q_func@, anchor.s, anchor.a, error, s, a);
                        }
                    }
                    self.q_func.update(&anchor.s, &anchor.a, g, qsa, rate);
                },
                None => {},
            }
        }
    }

    /// What one step makes of a learner, given the action drawn for the
    /// state reached. A step that ends the episode empties the window.
    pub open spec fn stepped(
        pre: Self,
        post: Self,
        t: Transition<S, usize, N>,
        next_action: usize,
    ) -> bool {
        let window = pre.backup.entries().push(pre.entry(t, next_action));
        &&& post.q_func@ == backed_up_model::<S, N, Q>(
            pre.q_func@,
            pre.alpha,
            pre.gamma,
            window,
            pre.backup.capacity(),
        )
        &&& post.backup.entries() == if t.terminal {
            Seq::<BackupEntry<S, N>>::empty()
        } else {
            backed_up_window(window, pre.backup.capacity())
        }
        &&& post.backup.capacity() == pre.backup.capacity()
        &&& post.prior_state == advance(pre.prior_state, t.to, t.terminal)
        &&& post.policy == pre.policy
        &&& post.alpha == pre.alpha
        &&& post.gamma == pre.gamma
        &&& post.sigma == pre.sigma
    }

    /// A step into a window that it does not fill changes no estimate, and
    /// a step that ends the episode leaves the window empty: an episode of
    /// fewer steps than the window holds teaches nothing.
    pub proof fn lemma_short_episode_teaches_nothing(
        pre: Self,
        post: Self,
        t: Transition<S, usize, N>,
        next_action: usize,
    )
        requires
            Self::stepped(pre, post, t, next_action),
            pre.backup.entries().len() + 1 < pre.backup.capacity(),
        ensures
            post.q_func@ == pre.q_func@,
            t.terminal ==> post.backup.entries().len() == 0,
            !t.terminal ==> post.backup.entries().len() == pre.backup.entries().len() + 1,
    {
    }

    /// What one step makes of a learner where `next_action` is an action
    /// that the behaviour policy may have drawn for the state reached.
    pub open spec fn stepped_on_draw(
        pre: Self,
        post: Self,
        t: Transition<S, usize, N>,
        next_action: usize,
    ) -> bool {
        &&& t.terminal || pre.policy.supports(t.to, next_action)
        &&& Self::stepped(pre, post, t, next_action)
    }

    /// Learns from one step taken from the current state, with
    /// `next_action` as the action that the behaviour policy drew for the
    /// state reached. While the window holds fewer entries than its
    /// capacity less one, no estimate changes.
    pub fn handle_transition_with(&mut self, t: &Transition<S, usize, N>, next_action: usize)
        requires
            old(self).wf(),
            t.action < Q::n_actions_spec(old(self).q_func@),
            !t.terminal ==> covers::<S, N, Q>(old(self).q_func@, t.to) && next_action
                < Q::n_actions_spec(old(self).q_func@),
        ensures
            Self::stepped(*old(self), *final(self), *t, next_action),
            old(self).backup.entries().len() + 1 < old(self).backup.capacity() ==> final(
                self
            ).q_func@ == old(self).q_func@,
            final(self).wf(),
    {
        let qa = self.q_func.evaluate(&self.prior_state, &t.action);
        if t.terminated() {
            self.update_backup(
                BackupEntry {
                    s: self.prior_state,
                    a: t.action,
                    q: qa,
                    residual: t.reward.sub(qa),
                    sigma: self.sigma,
                    pi: N::zero(),
                    mu: N::one(),
                },
            );
            self.backup.clear();
            assert(self.backup.entries() =~= Seq::<BackupEntry<S, N>>::empty());
        } else {
            let nqs = self.q_func.evaluate_all(&t.to);
            assert(nqs@ =~= action_values::<S, N, Q>(self.q_func@, t.to));
            let pi = greedy_probabilities(&nqs);
            let mu = self.policy.probability(&t.to, &next_action);
            let exp_nqs = expected_value(&nqs, &pi);
            let residual = t.reward.add(
                self.gamma.mul(blended(self.sigma, nqs[next_action], exp_nqs)),
            ).sub(qa);
            self.update_backup(
                BackupEntry {
                    s: self.prior_state,
                    a: t.action,
                    q: qa,
                    residual,
                    sigma: self.sigma,
                    pi: pi[next_action],
                    mu,
                },
            );
            self.prior_state = t.to;
        }
    }

    /// Learns from one step taken from the current state. Where the step
    /// goes on, the behaviour policy draws the action for the state reached.
    pub fn handle_transition(&mut self, t: &Transition<S, usize, N>)
        requires
            old(self).wf(),
            t.action < Q::n_actions_spec(old(self).q_func@),
            !t.terminal ==> covers::<S, N, Q>(old(self).q_func@, t.to),
            !t.terminal ==> forall|a: usize|
                old(self).policy.supports(t.to, a) ==> a < Q::n_actions_spec(old(self).q_func@),
        ensures
            exists|next_action: usize|
                Self::stepped_on_draw(*old(self), *final(self), *t, next_action),
            old(self).backup.entries().len() + 1 < old(self).backup.capacity() ==> final(self).q_func@
                == old(self).q_func@,
            final(self).wf(),
    {
        if t.terminated() {
            self.handle_transition_with(t, 0);
            assert(Self::stepped_on_draw(*old(self), *self, *t, 0));
        } else {
            let mut rng = rand::thread_rng();
            let na = self.policy.sample(&mut rng, &t.to);
            self.handle_transition_with(t, na);
            assert(Self::stepped_on_draw(*old(self), *self, *t, na));
        }
    }

    /// The greedy action in a state: what the target policy takes.
    pub fn sample_target(&self, s: &S) -> (a: usize)
        requires
            Q::n_actions_spec(self.q_func@) > 0,
            covers::<S, N, Q>(self.q_func@, *s),
        ensures
            a == greedy_action::<S, N, Q>(self.q_func@, *s),
            a < Q::n_actions_spec(self.q_func@),
    {
        self.q_func.find_max(s).0
    }

    /// An action drawn from the behaviour policy.
    pub fn sample_behaviour(&self, rng: &mut ThreadRng, s: &S) -> (a: usize)
        ensures
            self.policy.supports(*s, a),
    {
        self.policy.sample(rng, s)
    }

    /// The value of a state: that of its greedy action.
    pub fn predict_v(&self, s: &S) -> (r: N)
        requires
            Q::n_actions_spec(self.q_func@) > 0,
            covers::<S, N, Q>(self.q_func@, *s),
        ensures
            r == Q::value_spec(self.q_func@, *s, greedy_action::<S, N, Q>(self.q_func@, *s)),
    {
        let a = self.sample_target(s);
        self.predict_q(s, &a)
    }

    /// The estimated value of an action in a state.
    pub fn predict_q(&self, s: &S, a: &usize) -> (r: N)
        requires
            Q::in_domain(self.q_func@, *s, *a),
        ensures
            r == Q::value_spec(self.q_func@, *s, *a),
    {
        self.q_func.evaluate(s, a)
    }

    /// Ends the episode: the window is emptied and nothing in it is propagated.
    pub fn handle_terminal(&mut self)
        ensures
            final(self).backup.entries().len() == 0,
            final(self).backup.capacity() == old(self).backup.capacity(),
            final(self).q_func == old(self).q_func,
            final(self).policy == old(self).policy,
            final(self).alpha == old(self).alpha,
            final(self).gamma == old(self).gamma,
            final(self).sigma == old(self).sigma,
            final(self).prior_state == old(self).prior_state,
    {
        self.backup.clear();
    }
}

} // verus!
