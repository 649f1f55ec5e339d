//! Least-squares temporal-difference learning from a batch of steps.
use crate::domains::Transition;
use crate::fa::LinearStateFunction;
use crate::features::FeaturesView;
use crate::linalg::{has_shape, mat_vec_spec, zero_matrix_spec, Matrix, MatrixView, VectorView};
use crate::prediction::td::{advance, walk_state};
use crate::scalar::Scalar;
use crate::traces::{zero_vector, zeros};
use vstd::prelude::*;

verus! {

/// A routine that solves linear systems. Its answers are functions of the
/// matrix and the vector that it is given; the learner checks the shape of
/// an answer before it uses it.
pub trait LinearSolver<N> {
    /// What the routine answers when asked to solve `a x = b`.
    spec fn solve_spec(&self, a: MatrixView<N>, b: VectorView<N>) -> Option<VectorView<N>>;

    /// What the routine answers when asked for a pseudo-inverse of `a`.
    spec fn pinv_spec(&self, a: MatrixView<N>) -> Option<MatrixView<N>>;

    /// A solution `x` of `a x = b`, or nothing where the routine fails.
    fn solve(&self, a: &Matrix<N>, b: &Vec<N>) -> (x: Option<Vec<N>>)
        ensures
            vector_of(x) == self.solve_spec(a@, b@),
    ;

    /// A pseudo-inverse of `a`, or nothing where the routine fails.
    fn pinv(&self, a: &Matrix<N>) -> (p: Option<Matrix<N>>)
        ensures
            matrix_of(p) == self.pinv_spec(a@),
    ;
}

/// The vector `b` after a step with the given reward from a state with
/// the features `phi`: `b[i] + reward * phi[i]`.
pub open spec fn next_b<N: Scalar>(b: Seq<N>, reward: N, phi: Seq<N>) -> Seq<N> {
    FeaturesView::Dense(phi).axpy(b, reward)
}

/// The matrix `a` after a step from a state with the features `phi` to
/// one with the features `next_phi`: `a[i][j] + phi[i] * phi[j]` where the
/// step ends the episode, else `a[i][j] - phi[i] * (gamma * next_phi[j] - phi[j])`.
pub open spec fn next_a<N: Scalar>(
    a: Seq<Seq<N>>,
    gamma: N,
    phi: Seq<N>,
    next_phi: Seq<N>,
    terminal: bool,
) -> Seq<Seq<N>> {
    Seq::new(
        phi.len(),
        |i: int|
            Seq::new(
                phi.len(),
                |j: int|
                    if terminal {
                        a[i][j].add_spec(phi[i].mul_spec(phi[j]))
                    } else {
                        a[i][j].sub_spec(
                            phi[i].mul_spec(gamma.mul_spec(next_phi[j]).sub_spec(phi[j])),
                        )
                    },
            ),
    )
}

/// Whether a direct solution can stand for `n` weights.
pub open spec fn usable<N>(x: Option<Seq<N>>, n: nat) -> bool {
    x matches Some(v) && v.len() == n
}

/// Whether a pseudo-inverse can be applied to a vector of `c` entries to
/// give `n` weights.
pub open spec fn usable_inverse<N>(p: Option<Seq<Seq<N>>>, n: nat, c: nat) -> bool {
    p matches Some(m) && has_shape(m, n, c)
}

/// What a solver's vector holds, if it gave one.
pub open spec fn vector_of<N>(x: Option<Vec<N>>) -> Option<Seq<N>> {
    match x {
        Some(v) => Some(v@),
        None => None,
    }
}

/// What a solver's matrix holds, if it gave one.
pub open spec fn matrix_of<N>(p: Option<Matrix<N>>) -> Option<Seq<Seq<N>>> {
    match p {
        Some(m) => Some(m@),
        None => None,
    }
}

/// How a solve ended.
#[derive(Clone, Copy, Debug, PartialEq, Eq)]
pub enum Solved {
    /// The direct solution was written into the weights.
    Direct,
    /// The pseudo-inverse applied to `b` was written into the weights.
    PseudoInverse,
    /// Neither could be used: the weights are as they were.
    Unsolved,
}

/// How a solve ends for the given answers of the solver.
pub open spec fn solve_outcome<N>(
    weights: Seq<N>,
    b: Seq<N>,
    direct: Option<Seq<N>>,
    inverse: Option<Seq<Seq<N>>>,
) -> Solved {
    if usable(direct, weights.len()) {
        Solved::Direct
    } else if usable_inverse(inverse, weights.len(), b.len()) {
        Solved::PseudoInverse
    } else {
        Solved::Unsolved
    }
}

/// The weights that a solve leaves: the direct solution where it is
/// usable, else the pseudo-inverse applied to `b` where that is usable,
/// else the weights as they were.
pub open spec fn solved_weights<N: Scalar>(
    weights: Seq<N>,
    b: Seq<N>,
    direct: Option<Seq<N>>,
    inverse: Option<Seq<Seq<N>>>,
) -> Seq<N> {
    if usable(direct, weights.len()) {
        direct->Some_0
    } else if usable_inverse(inverse, weights.len(), b.len()) {
        mat_vec_spec(inverse->Some_0, b)
    } else {
        weights
    }
}

/// LSTD: gathers the statistics `a` and `b` over a batch and then solves
/// `a theta = b` for the weights, once.
pub struct LSTD<S, F, N> {
    pub fa_theta: F,
    pub gamma: N,
    pub a: Matrix<N>,
    pub b: Vec<N>,
    pub prior_state: S,
}

/// Whether the matrix has `n` rows of `c` entries each.
fn has_rows_of<N>(m: &Matrix<N>, n: usize, c: usize) -> (r: bool)
    ensures
        r == has_shape(m@, n as nat, c as nat),
{
    if m.rows.len() != n {
        return false;
    }
    let mut i: usize = 0;
    while i < n
        invariant
            i <= n,
            n == m.rows@.len(),
            forall|a: int| 0 <= a < i ==> (#[trigger] m@[a]).len() == c,
        decreases n - i,
    {
        if m.rows[i].len() != c {
            assert(m@[i as int].len() != c);
            return false;
        }
        i += 1;
    }
    true
}

impl<S: Copy, N: Scalar, F: LinearStateFunction<S, N>> LSTD<S, F, N> {
    /// The statistics before any step: `a` and `b` at zero, of the
    /// dimension of the features.
    pub open spec fn fresh_a(model: F::V) -> Seq<Seq<N>> {
        zero_matrix_spec::<N>(
            F::n_features_spec(model) as nat,
            F::n_features_spec(model) as nat,
        )
    }

    /// The vector `b` before any step.
    pub open spec fn fresh_b(model: F::V) -> Seq<N> {
        zeros::<N>(F::n_features_spec(model) as nat)
    }

    /// A learner with `a` and `b` at zero.
    pub fn new(fa_theta: F, gamma: N, initial_state: S) -> (r: Self)
        ensures
            r.fa_theta == fa_theta,
            r.gamma == gamma,
            r.prior_state == initial_state,
            r.a@ == Self::fresh_a(fa_theta@),
            r.b@ == Self::fresh_b(fa_theta@),
            F::in_domain(fa_theta@, initial_state) ==> r.wf(),
    {
        let n = fa_theta.n_features();
        LSTD {
            fa_theta,
            gamma,
            a: Matrix::zeros(n, n),
            b: zero_vector(n),
            prior_state: initial_state,
        }
    }

    /// Sets the statistics back to zero.
    pub fn reset(&mut self)
        ensures
            final(self).a@ == Self::fresh_a(old(self).fa_theta@),
            final(self).b@ == Self::fresh_b(old(self).fa_theta@),
            final(self).fa_theta == old(self).fa_theta,
            final(self).gamma == old(self).gamma,
            final(self).prior_state == old(self).prior_state,
            F::in_domain(old(self).fa_theta@, old(self).prior_state) ==> final(self).wf(),
    {
        let n = self.fa_theta.n_features();
        self.a = Matrix::zeros(n, n);
        self.b = zero_vector(n);
    }

    /// The statistics have the dimension of the features, and the estimator
    /// can be asked about the current state.
    pub open spec fn wf(&self) -> bool {
        &&& F::in_domain(self.fa_theta@, self.prior_state)
        &&& has_shape(
            self.a@,
            F::n_features_spec(self.fa_theta@) as nat,
            F::n_features_spec(self.fa_theta@) as nat,
        )
        &&& self.b@.len() == F::n_features_spec(self.fa_theta@)
    }

    /// The features of a state, written out in full.
    pub open spec fn phi(model: F::V, s: S) -> Seq<N> {
        F::features_spec(model, s).expanded()
    }

    /// `b` after the first `k` steps of a batch.
    pub open spec fn gathered_b<A>(
        model: F::V,
        b: Seq<N>,
        start: S,
        batch: Seq<Transition<S, A, N>>,
        k: nat,
    ) -> Seq<N>
        decreases k,
    {
        if k == 0 || k > batch.len() {
            b
        } else {
            next_b(
                Self::gathered_b(model, b, start, batch, (k - 1) as nat),
                batch[k - 1].reward,
                Self::phi(model, walk_state(start, batch, (k - 1) as nat)),
            )
        }
    }

    /// `a` after the first `k` steps of a batch.
    pub open spec fn gathered_a<A>(
        model: F::V,
        a: Seq<Seq<N>>,
        gamma: N,
        start: S,
        batch: Seq<Transition<S, A, N>>,
        k: nat,
    ) -> Seq<Seq<N>>
        decreases k,
    {
        if k == 0 || k > batch.len() {
            a
        } else {
            next_a(
                Self::gathered_a(model, a, gamma, start, batch, (k - 1) as nat),
                gamma,
                Self::phi(model, walk_state(start, batch, (k - 1) as nat)),
                Self::phi(model, batch[k - 1].to),
                batch[k - 1].terminal,
            )
        }
    }

    /// Adds one step taken from the current state to the statistics.
    pub fn accumulate<A>(&mut self, t: &Transition<S, A, N>)
        requires
            old(self).wf(),
            !t.terminal ==> F::in_domain(old(self).fa_theta@, t.to),
        ensures
            final(self).b@ == next_b(
                old(self).b@,
                t.reward,
                Self::phi(old(self).fa_theta@, old(self).prior_state),
            ),
            final(self).a@ == next_a(
                old(self).a@,
                old(self).gamma,
                Self::phi(old(self).fa_theta@, old(self).prior_state),
                Self::phi(old(self).fa_theta@, t.to),
                t.terminal,
            ),
            final(self).prior_state == advance(old(self).prior_state, t.to, t.terminal),
            final(self).fa_theta == old(self).fa_theta,
            final(self).gamma == old(self).gamma,
            final(self).wf(),
    {
        let phi_s = self.fa_theta.features(&self.prior_state).expanded();
        let reward = t.reward;
        let mut k: usize = 0;
        while k < self.b.len()
            invariant
                k <= self.b@.len(),
                self.b@.len() == old(self).b@.len(),
                self.b@.len() == phi_s@.len(),
                forall|i: int|
                    0 <= i < k ==> self.b@[i] == old(self).b@[i].add_spec(
                        reward.mul_spec(phi_s@[i]),
                    ),
                forall|i: int| k <= i < self.b@.len() ==> self.b@[i] == old(self).b@[i],
                self.a == old(self).a,
                self.fa_theta == old(self).fa_theta,
                self.gamma == old(self).gamma,
                self.prior_state == old(self).prior_state,
            decreases self.b@.len() - k,
        {
            let cur = self.b[k];
            self.b.set(k, cur.add(reward.mul(phi_s[k])));
            k += 1;
        }
        assert(self.b@ =~= next_b(old(self).b@, reward, phi_s@));
        if t.terminated() {
            let add_product = |x: N, y: N| -> (r: N)
                ensures
                    r == x.add_spec(y),
                { x.add(y) };
            self.a.merge_outer(&phi_s, &phi_s, add_product);
            assert(self.a@ =~~= next_a(
                old(self).a@,
                old(self).gamma,
                phi_s@,
                Self::phi(old(self).fa_theta@, t.to),
                true,
            ));
        } else {
            let phi_ns = self.fa_theta.features(&t.to).expanded();
            let gamma = self.gamma;
            let mut pd: Vec<N> = Vec::new();
            let mut j: usize = 0;
            while j < phi_s.len()
                invariant
                    j <= phi_s@.len(),
                    phi_ns@.len() == phi_s@.len(),
                    pd@.len() == j,
                    forall|i: int|
                        0 <= i < j ==> pd@[i] == gamma.mul_spec(phi_ns@[i]).sub_spec(phi_s@[i]),
                decreases phi_s@.len() - j,
            {
                pd.push(gamma.mul(phi_ns[j]).sub(phi_s[j]));
                j += 1;
            }
            let sub_product = |x: N, y: N| -> (r: N)
                ensures
                    r == x.sub_spec(y),
                { x.sub(y) };
            self.a.merge_outer(&phi_s, &pd, sub_product);
            assert(self.a@ =~~= next_a(old(self).a@, old(self).gamma, phi_s@, phi_ns@, false));
            self.prior_state = t.to;
        }
    }

    /// Writes a solution into the weights: the direct one where it has one
    /// entry for each weight, else the pseudo-inverse applied to `b` where
    /// its shape allows, else nothing.
    pub fn apply_solution(&mut self, direct: Option<Vec<N>>, inverse: Option<Matrix<N>>) -> (r:
        Solved)
        requires
            old(self).wf(),
        ensures
            r == solve_outcome(
                F::weights_spec(old(self).fa_theta@),
                old(self).b@,
                vector_of(direct),
                matrix_of(inverse),
            ),
            final(self).fa_theta@ == F::with_weights(
                old(self).fa_theta@,
                solved_weights(
                    F::weights_spec(old(self).fa_theta@),
                    old(self).b@,
                    vector_of(direct),
                    matrix_of(inverse),
                ),
            ),
            final(self).a == old(self).a,
            final(self).b == old(self).b,
            final(self).gamma == old(self).gamma,
            final(self).prior_state == old(self).prior_state,
            final(self).wf(),
    {
        let ghost target = solved_weights(
            F::weights_spec(old(self).fa_theta@),
            old(self).b@,
            vector_of(direct),
            matrix_of(inverse),
        );
        let n = self.fa_theta.weights_view().len();
        let n_b = self.b.len();
        let mut solution: Option<Vec<N>> = None;
        let mut outcome = Solved::Unsolved;
        match direct {
            Some(v) => {
                if v.len() == n {
                    solution = Some(v);
                    outcome = Solved::Direct;
                }
            },
            None => {},
        }
        if solution.is_none() {
            match inverse {
                Some(m) => {
                    if has_rows_of(&m, n, n_b) {
                        solution = Some(m.mat_vec(&self.b));
                        outcome = Solved::PseudoInverse;
                    }
                },
                None => {},
            }
        }
        proof {
            assert(target.len() == n);
            F::lemma_weights_domain(self.fa_theta@, target, self.prior_state);
            F::lemma_with_weights(self.fa_theta@, target);
            F::lemma_n_features(self.fa_theta@);
            F::lemma_n_features(F::with_weights(self.fa_theta@, target));
        }
        match solution {
            Some(theta) => {
                assert(theta@ == target);
                let w = self.fa_theta.weights_view_mut();
                *w = theta;
            },
            None => {
                assert(target == F::weights_spec(self.fa_theta@));
            },
        }
        outcome
    }

    /// Whether a solve with the given answers of the solver takes the
    /// estimator from `pre` to `post` and ends as `outcome`.
    pub open spec fn solved_with(
        pre: F::V,
        b: Seq<N>,
        post: F::V,
        outcome: Solved,
        direct: Option<Seq<N>>,
        inverse: Option<Seq<Seq<N>>>,
    ) -> bool {
        &&& post == F::with_weights(
            pre,
            solved_weights(F::weights_spec(pre), b, direct, inverse),
        )
        &&& outcome == solve_outcome(F::weights_spec(pre), b, direct, inverse)
    }

    /// Where the solver's direct answer can be used and solves `a x = b`,
    /// the weights after the solve satisfy `a theta = b`.
    pub proof fn lemma_direct_solution_solves(
        pre: F::V,
        a: Seq<Seq<N>>,
        b: Seq<N>,
        post: F::V,
        outcome: Solved,
        direct: Option<Seq<N>>,
        inverse: Option<Seq<Seq<N>>>,
    )
        requires
            Self::solved_with(pre, b, post, outcome, direct, inverse),
            usable(direct, F::weights_spec(pre).len()),
            mat_vec_spec(a, direct->Some_0) == b,
        ensures
            outcome == Solved::Direct,
            F::weights_spec(post) == direct->Some_0,
            mat_vec_spec(a, F::weights_spec(post)) == b,
    {
        F::lemma_with_weights(pre, direct->Some_0);
    }

    /// Solves `a theta = b` for the weights: asks the solver for a direct
    /// solution of the statistics as they stand and, where that cannot be
    /// used, for a pseudo-inverse of `a`. Where neither can be used the
    /// weights stay as they were.
    pub fn solve<L: LinearSolver<N>>(&mut self, solver: &L) -> (r: Solved)
        requires
            old(self).wf(),
        ensures
            Self::solved_with(
                old(self).fa_theta@,
                old(self).b@,
                final(self).fa_theta@,
                r,
                solver.solve_spec(old(self).a@, old(self).b@),
                solver.pinv_spec(old(self).a@),
            ),
            r is Unsolved ==> final(self).fa_theta@ == old(self).fa_theta@,
            final(self).a == old(self).a,
            final(self).b == old(self).b,
            final(self).gamma == old(self).gamma,
            final(self).prior_state == old(self).prior_state,
            final(self).wf(),
    {
        let direct = solver.solve(&self.a, &self.b);
        let n = self.fa_theta.weights_view().len();
        let direct_fits = match &direct {
            Some(v) => v.len() == n,
            None => false,
        };
        let inverse = if direct_fits {
            None
        } else {
            solver.pinv(&self.a)
        };
        let r = self.apply_solution(direct, inverse);
        proof {
            F::lemma_with_weights(old(self).fa_theta@, F::weights_spec(old(self).fa_theta@));
        }
        r
    }

    /// Learns from a batch: starts the statistics at zero, gathers every
    /// step into them, in order, and then solves for the weights once. The
    /// weights are what the solver answers for the statistics of this batch.
    pub fn handle_batch<A, L: LinearSolver<N>>(
        &mut self,
        ts: &[Transition<S, A, N>],
        solver: &L,
    ) -> (r: Solved)
        requires
            F::in_domain(old(self).fa_theta@, old(self).prior_state),
            forall|i: int|
                0 <= i < ts@.len() && !(#[trigger] ts@[i]).terminal ==> F::in_domain(
                    old(self).fa_theta@,
                    ts@[i].to,
                ),
        ensures
            final(self).a@ == Self::gathered_a(
                old(self).fa_theta@,
                Self::fresh_a(old(self).fa_theta@),
                old(self).gamma,
                old(self).prior_state,
                ts@,
                ts@.len(),
            ),
            final(self).b@ == Self::gathered_b(
                old(self).fa_theta@,
                Self::fresh_b(old(self).fa_theta@),
                old(self).prior_state,
                ts@,
                ts@.len(),
            ),
            final(self).prior_state == walk_state(old(self).prior_state, ts@, ts@.len()),
            Self::solved_with(
                old(self).fa_theta@,
                final(self).b@,
                final(self).fa_theta@,
                r,
                solver.solve_spec(final(self).a@, final(self).b@),
                solver.pinv_spec(final(self).a@),
            ),
            r is Unsolved ==> final(self).fa_theta@ == old(self).fa_theta@,
            final(self).gamma == old(self).gamma,
            final(self).wf(),
    {
        self.reset();
        let n = ts.len();
        let mut k: usize = 0;
        while k < n
            invariant
                k <= n,
                n == ts@.len(),
                self.wf(),
                self.fa_theta == old(self).fa_theta,
                self.gamma == old(self).gamma,
                forall|i: int|
                    0 <= i < ts@.len() && !(#[trigger] ts@[i]).terminal ==> F::in_domain(
                        old(self).fa_theta@,
                        ts@[i].to,
                    ),
                self.prior_state == walk_state(old(self).prior_state, ts@, k as nat),
                self.a@ == Self::gathered_a(
                    old(self).fa_theta@,
                    Self::fresh_a(old(self).fa_theta@),
                    old(self).gamma,
                    old(self).prior_state,
                    ts@,
                    k as nat,
                ),
                self.b@ == Self::gathered_b(
                    old(self).fa_theta@,
                    Self::fresh_b(old(self).fa_theta@),
                    old(self).prior_state,
                    ts@,
                    k as nat,
                ),
            decreases n - k,
        {
            self.accumulate(&ts[k]);
            k += 1;
        }
        self.solve(solver)
    }

    /// The estimated value of a state.
    pub fn predict_v(&self, s: &S) -> (r: N)
        requires
            F::in_domain(self.fa_theta@, *s),
        ensures
            r == F::value_spec(self.fa_theta@, *s),
    {
        self.fa_theta.evaluate(s)
    }
}

} // verus!
