//! Least-squares temporal-difference learning, one step at a time.
use crate::domains::Transition;
use crate::fa::LinearStateFunction;
use crate::features::{dot_dense, lemma_axpy_len, Features, FeaturesView};
use crate::linalg::{
    has_shape, mat_vec_spec, scaled_identity_spec, zero_matrix_spec, zeroed, Matrix,
};
use crate::prediction::td::{advance, td_residual};
use crate::scalar::Scalar;
use vstd::prelude::*;

verus! {

/// The difference of features that a step which goes on is measured by:
/// `(-gamma) * next_phi[i] + phi[i]`.
pub open spec fn feature_difference<N: Scalar>(gamma: N, phi: Seq<N>, next_phi: Seq<N>) -> Seq<N> {
    Seq::new(phi.len(), |i: int| gamma.neg_spec().mul_spec(next_phi[i]).add_spec(phi[i]))
}

/// The row vector `g` of a step: `c` applied to the features of the
/// state left where the step ends the episode, else to the difference of
/// features.
pub open spec fn gain_row<N: Scalar>(
    c: Seq<Seq<N>>,
    gamma: N,
    phi: Seq<N>,
    next_phi: Seq<N>,
    terminal: bool,
) -> Seq<N> {
    if terminal {
        mat_vec_spec(c, phi)
    } else {
        mat_vec_spec(c, feature_difference(gamma, phi, next_phi))
    }
}

/// The divisor of a step: `1 + g . phi`.
pub open spec fn gain_divisor<N: Scalar>(g: Seq<N>, phi: Seq<N>) -> N {
    N::one_spec().add_spec(dot_dense(g, phi, phi.len()))
}

/// The matrix after a rank-one step: `c[i][j] + (-1 / a) * (v[i] * g[j])`.
pub open spec fn rank_one_update<N: Scalar>(c: Seq<Seq<N>>, a: N, v: Seq<N>, g: Seq<N>) -> Seq<
    Seq<N>,
> {
    Seq::new(
        v.len(),
        |i: int|
            Seq::new(
                g.len(),
                |j: int|
                    c[i][j].add_spec(
                        N::one_spec().neg_spec().div_spec(a).mul_spec(v[i].mul_spec(g[j])),
                    ),
            ),
    )
}

/// Recursive LSTD: keeps an inverse correlation matrix `c_mat` and moves
/// it and the weights by a rank-one step for each transition.
pub struct RecursiveLSTD<F, S, N> {
    pub fa_theta: F,
    pub gamma: N,
    pub c_mat: Matrix<N>,
    pub prior_state: S,
}

impl<S: Copy, N: Scalar, F: LinearStateFunction<S, N>> RecursiveLSTD<F, S, N> {
    /// The diagonal of a fresh matrix: one over a hundred thousand.
    pub open spec fn epsilon() -> N {
        N::one_spec().div_spec(N::from_count_spec(100000))
    }

    /// A learner with its matrix at `epsilon` times the identity.
    pub fn new(fa_theta: F, gamma: N, initial_state: S) -> (r: Self)
        ensures
            r.fa_theta == fa_theta,
            r.gamma == gamma,
            r.prior_state == initial_state,
            r.c_mat@ == scaled_identity_spec(F::dim_spec(fa_theta@).0 as nat, Self::epsilon()),
            F::in_domain(fa_theta@, initial_state) ==> r.wf(),
    {
        proof {
            F::lemma_n_features(fa_theta@);
        }
        let n_features = fa_theta.weights_dim().0;
        let eps = N::one().div(N::from_count(100000));
        RecursiveLSTD {
            fa_theta,
            gamma,
            c_mat: Matrix::scaled_identity(n_features, eps),
            prior_state: initial_state,
        }
    }

    /// The matrix has the dimension of the features, and the estimator can
    /// be asked about the current state.
    pub open spec fn wf(&self) -> bool {
        &&& F::in_domain(self.fa_theta@, self.prior_state)
        &&& has_shape(
            self.c_mat@,
            F::n_features_spec(self.fa_theta@) as nat,
            F::n_features_spec(self.fa_theta@) as nat,
        )
    }

    /// The features of a state, written out in full.
    pub open spec fn phi(&self, s: S) -> Seq<N> {
        F::features_spec(self.fa_theta@, s).expanded()
    }

    /// The row vector `g` of a step.
    pub open spec fn g<A>(&self, t: Transition<S, A, N>) -> Seq<N> {
        gain_row(self.c_mat@, self.gamma, self.phi(self.prior_state), self.phi(t.to), t.terminal)
    }

    /// The column vector `v` of a step: the matrix applied to the features
    /// of the current state.
    pub open spec fn v(&self) -> Seq<N> {
        mat_vec_spec(self.c_mat@, self.phi(self.prior_state))
    }

    /// The divisor `a` of a step.
    pub open spec fn a<A>(&self, t: Transition<S, A, N>) -> N {
        gain_divisor(self.g(t), self.phi(self.prior_state))
    }

    /// The residual of a step, with both values read from the features.
    pub open spec fn residual<A>(&self, t: Transition<S, A, N>) -> N {
        td_residual(
            t.reward,
            self.gamma,
            F::evaluate_features_spec(
                self.fa_theta@,
                F::features_spec(self.fa_theta@, self.prior_state),
            ),
            F::evaluate_features_spec(self.fa_theta@, F::features_spec(self.fa_theta@, t.to)),
            t.terminal,
        )
    }

    /// Learns from one step taken from the current state. A step that ends
    /// the episode leaves the matrix at zero.
    pub fn handle_transition<A>(&mut self, t: &Transition<S, A, N>)
        requires
            old(self).wf(),
            !t.terminal ==> F::in_domain(old(self).fa_theta@, t.to),
        ensures
            final(self).fa_theta@ == F::with_weights(
                old(self).fa_theta@,
                FeaturesView::Dense(old(self).v()).axpy(
                    F::weights_spec(old(self).fa_theta@),
                    old(self).residual(*t).div_spec(old(self).a(*t)),
                ),
            ),
            final(self).c_mat@ == if t.terminal {
                zero_matrix_spec::<N>(old(self).c_mat@.len(), old(self).c_mat@.len())
            } else {
                rank_one_update(old(self).c_mat@, old(self).a(*t), old(self).v(), old(self).g(*t))
            },
            final(self).prior_state == advance(old(self).prior_state, t.to, t.terminal),
            final(self).gamma == old(self).gamma,
            final(self).wf(),
    {
        proof {
            F::lemma_n_features(self.fa_theta@);
        }
        let features = self.fa_theta.features(&self.prior_state);
        let theta_s = self.fa_theta.evaluate_features(&features);
        let phi_s = features.expanded();
        let gamma = self.gamma;
        let v = self.c_mat.mat_vec(&phi_s);
        let g: Vec<N>;
        let residual: N;
        if t.terminated() {
            g = self.c_mat.mat_vec(&phi_s);
            residual = t.reward.sub(theta_s);
        } else {
            let next_features = self.fa_theta.features(&t.to);
            let theta_ns = self.fa_theta.evaluate_features(&next_features);
            let phi_ns = next_features.expanded();
            let mut pd: Vec<N> = Vec::new();
            let mut i: usize = 0;
            while i < phi_s.len()
                invariant
                    i <= phi_s@.len(),
                    phi_ns@.len() == phi_s@.len(),
                    pd@.len() == i,
                    forall|k: int|
                        0 <= k < i ==> pd@[k] == gamma.neg_spec().mul_spec(phi_ns@[k]).add_spec(
                            phi_s@[k],
                        ),
                decreases phi_s@.len() - i,
            {
                pd.push(gamma.neg().mul(phi_ns[i]).add(phi_s[i]));
                i += 1;
            }
            assert(pd@ =~= feature_difference(gamma, phi_s@, phi_ns@));
            g = self.c_mat.mat_vec(&pd);
            residual = t.reward.add(gamma.mul(theta_ns)).sub(theta_s);
        }
        let a = N::one().add(crate::linalg::dot(&g, &phi_s));
        let scale = N::one().neg().div(a);
        let step = |x: N, y: N| -> (r: N)
            ensures
                r == x.add_spec(scale.mul_spec(y)),
            { x.add(scale.mul(y)) };
        self.c_mat.merge_outer(&v, &g, step);
        assert(self.c_mat@ =~~= rank_one_update(old(self).c_mat@, a, v@, g@));
        let direction = Features::Dense(v);
        let factor = residual.div(a);
        proof {
            let w = direction@.axpy(F::weights_spec(self.fa_theta@), factor);
            lemma_axpy_len(direction@, F::weights_spec(self.fa_theta@), factor);
            F::lemma_weights_domain(
                self.fa_theta@,
                w,
                advance(self.prior_state, t.to, t.terminal),
            );
            F::lemma_with_weights(self.fa_theta@, w);
            F::lemma_n_features(F::with_weights(self.fa_theta@, w));
        }
        self.fa_theta.update_grad_scaled(&direction, factor);
        if t.terminated() {
            self.c_mat.fill_zero();
            assert(self.c_mat@ =~~= zero_matrix_spec::<N>(
                old(self).c_mat@.len(),
                old(self).c_mat@.len(),
            ));
        } else {
            self.prior_state = t.to;
        }
    }

    /// Ends the episode: the matrix goes to zero.
    pub fn handle_terminal(&mut self)
        ensures
            final(self).c_mat@ == zeroed(old(self).c_mat@),
            final(self).fa_theta == old(self).fa_theta,
            final(self).gamma == old(self).gamma,
            final(self).prior_state == old(self).prior_state,
            old(self).wf() ==> final(self).wf(),
    {
        self.c_mat.fill_zero();
    }

    /// The estimated value of a state.
    pub fn predict_v(&self, s: &S) -> (r: N)
        requires
            F::in_domain(self.fa_theta@, *s),
        ensures
            r == F::value_spec(self.fa_theta@, *s),
    {
        self.fa_theta.evaluate(s)
    }
}

} // verus!
