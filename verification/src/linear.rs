//! Linear estimators over a table of feature vectors, one for each state.
use crate::fa::{
    DifferentiableStateActionFunction, DifferentiableStateFunction,
    EnumerableDifferentiableFunction, EnumerableStateActionFunction, LinearStateActionFunction,
    LinearStateFunction, Parameterised, StateActionFunction, StateFunction,
};
use crate::features::{
    axpy_sparse, dot_sparse, lemma_axpy_len, sparse_get, Features, FeaturesView,
};
use crate::scalar::{lemma_fixed_identities, Fixed, Scalar};
use vstd::prelude::*;

verus! {

/// Mathematical model of a linear estimator: the features of each state
/// and the weights.
pub struct LinearView<N> {
    pub phi: Seq<FeaturesView<N>>,
    pub weights: Seq<N>,
}

/// A state-value estimator `V(s) = phi(s) . w` over the states `0..n`.
pub struct ScalarLFA<N> {
    phi: Vec<Features<N>>,
    weights: Vec<N>,
}

impl<N> View for ScalarLFA<N> {
    type V = LinearView<N>;

    closed spec fn view(&self) -> LinearView<N> {
        LinearView { phi: Seq::new(self.phi@.len(), |s: int| self.phi@[s]@), weights: self.weights@ }
    }
}

impl<N: Scalar> ScalarLFA<N> {
    /// The estimator with the given features for each state and these weights.
    pub fn new(phi: Vec<Features<N>>, weights: Vec<N>) -> (r: Self)
        ensures
            r@.phi == Seq::new(phi@.len(), |s: int| phi@[s]@),
            r@.weights == weights@,
    {
        ScalarLFA { phi, weights }
    }

    /// The weights, in order.
    pub fn weights(&self) -> (w: &Vec<N>)
        ensures
            w@ == self@.weights,
    {
        &self.weights
    }
}

impl<N: Scalar> Parameterised<N> for ScalarLFA<N> {
    open spec fn weights_spec(model: LinearView<N>) -> Seq<N> {
        model.weights
    }

    open spec fn with_weights(model: LinearView<N>, w: Seq<N>) -> LinearView<N> {
        LinearView { phi: model.phi, weights: w }
    }

    open spec fn dim_spec(model: LinearView<N>) -> (usize, usize) {
        (model.weights.len() as usize, 1)
    }

    proof fn lemma_with_weights(model: LinearView<N>, w: Seq<N>) {
    }

    fn weights_dim(&self) -> (d: (usize, usize)) {
        (self.weights.len(), 1)
    }

    fn weights_view(&self) -> (w: &Vec<N>) {
        &self.weights
    }

    fn weights_view_mut(&mut self) -> (w: &mut Vec<N>) {
        &mut self.weights
    }
}

impl<N: Scalar> StateFunction<usize, N> for ScalarLFA<N> {
    open spec fn in_domain(model: LinearView<N>, state: usize) -> bool {
        state < model.phi.len() && model.phi[state as int].dim() == model.weights.len()
    }

    open spec fn value_spec(model: LinearView<N>, state: usize) -> N {
        model.phi[state as int].dot(FeaturesView::Dense(model.weights))
    }

    open spec fn update_spec(model: LinearView<N>, state: usize, error: N) -> LinearView<N> {
        LinearView {
            phi: model.phi,
            weights: model.phi[state as int].axpy(model.weights, error),
        }
    }

    proof fn lemma_update_domain(model: LinearView<N>, state: usize, error: N, other: usize) {
        lemma_axpy_len(model.phi[state as int], model.weights, error);
    }

    fn evaluate(&self, state: &usize) -> (r: N) {
        self.phi[*state].dot_vec(&self.weights)
    }

    fn update(&mut self, state: &usize, error: N) {
        self.phi[*state].scaled_addto(error, &mut self.weights);
    }
}

impl<N: Scalar> DifferentiableStateFunction<usize, N> for ScalarLFA<N> {
    open spec fn grad_spec(model: LinearView<N>, state: usize) -> FeaturesView<N> {
        model.phi[state as int]
    }

    proof fn lemma_weights_domain(model: LinearView<N>, w: Seq<N>, state: usize) {
    }

    proof fn lemma_update_shape(model: LinearView<N>, state: usize, error: N) {
        lemma_axpy_len(model.phi[state as int], model.weights, error);
    }

    fn grad(&self, state: &usize) -> (g: Features<N>) {
        self.phi[*state].copy()
    }
}

impl<N: Scalar> LinearStateFunction<usize, N> for ScalarLFA<N> {
    open spec fn n_features_spec(model: LinearView<N>) -> usize {
        model.weights.len() as usize
    }

    open spec fn features_spec(model: LinearView<N>, state: usize) -> FeaturesView<N> {
        model.phi[state as int]
    }

    open spec fn evaluate_features_spec(model: LinearView<N>, features: FeaturesView<N>) -> N {
        features.dot(FeaturesView::Dense(model.weights))
    }

    open spec fn update_features_spec(
        model: LinearView<N>,
        features: FeaturesView<N>,
        error: N,
    ) -> LinearView<N> {
        LinearView { phi: model.phi, weights: features.axpy(model.weights, error) }
    }

    proof fn lemma_n_features(model: LinearView<N>) {
    }

    proof fn lemma_update_features_domain(
        model: LinearView<N>,
        features: FeaturesView<N>,
        error: N,
        state: usize,
    ) {
        lemma_axpy_len(features, model.weights, error);
    }

    fn n_features(&self) -> (n: usize) {
        self.weights.len()
    }

    fn features(&self, state: &usize) -> (f: Features<N>) {
        assert(self.weights@.len() == self.weights.len());
        self.phi[*state].copy()
    }

    fn evaluate_features(&self, features: &Features<N>) -> (r: N) {
        features.dot_vec(&self.weights)
    }

    fn update_features(&mut self, features: &Features<N>, error: N) {
        features.scaled_addto(error, &mut self.weights);
    }
}

/// Over one-hot features the fixed-point estimator is a table: the value
/// of a state is its weight, and an update at the state adds the error to
/// that weight and to no other.
pub proof fn lemma_one_hot_is_a_table(model: LinearView<Fixed>, state: usize, error: Fixed)
    requires
        state < model.phi.len(),
        state < model.weights.len(),
        model.phi[state as int] == FeaturesView::Sparse(
            model.weights.len() as usize,
            seq![(state, Fixed::one_spec())],
        ),
    ensures
        ScalarLFA::<Fixed>::value_spec(model, state) == model.weights[state as int],
        ScalarLFA::<Fixed>::update_spec(model, state, error).weights == model.weights.update(
            state as int,
            model.weights[state as int].add_spec(error),
        ),
        ScalarLFA::<Fixed>::value_spec(ScalarLFA::<Fixed>::update_spec(model, state, error), state)
            == ScalarLFA::<Fixed>::value_spec(model, state).add_spec(error),
{
    let acts = seq![(state, Fixed::one_spec())];
    let w = model.weights;
    lemma_fixed_identities(w[state as int]);
    lemma_fixed_identities(error);
    reveal_with_fuel(dot_sparse, 2);
    reveal_with_fuel(axpy_sparse, 2);
    reveal_with_fuel(sparse_get, 2);
    assert(acts.len() == 1);
    assert(acts[0] == (state, Fixed::one_spec()));
    let w2 = w.update(state as int, w[state as int].add_spec(error));
    lemma_fixed_identities(w2[state as int]);
    assert(axpy_sparse(w, error, acts, 1) == w2);
    assert(dot_sparse(acts, FeaturesView::Dense(w), 1) == w[state as int]);
    assert(dot_sparse(acts, FeaturesView::Dense(w2), 1) == w2[state as int]);
}

/// Mathematical model of a linear action-value estimator: the features
/// of each state, and one block of `n_features` weights for each action.
pub struct BlockView<N> {
    pub phi: Seq<FeaturesView<N>>,
    pub weights: Seq<N>,
    pub n_features: usize,
    pub n_actions: usize,
}

/// An action-value estimator `Q(s, a) = phi(s) . w_a` over the states
/// `0..n` and the actions `0..n_actions`, with the weights of action `a` at
/// `a * n_features ..`.
pub struct VectorLFA<N> {
    phi: Vec<Features<N>>,
    weights: Vec<N>,
    n_features: usize,
    n_actions: usize,
}

impl<N> View for VectorLFA<N> {
    type V = BlockView<N>;

    closed spec fn view(&self) -> BlockView<N> {
        BlockView {
            phi: Seq::new(self.phi@.len(), |s: int| self.phi@[s]@),
            weights: self.weights@,
            n_features: self.n_features,
            n_actions: self.n_actions,
        }
    }
}

/// The vector has `n` components and stores none at or past `n`.
pub open spec fn fits<N: Scalar>(f: FeaturesView<N>, n: usize) -> bool {
    match f {
        FeaturesView::Sparse(dim, acts) => dim == n && forall|j: int|
            0 <= j < acts.len() ==> (#[trigger] acts[j]).0 < n,
        FeaturesView::Dense(vals) => vals.len() == n,
    }
}

/// The stored components of a vector as index/weight pairs.
pub open spec fn pairs_of<N>(f: FeaturesView<N>) -> Seq<(usize, N)> {
    match f {
        FeaturesView::Sparse(_, acts) => acts,
        FeaturesView::Dense(vals) => Seq::new(vals.len(), |i: int| (i as usize, vals[i])),
    }
}

/// The vector of dimension `total` that stores each component of `f` at
/// its index plus `offset`.
pub open spec fn shifted<N>(f: FeaturesView<N>, offset: usize, total: usize) -> FeaturesView<N> {
    FeaturesView::Sparse(
        total,
        Seq::new(
            pairs_of(f).len(),
            |k: int| ((pairs_of(f)[k].0 + offset) as usize, pairs_of(f)[k].1),
        ),
    )
}

/// The weights hold one block of features for each action, and `action`
/// is one of them.
pub open spec fn has_block<N>(model: BlockView<N>, action: usize) -> bool {
    &&& action < model.n_actions
    &&& model.weights.len() == model.n_features * model.n_actions
}

/// The gradient of the value of `action` for a state with the features
/// `f`: those features in the block of the action.
pub open spec fn block_gradient<N>(model: BlockView<N>, f: FeaturesView<N>, action: usize) -> FeaturesView<N> {
    shifted(f, (action * model.n_features) as usize, model.weights.len() as usize)
}

/// The model after each of the first `k` actions has taken its error in
/// the given state.
pub open spec fn block_update_all<N: Scalar>(
    model: BlockView<N>,
    state: usize,
    errors: Seq<N>,
    k: nat,
) -> BlockView<N>
    decreases k,
{
    if k == 0 || k > errors.len() {
        model
    } else {
        let prev = block_update_all(model, state, errors, (k - 1) as nat);
        BlockView {
            weights: block_gradient(prev, prev.phi[state as int], (k - 1) as usize).axpy(
                prev.weights,
                errors[k - 1],
            ),
            ..prev
        }
    }
}

/// The block of an action ends within the weights.
proof fn lemma_block_offset(action: usize, n_features: usize, n_actions: usize)
    requires
        action < n_actions,
    ensures
        action * n_features + n_features <= n_features * n_actions,
{
    assert(action * n_features + n_features <= n_features * n_actions) by (nonlinear_arith)
        requires
            action < n_actions,
    ;
}

/// Updating every action changes nothing but the weights, and not their number.
proof fn lemma_block_update_all<N: Scalar>(model: BlockView<N>, state: usize, errors: Seq<N>, k: nat)
    ensures
        block_update_all(model, state, errors, k).phi == model.phi,
        block_update_all(model, state, errors, k).n_features == model.n_features,
        block_update_all(model, state, errors, k).n_actions == model.n_actions,
        block_update_all(model, state, errors, k).weights.len() == model.weights.len(),
    decreases k,
{
    if k != 0 && k <= errors.len() {
        lemma_block_update_all(model, state, errors, (k - 1) as nat);
        let prev = block_update_all(model, state, errors, (k - 1) as nat);
        lemma_axpy_len(
            block_gradient(prev, prev.phi[state as int], (k - 1) as usize),
            prev.weights,
            errors[k - 1],
        );
    }
}

/// Whether a vector has `n` components and stores none at or past `n`.
fn check_fits<N: Scalar>(f: &Features<N>, n: usize) -> (r: bool)
    ensures
        r == fits(f@, n),
{
    match f {
        Features::Sparse(dim, acts) => {
            if *dim != n {
                return false;
            }
            let mut j: usize = 0;
            while j < acts.len()
                invariant
                    j <= acts@.len(),
                    f@ == FeaturesView::Sparse(n, acts@),
                    forall|i: int| 0 <= i < j ==> (#[trigger] acts@[i]).0 < n,
                decreases acts@.len() - j,
            {
                if acts[j].0 >= n {
                    assert(f@->Sparse_1 == acts@);
                    assert(acts@[j as int].0 >= n);
                    return false;
                }
                j += 1;
            }
            true
        },
        Features::Dense(vals) => vals.len() == n,
    }
}

/// The features `f` moved by `offset` into a vector of dimension `total`.
fn shift<N: Scalar>(f: &Features<N>, n: usize, offset: usize, total: usize) -> (r: Features<N>)
    requires
        fits(f@, n),
        offset + n <= usize::MAX,
    ensures
        r@ == shifted(f@, offset, total),
{
    let mut out: Vec<(usize, N)> = Vec::new();
    match f {
        Features::Sparse(_, acts) => {
            let mut k: usize = 0;
            while k < acts.len()
                invariant
                    k <= acts@.len(),
                    fits(f@, n),
                    f@ == FeaturesView::Sparse(n, acts@),
                    offset + n <= usize::MAX,
                    out@.len() == k,
                    forall|i: int|
                        0 <= i < k ==> out@[i] == ((acts@[i].0 + offset) as usize, acts@[i].1),
                decreases acts@.len() - k,
            {
                let pair = acts[k];
                assert(f@->Sparse_1 == acts@);
                assert(acts@[k as int].0 < n);
                out.push((pair.0 + offset, pair.1));
                k += 1;
            }
        },
        Features::Dense(vals) => {
            let mut k: usize = 0;
            while k < vals.len()
                invariant
                    k <= vals@.len(),
                    vals@.len() == n,
                    offset + n <= usize::MAX,
                    out@.len() == k,
                    forall|i: int| 0 <= i < k ==> out@[i] == ((i + offset) as usize, vals@[i]),
                decreases vals@.len() - k,
            {
                out.push((k + offset, vals[k]));
                k += 1;
            }
        },
    }
    let r = Features::Sparse(total, out);
    assert(r@->Sparse_1 =~= shifted(f@, offset, total)->Sparse_1);
    r
}

impl<N: Scalar> VectorLFA<N> {
    /// The estimator with the given features for each state and with zero
    /// weights for `n_actions` actions of `n_features` features each;
    /// nothing where that many weights cannot be counted.
    pub fn zeros(phi: Vec<Features<N>>, n_features: usize, n_actions: usize) -> (r: Option<Self>)
        ensures
            r is Some <==> n_features * n_actions <= usize::MAX,
            r matches Some(q) ==> q@.phi == Seq::new(phi@.len(), |s: int| phi@[s]@)
                && q@.n_features == n_features && q@.n_actions == n_actions && q@.weights
                == Seq::new((n_features * n_actions) as nat, |i: int| N::zero_spec()),
    {
        match n_features.checked_mul(n_actions) {
            Some(total) => {
                let mut weights: Vec<N> = Vec::new();
                let mut i: usize = 0;
                while i < total
                    invariant
                        i <= total,
                        weights@.len() == i,
                        forall|j: int| 0 <= j < i ==> weights@[j] == N::zero_spec(),
                    decreases total - i,
                {
                    weights.push(N::zero());
                    i += 1;
                }
                let q = VectorLFA { phi, weights, n_features, n_actions };
                assert(q@.weights =~= Seq::new(
                    (n_features * n_actions) as nat,
                    |i: int| N::zero_spec(),
                ));
                Some(q)
            },
            None => None,
        }
    }

    /// The weights, block by block.
    pub fn weights(&self) -> (w: &Vec<N>)
        ensures
            w@ == self@.weights,
    {
        &self.weights
    }

    /// Whether the weights hold one block for each action and `action` is one of them.
    fn check_block(&self, action: usize) -> (r: bool)
        ensures
            r == has_block(self@, action),
    {
        if action >= self.n_actions {
            return false;
        }
        assert(self.weights@.len() == self.weights.len());
        match self.n_features.checked_mul(self.n_actions) {
            Some(total) => total == self.weights.len(),
            None => false,
        }
    }

    /// The features `f` in the block of `action`.
    fn gradient_of(&self, f: &Features<N>, action: usize) -> (g: Features<N>)
        requires
            fits(f@, self@.n_features),
            has_block(self@, action),
        ensures
            g@ == block_gradient(self@, f@, action),
    {
        proof {
            assert(self.weights@.len() == self.weights.len());
            lemma_block_offset(action, self.n_features, self.n_actions);
            assert(action * self.n_features >= 0) by (nonlinear_arith)
                requires
                    action >= 0,
                    self.n_features >= 0,
            ;
        }
        shift(f, self.n_features, action * self.n_features, self.weights.len())
    }
}

impl<N: Scalar> Parameterised<N> for VectorLFA<N> {
    open spec fn weights_spec(model: BlockView<N>) -> Seq<N> {
        model.weights
    }

    open spec fn with_weights(model: BlockView<N>, w: Seq<N>) -> BlockView<N> {
        BlockView { weights: w, ..model }
    }

    open spec fn dim_spec(model: BlockView<N>) -> (usize, usize) {
        (model.n_features, model.n_actions)
    }

    proof fn lemma_with_weights(model: BlockView<N>, w: Seq<N>) {
    }

    fn weights_dim(&self) -> (d: (usize, usize)) {
        (self.n_features, self.n_actions)
    }

    fn weights_view(&self) -> (w: &Vec<N>) {
        &self.weights
    }

    fn weights_view_mut(&mut self) -> (w: &mut Vec<N>) {
        &mut self.weights
    }
}

impl<N: Scalar> StateActionFunction<usize, usize, N> for VectorLFA<N> {
    open spec fn in_domain(model: BlockView<N>, state: usize, action: usize) -> bool {
        &&& state < model.phi.len()
        &&& fits(model.phi[state as int], model.n_features)
        &&& has_block(model, action)
    }

    open spec fn value_spec(model: BlockView<N>, state: usize, action: usize) -> N {
        block_gradient(model, model.phi[state as int], action).dot(
            FeaturesView::Dense(model.weights),
        )
    }

    open spec fn update_spec(model: BlockView<N>, state: usize, action: usize, error: N) -> BlockView<
        N,
    > {
        BlockView {
            weights: block_gradient(model, model.phi[state as int], action).axpy(
                model.weights,
                error,
            ),
            ..model
        }
    }

    proof fn lemma_update_domain(
        model: BlockView<N>,
        state: usize,
        action: usize,
        error: N,
        s: usize,
        a: usize,
    ) {
        lemma_axpy_len(
            block_gradient(model, model.phi[state as int], action),
            model.weights,
            error,
        );
    }

    fn evaluate(&self, state: &usize, action: &usize) -> (r: N) {
        let g = self.gradient_of(&self.phi[*state], *action);
        g.dot_vec(&self.weights)
    }

    fn update_by_error(&mut self, state: &usize, action: &usize, error: N) {
        let g = self.gradient_of(&self.phi[*state], *action);
        g.scaled_addto(error, &mut self.weights);
    }
}

impl<N: Scalar> DifferentiableStateActionFunction<usize, usize, N> for VectorLFA<N> {
    open spec fn grad_spec(model: BlockView<N>, state: usize, action: usize) -> FeaturesView<N> {
        block_gradient(model, model.phi[state as int], action)
    }

    proof fn lemma_weights_domain(model: BlockView<N>, w: Seq<N>, state: usize, action: usize) {
    }

    fn grad(&self, state: &usize, action: &usize) -> (g: Features<N>) {
        self.gradient_of(&self.phi[*state], *action)
    }
}

impl<N: Scalar> EnumerableStateActionFunction<usize, N> for VectorLFA<N> {
    open spec fn n_actions_spec(model: BlockView<N>) -> usize {
        model.n_actions
    }

    open spec fn update_all_spec(model: BlockView<N>, state: usize, errors: Seq<N>) -> BlockView<N> {
        block_update_all(model, state, errors, errors.len())
    }

    proof fn lemma_update_actions(model: BlockView<N>, state: usize, action: usize, error: N) {
    }

    fn n_actions(&self) -> (n: usize) {
        self.n_actions
    }

    fn evaluate_all(&self, state: &usize) -> (r: Vec<N>) {
        let mut out: Vec<N> = Vec::new();
        let mut a: usize = 0;
        while a < self.n_actions
            invariant
                a <= self.n_actions,
                forall|b: usize|
                    b < Self::n_actions_spec(self@) ==> Self::in_domain(self@, *state, b),
                out@.len() == a,
                forall|b: int|
                    0 <= b < a ==> out@[b] == Self::value_spec(self@, *state, b as usize),
            decreases self.n_actions - a,
        {
            assert(Self::in_domain(self@, *state, a));
            out.push(self.evaluate(state, &a));
            a += 1;
        }
        assert(out@ =~= Seq::new(
            Self::n_actions_spec(self@) as nat,
            |a: int| Self::value_spec(self@, *state, a as usize),
        ));
        out
    }

    fn update_all_by_errors(&mut self, state: &usize, errors: Vec<N>) {
        let n = errors.len();
        let mut a: usize = 0;
        while a < n
            invariant
                a <= n,
                n == errors@.len(),
                n == Self::n_actions_spec(old(self)@),
                forall|b: usize|
                    b < Self::n_actions_spec(old(self)@) ==> Self::in_domain(
                        old(self)@,
                        *state,
                        b,
                    ),
                self@ == block_update_all(old(self)@, *state, errors@, a as nat),
            decreases n - a,
        {
            proof {
                lemma_block_update_all(old(self)@, *state, errors@, a as nat);
                assert(Self::in_domain(old(self)@, *state, a));
            }
            self.update_by_error(state, &a, errors[a]);
            a += 1;
        }
    }
}

impl<N: Scalar> EnumerableDifferentiableFunction<usize, N> for VectorLFA<N> {
    proof fn lemma_weights_actions(model: BlockView<N>, w: Seq<N>) {
    }
}

impl<N: Scalar> LinearStateActionFunction<usize, usize, N> for VectorLFA<N> {
    open spec fn n_features_spec(model: BlockView<N>) -> usize {
        model.n_features
    }

    open spec fn features_spec(model: BlockView<N>, state: usize, action: usize) -> FeaturesView<N> {
        model.phi[state as int]
    }

    open spec fn evaluate_features_spec(
        model: BlockView<N>,
        features: FeaturesView<N>,
        action: usize,
    ) -> N {
        if fits(features, model.n_features) && has_block(model, action) {
            block_gradient(model, features, action).dot(FeaturesView::Dense(model.weights))
        } else {
            N::zero_spec()
        }
    }

    open spec fn update_features_spec(
        model: BlockView<N>,
        features: FeaturesView<N>,
        action: usize,
        error: N,
    ) -> BlockView<N> {
        if fits(features, model.n_features) && has_block(model, action) {
            BlockView {
                weights: block_gradient(model, features, action).axpy(model.weights, error),
                ..model
            }
        } else {
            model
        }
    }

    proof fn lemma_n_features(model: BlockView<N>) {
    }

    proof fn lemma_update_features_domain(
        model: BlockView<N>,
        features: FeaturesView<N>,
        action: usize,
        error: N,
        s: usize,
        a: usize,
    ) {
        lemma_axpy_len(block_gradient(model, features, action), model.weights, error);
    }

    fn n_features(&self) -> (n: usize) {
        self.n_features
    }

    fn features(&self, state: &usize, action: &usize) -> (f: Features<N>) {
        self.phi[*state].copy()
    }

    fn evaluate_features(&self, features: &Features<N>, action: &usize) -> (r: N) {
        if check_fits(features, self.n_features) && self.check_block(*action) {
            let g = self.gradient_of(features, *action);
            g.dot_vec(&self.weights)
        } else {
            N::zero()
        }
    }

    fn update_features(&mut self, features: &Features<N>, action: &usize, error: N) {
        if check_fits(features, self.n_features) && self.check_block(*action) {
            let g = self.gradient_of(features, *action);
            g.scaled_addto(error, &mut self.weights);
        }
    }
}

} // verus!
