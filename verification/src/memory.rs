//! A handle for an estimator that serves in more than one role.
//!
//! The handle owns its value. Readers borrow it, the one writer borrows it
//! mutably, and the borrow rules keep a reader from ever seeing a value
//! half written.
use crate::fa::{
    DifferentiableStateActionFunction, DifferentiableStateFunction,
    EnumerableDifferentiableFunction, EnumerableStateActionFunction, LinearStateActionFunction,
    LinearStateFunction, Parameterised, StateActionFunction, StateFunction,
};
use crate::features::{Features, FeaturesView};
use crate::scalar::Scalar;
use vstd::prelude::*;

verus! {

/// A value behind a handle that offers read access and write access.
pub struct Shared<T> {
    value: T,
}

impl<T> Shared<T> {
    /// The value that the handle holds.
    pub closed spec fn get(&self) -> T {
        self.value
    }

    /// Read access to the value.
    pub fn borrow(&self) -> (r: &T)
        ensures
            *r == self.get(),
    {
        &self.value
    }

    /// Write access to the value.
    pub fn borrow_mut(&mut self) -> (r: &mut T)
        ensures
            *r == old(self).get(),
            final(self).get() == *final(r),
    {
        &mut self.value
    }

    /// Gives the value back.
    pub fn into_inner(self) -> (r: T)
        ensures
            r == self.get(),
    {
        self.value
    }
}

/// Puts a value behind a handle.
pub fn make_shared<T>(t: T) -> (r: Shared<T>)
    ensures
        r.get() == t,
{
    Shared { value: t }
}

impl<T: View> View for Shared<T> {
    type V = T::V;

    open spec fn view(&self) -> T::V {
        self.get()@
    }
}

impl<X, N: Scalar, V: StateFunction<X, N>> StateFunction<X, N> for Shared<V> {
    open spec fn in_domain(model: V::V, state: X) -> bool {
        V::in_domain(model, state)
    }

    open spec fn value_spec(model: V::V, state: X) -> N {
        V::value_spec(model, state)
    }

    open spec fn update_spec(model: V::V, state: X, error: N) -> V::V {
        V::update_spec(model, state, error)
    }

    proof fn lemma_update_domain(model: V::V, state: X, error: N, other: X) {
        V::lemma_update_domain(model, state, error, other);
    }

    fn evaluate(&self, state: &X) -> (r: N) {
        self.value.evaluate(state)
    }

    fn update(&mut self, state: &X, error: N) {
        self.value.update(state, error);
    }
}

impl<X, U, N: Scalar, Q: StateActionFunction<X, U, N>> StateActionFunction<X, U, N> for Shared<Q> {
    open spec fn in_domain(model: Q::V, state: X, action: U) -> bool {
        Q::in_domain(model, state, action)
    }

    open spec fn value_spec(model: Q::V, state: X, action: U) -> N {
        Q::value_spec(model, state, action)
    }

    open spec fn update_spec(model: Q::V, state: X, action: U, error: N) -> Q::V {
        Q::update_spec(model, state, action, error)
    }

    proof fn lemma_update_domain(model: Q::V, state: X, action: U, error: N, s: X, a: U) {
        Q::lemma_update_domain(model, state, action, error, s, a);
    }

    fn evaluate(&self, state: &X, action: &U) -> (r: N) {
        self.value.evaluate(state, action)
    }

    fn update_by_error(&mut self, state: &X, action: &U, error: N) {
        self.value.update_by_error(state, action, error);
    }

    fn update(&mut self, state: &X, action: &U, value: N, estimate: N, learning_rate: N) {
        self.value.update(state, action, value, estimate, learning_rate);
    }
}

impl<X, N: Scalar, Q: EnumerableStateActionFunction<X, N>> EnumerableStateActionFunction<
    X,
    N,
> for Shared<Q> {
    open spec fn n_actions_spec(model: Q::V) -> usize {
        Q::n_actions_spec(model)
    }

    open spec fn update_all_spec(model: Q::V, state: X, errors: Seq<N>) -> Q::V {
        Q::update_all_spec(model, state, errors)
    }

    proof fn lemma_update_actions(model: Q::V, state: X, action: usize, error: N) {
        Q::lemma_update_actions(model, state, action, error);
    }

    fn n_actions(&self) -> (n: usize) {
        self.value.n_actions()
    }

    fn evaluate_all(&self, state: &X) -> (r: Vec<N>) {
        assert forall|a: usize| a < Q::n_actions_spec(self.value@) implies Q::in_domain(
            self.value@,
            *state,
            a,
        ) by {
            assert(Self::in_domain(self@, *state, a));
        }
        let r = self.value.evaluate_all(state);
        assert(r@ =~= Seq::new(
            Self::n_actions_spec(self@) as nat,
            |a: int| Self::value_spec(self@, *state, a as usize),
        ));
        r
    }

    fn update_all_by_errors(&mut self, state: &X, errors: Vec<N>) {
        assert forall|a: usize| a < Q::n_actions_spec(self.value@) implies Q::in_domain(
            self.value@,
            *state,
            a,
        ) by {
            assert(Self::in_domain(self@, *state, a));
        }
        self.value.update_all_by_errors(state, errors);
    }
}

impl<N: Scalar, F: Parameterised<N>> Parameterised<N> for Shared<F> {
    open spec fn weights_spec(model: F::V) -> Seq<N> {
        F::weights_spec(model)
    }

    open spec fn with_weights(model: F::V, w: Seq<N>) -> F::V {
        F::with_weights(model, w)
    }

    open spec fn dim_spec(model: F::V) -> (usize, usize) {
        F::dim_spec(model)
    }

    proof fn lemma_with_weights(model: F::V, w: Seq<N>) {
        F::lemma_with_weights(model, w);
    }

    fn weights_dim(&self) -> (d: (usize, usize)) {
        self.value.weights_dim()
    }

    fn weights_view(&self) -> (w: &Vec<N>) {
        self.value.weights_view()
    }

    fn weights_view_mut(&mut self) -> (w: &mut Vec<N>) {
        self.value.weights_view_mut()
    }
}

impl<X, N: Scalar, F: DifferentiableStateFunction<X, N>> DifferentiableStateFunction<
    X,
    N,
> for Shared<F> {
    open spec fn grad_spec(model: F::V, state: X) -> FeaturesView<N> {
        F::grad_spec(model, state)
    }

    proof fn lemma_weights_domain(model: F::V, w: Seq<N>, state: X) {
        F::lemma_weights_domain(model, w, state);
    }

    proof fn lemma_update_shape(model: F::V, state: X, error: N) {
        F::lemma_update_shape(model, state, error);
    }

    fn grad(&self, state: &X) -> (g: Features<N>) {
        self.value.grad(state)
    }
}

impl<X, U, N: Scalar, F: DifferentiableStateActionFunction<
    X,
    U,
    N,
>> DifferentiableStateActionFunction<X, U, N> for Shared<F> {
    open spec fn grad_spec(model: F::V, state: X, action: U) -> FeaturesView<N> {
        F::grad_spec(model, state, action)
    }

    proof fn lemma_weights_domain(model: F::V, w: Seq<N>, state: X, action: U) {
        F::lemma_weights_domain(model, w, state, action);
    }

    fn grad(&self, state: &X, action: &U) -> (g: Features<N>) {
        self.value.grad(state, action)
    }
}

impl<X, N: Scalar, F: EnumerableDifferentiableFunction<X, N>> EnumerableDifferentiableFunction<
    X,
    N,
> for Shared<F> {
    proof fn lemma_weights_actions(model: F::V, w: Seq<N>) {
        F::lemma_weights_actions(model, w);
    }
}

impl<X, N: Scalar, F: LinearStateFunction<X, N>> LinearStateFunction<X, N> for Shared<F> {
    open spec fn n_features_spec(model: F::V) -> usize {
        F::n_features_spec(model)
    }

    open spec fn features_spec(model: F::V, state: X) -> FeaturesView<N> {
        F::features_spec(model, state)
    }

    open spec fn evaluate_features_spec(model: F::V, features: FeaturesView<N>) -> N {
        F::evaluate_features_spec(model, features)
    }

    open spec fn update_features_spec(model: F::V, features: FeaturesView<N>, error: N) -> F::V {
        F::update_features_spec(model, features, error)
    }

    proof fn lemma_n_features(model: F::V) {
        F::lemma_n_features(model);
    }

    proof fn lemma_update_features_domain(
        model: F::V,
        features: FeaturesView<N>,
        error: N,
        state: X,
    ) {
        F::lemma_update_features_domain(model, features, error, state);
    }

    fn n_features(&self) -> (n: usize) {
        self.value.n_features()
    }

    fn features(&self, state: &X) -> (f: Features<N>) {
        self.value.features(state)
    }

    fn evaluate_features(&self, features: &Features<N>) -> (r: N) {
        self.value.evaluate_features(features)
    }

    fn update_features(&mut self, features: &Features<N>, error: N) {
        self.value.update_features(features, error);
    }
}

impl<X, U, N: Scalar, F: LinearStateActionFunction<X, U, N>> LinearStateActionFunction<
    X,
    U,
    N,
> for Shared<F> {
    open spec fn n_features_spec(model: F::V) -> usize {
        F::n_features_spec(model)
    }

    open spec fn features_spec(model: F::V, state: X, action: U) -> FeaturesView<N> {
        F::features_spec(model, state, action)
    }

    open spec fn evaluate_features_spec(model: F::V, features: FeaturesView<N>, action: U) -> N {
        F::evaluate_features_spec(model, features, action)
    }

    open spec fn update_features_spec(
        model: F::V,
        features: FeaturesView<N>,
        action: U,
        error: N,
    ) -> F::V {
        F::update_features_spec(model, features, action, error)
    }

    proof fn lemma_n_features(model: F::V) {
        F::lemma_n_features(model);
    }

    proof fn lemma_update_features_domain(
        model: F::V,
        features: FeaturesView<N>,
        action: U,
        error: N,
        s: X,
        a: U,
    ) {
        F::lemma_update_features_domain(model, features, action, error, s, a);
    }

    fn n_features(&self) -> (n: usize) {
        self.value.n_features()
    }

    fn features(&self, state: &X, action: &U) -> (f: Features<N>) {
        self.value.features(state, action)
    }

    fn evaluate_features(&self, features: &Features<N>, action: &U) -> (r: N) {
        self.value.evaluate_features(features, action)
    }

    fn update_features(&mut self, features: &Features<N>, action: &U, error: N) {
        self.value.update_features(features, action, error);
    }
}

} // verus!
