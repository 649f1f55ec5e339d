//! The function-approximation contract: what a learner may ask of a value
//! function, layered by capability.
//!
//! Every approximator has a mathematical model, its view. The `*_spec`
//! functions of a trait say, over that model, what each method returns and
//! what model it leaves behind.
use crate::features::{Features, FeaturesView};
use crate::scalar::{Fixed, Scalar};
use vstd::prelude::*;

verus! {

/// Index of the greatest of the leading `k` values; among values of which
/// none is less than another, the lowest index.
pub open spec fn argmax_spec<N: Scalar>(values: Seq<N>, k: nat) -> int
    decreases k,
{
    if k <= 1 {
        0
    } else {
        let best = argmax_spec(values, (k - 1) as nat);
        if values[best].lt_spec(values[k - 1]) {
            k - 1
        } else {
            best
        }
    }
}

/// Index of the least of the leading `k` values; among values of which
/// none is less than another, the lowest index.
pub open spec fn argmin_spec<N: Scalar>(values: Seq<N>, k: nat) -> int
    decreases k,
{
    if k <= 1 {
        0
    } else {
        let best = argmin_spec(values, (k - 1) as nat);
        if values[k - 1].lt_spec(values[best]) {
            k - 1
        } else {
            best
        }
    }
}

/// `lt_spec` orders the values strictly and weakly: nothing is less than
/// itself, less-than is transitive, and so is being less in neither direction.
pub open spec fn strictly_weakly_ordered<N: Scalar>(values: Seq<N>) -> bool {
    &&& forall|a: int| 0 <= a < values.len() ==> !(#[trigger] values[a]).lt_spec(values[a])
    &&& forall|a: int, b: int, c: int|
        0 <= a < values.len() && 0 <= b < values.len() && 0 <= c < values.len() && (
        #[trigger] values[a]).lt_spec(#[trigger] values[b]) && values[b].lt_spec(
            #[trigger] values[c],
        ) ==> values[a].lt_spec(values[c])
    &&& forall|a: int, b: int, c: int|
        0 <= a < values.len() && 0 <= b < values.len() && 0 <= c < values.len() && (
        #[trigger] values[a]).lt_spec(#[trigger] values[c]) ==> values[a].lt_spec(
            #[trigger] values[b],
        ) || values[b].lt_spec(values[c])
}

/// The index that `argmax_spec` picks lies among the leading `k`, and no
/// later value among them exceeds the one it points to: a tie never moves
/// the choice to the right.
pub proof fn lemma_argmax_keeps_leftmost<N: Scalar>(values: Seq<N>, k: nat)
    requires
        0 < k <= values.len(),
    ensures
        0 <= argmax_spec(values, k) < k,
        forall|j: int|
            argmax_spec(values, k) < j < k ==> !values[argmax_spec(values, k)].lt_spec(
                #[trigger] values[j],
            ),
    decreases k,
{
    if k > 1 {
        lemma_argmax_keeps_leftmost(values, (k - 1) as nat);
    }
}

/// The index that `argmin_spec` picks lies among the leading `k`, and no
/// later value among them is below the one it points to.
pub proof fn lemma_argmin_keeps_leftmost<N: Scalar>(values: Seq<N>, k: nat)
    requires
        0 < k <= values.len(),
    ensures
        0 <= argmin_spec(values, k) < k,
        forall|j: int|
            argmin_spec(values, k) < j < k ==> !(#[trigger] values[j]).lt_spec(
                values[argmin_spec(values, k)],
            ),
    decreases k,
{
    if k > 1 {
        lemma_argmin_keeps_leftmost(values, (k - 1) as nat);
    }
}

/// Where the values are strictly weakly ordered, `argmax_spec` picks the
/// lowest index of a greatest value: nothing exceeds the value it points
/// to, and everything before it is strictly less.
pub proof fn lemma_argmax_is_first_maximum<N: Scalar>(values: Seq<N>, k: nat)
    requires
        0 < k <= values.len(),
        strictly_weakly_ordered(values),
    ensures
        0 <= argmax_spec(values, k) < k,
        forall|j: int|
            0 <= j < k ==> !values[argmax_spec(values, k)].lt_spec(#[trigger] values[j]),
        forall|j: int|
            0 <= j < argmax_spec(values, k) ==> (#[trigger] values[j]).lt_spec(
                values[argmax_spec(values, k)],
            ),
    decreases k,
{
    if k > 1 {
        lemma_argmax_is_first_maximum(values, (k - 1) as nat);
        let prev = argmax_spec(values, (k - 1) as nat);
        let best = argmax_spec(values, k);
        if values[prev].lt_spec(values[k - 1]) {
            assert forall|j: int| 0 <= j < k implies !values[best].lt_spec(
                #[trigger] values[j],
            ) by {
                if j < k - 1 && values[best].lt_spec(values[j]) {
                    assert(values[prev].lt_spec(values[j]));
                }
            }
            assert forall|j: int| 0 <= j < best implies (#[trigger] values[j]).lt_spec(
                values[best],
            ) by {
                assert(values[prev].lt_spec(values[j]) || values[j].lt_spec(values[k - 1]));
            }
        }
    }
}

/// Where the values are strictly weakly ordered, `argmin_spec` picks the
/// lowest index of a least value.
pub proof fn lemma_argmin_is_first_minimum<N: Scalar>(values: Seq<N>, k: nat)
    requires
        0 < k <= values.len(),
        strictly_weakly_ordered(values),
    ensures
        0 <= argmin_spec(values, k) < k,
        forall|j: int|
            0 <= j < k ==> !(#[trigger] values[j]).lt_spec(values[argmin_spec(values, k)]),
        forall|j: int|
            0 <= j < argmin_spec(values, k) ==> values[argmin_spec(values, k)].lt_spec(
                #[trigger] values[j],
            ),
    decreases k,
{
    if k > 1 {
        lemma_argmin_is_first_minimum(values, (k - 1) as nat);
        let prev = argmin_spec(values, (k - 1) as nat);
        let best = argmin_spec(values, k);
        if values[k - 1].lt_spec(values[prev]) {
            assert forall|j: int| 0 <= j < k implies !(#[trigger] values[j]).lt_spec(
                values[best],
            ) by {
                if j < k - 1 && values[j].lt_spec(values[best]) {
                    assert(values[j].lt_spec(values[prev]));
                }
            }
            assert forall|j: int| 0 <= j < best implies values[best].lt_spec(
                #[trigger] values[j],
            ) by {
                assert(values[k - 1].lt_spec(values[j]) || values[j].lt_spec(values[prev]));
            }
        }
    }
}

/// Fixed-point numbers are strictly weakly ordered, so among them
/// `argmax_spec` and `argmin_spec` pick the lowest index of a greatest and
/// of a least value.
pub proof fn lemma_fixed_is_ordered(values: Seq<Fixed>)
    ensures
        strictly_weakly_ordered(values),
{
}

/// Index and value of the greatest entry, the lowest index on ties.
pub fn argmax<N: Scalar>(values: &Vec<N>) -> (r: (usize, N))
    requires
        values@.len() > 0,
    ensures
        r.0 == argmax_spec(values@, values@.len()),
        r.0 < values@.len(),
        r.1 == values@[r.0 as int],
        forall|j: int| r.0 < j < values@.len() ==> !r.1.lt_spec(#[trigger] values@[j]),
{
    let mut best: usize = 0;
    let mut k: usize = 1;
    while k < values.len()
        invariant
            1 <= k <= values@.len(),
            best == argmax_spec(values@, k as nat),
            best < k,
        decreases values@.len() - k,
    {
        if values[best].lt(values[k]) {
            best = k;
        }
        k += 1;
    }
    proof {
        lemma_argmax_keeps_leftmost(values@, values@.len());
    }
    (best, values[best])
}

/// Index and value of the least entry, the lowest index on ties.
pub fn argmin<N: Scalar>(values: &Vec<N>) -> (r: (usize, N))
    requires
        values@.len() > 0,
    ensures
        r.0 == argmin_spec(values@, values@.len()),
        r.0 < values@.len(),
        r.1 == values@[r.0 as int],
        forall|j: int| r.0 < j < values@.len() ==> !(#[trigger] values@[j]).lt_spec(r.1),
{
    let mut best: usize = 0;
    let mut k: usize = 1;
    while k < values.len()
        invariant
            1 <= k <= values@.len(),
            best == argmin_spec(values@, k as nat),
            best < k,
        decreases values@.len() - k,
    {
        if values[k].lt(values[best]) {
            best = k;
        }
        k += 1;
    }
    proof {
        lemma_argmin_keeps_leftmost(values@, values@.len());
    }
    (best, values[best])
}

/// Errors of a whole row of estimates: `rate * (values[i] - estimates[i])`
/// for each of the values.
pub open spec fn scaled_errors<N: Scalar>(values: Seq<N>, estimates: Seq<N>, rate: N) -> Seq<N> {
    Seq::new(values.len(), |i: int| rate.mul_spec(values[i].sub_spec(estimates[i])))
}

/// An approximator with a weight vector that can be read and rewritten.
pub trait Parameterised<N: Scalar>: View + Sized {
    /// The weights of a model, flattened.
    spec fn weights_spec(model: Self::V) -> Seq<N>;

    /// The model with its weights replaced by `w`.
    spec fn with_weights(model: Self::V, w: Seq<N>) -> Self::V;

    /// Rows and columns of the weight matrix.
    spec fn dim_spec(model: Self::V) -> (usize, usize);

    /// Replacing the weights by as many others gives a model that holds
    /// them and has the shape of the first; replacing them by themselves
    /// gives the model back.
    proof fn lemma_with_weights(model: Self::V, w: Seq<N>)
        requires
            w.len() == Self::weights_spec(model).len(),
        ensures
            Self::weights_spec(Self::with_weights(model, w)) == w,
            Self::dim_spec(Self::with_weights(model, w)) == Self::dim_spec(model),
            Self::with_weights(model, Self::weights_spec(model)) == model,
    ;

    /// Rows and columns of the weight matrix.
    fn weights_dim(&self) -> (d: (usize, usize))
        ensures
            d == Self::dim_spec(self@),
    ;

    /// Read access to the weights.
    fn weights_view(&self) -> (w: &Vec<N>)
        ensures
            w@ == Self::weights_spec(self@),
    ;

    /// Write access to the weights: what the caller leaves in them is what
    /// the approximator then holds.
    fn weights_view_mut(&mut self) -> (w: &mut Vec<N>)
        ensures
            w@ == Self::weights_spec(old(self)@),
            final(self)@ == Self::with_weights(old(self)@, final(w)@),
    ;
}

/// An estimator of the value of a state.
pub trait StateFunction<X, N: Scalar>: View + Sized {
    /// The states that a model can be asked about.
    spec fn in_domain(model: Self::V, state: X) -> bool;

    /// The value that a model gives a state.
    spec fn value_spec(model: Self::V, state: X) -> N;

    /// The model after an error has been applied at a state.
    spec fn update_spec(model: Self::V, state: X, error: N) -> Self::V;

    /// An update leaves the domain as it was.
    proof fn lemma_update_domain(model: Self::V, state: X, error: N, other: X)
        requires
            Self::in_domain(model, state),
        ensures
            Self::in_domain(Self::update_spec(model, state, error), other) == Self::in_domain(
                model,
                other,
            ),
    ;

    /// The estimated value of a state.
    fn evaluate(&self, state: &X) -> (r: N)
        requires
            Self::in_domain(self@, *state),
        ensures
            r == Self::value_spec(self@, *state),
    ;

    /// Applies an error that the caller has already scaled by its rate.
    fn update(&mut self, state: &X, error: N)
        requires
            Self::in_domain(old(self)@, *state),
        ensures
            final(self)@ == Self::update_spec(old(self)@, *state, error),
    ;
}

/// A state-value estimator with a gradient in the space of its weights.
pub trait DifferentiableStateFunction<X, N: Scalar>: StateFunction<X, N> + Parameterised<N> {
    /// The gradient of the value of a state with respect to the weights.
    spec fn grad_spec(model: Self::V, state: X) -> FeaturesView<N>;

    /// Other weights of the same number leave the domain as it was.
    proof fn lemma_weights_domain(model: Self::V, w: Seq<N>, state: X)
        requires
            w.len() == Self::weights_spec(model).len(),
        ensures
            Self::in_domain(Self::with_weights(model, w), state) == Self::in_domain(model, state),
    ;

    /// An update at a state leaves the shape of the weights as it was.
    proof fn lemma_update_shape(model: Self::V, state: X, error: N)
        requires
            Self::in_domain(model, state),
        ensures
            Self::dim_spec(Self::update_spec(model, state, error)) == Self::dim_spec(model),
    ;

    /// The gradient of the value of a state, in the space of the weights.
    fn grad(&self, state: &X) -> (g: Features<N>)
        requires
            Self::in_domain(self@, *state),
        ensures
            g@ == Self::grad_spec(self@, *state),
    ;

    /// Adds a gradient to the weights.
    fn update_grad(&mut self, grad: &Features<N>)
        ensures
            final(self)@ == Self::with_weights(
                old(self)@,
                grad@.added_to(Self::weights_spec(old(self)@)),
            ),
    {
        grad.addto(self.weights_view_mut());
    }

    /// Adds `factor` times a gradient to the weights.
    fn update_grad_scaled(&mut self, grad: &Features<N>, factor: N)
        ensures
            final(self)@ == Self::with_weights(
                old(self)@,
                grad@.axpy(Self::weights_spec(old(self)@), factor),
            ),
    {
        grad.scaled_addto(factor, self.weights_view_mut());
    }
}

/// An estimator of the value of an action in a state.
pub trait StateActionFunction<X, U, N: Scalar>: View + Sized {
    /// The state-action pairs that a model can be asked about.
    spec fn in_domain(model: Self::V, state: X, action: U) -> bool;

    /// The value that a model gives an action in a state.
    spec fn value_spec(model: Self::V, state: X, action: U) -> N;

    /// The model after an error has been applied at a state and action.
    spec fn update_spec(model: Self::V, state: X, action: U, error: N) -> Self::V;

    /// An update leaves the domain as it was.
    proof fn lemma_update_domain(model: Self::V, state: X, action: U, error: N, s: X, a: U)
        requires
            Self::in_domain(model, state, action),
        ensures
            Self::in_domain(Self::update_spec(model, state, action, error), s, a)
                == Self::in_domain(model, s, a),
    ;

    /// The estimated value of an action in a state.
    fn evaluate(&self, state: &X, action: &U) -> (r: N)
        requires
            Self::in_domain(self@, *state, *action),
        ensures
            r == Self::value_spec(self@, *state, *action),
    ;

    /// Applies an error that the caller has already scaled by its rate.
    fn update_by_error(&mut self, state: &X, action: &U, error: N)
        requires
            Self::in_domain(old(self)@, *state, *action),
        ensures
            final(self)@ == Self::update_spec(old(self)@, *state, *action, error),
    ;

    /// Moves the estimate toward an observed value: applies the error
    /// `learning_rate * (value - estimate)`.
    fn update(&mut self, state: &X, action: &U, value: N, estimate: N, learning_rate: N)
        requires
            Self::in_domain(old(self)@, *state, *action),
        ensures
            final(self)@ == Self::update_spec(
                old(self)@,
                *state,
                *action,
                learning_rate.mul_spec(value.sub_spec(estimate)),
            ),
    {
        let error = learning_rate.mul(value.sub(estimate));
        self.update_by_error(state, action, error);
    }
}

/// An action-value estimator with a gradient in the space of its weights.
pub trait DifferentiableStateActionFunction<X, U, N: Scalar>: StateActionFunction<
    X,
    U,
    N,
> + Parameterised<N> {
    /// The gradient of the value of an action in a state with respect to
    /// the weights.
    spec fn grad_spec(model: Self::V, state: X, action: U) -> FeaturesView<N>;

    /// Other weights of the same number leave the domain as it was.
    proof fn lemma_weights_domain(model: Self::V, w: Seq<N>, state: X, action: U)
        requires
            w.len() == Self::weights_spec(model).len(),
        ensures
            Self::in_domain(Self::with_weights(model, w), state, action) == Self::in_domain(
                model,
                state,
                action,
            ),
    ;

    /// The gradient of the value of an action in a state, in the space of
    /// the weights.
    fn grad(&self, state: &X, action: &U) -> (g: Features<N>)
        requires
            Self::in_domain(self@, *state, *action),
        ensures
            g@ == Self::grad_spec(self@, *state, *action),
    ;

    /// Adds a gradient to the weights.
    fn update_grad(&mut self, grad: &Features<N>)
        ensures
            final(self)@ == Self::with_weights(
                old(self)@,
                grad@.added_to(Self::weights_spec(old(self)@)),
            ),
    {
        grad.addto(self.weights_view_mut());
    }

    /// Adds `factor` times a gradient to the weights.
    fn update_grad_scaled(&mut self, grad: &Features<N>, factor: N)
        ensures
            final(self)@ == Self::with_weights(
                old(self)@,
                grad@.axpy(Self::weights_spec(old(self)@), factor),
            ),
    {
        grad.scaled_addto(factor, self.weights_view_mut());
    }
}

/// An action-value estimator over the actions `0..n`.
pub trait EnumerableStateActionFunction<X, N: Scalar>: StateActionFunction<X, usize, N> {
    /// Number of actions.
    spec fn n_actions_spec(model: Self::V) -> usize;

    /// The model after one error has been applied to each action in a state.
    spec fn update_all_spec(model: Self::V, state: X, errors: Seq<N>) -> Self::V;

    /// Neither kind of update changes the number of actions.
    proof fn lemma_update_actions(model: Self::V, state: X, action: usize, error: N)
        requires
            Self::in_domain(model, state, action),
        ensures
            Self::n_actions_spec(Self::update_spec(model, state, action, error))
                == Self::n_actions_spec(model),
    ;

    /// Number of actions.
    fn n_actions(&self) -> (n: usize)
        ensures
            n == Self::n_actions_spec(self@),
    ;

    /// The estimated value of every action in a state, in order.
    fn evaluate_all(&self, state: &X) -> (r: Vec<N>)
        requires
            forall|a: usize| a < Self::n_actions_spec(self@) ==> Self::in_domain(self@, *state, a),
        ensures
            r@ == Seq::new(
                Self::n_actions_spec(self@) as nat,
                |a: int| Self::value_spec(self@, *state, a as usize),
            ),
    ;

    /// Applies one already scaled error to each action.
    fn update_all_by_errors(&mut self, state: &X, errors: Vec<N>)
        requires
            forall|a: usize|
                a < Self::n_actions_spec(old(self)@) ==> Self::in_domain(old(self)@, *state, a),
            errors@.len() == Self::n_actions_spec(old(self)@),
        ensures
            final(self)@ == Self::update_all_spec(old(self)@, *state, errors@),
    ;

    /// Moves every estimate toward its observed value: applies the errors
    /// `learning_rate * (values[i] - estimates[i])`.
    fn update_all(&mut self, state: &X, values: Vec<N>, estimates: Vec<N>, learning_rate: N)
        requires
            forall|a: usize|
                a < Self::n_actions_spec(old(self)@) ==> Self::in_domain(old(self)@, *state, a),
            values@.len() == Self::n_actions_spec(old(self)@),
            estimates@.len() >= values@.len(),
        ensures
            final(self)@ == Self::update_all_spec(
                old(self)@,
                *state,
                scaled_errors(values@, estimates@, learning_rate),
            ),
    {
        let mut errors: Vec<N> = Vec::with_capacity(values.len());
        let mut i: usize = 0;
        while i < values.len()
            invariant
                i <= values@.len(),
                estimates@.len() >= values@.len(),
                errors@.len() == i,
                forall|j: int|
                    0 <= j < i ==> errors@[j] == learning_rate.mul_spec(
                        values@[j].sub_spec(estimates@[j]),
                    ),
            decreases values@.len() - i,
        {
            errors.push(learning_rate.mul(values[i].sub(estimates[i])));
            i += 1;
        }
        assert(errors@ =~= scaled_errors(values@, estimates@, learning_rate));
        self.update_all_by_errors(state, errors);
    }

    /// The action of least value in a state and that value; among actions of
    /// which none is less than another, the lowest.
    fn find_min(&self, state: &X) -> (r: (usize, N))
        requires
            forall|a: usize| a < Self::n_actions_spec(self@) ==> Self::in_domain(self@, *state, a),
            Self::n_actions_spec(self@) > 0,
        ensures
            r.0 == argmin_spec(Seq::new(
                Self::n_actions_spec(self@) as nat,
                |a: int| Self::value_spec(self@, *state, a as usize),
            ), Self::n_actions_spec(self@) as nat),
            r.0 < Self::n_actions_spec(self@),
            r.1 == Self::value_spec(self@, *state, r.0),
            forall|a: usize|
                r.0 < a < Self::n_actions_spec(self@) ==> !(#[trigger] Self::value_spec(
                    self@,
                    *state,
                    a,
                )).lt_spec(r.1),
    {
        let values = self.evaluate_all(state);
        let r = argmin(&values);
        assert forall|a: usize| r.0 < a < Self::n_actions_spec(self@) implies !(
        #[trigger] Self::value_spec(self@, *state, a)).lt_spec(r.1) by {
            assert(values@[a as int] == Self::value_spec(self@, *state, a));
        }
        r
    }

    /// The action of greatest value in a state and that value; among actions
    /// of which none is less than another, the lowest.
    fn find_max(&self, state: &X) -> (r: (usize, N))
        requires
            forall|a: usize| a < Self::n_actions_spec(self@) ==> Self::in_domain(self@, *state, a),
            Self::n_actions_spec(self@) > 0,
        ensures
            r.0 == argmax_spec(Seq::new(
                Self::n_actions_spec(self@) as nat,
                |a: int| Self::value_spec(self@, *state, a as usize),
            ), Self::n_actions_spec(self@) as nat),
            r.0 < Self::n_actions_spec(self@),
            r.1 == Self::value_spec(self@, *state, r.0),
            forall|a: usize|
                r.0 < a < Self::n_actions_spec(self@) ==> !r.1.lt_spec(
                    #[trigger] Self::value_spec(self@, *state, a),
                ),
    {
        let values = self.evaluate_all(state);
        let r = argmax(&values);
        assert forall|a: usize| r.0 < a < Self::n_actions_spec(self@) implies !r.1.lt_spec(
            #[trigger] Self::value_spec(self@, *state, a),
        ) by {
            assert(values@[a as int] == Self::value_spec(self@, *state, a));
        }
        r
    }
}

/// The values of every action in a state, in order.
pub open spec fn action_values<X, N: Scalar, Q: EnumerableStateActionFunction<X, N>>(
    model: Q::V,
    state: X,
) -> Seq<N> {
    Seq::new(Q::n_actions_spec(model) as nat, |a: int| Q::value_spec(model, state, a as usize))
}

/// Every action can be asked about in this state.
pub open spec fn covers<X, N: Scalar, Q: EnumerableStateActionFunction<X, N>>(
    model: Q::V,
    state: X,
) -> bool {
    forall|a: usize| a < Q::n_actions_spec(model) ==> Q::in_domain(model, state, a)
}

/// An action-value estimator over the actions `0..n` whose weights a
/// gradient can move: other weights leave the number of actions as it was.
pub trait EnumerableDifferentiableFunction<X, N: Scalar>: EnumerableStateActionFunction<
    X,
    N,
> + DifferentiableStateActionFunction<X, usize, N> {
    /// Other weights of the same number leave the number of actions as it was.
    proof fn lemma_weights_actions(model: Self::V, w: Seq<N>)
        requires
            w.len() == Self::weights_spec(model).len(),
        ensures
            Self::n_actions_spec(Self::with_weights(model, w)) == Self::n_actions_spec(model),
    ;
}

/// The greedy action in a state: the lowest action of greatest value.
pub open spec fn greedy_action<X, N: Scalar, Q: EnumerableStateActionFunction<X, N>>(
    model: Q::V,
    state: X,
) -> usize {
    argmax_spec(action_values::<X, N, Q>(model, state), Q::n_actions_spec(model) as nat) as usize
}

/// A state-value estimator that is linear in the features of the state.
pub trait LinearStateFunction<X, N: Scalar>: DifferentiableStateFunction<X, N> {
    /// Number of features.
    spec fn n_features_spec(model: Self::V) -> usize;

    /// The features of a state.
    spec fn features_spec(model: Self::V, state: X) -> FeaturesView<N>;

    /// The value that a model gives to features.
    spec fn evaluate_features_spec(model: Self::V, features: FeaturesView<N>) -> N;

    /// The model after an error has been applied along features.
    spec fn update_features_spec(model: Self::V, features: FeaturesView<N>, error: N) -> Self::V;

    /// The number of features is the number of rows of the weights.
    proof fn lemma_n_features(model: Self::V)
        ensures
            Self::n_features_spec(model) == Self::dim_spec(model).0,
    ;

    /// An update along features leaves the domain as it was.
    proof fn lemma_update_features_domain(
        model: Self::V,
        features: FeaturesView<N>,
        error: N,
        state: X,
    )
        ensures
            Self::in_domain(Self::update_features_spec(model, features, error), state)
                == Self::in_domain(model, state),
    ;

    /// Number of features.
    fn n_features(&self) -> (n: usize)
        ensures
            n == Self::n_features_spec(self@),
    ;

    /// The features of a state, of the dimension that `n_features` gives.
    fn features(&self, state: &X) -> (f: Features<N>)
        requires
            Self::in_domain(self@, *state),
        ensures
            f@ == Self::features_spec(self@, *state),
            f@.dim() == Self::n_features_spec(self@),
    ;

    /// The value of features that the caller has computed.
    fn evaluate_features(&self, features: &Features<N>) -> (r: N)
        ensures
            r == Self::evaluate_features_spec(self@, features@),
    ;

    /// Applies an error along features that the caller has computed.
    fn update_features(&mut self, features: &Features<N>, error: N)
        ensures
            final(self)@ == Self::update_features_spec(old(self)@, features@, error),
    ;
}

/// An action-value estimator that is linear in the features of the state.
pub trait LinearStateActionFunction<X, U, N: Scalar>: DifferentiableStateActionFunction<
    X,
    U,
    N,
> {
    /// Number of features.
    spec fn n_features_spec(model: Self::V) -> usize;

    /// The features of a state for an action.
    spec fn features_spec(model: Self::V, state: X, action: U) -> FeaturesView<N>;

    /// The value that a model gives to features for an action.
    spec fn evaluate_features_spec(model: Self::V, features: FeaturesView<N>, action: U) -> N;

    /// The model after an error has been applied along features for an action.
    spec fn update_features_spec(
        model: Self::V,
        features: FeaturesView<N>,
        action: U,
        error: N,
    ) -> Self::V;

    /// The number of features is the number of rows of the weights.
    proof fn lemma_n_features(model: Self::V)
        ensures
            Self::n_features_spec(model) == Self::dim_spec(model).0,
    ;

    /// An update along features leaves the domain and the number of
    /// features as they were.
    proof fn lemma_update_features_domain(
        model: Self::V,
        features: FeaturesView<N>,
        action: U,
        error: N,
        s: X,
        a: U,
    )
        ensures
            Self::in_domain(Self::update_features_spec(model, features, action, error), s, a)
                == Self::in_domain(model, s, a),
            Self::n_features_spec(Self::update_features_spec(model, features, action, error))
                == Self::n_features_spec(model),
    ;

    /// Number of features.
    fn n_features(&self) -> (n: usize)
        ensures
            n == Self::n_features_spec(self@),
    ;

    /// The features of a state for an action, of the dimension that
    /// `n_features` gives.
    fn features(&self, state: &X, action: &U) -> (f: Features<N>)
        requires
            Self::in_domain(self@, *state, *action),
        ensures
            f@ == Self::features_spec(self@, *state, *action),
            f@.dim() == Self::n_features_spec(self@),
    ;

    /// The value of features that the caller has computed, for an action.
    fn evaluate_features(&self, features: &Features<N>, action: &U) -> (r: N)
        ensures
            r == Self::evaluate_features_spec(self@, features@, *action),
    ;

    /// Applies an error along features that the caller has computed, for an action.
    fn update_features(&mut self, features: &Features<N>, action: &U, error: N)
        ensures
            final(self)@ == Self::update_features_spec(old(self)@, features@, *action, error),
    ;
}

} // verus!
