//! Learners that estimate the value of states under the policy that
//! produced the transitions.
pub mod gradient_mc;
pub mod gtd2;
pub mod lstd;
pub mod recursive_lstd;
pub mod td;
pub mod td_lambda;
pub mod tdc;

use crate::scalar::Scalar;
use vstd::prelude::*;

verus! {

/// Something that estimates the value of states.
pub trait ValuePredictor<S, N: Scalar>: View + Sized {
    /// The states that a predictor in this state can be asked about.
    spec fn covers_state(model: Self::V, s: S) -> bool;

    /// The value of a state.
    spec fn v_spec(model: Self::V, s: S) -> N;

    /// The estimated value of a state.
    fn predict_v(&self, s: &S) -> (r: N)
        requires
            Self::covers_state(self@, *s),
        ensures
            r == Self::v_spec(self@, *s),
    ;
}

/// Something that estimates the value of actions in states.
pub trait ActionValuePredictor<S, A, N: Scalar>: View + Sized {
    /// The state-action pairs that a predictor in this state can be asked about.
    spec fn covers_action(model: Self::V, s: S, a: A) -> bool;

    /// The value of an action in a state.
    spec fn q_spec(model: Self::V, s: S, a: A) -> N;

    /// The estimated value of an action in a state.
    fn predict_q(&self, s: &S, a: &A) -> (r: N)
        requires
            Self::covers_action(self@, *s, *a),
        ensures
            r == Self::q_spec(self@, *s, *a),
    ;
}

} // verus!
