//! What every learner that takes one transition at a time offers.
use crate::domains::Transition;
use crate::scalar::Scalar;
use vstd::prelude::*;

verus! {

/// A learner that is handed the steps of an episode one by one.
pub trait OnlineLearner<S, A, N: Scalar>: View + Sized {
    /// Whether a learner in this state can take the step.
    spec fn ready(model: Self::V, t: Transition<S, A, N>) -> bool;

    /// Whether the step may take a learner from the first state to the
    /// second. Where the learner draws an action, more than one state may follow.
    spec fn steps(pre: Self::V, t: Transition<S, A, N>, post: Self::V) -> bool;

    /// Whether the end of an episode takes a learner from the first state
    /// to the second.
    spec fn ends(pre: Self::V, post: Self::V) -> bool;

    /// Learns from one step.
    fn handle_transition(&mut self, t: &Transition<S, A, N>)
        requires
            Self::ready(old(self)@, *t),
        ensures
            Self::steps(old(self)@, *t, final(self)@),
    ;

    /// Is told that the episode has ended.
    fn handle_terminal(&mut self)
        ensures
            Self::ends(old(self)@, final(self)@),
    ;
}

} // verus!
