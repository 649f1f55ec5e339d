//! What a learner is told of one step of a decision process.
use vstd::prelude::*;

verus! {

/// One observed step: the state it left, the action taken, the reward
/// received, the state it reached, and whether that state ends the episode.
pub struct Transition<S, A, N> {
    pub from: S,
    pub action: A,
    pub reward: N,
    pub to: S,
    pub terminal: bool,
}

impl<S, A, N> Transition<S, A, N> {
    /// A step that goes on.
    pub fn new(from: S, action: A, reward: N, to: S) -> (t: Self)
        ensures
            t.from == from,
            t.action == action,
            t.reward == reward,
            t.to == to,
            !t.terminal,
    {
        Transition { from, action, reward, to, terminal: false }
    }

    /// A step that ends the episode.
    pub fn terminal(from: S, action: A, reward: N, to: S) -> (t: Self)
        ensures
            t.from == from,
            t.action == action,
            t.reward == reward,
            t.to == to,
            t.terminal,
    {
        Transition { from, action, reward, to, terminal: true }
    }

    /// Whether the step ends the episode.
    pub fn terminated(&self) -> (r: bool)
        ensures
            r == self.terminal,
    {
        self.terminal
    }

    /// The state left and the state reached.
    pub fn states(&self) -> (r: (&S, &S))
        ensures
            *r.0 == self.from,
            *r.1 == self.to,
    {
        (&self.from, &self.to)
    }
}

} // verus!
