//! A table of action values: one row of state values per action.
use crate::fa::{EnumerableStateActionFunction, StateActionFunction};
use crate::scalar::Scalar;
use vstd::prelude::*;

verus! {

/// Action values stored by action and then by state.
pub struct Tabular<N>(Vec<Vec<N>>);

impl<N> View for Tabular<N> {
    type V = Seq<Seq<N>>;

    closed spec fn view(&self) -> Seq<Seq<N>> {
        Seq::new(self.0@.len(), |a: int| self.0@[a]@)
    }
}

/// The table with `error` added to the entry of `action` and `state`.
pub open spec fn table_update<N: Scalar>(
    table: Seq<Seq<N>>,
    state: usize,
    action: usize,
    error: N,
) -> Seq<Seq<N>> {
    table.update(
        action as int,
        table[action as int].update(
            state as int,
            table[action as int][state as int].add_spec(error),
        ),
    )
}

/// The table with `errors[a]` added to the entry of `state` in every row `a`.
pub open spec fn table_update_all<N: Scalar>(
    table: Seq<Seq<N>>,
    state: usize,
    errors: Seq<N>,
) -> Seq<Seq<N>> {
    Seq::new(
        table.len(),
        |a: int| table[a].update(state as int, table[a][state as int].add_spec(errors[a])),
    )
}

impl<N: Scalar> Tabular<N> {
    /// The table with the given rows.
    pub fn new(weights: Vec<Vec<N>>) -> (r: Self)
        ensures
            r@ == Seq::new(weights@.len(), |a: int| weights@[a]@),
    {
        Tabular(weights)
    }

    /// The table of zeros with `dim[0]` states and `dim[1]` actions.
    pub fn zeros(dim: [usize; 2]) -> (r: Self)
        ensures
            r@ == Seq::new(
                dim[1] as nat,
                |a: int| Seq::new(dim[0] as nat, |s: int| N::zero_spec()),
            ),
    {
        let mut rows: Vec<Vec<N>> = Vec::new();
        let mut a: usize = 0;
        while a < dim[1]
            invariant
                a <= dim[1],
                rows@.len() == a,
                forall|i: int|
                    0 <= i < a ==> (#[trigger] rows@[i])@ == Seq::new(
                        dim[0] as nat,
                        |s: int| N::zero_spec(),
                    ),
            decreases dim[1] - a,
        {
            let mut row: Vec<N> = Vec::new();
            let mut s: usize = 0;
            while s < dim[0]
                invariant
                    s <= dim[0],
                    row@.len() == s,
                    forall|j: int| 0 <= j < s ==> row@[j] == N::zero_spec(),
                decreases dim[0] - s,
            {
                row.push(N::zero());
                s += 1;
            }
            assert(row@ =~= Seq::new(dim[0] as nat, |s: int| N::zero_spec()));
            rows.push(row);
            a += 1;
        }
        let r = Tabular(rows);
        assert(r@ =~= Seq::new(
            dim[1] as nat,
            |a: int| Seq::new(dim[0] as nat, |s: int| N::zero_spec()),
        ));
        r
    }
}

impl<N: Scalar> StateActionFunction<usize, usize, N> for Tabular<N> {
    open spec fn in_domain(model: Seq<Seq<N>>, state: usize, action: usize) -> bool {
        action < model.len() && state < model[action as int].len()
    }

    open spec fn value_spec(model: Seq<Seq<N>>, state: usize, action: usize) -> N {
        model[action as int][state as int]
    }

    open spec fn update_spec(model: Seq<Seq<N>>, state: usize, action: usize, error: N) -> Seq<
        Seq<N>,
    > {
        table_update(model, state, action, error)
    }

    proof fn lemma_update_domain(
        model: Seq<Seq<N>>,
        state: usize,
        action: usize,
        error: N,
        s: usize,
        a: usize,
    ) {
    }

    fn evaluate(&self, state: &usize, action: &usize) -> (r: N) {
        self.0[*action][*state]
    }

    fn update_by_error(&mut self, state: &usize, action: &usize, error: N) {
        let cur = self.0[*action][*state];
        self.0[*action][*state] = cur.add(error);
        assert(self@ =~= table_update(old(self)@, *state, *action, error));
    }
}

impl<N: Scalar> EnumerableStateActionFunction<usize, N> for Tabular<N> {
    open spec fn n_actions_spec(model: Seq<Seq<N>>) -> usize {
        model.len() as usize
    }

    open spec fn update_all_spec(model: Seq<Seq<N>>, state: usize, errors: Seq<N>) -> Seq<Seq<N>> {
        table_update_all(model, state, errors)
    }

    proof fn lemma_update_actions(model: Seq<Seq<N>>, state: usize, action: usize, error: N) {
    }

    fn n_actions(&self) -> (n: usize) {
        self.0.len()
    }

    fn evaluate_all(&self, state: &usize) -> (r: Vec<N>) {
        let mut out: Vec<N> = Vec::new();
        let mut a: usize = 0;
        while a < self.0.len()
            invariant
                a <= self.0@.len(),
                forall|b: usize|
                    b < Self::n_actions_spec(self@) ==> Self::in_domain(self@, *state, b),
                out@.len() == a,
                forall|b: int| 0 <= b < a ==> out@[b] == self@[b][*state as int],
            decreases self.0@.len() - a,
        {
            assert(Self::in_domain(self@, *state, a));
            out.push(self.0[a][*state]);
            a += 1;
        }
        assert(out@ =~= Seq::new(
            Self::n_actions_spec(self@) as nat,
            |a: int| Self::value_spec(self@, *state, a as usize),
        ));
        out
    }

    fn update_all_by_errors(&mut self, state: &usize, errors: Vec<N>) {
        let n = self.0.len();
        let mut a: usize = 0;
        while a < n
            invariant
                a <= n,
                n == self.0@.len(),
                n == old(self)@.len(),
                n == errors@.len(),
                forall|b: usize|
                    b < Self::n_actions_spec(old(self)@) ==> Self::in_domain(
                        old(self)@,
                        *state,
                        b,
                    ),
                forall|b: int|
                    0 <= b < a ==> #[trigger] self@[b] == old(self)@[b].update(
                        *state as int,
                        old(self)@[b][*state as int].add_spec(errors@[b]),
                    ),
                forall|b: int| a <= b < n ==> #[trigger] self@[b] == old(self)@[b],
            decreases n - a,
        {
            assert(Self::in_domain(old(self)@, *state, a));
            assert(self@[a as int] == old(self)@[a as int]);
            let cur = self.0[a][*state];
            let ghost before = self@;
            self.0[a][*state] = cur.add(errors[a]);
            assert(self@[a as int] =~= before[a as int].update(
                *state as int,
                before[a as int][*state as int].add_spec(errors@[a as int]),
            ));
            assert forall|b: int| 0 <= b < n && b != a implies #[trigger] self@[b] == before[b] by {
                assert(self@[b] =~= before[b]);
            }
            a += 1;
        }
        assert(self@ =~= table_update_all(old(self)@, *state, errors@));
    }
}

} // verus!
