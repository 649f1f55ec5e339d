//! Sparse and dense feature vectors and their cross-form arithmetic.
use crate::scalar::Scalar;
use vstd::prelude::*;

verus! {

/// A feature vector: either the active components of a vector of a given
/// dimension, as index/weight pairs, or every component in order.
pub enum Features<N> {
    Sparse(usize, Vec<(usize, N)>),
    Dense(Vec<N>),
}

/// Mathematical model of a [`Features`] value.
pub enum FeaturesView<N> {
    Sparse(usize, Seq<(usize, N)>),
    Dense(Seq<N>),
}

impl<N> View for Features<N> {
    type V = FeaturesView<N>;

    open spec fn view(&self) -> FeaturesView<N> {
        match self {
            Features::Sparse(n, acts) => FeaturesView::Sparse(*n, acts@),
            Features::Dense(vals) => FeaturesView::Dense(vals@),
        }
    }
}

/// Weight of the first of the leading `k` pairs that carries the index `i`.
pub open spec fn sparse_get<N>(acts: Seq<(usize, N)>, k: nat, i: int) -> Option<N>
    decreases k,
{
    if k == 0 || k > acts.len() {
        None
    } else {
        match sparse_get(acts, (k - 1) as nat, i) {
            Some(a) => Some(a),
            None => if acts[k - 1].0 == i {
                Some(acts[k - 1].1)
            } else {
                None
            },
        }
    }
}

/// Inner product of the leading `k` components of two dense vectors,
/// summed from the left.
pub open spec fn dot_dense<N: Scalar>(a: Seq<N>, b: Seq<N>, k: nat) -> N
    decreases k,
{
    if k == 0 || k > a.len() || k > b.len() {
        N::zero_spec()
    } else {
        dot_dense(a, b, (k - 1) as nat).add_spec(a[k - 1].mul_spec(b[k - 1]))
    }
}

/// Inner product of the leading `k` pairs with `other`, summed from the
/// left; a pair whose index `other` lacks adds zero.
pub open spec fn dot_sparse<N: Scalar>(acts: Seq<(usize, N)>, other: FeaturesView<N>, k: nat) -> N
    decreases k,
{
    if k == 0 || k > acts.len() {
        N::zero_spec()
    } else {
        dot_sparse(acts, other, (k - 1) as nat).add_spec(
            match other.get(acts[k - 1].0 as int) {
                Some(b) => b.mul_spec(acts[k - 1].1),
                None => N::zero_spec(),
            },
        )
    }
}

/// `w` after each of the leading `k` pairs has added `factor` times its
/// weight to the component at its index; pairs that point past `w` are skipped.
pub open spec fn axpy_sparse<N: Scalar>(w: Seq<N>, factor: N, acts: Seq<(usize, N)>, k: nat) -> Seq<N>
    decreases k,
{
    if k == 0 || k > acts.len() {
        w
    } else {
        let prev = axpy_sparse(w, factor, acts, (k - 1) as nat);
        let i = acts[k - 1].0 as int;
        if i < prev.len() {
            prev.update(i, prev[i].add_spec(factor.mul_spec(acts[k - 1].1)))
        } else {
            prev
        }
    }
}

/// `w` after each of the leading `k` pairs has added its weight to the
/// component at its index; pairs that point past `w` are skipped.
pub open spec fn add_sparse<N: Scalar>(w: Seq<N>, acts: Seq<(usize, N)>, k: nat) -> Seq<N>
    decreases k,
{
    if k == 0 || k > acts.len() {
        w
    } else {
        let prev = add_sparse(w, acts, (k - 1) as nat);
        let i = acts[k - 1].0 as int;
        if i < prev.len() {
            prev.update(i, prev[i].add_spec(acts[k - 1].1))
        } else {
            prev
        }
    }
}

impl<N: Scalar> FeaturesView<N> {
    /// Number of components of the vector.
    pub open spec fn dim(self) -> nat {
        match self {
            FeaturesView::Sparse(n, _) => n as nat,
            FeaturesView::Dense(vals) => vals.len(),
        }
    }

    /// Every index of a sparse vector lies below its dimension and occurs once.
    pub open spec fn wf(self) -> bool {
        match self {
            FeaturesView::Sparse(n, acts) => {
                &&& forall|j: int| 0 <= j < acts.len() ==> (#[trigger] acts[j]).0 < n
                &&& forall|j: int, k: int|
                    0 <= j < k < acts.len() ==> (#[trigger] acts[j]).0 != (#[trigger] acts[k]).0
            },
            FeaturesView::Dense(_) => true,
        }
    }

    /// The stored component `i`, if the vector stores one.
    pub open spec fn get(self, i: int) -> Option<N> {
        match self {
            FeaturesView::Sparse(_, acts) => sparse_get(acts, acts.len(), i),
            FeaturesView::Dense(vals) => if 0 <= i < vals.len() {
                Some(vals[i])
            } else {
                None
            },
        }
    }

    /// Component `i`, zero where the vector stores none.
    pub open spec fn at(self, i: int) -> N {
        match self.get(i) {
            Some(a) => a,
            None => N::zero_spec(),
        }
    }

    /// Whether component `i` is active: stored, for a sparse vector; stored
    /// and different from zero in either direction, for a dense one.
    pub open spec fn active(self, i: int) -> bool {
        match self {
            FeaturesView::Sparse(_, _) => self.get(i) is Some,
            FeaturesView::Dense(vals) => 0 <= i < vals.len() && (vals[i].lt_spec(N::zero_spec())
                || N::zero_spec().lt_spec(vals[i])),
        }
    }

    /// The vector written out in full.
    pub open spec fn expanded(self) -> Seq<N> {
        Seq::new(self.dim(), |i: int| self.at(i))
    }

    /// Inner product with `other`.
    ///
    /// Two sparse vectors walk the shorter list of pairs (the first on a
    /// tie) and look each index up in the other; a sparse and a dense vector
    /// walk the sparse one; two dense vectors pair their components up to
    /// the shorter length. Each term is the looked-up component times the
    /// walked one, and the terms are summed from the left starting at zero.
    pub open spec fn dot(self, other: Self) -> N {
        match (self, other) {
            (FeaturesView::Sparse(_, a1), FeaturesView::Sparse(_, a2)) => if a1.len() <= a2.len() {
                dot_sparse(a1, other, a1.len())
            } else {
                dot_sparse(a2, self, a2.len())
            },
            (FeaturesView::Sparse(_, a1), FeaturesView::Dense(_)) => dot_sparse(a1, other, a1.len()),
            (FeaturesView::Dense(_), FeaturesView::Sparse(_, a2)) => dot_sparse(a2, self, a2.len()),
            (FeaturesView::Dense(a1), FeaturesView::Dense(a2)) => dot_dense(
                a1,
                a2,
                if a1.len() <= a2.len() {
                    a1.len()
                } else {
                    a2.len()
                },
            ),
        }
    }

    /// `w` plus `factor` times this vector: `w[i] + factor * x[i]` at every
    /// component that the vector stores and `w` has.
    pub open spec fn axpy(self, w: Seq<N>, factor: N) -> Seq<N> {
        match self {
            FeaturesView::Sparse(_, acts) => axpy_sparse(w, factor, acts, acts.len()),
            FeaturesView::Dense(vals) => Seq::new(
                w.len(),
                |i: int|
                    if i < vals.len() {
                        w[i].add_spec(factor.mul_spec(vals[i]))
                    } else {
                        w[i]
                    },
            ),
        }
    }

    /// `w` plus this vector: `w[i] + x[i]` at every component that the
    /// vector stores and `w` has.
    pub open spec fn added_to(self, w: Seq<N>) -> Seq<N> {
        match self {
            FeaturesView::Sparse(_, acts) => add_sparse(w, acts, acts.len()),
            FeaturesView::Dense(vals) => Seq::new(
                w.len(),
                |i: int|
                    if i < vals.len() {
                        w[i].add_spec(vals[i])
                    } else {
                        w[i]
                    },
            ),
        }
    }
}

/// Adding pairs to a vector leaves its length as it was.
pub proof fn lemma_axpy_sparse_len<N: Scalar>(w: Seq<N>, factor: N, acts: Seq<(usize, N)>, k: nat)
    ensures
        axpy_sparse(w, factor, acts, k).len() == w.len(),
    decreases k,
{
    if k != 0 && k <= acts.len() {
        lemma_axpy_sparse_len(w, factor, acts, (k - 1) as nat);
    }
}

/// Adding pairs to a vector leaves its length as it was.
pub proof fn lemma_add_sparse_len<N: Scalar>(w: Seq<N>, acts: Seq<(usize, N)>, k: nat)
    ensures
        add_sparse(w, acts, k).len() == w.len(),
    decreases k,
{
    if k != 0 && k <= acts.len() {
        lemma_add_sparse_len(w, acts, (k - 1) as nat);
    }
}

/// Adding a feature vector to a vector, scaled or not, leaves its length as it was.
pub proof fn lemma_axpy_len<N: Scalar>(g: FeaturesView<N>, w: Seq<N>, factor: N)
    ensures
        g.axpy(w, factor).len() == w.len(),
        g.added_to(w).len() == w.len(),
{
    match g {
        FeaturesView::Sparse(_, acts) => {
            lemma_axpy_sparse_len(w, factor, acts, acts.len());
            lemma_add_sparse_len(w, acts, acts.len());
        },
        FeaturesView::Dense(_) => {},
    }
}

/// Looks the index `i` up among the pairs.
fn lookup<N: Scalar>(acts: &Vec<(usize, N)>, i: usize) -> (r: Option<N>)
    ensures
        r == sparse_get(acts@, acts@.len(), i as int),
{
    let mut k: usize = 0;
    while k < acts.len()
        invariant
            k <= acts.len(),
            sparse_get(acts@, k as nat, i as int) is None,
        decreases acts.len() - k,
    {
        let pair = acts[k];
        if pair.0 == i {
            proof {
                lemma_sparse_get_found(acts@, (k + 1) as nat, i as int);
            }
            return Some(pair.1);
        }
        k += 1;
    }
    None
}

/// Once the leading `k` pairs hold the index, longer prefixes give the same weight.
proof fn lemma_sparse_get_found<N>(acts: Seq<(usize, N)>, k: nat, i: int)
    requires
        0 < k <= acts.len(),
        sparse_get(acts, (k - 1) as nat, i) is None,
        acts[k - 1].0 == i,
    ensures
        sparse_get(acts, acts.len(), i) == Some(acts[k - 1].1),
{
    assert(sparse_get(acts, k, i) == Some(acts[k - 1].1));
    lemma_sparse_get_stable(acts, k, acts.len(), i);
}

/// Once a prefix of the pairs holds the index, every longer prefix gives
/// the same weight.
proof fn lemma_sparse_get_stable<N>(acts: Seq<(usize, N)>, k: nat, m: nat, i: int)
    requires
        k <= m <= acts.len(),
        sparse_get(acts, k, i) is Some,
    ensures
        sparse_get(acts, m, i) == sparse_get(acts, k, i),
    decreases m - k,
{
    if k < m {
        lemma_sparse_get_stable(acts, k, (m - 1) as nat, i);
    }
}

impl<N: Scalar> Features<N> {
    /// The dense vector with the given components.
    pub fn dense(vals: Vec<N>) -> (r: Features<N>)
        ensures
            r@ == FeaturesView::Dense(vals@),
            r@.wf(),
    {
        Features::Dense(vals)
    }

    /// The sparse vector of dimension `dim` with the given active
    /// components; nothing where an index reaches `dim` or occurs twice.
    pub fn sparse(dim: usize, acts: Vec<(usize, N)>) -> (r: Option<Features<N>>)
        ensures
            r is Some <==> FeaturesView::Sparse(dim, acts@).wf(),
            r matches Some(f) ==> f@ == FeaturesView::Sparse(dim, acts@),
    {
        let f = Features::Sparse(dim, acts);
        if f.is_wf() {
            Some(f)
        } else {
            None
        }
    }

    /// Whether every index of a sparse vector lies below its dimension and
    /// occurs once.
    pub fn is_wf(&self) -> (r: bool)
        ensures
            r == self@.wf(),
    {
        match self {
            Features::Sparse(n, acts) => {
                let mut k: usize = 0;
                while k < acts.len()
                    invariant
                        k <= acts@.len(),
                        self@ == FeaturesView::Sparse(*n, acts@),
                        forall|j: int| 0 <= j < k ==> (#[trigger] acts@[j]).0 < *n,
                        forall|i: int, j: int|
                            0 <= i < j < k ==> (#[trigger] acts@[i]).0 != (#[trigger] acts@[j]).0,
                    decreases acts@.len() - k,
                {
                    if acts[k].0 >= *n {
                        assert(self@->Sparse_1 == acts@);
                        assert(!(acts@[k as int].0 < *n));
                        return false;
                    }
                    let mut i: usize = 0;
                    while i < k
                        invariant
                            i <= k,
                            k < acts@.len(),
                            self@ == FeaturesView::Sparse(*n, acts@),
                            forall|j: int| 0 <= j < i ==> (#[trigger] acts@[j]).0 != acts@[k as int].0,
                        decreases k - i,
                    {
                        if acts[i].0 == acts[k].0 {
                            assert(self@->Sparse_1 == acts@);
                            assert(acts@[i as int].0 == acts@[k as int].0);
                            return false;
                        }
                        i += 1;
                    }
                    k += 1;
                }
                true
            },
            Features::Dense(_) => true,
        }
    }

    /// Number of components of the vector.
    pub fn dim(&self) -> (r: usize)
        ensures
            r == self@.dim(),
    {
        match self {
            Features::Sparse(n, _) => *n,
            Features::Dense(vals) => vals.len(),
        }
    }

    /// The stored component `i`, if there is one.
    pub fn get(&self, i: usize) -> (r: Option<N>)
        ensures
            r == self@.get(i as int),
    {
        match self {
            Features::Sparse(_, acts) => lookup(acts, i),
            Features::Dense(vals) => if i < vals.len() {
                Some(vals[i])
            } else {
                None
            },
        }
    }

    /// Component `i`, zero where the vector stores none.
    pub fn at(&self, i: usize) -> (r: N)
        ensures
            r == self@.at(i as int),
    {
        match self.get(i) {
            Some(a) => a,
            None => N::zero(),
        }
    }

    /// Whether component `i` is active.
    pub fn is_active(&self, i: usize) -> (r: bool)
        ensures
            r == self@.active(i as int),
    {
        match self {
            Features::Sparse(_, acts) => lookup(acts, i).is_some(),
            Features::Dense(vals) => i < vals.len() && (vals[i].lt(N::zero()) || N::zero().lt(
                vals[i],
            )),
        }
    }

    /// A copy of the vector.
    pub fn copy(&self) -> (r: Features<N>)
        ensures
            r@ == self@,
    {
        match self {
            Features::Sparse(n, acts) => {
                let mut out: Vec<(usize, N)> = Vec::new();
                let mut k: usize = 0;
                while k < acts.len()
                    invariant
                        k <= acts@.len(),
                        out@ == acts@.take(k as int),
                    decreases acts@.len() - k,
                {
                    out.push(acts[k]);
                    assert(out@ =~= acts@.take(k + 1));
                    k += 1;
                }
                assert(acts@.take(acts@.len() as int) =~= acts@);
                Features::Sparse(*n, out)
            },
            Features::Dense(vals) => {
                let mut out: Vec<N> = Vec::new();
                let mut k: usize = 0;
                while k < vals.len()
                    invariant
                        k <= vals@.len(),
                        out@ == vals@.take(k as int),
                    decreases vals@.len() - k,
                {
                    out.push(vals[k]);
                    assert(out@ =~= vals@.take(k + 1));
                    k += 1;
                }
                assert(vals@.take(vals@.len() as int) =~= vals@);
                Features::Dense(out)
            },
        }
    }

    /// Inner product with the dense vector `w`.
    pub fn dot_vec(&self, w: &Vec<N>) -> (r: N)
        ensures
            r == self@.dot(FeaturesView::Dense(w@)),
    {
        match self {
            Features::Sparse(_, acts) => {
                let ghost other = FeaturesView::Dense(w@);
                let mut acc = N::zero();
                let mut k: usize = 0;
                while k < acts.len()
                    invariant
                        k <= acts@.len(),
                        other == FeaturesView::Dense(w@),
                        acc == dot_sparse(acts@, other, k as nat),
                    decreases acts@.len() - k,
                {
                    let pair = acts[k];
                    let term = if pair.0 < w.len() {
                        w[pair.0].mul(pair.1)
                    } else {
                        N::zero()
                    };
                    acc = acc.add(term);
                    k += 1;
                }
                acc
            },
            Features::Dense(vals) => {
                let n = if vals.len() <= w.len() {
                    vals.len()
                } else {
                    w.len()
                };
                let mut acc = N::zero();
                let mut k: usize = 0;
                while k < n
                    invariant
                        k <= n,
                        n <= vals@.len(),
                        n <= w@.len(),
                        acc == dot_dense(vals@, w@, k as nat),
                    decreases n - k,
                {
                    acc = acc.add(vals[k].mul(w[k]));
                    k += 1;
                }
                acc
            },
        }
    }

    /// The vector written out in full.
    pub fn expanded(&self) -> (r: Vec<N>)
        ensures
            r@ == self@.expanded(),
    {
        let n = self.dim();
        let mut out: Vec<N> = Vec::new();
        let mut i: usize = 0;
        while i < n
            invariant
                i <= n,
                n == self@.dim(),
                out@.len() == i,
                forall|j: int| 0 <= j < i ==> out@[j] == self@.at(j),
            decreases n - i,
        {
            out.push(self.at(i));
            i += 1;
        }
        assert(out@ =~= self@.expanded());
        out
    }

    /// Merges this vector with another, component by component, through the
    /// caller's function of this vector's and the other's component. The
    /// result is dense and has the dimension of this vector.
    pub fn combine<F: Fn(N, N) -> N>(&self, other: &Features<N>, f: F) -> (r: Features<N>)
        requires
            forall|x: N, y: N| f.requires((x, y)),
        ensures
            r@ is Dense,
            r@.dim() == self@.dim(),
            forall|i: int|
                0 <= i < self@.dim() ==> f.ensures(
                    (self@.at(i), other@.at(i)),
                    #[trigger] r@->Dense_0[i],
                ),
    {
        let n = self.dim();
        let mut out: Vec<N> = Vec::new();
        let mut i: usize = 0;
        while i < n
            invariant
                i <= n,
                n == self@.dim(),
                out@.len() == i,
                forall|x: N, y: N| f.requires((x, y)),
                forall|j: int|
                    0 <= j < i ==> f.ensures((self@.at(j), other@.at(j)), #[trigger] out@[j]),
            decreases n - i,
        {
            let merged = f(self.at(i), other.at(i));
            out.push(merged);
            i += 1;
        }
        Features::Dense(out)
    }

    /// Adds `factor` times this vector to `w`, in place.
    pub fn scaled_addto(&self, factor: N, w: &mut Vec<N>)
        ensures
            final(w)@ == self@.axpy(old(w)@, factor),
    {
        match self {
            Features::Sparse(_, acts) => {
                let mut k: usize = 0;
                while k < acts.len()
                    invariant
                        k <= acts.len(),
                        w@ == axpy_sparse(old(w)@, factor, acts@, k as nat),
                    decreases acts.len() - k,
                {
                    let pair = acts[k];
                    if pair.0 < w.len() {
                        let cur = w[pair.0];
                        w.set(pair.0, cur.add(factor.mul(pair.1)));
                    }
                    k += 1;
                }
            },
            Features::Dense(vals) => {
                let n = w.len();
                let mut i: usize = 0;
                while i < n
                    invariant
                        i <= n,
                        n == w@.len(),
                        n == old(w)@.len(),
                        forall|j: int|
                            0 <= j < i ==> w@[j] == (if j < vals@.len() {
                                old(w)@[j].add_spec(factor.mul_spec(vals@[j]))
                            } else {
                                old(w)@[j]
                            }),
                        forall|j: int| i <= j < n ==> w@[j] == old(w)@[j],
                    decreases n - i,
                {
                    if i < vals.len() {
                        let cur = w[i];
                        w.set(i, cur.add(factor.mul(vals[i])));
                    }
                    i += 1;
                }
                assert(w@ =~= self@.axpy(old(w)@, factor));
            },
        }
    }

    /// Adds this vector to `w`, in place.
    pub fn addto(&self, w: &mut Vec<N>)
        ensures
            final(w)@ == self@.added_to(old(w)@),
    {
        match self {
            Features::Sparse(_, acts) => {
                let mut k: usize = 0;
                while k < acts.len()
                    invariant
                        k <= acts.len(),
                        w@ == add_sparse(old(w)@, acts@, k as nat),
                    decreases acts.len() - k,
                {
                    let pair = acts[k];
                    if pair.0 < w.len() {
                        let cur = w[pair.0];
                        w.set(pair.0, cur.add(pair.1));
                    }
                    k += 1;
                }
            },
            Features::Dense(vals) => {
                let n = w.len();
                let mut i: usize = 0;
                while i < n
                    invariant
                        i <= n,
                        n == w@.len(),
                        n == old(w)@.len(),
                        forall|j: int|
                            0 <= j < i ==> w@[j] == (if j < vals@.len() {
                                old(w)@[j].add_spec(vals@[j])
                            } else {
                                old(w)@[j]
                            }),
                        forall|j: int| i <= j < n ==> w@[j] == old(w)@[j],
                    decreases n - i,
                {
                    if i < vals.len() {
                        let cur = w[i];
                        w.set(i, cur.add(vals[i]));
                    }
                    i += 1;
                }
                assert(w@ =~= self@.added_to(old(w)@));
            },
        }
    }
}

/// Inner product of the pairs `acts` with `other`.
fn dot_pairs<N: Scalar>(acts: &Vec<(usize, N)>, other: &Features<N>) -> (r: N)
    ensures
        r == dot_sparse(acts@, other@, acts@.len()),
{
    let mut acc = N::zero();
    let mut k: usize = 0;
    while k < acts.len()
        invariant
            k <= acts.len(),
            acc == dot_sparse(acts@, other@, k as nat),
        decreases acts.len() - k,
    {
        let pair = acts[k];
        let term = match other.get(pair.0) {
            Some(b) => b.mul(pair.1),
            None => N::zero(),
        };
        acc = acc.add(term);
        k += 1;
    }
    acc
}

/// Inner product of two feature vectors in any pairing of forms.
pub fn dot_features<N: Scalar>(f1: &Features<N>, f2: &Features<N>) -> (r: N)
    ensures
        r == f1@.dot(f2@),
{
    match (f1, f2) {
        (Features::Sparse(_, a1), Features::Sparse(_, a2)) => if a1.len() <= a2.len() {
            dot_pairs(a1, f2)
        } else {
            dot_pairs(a2, f1)
        },
        (Features::Sparse(_, a1), Features::Dense(_)) => dot_pairs(a1, f2),
        (Features::Dense(_), Features::Sparse(_, a2)) => dot_pairs(a2, f1),
        (Features::Dense(a1), Features::Dense(a2)) => {
            let n = if a1.len() <= a2.len() {
                a1.len()
            } else {
                a2.len()
            };
            let mut acc = N::zero();
            let mut k: usize = 0;
            while k < n
                invariant
                    k <= n,
                    n <= a1@.len(),
                    n <= a2@.len(),
                    acc == dot_dense(a1@, a2@, k as nat),
                decreases n - k,
            {
                acc = acc.add(a1[k].mul(a2[k]));
                k += 1;
            }
            acc
        },
    }
}

} // verus!
