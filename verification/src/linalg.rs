//! Dense matrices over a scalar, as far as the least-squares learners need them.
use crate::scalar::Scalar;
use crate::features::dot_dense;
use vstd::prelude::*;

verus! {

/// Mathematical model of a vector: its entries in order.
pub type VectorView<N> = Seq<N>;

/// Mathematical model of a matrix: its rows in order.
pub type MatrixView<N> = Seq<Seq<N>>;

/// A dense matrix, stored row by row.
pub struct Matrix<N> {
    pub rows: Vec<Vec<N>>,
}

impl<N> View for Matrix<N> {
    type V = Seq<Seq<N>>;

    open spec fn view(&self) -> Seq<Seq<N>> {
        Seq::new(self.rows@.len(), |i: int| self.rows@[i]@)
    }
}

/// The matrix has `r` rows of `c` entries each.
pub open spec fn has_shape<N>(m: Seq<Seq<N>>, r: nat, c: nat) -> bool {
    &&& m.len() == r
    &&& forall|i: int| 0 <= i < r ==> (#[trigger] m[i]).len() == c
}

/// The `n` by `n` matrix with `eps` times one on the diagonal and `eps`
/// times zero elsewhere.
pub open spec fn scaled_identity_spec<N: Scalar>(n: nat, eps: N) -> Seq<Seq<N>> {
    Seq::new(
        n,
        |i: int|
            Seq::new(
                n,
                |j: int|
                    if i == j {
                        N::one_spec().mul_spec(eps)
                    } else {
                        N::zero_spec().mul_spec(eps)
                    },
            ),
    )
}

/// The `r` by `c` matrix of zeros.
pub open spec fn zero_matrix_spec<N: Scalar>(r: nat, c: nat) -> Seq<Seq<N>> {
    Seq::new(r, |i: int| Seq::new(c, |j: int| N::zero_spec()))
}

/// The matrix of the same rows with every entry at zero.
pub open spec fn zeroed<N: Scalar>(m: Seq<Seq<N>>) -> Seq<Seq<N>> {
    Seq::new(m.len(), |i: int| Seq::new(m[i].len(), |j: int| N::zero_spec()))
}

/// The product of a matrix and a vector: each row's inner product with
/// the vector, summed from the left.
pub open spec fn mat_vec_spec<N: Scalar>(m: Seq<Seq<N>>, x: Seq<N>) -> Seq<N> {
    Seq::new(m.len(), |i: int| dot_dense(m[i], x, x.len()))
}

/// Inner product of two vectors over the length of the second, summed
/// from the left.
pub fn dot<N: Scalar>(a: &Vec<N>, b: &Vec<N>) -> (r: N)
    requires
        a@.len() >= b@.len(),
    ensures
        r == dot_dense(a@, b@, b@.len()),
{
    let mut acc = N::zero();
    let mut k: usize = 0;
    while k < b.len()
        invariant
            k <= b@.len(),
            a@.len() >= b@.len(),
            acc == dot_dense(a@, b@, k as nat),
        decreases b@.len() - k,
    {
        acc = acc.add(a[k].mul(b[k]));
        k += 1;
    }
    acc
}

impl<N: Scalar> Matrix<N> {
    /// The `n` by `n` identity, every entry multiplied by `eps`.
    pub fn scaled_identity(n: usize, eps: N) -> (m: Self)
        ensures
            m@ == scaled_identity_spec(n as nat, eps),
            has_shape(m@, n as nat, n as nat),
    {
        let mut rows: Vec<Vec<N>> = Vec::new();
        let mut i: usize = 0;
        while i < n
            invariant
                i <= n,
                rows@.len() == i,
                forall|a: int|
                    0 <= a < i ==> (#[trigger] rows@[a])@ == scaled_identity_spec(n as nat, eps)[a],
            decreases n - i,
        {
            let mut row: Vec<N> = Vec::new();
            let mut j: usize = 0;
            while j < n
                invariant
                    j <= n,
                    i < n,
                    row@.len() == j,
                    forall|b: int|
                        0 <= b < j ==> row@[b] == scaled_identity_spec(n as nat, eps)[i as int][b],
                decreases n - j,
            {
                if i == j {
                    row.push(N::one().mul(eps));
                } else {
                    row.push(N::zero().mul(eps));
                }
                j += 1;
            }
            assert(row@ =~= scaled_identity_spec(n as nat, eps)[i as int]);
            rows.push(row);
            i += 1;
        }
        let m = Matrix { rows };
        assert(m@ =~= scaled_identity_spec(n as nat, eps));
        m
    }

    /// Number of rows.
    pub fn n_rows(&self) -> (r: usize)
        ensures
            r == self@.len(),
    {
        self.rows.len()
    }

    /// The `r` by `c` matrix of zeros.
    pub fn zeros(r: usize, c: usize) -> (m: Self)
        ensures
            m@ == zero_matrix_spec::<N>(r as nat, c as nat),
            has_shape(m@, r as nat, c as nat),
    {
        let mut rows: Vec<Vec<N>> = Vec::new();
        let mut i: usize = 0;
        while i < r
            invariant
                i <= r,
                rows@.len() == i,
                forall|a: int|
                    0 <= a < i ==> (#[trigger] rows@[a])@ == Seq::new(
                        c as nat,
                        |j: int| N::zero_spec(),
                    ),
            decreases r - i,
        {
            let row = crate::traces::zero_vector::<N>(c);
            assert(row@ =~= Seq::new(c as nat, |j: int| N::zero_spec()));
            rows.push(row);
            i += 1;
        }
        let m = Matrix { rows };
        assert(m@ =~= zero_matrix_spec::<N>(r as nat, c as nat));
        m
    }

    /// Sets every entry to zero.
    pub fn fill_zero(&mut self)
        ensures
            final(self)@ == zeroed(old(self)@),
    {
        let n = self.rows.len();
        let mut out: Vec<Vec<N>> = Vec::new();
        let mut i: usize = 0;
        while i < n
            invariant
                i <= n,
                n == self.rows@.len(),
                out@.len() == i,
                forall|a: int|
                    0 <= a < i ==> (#[trigger] out@[a])@ == Seq::new(
                        self@[a].len(),
                        |j: int| N::zero_spec(),
                    ),
            decreases n - i,
        {
            let c = self.rows[i].len();
            let mut row: Vec<N> = Vec::new();
            let mut j: usize = 0;
            while j < c
                invariant
                    j <= c,
                    row@.len() == j,
                    forall|b: int| 0 <= b < j ==> row@[b] == N::zero_spec(),
                decreases c - j,
            {
                row.push(N::zero());
                j += 1;
            }
            assert(row@ =~= Seq::new(self@[i as int].len(), |j: int| N::zero_spec()));
            out.push(row);
            i += 1;
        }
        self.rows = out;
        assert(self@ =~= zeroed(old(self)@));
    }

    /// The product of the matrix with a vector that is no longer than its rows.
    pub fn mat_vec(&self, x: &Vec<N>) -> (r: Vec<N>)
        requires
            forall|i: int| 0 <= i < self@.len() ==> (#[trigger] self@[i]).len() >= x@.len(),
        ensures
            r@ == mat_vec_spec(self@, x@),
    {
        let n = self.rows.len();
        let mut out: Vec<N> = Vec::new();
        let mut i: usize = 0;
        while i < n
            invariant
                i <= n,
                n == self.rows@.len(),
                forall|a: int| 0 <= a < self@.len() ==> (#[trigger] self@[a]).len() >= x@.len(),
                out@.len() == i,
                forall|a: int| 0 <= a < i ==> out@[a] == dot_dense(self@[a], x@, x@.len()),
            decreases n - i,
        {
            assert(self@[i as int].len() >= x@.len());
            out.push(dot(&self.rows[i], x));
            i += 1;
        }
        assert(out@ =~= mat_vec_spec(self@, x@));
        out
    }

    /// Merges the outer product of two vectors into the matrix, entry by
    /// entry, through the caller's function of the entry and of the product
    /// `v[i] * g[j]`.
    pub fn merge_outer<F: Fn(N, N) -> N>(&mut self, v: &Vec<N>, g: &Vec<N>, f: F)
        requires
            has_shape(old(self)@, v@.len(), g@.len()),
            forall|x: N, y: N| f.requires((x, y)),
        ensures
            has_shape(final(self)@, v@.len(), g@.len()),
            forall|i: int, j: int|
                0 <= i < v@.len() && 0 <= j < g@.len() ==> f.ensures(
                    (old(self)@[i][j], v@[i].mul_spec(g@[j])),
                    #[trigger] final(self)@[i][j],
                ),
    {
        let n = v.len();
        let c = g.len();
        let mut i: usize = 0;
        while i < n
            invariant
                i <= n,
                n == v@.len(),
                c == g@.len(),
                has_shape(self@, n as nat, c as nat),
                has_shape(old(self)@, n as nat, c as nat),
                forall|x: N, y: N| f.requires((x, y)),
                forall|a: int, b: int|
                    0 <= a < i && 0 <= b < c ==> f.ensures(
                        (old(self)@[a][b], v@[a].mul_spec(g@[b])),
                        #[trigger] self@[a][b],
                    ),
                forall|a: int| i <= a < n ==> #[trigger] self@[a] == old(self)@[a],
            decreases n - i,
        {
            let mut j: usize = 0;
            while j < c
                invariant
                    j <= c,
                    i < n,
                    n == v@.len(),
                    c == g@.len(),
                    has_shape(self@, n as nat, c as nat),
                    has_shape(old(self)@, n as nat, c as nat),
                    forall|x: N, y: N| f.requires((x, y)),
                    forall|a: int, b: int|
                        0 <= a < i && 0 <= b < c ==> f.ensures(
                            (old(self)@[a][b], v@[a].mul_spec(g@[b])),
                            #[trigger] self@[a][b],
                        ),
                    forall|b: int|
                        0 <= b < j ==> f.ensures(
                            (old(self)@[i as int][b], v@[i as int].mul_spec(g@[b])),
                            #[trigger] self@[i as int][b],
                        ),
                    forall|b: int|
                        j <= b < c ==> #[trigger] self@[i as int][b] == old(self)@[i as int][b],
                    forall|a: int| i < a < n ==> #[trigger] self@[a] == old(self)@[a],
                decreases c - j,
            {
                assert(self@[i as int].len() == c);
                let ghost before = self@;
                let merged = f(self.rows[i][j], v[i].mul(g[j]));
                self.rows[i][j] = merged;
                assert(self@[i as int] =~= before[i as int].update(j as int, merged));
                assert forall|a: int| 0 <= a < n && a != i implies #[trigger] self@[a]
                    == before[a] by {
                    assert(self@[a] =~= before[a]);
                }
                j += 1;
            }
            i += 1;
        }
    }
}

} // verus!
