//! Eligibility traces: a decaying memory of the gradients a learner has seen.
use crate::features::{Features, FeaturesView};
use crate::scalar::Scalar;
use vstd::prelude::*;

verus! {

/// How a trace takes a new gradient in.
pub enum TraceKind<N> {
    /// The gradient is added to the trace.
    Accumulating,
    /// Every active component of the gradient sets its component of the
    /// trace to the given value.
    Replacing(N),
}

/// A trace vector, of the dimension of the gradients that it follows.
pub struct Trace<N> {
    kind: TraceKind<N>,
    eligibility: Features<N>,
}

/// The vector of `n` zeros.
pub open spec fn zeros<N: Scalar>(n: nat) -> Seq<N> {
    Seq::new(n, |i: int| N::zero_spec())
}

/// Every component times `decay`.
pub open spec fn scaled<N: Scalar>(t: Seq<N>, decay: N) -> Seq<N> {
    Seq::new(t.len(), |i: int| t[i].mul_spec(decay))
}

/// The trace `t` after it has taken in the gradient `g`.
pub open spec fn updated<N: Scalar>(kind: TraceKind<N>, t: Seq<N>, g: FeaturesView<N>) -> Seq<N> {
    match kind {
        TraceKind::Accumulating => g.added_to(t),
        TraceKind::Replacing(value) => Seq::new(
            t.len(),
            |i: int|
                if g.active(i) {
                    value
                } else {
                    t[i]
                },
        ),
    }
}

/// The vector of `n` zeros.
pub fn zero_vector<N: Scalar>(n: usize) -> (v: Vec<N>)
    ensures
        v@ == zeros::<N>(n as nat),
{
    let mut v: Vec<N> = Vec::new();
    let mut i: usize = 0;
    while i < n
        invariant
            i <= n,
            v@.len() == i,
            forall|j: int| 0 <= j < i ==> v@[j] == N::zero_spec(),
        decreases n - i,
    {
        v.push(N::zero());
        i += 1;
    }
    assert(v@ =~= zeros::<N>(n as nat));
    v
}

impl<N> Trace<N> {
    #[verifier::type_invariant]
    spec fn is_dense(self) -> bool {
        self.eligibility is Dense
    }
}

impl<N: Scalar> Trace<N> {
    /// The components of the trace, in order.
    pub closed spec fn values(&self) -> Seq<N> {
        match self.eligibility {
            Features::Dense(v) => v@,
            Features::Sparse(_, _) => Seq::empty(),
        }
    }

    /// How the trace takes a gradient in.
    pub closed spec fn kind(&self) -> TraceKind<N> {
        self.kind
    }

    /// The accumulating trace of `dim` zeros.
    pub fn accumulating(dim: usize) -> (t: Self)
        ensures
            t.values() == zeros::<N>(dim as nat),
            t.kind() == TraceKind::<N>::Accumulating,
    {
        Trace { kind: TraceKind::Accumulating, eligibility: Features::Dense(zero_vector(dim)) }
    }

    /// The replacing trace of `dim` zeros whose active components are set to `value`.
    pub fn replacing(dim: usize, value: N) -> (t: Self)
        ensures
            t.values() == zeros::<N>(dim as nat),
            t.kind() == TraceKind::Replacing(value),
    {
        Trace { kind: TraceKind::Replacing(value), eligibility: Features::Dense(zero_vector(dim)) }
    }

    /// Number of components.
    pub fn len(&self) -> (n: usize)
        ensures
            n == self.values().len(),
    {
        proof {
            use_type_invariant(self);
        }
        match &self.eligibility {
            Features::Dense(v) => v.len(),
            Features::Sparse(_, _) => 0,
        }
    }

    /// The trace as a dense feature vector.
    pub open spec fn deref_spec(&self) -> FeaturesView<N> {
        FeaturesView::Dense(self.values())
    }

    /// The trace as a gradient: the direction of a weight update.
    pub fn deref(&self) -> (g: &Features<N>)
        ensures
            g@ == self.deref_spec(),
    {
        proof {
            use_type_invariant(self);
        }
        &self.eligibility
    }

    /// Multiplies every component by `decay`.
    pub fn scale(&mut self, decay: N)
        ensures
            final(self).values() == scaled(old(self).values(), decay),
            final(self).kind() == old(self).kind(),
    {
        proof {
            use_type_invariant(&*self);
        }
        let n = self.len();
        let mut out: Vec<N> = Vec::new();
        let mut i: usize = 0;
        while i < n
            invariant
                i <= n,
                n == self.values().len(),
                out@.len() == i,
                forall|j: int| 0 <= j < i ==> out@[j] == self.values()[j].mul_spec(decay),
            decreases n - i,
        {
            out.push(self.eligibility.at(i).mul(decay));
            i += 1;
        }
        assert(out@ =~= scaled(self.values(), decay));
        self.eligibility = Features::Dense(out);
    }

    /// Takes the gradient in: adds it, or sets what it makes active.
    pub fn update(&mut self, grad: &Features<N>)
        ensures
            final(self).values() == updated(old(self).kind(), old(self).values(), grad@),
            final(self).kind() == old(self).kind(),
    {
        proof {
            use_type_invariant(&*self);
        }
        match &self.kind {
            TraceKind::Accumulating => {
                let mut out = self.eligibility.expanded();
                assert(out@ =~= self.values());
                grad.addto(&mut out);
                self.eligibility = Features::Dense(out);
            },
            TraceKind::Replacing(set) => {
                let value = *set;
                let n = self.len();
                let mut out: Vec<N> = Vec::new();
                let mut i: usize = 0;
                while i < n
                    invariant
                        i <= n,
                        n == self.values().len(),
                        out@.len() == i,
                        forall|j: int|
                            0 <= j < i ==> out@[j] == (if grad@.active(j) {
                                value
                            } else {
                                self.values()[j]
                            }),
                    decreases n - i,
                {
                    if grad.is_active(i) {
                        out.push(value);
                    } else {
                        out.push(self.eligibility.at(i));
                    }
                    i += 1;
                }
                assert(out@ =~= updated(self.kind, self.values(), grad@));
                self.eligibility = Features::Dense(out);
            },
        }
    }

    /// Decays the trace and then takes the gradient in. A replacing trace is
    /// left with its set value where the gradient is active and with the
    /// decayed component elsewhere.
    pub fn scaled_update(&mut self, decay: N, grad: &Features<N>)
        ensures
            final(self).values() == updated(
                old(self).kind(),
                scaled(old(self).values(), decay),
                grad@,
            ),
            final(self).kind() == old(self).kind(),
    {
        self.scale(decay);
        self.update(grad);
    }

    /// Sets every component to zero.
    pub fn reset(&mut self)
        ensures
            final(self).values() == zeros::<N>(old(self).values().len()),
            final(self).kind() == old(self).kind(),
    {
        let n = self.len();
        self.eligibility = Features::Dense(zero_vector(n));
    }

    /// Merges another vector into the trace, component by component,
    /// through the caller's function of the trace's and the other's component.
    pub fn combine_inplace<F: Fn(N, N) -> N>(&mut self, other: &Features<N>, f: F)
        requires
            forall|x: N, y: N| f.requires((x, y)),
        ensures
            final(self).values().len() == old(self).values().len(),
            forall|i: int|
                0 <= i < old(self).values().len() ==> f.ensures(
                    (old(self).values()[i], other@.at(i)),
                    #[trigger] final(self).values()[i],
                ),
            final(self).kind() == old(self).kind(),
    {
        proof {
            use_type_invariant(&*self);
        }
        let n = self.len();
        let mut out: Vec<N> = Vec::new();
        let mut i: usize = 0;
        while i < n
            invariant
                i <= n,
                n == self.values().len(),
                out@.len() == i,
                forall|x: N, y: N| f.requires((x, y)),
                forall|j: int|
                    0 <= j < i ==> f.ensures((self.values()[j], other@.at(j)), #[trigger] out@[j]),
            decreases n - i,
        {
            let merged = f(self.eligibility.at(i), other.at(i));
            out.push(merged);
            i += 1;
        }
        self.eligibility = Features::Dense(out);
    }
}

} // verus!
