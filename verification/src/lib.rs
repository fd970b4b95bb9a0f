//! A value wrapper that equips a fixed-shape numeric point with a fast
//! Euclidean distance, for use with a metric-indexing structure.
//!
//! The wrapper itself and the positional pairing that the distance
//! computation walks are verified here. The floating-point reduction
//! (squared differences summed and rooted) is beyond Verus's reach and
//! lives with the embedding application code, on top of the pairing
//! proved below.

use vstd::prelude::*;

verus! {

/// Wrapper struct to apply a fast Euclidean distance to an object set.
///
/// A point wrapped here is meant to be compared only against points of the
/// same dimensionality whose coordinates keep every distance finite; that
/// obligation rests on the caller and is not checked at runtime.
#[derive(Debug, Clone)]
pub struct FastEuclidean<T>(T);

impl<T> FastEuclidean<T> {
    /// The wrapped point, as contracts see it.
    pub closed spec fn point(&self) -> T {
        self.0
    }

    /// Creates a new `FastEuclidean`.
    ///
    /// The caller must ensure that the Euclidean distance measurements
    /// between any two wrapped points can return neither NaN nor an
    /// infinity; nothing here validates that.
    pub fn new(t: T) -> (r: Self)
        ensures
            r.point() == t,
    {
        FastEuclidean(t)
    }

    /// Read-only access to the wrapped point, in place of a transparent
    /// dereference.
    pub fn get(&self) -> (r: &T)
        ensures
            *r == self.point(),
    {
        &self.0
    }

    /// Consumes the wrapper and hands the point back, so that its own
    /// iteration and access behaviour are available unchanged.
    pub fn into_inner(self) -> (r: T)
        ensures
            r == self.point(),
    {
        self.0
    }
}

/// The positional pairing that the distance computation walks: element `i`
/// of the result pairs element `i` of each sequence, and the result stops
/// at the shorter sequence. Comparing points of unequal dimensionality thus
/// silently truncates to the smaller dimension.
pub open spec fn paired_spec<A>(a: Seq<A>, b: Seq<A>) -> Seq<(A, A)> {
    Seq::new(vstd::math::min(a.len() as int, b.len() as int) as nat, |i: int| (a[i], b[i]))
}

/// Pairs the two coordinate sequences by position, truncating to the
/// shorter one.
pub fn paired<A: Copy>(a: &Vec<A>, b: &Vec<A>) -> (r: Vec<(A, A)>)
    ensures
        r@ == paired_spec(a@, b@),
{
    let n: usize = if a.len() <= b.len() {
        a.len()
    } else {
        b.len()
    };
    let mut r: Vec<(A, A)> = Vec::new();
    let mut i: usize = 0;
    while i < n
        invariant
            i <= n,
            n == vstd::math::min(a@.len() as int, b@.len() as int),
            r@.len() == i as int,
            forall|j: int| 0 <= j < i ==> r@[j] == (a@[j], b@[j]),
        decreases n - i,
    {
        r.push((a[i], b[i]));
        i = i + 1;
    }
    assert(r@ =~= paired_spec(a@, b@));
    r
}

/// Law: the pairing is symmetric up to swapping the components of each
/// pair. The distance walk over `(b, a)` therefore sees exactly the
/// coordinate pairs of the walk over `(a, b)`, each in reverse order.
pub proof fn lemma_paired_swap<A>(a: Seq<A>, b: Seq<A>)
    ensures
        paired_spec(b, a) == paired_spec(a, b).map(|i: int, p: (A, A)| (p.1, p.0)),
{
    assert(paired_spec(b, a) =~= paired_spec(a, b).map(|i: int, p: (A, A)| (p.1, p.0)));
}

/// Law: pairing a sequence with itself yields pairs of equal components,
/// so a point compared with itself feeds only zero coordinate differences
/// into the distance reduction.
pub proof fn lemma_paired_self<A>(a: Seq<A>)
    ensures
        forall|i: int|
            0 <= i < paired_spec(a, a).len() ==> #[trigger] paired_spec(a, a)[i].0 == paired_spec(
                a,
                a,
            )[i].1,
{
}

/// Law: pairing truncates to the shorter sequence. Pairing two sequences
/// gives exactly the pairing of their common-length prefixes; coordinates
/// beyond the smaller dimension are silently dropped, never reconciled.
pub proof fn lemma_paired_truncates<A>(a: Seq<A>, b: Seq<A>)
    ensures
        paired_spec(a, b) == paired_spec(
            a.take(vstd::math::min(a.len() as int, b.len() as int)),
            b.take(vstd::math::min(a.len() as int, b.len() as int)),
        ),
{
    assert(paired_spec(a, b) =~= paired_spec(
        a.take(vstd::math::min(a.len() as int, b.len() as int)),
        b.take(vstd::math::min(a.len() as int, b.len() as int)),
    ));
}

} // verus!
