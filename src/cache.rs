use crate::noise_fn::NoiseFn;
use vstd::prelude::*;

verus! {

/// Two coordinate sequences of equal length are the same point when every pair of
/// elements at one index compares equal under `T`'s `==`.
pub open spec fn same_point<T: PartialEq>(a: Seq<T>, b: Seq<T>) -> bool {
    &&& a.len() == b.len()
    &&& forall|i: int|
        0 <= i < a.len() ==> #[trigger] vstd::std_specs::cmp::PartialEqSpec::eq_spec(&a[i], &b[i])
}

/// Element-wise comparison of two coordinate slices of equal length.
fn quick_eq<T: PartialEq>(a: &[T], b: &[T]) -> (r: bool)
    requires
        a@.len() == b@.len(),
        <T as vstd::std_specs::cmp::PartialEqSpec>::obeys_eq_spec(),
    ensures
        r == same_point(a@, b@),
{
    let mut i: usize = 0;
    while i < a.len()
        invariant
            a@.len() == b@.len(),
            <T as vstd::std_specs::cmp::PartialEqSpec>::obeys_eq_spec(),
            0 <= i <= a@.len(),
            forall|j: int|
                0 <= j < i ==> #[trigger] vstd::std_specs::cmp::PartialEqSpec::eq_spec(
                    &a@[j],
                    &b@[j],
                ),
        decreases a@.len() - i,
    {
        if !(a[i] == b[i]) {
            return false;
        }
        i = i + 1;
    }
    true
}

/// Whether a cache holding `entry` answers a query at `point` without asking its source:
/// it holds an entry, and the entry's point is the same point as `point`.
pub open spec fn hits<T: PartialEq, V, const DIM: usize>(
    entry: Option<([T; DIM], V)>,
    point: [T; DIM],
) -> bool {
    match entry {
        Some((p, _)) => same_point(p@, point@),
        None => false,
    }
}

/// A function that remembers the last point it was asked for and the value that its
/// source gave there.
///
/// When `get` is called with the same point as the call before it, the remembered value
/// is returned and the source is not asked; at any other point the source is asked and
/// its answer replaces the remembered pair. This pays off when one source feeds several
/// others that ask it for the same point in turn.
#[derive(Clone)]
pub struct Cache<Source, T, V, const DIM: usize> {
    /// The function whose values are remembered.
    source: Source,
    entry: Option<([T; DIM], V)>,
    calls: Ghost<nat>,
}

impl<Source, T, V, const DIM: usize> Cache<Source, T, V, DIM> {
    /// The remembered point and value, if any.
    pub closed spec fn entry(&self) -> Option<([T; DIM], V)> {
        self.entry
    }

    /// The function whose values are remembered.
    pub closed spec fn spec_source(&self) -> Source {
        self.source
    }

    /// How many times this cache has asked its source for a value.
    pub closed spec fn source_calls(&self) -> nat {
        self.calls@
    }

    pub fn new(source: Source) -> (r: Self)
        ensures
            r.spec_source() == source,
            r.entry() == None::<([T; DIM], V)>,
            r.source_calls() == 0,
    {
        Cache { source, entry: None, calls: Ghost(0) }
    }

    /// The function whose values are remembered.
    pub fn source(&self) -> (r: &Source)
        ensures
            *r == self.spec_source(),
    {
        &self.source
    }
}

impl<Source, T, V, const DIM: usize> NoiseFn<T, V, DIM> for Cache<Source, T, V, DIM> where
    Source: NoiseFn<T, V, DIM>,
    T: PartialEq + Copy,
    V: Copy,
 {
    open spec fn value_at(&self, point: [T; DIM]) -> V {
        self.spec_source().value_at(point)
    }

    /// The source is well formed, `==` on `T` is exact equality, and a remembered value
    /// is the source's value at the remembered point.
    open spec fn well_formed(&self) -> bool {
        &&& self.spec_source().well_formed()
        &&& vstd::laws_eq::obeys_concrete_eq::<T>()
        &&& match self.entry() {
            Some((p, v)) => v == self.spec_source().value_at(p),
            None => true,
        }
    }

    /// Returns the source's value at `point`: the remembered one where `point` is the
    /// remembered point, else a fresh one from the source, which is then remembered.
    fn get(&mut self, point: [T; DIM]) -> (r: V)
        ensures
            r == old(self).spec_source().value_at(point),
            final(self).entry() == Some((point, r)),
            hits(old(self).entry(), point) ==> {
                &&& final(self).spec_source() == old(self).spec_source()
                &&& final(self).source_calls() == old(self).source_calls()
            },
            !hits(old(self).entry(), point) ==> final(self).source_calls()
                == old(self).source_calls() + 1,
    {
        if let Some(e) = &self.entry {
            let (a, b) = (e.0.as_slice(), point.as_slice());
            proof {
                reveal(vstd::laws_eq::obeys_concrete_eq);
            }
            if quick_eq(a, b) {
                proof {
                    lemma_same_point_exact(e.0, point);
                }
                return e.1;
            }
        }
        let value = self.source.get(point);
        self.entry = Some((point, value));
        self.calls = Ghost(self.calls@ + 1);
        value
    }
}

/// Where `==` on `T` is exact equality, two points are the same point exactly when
/// they are equal.
proof fn lemma_same_point_exact<T: PartialEq, const DIM: usize>(a: [T; DIM], b: [T; DIM])
    requires
        vstd::laws_eq::obeys_concrete_eq::<T>(),
    ensures
        same_point(a@, b@) <==> a == b,
{
    broadcast use vstd::array::group_array_axioms;

    reveal(vstd::laws_eq::obeys_concrete_eq);
    if same_point(a@, b@) {
        assert forall|i: int| 0 <= i < DIM implies a[i] == b[i] by {
            assert(vstd::std_specs::cmp::PartialEqSpec::eq_spec(&a@[i], &b@[i]));
        }
        assert(a =~= b);
    }
    if a == b {
        assert forall|i: int| 0 <= i < DIM implies #[trigger]
            vstd::std_specs::cmp::PartialEqSpec::eq_spec(&a@[i], &b@[i]) by {}
    }
}

/// Once a call at `point` has returned `value`, the next call at `point` hits: the source
/// is not asked again, and `value` is returned again.
pub proof fn lemma_repeat_hits<Source, T, V, const DIM: usize>(
    c: Cache<Source, T, V, DIM>,
    point: [T; DIM],
    value: V,
) where Source: NoiseFn<T, V, DIM>, T: PartialEq + Copy, V: Copy
    requires
        c.well_formed(),
        c.entry() == Some((point, value)),
    ensures
        hits(c.entry(), point),
        c.value_at(point) == value,
{
    lemma_same_point_exact(point, point);
}

/// After a call at `p1`, a call at a point `p2` that differs from `p1` in some coordinate
/// misses, so that `get` asks the source once more and returns its value at `p2`.
pub proof fn lemma_miss_on_change<Source, T, V, const DIM: usize>(
    c: Cache<Source, T, V, DIM>,
    p1: [T; DIM],
    v1: V,
    p2: [T; DIM],
) where Source: NoiseFn<T, V, DIM>, T: PartialEq + Copy, V: Copy
    requires
        c.well_formed(),
        c.entry() == Some((p1, v1)),
        exists|i: int| 0 <= i < DIM && p1@[i] != p2@[i],
    ensures
        !hits(c.entry(), p2),
{
    lemma_same_point_exact(p1, p2);
}

/// The cache holds one entry only: after a call at `p1` and then a call at a different
/// point `p2`, a new call at `p1` misses again.
pub proof fn lemma_single_slot<Source, T, V, const DIM: usize>(
    c1: Cache<Source, T, V, DIM>,
    c2: Cache<Source, T, V, DIM>,
    p1: [T; DIM],
    v1: V,
    p2: [T; DIM],
    v2: V,
) where Source: NoiseFn<T, V, DIM>, T: PartialEq + Copy, V: Copy
    requires
        c1.well_formed(),
        c2.well_formed(),
        c1.entry() == Some((p1, v1)),
        c2.entry() == Some((p2, v2)),
        p1 != p2,
    ensures
        !hits(c1.entry(), p2),
        !hits(c2.entry(), p1),
{
    lemma_same_point_exact(p1, p2);
    lemma_same_point_exact(p2, p1);
}

/// A cache that holds no entry misses at every point: the first call after `new` asks
/// the source.
pub proof fn lemma_fresh_misses<Source, T, V, const DIM: usize>(
    c: Cache<Source, T, V, DIM>,
    point: [T; DIM],
) where T: PartialEq
    requires
        c.entry() == None::<([T; DIM], V)>,
    ensures
        !hits(c.entry(), point),
{
}

} // verus!
