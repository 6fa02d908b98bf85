use vstd::prelude::*;

verus! {

/// A function from a point of `DIM` coordinates of type `T` to a value of type `V`.
///
/// `value_at` is the mathematical function that an implementation computes; a call of
/// `get` may change the implementation's internal state, but never that function.
pub trait NoiseFn<T, V, const DIM: usize> {
    /// The value that `get` returns at `point`.
    spec fn value_at(&self, point: [T; DIM]) -> V;

    /// The internal invariant of the implementation.
    spec fn well_formed(&self) -> bool;

    /// The value at `point`.
    fn get(&mut self, point: [T; DIM]) -> (r: V)
        requires
            old(self).well_formed(),
        ensures
            final(self).well_formed(),
            r == old(self).value_at(point),
            forall|p: [T; DIM]| #[trigger] final(self).value_at(p) == old(self).value_at(p),
    ;
}

} // verus!
