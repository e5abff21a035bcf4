//! The no-reference access tier: values move by copy only.

use vstd::prelude::*;
use crate::collection::{TrustedSizedCollection, TrustedChunkSizedCollection, chunk_of, splice_chunk};

verus! {

/// Copy-in/copy-out access to single elements.
///
/// No reference to an element is ever materialized by this tier: getters
/// return a bitwise copy and setters write a copy in.  Both the checked and
/// the unchecked variant of each accessor carry the same index-validity
/// precondition, so they return (or store) exactly the same value on every
/// valid index.
pub trait UnsafeNoRefIndex<T: Copy>: TrustedSizedCollection + View<V = Seq<T>> {
    /// Indices and elements correspond one to one.
    proof fn elems_count(&self)
        requires
            self.wf(),
        ensures
            self@.len() == self.spec_len(),
    ;

    /// Returns a copy of the element at `index`.
    fn get_value(&self, index: usize) -> (r: T)
        requires
            self.wf(),
            (index as nat) < self@.len(),
        ensures
            r == self@[index as int],
    ;

    /// Returns a copy of the element at `index`; the caller has already
    /// established that the index is valid.
    fn get_value_unchecked(&self, index: usize) -> (r: T)
        requires
            self.wf(),
            (index as nat) < self@.len(),
        ensures
            r == self@[index as int],
    ;

    /// Overwrites the element at `index` with `value`, leaving every other
    /// element unchanged.
    fn set_value(&mut self, index: usize, value: T)
        requires
            old(self).wf(),
            (index as nat) < old(self)@.len(),
        ensures
            final(self)@ == old(self)@.update(index as int, value),
            final(self).spec_len() == old(self).spec_len(),
            final(self).wf(),
    ;

    /// Overwrites the element at `index` with `value`; the caller has already
    /// established that the index is valid.
    fn set_value_unchecked(&mut self, index: usize, value: T)
        requires
            old(self).wf(),
            (index as nat) < old(self)@.len(),
        ensures
            final(self)@ == old(self)@.update(index as int, value),
            final(self).spec_len() == old(self).spec_len(),
            final(self).wf(),
    ;
}

/// Copy-in/copy-out access to whole chunks.
///
/// Chunk `index` covers the element indices
/// `[index * chunk_size, (index + 1) * chunk_size)`.  Getters fill a
/// caller-supplied buffer of exactly `chunk_size` elements; setters copy a
/// slice of exactly `chunk_size` elements in.
pub trait UnsafeNoRefChunkIndex<T: Copy>: TrustedChunkSizedCollection + View<V = Seq<T>> {
    /// The flattened contents cover exactly the advertised element count.
    proof fn elems_count(&self)
        requires
            self.wf(),
        ensures
            self@.len() == self.spec_num_elements(),
    ;

    /// Overwrites `out` with a copy of the chunk at `index` and returns it.
    fn get_values(&self, index: usize, out: Vec<T>) -> (r: Vec<T>)
        requires
            self.wf(),
            (index as nat) < self.spec_len(),
            out@.len() == self.spec_chunk_size(),
        ensures
            r@ == chunk_of(self@, self.spec_chunk_size(), index as nat),
    ;

    /// Overwrites `out` with a copy of the chunk at `index` and returns it;
    /// the caller has already established that the arguments are valid.
    fn get_values_unchecked(&self, index: usize, out: Vec<T>) -> (r: Vec<T>)
        requires
            self.wf(),
            (index as nat) < self.spec_len(),
            out@.len() == self.spec_chunk_size(),
        ensures
            r@ == chunk_of(self@, self.spec_chunk_size(), index as nat),
    ;

    /// Overwrites the chunk at `index` with `values`, leaving every other
    /// chunk unchanged.
    fn set_values(&mut self, index: usize, values: &[T])
        requires
            old(self).wf(),
            (index as nat) < old(self).spec_len(),
            values@.len() == old(self).spec_chunk_size(),
        ensures
            final(self)@ == splice_chunk(
                old(self)@,
                old(self).spec_chunk_size(),
                index as nat,
                values@,
            ),
            final(self).spec_len() == old(self).spec_len(),
            final(self).spec_chunk_size() == old(self).spec_chunk_size(),
            final(self).spec_num_elements() == old(self).spec_num_elements(),
            final(self).wf(),
    ;

    /// Overwrites the chunk at `index` with `values`; the caller has already
    /// established that the arguments are valid.
    fn set_values_unchecked(&mut self, index: usize, values: &[T])
        requires
            old(self).wf(),
            (index as nat) < old(self).spec_len(),
            values@.len() == old(self).spec_chunk_size(),
        ensures
            final(self)@ == splice_chunk(
                old(self)@,
                old(self).spec_chunk_size(),
                index as nat,
                values@,
            ),
            final(self).spec_len() == old(self).spec_len(),
            final(self).spec_chunk_size() == old(self).spec_chunk_size(),
            final(self).spec_num_elements() == old(self).spec_num_elements(),
            final(self).wf(),
    ;
}

/// Checked/unchecked equivalence for the copy-based getter: on a valid
/// index, any value the checked form may return and any value the unchecked
/// form may return are the same element, so the two accessors agree.  The
/// setters' contracts are likewise identical, so the same holds of the
/// states they produce.
pub proof fn lemma_get_value_checked_unchecked_agree<T: Copy, C: UnsafeNoRefIndex<T>>(
    c: &C,
    index: usize,
    checked: T,
    unchecked: T,
)
    requires
        c.wf(),
        (index as nat) < c@.len(),
        call_ensures(C::get_value, (c, index), checked),
        call_ensures(C::get_value_unchecked, (c, index), unchecked),
    ensures
        checked == unchecked,
{
}

/// Checked/unchecked equivalence for the chunk getter: on a valid chunk
/// index and a right-sized buffer, the two forms fill it with the same
/// elements.
pub proof fn lemma_get_values_checked_unchecked_agree<T: Copy, C: UnsafeNoRefChunkIndex<T>>(
    c: &C,
    index: usize,
    out1: Vec<T>,
    out2: Vec<T>,
    checked: Vec<T>,
    unchecked: Vec<T>,
)
    requires
        c.wf(),
        (index as nat) < c.spec_len(),
        out1@.len() == c.spec_chunk_size(),
        out2@.len() == c.spec_chunk_size(),
        call_ensures(C::get_values, (c, index, out1), checked),
        call_ensures(C::get_values_unchecked, (c, index, out2), unchecked),
    ensures
        checked@ == unchecked@,
{
}

} // verus!
