//! The copy-based access tier under terse getter/setter names.

use vstd::prelude::*;
use crate::collection::{TrustedSizedCollection, TrustedChunkSizedCollection, chunk_of, splice_chunk};

verus! {

/// Copy-in/copy-out access to single elements, under the `get`/`set` names.
///
/// Semantically this tier matches [`crate::no_ref::UnsafeNoRefIndex`]: values
/// move by copy only and no reference to an element ever escapes.  Checked and
/// unchecked variants carry the same index-validity precondition and agree on
/// every valid index.
pub trait UnsafeDataRaceAccess<T: Copy>: TrustedSizedCollection + View<V = Seq<T>> {
    /// Indices and elements correspond one to one.
    proof fn elems_count(&self)
        requires
            self.wf(),
        ensures
            self@.len() == self.spec_len(),
    ;

    /// Returns a copy of the element at `index`.
    fn get(&self, index: usize) -> (r: T)
        requires
            self.wf(),
            (index as nat) < self@.len(),
        ensures
            r == self@[index as int],
    ;

    /// Returns a copy of the element at `index`; the caller has already
    /// established that the index is valid.
    fn get_unchecked(&self, index: usize) -> (r: T)
        requires
            self.wf(),
            (index as nat) < self@.len(),
        ensures
            r == self@[index as int],
    ;

    /// Overwrites the element at `index` with `value`, leaving every other
    /// element unchanged.
    fn set(&mut self, index: usize, value: T)
        requires
            old(self).wf(),
            (index as nat) < old(self)@.len(),
        ensures
            final(self)@ == old(self)@.update(index as int, value),
            final(self).spec_len() == old(self).spec_len(),
            final(self).wf(),
    ;

    /// Overwrites the element at `index` with `value`; the caller has already
    /// established that the index is valid.
    fn set_unchecked(&mut self, index: usize, value: T)
        requires
            old(self).wf(),
            (index as nat) < old(self)@.len(),
        ensures
            final(self)@ == old(self)@.update(index as int, value),
            final(self).spec_len() == old(self).spec_len(),
            final(self).wf(),
    ;
}

/// Copy-in/copy-out access to whole chunks, under the `get`/`set` names.
///
/// Getters return a freshly allocated buffer holding a copy of the chunk;
/// setters copy a slice of exactly `chunk_size` elements in.
pub trait UnsafeDataRaceChunkAccess<T: Copy>: TrustedChunkSizedCollection + View<
    V = Seq<T>,
> {
    /// The flattened contents cover exactly the advertised element count.
    proof fn elems_count(&self)
        requires
            self.wf(),
        ensures
            self@.len() == self.spec_num_elements(),
    ;

    /// Returns a fresh buffer holding a copy of the chunk at `index`.
    fn get(&self, index: usize) -> (r: Vec<T>)
        requires
            self.wf(),
            (index as nat) < self.spec_len(),
        ensures
            r@ == chunk_of(self@, self.spec_chunk_size(), index as nat),
    ;

    /// Returns a fresh buffer holding a copy of the chunk at `index`; the
    /// caller has already established that the index is valid.
    fn get_unchecked(&self, index: usize) -> (r: Vec<T>)
        requires
            self.wf(),
            (index as nat) < self.spec_len(),
        ensures
            r@ == chunk_of(self@, self.spec_chunk_size(), index as nat),
    ;

    /// Overwrites the chunk at `index` with `values`, leaving every other
    /// chunk unchanged.
    fn set(&mut self, index: usize, values: &[T])
        requires
            old(self).wf(),
            (index as nat) < old(self).spec_len(),
            values@.len() == old(self).spec_chunk_size(),
        ensures
            final(self)@ == splice_chunk(
                old(self)@,
                old(self).spec_chunk_size(),
                index as nat,
                values@,
            ),
            final(self).spec_len() == old(self).spec_len(),
            final(self).spec_chunk_size() == old(self).spec_chunk_size(),
            final(self).spec_num_elements() == old(self).spec_num_elements(),
            final(self).wf(),
    ;

    /// Overwrites the chunk at `index` with `values`; the caller has already
    /// established that the arguments are valid.
    fn set_unchecked(&mut self, index: usize, values: &[T])
        requires
            old(self).wf(),
            (index as nat) < old(self).spec_len(),
            values@.len() == old(self).spec_chunk_size(),
        ensures
            final(self)@ == splice_chunk(
                old(self)@,
                old(self).spec_chunk_size(),
                index as nat,
                values@,
            ),
            final(self).spec_len() == old(self).spec_len(),
            final(self).spec_chunk_size() == old(self).spec_chunk_size(),
            final(self).spec_num_elements() == old(self).spec_num_elements(),
            final(self).wf(),
    ;
}

/// Checked/unchecked equivalence for the copy-based getter under its
/// terse name: on a valid index the two forms return the same element.
pub proof fn lemma_get_checked_unchecked_agree<T: Copy, C: UnsafeDataRaceAccess<T>>(
    c: &C,
    index: usize,
    checked: T,
    unchecked: T,
)
    requires
        c.wf(),
        (index as nat) < c@.len(),
        call_ensures(C::get, (c, index), checked),
        call_ensures(C::get_unchecked, (c, index), unchecked),
    ensures
        checked == unchecked,
{
}

/// Checked/unchecked equivalence for the chunk getter under its terse
/// name: on a valid chunk index the two forms return buffers with the same
/// elements.
pub proof fn lemma_chunk_get_checked_unchecked_agree<T: Copy, C: UnsafeDataRaceChunkAccess<T>>(
    c: &C,
    index: usize,
    checked: Vec<T>,
    unchecked: Vec<T>,
)
    requires
        c.wf(),
        (index as nat) < c.spec_len(),
        call_ensures(C::get, (c, index), checked),
        call_ensures(C::get_unchecked, (c, index), unchecked),
    ensures
        checked@ == unchecked@,
{
}

} // verus!
