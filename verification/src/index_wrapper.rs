//! An adapter that lets a collection be indexed by any [`AsUsize`] type.

use vstd::prelude::*;
use crate::collection::{TrustedSizedCollection, chunk_of, splice_chunk};
use crate::no_ref::{UnsafeNoRefIndex, UnsafeNoRefChunkIndex};
use crate::unsafe_index::UnsafeIndex;
use crate::indexing::AsUsize;

verus! {

/// A wrapper on a collection that accepts indices of any type with an
/// injective mapping into `usize`.
///
/// Every forwarded accessor first maps the index through
/// [`AsUsize::as_usize`] and then behaves exactly as the backing collection's
/// accessor of the same name.
pub struct IndexWrapper<I, T, B> {
    backend: B,
    index_marker: core::marker::PhantomData<I>,
    elem_marker: core::marker::PhantomData<T>,
}

impl<I: AsUsize, T, B> IndexWrapper<I, T, B> {
    /// The wrapped collection.
    pub closed spec fn spec_inner(&self) -> B {
        self.backend
    }

    /// Wraps the given collection so it accepts indices of type `I`.
    pub fn new(collection: B) -> (r: Self)
        ensures
            r.spec_inner() == collection,
    {
        IndexWrapper {
            backend: collection,
            index_marker: core::marker::PhantomData,
            elem_marker: core::marker::PhantomData,
        }
    }

    /// Consumes the wrapper, returning the wrapped collection.
    pub fn into_inner(self) -> (r: B)
        ensures
            r == self.spec_inner(),
    {
        self.backend
    }
}

impl<I: AsUsize, T: Copy, B: UnsafeNoRefIndex<T>> IndexWrapper<I, T, B> {
    /// Forwards [`UnsafeNoRefIndex::get_value`] with the mapped index.
    pub fn get_value(&self, index: &I) -> (r: T)
        requires
            self.spec_inner().wf(),
            (index.spec_as_usize() as nat) < self.spec_inner()@.len(),
        ensures
            r == self.spec_inner()@[index.spec_as_usize() as int],
    {
        self.backend.get_value(index.as_usize())
    }

    /// Forwards [`UnsafeNoRefIndex::get_value_unchecked`] with the mapped
    /// index.
    pub fn get_value_unchecked(&self, index: &I) -> (r: T)
        requires
            self.spec_inner().wf(),
            (index.spec_as_usize() as nat) < self.spec_inner()@.len(),
        ensures
            r == self.spec_inner()@[index.spec_as_usize() as int],
    {
        self.backend.get_value_unchecked(index.as_usize())
    }

    /// Forwards [`UnsafeNoRefIndex::set_value`] with the mapped index.
    pub fn set_value(&mut self, index: &I, value: T)
        requires
            old(self).spec_inner().wf(),
            (index.spec_as_usize() as nat) < old(self).spec_inner()@.len(),
        ensures
            final(self).spec_inner()@ == old(self).spec_inner()@.update(
                index.spec_as_usize() as int,
                value,
            ),
            final(self).spec_inner().spec_len() == old(self).spec_inner().spec_len(),
            final(self).spec_inner().wf(),
    {
        self.backend.set_value(index.as_usize(), value);
    }

    /// Forwards [`UnsafeNoRefIndex::set_value_unchecked`] with the mapped
    /// index.
    pub fn set_value_unchecked(&mut self, index: &I, value: T)
        requires
            old(self).spec_inner().wf(),
            (index.spec_as_usize() as nat) < old(self).spec_inner()@.len(),
        ensures
            final(self).spec_inner()@ == old(self).spec_inner()@.update(
                index.spec_as_usize() as int,
                value,
            ),
            final(self).spec_inner().spec_len() == old(self).spec_inner().spec_len(),
            final(self).spec_inner().wf(),
    {
        self.backend.set_value_unchecked(index.as_usize(), value);
    }
}

impl<I: AsUsize, T, B: UnsafeIndex<T>> IndexWrapper<I, T, B> {
    /// Forwards [`UnsafeIndex::get`] with the mapped index.
    pub fn get(&self, index: &I) -> (r: &T)
        requires
            self.spec_inner().wf(),
            (index.spec_as_usize() as nat) < self.spec_inner()@.len(),
        ensures
            *r == self.spec_inner()@[index.spec_as_usize() as int],
    {
        self.backend.get(index.as_usize())
    }

    /// Forwards [`UnsafeIndex::get_unchecked`] with the mapped index.
    pub fn get_unchecked(&self, index: &I) -> (r: &T)
        requires
            self.spec_inner().wf(),
            (index.spec_as_usize() as nat) < self.spec_inner()@.len(),
        ensures
            *r == self.spec_inner()@[index.spec_as_usize() as int],
    {
        self.backend.get_unchecked(index.as_usize())
    }

    /// Forwards [`UnsafeIndex::get_mut`] with the mapped index.
    pub fn get_mut(&mut self, index: &I) -> (r: &mut T)
        requires
            old(self).spec_inner().wf(),
            (index.spec_as_usize() as nat) < old(self).spec_inner()@.len(),
        ensures
            *r == old(self).spec_inner()@[index.spec_as_usize() as int],
            final(self).spec_inner()@ == old(self).spec_inner()@.update(
                index.spec_as_usize() as int,
                *final(r),
            ),
            final(self).spec_inner().spec_len() == old(self).spec_inner().spec_len(),
            final(self).spec_inner().wf(),
    {
        self.backend.get_mut(index.as_usize())
    }

    /// Forwards [`UnsafeIndex::get_mut_unchecked`] with the mapped index.
    pub fn get_mut_unchecked(&mut self, index: &I) -> (r: &mut T)
        requires
            old(self).spec_inner().wf(),
            (index.spec_as_usize() as nat) < old(self).spec_inner()@.len(),
        ensures
            *r == old(self).spec_inner()@[index.spec_as_usize() as int],
            final(self).spec_inner()@ == old(self).spec_inner()@.update(
                index.spec_as_usize() as int,
                *final(r),
            ),
            final(self).spec_inner().spec_len() == old(self).spec_inner().spec_len(),
            final(self).spec_inner().wf(),
    {
        self.backend.get_mut_unchecked(index.as_usize())
    }
}

impl<I: AsUsize, T: Copy, B: UnsafeNoRefChunkIndex<T>> IndexWrapper<I, T, B> {
    /// Forwards [`UnsafeNoRefChunkIndex::get_values`] with the mapped index.
    pub fn get_values(&self, index: &I, out: Vec<T>) -> (r: Vec<T>)
        requires
            self.spec_inner().wf(),
            (index.spec_as_usize() as nat) < self.spec_inner().spec_len(),
            out@.len() == self.spec_inner().spec_chunk_size(),
        ensures
            r@ == chunk_of(
                self.spec_inner()@,
                self.spec_inner().spec_chunk_size(),
                index.spec_as_usize() as nat,
            ),
    {
        self.backend.get_values(index.as_usize(), out)
    }

    /// Forwards [`UnsafeNoRefChunkIndex::get_values_unchecked`] with the
    /// mapped index.
    pub fn get_values_unchecked(&self, index: &I, out: Vec<T>) -> (r: Vec<T>)
        requires
            self.spec_inner().wf(),
            (index.spec_as_usize() as nat) < self.spec_inner().spec_len(),
            out@.len() == self.spec_inner().spec_chunk_size(),
        ensures
            r@ == chunk_of(
                self.spec_inner()@,
                self.spec_inner().spec_chunk_size(),
                index.spec_as_usize() as nat,
            ),
    {
        self.backend.get_values_unchecked(index.as_usize(), out)
    }

    /// Forwards [`UnsafeNoRefChunkIndex::set_values`] with the mapped index.
    pub fn set_values(&mut self, index: &I, values: &[T])
        requires
            old(self).spec_inner().wf(),
            (index.spec_as_usize() as nat) < old(self).spec_inner().spec_len(),
            values@.len() == old(self).spec_inner().spec_chunk_size(),
        ensures
            final(self).spec_inner()@ == splice_chunk(
                old(self).spec_inner()@,
                old(self).spec_inner().spec_chunk_size(),
                index.spec_as_usize() as nat,
                values@,
            ),
            final(self).spec_inner().spec_len() == old(self).spec_inner().spec_len(),
            final(self).spec_inner().spec_chunk_size() == old(
                self,
            ).spec_inner().spec_chunk_size(),
            final(self).spec_inner().wf(),
    {
        self.backend.set_values(index.as_usize(), values);
    }

    /// Forwards [`UnsafeNoRefChunkIndex::set_values_unchecked`] with the
    /// mapped index.
    pub fn set_values_unchecked(&mut self, index: &I, values: &[T])
        requires
            old(self).spec_inner().wf(),
            (index.spec_as_usize() as nat) < old(self).spec_inner().spec_len(),
            values@.len() == old(self).spec_inner().spec_chunk_size(),
        ensures
            final(self).spec_inner()@ == splice_chunk(
                old(self).spec_inner()@,
                old(self).spec_inner().spec_chunk_size(),
                index.spec_as_usize() as nat,
                values@,
            ),
            final(self).spec_inner().spec_len() == old(self).spec_inner().spec_len(),
            final(self).spec_inner().spec_chunk_size() == old(
                self,
            ).spec_inner().spec_chunk_size(),
            final(self).spec_inner().wf(),
    {
        self.backend.set_values_unchecked(index.as_usize(), values);
    }
}

} // verus!
