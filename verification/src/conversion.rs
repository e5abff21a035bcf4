//! Conversions between plain buffers and tiered wrappers.

use vstd::prelude::*;
use crate::collection::{divides_evenly, TrustedSizedCollection, TrustedChunkSizedCollection};
use crate::owned_slice::OwnedParSlice;
use crate::owned_chunk_slice::OwnedParChunkSlice;

verus! {

/// A value-to-value conversion that consumes a plain collection and produces
/// a tiered wrapper over the same elements.
///
/// Every conversion preserves the length and the element at every index, and
/// the wrapper can be converted back to a plain collection (through
/// `into_inner` or `Into`) with the same guarantee, so a conversion round
/// trip without intervening writes is the identity on the contents.
///
/// The chunked conversions demand that `chunk_size` divides the collection's
/// length exactly; the resulting wrapper's chunk partition covers the
/// collection's original indices in order (chunk 0 holds indices
/// `0..chunk_size`, chunk 1 holds `chunk_size..2 * chunk_size`, and so on).
pub trait IntoParIndex<T>: Sized + View<V = Seq<T>> {
    /// Converts the collection into one accessed through copy-based getters
    /// and setters.
    fn into_par_index_no_ref(self) -> (r: OwnedParSlice<T>)
        ensures
            r@ == self@,
            r.wf(),
            r.spec_len() == self@.len(),
    ;

    /// Converts the collection into one accessed through references.
    fn into_par_index(self) -> (r: OwnedParSlice<T>)
        ensures
            r@ == self@,
            r.wf(),
            r.spec_len() == self@.len(),
    ;

    /// Converts the collection into one whose chunks are accessed through
    /// copy-based getters and setters.
    fn into_par_chunk_index_no_ref(self, chunk_size: usize) -> (r: OwnedParChunkSlice<T>)
        requires
            divides_evenly(self@.len(), chunk_size as nat),
        ensures
            r@ == self@,
            r.wf(),
            r.spec_chunk_size() == chunk_size as nat,
            r.spec_len() == self@.len() / (chunk_size as nat),
            r.spec_num_elements() == self@.len(),
    ;

    /// Converts the collection into one whose chunks are accessed through
    /// references.
    fn into_par_chunk_index(self, chunk_size: usize) -> (r: OwnedParChunkSlice<T>)
        requires
            divides_evenly(self@.len(), chunk_size as nat),
        ensures
            r@ == self@,
            r.wf(),
            r.spec_chunk_size() == chunk_size as nat,
            r.spec_len() == self@.len() / (chunk_size as nat),
            r.spec_num_elements() == self@.len(),
    ;

    /// Converts the collection into one accessed through the terse
    /// copy-based `get`/`set` names.
    fn into_data_race_par_slice(self) -> (r: OwnedParSlice<T>)
        ensures
            r@ == self@,
            r.wf(),
            r.spec_len() == self@.len(),
    ;

    /// Converts the collection into one whose chunks are accessed through the
    /// terse copy-based `get`/`set` names.
    fn into_data_race_par_chunk_slice(self, chunk_size: usize) -> (r: OwnedParChunkSlice<T>)
        requires
            divides_evenly(self@.len(), chunk_size as nat),
        ensures
            r@ == self@,
            r.wf(),
            r.spec_chunk_size() == chunk_size as nat,
            r.spec_len() == self@.len() / (chunk_size as nat),
            r.spec_num_elements() == self@.len(),
    ;

    /// Converts the collection into one accessed through references, under
    /// its short alias.
    fn into_unsafe_par_slice(self) -> (r: OwnedParSlice<T>)
        ensures
            r@ == self@,
            r.wf(),
            r.spec_len() == self@.len(),
    ;

    /// Converts the collection into one whose chunks are accessed through
    /// references, under its short alias.
    fn into_unsafe_par_chunk_slice(self, chunk_size: usize) -> (r: OwnedParChunkSlice<T>)
        requires
            divides_evenly(self@.len(), chunk_size as nat),
        ensures
            r@ == self@,
            r.wf(),
            r.spec_chunk_size() == chunk_size as nat,
            r.spec_len() == self@.len() / (chunk_size as nat),
            r.spec_num_elements() == self@.len(),
    ;
}

impl<T> IntoParIndex<T> for Vec<T> {
    fn into_par_index_no_ref(self) -> (r: OwnedParSlice<T>) {
        OwnedParSlice::from_vec(self)
    }

    fn into_par_index(self) -> (r: OwnedParSlice<T>) {
        OwnedParSlice::from_vec(self)
    }

    fn into_par_chunk_index_no_ref(self, chunk_size: usize) -> (r: OwnedParChunkSlice<T>) {
        OwnedParChunkSlice::from_vec(self, chunk_size)
    }

    fn into_par_chunk_index(self, chunk_size: usize) -> (r: OwnedParChunkSlice<T>) {
        OwnedParChunkSlice::from_vec(self, chunk_size)
    }

    fn into_data_race_par_slice(self) -> (r: OwnedParSlice<T>) {
        OwnedParSlice::from_vec(self)
    }

    fn into_data_race_par_chunk_slice(self, chunk_size: usize) -> (r: OwnedParChunkSlice<T>) {
        OwnedParChunkSlice::from_vec(self, chunk_size)
    }

    fn into_unsafe_par_slice(self) -> (r: OwnedParSlice<T>) {
        OwnedParSlice::from_vec(self)
    }

    fn into_unsafe_par_chunk_slice(self, chunk_size: usize) -> (r: OwnedParChunkSlice<T>) {
        OwnedParChunkSlice::from_vec(self, chunk_size)
    }
}

impl<T> From<OwnedParSlice<T>> for Vec<T> {
    /// Converts the wrapper back into a plain buffer, preserving the length
    /// and the element at every index.
    fn from(v: OwnedParSlice<T>) -> (r: Vec<T>)
        ensures
            r@ == v@,
    {
        v.into_inner()
    }
}

impl<T> vstd::std_specs::convert::FromSpecImpl<OwnedParSlice<T>> for Vec<T> {
    open spec fn obeys_from_spec() -> bool {
        false
    }

    open spec fn from_spec(v: OwnedParSlice<T>) -> Vec<T> {
        arbitrary()
    }
}

impl<T> From<OwnedParChunkSlice<T>> for Vec<T> {
    /// Converts the wrapper back into a plain buffer, preserving the length
    /// and the element at every index.
    fn from(v: OwnedParChunkSlice<T>) -> (r: Vec<T>)
        ensures
            r@ == v@,
    {
        v.into_inner()
    }
}

impl<T> vstd::std_specs::convert::FromSpecImpl<OwnedParChunkSlice<T>> for Vec<T> {
    open spec fn obeys_from_spec() -> bool {
        false
    }

    open spec fn from_spec(v: OwnedParChunkSlice<T>) -> Vec<T> {
        arbitrary()
    }
}

/// Round-trip identity: converting a plain buffer into a tiered wrapper and
/// back yields a buffer of the same length whose element at every index is
/// the original one.  (When writes occur in between, the wrapper's setter
/// contracts pin the result instead: see [`crate::writes`].)
pub proof fn lemma_round_trip_identity<T>(v: Vec<T>, w: OwnedParSlice<T>, back: Vec<T>)
    requires
        call_ensures(<Vec<T> as IntoParIndex<T>>::into_par_index_no_ref, (v,), w),
        call_ensures(OwnedParSlice::<T>::into_inner, (w,), back),
    ensures
        back@ == v@,
{
}

/// Round-trip identity for the chunked wrapper: the chunk partition changes
/// how elements are addressed, never where they live.
pub proof fn lemma_chunk_round_trip_identity<T>(
    v: Vec<T>,
    chunk_size: usize,
    w: OwnedParChunkSlice<T>,
    back: Vec<T>,
)
    requires
        call_ensures(
            <Vec<T> as IntoParIndex<T>>::into_par_chunk_index_no_ref,
            (v, chunk_size),
            w,
        ),
        call_ensures(OwnedParChunkSlice::<T>::into_inner, (w,), back),
    ensures
        back@ == v@,
{
}

} // verus!
