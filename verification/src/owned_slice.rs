//! The owned storage bridge for single-element access.

use vstd::prelude::*;
use vstd::pervasive::VecAdditionalExecFns;
use crate::collection::TrustedSizedCollection;
use crate::no_ref::UnsafeNoRefIndex;
use crate::data_race::UnsafeDataRaceAccess;
use crate::unsafe_index::UnsafeIndex;

verus! {

/// An owned, fixed-size buffer opened for index-addressed access.
///
/// The wrapper takes ownership of a plain `Vec` and hands out its elements by
/// index until it is converted back with [`OwnedParSlice::into_inner`].  The
/// element count never changes while the wrapper exists, and conversion back
/// preserves the length and the element at every index.
pub struct OwnedParSlice<T> {
    data: Vec<T>,
}

impl<T> View for OwnedParSlice<T> {
    type V = Seq<T>;

    /// The abstract contents of the buffer, one entry per index.
    closed spec fn view(&self) -> Seq<T> {
        self.data@
    }
}

impl<T> OwnedParSlice<T> {
    /// Wraps an owned buffer for index-addressed access.
    pub fn from_vec(data: Vec<T>) -> (r: Self)
        ensures
            r@ == data@,
            r.wf(),
            r.spec_len() == data@.len(),
    {
        OwnedParSlice { data }
    }

    /// Converts the wrapper back into a plain buffer, preserving the length
    /// and the element at every index.
    pub fn into_inner(self) -> (r: Vec<T>)
        ensures
            r@ == self@,
    {
        self.data
    }
}

impl<T> TrustedSizedCollection for OwnedParSlice<T> {
    open spec fn wf(&self) -> bool {
        true
    }

    closed spec fn spec_len(&self) -> nat {
        self.data@.len()
    }

    fn len(&self) -> (r: usize) {
        self.data.len()
    }

    fn is_empty(&self) -> (r: bool) {
        self.data.len() == 0
    }
}

impl<T: Copy> UnsafeNoRefIndex<T> for OwnedParSlice<T> {
    proof fn elems_count(&self) {
    }

    fn get_value(&self, index: usize) -> (r: T) {
        self.get_value_unchecked(index)
    }

    fn get_value_unchecked(&self, index: usize) -> (r: T) {
        self.data[index]
    }

    fn set_value(&mut self, index: usize, value: T) {
        self.set_value_unchecked(index, value);
    }

    fn set_value_unchecked(&mut self, index: usize, value: T) {
        self.data.set(index, value);
    }
}

impl<T: Copy> UnsafeDataRaceAccess<T> for OwnedParSlice<T> {
    proof fn elems_count(&self) {
    }

    fn get(&self, index: usize) -> (r: T) {
        self.data[index]
    }

    fn get_unchecked(&self, index: usize) -> (r: T) {
        self.data[index]
    }

    fn set(&mut self, index: usize, value: T) {
        self.data.set(index, value);
    }

    fn set_unchecked(&mut self, index: usize, value: T) {
        self.data.set(index, value);
    }
}

impl<T> UnsafeIndex<T> for OwnedParSlice<T> {
    proof fn elems_count(&self) {
    }

    fn get(&self, index: usize) -> (r: &T) {
        &self.data[index]
    }

    fn get_unchecked(&self, index: usize) -> (r: &T) {
        &self.data[index]
    }

    fn get_mut(&mut self, index: usize) -> (r: &mut T) {
        &mut self.data[index]
    }

    fn get_mut_unchecked(&mut self, index: usize) -> (r: &mut T) {
        &mut self.data[index]
    }
}

} // verus!

