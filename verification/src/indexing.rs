//! Index types that map injectively into `usize`.

use vstd::prelude::*;

verus! {

/// A type with a lawful, injective mapping into `usize`.
///
/// Distinctness is preserved: two values that map to the same `usize` are the
/// same value, so indexing a collection through this mapping identifies
/// elements as unambiguously as raw `usize` indices do.
pub trait AsUsize {
    /// The abstract mapping into `usize`.
    spec fn spec_as_usize(&self) -> usize;

    /// The mapping never sends two distinct values to the same index.
    proof fn as_usize_injective(&self, other: &Self)
        ensures
            self.spec_as_usize() == other.spec_as_usize() ==> self == other,
    ;

    /// Converts the value into the indexing type `usize`.
    fn as_usize(&self) -> (r: usize)
        ensures
            r == self.spec_as_usize(),
    ;
}

impl AsUsize for usize {
    open spec fn spec_as_usize(&self) -> usize {
        *self
    }

    proof fn as_usize_injective(&self, other: &Self) {
    }

    fn as_usize(&self) -> (r: usize) {
        *self
    }
}

impl AsUsize for u8 {
    open spec fn spec_as_usize(&self) -> usize {
        *self as usize
    }

    proof fn as_usize_injective(&self, other: &Self) {
    }

    fn as_usize(&self) -> (r: usize) {
        *self as usize
    }
}

impl AsUsize for u16 {
    open spec fn spec_as_usize(&self) -> usize {
        *self as usize
    }

    proof fn as_usize_injective(&self, other: &Self) {
    }

    fn as_usize(&self) -> (r: usize) {
        *self as usize
    }
}

impl AsUsize for u32 {
    open spec fn spec_as_usize(&self) -> usize {
        *self as usize
    }

    proof fn as_usize_injective(&self, other: &Self) {
    }

    fn as_usize(&self) -> (r: usize) {
        *self as usize
    }
}

} // verus!
