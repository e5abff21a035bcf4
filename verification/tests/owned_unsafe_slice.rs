//! The owned single-element wrapper through the reference tier.

use par_slice::IntoParIndex;
use par_slice::UnsafeIndex;

#[test]
fn owned_unsafe_slice_no_thread_unchecked() {
    let mut slice = vec![1, 2, 3].into_unsafe_par_slice();

    assert_eq!(*slice.get_unchecked(1), 2);
    *slice.get_mut_unchecked(2) = 42;

    let out: Vec<i32> = slice.into();
    assert_eq!(out, vec![1, 2, 42]);
}

#[test]
fn owned_unsafe_slice_no_thread_checked() {
    let mut slice = vec![1, 2, 3].into_unsafe_par_slice();

    assert_eq!(*slice.get(1), 2);
    *slice.get_mut(2) = 42;

    let out: Vec<i32> = slice.into();
    assert_eq!(out, vec![1, 2, 42]);
}
