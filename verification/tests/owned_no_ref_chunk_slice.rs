//! The owned chunked wrapper through the no-reference tier.

use par_slice::IntoParIndex;
use par_slice::UnsafeNoRefChunkIndex;

#[test]
fn owned_no_ref_chunk_slice_no_thread_unchecked() {
    let mut slice = vec![1, 2, 3, 4].into_par_chunk_index_no_ref(2);
    let mut buf = vec![0; 2];

    buf = slice.get_values_unchecked(0, buf);
    assert_eq!(buf, &[1, 2]);
    slice.set_values_unchecked(1, &[42, 69]);

    let out: Vec<i32> = slice.into();
    assert_eq!(out, vec![1, 2, 42, 69]);
}

#[test]
fn owned_no_ref_chunk_slice_no_thread_checked() {
    let mut slice = vec![1, 2, 3, 4].into_par_chunk_index_no_ref(2);
    let mut buf = vec![0; 2];

    buf = slice.get_values(0, buf);
    assert_eq!(buf, &[1, 2]);
    slice.set_values(1, &[42, 69]);

    let out: Vec<i32> = slice.into();
    assert_eq!(out, vec![1, 2, 42, 69]);
}
