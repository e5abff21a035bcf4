//! The owned single-element wrapper through the terse `get`/`set` tier.

use par_slice::IntoParIndex;
use par_slice::UnsafeDataRaceAccess;

#[test]
fn owned_data_race_slice_no_thread_unchecked() {
    let mut slice = vec![1, 2, 3].into_data_race_par_slice();

    assert_eq!(slice.get_unchecked(1), 2);
    slice.set_unchecked(2, 42);

    let out: Vec<i32> = slice.into();
    assert_eq!(out, vec![1, 2, 42]);
}

#[test]
fn owned_data_race_slice_no_thread_checked() {
    let mut slice = vec![1, 2, 3].into_data_race_par_slice();

    assert_eq!(slice.get(1), 2);
    slice.set(2, 42);

    let out: Vec<i32> = slice.into();
    assert_eq!(out, vec![1, 2, 42]);
}
