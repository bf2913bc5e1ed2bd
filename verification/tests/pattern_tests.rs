//! Tests for the pattern search and the session result check.

use i2s_frames::frame::Frame;
use i2s_frames::pattern::check_result;
use i2s_frames::pattern::frame_slice_contains;
use i2s_frames::pattern::slice_contains;

#[test]
fn test_slice_contain() {
    let slice = &[0, 1, 2, 3, 4];
    let pat = &[3, 4];
    assert_eq!(slice_contains(slice, pat), true);
}

#[test]
fn test_slice_not_contain() {
    let slice = &[0, 1, 2, 3, 4];
    let pat = &[1, 4];
    assert_eq!(slice_contains(slice, pat), false);
}

#[test]
fn tests_16bits_slice_contain() {
    let slice = &[0, 1, 2, 3, 4];
    let pat = &[3, 4];
    assert_eq!(slice_contains(slice, pat), true);
}

#[test]
fn tests_16bits_slice_not_contain() {
    let slice = &[0, 1, 2, 3, 4];
    let pat = &[1, 4];
    assert_eq!(slice_contains(slice, pat), false);
}

#[test]
fn slice_contains_empty_pattern_always_found() {
    assert_eq!(slice_contains(&[], &[]), true);
    assert_eq!(slice_contains(&[7, 8], &[]), true);
}

#[test]
fn slice_contains_pattern_longer_than_slice() {
    assert_eq!(slice_contains(&[1], &[1, 2]), false);
    assert_eq!(slice_contains(&[], &[0]), false);
}

#[test]
fn slice_contains_prefix_and_suffix() {
    let slice = &[9, 9, 5, 6, 7];
    assert_eq!(slice_contains(slice, &[9, 9]), true);
    assert_eq!(slice_contains(slice, &[6, 7]), true);
    assert_eq!(slice_contains(slice, &[9, 5, 6, 7]), true);
    assert_eq!(slice_contains(slice, &[5, 7]), false);
}

fn fr(left: u32, right: u32) -> Frame {
    Frame { left, right }
}

#[test]
fn frame_slice_contains_finds_run() {
    let slice = &[fr(1, 2), fr(3, 4), fr(5, 6)];
    assert_eq!(frame_slice_contains(slice, &[fr(3, 4), fr(5, 6)]), true);
    assert_eq!(frame_slice_contains(slice, &[fr(1, 2), fr(5, 6)]), false);
}

#[test]
fn check_result_tolerates_cold_start_slots() {
    // The expected pattern minus its first and last entries must appear as
    // a consecutive run of the received frames, wherever it starts.
    let expected = &[fr(1, 1), fr(2, 2), fr(3, 3), fr(4, 4)];
    let received_ok = &[(10, fr(2, 2)), (11, fr(3, 3)), (12, fr(9, 9))];
    let received_shifted = &[(10, fr(0, 0)), (11, fr(2, 2)), (12, fr(3, 3))];
    let received_bad = &[(10, fr(2, 2)), (11, fr(4, 4)), (12, fr(3, 3))];
    assert_eq!(check_result(received_ok, expected), true);
    assert_eq!(check_result(received_shifted, expected), true);
    assert_eq!(check_result(received_bad, expected), false);
}
