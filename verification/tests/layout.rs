use sdmap::layout::{abs_i32, check_keypos_arith, compute_keypos, div_trunc};
use sdmap::VkbdLayout;

#[test]
fn div_trunc_rounds_toward_zero() {
    assert_eq!(div_trunc(7, 2), 3);
    assert_eq!(div_trunc(-7, 2), -3);
    assert_eq!(div_trunc(7, -2), -3);
    assert_eq!(div_trunc(-7, -2), 3);
    assert_eq!(div_trunc(i32::MIN, 1), i32::MIN);
    assert_eq!(div_trunc(i32::MIN, 2), -1073741824);
    assert_eq!(div_trunc(i32::MAX, -1), -i32::MAX);
    assert_eq!(div_trunc(0, -5), 0);
}

#[test]
fn abs_i32_values() {
    assert_eq!(abs_i32(-5), 5);
    assert_eq!(abs_i32(5), 5);
    assert_eq!(abs_i32(i32::MAX), i32::MAX);
    assert_eq!(abs_i32(-i32::MAX), i32::MAX);
}

#[test]
fn keypos_corners_and_center() {
    // An axis over -10..=10 on a keyboard of 3 rows and 4 columns.
    assert_eq!(compute_keypos(10, 3, 4, 0, 0), None);
    assert_eq!(compute_keypos(10, 3, 4, -10, 10), Some((0, 0)));
    assert_eq!(compute_keypos(10, 3, 4, 10, -10), Some((3, 2)));
    assert_eq!(compute_keypos(10, 3, 4, 1, 0), Some((2, 1)));
    // (x + max) * cols = 84, span 21: column 4, one past the last.
    assert_eq!(compute_keypos(10, 3, 4, 11, 0), Some((4, 1)));
    // Left of the range the column rounds toward zero: -8 / 21 is 0, -24 / 21 is -1.
    assert_eq!(compute_keypos(10, 3, 4, -12, 0), Some((0, 1)));
    assert_eq!(compute_keypos(10, 3, 4, -16, 0), Some((-1, 1)));
}

#[test]
fn keypos_arith_limits() {
    assert!(check_keypos_arith(10, 3, 4, 0, 0));
    assert!(check_keypos_arith(10, 3, 4, 5, -5));
    assert!(check_keypos_arith(i32::MAX, 3, 4, 0, 0));
    // max * 2 overflows.
    assert!(!check_keypos_arith(i32::MAX / 2 + 1, 1, 1, 1, 0));
    // y - max overflows.
    assert!(!check_keypos_arith(1, 1, 1, 0, i32::MIN));
    // (x + max) * cols overflows.
    assert!(!check_keypos_arith(1000, 1, 3_000_000, 1000, 0));
    assert!(check_keypos_arith(1000, 1, 1_000_000, 1000, 0));
}

#[test]
fn layout_new_checks_shape() {
    assert!(VkbdLayout::new(vec![]).is_none());
    assert!(VkbdLayout::new(vec![vec![[1, 2, 3, 4]], vec![]]).is_none());
    let l = VkbdLayout::new(vec![vec![[1, 2, 3, 4], [5, 6, 7, 8]], vec![[9, 10, 11, 12], [13, 14, 15, 16]]])
        .unwrap();
    assert_eq!(l.num_rows(), 2);
    assert_eq!(l.num_cols(), 2);
    assert_eq!(l.keys(), (1..=16).collect::<Vec<u16>>());
    assert!(VkbdLayout::new(vec![vec![]]).is_some());
}
