use lazy_abs::absolute::{abs_all, abs_sum};
use lazy_abs::lazy_view::LazyView;

#[test]
fn no_negatives_means_no_copy() {
    let s1 = [1, 2, 3];
    let mut view = LazyView::from_borrowed(&s1[..]);
    abs_all(&mut view);
    assert!(!view.is_owned());
    assert_eq!(view.copies(), 0);
    assert_eq!(view.snapshot(), vec![1, 2, 3]);
    assert_eq!(s1, [1, 2, 3]);
}

#[test]
fn first_negative_copies_once() {
    let s = [-1, -2, 3, -4, -5];
    let mut view = LazyView::from_borrowed(&s[..]);
    abs_all(&mut view);
    assert!(view.is_owned());
    assert_eq!(view.copies(), 1);
    assert_eq!(view.snapshot(), vec![1, 2, 3, 4, 5]);
}

#[test]
fn single_negative_copies_once() {
    let s = [0, 0, -9];
    let mut view = LazyView::from_borrowed(&s[..]);
    abs_all(&mut view);
    assert_eq!(view.copies(), 1);
    assert_eq!(view.snapshot(), vec![0, 0, 9]);
}

#[test]
fn borrowed_source_is_not_changed() {
    let s2 = [1, 2, 3, -45, 5];
    let mut view = LazyView::from_borrowed(&s2[..]);
    abs_all(&mut view);
    assert_eq!(view.snapshot(), vec![1, 2, 3, 45, 5]);
    assert_eq!(s2, [1, 2, 3, -45, 5]);
}

#[test]
fn owned_view_is_mutated_in_place() {
    let v1 = vec![1, 2, -3, 4];
    let ptr = v1.as_ptr();
    let mut view = LazyView::from_owned(v1);
    abs_all(&mut view);
    assert_eq!(view.copies(), 0);
    let out = view.into_owned();
    assert_eq!(out, vec![1, 2, 3, 4]);
    assert_eq!(out.as_ptr(), ptr);
}

#[test]
fn abs_all_on_empty_view() {
    let s: [i32; 0] = [];
    let mut view = LazyView::from_borrowed(&s[..]);
    abs_all(&mut view);
    assert_eq!(view.len(), 0);
    assert_eq!(view.copies(), 0);
}

#[test]
fn abs_all_handles_extremes() {
    let s = [i32::MAX, -i32::MAX, 0];
    let mut view = LazyView::from_borrowed(&s[..]);
    abs_all(&mut view);
    assert_eq!(view.snapshot(), vec![i32::MAX, i32::MAX, 0]);
}

#[test]
fn abs_sum_without_negatives() {
    let s3 = [1, 3, 5, 6];
    assert_eq!(abs_sum(&s3[..]), 15);
    assert_eq!(s3, [1, 3, 5, 6]);
}

#[test]
fn abs_sum_with_negatives() {
    let s4 = [1, -3, 5, -6];
    assert_eq!(abs_sum(&s4[..]), 15);
    assert_eq!(s4, [1, -3, 5, -6]);
}

#[test]
fn abs_sum_of_empty_is_zero() {
    let s: [i32; 0] = [];
    assert_eq!(abs_sum(&s[..]), 0);
}

#[test]
fn abs_sum_reaching_the_largest_value() {
    let s = [-(i32::MAX - 1), -1];
    assert_eq!(abs_sum(&s[..]), i32::MAX);
}
