use cef::ref_count::RefCount;

#[test]
fn impls_ref_counting_methods() {
    let mut foo = RefCount::new(0);
    foo.add_ref();
    assert_eq!(foo.has_one_ref(), 1);
    assert_eq!(foo.release(), 1);
}

#[test]
fn fresh_count_holds_one_reference() {
    let count = RefCount::new(1);
    assert_eq!(count.has_one_ref(), 1);
    assert_eq!(count.has_at_least_one_ref(), 1);
    assert_eq!(count.load(), 1);
}

#[test]
fn add_then_release_restores_count() {
    let mut count = RefCount::new(1);
    count.add_ref();
    assert_eq!(count.load(), 2);
    assert_eq!(count.has_one_ref(), 0);
    assert_eq!(count.release(), 0);
    assert_eq!(count.load(), 1);
    assert_eq!(count.release(), 1);
    assert_eq!(count.load(), 0);
    assert_eq!(count.has_at_least_one_ref(), 0);
}

#[test]
fn add_ref_wraps_at_the_top() {
    let mut count = RefCount::new(isize::MAX);
    count.add_ref();
    assert_eq!(count.load(), isize::MIN);
}

#[test]
fn release_below_zero_reports_destroyed() {
    let mut count = RefCount::new(0);
    assert_eq!(count.release(), 1);
    assert_eq!(count.load(), -1);
    assert_eq!(count.has_one_ref(), 0);
    assert_eq!(count.has_at_least_one_ref(), 0);
}

#[test]
fn release_all_gives_back_every_reference() {
    let mut count = RefCount::new(3);
    assert!(count.release_all());
    assert_eq!(count.load(), 0);
    assert!(!count.release_all());
    assert_eq!(count.load(), 0);
}

#[test]
fn release_all_leaves_negative_count() {
    let mut count = RefCount::new(-2);
    assert!(!count.release_all());
    assert_eq!(count.load(), -2);
}
