//! The set algebra, exercised on concrete values.

use vea::vecset::{VecSet, Exclude};

fn setv(xs: &[i64]) -> VecSet<i64> {
    let mut s = VecSet::new();
    for x in xs {
        s.push(*x);
    }
    s
}

fn pairv(xs: &[(i64, i64)]) -> VecSet<(i64, i64)> {
    let mut s = VecSet::new();
    for x in xs {
        s.push(*x);
    }
    s
}

#[test]
fn set_union() {
    assert_eq!(setv(&[1, 2]).union(setv(&[2, 3])), setv(&[1, 2, 3]));
}

#[test]
fn set_intersection() {
    assert_eq!(setv(&[1, 2]).intersection(setv(&[2, 3])), setv(&[2]));
}

#[test]
fn set_cartiesean_product() {
    assert_eq!(
        setv(&[1, 2]).cartesian_product(setv(&[1, 2])),
        pairv(&[(1, 1), (1, 2), (2, 1), (2, 2)])
    );
}

#[test]
fn set_add() {
    let mut s = setv(&[1, 2]);
    s.push(3);
    assert_eq!(s, setv(&[1, 2, 3]));
}

#[test]
fn set_remove() {
    let mut s = setv(&[1, 2, 3]);
    s.remove(3);
    assert_eq!(s, setv(&[1, 2]));
}

#[test]
fn push_ignores_duplicates() {
    let mut s = setv(&[1, 2]);
    s.push(2);
    assert_eq!(s.size(), 2);
}

#[test]
fn difference_and_symmetric_difference() {
    assert_eq!(setv(&[1, 2, 3]).set_difference(setv(&[2, 3])), setv(&[1]));
    assert_eq!(setv(&[1, 2]).symmetric_difference(setv(&[2, 3])), setv(&[1, 3]));
}

#[test]
fn subset_and_superset() {
    assert!(setv(&[1, 2, 3]).is_superset(setv(&[2, 3])));
    assert!(!setv(&[1, 2]).is_superset(setv(&[4])));
    assert!(setv(&[2]).is_subset(setv(&[1, 2])));
    assert!(!setv(&[2, 5]).is_subset(setv(&[1, 2])));
}

#[test]
fn membership_size_and_emptiness() {
    let s = setv(&[4, 7]);
    assert!(s.has(&4));
    assert!(!s.has(&5));
    assert_eq!(s.size(), 2);
    assert!(!s.is_null());
    assert!(VecSet::<i64>::new().is_null());
    assert_eq!(s.vec().len(), 2);
}

#[test]
fn map_applies_elementwise() {
    let s = setv(&[1, 2, 3]).map(|x: &i64| *x * 10);
    assert_eq!(s, setv(&[10, 20, 30]));
}

#[test]
fn exclude_negates_membership() {
    let e = Exclude::new(setv(&[1, 2]));
    assert!(!e.has(&1));
    assert!(e.has(&3));
}
