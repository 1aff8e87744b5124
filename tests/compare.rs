use hexdiff::diff::{get_diffs, Diff};

#[test]
fn empty_against_empty() {
    let (a, b) = get_diffs(&[], &[]);
    assert!(a.is_empty());
    assert!(b.is_empty());
}

#[test]
fn first_longer() {
    let (a, b) = get_diffs(&[0x01, 0x02, 0x03], &[0x01, 0xFF]);
    assert_eq!(a, vec![Diff::Same, Diff::Different, Diff::NoOther]);
    assert_eq!(b, vec![Diff::Same, Diff::Different]);
}

#[test]
fn second_longer() {
    let (a, b) = get_diffs(&[0xAA], &[0xAA, 0xBB, 0xCC]);
    assert_eq!(a, vec![Diff::Same]);
    assert_eq!(b, vec![Diff::Same, Diff::NoOther, Diff::NoOther]);
}

#[test]
fn one_side_empty() {
    let (a, b) = get_diffs(&[], &[7, 8]);
    assert!(a.is_empty());
    assert_eq!(b, vec![Diff::NoOther, Diff::NoOther]);
    let (a, b) = get_diffs(&[9], &[]);
    assert_eq!(a, vec![Diff::NoOther]);
    assert!(b.is_empty());
}

#[test]
fn lengths_follow_inputs() {
    let x: Vec<u8> = (0..40).collect();
    let y: Vec<u8> = (0..17).map(|v| v * 3).collect();
    let (a, b) = get_diffs(&x, &y);
    assert_eq!(a.len(), 40);
    assert_eq!(b.len(), 17);
}

#[test]
fn agreement_is_symmetric() {
    let x = [1u8, 2, 3, 4, 5, 6];
    let y = [1u8, 0, 3, 0, 5];
    let (a, b) = get_diffs(&x, &y);
    for i in 0..5 {
        assert_eq!(a[i] == Diff::Same, b[i] == Diff::Same);
        assert_eq!(a[i] == Diff::Different, b[i] == Diff::Different);
    }
}

#[test]
fn tail_is_no_other() {
    let x = [0u8; 10];
    let y = [0u8; 4];
    let (a, b) = get_diffs(&x, &y);
    assert_eq!(b.len(), 4);
    for i in 4..10 {
        assert_eq!(a[i], Diff::NoOther);
    }
}

#[test]
fn self_compare_all_same() {
    let x: Vec<u8> = vec![0, 255, 17, 17, 128];
    let (a, b) = get_diffs(&x, &x);
    assert_eq!(a, vec![Diff::Same; 5]);
    assert_eq!(b, vec![Diff::Same; 5]);
}

#[test]
fn all_different() {
    let (a, b) = get_diffs(&[0, 0, 0], &[1, 2, 3]);
    assert_eq!(a, vec![Diff::Different; 3]);
    assert_eq!(b, vec![Diff::Different; 3]);
}
