use slice_ext::SplitAfter;
use slice_ext::SplitBefore;
use slice_ext::SplitInc;

#[test]
fn test_split_before() {
    let a: &[u8] = &[0, 1, 2, 3, 4, 5, 6, 7, 8];

    let mut s = (&a[..]).split_before(|v| *v == 2 || *v == 5);

    assert_eq!(s.next().unwrap(), &[0, 1]);
    assert_eq!(s.next().unwrap(), &[2, 3, 4]);
    assert_eq!(s.next().unwrap(), &[5, 6, 7, 8]);
    assert_eq!(s.next().is_none(), true);
}

#[test]
fn test_split_before_no_match() {
    let a: &[u8] = &[0, 1, 2];

    let mut s = SplitInc::split_before(&a, |v| *v == 12);

    assert_eq!(s.next().unwrap(), &[0, 1, 2]);
    assert_eq!(s.next().is_none(), true);
}

#[test]
fn test_split_before_start() {
    let a: &[u8] = &[0, 1, 2];

    let mut s = SplitInc::split_before(&a, |v| *v == 0);

    assert_eq!(s.next().unwrap(), &[0, 1, 2]);
    assert_eq!(s.next().is_none(), true);
}

#[test]
fn test_split_before_end() {
    let a: &[u8] = &[0, 1, 2];

    let mut s = SplitInc::split_before(&a, |v| *v == 2);

    assert_eq!(s.next().unwrap(), &[0, 1]);
    assert_eq!(s.next().unwrap(), &[2]);
    assert_eq!(s.next().is_none(), true);
}

#[test]
fn test_split_after() {
    let a: &[u8] = &[0, 1, 2, 3, 4, 5, 6, 7, 8];

    let mut s = SplitInc::split_after(&a, |v| *v == 2 || *v == 5);

    assert_eq!(s.next().unwrap(), &[0, 1, 2]);
    assert_eq!(s.next().unwrap(), &[3, 4, 5]);
    assert_eq!(s.next().unwrap(), &[6, 7, 8]);
    assert_eq!(s.next().is_none(), true);
}

#[test]
fn test_split_after_no_match() {
    let a: &[u8] = &[0, 1, 2];

    let mut s = SplitInc::split_after(&a, |v| *v == 12);

    assert_eq!(s.next().unwrap(), &[0, 1, 2]);
    assert_eq!(s.next().is_none(), true);
}

#[test]
fn test_split_after_start() {
    let a: &[u8] = &[0, 1, 2];

    let mut s = SplitInc::split_after(&a, |v| *v == 0);

    assert_eq!(s.next().unwrap(), &[0]);
    assert_eq!(s.next().unwrap(), &[1, 2]);
    assert_eq!(s.next().is_none(), true);
}

#[test]
fn test_split_after_end() {
    let a: &[u8] = &[0, 1, 2];

    let mut s = SplitInc::split_after(&a, |v| *v == 2);

    assert_eq!(s.next().unwrap(), &[0, 1, 2]);
    assert_eq!(s.next().is_none(), true);
}

#[test]
fn test_split_before_middle_boundary() {
    let a: &[u8] = &[0, 1, 2];

    let mut s = SplitInc::split_before(&a, |v| *v == 1);

    assert_eq!(s.next().unwrap(), &[0]);
    assert_eq!(s.next().unwrap(), &[1, 2]);
    assert_eq!(s.next().is_none(), true);
}

#[test]
fn test_split_after_middle_boundary() {
    let a: &[u8] = &[0, 1, 2];

    let mut s = SplitInc::split_after(&a, |v| *v == 1);

    assert_eq!(s.next().unwrap(), &[0, 1]);
    assert_eq!(s.next().unwrap(), &[2]);
    assert_eq!(s.next().is_none(), true);
}

#[test]
fn test_split_after_trait() {
    let a: &[u8] = &[0, 1, 2];

    let mut s = (&a[..]).split_after(|v| *v == 1);

    assert_eq!(s.next().unwrap(), &[0, 1]);
    assert_eq!(s.next().unwrap(), &[2]);
    assert_eq!(s.next().is_none(), true);
}

#[test]
fn test_split_before_every_element_matches() {
    let a: &[u8] = &[7, 7, 7];

    let mut s = SplitInc::split_before(&a, |v| *v == 7);

    // The match at each fresh cursor is absorbed, so each run carries
    // exactly the one absorbed element.
    assert_eq!(s.next().unwrap(), &[7]);
    assert_eq!(s.next().unwrap(), &[7]);
    assert_eq!(s.next().unwrap(), &[7]);
    assert_eq!(s.next().is_none(), true);
}

#[test]
fn test_split_after_every_element_matches() {
    let a: &[u8] = &[7, 7, 7];

    let mut s = SplitInc::split_after(&a, |v| *v == 7);

    assert_eq!(s.next().unwrap(), &[7]);
    assert_eq!(s.next().unwrap(), &[7]);
    assert_eq!(s.next().unwrap(), &[7]);
    assert_eq!(s.next().is_none(), true);
}

#[test]
fn test_split_single_element() {
    let a: &[u8] = &[9];

    let mut before = SplitInc::split_before(&a, |v| *v == 9);
    assert_eq!(before.next().unwrap(), &[9]);
    assert_eq!(before.next().is_none(), true);

    let mut after = SplitInc::split_after(&a, |v| *v == 9);
    assert_eq!(after.next().unwrap(), &[9]);
    assert_eq!(after.next().is_none(), true);
}

#[test]
fn test_stateful_predicate() {
    let a: &[u8] = &[0, 1, 2, 3, 4, 5];
    let boundaries: Vec<u8> = vec![1, 4];

    // A predicate capturing borrowed state from its environment.
    let mut s = SplitInc::split_after(&a, |v| boundaries.contains(v));

    assert_eq!(s.next().unwrap(), &[0, 1]);
    assert_eq!(s.next().unwrap(), &[2, 3, 4]);
    assert_eq!(s.next().unwrap(), &[5]);
    assert_eq!(s.next().is_none(), true);
}
