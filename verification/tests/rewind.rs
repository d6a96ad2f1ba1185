use gb::rewind::Rewind;

#[test]
fn back_forward_and_carrying_on() {
    let mut r = Rewind::new();
    assert!(r.current().is_none());
    r.snapshot(vec![1]);
    r.snapshot(vec![2]);
    r.snapshot(vec![3]);
    assert_eq!(r.current(), Some(&vec![3]));
    r.back();
    r.back();
    assert_eq!(r.current(), Some(&vec![1]));
    r.back();
    assert_eq!(r.current(), Some(&vec![1]));
    r.forward();
    assert_eq!(r.current(), Some(&vec![2]));
    r.cont();
    r.forward();
    assert_eq!(r.current(), Some(&vec![2]));
    r.snapshot(vec![4]);
    assert_eq!(r.current(), Some(&vec![4]));
    r.back();
    assert_eq!(r.current(), Some(&vec![2]));
}
