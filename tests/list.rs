use teaching_snippets::List;

#[test]
fn new_list_has_no_head() {
    let l = List::new();
    assert_eq!(l.head(), None);
    assert!(l.is_empty());
    assert_eq!(l.len(), 0);
    assert_eq!(l.to_vec(), Vec::<i32>::new());
}

#[test]
fn push_one_then_two_gives_two_one() {
    let mut l = List::new();
    l.push(1);
    l.push(2);
    assert_eq!(l.to_vec(), vec![2, 1]);
    assert_eq!(l.head(), Some(2));
}

#[test]
fn pushes_come_out_reversed() {
    let values = vec![5, -3, 0, 17, 42];
    let mut l = List::new();
    for v in &values {
        l.push(*v);
    }
    let mut expected = values.clone();
    expected.reverse();
    assert_eq!(l.to_vec(), expected);
}

#[test]
fn length_counts_pushes() {
    let mut l = List::new();
    for i in 0..1000 {
        assert_eq!(l.len(), i as usize);
        l.push(i);
    }
    assert_eq!(l.len(), 1000);
    assert!(!l.is_empty());
}

#[test]
fn push_accepts_extreme_values() {
    let mut l = List::new();
    l.push(i32::MIN);
    l.push(i32::MAX);
    l.push(0);
    assert_eq!(l.to_vec(), vec![0, i32::MAX, i32::MIN]);
    assert_eq!(l.len(), 3);
}

#[test]
fn equal_values_are_kept_apart() {
    let mut l = List::new();
    l.push(7);
    l.push(7);
    assert_eq!(l.to_vec(), vec![7, 7]);
    assert_eq!(l.head(), Some(7));
}

#[test]
fn long_list_is_dropped() {
    let mut l = List::new();
    for i in 0..10000 {
        l.push(i);
    }
    assert_eq!(l.head(), Some(9999));
    drop(l);
}
