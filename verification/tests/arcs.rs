use nds::arc::{Arc, ArcHeap};

#[test]
fn strong_count_sequence_over_clones_and_drops() {
    let mut h = ArcHeap::new();
    let a1 = Arc::new(&mut h, String::from("payload"));
    assert_eq!(Arc::strong_count(&h, &a1), 1);
    let a2 = Arc::clone(&mut h, &a1);
    assert_eq!(Arc::strong_count(&h, &a1), 2);
    let a3 = Arc::clone(&mut h, &a2);
    assert_eq!(Arc::strong_count(&h, &a1), 3);

    // The destructor must not run before the last strong drop...
    assert_eq!(Arc::drop(&mut h, a3), None);
    assert_eq!(Arc::strong_count(&h, &a1), 2);
    assert_eq!(Arc::drop(&mut h, a2), None);
    assert_eq!(Arc::strong_count(&h, &a1), 1);
    // ...and must run exactly once, at the last one.
    assert_eq!(Arc::drop(&mut h, a1), Some(String::from("payload")));
}

#[test]
fn value_is_shared_by_every_handle() {
    let mut h = ArcHeap::new();
    let a1 = Arc::new(&mut h, 42u64);
    let a2 = Arc::clone(&mut h, &a1);
    assert_eq!(*Arc::get(&h, &a1), 42);
    assert_eq!(*Arc::get(&h, &a2), 42);
    assert_eq!(Arc::drop(&mut h, a1), None);
    assert_eq!(*Arc::get(&h, &a2), 42);
    assert_eq!(Arc::drop(&mut h, a2), Some(42));
}

#[test]
fn weak_count_stays_at_the_implicit_reference() {
    let mut h = ArcHeap::new();
    let a1 = Arc::new(&mut h, 5u8);
    assert_eq!(Arc::weak_count(&h, &a1), 1);
    let a2 = Arc::clone(&mut h, &a1);
    assert_eq!(Arc::weak_count(&h, &a1), 1);
    assert_eq!(Arc::drop(&mut h, a2), None);
    assert_eq!(Arc::weak_count(&h, &a1), 1);
    assert_eq!(Arc::drop(&mut h, a1), Some(5));
}

#[test]
fn distinct_cells_are_independent() {
    let mut h = ArcHeap::new();
    let a = Arc::new(&mut h, 1i32);
    let b = Arc::new(&mut h, 2i32);
    let b2 = Arc::clone(&mut h, &b);
    assert_eq!(Arc::strong_count(&h, &a), 1);
    assert_eq!(Arc::strong_count(&h, &b), 2);
    assert_eq!(Arc::drop(&mut h, a), Some(1));
    // Dropping the last handle of one cell leaves the other untouched.
    assert_eq!(Arc::strong_count(&h, &b), 2);
    assert_eq!(*Arc::get(&h, &b2), 2);
    assert_eq!(Arc::drop(&mut h, b), None);
    assert_eq!(Arc::drop(&mut h, b2), Some(2));
}
