use ex_fastembed::slot::Slot;

#[test]
fn slot_starts_empty() {
    let s: Slot<u32> = Slot::new();
    assert!(!s.is_filled());
    assert_eq!(s.get(), None);
}

#[test]
fn slot_takes_first_store_only() {
    let mut s: Slot<u32> = Slot::new();
    assert_eq!(s.store(7), Ok(()));
    assert!(s.is_filled());
    assert_eq!(s.get(), Some(&7));
    assert_eq!(s.store(9), Err(9));
    assert_eq!(s.get(), Some(&7));
    assert_eq!(s.store(7), Err(7));
    assert_eq!(s.get(), Some(&7));
}
