use rf_a::dram::LazyIndirect;

#[test]
fn lazy() {
    let mut test: LazyIndirect<u64> = LazyIndirect::new();
    assert!(test.get().is_none());
    assert_eq!(*test.force(|| 42), 42);
}

#[test]
fn lazy_initialises_once() {
    let mut test: LazyIndirect<u64> = LazyIndirect::new();
    assert_eq!(*test.force(|| 42), 42);
    assert_eq!(*test.force(|| 55), 42);
    assert_eq!(test.get(), Some(&42));
}
