use genindex::{GenerationalIndexAllocator, GenerationalIndexArray};

#[test]
fn new_array_holds_nothing() {
    let mut allocator = GenerationalIndexAllocator::new();
    let handle = allocator.allocate();
    let mut array: GenerationalIndexArray<i32> = GenerationalIndexArray::new();
    assert_eq!(array.get(handle), None);
    assert!(array.get_mut(handle).is_none());
}

#[test]
fn set_then_get_round_trip() {
    let mut allocator = GenerationalIndexAllocator::new();
    let h0 = allocator.allocate();
    let h1 = allocator.allocate();
    let h2 = allocator.allocate();
    let mut array = GenerationalIndexArray::new();

    array.set(h1, String::from("one"));
    assert_eq!(array.get(h1), Some(&String::from("one")));
    assert_eq!(array.get(h0), None);
    assert_eq!(array.get(h2), None);

    array.set(h0, String::from("zero"));
    array.set(h2, String::from("two"));
    assert_eq!(array.get(h0), Some(&String::from("zero")));
    assert_eq!(array.get(h1), Some(&String::from("one")));
    assert_eq!(array.get(h2), Some(&String::from("two")));
}

#[test]
fn set_overwrites() {
    let mut allocator = GenerationalIndexAllocator::new();
    let handle = allocator.allocate();
    let mut array = GenerationalIndexArray::new();
    array.set(handle, 1u8);
    array.set(handle, 2u8);
    assert_eq!(array.get(handle), Some(&2u8));
}

#[test]
fn get_mut_writes_through() {
    let mut allocator = GenerationalIndexAllocator::new();
    let h0 = allocator.allocate();
    let h1 = allocator.allocate();
    let mut array = GenerationalIndexArray::new();
    array.set(h0, 10u64);
    array.set(h1, 20u64);

    match array.get_mut(h1) {
        Some(value) => {
            assert_eq!(*value, 20);
            *value += 5;
        }
        None => panic!("a value was stored under this handle"),
    }
    assert_eq!(array.get(h1), Some(&25u64));
    assert_eq!(array.get(h0), Some(&10u64));
}

#[test]
fn recycled_slot_without_new_value() {
    let mut allocator = GenerationalIndexAllocator::new();
    let handle = allocator.allocate();
    let mut array = GenerationalIndexArray::new();
    array.set(handle, 'a');
    assert_eq!(array.get(handle), Some(&'a'));

    assert!(allocator.deallocate(handle));
    let recycled = allocator.allocate();
    assert_eq!(recycled.index(), handle.index());

    // nothing was stored under the new generation
    assert_eq!(array.get(recycled), None);
    assert!(array.get_mut(recycled).is_none());
    // the array does not ask the allocator: the old entry is still its own
    assert_eq!(array.get(handle), Some(&'a'));
}

#[test]
fn recycled_slot_with_new_value() {
    let mut allocator = GenerationalIndexAllocator::new();
    let handle = allocator.allocate();
    let mut array = GenerationalIndexArray::new();
    array.set(handle, 'a');

    assert!(allocator.deallocate(handle));
    let recycled = allocator.allocate();
    array.set(recycled, 'b');

    assert_eq!(array.get(recycled), Some(&'b'));
    assert_eq!(array.get(handle), None);
    assert!(array.get_mut(handle).is_none());
    assert!(allocator.is_live(recycled));
    assert!(!allocator.is_live(handle));
}

#[test]
fn older_generation_can_overwrite() {
    let mut allocator = GenerationalIndexAllocator::new();
    let handle = allocator.allocate();
    assert!(allocator.deallocate(handle));
    let recycled = allocator.allocate();
    let mut array = GenerationalIndexArray::new();

    array.set(recycled, 2i64);
    // storing takes the handle's generation as it is, whatever was there
    array.set(handle, 1i64);
    assert_eq!(array.get(handle), Some(&1i64));
    assert_eq!(array.get(recycled), None);
}

#[test]
fn storage_grows_to_reach_a_position() {
    let mut allocator = GenerationalIndexAllocator::new();
    let mut last = allocator.allocate();
    for _ in 0..63 {
        last = allocator.allocate();
    }
    assert_eq!(last.index(), 63);

    let mut array = GenerationalIndexArray::new();
    array.set(last, 63usize);
    assert_eq!(array.get(last), Some(&63usize));

    // the positions below were given no value
    let mut again = GenerationalIndexAllocator::new();
    for position in 0..63usize {
        let handle = again.allocate();
        assert_eq!(handle.index(), position);
        assert_eq!(array.get(handle), None);
    }

    // a position beyond the storage holds nothing either
    let beyond = allocator.allocate();
    assert_eq!(beyond.index(), 64);
    assert_eq!(array.get(beyond), None);
    assert!(array.get_mut(beyond).is_none());
}

#[test]
fn values_need_not_be_copyable() {
    let mut allocator = GenerationalIndexAllocator::new();
    let handle = allocator.allocate();
    let mut array: GenerationalIndexArray<Vec<u32>> = GenerationalIndexArray::new();
    array.set(handle, vec![1, 2]);
    if let Some(values) = array.get_mut(handle) {
        values.push(3);
    }
    assert_eq!(array.get(handle), Some(&vec![1, 2, 3]));
}
