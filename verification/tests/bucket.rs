use xtc::bucket::BucketData;

#[test]
fn get_transaction_from_offset_zero() {
    let bucket = BucketData::<u32, u32>::new(0, vec![0, 1, 2, 3]);
    assert_eq!(bucket.get_transaction(0), Some(&0));
    assert_eq!(bucket.get_transaction(1), Some(&1));
    assert_eq!(bucket.get_transaction(2), Some(&2));
    assert_eq!(bucket.get_transaction(3), Some(&3));
    assert_eq!(bucket.get_transaction(4), None);
}

#[test]
fn get_transaction() {
    let bucket = BucketData::<u32, u32>::new(1, vec![1, 2, 3]);
    assert_eq!(bucket.get_transaction(0), None);
    assert_eq!(bucket.get_transaction(1), Some(&1));
    assert_eq!(bucket.get_transaction(2), Some(&2));
    assert_eq!(bucket.get_transaction(3), Some(&3));
    assert_eq!(bucket.get_transaction(4), None);
}

#[test]
fn events_from_offset_zero() {
    let events = (0..=10).collect();
    let bucket = BucketData::<u32, u32>::new(0, events);

    let res = bucket.events(None, 3, 17);
    assert_eq!(res.data, vec![&10, &9, &8]);
    assert_eq!(res.next_offset, 8);
    assert_eq!(res.next_canister_id, Some(17));

    let res = bucket.events(Some(11), 3, 17);
    assert_eq!(res.data, vec![&10, &9, &8]);
    assert_eq!(res.next_offset, 8);
    assert_eq!(res.next_canister_id, Some(17));

    let res = bucket.events(Some(res.next_offset), 3, 17);
    assert_eq!(res.data, vec![&7, &6, &5]);
    assert_eq!(res.next_offset, 5);
    assert_eq!(res.next_canister_id, Some(17));

    let res = bucket.events(Some(res.next_offset), 3, 17);
    assert_eq!(res.data, vec![&4, &3, &2]);
    assert_eq!(res.next_offset, 2);
    assert_eq!(res.next_canister_id, Some(17));

    let res = bucket.events(Some(res.next_offset), 3, 17);
    assert_eq!(res.data, vec![&1, &0]);
    assert_eq!(res.next_offset, 0);
    assert_eq!(res.next_canister_id, None);

    let res = bucket.events(Some(1), 3, 17);
    assert_eq!(res.data, vec![&0]);
    assert_eq!(res.next_offset, 0);
    assert_eq!(res.next_canister_id, None);

    let res = bucket.events(Some(0), 3, 17);
    assert_eq!(res.data, Vec::<&u32>::new());
    assert_eq!(res.next_offset, 0);
    assert_eq!(res.next_canister_id, None);
}

#[test]
fn events() {
    let events = (11..=20).collect();
    let mut bucket = BucketData::<u32, u32>::new(11, events);
    bucket.update_next(Some(16));

    assert_eq!(bucket.get_transaction(11), Some(&11));

    let res = bucket.events(None, 3, 17);
    assert_eq!(res.data, vec![&20, &19, &18]);
    assert_eq!(res.next_offset, 18);
    assert_eq!(res.next_canister_id, Some(17));

    let res = bucket.events(Some(res.next_offset), 3, 17);
    assert_eq!(res.data, vec![&17, &16, &15]);
    assert_eq!(res.next_offset, 15);
    assert_eq!(res.next_canister_id, Some(17));

    let res = bucket.events(Some(res.next_offset), 3, 17);
    assert_eq!(res.data, vec![&14, &13, &12]);
    assert_eq!(res.next_offset, 12);
    assert_eq!(res.next_canister_id, Some(17));

    let res = bucket.events(Some(res.next_offset), 3, 17);
    assert_eq!(res.data, vec![&11]);
    assert_eq!(res.next_offset, 11);
    assert_eq!(res.next_canister_id, Some(16));

    let res = bucket.events(Some(13), 3, 17);
    assert_eq!(res.data, vec![&12, &11]);
    assert_eq!(res.next_offset, 11);
    assert_eq!(res.next_canister_id, Some(16));

    // Test next bucket.

    let events = (0..11).collect();
    let bucket = BucketData::<u32, u32>::new(0, events);

    let res = bucket.events(Some(11), 3, 16);
    assert_eq!(res.data, vec![&10, &9, &8]);
    assert_eq!(res.next_offset, 8);
    assert_eq!(res.next_canister_id, Some(16));
}

#[test]
fn push() {
    let mut bucket = BucketData::<u32, u32>::new(0, vec![]);
    assert_eq!(bucket.push(0), 0);

    let events = (11..=20).collect();
    let mut bucket = BucketData::<u32, u32>::new(11, events);
    assert_eq!(bucket.push(21), 21);
    assert_eq!(bucket.push(22), 22);
}

#[test]
fn remove_first() {
    let events = (0..=20).collect();
    let mut bucket = BucketData::<u32, u32>::new(0, events);
    assert_eq!(bucket.get_transaction(0), Some(&0));
    assert_eq!(bucket.get_transaction(1), Some(&1));
    bucket.remove_first(5);
    assert_eq!(bucket.get_transaction(0), None);
    assert_eq!(bucket.get_transaction(1), None);
    assert_eq!(bucket.get_transaction(4), None);
    assert_eq!(bucket.get_transaction(5), Some(&5));
    assert_eq!(bucket.get_transaction(6), Some(&6));
    bucket.remove_first(5);
    assert_eq!(bucket.get_transaction(0), None);
    assert_eq!(bucket.get_transaction(1), None);
    assert_eq!(bucket.get_transaction(4), None);
    assert_eq!(bucket.get_transaction(5), None);
    assert_eq!(bucket.get_transaction(6), None);
    assert_eq!(bucket.get_transaction(10), Some(&10));
}

// A cursor beyond the bucket's size is clamped down to the size, with the
// limit kept, so every overshooting cursor reads the same newest page.
#[test]
fn events_large_offset() {
    let events = (0..5).collect();
    let bucket = BucketData::<u32, u32>::new(0, events);

    let res = bucket.events(Some(5), 3, 17);
    assert_eq!(res.data, vec![&4, &3, &2]);
    assert_eq!(res.next_offset, 2);
    assert_eq!(res.next_canister_id, Some(17));

    let res = bucket.events(Some(6), 3, 17);
    assert_eq!(res.data, vec![&4, &3, &2]);
    assert_eq!(res.next_offset, 2);
    assert_eq!(res.next_canister_id, Some(17));

    let res = bucket.events(Some(7), 3, 17);
    assert_eq!(res.data, vec![&4, &3, &2]);
    assert_eq!(res.next_offset, 2);
    assert_eq!(res.next_canister_id, Some(17));

    let res = bucket.events(Some(8), 3, 17);
    assert_eq!(res.data, vec![&4, &3, &2]);
    assert_eq!(res.next_offset, 2);
    assert_eq!(res.next_canister_id, Some(17));

    let res = bucket.events(Some(9), 3, 17);
    assert_eq!(res.data, vec![&4, &3, &2]);
    assert_eq!(res.next_offset, 2);
    assert_eq!(res.next_canister_id, Some(17));

    let res = bucket.events(Some(10), 3, 17);
    assert_eq!(res.data, vec![&4, &3, &2]);
    assert_eq!(res.next_offset, 2);
    assert_eq!(res.next_canister_id, Some(17));
}
