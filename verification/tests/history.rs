use xtc::history::History;
use xtc::mock::MockBackend;
use xtc::types::{Account, Transaction, TransactionKind, TransactionStatus};

/// Generate a fake transaction with the given id, the id is inserted as the
/// timestamp for the transaction.
fn tx(id: u64) -> Transaction {
    Transaction {
        timestamp: id,
        cycles: 0,
        fee: 0,
        kind: TransactionKind::Mint { to: Account(0) },
        status: TransactionStatus::SUCCEEDED,
    }
}

/// We should keep the most recent n items in the main canister if the
/// flush_threshold % chunk_size = n.
#[test]
fn flusher_keep_most_recent() {
    let mut backend = MockBackend::new();
    let mut history = History::<u32>::new(25, 10);

    for i in 0..25 {
        history.push(tx(i));
    }

    while history.progress(&mut backend) {}

    let archive = history.archive();
    assert_eq!(archive.offset, 20);
    assert_eq!(archive.events.len(), 5);
    assert_eq!(archive.buckets.len(), 1);
    assert_eq!(archive.buckets[0].0, 0);
}

/// An aggressive test which tries to prove that the flusher is always able
/// to return the correct data, and always has access to the entire history.
#[test]
fn flusher() {
    let mut backend = MockBackend::new();
    let mut history = History::<u32>::new(25, 10);

    for i in 0..500 {
        history.push(tx(i));

        // On each update also show that the entire transaction is still available.
        for j in 0..=i {
            assert_eq!(history.get_transaction(j, &mut backend), Some(tx(j)));
        }

        history.progress(&mut backend);
    }

    while history.progress(&mut backend) {}

    // Show that the data is actually flushed and most of the data is in the
    // external buckets.
    assert!(history.get_history_data().len() < 25);
    // Show that the data is distributed in more than 1 bucket.
    // 11 * 50 = 550
    // 10 * 50 = 500
    // so we should have at least 10 buckets.
    assert!(history.archive().buckets.len() > 9);

    for j in 0..500 {
        assert_eq!(history.get_transaction(j, &mut backend), Some(tx(j)));
    }
}

/// History id monotonicity: successive pushes return strictly increasing
/// ids starting at 0, and a flush in between does not disturb them.
#[test]
fn push_ids_strictly_increase() {
    let mut backend = MockBackend::new();
    let mut history = History::<u32>::new(25, 10);

    for i in 0..60 {
        let id = history.push(tx(i));
        assert_eq!(id, i);
        history.progress(&mut backend);
    }
    assert_eq!(history.len(), 60);
}

/// Pagination across a split: push 25 events with threshold 25 and chunk
/// 10, pump until done; the head keeps ids 20..24 and one chain bucket
/// holds ids 0..19. Walking the pages from the newest id enumerates every
/// event exactly once, newest to oldest, handing over from the head to the
/// bucket at the head's offset.
#[test]
fn pagination_across_split() {
    let mut backend = MockBackend::new();
    let mut history = History::<u32>::new(25, 10);

    for i in 0..25 {
        history.push(tx(i));
    }
    while history.progress(&mut backend) {}

    let archive = history.archive();
    assert_eq!(archive.offset, 20);
    assert_eq!(archive.events.len(), 5);
    assert_eq!(archive.buckets.len(), 1);
    assert_eq!(archive.buckets[0].0, 0);
    let bucket_id = archive.buckets[0].1;

    // The head serves its own range: ids 24..20, then hands over to the
    // bucket at its offset.
    let page = history.events(Some(25), 10, &backend);
    let ids: Vec<u64> = page.data.iter().map(|t| t.timestamp).collect();
    assert_eq!(ids, vec![24, 23, 22, 21, 20]);
    assert_eq!(page.next_offset, 20);
    assert_eq!(page.next_canister_id, Some(bucket_id));
    let cursor = page.next_offset;

    // The client asks the bucket itself for the next pages.
    let bucket = backend.get_bucket_data(bucket_id).unwrap();
    let page = bucket.events(Some(cursor), 10, bucket_id);
    let ids: Vec<u64> = page.data.iter().map(|t| t.timestamp).collect();
    assert_eq!(ids, (10..20).rev().collect::<Vec<u64>>());
    assert_eq!(page.next_offset, 10);
    assert_eq!(page.next_canister_id, Some(bucket_id));

    let page = bucket.events(Some(page.next_offset), 10, bucket_id);
    let ids: Vec<u64> = page.data.iter().map(|t| t.timestamp).collect();
    assert_eq!(ids, (0..10).rev().collect::<Vec<u64>>());
    assert_eq!(page.next_offset, 0);
    assert_eq!(page.next_canister_id, None);

    // A shorter final page: asking the bucket below id 5 yields ids 4..0
    // and ends the enumeration.
    let page = bucket.events(Some(5), 10, bucket_id);
    let ids: Vec<u64> = page.data.iter().map(|t| t.timestamp).collect();
    assert_eq!(ids, vec![4, 3, 2, 1, 0]);
    assert_eq!(page.next_canister_id, None);
}

/// Flusher retry: a backend that fails the first append makes the flusher
/// fall back to provisioning a fresh bucket, and it still reaches done;
/// every event stays retrievable during the whole flush.
#[test]
fn flusher_retry() {
    let mut backend = MockBackend::new();
    backend.fail_next_appends(1);
    let mut history = History::<u32>::new(25, 10);

    for i in 0..25 {
        history.push(tx(i));
    }

    let mut rounds = 0;
    loop {
        for j in 0..25 {
            assert_eq!(history.get_transaction(j, &mut backend), Some(tx(j)));
        }
        if !history.progress(&mut backend) {
            break;
        }
        rounds += 1;
        assert!(rounds < 100);
    }

    // The failed push cost one extra bucket and three extra ticks.
    let archive = history.archive();
    assert_eq!(archive.offset, 20);
    assert_eq!(archive.events.len(), 5);
    assert_eq!(archive.buckets.len(), 2);

    for j in 0..25 {
        assert_eq!(history.get_transaction(j, &mut backend), Some(tx(j)));
    }
}
