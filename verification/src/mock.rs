//! An in-memory backend: buckets held as plain values, with a configurable
//! capacity per bucket and optional injected append failures, so the
//! flusher's retry paths can be exercised without a platform. Where the
//! abstract [`Backend`] trait promises nothing of a call, this
//! implementation's own contracts pin exactly what each call does to the
//! stored buckets.

use vstd::prelude::*;

use crate::backend::Backend;
use crate::bucket::BucketData;
use crate::types::{SetBucketMetadataArgs, Transaction, TransactionId};

verus! {

/// The address space of the mock: small integers; 0 is the hosting process.
pub type MockCanisterId = u32;

/// How many events one mock bucket accepts before it reports memory
/// exhaustion, as the platform's buckets eventually do.
pub const MOCK_BUCKET_CAPACITY: usize = 50;

/// A backend that keeps every bucket in memory.
pub struct MockBackend {
    /// The bucket processes, indexed by their id; `None` marks a process
    /// that has been created but holds no installed code yet. Index 0 is
    /// reserved for the hosting process itself.
    buckets: Vec<Option<BucketData<MockCanisterId, Transaction>>>,
    /// Appends that would grow a bucket past this many events fail.
    capacity: usize,
    /// This many upcoming append calls fail outright, to exercise retries.
    fail_appends: u32,
}

impl MockBackend {
    /// The processes the mock knows, by id: `None` before code is installed.
    pub closed spec fn buckets_spec(&self) -> Seq<Option<BucketData<MockCanisterId, Transaction>>> {
        self.buckets@
    }

    /// How many processes exist, the hosting one included.
    pub open spec fn canister_count(&self) -> int {
        self.buckets_spec().len() as int
    }

    /// The per-bucket capacity.
    pub closed spec fn capacity_spec(&self) -> usize {
        self.capacity
    }

    /// How many upcoming append calls will be failed on purpose.
    pub closed spec fn fail_appends_spec(&self) -> u32 {
        self.fail_appends
    }

    /// A mock with the default bucket capacity and no injected failures.
    pub fn new() -> (r: Self)
        ensures
            r.canister_count() == 1,
            r.buckets_spec()[0] is None,
            r.capacity_spec() == MOCK_BUCKET_CAPACITY,
            r.fail_appends_spec() == 0,
    {
        MockBackend { buckets: vec![None], capacity: MOCK_BUCKET_CAPACITY, fail_appends: 0 }
    }

    /// A mock whose buckets hold at most `capacity` events each.
    pub fn with_capacity(capacity: usize) -> (r: Self)
        ensures
            r.canister_count() == 1,
            r.buckets_spec()[0] is None,
            r.capacity_spec() == capacity,
            r.fail_appends_spec() == 0,
    {
        MockBackend { buckets: vec![None], capacity, fail_appends: 0 }
    }

    /// Make the next `n` append calls fail, whatever their target.
    pub fn fail_next_appends(&mut self, n: u32)
        ensures
            final(self).buckets_spec() == old(self).buckets_spec(),
            final(self).capacity_spec() == old(self).capacity_spec(),
            final(self).fail_appends_spec() == n,
    {
        self.fail_appends = n;
    }

    /// The bucket installed on the given process, for direct reads, as a
    /// pagination client would perform them.
    pub fn get_bucket_data(&self, canister_id: MockCanisterId) -> (r: Option<
        &BucketData<MockCanisterId, Transaction>,
    >)
        ensures
            match r {
                Some(b) => canister_id < self.canister_count()
                    && self.buckets_spec()[canister_id as int] == Some(*b),
                None => canister_id >= self.canister_count()
                    || self.buckets_spec()[canister_id as int] is None,
            },
    {
        let index = canister_id as usize;
        if index >= self.buckets.len() {
            return None;
        }
        match &self.buckets[index] {
            Some(bucket) => Some(bucket),
            None => None,
        }
    }
}

impl Backend<MockCanisterId> for MockBackend {
    fn create_canister(&mut self) -> (r: Result<MockCanisterId, String>)
        ensures
            r is Ok <==> old(self).canister_count() < u32::MAX,
            r matches Ok(id) ==> id == old(self).canister_count() && final(self).buckets_spec()
                == old(self).buckets_spec().push(None),
            r is Err ==> *final(self) == *old(self),
            final(self).capacity_spec() == old(self).capacity_spec(),
            final(self).fail_appends_spec() == old(self).fail_appends_spec(),
    {
        if self.buckets.len() >= u32::MAX as usize {
            return Err("No more canister ids.".to_string());
        }
        let id = self.buckets.len() as u32;
        self.buckets.push(None);
        Ok(id)
    }

    fn install_code(&mut self, canister_id: MockCanisterId) -> (r: Result<(), String>)
        ensures
            r is Ok <==> canister_id < old(self).canister_count(),
            r is Ok ==> ({
                &&& final(self).buckets_spec().len() == old(self).buckets_spec().len()
                &&& final(self).buckets_spec()[canister_id as int] matches Some(b)
                    && b.events_seq() == Seq::<Transaction>::empty() && !b.has_metadata()
                &&& forall|k: int|
                    0 <= k < old(self).canister_count() && k != canister_id ==> final(self).buckets_spec()[k] == old(self).buckets_spec()[k]
            }),
            r is Err ==> *final(self) == *old(self),
            final(self).capacity_spec() == old(self).capacity_spec(),
            final(self).fail_appends_spec() == old(self).fail_appends_spec(),
    {
        let index = canister_id as usize;
        if index >= self.buckets.len() {
            return Err("Canister not found.".to_string());
        }
        self.buckets.set(index, Some(BucketData::default()));
        Ok(())
    }

    fn write_metadata(
        &mut self,
        canister_id: MockCanisterId,
        data: SetBucketMetadataArgs<MockCanisterId>,
    ) -> (r: Result<(), String>)
        ensures
            r is Ok ==> ({
                &&& canister_id < old(self).canister_count()
                &&& old(self).buckets_spec()[canister_id as int] matches Some(b0)
                    && !b0.has_metadata() && (final(self).buckets_spec()[canister_id as int]
                    matches Some(b) && b.has_metadata() && b.offset_spec() == data.from
                    && b.next_spec() == data.next && b.events_seq() == b0.events_seq())
                &&& forall|k: int|
                    0 <= k < old(self).canister_count() && k != canister_id ==> final(self).buckets_spec()[k] == old(self).buckets_spec()[k]
                &&& final(self).buckets_spec().len() == old(self).buckets_spec().len()
            }),
            r is Err ==> final(self).buckets_spec() == old(self).buckets_spec(),
            final(self).capacity_spec() == old(self).capacity_spec(),
            final(self).fail_appends_spec() == old(self).fail_appends_spec(),
    {
        let index = canister_id as usize;
        if index >= self.buckets.len() {
            return Err("Canister not found.".to_string());
        }
        match &mut self.buckets[index] {
            None => Err("Canister code not installed.".to_string()),
            Some(bucket) => {
                if bucket.metadata_is_set() {
                    return Err("The metadata is already set.".to_string());
                }
                if bucket.len() as u64 > u64::MAX - data.from {
                    return Err("Offset out of range.".to_string());
                }
                bucket.set_metadata(data);
                Ok(())
            },
        }
    }

    fn append_transactions(
        &mut self,
        canister_id: MockCanisterId,
        data: Vec<Transaction>,
    ) -> (r: Result<(), String>)
        ensures
            old(self).fail_appends_spec() > 0 ==> r is Err && final(self).fail_appends_spec()
                == old(self).fail_appends_spec() - 1,
            old(self).fail_appends_spec() == 0 ==> final(self).fail_appends_spec() == 0,
            r is Err ==> final(self).buckets_spec() == old(self).buckets_spec(),
            r is Ok ==> ({
                &&& canister_id < old(self).canister_count()
                &&& old(self).buckets_spec()[canister_id as int] matches Some(b0)
                    && b0.has_metadata() && b0.events_seq().len() + data@.len()
                    <= old(self).capacity_spec() && (final(self).buckets_spec()[canister_id as int]
                    matches Some(b) && b.events_seq() == b0.events_seq() + data@
                    && b.has_metadata() && b.offset_spec() == b0.offset_spec() && b.next_spec()
                    == b0.next_spec())
                &&& forall|k: int|
                    0 <= k < old(self).canister_count() && k != canister_id ==> final(self).buckets_spec()[k] == old(self).buckets_spec()[k]
                &&& final(self).buckets_spec().len() == old(self).buckets_spec().len()
            }),
            final(self).capacity_spec() == old(self).capacity_spec(),
    {
        if self.fail_appends > 0 {
            self.fail_appends = self.fail_appends - 1;
            return Err("Injected failure.".to_string());
        }
        let index = canister_id as usize;
        if index >= self.buckets.len() {
            return Err("Canister not found.".to_string());
        }
        let capacity = self.capacity;
        match &mut self.buckets[index] {
            None => Err("Canister code not installed.".to_string()),
            Some(bucket) => {
                if !bucket.metadata_is_set() {
                    return Err("The metadata is not set.".to_string());
                }
                if data.len() > capacity || bucket.len() > capacity - data.len() {
                    return Err("Memory overflow.".to_string());
                }
                let offset = bucket.get_offset();
                if bucket.len() as u64 > u64::MAX - offset {
                    return Err("Offset out of range.".to_string());
                }
                if data.len() as u64 > u64::MAX - offset - bucket.len() as u64 {
                    return Err("Offset out of range.".to_string());
                }
                let mut data = data;
                bucket.append(&mut data);
                Ok(())
            },
        }
    }

    fn lookup_transaction(&mut self, canister_id: MockCanisterId, id: TransactionId) -> (r: Result<
        Option<Transaction>,
        String,
    >)
        ensures
            *final(self) == *old(self),
            r matches Ok(found) ==> ({
                &&& canister_id < old(self).canister_count()
                &&& old(self).buckets_spec()[canister_id as int] matches Some(b) && match found {
                    Some(e) => b.offset_spec() <= id < b.offset_spec() + b.events_seq().len()
                        && e == b.events_seq()[id - b.offset_spec()],
                    None => !(b.offset_spec() <= id < b.offset_spec() + b.events_seq().len()),
                }
            }),
    {
        let index = canister_id as usize;
        if index >= self.buckets.len() {
            return Err("Canister not found.".to_string());
        }
        match &self.buckets[index] {
            None => Err("Canister code not installed.".to_string()),
            Some(bucket) => {
                if !bucket.metadata_is_set() {
                    return Err("The metadata is not set.".to_string());
                }
                match bucket.get_transaction(id) {
                    Some(event) => Ok(Some(event.clone())),
                    None => Ok(None),
                }
            },
        }
    }

    fn id(&self) -> (r: MockCanisterId)
        ensures
            r == 0,
    {
        0
    }
}

} // verus!
