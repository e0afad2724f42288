//! The history owned by the main process: one head bucket that receives new
//! events, and an ordered chain of older buckets that hold what has been
//! flushed out.
//!
//! The global id space `[0, size)` is covered exactly once: the chain entry
//! at index `i` claims the ids from its start offset up to the next entry's
//! start offset (or up to the head's offset for the last entry), and the head
//! bucket claims `[head offset, size)`.

use vstd::prelude::*;

use crate::backend::Backend;
use crate::bucket::{page_cursor, page_low, BucketData};
use crate::types::{EventsConnection, SetBucketMetadataArgs, Transaction, TransactionId};

verus! {

/// The address of the chain bucket that should hold the given id: the last
/// chain entry whose start offset is at most `id`.
pub open spec fn chain_route<Address>(chain: Seq<(TransactionId, Address)>, id: u64) -> Option<
    Address,
>
    decreases chain.len(),
{
    if chain.len() == 0 {
        None
    } else if chain.last().0 <= id {
        Some(chain.last().1)
    } else {
        chain_route(chain.drop_last(), id)
    }
}

/// Whether the chain entry at index `i` claims the id: the id lies between
/// this entry's start offset and the next one's (or the head's offset, for
/// the last entry).
pub open spec fn chain_claims<Address>(
    chain: Seq<(TransactionId, Address)>,
    head_offset: u64,
    i: int,
    id: u64,
) -> bool {
    &&& 0 <= i < chain.len()
    &&& chain[i].0 <= id
    &&& if i + 1 < chain.len() {
        id < chain[i + 1].0
    } else {
        id < head_offset
    }
}

/// What a paged read returns, stated over the history's views: a cursor in
/// the head's range (or an unset cursor) is served from the head bucket as
/// one page, newest first; an older cursor yields an empty page that names
/// the chain bucket that claims it.
pub open spec fn events_post<Address>(
    head_offset: u64,
    head_events: Seq<Transaction>,
    head_next: Option<Address>,
    chain: Seq<(TransactionId, Address)>,
    offset: Option<u64>,
    limit: nat,
    r: EventsConnection<'_, Address, Transaction>,
) -> bool {
    let c = match offset {
        Some(o) => o as int,
        None => head_offset + head_events.len(),
    };
    if c >= head_offset {
        let o = page_cursor(head_offset, head_events.len(), Some(c as u64));
        let lo = page_low(head_offset, head_events.len(), Some(c as u64), limit);
        &&& r.data@.len() == o - lo
        &&& forall|i: int| 0 <= i < o - lo ==> *r.data@[i] == head_events[o - 1 - i - head_offset]
        &&& lo > head_offset ==> r.next_canister_id is Some && r.next_offset == lo
        &&& lo == head_offset ==> match head_next {
            Some(a) => r.next_canister_id == Some(a) && r.next_offset == head_offset,
            None => r.next_canister_id is None && r.next_offset == 0,
        }
    } else {
        &&& r.data@.len() == 0
        &&& r.next_offset == c
        &&& r.next_canister_id == chain_route(chain, c as u64)
    }
}

/// An owned image of the history data, for snapshots.
pub struct HistoryArchive<Address> {
    /// The head bucket's offset.
    pub offset: TransactionId,
    /// The head bucket's events.
    pub events: Vec<Transaction>,
    /// The chain of older buckets, as (start offset, address) pairs.
    pub buckets: Vec<(TransactionId, Address)>,
}

impl<Address> HistoryArchive<Address> {
    /// Well-formedness of an archive: what [`HistoryData::archive`] produces
    /// and [`HistoryData::load`] accepts.
    pub open spec fn wf(&self) -> bool {
        &&& self.offset + self.events@.len() <= u64::MAX
        &&& forall|i: int, j: int|
            0 <= i <= j < self.buckets@.len() ==> self.buckets@[i].0 <= self.buckets@[j].0
        &&& self.buckets@.len() > 0 ==> self.buckets@[0].0 == 0
        &&& self.buckets@.len() > 0 ==> self.buckets@.last().0 <= self.offset
        &&& self.buckets@.len() == 0 ==> self.offset == 0
    }
}

/// The head bucket and the chain map of the process-local history.
pub struct HistoryData<Address> {
    /// The in-process bucket that receives new events.
    bucket: BucketData<Address, Transaction>,
    /// Older buckets, sorted by start offset; the first entry starts at 0.
    buckets: Vec<(TransactionId, Address)>,
}

impl<Address> HistoryData<Address> {
    /// The head bucket's events, oldest first.
    pub closed spec fn head_events(&self) -> Seq<Transaction> {
        self.bucket.events_seq()
    }

    /// The head bucket's offset: the global id of its first event.
    pub closed spec fn head_offset(&self) -> TransactionId {
        self.bucket.offset_spec()
    }

    /// The head bucket's link to the newest chain bucket.
    pub closed spec fn head_next(&self) -> Option<Address> {
        self.bucket.next_spec()
    }

    /// The chain of older buckets.
    pub closed spec fn chain(&self) -> Seq<(TransactionId, Address)> {
        self.buckets@
    }

    /// The total number of events ever inserted: one past the newest id.
    pub open spec fn size_spec(&self) -> int {
        self.head_offset() + self.head_events().len()
    }

    /// Well-formedness: the head bucket is initialized, the chain is sorted
    /// by start offset, starts at id 0, never runs past the head's offset,
    /// and the head links to the newest chain bucket.
    pub closed spec fn wf(&self) -> bool {
        &&& self.bucket.has_metadata()
        &&& self.bucket.wf()
        &&& forall|i: int, j: int|
            0 <= i <= j < self.buckets@.len() ==> self.buckets@[i].0 <= self.buckets@[j].0
        &&& self.buckets@.len() > 0 ==> self.buckets@[0].0 == 0
        &&& self.buckets@.len() > 0 ==> self.buckets@.last().0 <= self.head_offset()
        &&& self.buckets@.len() == 0 ==> self.head_offset() == 0
        &&& if self.buckets@.len() > 0 {
            self.head_next() == Some(self.buckets@.last().1)
        } else {
            self.head_next() is None
        }
    }

    /// An empty history: a head bucket at offset 0 and no chain.
    pub fn default() -> (r: Self)
        ensures
            r.wf(),
            r.head_events() == Seq::<Transaction>::empty(),
            r.head_offset() == 0,
            r.chain() == Seq::<(TransactionId, Address)>::empty(),
    {
        let mut bucket = BucketData::default();
        bucket.set_metadata(SetBucketMetadataArgs { from: 0, next: None });
        HistoryData { bucket, buckets: Vec::new() }
    }

    /// Push an event to the head bucket and return its global id.
    pub fn push(&mut self, event: Transaction) -> (id: TransactionId)
        requires
            old(self).wf(),
            old(self).size_spec() < u64::MAX,
        ensures
            final(self).wf(),
            id == old(self).size_spec(),
            final(self).head_events() == old(self).head_events().push(event),
            final(self).head_offset() == old(self).head_offset(),
            final(self).chain() == old(self).chain(),
            final(self).head_next() == old(self).head_next(),
    {
        self.bucket.push(event)
    }

    /// Record a freshly provisioned bucket: append `(head offset, address)`
    /// to the chain and link the head to it.
    pub fn insert_bucket(&mut self, address: Address) where Address: Copy
        requires
            old(self).wf(),
        ensures
            final(self).wf(),
            final(self).chain() == old(self).chain().push(
                (old(self).head_offset(), address),
            ),
            final(self).head_events() == old(self).head_events(),
            final(self).head_offset() == old(self).head_offset(),
            final(self).head_next() == Some(address),
    {
        let offset = self.bucket.get_offset();
        self.buckets.push((offset, address));
        self.bucket.update_next(Some(address));
    }

    /// Shed the first `min(n, head length)` events from the head bucket,
    /// advancing its offset; they now belong to the newest chain bucket.
    pub fn remove_first(&mut self, n: usize)
        requires
            old(self).wf(),
            old(self).chain().len() > 0 || n == 0 || old(self).head_events().len() == 0,
        ensures
            final(self).wf(),
            ({
                let k = if n <= old(self).head_events().len() {
                    n as int
                } else {
                    old(self).head_events().len() as int
                };
                final(self).head_events() == old(self).head_events().subrange(
                    k,
                    old(self).head_events().len() as int,
                ) && final(self).head_offset() == old(self).head_offset() + k
            }),
            final(self).chain() == old(self).chain(),
            final(self).head_next() == old(self).head_next(),
            final(self).size_spec() == old(self).size_spec(),
    {
        self.bucket.remove_first(n)
    }

    /// Whether the history holds no events and no chain.
    pub fn is_empty(&self) -> (r: bool)
        ensures
            r == (self.chain().len() == 0 && self.head_events().len() == 0),
    {
        self.buckets.len() == 0 && self.events_len() == 0
    }

    /// The number of events in the head bucket.
    pub fn len(&self) -> (r: usize)
        ensures
            r == self.head_events().len(),
    {
        self.events_len()
    }

    fn events_len(&self) -> (r: usize)
        ensures
            r == self.head_events().len(),
    {
        self.bucket.get_events().len()
    }

    /// The events held in the head bucket, oldest first.
    pub fn get_events(&self) -> (r: &Vec<Transaction>)
        ensures
            r@ == self.head_events(),
    {
        self.bucket.get_events()
    }

    /// A copy of the oldest `n` events of the head bucket, oldest first:
    /// the chunk the flusher copies out before shedding it.
    pub fn front_events(&self, n: usize) -> (r: Vec<Transaction>)
        requires
            n <= self.head_events().len(),
        ensures
            r@ == self.head_events().subrange(0, n as int),
    {
        let events = self.bucket.get_events();
        let mut out: Vec<Transaction> = Vec::new();
        let mut i: usize = 0;
        while i < n
            invariant
                0 <= i <= n <= events@.len(),
                events@ == self.head_events(),
                out@ == self.head_events().subrange(0, i as int),
            decreases n - i,
        {
            out.push(events[i].clone());
            i = i + 1;
            proof {
                assert(out@ =~= self.head_events().subrange(0, i as int));
            }
        }
        out
    }

    /// The total number of events ever inserted into the history.
    pub fn size(&self) -> (r: u64)
        requires
            self.wf(),
        ensures
            r == self.size_spec(),
    {
        self.bucket.get_offset() + self.bucket.len() as u64
    }

    /// The newest chain bucket, which the head currently links to.
    pub fn get_bucket(&self) -> (r: Address) where Address: Copy
        requires
            self.wf(),
            self.chain().len() > 0,
        ensures
            Some(r) == self.head_next(),
    {
        match self.bucket.get_next() {
            Some(a) => a,
            None => unreached(),
        }
    }

    /// Whether any chain bucket exists yet.
    pub fn bucket_exists(&self) -> (r: bool)
        ensures
            r == (self.chain().len() > 0),
    {
        self.buckets.len() > 0
    }

    /// The metadata a new bucket must be stamped with to continue the chain:
    /// it starts at the head's offset and links to the newest chain bucket.
    pub fn get_metadata(&self) -> (r: SetBucketMetadataArgs<Address>) where Address: Copy
        requires
            self.wf(),
        ensures
            r.from == self.head_offset(),
            r.next == self.head_next(),
    {
        SetBucketMetadataArgs { from: self.bucket.get_offset(), next: self.bucket.get_next() }
    }

    /// The chain bucket that should hold the given id: the chain entry with
    /// the largest start offset at most `id`, found by binary search, or
    /// `None` when the id falls in the head bucket's own range or no chain
    /// exists.
    pub fn get_bucket_for(&self, id: TransactionId) -> (r: Option<Address>) where Address: Copy
        requires
            self.wf(),
        ensures
            id >= self.head_offset() ==> r is None,
            id < self.head_offset() ==> r == chain_route(self.chain(), id),
    {
        let ghost chain = self.buckets@;
        if id >= self.bucket.get_offset() {
            return None;
        }
        if self.buckets.len() == 0 {
            return None;
        }
        let mut lo: usize = 0;
        let mut hi: usize = self.buckets.len();
        while lo < hi
            invariant
                0 <= lo <= hi <= chain.len(),
                self.buckets@ == chain,
                forall|i: int, j: int| 0 <= i <= j < chain.len() ==> chain[i].0 <= chain[j].0,
                forall|k: int| 0 <= k < lo ==> chain[k].0 <= id,
                forall|k: int| hi <= k < chain.len() ==> chain[k].0 > id,
            decreases hi - lo,
        {
            let mid = lo + (hi - lo) / 2;
            if self.buckets[mid].0 <= id {
                proof {
                    assert(forall|k: int|
                        0 <= k <= mid ==> chain[k].0 <= chain[mid as int].0);
                }
                lo = mid + 1;
            } else {
                proof {
                    assert(forall|k: int|
                        mid <= k < chain.len() ==> chain[mid as int].0 <= chain[k].0);
                }
                hi = mid;
            }
        }
        proof {
            lemma_chain_route_split(chain, id, lo as int);
        }
        if lo == 0 {
            None
        } else {
            Some(self.buckets[lo - 1].1)
        }
    }
}

impl<Address> HistoryData<Address> {
    /// The event with the given global id. An id in the head bucket's range
    /// is answered locally and exactly; an older id is looked up in the
    /// chain bucket that claims it, through the backend, and the answer is
    /// whatever that bucket returned (`None` on a failed call).
    pub fn get_transaction<B: Backend<Address>>(&self, id: TransactionId, backend: &mut B) -> (r:
        Option<Transaction>) where Address: Copy
        requires
            self.wf(),
        ensures
            id >= self.head_offset() ==> match r {
                Some(e) => id < self.size_spec() && e == self.head_events()[id
                    - self.head_offset()],
                None => id >= self.size_spec(),
            },
    {
        let off = self.bucket.get_offset();
        if id >= off {
            match self.bucket.get_transaction(id) {
                Some(e) => Some(e.clone()),
                None => None,
            }
        } else {
            match self.get_bucket_for(id) {
                Some(canister_id) => match backend.lookup_transaction(canister_id, id) {
                    Ok(found) => found,
                    Err(_) => None,
                },
                None => None,
            }
        }
    }

    /// Read one page of events, newest first. A cursor in the head bucket's
    /// range (or an unset cursor) is served from the head; an older cursor
    /// yields an empty page that points the caller at the chain bucket that
    /// claims it, to be asked directly.
    pub fn events<'a, B: Backend<Address>>(
        &'a self,
        offset: Option<u64>,
        limit: usize,
        backend: &B,
    ) -> (r: EventsConnection<'a, Address, Transaction>) where Address: Copy
        requires
            self.wf(),
        ensures
            events_post(
                self.head_offset(),
                self.head_events(),
                self.head_next(),
                self.chain(),
                offset,
                limit as nat,
                r,
            ),
    {
        let o = match offset {
            Some(o) => o,
            None => self.size(),
        };
        if o >= self.bucket.get_offset() {
            self.bucket.events(Some(o), limit, backend.id())
        } else {
            EventsConnection {
                data: Vec::new(),
                next_offset: o,
                next_canister_id: self.get_bucket_for(o),
            }
        }
    }

    /// An owned image of the history data.
    pub fn archive(&self) -> (r: HistoryArchive<Address>) where Address: Copy
        requires
            self.wf(),
        ensures
            r.offset == self.head_offset(),
            r.events@ == self.head_events(),
            r.buckets@ == self.chain(),
            r.wf(),
            self.head_next() == if r.buckets@.len() == 0 {
                None::<Address>
            } else {
                Some(r.buckets@.last().1)
            },
    {
        HistoryArchive {
            offset: self.bucket.get_offset(),
            events: clone_transactions(self.bucket.get_events()),
            buckets: copy_chain(&self.buckets),
        }
    }

    /// Restore the history from an archive; the history must be empty.
    pub fn load(&mut self, archive: HistoryArchive<Address>) where Address: Copy
        requires
            old(self).wf(),
            old(self).chain().len() == 0,
            old(self).head_events().len() == 0,
            archive.wf(),
        ensures
            final(self).wf(),
            final(self).head_offset() == archive.offset,
            final(self).head_events() == archive.events@,
            final(self).chain() == archive.buckets@,
            final(self).head_next() == if archive.buckets@.len() == 0 {
                None::<Address>
            } else {
                Some(archive.buckets@.last().1)
            },
    {
        let next = if archive.buckets.len() == 0 {
            None
        } else {
            Some(archive.buckets[archive.buckets.len() - 1].1)
        };
        let mut bucket = BucketData::new(archive.offset, archive.events);
        bucket.update_next(next);
        self.bucket = bucket;
        self.buckets = archive.buckets;
    }

    /// Restore the history from the legacy archive shape: a plain list of
    /// events with no buckets. The history must be empty.
    pub fn load_v0(&mut self, data: Vec<Transaction>)
        requires
            old(self).wf(),
            old(self).chain().len() == 0,
            old(self).head_events().len() == 0,
            data@.len() <= u64::MAX,
        ensures
            final(self).wf(),
            final(self).head_offset() == 0,
            final(self).head_events() == data@,
            final(self).chain() == old(self).chain(),
            final(self).head_next() is None,
    {
        let mut data = data;
        self.bucket.append(&mut data);
    }

    /// Bucket coverage: an id below the head's offset is claimed by exactly
    /// one chain entry, and the route resolves to that entry's address. (Ids
    /// at or above the head's offset are the head bucket's own.)
    pub proof fn lemma_bucket_coverage(self, id: u64)
        requires
            self.wf(),
            id < self.head_offset(),
        ensures
            exists|i: int| chain_claims(self.chain(), self.head_offset(), i, id),
            forall|i: int, j: int|
                chain_claims(self.chain(), self.head_offset(), i, id) && chain_claims(
                    self.chain(),
                    self.head_offset(),
                    j,
                    id,
                ) ==> i == j,
            forall|i: int|
                chain_claims(self.chain(), self.head_offset(), i, id) ==> chain_route(
                    self.chain(),
                    id,
                ) == Some(self.chain()[i].1),
    {
        let chain = self.chain();
        let head = self.head_offset();
        let w = lemma_route_index(chain, head, id);
        assert(chain_claims(chain, head, w, id));
        assert forall|i: int, j: int|
            chain_claims(chain, head, i, id) && chain_claims(chain, head, j, id) implies i
            == j by {
            if i < j {
                assert(chain[i + 1].0 <= chain[j].0);
            }
            if j < i {
                assert(chain[j + 1].0 <= chain[i].0);
            }
        }
    }
}

/// Duplicate a vector of events, value for value.
fn clone_transactions(v: &Vec<Transaction>) -> (r: Vec<Transaction>)
    ensures
        r@ == v@,
{
    let mut out: Vec<Transaction> = Vec::new();
    let mut i: usize = 0;
    while i < v.len()
        invariant
            0 <= i <= v@.len(),
            out@ == v@.subrange(0, i as int),
        decreases v@.len() - i,
    {
        out.push(v[i].clone());
        i = i + 1;
        proof {
            assert(out@ =~= v@.subrange(0, i as int));
        }
    }
    proof {
        assert(out@ =~= v@);
    }
    out
}

/// Duplicate a chain map, entry for entry.
fn copy_chain<Address: Copy>(v: &Vec<(TransactionId, Address)>) -> (r: Vec<(
    TransactionId,
    Address,
)>)
    ensures
        r@ == v@,
{
    let mut out: Vec<(TransactionId, Address)> = Vec::new();
    let mut i: usize = 0;
    while i < v.len()
        invariant
            0 <= i <= v@.len(),
            out@ == v@.subrange(0, i as int),
        decreases v@.len() - i,
    {
        out.push(v[i]);
        i = i + 1;
        proof {
            assert(out@ =~= v@.subrange(0, i as int));
        }
    }
    proof {
        assert(out@ =~= v@);
    }
    out
}

/// The witness for coverage: the index of the last chain entry whose start
/// offset is at most `id`; it claims `id` and the route resolves to it.
proof fn lemma_route_index<Address>(
    chain: Seq<(TransactionId, Address)>,
    head_offset: u64,
    id: u64,
) -> (i: int)
    requires
        forall|p: int, q: int| 0 <= p <= q < chain.len() ==> chain[p].0 <= chain[q].0,
        chain.len() > 0,
        chain[0].0 == 0,
        chain.last().0 <= head_offset,
        id < head_offset,
    ensures
        chain_claims(chain, head_offset, i, id),
        chain_route(chain, id) == Some(chain[i].1),
    decreases chain.len(),
{
    if chain.last().0 <= id {
        chain.len() - 1
    } else {
        let i = lemma_route_index(chain.drop_last(), chain.last().0, id);
        assert(chain.drop_last()[i] == chain[i]);
        i
    }
}

/// On a chain where exactly the first `lo` entries have a start offset at
/// most `id`, the route resolves to the last of them.
proof fn lemma_chain_route_split<Address>(chain: Seq<(TransactionId, Address)>, id: u64, lo: int)
    requires
        0 <= lo <= chain.len(),
        forall|k: int| 0 <= k < lo ==> chain[k].0 <= id,
        forall|k: int| lo <= k < chain.len() ==> chain[k].0 > id,
    ensures
        chain_route(chain, id) == if lo == 0 {
            None::<Address>
        } else {
            Some(chain[lo - 1].1)
        },
    decreases chain.len(),
{
    if chain.len() == 0 {
    } else if chain.last().0 <= id {
        assert(lo == chain.len());
    } else {
        lemma_chain_route_split(chain.drop_last(), id, lo);
    }
}

} // verus!
