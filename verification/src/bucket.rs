//! A single knot in the history chain: a fixed-offset array of events with
//! paginated reverse-chronological reads and a link to the next-older bucket.
//!
//! The k-th stored event has the global id `offset + k`. The offset is set
//! once, by [`BucketData::new`] or [`BucketData::set_metadata`], and is
//! advanced only by [`BucketData::remove_first`].

use vstd::prelude::*;

use crate::types::{EventsConnection, SetBucketMetadataArgs, TransactionId};

verus! {

/// The clamped cursor of a paged read: the requested offset, or the bucket's
/// size when the request is unset or lies beyond it.
pub open spec fn page_cursor(boff: u64, len: nat, req: Option<u64>) -> int {
    let m = boff + len;
    match req {
        None => m,
        Some(o) => if o > m {
            m
        } else {
            o as int
        },
    }
}

/// The global id of the oldest event on the page served from cursor `req`:
/// the page covers exactly the ids `[page_low .. page_cursor)`, the up to
/// `limit` ids directly below the clamped cursor.
pub open spec fn page_low(boff: u64, len: nat, req: Option<u64>, limit: nat) -> int {
    let o = page_cursor(boff, len, req);
    if o - limit > boff {
        o - limit
    } else {
        boff as int
    }
}

/// The ids enumerated by paging through one bucket: starting at cursor `c`,
/// each page covers `[max(boff, c - limit) .. c)` newest first, and the next
/// page continues at its oldest id, down to the bucket's offset.
pub open spec fn pages_from(boff: u64, c: int, limit: nat) -> Seq<int>
    decreases c - boff,
{
    if c <= boff || limit == 0 {
        Seq::empty()
    } else {
        let lo = if c - limit > boff {
            c - limit
        } else {
            boff as int
        };
        Seq::new((c - lo) as nat, |i: int| c - 1 - i) + pages_from(boff, lo, limit)
    }
}

/// Pagination completeness for one bucket: a caller that starts at any
/// cursor `c` and repeatedly passes the returned `next_offset` enumerates
/// every id below `c` exactly once, newest to oldest, until it reaches the
/// bucket's offset and is handed to the older bucket.
pub proof fn lemma_pagination_completeness(boff: u64, c: int, limit: nat)
    requires
        boff <= c,
        limit > 0,
    ensures
        pages_from(boff, c, limit).len() == c - boff,
        forall|i: int| 0 <= i < c - boff ==> pages_from(boff, c, limit)[i] == c - 1 - i,
    decreases c - boff,
{
    if c <= boff {
    } else {
        let lo = if c - limit > boff {
            c - limit
        } else {
            boff as int
        };
        lemma_pagination_completeness(boff, lo, limit);
    }
}

/// The metadata of a bucket: its global offset and the link to the
/// next-older bucket on the chain.
pub struct BucketMetadata<Address> {
    /// Global id of the first event of this bucket.
    pub offset: TransactionId,
    /// The next-older bucket on the chain, or `None` on the oldest one.
    pub next: Option<Address>,
}

/// An append-only shard of the history.
pub struct BucketData<Address, Event> {
    /// The events of this bucket; a smaller index means older data.
    events: Vec<Event>,
    /// The metadata of this bucket, set exactly once.
    metadata: Option<BucketMetadata<Address>>,
}

impl<Address, Event> BucketData<Address, Event> {
    /// The stored events, oldest first.
    pub closed spec fn events_seq(&self) -> Seq<Event> {
        self.events@
    }

    /// Whether the metadata has been set.
    pub closed spec fn has_metadata(&self) -> bool {
        self.metadata is Some
    }

    /// The global id of the first event of this bucket.
    pub closed spec fn offset_spec(&self) -> TransactionId {
        self.metadata->0.offset
    }

    /// The link to the next-older bucket.
    pub closed spec fn next_spec(&self) -> Option<Address> {
        self.metadata->0.next
    }

    /// One past the global id of the newest event: `offset + |events|`.
    pub open spec fn size(&self) -> int {
        self.offset_spec() + self.events_seq().len()
    }

    /// Well-formedness: once the metadata is set, every global id of the
    /// bucket fits in the id space.
    pub open spec fn wf(&self) -> bool {
        self.has_metadata() ==> self.size() <= u64::MAX
    }

    /// An empty bucket with no metadata yet.
    pub fn default() -> (r: Self)
        ensures
            r.events_seq() == Seq::<Event>::empty(),
            !r.has_metadata(),
            r.wf(),
    {
        BucketData { events: Vec::new(), metadata: None }
    }

    /// A bucket holding `events` starting at the global id `offset`, with no
    /// older bucket linked yet.
    pub fn new(offset: TransactionId, events: Vec<Event>) -> (r: Self)
        requires
            offset + events@.len() <= u64::MAX,
        ensures
            r.events_seq() == events@,
            r.has_metadata(),
            r.offset_spec() == offset,
            r.next_spec() is None,
            r.wf(),
    {
        BucketData { events, metadata: Some(BucketMetadata { offset, next: None }) }
    }

    /// Pre-reserve space for the given number of events.
    pub fn reserve(&mut self, capacity: usize)
        ensures
            final(self).events_seq() == old(self).events_seq(),
            final(self).has_metadata() == old(self).has_metadata(),
            final(self).has_metadata() ==> final(self).offset_spec() == old(self).offset_spec()
                && final(self).next_spec() == old(self).next_spec(),
            old(self).wf() ==> final(self).wf(),
    {
        self.events.reserve(capacity);
    }

    /// Set the metadata of this bucket; may be called at most once, before
    /// the offset is ever read.
    pub fn set_metadata(&mut self, data: SetBucketMetadataArgs<Address>)
        requires
            !old(self).has_metadata(),
            data.from + old(self).events_seq().len() <= u64::MAX,
        ensures
            final(self).events_seq() == old(self).events_seq(),
            final(self).has_metadata(),
            final(self).offset_spec() == data.from,
            final(self).next_spec() == data.next,
            final(self).wf(),
    {
        self.metadata = Some(BucketMetadata { offset: data.from, next: data.next });
    }

    /// Whether the metadata has been set yet.
    pub fn metadata_is_set(&self) -> (r: bool)
        ensures
            r == self.has_metadata(),
    {
        self.metadata.is_some()
    }

    /// The global id of the oldest event of this bucket.
    pub fn get_offset(&self) -> (r: TransactionId)
        requires
            self.has_metadata(),
        ensures
            r == self.offset_spec(),
    {
        match &self.metadata {
            Some(m) => m.offset,
            None => unreached(),
        }
    }

    /// The number of events in this bucket.
    pub fn len(&self) -> (r: usize)
        ensures
            r == self.events_seq().len(),
    {
        self.events.len()
    }

    /// Update the link to the next-older bucket.
    pub fn update_next(&mut self, next: Option<Address>)
        requires
            old(self).has_metadata(),
        ensures
            final(self).events_seq() == old(self).events_seq(),
            final(self).has_metadata(),
            final(self).offset_spec() == old(self).offset_spec(),
            final(self).next_spec() == next,
            old(self).wf() ==> final(self).wf(),
    {
        match &mut self.metadata {
            Some(m) => m.next = next,
            None => unreached(),
        }
    }

    /// Append a vector of events, oldest first, to the end of this bucket;
    /// the vector is drained.
    pub fn append(&mut self, other: &mut Vec<Event>)
        ensures
            final(self).events_seq() == old(self).events_seq() + old(other)@,
            final(other)@ == Seq::<Event>::empty(),
            final(self).has_metadata() == old(self).has_metadata(),
            final(self).offset_spec() == old(self).offset_spec(),
            final(self).next_spec() == old(self).next_spec(),
            (old(self).wf() && (old(self).has_metadata() ==> old(self).size() + old(other)@.len()
                <= u64::MAX)) ==> final(self).wf(),
    {
        self.events.append(other);
    }

    /// Push a single event and return its global id, `offset` plus the
    /// previous length.
    pub fn push(&mut self, event: Event) -> (id: TransactionId)
        requires
            old(self).wf(),
            old(self).has_metadata(),
            old(self).size() < u64::MAX,
        ensures
            final(self).events_seq() == old(self).events_seq().push(event),
            id == old(self).size(),
            final(self).has_metadata(),
            final(self).offset_spec() == old(self).offset_spec(),
            final(self).next_spec() == old(self).next_spec(),
            final(self).wf(),
    {
        let len = self.events.len() as u64;
        self.events.push(event);
        self.get_offset() + len
    }

    /// Drop the first `min(n, |events|)` events and advance the offset by
    /// the same count.
    pub fn remove_first(&mut self, n: usize)
        requires
            old(self).wf(),
            old(self).has_metadata(),
        ensures
            ({
                let k = if n <= old(self).events_seq().len() {
                    n as int
                } else {
                    old(self).events_seq().len() as int
                };
                final(self).events_seq() == old(self).events_seq().subrange(
                    k,
                    old(self).events_seq().len() as int,
                ) && final(self).offset_spec() == old(self).offset_spec() + k
            }),
            final(self).has_metadata(),
            final(self).next_spec() == old(self).next_spec(),
            final(self).wf(),
    {
        let k = if n <= self.events.len() {
            n
        } else {
            self.events.len()
        };
        let tail = self.events.split_off(k);
        self.events = tail;
        match &mut self.metadata {
            Some(m) => m.offset = m.offset + k as u64,
            None => unreached(),
        }
    }

    /// The link to the next-older bucket on the chain.
    pub fn get_next(&self) -> (r: Option<Address>) where Address: Copy
        requires
            self.has_metadata(),
        ensures
            r == self.next_spec(),
    {
        match &self.metadata {
            Some(m) => m.next,
            None => unreached(),
        }
    }

    /// Read one page, sorted from newest to oldest: the events with ids in
    /// `[page_low .. page_cursor)`, which are the up-to-`limit` ids directly
    /// below the cursor. An unset cursor reads the newest page, and a cursor
    /// beyond the bucket's size is clamped down to it, with the limit kept.
    /// The page never includes the cursor itself. When more events remain
    /// below the page, `next_canister_id` names this bucket (`self_id`) and
    /// `next_offset` the cursor to continue at; when the page reaches the
    /// bucket's offset, the caller is handed to the next-older bucket, or to
    /// nothing when this is the oldest.
    pub fn events<'a>(
        &'a self,
        offset: Option<TransactionId>,
        limit: usize,
        self_id: Address,
    ) -> (r: EventsConnection<'a, Address, Event>) where Address: Copy
        requires
            self.wf(),
            self.has_metadata(),
            offset is Some ==> offset.unwrap() >= self.offset_spec(),
        ensures
            ({
                let o = page_cursor(self.offset_spec(), self.events_seq().len(), offset);
                let lo = page_low(self.offset_spec(), self.events_seq().len(), offset, limit as nat);
                &&& r.data@.len() == o - lo
                &&& forall|i: int|
                    0 <= i < o - lo ==> *r.data@[i] == self.events_seq()[o - 1 - i
                        - self.offset_spec()]
                &&& lo > self.offset_spec() ==> r.next_canister_id == Some(self_id)
                    && r.next_offset == lo
                &&& lo == self.offset_spec() ==> match self.next_spec() {
                    Some(a) => r.next_canister_id == Some(a) && r.next_offset
                        == self.offset_spec(),
                    None => r.next_canister_id is None && r.next_offset == 0,
                }
            }),
    {
        let boff = self.get_offset();
        let max: u64 = boff + self.events.len() as u64;
        let o: u64 = match offset {
            None => max,
            Some(off) => {
                if off > max {
                    max
                } else {
                    off
                }
            },
        };
        let end: usize = (o - boff) as usize;
        let lo: usize = if end > limit {
            end - limit
        } else {
            0
        };
        let mut data: Vec<&Event> = Vec::new();
        let mut i: usize = end;
        while i > lo
            invariant
                lo <= i <= end <= self.events_seq().len(),
                data@.len() == end - i,
                forall|k: int| 0 <= k < data@.len() ==> *data@[k] == self.events_seq()[end - 1 - k],
            decreases i,
        {
            i = i - 1;
            data.push(&self.events[i]);
        }
        let has_more = end > limit;
        let (next_canister_id, next_offset): (Option<Address>, u64) = if has_more {
            (Some(self_id), boff + lo as u64)
        } else {
            match self.get_next() {
                Some(a) => (Some(a), boff),
                None => (None, 0),
            }
        };
        EventsConnection { data, next_offset, next_canister_id }
    }

    /// The event with the given global id, or `None` when the id falls
    /// outside this bucket.
    pub fn get_transaction(&self, id: TransactionId) -> (r: Option<&Event>)
        requires
            self.has_metadata(),
        ensures
            match r {
                Some(e) => self.offset_spec() <= id < self.size() && *e == self.events_seq()[id
                    - self.offset_spec()],
                None => !(self.offset_spec() <= id < self.size()),
            },
    {
        let off = self.get_offset();
        if id < off {
            return None;
        }
        if id - off >= self.events.len() as u64 {
            return None;
        }
        Some(&self.events[(id - off) as usize])
    }

    /// The events of this bucket, oldest first.
    pub fn get_events(&self) -> (r: &Vec<Event>)
        ensures
            r@ == self.events_seq(),
    {
        &self.events
    }
}

} // verus!

