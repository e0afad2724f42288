//! The auto-scaling history buffer: the process-local history data plus an
//! optional flusher. A push that makes the local buffer reach the flush
//! threshold arms the flusher; later calls to [`History::progress`] advance
//! it one backend call at a time until the buffer has been drained to below
//! one chunk, then clear it.

use vstd::prelude::*;

use crate::backend::Backend;
use crate::data::{events_post, HistoryArchive, HistoryData};
use crate::flush::{
    data_unchanged, transition_retry, transition_success, FlushState, HistoryFlusher,
    ProgressResult,
};
use crate::types::{EventsConnection, Transaction, TransactionId};

verus! {

/// The history data together with the flusher that migrates it.
pub struct History<Address> {
    data: HistoryData<Address>,
    flusher: Option<HistoryFlusher<Address>>,
    /// Events moved per flusher tick.
    chunk_size: usize,
    /// Arm the flusher when the local buffer reaches this length.
    flush_threshold: usize,
}

/// History id monotonicity: a push returns the history's size at that
/// moment as the new event's id and grows the size by exactly one
/// ([`History::push`]'s contract), and no other operation shrinks the size
/// (a flush tick keeps it). So successive pushes return strictly increasing
/// ids, starting at 0 on a fresh history.
pub proof fn lemma_push_ids_monotone<Address>(
    first: History<Address>,
    after_first: History<Address>,
    second: History<Address>,
    id1: TransactionId,
    id2: TransactionId,
)
    requires
        id1 == first.size_spec(),
        after_first.size_spec() == first.size_spec() + 1,
        second.size_spec() >= after_first.size_spec(),
        id2 == second.size_spec(),
    ensures
        id2 > id1,
{
}

impl<Address> History<Address> {
    /// The process-local history data.
    pub closed spec fn data_spec(&self) -> HistoryData<Address> {
        self.data
    }

    /// The flusher, when one is armed.
    pub closed spec fn flusher_spec(&self) -> Option<HistoryFlusher<Address>> {
        self.flusher
    }

    /// Whether a flush is armed or in progress.
    pub open spec fn flusher_armed(&self) -> bool {
        self.flusher_spec() is Some
    }

    pub closed spec fn chunk_size_spec(&self) -> usize {
        self.chunk_size
    }

    pub closed spec fn flush_threshold_spec(&self) -> usize {
        self.flush_threshold
    }

    /// The head bucket's events.
    pub open spec fn head_events(&self) -> Seq<Transaction> {
        self.data_spec().head_events()
    }

    /// The head bucket's offset.
    pub open spec fn head_offset(&self) -> TransactionId {
        self.data_spec().head_offset()
    }

    /// The chain of older buckets.
    pub open spec fn chain(&self) -> Seq<(TransactionId, Address)> {
        self.data_spec().chain()
    }

    /// The total number of events ever pushed.
    pub open spec fn size_spec(&self) -> int {
        self.data_spec().size_spec()
    }

    /// Well-formedness: the data is well-formed, the threshold strictly
    /// exceeds the chunk size, and an armed flusher is consistent with the
    /// data and at rest between ticks.
    pub closed spec fn wf(&self) -> bool {
        &&& self.data.wf()
        &&& 0 < self.chunk_size < self.flush_threshold
        &&& match self.flusher {
            Some(f) => f.chunk_size_spec() == self.chunk_size && f.inv(self.data)
                && !f.in_progress_spec(),
            None => true,
        }
    }

    /// A new history with the given configuration. The flush threshold must
    /// strictly exceed the chunk size, so that a drained buffer re-arms only
    /// after it has grown back past the threshold.
    pub fn new(flush_threshold: usize, chunk_size: usize) -> (r: Self)
        requires
            0 < chunk_size < flush_threshold,
        ensures
            r.wf(),
            r.head_events() == Seq::<Transaction>::empty(),
            r.head_offset() == 0,
            r.chain() == Seq::<(TransactionId, Address)>::empty(),
            !r.flusher_armed(),
            r.chunk_size_spec() == chunk_size,
            r.flush_threshold_spec() == flush_threshold,
    {
        History { data: HistoryData::default(), flusher: None, chunk_size, flush_threshold }
    }

    /// The total number of events ever pushed into the history.
    pub fn len(&self) -> (r: u64)
        requires
            self.wf(),
        ensures
            r == self.size_spec(),
    {
        self.data.size()
    }

    /// Push a new event and return its global id. When the push makes the
    /// local buffer reach the flush threshold and no flusher is armed, one
    /// is armed, aimed at the existing newest bucket when there is one.
    pub fn push(&mut self, event: Transaction) -> (id: TransactionId)
        requires
            old(self).wf(),
            old(self).size_spec() < u64::MAX,
        ensures
            final(self).wf(),
            id == old(self).size_spec(),
            final(self).head_events() == old(self).head_events().push(event),
            final(self).head_offset() == old(self).head_offset(),
            final(self).chain() == old(self).chain(),
            final(self).chunk_size_spec() == old(self).chunk_size_spec(),
            final(self).flush_threshold_spec() == old(self).flush_threshold_spec(),
            old(self).flusher_armed() ==> final(self).flusher_spec() == old(self).flusher_spec(),
            !old(self).flusher_armed() ==> (final(self).flusher_armed() <==> old(
                self,
            ).head_events().len() + 1 == old(self).flush_threshold_spec()),
            (!old(self).flusher_armed() && final(self).flusher_armed())
                ==> final(self).flusher_spec().unwrap().state_spec() == if old(
                self,
            ).chain().len() > 0 {
                FlushState::<Address>::PushChunk
            } else {
                FlushState::<Address>::CreateCanister
            },
    {
        let id = self.data.push(event);

        if self.data.len() == self.flush_threshold && self.flusher.is_none() {
            self.flusher = Some(
                HistoryFlusher::new(self.data.len(), self.data.bucket_exists(), self.chunk_size),
            );
        }

        id
    }

    /// Give the flusher one cooperative slot: when one is armed, perform one
    /// tick; clear it once it reports done. Returns whether a backend call
    /// was made. The total size of the history never changes here — events
    /// only move between the head and the buckets.
    pub fn progress<B: Backend<Address>>(&mut self, backend: &mut B) -> (r: bool) where
        Address: Copy,

        requires
            old(self).wf(),
        ensures
            final(self).wf(),
            final(self).size_spec() == old(self).size_spec(),
            final(self).chunk_size_spec() == old(self).chunk_size_spec(),
            final(self).flush_threshold_spec() == old(self).flush_threshold_spec(),
            r <==> (old(self).flusher_armed() && !(old(
                self,
            ).flusher_spec().unwrap().state_spec() is Done)),
            !r ==> !final(self).flusher_armed(),
            !old(self).flusher_armed() ==> *final(self) == *old(self),
            (old(self).flusher_armed() && old(self).flusher_spec().unwrap().state_spec() is Done)
                ==> !final(self).flusher_armed() && data_unchanged(
                old(self).data_spec(),
                final(self).data_spec(),
            ),
            r ==> final(self).flusher_armed() && (transition_success(
                old(self).flusher_spec().unwrap(),
                old(self).data_spec(),
                final(self).flusher_spec().unwrap(),
                final(self).data_spec(),
            ) || transition_retry(
                old(self).flusher_spec().unwrap(),
                old(self).data_spec(),
                final(self).flusher_spec().unwrap(),
                final(self).data_spec(),
            )),
    {
        let result = match &mut self.flusher {
            Some(flusher) => Some(flusher.progress(&mut self.data, backend)),
            None => None,
        };

        match result {
            Some(ProgressResult::Advanced) => true,
            Some(ProgressResult::Blocked) => false,
            Some(ProgressResult::Done) => {
                self.flusher = None;
                false
            },
            None => false,
        }
    }

    /// The event with the given global id: answered locally and exactly for
    /// ids in the head bucket's range, and through the backend for older
    /// ids.
    pub fn get_transaction<B: Backend<Address>>(&self, id: TransactionId, backend: &mut B) -> (r:
        Option<Transaction>) where Address: Copy
        requires
            self.wf(),
        ensures
            id >= self.head_offset() ==> match r {
                Some(e) => id < self.size_spec() && e == self.head_events()[id
                    - self.head_offset()],
                None => id >= self.size_spec(),
            },
    {
        self.data.get_transaction(id, backend)
    }

    /// Read one page of events, newest first, as [`HistoryData::events`].
    pub fn events<'a, B: Backend<Address>>(
        &'a self,
        offset: Option<u64>,
        limit: usize,
        backend: &B,
    ) -> (r: EventsConnection<'a, Address, Transaction>) where Address: Copy
        requires
            self.wf(),
        ensures
            events_post(
                self.head_offset(),
                self.head_events(),
                self.data_spec().head_next(),
                self.chain(),
                offset,
                limit as nat,
                r,
            ),
    {
        self.data.events(offset, limit, backend)
    }

    /// The history data, for read-only inspection.
    pub fn get_history_data(&self) -> (r: &HistoryData<Address>)
        ensures
            *r == self.data_spec(),
    {
        &self.data
    }

    /// An owned image of the history. Forbidden while a flush is armed: the
    /// image would capture a partial migration.
    pub fn archive(&self) -> (r: HistoryArchive<Address>) where Address: Copy
        requires
            self.wf(),
            !self.flusher_armed(),
        ensures
            r.offset == self.head_offset(),
            r.events@ == self.head_events(),
            r.buckets@ == self.chain(),
            r.wf(),
            self.data_spec().head_next() == if r.buckets@.len() == 0 {
                None::<Address>
            } else {
                Some(r.buckets@.last().1)
            },
    {
        self.data.archive()
    }

    /// Restore the history from an archive; the history must be empty.
    pub fn load(&mut self, archive: HistoryArchive<Address>) where Address: Copy
        requires
            old(self).wf(),
            old(self).chain().len() == 0,
            old(self).head_events().len() == 0,
            !old(self).flusher_armed(),
            archive.wf(),
        ensures
            final(self).wf(),
            final(self).head_offset() == archive.offset,
            final(self).head_events() == archive.events@,
            final(self).chain() == archive.buckets@,
            final(self).data_spec().head_next() == if archive.buckets@.len() == 0 {
                None::<Address>
            } else {
                Some(archive.buckets@.last().1)
            },
            !final(self).flusher_armed(),
            final(self).chunk_size_spec() == old(self).chunk_size_spec(),
            final(self).flush_threshold_spec() == old(self).flush_threshold_spec(),
    {
        self.data.load(archive);
    }

    /// Restore the history from the legacy archive shape: a plain list of
    /// events with no buckets. The history must be empty.
    pub fn load_v0(&mut self, data: Vec<Transaction>)
        requires
            old(self).wf(),
            old(self).chain().len() == 0,
            old(self).head_events().len() == 0,
            !old(self).flusher_armed(),
            data@.len() <= u64::MAX,
        ensures
            final(self).wf(),
            final(self).head_offset() == 0,
            final(self).head_events() == data@,
            final(self).chain() == old(self).chain(),
            final(self).data_spec().head_next() is None,
            !final(self).flusher_armed(),
            final(self).chunk_size_spec() == old(self).chunk_size_spec(),
            final(self).flush_threshold_spec() == old(self).flush_threshold_spec(),
    {
        self.data.load_v0(data);
    }
}

} // verus!
