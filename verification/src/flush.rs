//! The flusher: a sequential state machine that migrates events out of the
//! head bucket into a freshly provisioned bucket, one backend call per tick.
//!
//! On success the states advance linearly: `CreateCanister` →
//! `InstallCode` → `WriteMetadata` → `PushChunk`(repeated) → `Done`.
//! A failed call retries the current state, except a failed chunk push,
//! which restarts at `CreateCanister` on the assumption that the current
//! bucket ran out of memory. `Done` is sticky.

use vstd::prelude::*;

use vstd::arithmetic::div_mod::{
    lemma_basic_div, lemma_div_minus_one, lemma_div_non_zero, lemma_div_pos_is_pos,
};

use crate::backend::Backend;
use crate::data::HistoryData;

verus! {

/// Where the flusher stands in the migration.
pub enum FlushState<Address> {
    /// Ask the platform for a new process.
    CreateCanister,
    /// Install the bucket code on the process just created.
    InstallCode { canister_id: Address },
    /// Stamp the bucket's offset and chain link, then record it in the
    /// chain map.
    WriteMetadata { canister_id: Address },
    /// Copy the oldest `chunk_size` events into the newest bucket, then
    /// shed them from the head.
    PushChunk,
    /// The flush has completed; this state is sticky.
    Done,
}

/// What one tick accomplished.
pub enum ProgressResult {
    /// One backend call was made; the flush may have advanced.
    Advanced,
    /// Another tick is currently in flight; nothing was done.
    Blocked,
    /// The flush has completed; there is nothing left to write.
    Done,
}

/// The state machine driving one flush.
pub struct HistoryFlusher<Address> {
    state: FlushState<Address>,
    chunk_size: usize,
    in_progress: bool,
}

/// The history views that a tick left untouched.
pub open spec fn data_unchanged<Address>(
    pre: HistoryData<Address>,
    post: HistoryData<Address>,
) -> bool {
    &&& post.head_events() == pre.head_events()
    &&& post.head_offset() == pre.head_offset()
    &&& post.chain() == pre.chain()
    &&& post.head_next() == pre.head_next()
}

/// One successful tick: the backend call went through and the machine
/// advanced one step.
pub open spec fn transition_success<Address>(
    pre: HistoryFlusher<Address>,
    pre_data: HistoryData<Address>,
    post: HistoryFlusher<Address>,
    post_data: HistoryData<Address>,
) -> bool {
    ||| {
        &&& pre.state_spec() is CreateCanister
        &&& post.state_spec() is InstallCode
        &&& data_unchanged(pre_data, post_data)
    }
    ||| {
        &&& pre.state_spec() matches FlushState::InstallCode { canister_id: id }
        &&& post.state_spec() == (FlushState::WriteMetadata { canister_id: id })
        &&& data_unchanged(pre_data, post_data)
    }
    ||| {
        &&& pre.state_spec() matches FlushState::WriteMetadata { canister_id: id }
        &&& post.state_spec() is PushChunk
        &&& post_data.chain() == pre_data.chain().push((pre_data.head_offset(), id))
        &&& post_data.head_next() == Some(id)
        &&& post_data.head_events() == pre_data.head_events()
        &&& post_data.head_offset() == pre_data.head_offset()
    }
    ||| {
        &&& pre.state_spec() is PushChunk
        &&& post_data.head_events() == pre_data.head_events().subrange(
            pre.chunk_size_spec() as int,
            pre_data.head_events().len() as int,
        )
        &&& post_data.head_offset() == pre_data.head_offset() + pre.chunk_size_spec()
        &&& post_data.chain() == pre_data.chain()
        &&& post_data.head_next() == pre_data.head_next()
        &&& post.state_spec() == if post_data.head_events().len() < pre.chunk_size_spec() {
            FlushState::<Address>::Done
        } else {
            FlushState::<Address>::PushChunk
        }
    }
}

/// One failed tick: the backend call failed; the history is untouched, no
/// event is lost, and the machine retries its current state — except a
/// failed chunk push, which restarts at `CreateCanister` to provision a
/// fresh bucket (the current one is assumed full).
pub open spec fn transition_retry<Address>(
    pre: HistoryFlusher<Address>,
    pre_data: HistoryData<Address>,
    post: HistoryFlusher<Address>,
    post_data: HistoryData<Address>,
) -> bool {
    &&& data_unchanged(pre_data, post_data)
    &&& post.state_spec() == if pre.state_spec() is PushChunk {
        FlushState::<Address>::CreateCanister
    } else {
        pre.state_spec()
    }
}

/// Flush liveness: every successful tick brings the flusher exactly one
/// step closer to done. A freshly armed flusher stands at distance
/// `3 + len / chunk_size` when it must first provision a bucket (or two
/// steps fewer when one exists), so with a stable backend it reaches `Done`
/// in that many ticks; one more tick observes `Done` and clears it, for
/// `4 + (events moved) / chunk_size` ticks in all.
pub proof fn lemma_flush_liveness<Address>(
    pre: HistoryFlusher<Address>,
    pre_data: HistoryData<Address>,
    post: HistoryFlusher<Address>,
    post_data: HistoryData<Address>,
)
    requires
        pre.inv(pre_data),
        post.chunk_size_spec() == pre.chunk_size_spec(),
        !(pre.state_spec() is Done),
        transition_success(pre, pre_data, post, post_data),
    ensures
        post.measure(post_data) == pre.measure(pre_data) - 1,
        pre.measure(pre_data) >= 1,
{
    let c = pre.chunk_size_spec() as int;
    let len = pre_data.head_events().len() as int;
    lemma_div_pos_is_pos(len, c);
    if pre.state_spec() is PushChunk {
        lemma_div_non_zero(len, c);
        lemma_div_minus_one(len, c);
        assert(post_data.head_events().len() == len - c);
        if post_data.head_events().len() < c {
            lemma_basic_div(len - c, c);
        }
    }
}

/// The flusher is done exactly when its measure has run out.
pub proof fn lemma_measure_zero_iff_done<Address>(
    f: HistoryFlusher<Address>,
    data: HistoryData<Address>,
)
    requires
        f.inv(data),
    ensures
        f.measure(data) == 0 <==> f.state_spec() is Done,
{
    let c = f.chunk_size_spec() as int;
    let len = data.head_events().len() as int;
    lemma_div_pos_is_pos(len, c);
    if !(f.state_spec() is Done) {
        lemma_div_non_zero(len, c);
    }
}

impl<Address> HistoryFlusher<Address> {
    /// The current state of the machine.
    pub closed spec fn state_spec(&self) -> FlushState<Address> {
        self.state
    }

    /// The fixed number of events copied per chunk.
    pub closed spec fn chunk_size_spec(&self) -> usize {
        self.chunk_size
    }

    /// Whether a tick is currently in flight.
    pub closed spec fn in_progress_spec(&self) -> bool {
        self.in_progress
    }

    /// What the flusher maintains of the history between ticks: chunks are
    /// whole until the flush is done, and a chunk is only ever pushed into
    /// an existing bucket.
    pub open spec fn inv(&self, data: HistoryData<Address>) -> bool {
        &&& self.chunk_size_spec() > 0
        &&& !(self.state_spec() is Done) ==> data.head_events().len() >= self.chunk_size_spec()
        &&& self.state_spec() is PushChunk ==> data.chain().len() > 0
    }

    /// How many successful ticks remain until the flush is done (counting
    /// the states still to traverse and the chunks still to move).
    pub open spec fn measure(&self, data: HistoryData<Address>) -> int {
        let chunks = data.head_events().len() as int / self.chunk_size_spec() as int;
        match self.state_spec() {
            FlushState::CreateCanister => 3 + chunks,
            FlushState::InstallCode { .. } => 2 + chunks,
            FlushState::WriteMetadata { .. } => 1 + chunks,
            FlushState::PushChunk => chunks,
            FlushState::Done => 0,
        }
    }

    /// A flusher armed over a buffer of `current_buffer_len` events: it
    /// pushes into the existing newest bucket when one exists, else it first
    /// provisions one.
    pub fn new(current_buffer_len: usize, bucket_exists: bool, chunk_size: usize) -> (r: Self)
        requires
            0 < chunk_size <= current_buffer_len,
        ensures
            r.state_spec() == if bucket_exists {
                FlushState::<Address>::PushChunk
            } else {
                FlushState::<Address>::CreateCanister
            },
            r.chunk_size_spec() == chunk_size,
            !r.in_progress_spec(),
    {
        HistoryFlusher {
            state: if bucket_exists {
                FlushState::PushChunk
            } else {
                FlushState::CreateCanister
            },
            chunk_size,
            in_progress: false,
        }
    }

    /// One tick: perform exactly one backend call and advance the machine.
    ///
    /// Whatever the backend answered, the history keeps its well-formedness
    /// and its size, and the tick either advances the machine one step
    /// (`transition_success`) or leaves the history untouched and retries
    /// (`transition_retry`).
    pub fn progress<B: Backend<Address>>(
        &mut self,
        data: &mut HistoryData<Address>,
        backend: &mut B,
    ) -> (r: ProgressResult) where Address: Copy
        requires
            old(data).wf(),
            old(self).inv(*old(data)),
        ensures
            final(data).wf(),
            final(self).inv(*final(data)),
            final(self).chunk_size_spec() == old(self).chunk_size_spec(),
            final(self).in_progress_spec() == old(self).in_progress_spec(),
            final(data).size_spec() == old(data).size_spec(),
            match r {
                ProgressResult::Done => old(self).state_spec() is Done && *final(self)
                    == *old(self) && data_unchanged(*old(data), *final(data)),
                ProgressResult::Blocked => old(self).in_progress_spec() && *final(self)
                    == *old(self) && data_unchanged(*old(data), *final(data)),
                ProgressResult::Advanced => !old(self).in_progress_spec() && !(old(self).state_spec()
                    is Done) && (transition_success(*old(self), *old(data), *final(self), *final(data))
                    || transition_retry(*old(self), *old(data), *final(self), *final(data))),
            },
    {
        match &self.state {
            FlushState::Done => {
                return ProgressResult::Done;
            },
            _ => {},
        }

        // Guard against a parallel tick: at most one is in flight.
        if self.in_progress {
            return ProgressResult::Blocked;
        }
        self.in_progress = true;

        match &self.state {
            FlushState::CreateCanister => {
                match backend.create_canister() {
                    Ok(canister_id) => {
                        self.state = FlushState::InstallCode { canister_id };
                    },
                    Err(_) => {},
                }
            },
            FlushState::InstallCode { canister_id } => {
                let id = *canister_id;
                match backend.install_code(id) {
                    Ok(()) => {
                        self.state = FlushState::WriteMetadata { canister_id: id };
                    },
                    Err(_) => {},
                }
            },
            FlushState::WriteMetadata { canister_id } => {
                let id = *canister_id;
                let metadata = data.get_metadata();
                match backend.write_metadata(id, metadata) {
                    Ok(()) => {
                        data.insert_bucket(id);
                        self.state = FlushState::PushChunk;
                    },
                    Err(_) => {},
                }
            },
            FlushState::PushChunk => {
                let chunk = data.front_events(self.chunk_size);
                let canister_id = data.get_bucket();
                match backend.append_transactions(canister_id, chunk) {
                    Ok(()) => {
                        data.remove_first(self.chunk_size);
                        self.state = if data.len() < self.chunk_size {
                            FlushState::Done
                        } else {
                            FlushState::PushChunk
                        };
                    },
                    Err(_) => {
                        // Assume the bucket is out of memory: provision a
                        // fresh one and resume there.
                        self.state = FlushState::CreateCanister;
                    },
                }
            },
            FlushState::Done => {
                // The first match already returned for a finished flush.
                unreached()
            },
        }

        self.in_progress = false;
        ProgressResult::Advanced
    }
}

} // verus!
