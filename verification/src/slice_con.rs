//! A concatenation of borrowed slices and "virtual gaps": a read-only view
//! over several parts addressed by one global position, where a gap stands
//! for a range whose data lives elsewhere and is reported by its gap id and
//! the position inside it.

use vstd::prelude::*;

verus! {

/// One part of the concatenation.
enum Part<'a, T> {
    /// A borrowed run of data.
    Slice(&'a [T]),
    /// A run of `len` positions whose data lives elsewhere; `index` is the
    /// id handed out when the gap was added.
    Virtual { len: usize, index: usize },
}

/// What one global position resolves to.
#[derive(PartialEq, Eq, Debug)]
pub enum GetResult<'a, T> {
    /// The element at the position.
    Data(&'a T),
    /// The position falls in the gap with this id, at this offset inside it.
    VirtualGap { id: usize, index: usize },
    /// The position lies past the end of the concatenation.
    OutOfRange,
}

/// The ghost counterpart of [`GetResult`], over owned values.
pub enum GetModel<T> {
    Data(T),
    VirtualGap { id: int, index: int },
    OutOfRange,
}

/// The concatenation: parts in order, plus the cumulative end position of
/// each part, kept for binary search.
pub struct SliceCon<'a, T> {
    parts: Vec<Part<'a, T>>,
    /// The id the next gap will receive.
    virtual_gap_index: usize,
    /// `index[k]` is the end position (exclusive) of part `k`.
    index: Vec<u64>,
}

spec fn part_len<T>(p: Part<'_, T>) -> int {
    match p {
        Part::Slice(s) => s@.len() as int,
        Part::Virtual { len, .. } => len as int,
    }
}

/// What a position inside one part resolves to.
spec fn part_slot<T>(p: Part<'_, T>, inner: int) -> GetModel<T> {
    match p {
        Part::Slice(s) => GetModel::Data(s@[inner]),
        Part::Virtual { len: _, index } => GetModel::VirtualGap { id: index as int, index: inner },
    }
}

/// The total length of the first `n` parts.
spec fn prefix<T>(parts: Seq<Part<'_, T>>, n: int) -> int
    decreases parts.len(),
{
    if n <= 0 || parts.len() == 0 {
        0
    } else {
        part_len(parts[0]) + prefix(parts.drop_first(), n - 1)
    }
}

/// What a global position resolves to.
spec fn slot<T>(parts: Seq<Part<'_, T>>, pos: int) -> GetModel<T>
    decreases parts.len(),
{
    if parts.len() == 0 {
        GetModel::OutOfRange
    } else if pos < part_len(parts[0]) {
        part_slot(parts[0], pos)
    } else {
        slot(parts.drop_first(), pos - part_len(parts[0]))
    }
}

/// Appending a part does not move the positions already covered.
proof fn lemma_prefix_push<T>(parts: Seq<Part<'_, T>>, p: Part<'_, T>, n: int)
    requires
        n <= parts.len(),
    ensures
        prefix(parts.push(p), n) == prefix(parts, n),
    decreases parts.len(),
{
    if n > 0 && parts.len() > 0 {
        assert(parts.push(p).drop_first() =~= parts.drop_first().push(p));
        lemma_prefix_push(parts.drop_first(), p, n - 1);
    }
}

/// A position below the total of the old parts resolves as before a push;
/// one at or above it resolves inside the pushed part.
proof fn lemma_slot_push<T>(parts: Seq<Part<'_, T>>, p: Part<'_, T>, pos: int)
    requires
        forall|i: int| 0 <= i < parts.len() ==> part_len(#[trigger] parts[i]) >= 0,
        pos >= 0,
    ensures
        pos < prefix(parts, parts.len() as int) ==> slot(parts.push(p), pos) == slot(parts, pos),
        pos >= prefix(parts, parts.len() as int) ==> slot(parts.push(p), pos) == if pos - prefix(
            parts,
            parts.len() as int,
        ) < part_len(p) {
            part_slot(p, pos - prefix(parts, parts.len() as int))
        } else {
            GetModel::<T>::OutOfRange
        },
    decreases parts.len(),
{
    if parts.len() == 0 {
        assert(parts.push(p).drop_first() =~= parts);
        assert(prefix(parts, 0) == 0);
        if pos >= part_len(p) {
            assert(slot(parts, pos - part_len(p)) is OutOfRange);
        }
    } else {
        assert(parts.push(p).drop_first() =~= parts.drop_first().push(p));
        assert(forall|i: int|
            0 <= i < parts.drop_first().len() ==> part_len(#[trigger] parts.drop_first()[i]) >= 0);
        lemma_prefix_nonneg(parts.drop_first(), parts.len() as int - 1);
        if pos >= part_len(parts[0]) {
            lemma_slot_push(parts.drop_first(), p, pos - part_len(parts[0]));
        }
    }
}

/// A position between the cumulative starts of part `j` and part `j + 1`
/// resolves inside part `j`.
proof fn lemma_slot_at<T>(parts: Seq<Part<'_, T>>, j: int, pos: int)
    requires
        0 <= j < parts.len(),
        prefix(parts, j) <= pos < prefix(parts, j + 1),
        forall|i: int| 0 <= i < parts.len() ==> part_len(#[trigger] parts[i]) >= 0,
    ensures
        slot(parts, pos) == part_slot(parts[j], pos - prefix(parts, j)),
    decreases j,
{
    lemma_prefix_step(parts, j);
    if j == 0 {
        assert(prefix(parts, 0) == 0);
    } else {
        assert(forall|i: int|
            0 <= i < parts.drop_first().len() ==> part_len(#[trigger] parts.drop_first()[i]) >= 0);
        lemma_prefix_nonneg(parts.drop_first(), j - 1);
        lemma_slot_at(parts.drop_first(), j - 1, pos - part_len(parts[0]));
        assert(parts.drop_first()[j - 1] == parts[j]);
    }
}

/// The cumulative length of non-negative parts is non-negative.
proof fn lemma_prefix_nonneg<T>(parts: Seq<Part<'_, T>>, n: int)
    requires
        n <= parts.len(),
        forall|i: int| 0 <= i < parts.len() ==> part_len(#[trigger] parts[i]) >= 0,
    ensures
        prefix(parts, n) >= 0,
    decreases parts.len(),
{
    if n > 0 && parts.len() > 0 {
        assert(forall|i: int|
            0 <= i < parts.drop_first().len() ==> part_len(#[trigger] parts.drop_first()[i]) >= 0);
        lemma_prefix_nonneg(parts.drop_first(), n - 1);
    }
}

/// One more part extends the cumulative length by that part.
proof fn lemma_prefix_step<T>(parts: Seq<Part<'_, T>>, j: int)
    requires
        0 <= j < parts.len(),
    ensures
        prefix(parts, j + 1) == prefix(parts, j) + part_len(parts[j]),
    decreases parts.len(),
{
    if j == 0 {
        assert(prefix(parts.drop_first(), 0) == 0);
    } else {
        lemma_prefix_step(parts.drop_first(), j - 1);
        assert(parts.drop_first()[j - 1] == parts[j]);
    }
}

/// The cumulative length never shrinks as parts are added.
proof fn lemma_prefix_monotone<T>(parts: Seq<Part<'_, T>>, m: int, n: int)
    requires
        0 <= m <= n <= parts.len(),
        forall|i: int| 0 <= i < parts.len() ==> part_len(#[trigger] parts[i]) >= 0,
    ensures
        prefix(parts, m) <= prefix(parts, n),
    decreases n - m,
{
    if m < n {
        lemma_prefix_step(parts, n - 1);
        lemma_prefix_monotone(parts, m, n - 1);
    }
}

/// A position past the total length resolves to nothing.
proof fn lemma_slot_oob<T>(parts: Seq<Part<'_, T>>, pos: int)
    requires
        pos >= prefix(parts, parts.len() as int),
        forall|i: int| 0 <= i < parts.len() ==> part_len(#[trigger] parts[i]) >= 0,
    ensures
        slot(parts, pos) is OutOfRange,
    decreases parts.len(),
{
    if parts.len() > 0 {
        assert(forall|i: int|
            0 <= i < parts.drop_first().len() ==> part_len(#[trigger] parts.drop_first()[i]) >= 0);
        assert(prefix(parts, parts.len() as int) == part_len(parts[0]) + prefix(
            parts.drop_first(),
            parts.len() as int - 1,
        ));
        lemma_slot_oob(parts.drop_first(), pos - part_len(parts[0]));
    }
}

impl<'a, T> SliceCon<'a, T> {
    /// The total number of positions covered.
    pub closed spec fn total_len(&self) -> int {
        prefix(self.parts@, self.parts@.len() as int)
    }

    /// What the given position resolves to.
    pub closed spec fn model(&self, pos: int) -> GetModel<T> {
        slot(self.parts@, pos)
    }

    /// The id the next gap will receive; gap ids count every call, also
    /// those that added an empty gap.
    pub closed spec fn next_gap_id(&self) -> usize {
        self.virtual_gap_index
    }

    /// Well-formedness: the cumulative index mirrors the parts, every part
    /// is non-empty, and the total fits the position space.
    pub closed spec fn wf(&self) -> bool {
        &&& self.index@.len() == self.parts@.len()
        &&& forall|k: int|
            0 <= k < self.index@.len() ==> self.index@[k] == prefix(self.parts@, k + 1)
        &&& forall|i: int| 0 <= i < self.parts@.len() ==> part_len(#[trigger] self.parts@[i]) > 0
        &&& forall|p: int, q: int|
            0 <= p < q < self.index@.len() ==> self.index@[p] < self.index@[q]
        &&& self.total_len() <= u64::MAX
    }

    /// An empty concatenation.
    pub fn default() -> (r: Self)
        ensures
            r.wf(),
            r.total_len() == 0,
            r.next_gap_id() == 0,
    {
        SliceCon { parts: Vec::with_capacity(8), virtual_gap_index: 0, index: Vec::with_capacity(0) }
    }

    /// The end position of the last part: the total length.
    fn total(&self) -> (r: u64)
        requires
            self.wf(),
        ensures
            r == self.total_len(),
    {
        if self.index.len() == 0 {
            0
        } else {
            self.index[self.index.len() - 1]
        }
    }

    /// Cover the next `len` positions with a gap and return its id. The id
    /// counts up on every call, also for an empty gap, which covers nothing.
    pub fn add_virtual_gap(&mut self, len: usize) -> (r: usize)
        requires
            old(self).wf(),
            old(self).next_gap_id() < usize::MAX,
            old(self).total_len() + len <= u64::MAX,
        ensures
            final(self).wf(),
            r == old(self).next_gap_id(),
            final(self).next_gap_id() == old(self).next_gap_id() + 1,
            final(self).total_len() == old(self).total_len() + len,
            forall|pos: int|
                0 <= pos < old(self).total_len() ==> final(self).model(pos) == old(self).model(
                    pos,
                ),
            forall|pos: int|
                old(self).total_len() <= pos < final(self).total_len() ==> final(self).model(pos)
                    == (GetModel::<T>::VirtualGap {
                    id: old(self).next_gap_id() as int,
                    index: pos - old(self).total_len(),
                }),
    {
        let index = self.virtual_gap_index;
        self.virtual_gap_index = self.virtual_gap_index + 1;
        if len == 0 {
            return index;
        }
        let total = self.total();
        let part = Part::Virtual { len, index };
        proof {
            lemma_prefix_push_all(self.parts@, part);
            assert forall|k: int| 0 <= k < self.parts@.len() implies #[trigger] prefix(
                self.parts@,
                k + 1,
            ) <= prefix(self.parts@, self.parts@.len() as int) by {
                lemma_prefix_monotone(self.parts@, k + 1, self.parts@.len() as int);
            }
            assert forall|pos: int| 0 <= pos < old(self).total_len() implies slot(
                self.parts@.push(part),
                pos,
            ) == slot(self.parts@, pos) by {
                lemma_slot_push(self.parts@, part, pos);
            }
            assert forall|pos: int|
                old(self).total_len() <= pos < old(self).total_len() + len implies slot(
                self.parts@.push(part),
                pos,
            ) == (GetModel::<T>::VirtualGap {
                id: index as int,
                index: pos - old(self).total_len(),
            }) by {
                lemma_slot_push(self.parts@, part, pos);
            }
        }
        self.parts.push(part);
        self.index.push(total + len as u64);
        index
    }

    /// Cover the next `slice.len()` positions with the slice's elements.
    /// An empty slice covers nothing and is not recorded.
    pub fn add_slice(&mut self, slice: &'a [T])
        requires
            old(self).wf(),
            old(self).total_len() + slice@.len() <= u64::MAX,
        ensures
            final(self).wf(),
            final(self).next_gap_id() == old(self).next_gap_id(),
            final(self).total_len() == old(self).total_len() + slice@.len(),
            forall|pos: int|
                0 <= pos < old(self).total_len() ==> final(self).model(pos) == old(self).model(
                    pos,
                ),
            forall|pos: int|
                old(self).total_len() <= pos < final(self).total_len() ==> final(self).model(pos)
                    == GetModel::<T>::Data(slice@[pos - old(self).total_len()]),
    {
        let len = slice.len();
        if len == 0 {
            return ;
        }
        let total = self.total();
        let part = Part::Slice(slice);
        proof {
            lemma_prefix_push_all(self.parts@, part);
            assert forall|k: int| 0 <= k < self.parts@.len() implies #[trigger] prefix(
                self.parts@,
                k + 1,
            ) <= prefix(self.parts@, self.parts@.len() as int) by {
                lemma_prefix_monotone(self.parts@, k + 1, self.parts@.len() as int);
            }
            assert forall|pos: int| 0 <= pos < old(self).total_len() implies slot(
                self.parts@.push(part),
                pos,
            ) == slot(self.parts@, pos) by {
                lemma_slot_push(self.parts@, part, pos);
            }
            assert forall|pos: int|
                old(self).total_len() <= pos < old(self).total_len() + slice@.len() implies slot(
                self.parts@.push(part),
                pos,
            ) == GetModel::<T>::Data(slice@[pos - old(self).total_len()]) by {
                lemma_slot_push(self.parts@, part, pos);
            }
        }
        self.parts.push(part);
        self.index.push(total + len as u64);
    }

    /// Resolve one global position: the element stored there, the gap it
    /// falls in, or out-of-range exactly when the position lies at or past
    /// the total length.
    pub fn get(&self, pos: u64) -> (r: GetResult<'a, T>)
        requires
            self.wf(),
        ensures
            match r {
                GetResult::Data(x) => self.model(pos as int) == GetModel::Data(*x),
                GetResult::VirtualGap { id, index } => self.model(pos as int) == (
                GetModel::<T>::VirtualGap { id: id as int, index: index as int }),
                GetResult::OutOfRange => self.model(pos as int) is OutOfRange,
            },
            r is OutOfRange <==> pos >= self.total_len(),
    {
        let ghost ends = self.index@;
        let mut lo: usize = 0;
        let mut hi: usize = self.index.len();
        while lo < hi
            invariant
                0 <= lo <= hi <= ends.len(),
                self.index@ == ends,
                forall|p: int, q: int| 0 <= p < q < ends.len() ==> ends[p] < ends[q],
                forall|k: int| 0 <= k < lo ==> ends[k] <= pos,
                forall|k: int| hi <= k < ends.len() ==> ends[k] > pos,
            decreases hi - lo,
        {
            let mid = lo + (hi - lo) / 2;
            if self.index[mid] <= pos {
                lo = mid + 1;
            } else {
                hi = mid;
            }
        }

        if lo == self.parts.len() {
            proof {
                if self.parts@.len() > 0 {
                    assert(ends[ends.len() - 1] <= pos);
                }
                lemma_slot_oob(self.parts@, pos as int);
            }
            return GetResult::OutOfRange;
        }
        proof {
            // The part found ends past the position, so the position lies
            // inside the covered range.
            assert(ends[lo as int] > pos);
            lemma_prefix_monotone(self.parts@, lo as int + 1, self.parts@.len() as int);
            assert(pos < self.total_len());
        }

        let start: u64 = if lo == 0 {
            0
        } else {
            self.index[lo - 1]
        };
        proof {
            assert(ends[lo as int] == prefix(self.parts@, lo as int + 1));
            assert(ends[lo as int] > pos);
            if lo > 0 {
                assert(ends[lo as int - 1] <= pos);
                assert(ends[lo as int - 1] == prefix(self.parts@, lo as int));
            }
            assert(start == prefix(self.parts@, lo as int));
            lemma_prefix_step(self.parts@, lo as int);
            lemma_slot_at(self.parts@, lo as int, pos as int);
            assert(pos - start < part_len(self.parts@[lo as int]));
        }
        let inner = (pos - start) as usize;
        match &self.parts[lo] {
            Part::Slice(s) => GetResult::Data(&s[inner]),
            Part::Virtual { len: _, index } => GetResult::VirtualGap { id: *index, index: inner },
        }
    }
}

/// Pushing a part keeps every old cumulative length.
proof fn lemma_prefix_push_all<T>(parts: Seq<Part<'_, T>>, p: Part<'_, T>)
    ensures
        forall|n: int| n <= parts.len() ==> prefix(#[trigger] parts.push(p), n) == prefix(parts, n),
        prefix(parts.push(p), parts.len() as int + 1) == prefix(parts, parts.len() as int) + part_len(p),
{
    assert forall|n: int| n <= parts.len() implies prefix(#[trigger] parts.push(p), n) == prefix(
        parts,
        n,
    ) by {
        lemma_prefix_push(parts, p, n);
    }
    lemma_prefix_last(parts, p);
}

/// The cumulative length through a pushed part is the old total plus it.
proof fn lemma_prefix_last<T>(parts: Seq<Part<'_, T>>, p: Part<'_, T>)
    ensures
        prefix(parts.push(p), parts.len() as int + 1) == prefix(parts, parts.len() as int) + part_len(p),
    decreases parts.len(),
{
    if parts.len() == 0 {
        assert(parts.push(p).drop_first() =~= parts);
    } else {
        assert(parts.push(p).drop_first() =~= parts.drop_first().push(p));
        lemma_prefix_last(parts.drop_first(), p);
    }
}

} // verus!
