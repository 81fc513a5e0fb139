//! Single-channel sample container.

use vstd::prelude::*;
use vstd::slice::{slice_index_get, slice_subrange};

use crate::buffer::utils::buffer_with_size;
use crate::buffer::{
    aligned, alignment_slack, appended, fitting_prefix, grown, overflow_suffix, padded, rewound,
    trimmed, zeros, BufferLayout, ChannelModel,
};

verus! {

/// One channel of samples with an explicit write cursor.
///
/// Slots at or beyond the cursor are unconsumed capacity; this implementation
/// keeps them zeroed so that every slot always holds a defined sample.
pub struct MonoBuffer {
    pub buf: Vec<u32>,
    samples_written: usize,
}

impl View for MonoBuffer {
    type V = ChannelModel;

    closed spec fn view(&self) -> ChannelModel {
        ChannelModel { data: self.buf@, cursor: self.samples_written as nat }
    }
}

/// How many slots `reserve(additional)` actually adds: at least `additional`,
/// and at least the current capacity, so that repeated reservations grow the
/// buffer geometrically.
pub open spec fn reserve_amount(m: ChannelModel, additional: nat) -> nat {
    if additional >= m.capacity() {
        additional
    } else {
        m.capacity()
    }
}

impl MonoBuffer {
    /// The cursor never passes the allocated capacity.
    pub open spec fn wf(&self) -> bool {
        self@.wf()
    }

    /// Allocate `capacity` silent slots with the cursor at the start.
    pub fn new(capacity: usize) -> (r: Self)
        ensures
            r.wf(),
            r@.data == zeros(capacity as nat),
            r@.cursor == 0,
            r@.capacity() == capacity,
    {
        Self { buf: buffer_with_size(capacity), samples_written: 0 }
    }

    /// The null buffer: zero capacity, nothing can ever be written into it.
    pub fn _0() -> (r: Self)
        ensures
            r.wf(),
            r@.capacity() == 0,
            r@.cursor == 0,
    {
        Self::new(0)
    }

    pub fn layout(&self) -> (r: BufferLayout)
        ensures
            r == BufferLayout::Mono,
    {
        BufferLayout::Mono
    }

    /// Allocated slots of the single channel.
    pub fn channel_capacity(&self) -> (r: usize)
        ensures
            r == self@.capacity(),
    {
        self.buf.len()
    }

    /// Total allocated slots; for a mono buffer this equals the channel capacity.
    pub fn capacity(&self) -> (r: usize)
        ensures
            r == self@.capacity(),
    {
        self.buf.len()
    }

    /// The write cursor: the number of samples written so far.
    pub fn cursor(&self) -> (r: usize)
        ensures
            r == self@.cursor,
    {
        self.samples_written
    }

    /// Whether any sample has been written.
    pub fn has_content(&self) -> (r: bool)
        ensures
            r == (self@.cursor > 0),
    {
        self.samples_written > 0
    }

    /// Rewind the cursor without touching stored samples.
    pub fn clear_cursor(&mut self)
        ensures
            final(self)@ == rewound(old(self)@),
    {
        self.samples_written = 0;
    }

    /// Slots still available for writing: capacity minus cursor.
    pub fn capacity_left(&self) -> (r: usize)
        requires
            self.wf(),
        ensures
            r == self@.capacity_left(),
            r == self@.capacity() - self@.cursor,
    {
        self.buf.len() - self.samples_written
    }

    /// How many of `unit` incoming samples would not fit without growth.
    pub fn overflow_on(&self, unit: usize) -> (r: usize)
        requires
            self.wf(),
        ensures
            r == self@.overflow_on(unit as nat),
    {
        let capacity = self.capacity_left();
        if unit <= capacity {
            return 0;
        }
        return unit - capacity;
    }

    /// Borrow `len` samples starting at `start`.
    pub fn slice(&self, start: usize, len: usize) -> (r: &[u32])
        requires
            start + len <= self@.capacity(),
        ensures
            r@ == self@.data.subrange(start as int, start + len),
    {
        let total = self.buf.len();
        slice_subrange(self.buf.as_slice(), start, start + len)
    }

    /// Borrow the whole backing store, written samples and slack alike.
    pub fn as_slice(&self) -> (r: &[u32])
        ensures
            r@ == self@.data,
    {
        self.buf.as_slice()
    }

    /// Copy `slice` at the cursor and advance the cursor by its length.
    /// The input must fit in the capacity left; callers pre-check via
    /// `overflow_on`.
    pub fn append_slice(&mut self, slice: &[u32])
        requires
            old(self).wf(),
            slice@.len() <= old(self)@.capacity_left(),
        ensures
            final(self).wf(),
            final(self)@ == appended(old(self)@, slice@),
    {
        let cursor = self.samples_written;
        let len = slice.len();
        let total = self.buf.len();
        let mut i: usize = 0;
        while i < len
            invariant
                i <= len,
                len == slice@.len(),
                cursor == old(self).samples_written,
                self.samples_written == cursor,
                cursor + len <= total,
                total == self.buf@.len(),
                self.buf@.len() == old(self).buf@.len(),
                forall|j: int| 0 <= j < i ==> self.buf@[cursor + j] == slice@[j],
                forall|j: int|
                    0 <= j < self.buf@.len() && !(cursor <= j < cursor + i) ==> self.buf@[j]
                        == old(self).buf@[j],
            decreases len - i,
        {
            let v = *slice_index_get(slice, i);
            self.buf.set(cursor + i, v);
            i = i + 1;
        }
        self.samples_written = cursor + len;
        proof {
            assert(self@.data =~= appended(old(self)@, slice@).data);
        }
    }

    /// Append, growing first by exactly the overflow amount if the input does
    /// not fit. Follow a series of such appends with `trim` and `align_to`.
    pub fn append_slice_exact(&mut self, slice: &[u32])
        requires
            old(self).wf(),
            old(self)@.cursor + slice@.len() <= usize::MAX,
        ensures
            final(self).wf(),
            final(self)@ == appended(
                grown(old(self)@, old(self)@.overflow_on(slice@.len())),
                slice@,
            ),
    {
        let overflow = self.overflow_on(slice.len());
        if overflow > 0 {
            self.reserve_exact(overflow);
        } else {
            proof {
                assert(grown(old(self)@, 0) =~= old(self)@);
            }
        }
        self.append_slice(slice);
    }

    /// Append, doubling the capacity first if the input does not fit.
    pub fn append_slice_safe(&mut self, slice: &[u32])
        requires
            old(self).wf(),
            slice@.len() <= old(self)@.capacity_left() + old(self)@.capacity(),
            old(self)@.capacity() * 2 <= usize::MAX,
        ensures
            final(self).wf(),
            old(self)@.overflow_on(slice@.len()) == 0 ==> final(self)@ == appended(
                old(self)@,
                slice@,
            ),
            old(self)@.overflow_on(slice@.len()) > 0 ==> final(self)@ == appended(
                grown(old(self)@, old(self)@.capacity()),
                slice@,
            ),
    {
        let overflow = self.overflow_on(slice.len());
        if overflow > 0 {
            let capacity = self.channel_capacity();
            self.reserve(capacity);
        }
        self.append_slice(slice);
    }

    /// Copy the fitting prefix of `slice` into this buffer and the rest into
    /// `overflow`, which must have room for it. No sample is lost or
    /// duplicated: the two written parts partition the input.
    pub fn append_slice_overflow(&mut self, slice: &[u32], overflow: &mut MonoBuffer)
        requires
            old(self).wf(),
            old(overflow).wf(),
            old(self)@.overflow_on(slice@.len()) <= old(overflow)@.capacity_left(),
        ensures
            final(self).wf(),
            final(overflow).wf(),
            final(self)@ == appended(old(self)@, fitting_prefix(old(self)@, slice@)),
            old(self)@.overflow_on(slice@.len()) > 0 ==> final(overflow)@ == appended(
                old(overflow)@,
                overflow_suffix(old(self)@, slice@),
            ),
            old(self)@.overflow_on(slice@.len()) == 0 ==> final(overflow)@ == old(overflow)@,
    {
        let sample_count = slice.len();
        if sample_count == 0 {
            proof {
                assert(appended(old(self)@, slice@.take(0)) =~= old(self)@);
            }
            return ;
        }
        let sample_overflow = self.overflow_on(sample_count);
        let samples_to_write = sample_count - sample_overflow;

        self.append_slice(slice_subrange(slice, 0, samples_to_write));

        if sample_overflow > 0 {
            let overflow_end = samples_to_write + sample_overflow;
            overflow.append_slice(slice_subrange(slice, samples_to_write, overflow_end));
        }
    }

    /// Grow by `n` silent slots, cursor unchanged.
    fn grow_zeros(&mut self, n: usize)
        requires
            old(self)@.capacity() + n <= usize::MAX,
        ensures
            final(self)@ == grown(old(self)@, n as nat),
    {
        let mut i: usize = 0;
        while i < n
            invariant
                i <= n,
                self.samples_written == old(self).samples_written,
                self.buf@ == old(self).buf@ + zeros(i as nat),
            decreases n - i,
        {
            self.buf.push(0);
            i = i + 1;
            proof {
                assert(self.buf@ =~= old(self).buf@ + zeros(i as nat));
            }
        }
    }

    /// Reserve at least `additional` slots, over-allocating so that repeated
    /// reservations have amortized cost; returns the amount actually added.
    pub fn reserve(&mut self, additional: usize) -> (added: usize)
        requires
            old(self)@.capacity() + reserve_amount(old(self)@, additional as nat) <= usize::MAX,
        ensures
            added == reserve_amount(old(self)@, additional as nat),
            added >= additional,
            final(self)@ == grown(old(self)@, added as nat),
    {
        let capacity = self.buf.len();
        let added = if additional >= capacity {
            additional
        } else {
            capacity
        };
        self.grow_zeros(added);
        added
    }

    /// Reserve exactly `additional` slots, no more.
    pub fn reserve_exact(&mut self, additional: usize)
        requires
            old(self)@.capacity() + additional <= usize::MAX,
        ensures
            final(self)@ == grown(old(self)@, additional as nat),
    {
        self.grow_zeros(additional);
    }

    /// Shrink the allocation to exactly the written samples.
    pub fn trim(&mut self)
        requires
            old(self).wf(),
        ensures
            final(self).wf(),
            final(self)@ == trimmed(old(self)@),
    {
        if self.capacity_left() == 0 {
            proof {
                assert(trimmed(old(self)@) =~= old(self)@);
            }
            return ;
        }
        self.buf.truncate(self.samples_written);
        proof {
            assert(self@ =~= trimmed(old(self)@));
        }
    }

    /// Grow the capacity to the next multiple of `alignment`; returns the
    /// amount added (0 if already aligned).
    pub fn align_to(&mut self, alignment: usize) -> (added: usize)
        requires
            old(self).wf(),
            alignment > 0,
            old(self)@.capacity() + alignment <= usize::MAX,
        ensures
            final(self).wf(),
            final(self)@ == aligned(old(self)@, alignment as nat),
            added == alignment_slack(old(self)@, alignment as nat),
    {
        let capacity = self.buf.len();
        if capacity % alignment == 0 {
            proof {
                assert(aligned(old(self)@, alignment as nat) =~= old(self)@);
            }
            return 0;
        }
        let additional = alignment - capacity % alignment;
        self.reserve_exact(additional);
        additional
    }

    /// Fill every slot at or beyond the cursor with silence and advance the
    /// cursor to the end. No-op when the buffer is already full.
    pub fn pad_silence(&mut self)
        requires
            old(self).wf(),
        ensures
            final(self).wf(),
            final(self)@ == padded(old(self)@),
    {
        if self.capacity_left() == 0 {
            proof {
                assert(padded(old(self)@) =~= old(self)@);
            }
            return ;
        }
        let len = self.buf.len();
        let mut i: usize = self.samples_written;
        while i < len
            invariant
                old(self).samples_written <= i <= len,
                self.samples_written == old(self).samples_written,
                len == self.buf@.len(),
                self.buf@.len() == old(self).buf@.len(),
                forall|j: int| old(self).samples_written <= j < i ==> self.buf@[j] == 0u32,
                forall|j: int|
                    0 <= j < self.buf@.len() && !(old(self).samples_written <= j < i)
                        ==> self.buf@[j] == old(self).buf@[j],
            decreases len - i,
        {
            self.buf.set(i, 0);
            i = i + 1;
        }
        self.samples_written = len;
        proof {
            assert(self@.data =~= padded(old(self)@).data);
        }
    }
}

} // verus!
