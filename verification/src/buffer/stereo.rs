//! Dual-channel sample container and the raw decoded frame it consumes.

use vstd::prelude::*;

use crate::buffer::mono::{reserve_amount, MonoBuffer};
use crate::buffer::{
    aligned, alignment_slack, appended, fitting_prefix, frame_left, frame_right, grown,
    overflow_suffix, padded, rewound, trimmed, zeros, BufferLayout,
};

verus! {

/// The two stereo channels.
#[derive(Debug, Clone, Copy, PartialEq, Eq)]
pub enum Channel {
    Left,
    Right,
}

/// A raw decoded frame: one vector of samples per source channel, all of the
/// same length. This is the canonical shape in which decoded packets reach
/// the containers, whatever native numeric representation the decode source
/// used.
pub struct AudioFrame {
    channels: Vec<Vec<u32>>,
}

impl View for AudioFrame {
    type V = Seq<Seq<u32>>;

    closed spec fn view(&self) -> Seq<Seq<u32>> {
        self.channels.deep_view()
    }
}

impl AudioFrame {
    /// Samples per channel (0 for a channel-less frame).
    pub open spec fn spec_frame_len(&self) -> nat {
        if self@.len() == 0 {
            0
        } else {
            self@[0].len()
        }
    }

    /// All channels carry the same number of samples.
    pub open spec fn wf(&self) -> bool {
        forall|i: int| 0 <= i < self@.len() ==> (#[trigger] self@[i]).len() == self.spec_frame_len()
    }

    /// Build a frame from per-channel sample planes; rejects ragged input.
    pub fn new(channels: Vec<Vec<u32>>) -> (r: Option<AudioFrame>)
        ensures
            r is Some <==> (forall|i: int|
                0 <= i < channels.deep_view().len() ==> (#[trigger] channels.deep_view()[i]).len()
                    == channels.deep_view()[0].len()) || channels.deep_view().len() == 0,
            r matches Some(f) ==> f@ == channels.deep_view() && f.wf(),
    {
        let count = channels.len();
        if count == 0 {
            return Some(AudioFrame { channels });
        }
        let frame_len = channels[0].len();
        let mut i: usize = 1;
        while i < count
            invariant
                1 <= i <= count,
                count == channels.deep_view().len(),
                frame_len == channels.deep_view()[0].len(),
                forall|j: int|
                    0 <= j < i ==> (#[trigger] channels.deep_view()[j]).len() == frame_len,
            decreases count - i,
        {
            if channels[i].len() != frame_len {
                proof {
                    assert(channels.deep_view()[i as int].len() != channels.deep_view()[0].len());
                }
                return None;
            }
            i = i + 1;
        }
        Some(AudioFrame { channels })
    }

    /// Number of source channels.
    pub fn channel_count(&self) -> (r: usize)
        ensures
            r == self@.len(),
    {
        self.channels.len()
    }

    /// Samples per channel.
    pub fn frame_len(&self) -> (r: usize)
        ensures
            r == self.spec_frame_len(),
    {
        if self.channels.len() == 0 {
            0
        } else {
            self.channels[0].len()
        }
    }

    /// Borrow one channel's samples.
    pub fn channel(&self, i: usize) -> (r: &Vec<u32>)
        requires
            i < self@.len(),
        ensures
            r@ == self@[i as int],
    {
        &self.channels[i]
    }
}

/// A pair of mono buffers that always move in lockstep: equal capacity, equal
/// cursor. Total capacity is reported as the sum of both channels, but all
/// growth and overflow arithmetic is per channel.
pub struct StereoBuffer {
    pub left: MonoBuffer,
    pub right: MonoBuffer,
}

impl StereoBuffer {
    /// Both channels well formed, with equal capacity and equal cursor.
    pub open spec fn wf(&self) -> bool {
        &&& self.left.wf()
        &&& self.right.wf()
        &&& self.left@.capacity() == self.right@.capacity()
        &&& self.left@.cursor == self.right@.cursor
    }

    /// Per-channel capacity.
    pub open spec fn spec_channel_capacity(&self) -> nat {
        self.left@.capacity()
    }

    /// Shared write cursor.
    pub open spec fn spec_cursor(&self) -> nat {
        self.left@.cursor
    }

    /// Allocate `capacity` silent slots per channel, cursors at the start.
    pub fn new(capacity: usize) -> (r: Self)
        ensures
            r.wf(),
            r.left@.data == zeros(capacity as nat),
            r.right@.data == zeros(capacity as nat),
            r.spec_cursor() == 0,
            r.spec_channel_capacity() == capacity,
    {
        Self { left: MonoBuffer::new(capacity), right: MonoBuffer::new(capacity) }
    }

    /// The null buffer: zero capacity on both channels.
    pub fn _0() -> (r: Self)
        ensures
            r.wf(),
            r.spec_channel_capacity() == 0,
            r.spec_cursor() == 0,
    {
        Self::new(0)
    }

    pub fn layout(&self) -> (r: BufferLayout)
        ensures
            r == BufferLayout::Stereo,
    {
        BufferLayout::Stereo
    }

    /// Allocated slots of one channel.
    pub fn channel_capacity(&self) -> (r: usize)
        ensures
            r == self.spec_channel_capacity(),
    {
        self.left.channel_capacity()
    }

    /// Total allocated slots across both channels.
    pub fn capacity(&self) -> (r: usize)
        requires
            self.spec_channel_capacity() * 2 <= usize::MAX,
        ensures
            r == self.spec_channel_capacity() * 2,
    {
        self.left.channel_capacity() * 2
    }

    /// The shared write cursor.
    pub fn cursor(&self) -> (r: usize)
        ensures
            r == self.spec_cursor(),
    {
        self.left.cursor()
    }

    /// Whether any sample has been written.
    pub fn has_content(&self) -> (r: bool)
        ensures
            r == (self.spec_cursor() > 0),
    {
        self.left.has_content()
    }

    /// Rewind both cursors without touching stored samples.
    pub fn clear_cursor(&mut self)
        ensures
            final(self).left@ == rewound(old(self).left@),
            final(self).right@ == rewound(old(self).right@),
    {
        self.left.clear_cursor();
        self.right.clear_cursor();
    }

    /// Slots still available for writing in each channel.
    pub fn capacity_left(&self) -> (r: usize)
        requires
            self.wf(),
        ensures
            r == self.left@.capacity_left(),
            r == self.spec_channel_capacity() - self.spec_cursor(),
    {
        self.left.capacity_left()
    }

    /// How many of `unit` incoming samples per channel would not fit.
    pub fn overflow_on(&self, unit: usize) -> (r: usize)
        requires
            self.wf(),
        ensures
            r == self.left@.overflow_on(unit as nat),
    {
        self.left.overflow_on(unit)
    }

    /// Borrow `len` samples of both channels starting at `start`.
    pub fn slice(&self, start: usize, len: usize) -> (r: (&[u32], &[u32]))
        requires
            self.wf(),
            start + len <= self.spec_channel_capacity(),
        ensures
            r.0@ == self.left@.data.subrange(start as int, start + len),
            r.1@ == self.right@.data.subrange(start as int, start + len),
    {
        (self.left.slice(start, len), self.right.slice(start, len))
    }

    /// Borrow both whole backing stores.
    pub fn as_slice(&self) -> (r: (&[u32], &[u32]))
        ensures
            r.0@ == self.left@.data,
            r.1@ == self.right@.data,
    {
        (self.left.as_slice(), self.right.as_slice())
    }

    /// Append one slice per channel; the slices must have equal length and
    /// fit in the capacity left.
    pub fn append_slices(&mut self, left: &[u32], right: &[u32])
        requires
            old(self).wf(),
            left@.len() == right@.len(),
            left@.len() <= old(self).left@.capacity_left(),
        ensures
            final(self).wf(),
            final(self).left@ == appended(old(self).left@, left@),
            final(self).right@ == appended(old(self).right@, right@),
    {
        self.left.append_slice(left);
        self.right.append_slice(right);
    }

    /// Append the same slice to both channels.
    pub fn append_slice(&mut self, slice: &[u32])
        requires
            old(self).wf(),
            slice@.len() <= old(self).left@.capacity_left(),
        ensures
            final(self).wf(),
            final(self).left@ == appended(old(self).left@, slice@),
            final(self).right@ == appended(old(self).right@, slice@),
    {
        self.left.append_slice(slice);
        self.right.append_slice(slice);
    }

    /// Append the same slice to both channels, growing them first by exactly
    /// the overflow amount if the input does not fit.
    pub fn append_slice_exact(&mut self, slice: &[u32])
        requires
            old(self).wf(),
            old(self).spec_cursor() + slice@.len() <= usize::MAX,
        ensures
            final(self).wf(),
            final(self).left@ == appended(
                grown(old(self).left@, old(self).left@.overflow_on(slice@.len())),
                slice@,
            ),
            final(self).right@ == appended(
                grown(old(self).right@, old(self).right@.overflow_on(slice@.len())),
                slice@,
            ),
    {
        self.left.append_slice_exact(slice);
        self.right.append_slice_exact(slice);
    }

    /// Append the same slice to both channels, doubling their capacity first
    /// if the input does not fit.
    pub fn append_slice_safe(&mut self, slice: &[u32])
        requires
            old(self).wf(),
            slice@.len() <= old(self).left@.capacity_left() + old(self).spec_channel_capacity(),
            old(self).spec_channel_capacity() * 2 <= usize::MAX,
        ensures
            final(self).wf(),
            old(self).left@.overflow_on(slice@.len()) == 0 ==> final(self).left@ == appended(
                old(self).left@,
                slice@,
            ) && final(self).right@ == appended(old(self).right@, slice@),
            old(self).left@.overflow_on(slice@.len()) > 0 ==> final(self).left@ == appended(
                grown(old(self).left@, old(self).spec_channel_capacity()),
                slice@,
            ) && final(self).right@ == appended(
                grown(old(self).right@, old(self).spec_channel_capacity()),
                slice@,
            ),
    {
        self.left.append_slice_safe(slice);
        self.right.append_slice_safe(slice);
    }

    /// The overflow-aware append: write the fitting prefix of each channel's
    /// slice into this buffer and the rest into `overflow`, which must have
    /// room for it. Never grows this buffer.
    pub fn append_slices_overflow(&mut self, left: &[u32], right: &[u32], overflow: &mut StereoBuffer)
        requires
            old(self).wf(),
            old(overflow).wf(),
            left@.len() == right@.len(),
            old(self).left@.overflow_on(left@.len()) <= old(overflow).left@.capacity_left(),
        ensures
            final(self).wf(),
            final(overflow).wf(),
            final(self).left@ == appended(old(self).left@, fitting_prefix(old(self).left@, left@)),
            final(self).right@ == appended(
                old(self).right@,
                fitting_prefix(old(self).right@, right@),
            ),
            old(self).left@.overflow_on(left@.len()) > 0 ==> {
                &&& final(overflow).left@ == appended(
                    old(overflow).left@,
                    overflow_suffix(old(self).left@, left@),
                )
                &&& final(overflow).right@ == appended(
                    old(overflow).right@,
                    overflow_suffix(old(self).right@, right@),
                )
            },
            old(self).left@.overflow_on(left@.len()) == 0 ==> final(overflow).left@ == old(overflow).left@ && final(overflow).right@ == old(overflow).right@,
    {
        self.left.append_slice_overflow(left, &mut overflow.left);
        self.right.append_slice_overflow(right, &mut overflow.right);
    }

    /// Normalize a raw decoded frame into both channels and append it through
    /// the overflow-aware path: a mono frame is duplicated into both
    /// channels; a stereo frame passes through verbatim. Frames with more
    /// channels are downmixed to mono by the caller before the append.
    pub fn append_audio_buffer(&mut self, frame: &AudioFrame, overflow: &mut StereoBuffer)
        requires
            old(self).wf(),
            old(overflow).wf(),
            frame.wf(),
            1 <= frame@.len() <= 2,
            old(self).left@.overflow_on(frame.spec_frame_len()) <= old(overflow).left@.capacity_left(),
        ensures
            final(self).wf(),
            final(overflow).wf(),
            final(self).left@ == appended(
                old(self).left@,
                fitting_prefix(old(self).left@, frame_left(frame@)),
            ),
            final(self).right@ == appended(
                old(self).right@,
                fitting_prefix(old(self).right@, frame_right(frame@)),
            ),
            old(self).left@.overflow_on(frame.spec_frame_len()) > 0 ==> final(overflow).left@
                == appended(old(overflow).left@, overflow_suffix(old(self).left@, frame_left(frame@)))
                && final(overflow).right@ == appended(
                old(overflow).right@,
                overflow_suffix(old(self).right@, frame_right(frame@)),
            ),
            old(self).left@.overflow_on(frame.spec_frame_len()) == 0 ==> final(overflow).left@
                == old(overflow).left@ && final(overflow).right@ == old(overflow).right@,
    {
        if frame.channel_count() == 1 {
            let mono = frame.channel(0);
            self.append_slices_overflow(mono.as_slice(), mono.as_slice(), overflow);
        } else {
            self.append_slices_overflow(
                frame.channel(0).as_slice(),
                frame.channel(1).as_slice(),
                overflow,
            );
        }
    }

    /// Reserve at least `additional` slots per channel, identically on both;
    /// returns the amount actually added to each.
    pub fn reserve(&mut self, additional: usize) -> (added: usize)
        requires
            old(self).wf(),
            old(self).spec_channel_capacity() + reserve_amount(old(self).left@, additional as nat)
                <= usize::MAX,
        ensures
            final(self).wf(),
            added == reserve_amount(old(self).left@, additional as nat),
            added >= additional,
            final(self).left@ == grown(old(self).left@, added as nat),
            final(self).right@ == grown(old(self).right@, added as nat),
    {
        let reserved = self.left.reserve(additional);
        self.right.reserve_exact(reserved);
        reserved
    }

    /// Reserve exactly `additional` slots per channel.
    pub fn reserve_exact(&mut self, additional: usize)
        requires
            old(self).wf(),
            old(self).spec_channel_capacity() + additional <= usize::MAX,
        ensures
            final(self).wf(),
            final(self).left@ == grown(old(self).left@, additional as nat),
            final(self).right@ == grown(old(self).right@, additional as nat),
    {
        self.left.reserve_exact(additional);
        self.right.reserve_exact(additional);
    }

    /// Shrink both channels to exactly the written samples.
    pub fn trim(&mut self)
        requires
            old(self).wf(),
        ensures
            final(self).wf(),
            final(self).left@ == trimmed(old(self).left@),
            final(self).right@ == trimmed(old(self).right@),
    {
        self.left.trim();
        self.right.trim();
    }

    /// Grow both channels to the next multiple of `alignment`; returns the
    /// amount added to each (0 if already aligned).
    pub fn align_to(&mut self, alignment: usize) -> (added: usize)
        requires
            old(self).wf(),
            alignment > 0,
            old(self).spec_channel_capacity() + alignment <= usize::MAX,
        ensures
            final(self).wf(),
            final(self).left@ == aligned(old(self).left@, alignment as nat),
            final(self).right@ == aligned(old(self).right@, alignment as nat),
            added == alignment_slack(old(self).left@, alignment as nat),
    {
        let left_add = self.left.align_to(alignment);
        let right_add = self.right.align_to(alignment);
        left_add
    }

    /// Fill both channels' slack with silence and advance both cursors to the
    /// end.
    pub fn pad_silence(&mut self)
        requires
            old(self).wf(),
        ensures
            final(self).wf(),
            final(self).left@ == padded(old(self).left@),
            final(self).right@ == padded(old(self).right@),
    {
        self.left.pad_silence();
        self.right.pad_silence();
    }
}

} // verus!
