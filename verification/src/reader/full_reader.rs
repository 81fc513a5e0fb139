//! Bulk loading: grow while the stream fills the container, then finalize it
//! for fixed-size consumption.

use vstd::prelude::*;

use crate::buffer::stereo::StereoBuffer;
use crate::buffer::{aligned, grown, lemma_trim_then_align, padded, trimmed};
use crate::reader::error::SampleLoadError;
use crate::reader::prepare::ReaderMeta;

verus! {

/// Default per-channel allocation when the total sample count is unknown: a
/// mebibyte worth of dual-channel samples at four bytes per sample.
pub const DEFAULT_CHANNEL_SIZE: u64 = 1048576 / (4 * 2);

/// What issuing a slice past the end of the finalized buffer does.
#[derive(Debug, Clone, Copy, PartialEq, Eq)]
pub enum SlicePolicy {
    /// Rewind to the start and keep issuing (round robin).
    Wrap,
    /// Report an error.
    Fail,
}

/// The initial per-channel allocation: the known total sample count, or the
/// default heuristic size when it is unknown.
pub open spec fn spec_estimated_channel_size(n_samples: Option<u64>) -> nat {
    match n_samples {
        Some(n) => n as nat,
        None => DEFAULT_CHANNEL_SIZE as nat,
    }
}

/// A reader that loads the full content of a stream into one owned container.
///
/// The host layer drives the decode loop; this type owns the container, the
/// growth policy while the total sample count is unknown, the finalization
/// step, and the sequential issuance of host-chunk-sized slices over the
/// finalized buffer with a read cursor independent of the write cursor.
pub struct SyncFullReader {
    pub buffer: StereoBuffer,
    /// Reading cursor, not to be confused with the buffer cursor used for
    /// writing.
    pub cursor: usize,
    pub host_buffer_len: usize,
    pub policy: SlicePolicy,
    pub known_sample_count: bool,
    pub samples_per_packet: usize,
}

impl SyncFullReader {
    pub closed spec fn spec_read_cursor(&self) -> nat {
        self.cursor as nat
    }

    pub closed spec fn spec_host_buffer_len(&self) -> nat {
        self.host_buffer_len as nat
    }

    pub closed spec fn spec_policy(&self) -> SlicePolicy {
        self.policy
    }

    pub closed spec fn spec_known_sample_count(&self) -> bool {
        self.known_sample_count
    }

    pub closed spec fn spec_samples_per_packet(&self) -> nat {
        self.samples_per_packet as nat
    }

    /// The container is well formed and the host chunk size is positive.
    pub open spec fn wf(&self) -> bool {
        &&& self.buffer.wf()
        &&& self.spec_host_buffer_len() > 0
    }

    /// Allocate the container for a stream with the given metadata: sized
    /// exactly when the total sample count is known, heuristically otherwise.
    pub fn new(host_buffer_len: usize, meta: &ReaderMeta, policy: SlicePolicy) -> (r: Self)
        requires
            host_buffer_len > 0,
            spec_estimated_channel_size(meta.n_samples) <= usize::MAX,
            meta.max_frames_per_packet <= usize::MAX,
        ensures
            r.wf(),
            r.buffer.spec_channel_capacity() == spec_estimated_channel_size(meta.n_samples),
            r.buffer.spec_cursor() == 0,
            r.spec_read_cursor() == 0,
            r.spec_host_buffer_len() == host_buffer_len,
            r.spec_policy() == policy,
            r.spec_known_sample_count() == (meta.n_samples is Some),
            r.spec_samples_per_packet() == meta.max_frames_per_packet,
    {
        let estimated_size: u64 = match meta.n_samples {
            Some(n) => n,
            None => DEFAULT_CHANNEL_SIZE,
        };
        Self {
            buffer: StereoBuffer::new(estimated_size as usize),
            cursor: 0,
            host_buffer_len,
            policy,
            known_sample_count: match meta.n_samples {
                Some(_) => true,
                None => false,
            },
            samples_per_packet: meta.max_frames_per_packet as usize,
        }
    }

    /// Account for one packet's worth of produced samples. While the total
    /// sample count is unknown this tracks the largest packet seen and, once
    /// the capacity left drops below it, doubles the container so the next
    /// fill cannot overflow; with a known count the container was sized
    /// exactly and nothing happens.
    pub fn on_samples_read(&mut self, size: usize)
        requires
            old(self).wf(),
            old(self).buffer.spec_channel_capacity() * 2 <= usize::MAX,
        ensures
            final(self).wf(),
            final(self).spec_read_cursor() == old(self).spec_read_cursor(),
            final(self).spec_host_buffer_len() == old(self).spec_host_buffer_len(),
            final(self).spec_policy() == old(self).spec_policy(),
            final(self).spec_known_sample_count() == old(self).spec_known_sample_count(),
            old(self).spec_known_sample_count() ==> final(self).buffer.left@ == old(self).buffer.left@ && final(self).buffer.right@ == old(self).buffer.right@ && final(self).spec_samples_per_packet() == old(self).spec_samples_per_packet(),
            !old(self).spec_known_sample_count() ==> {
                let tracked_max = if size > old(self).spec_samples_per_packet() {
                    size as nat
                } else {
                    old(self).spec_samples_per_packet()
                };
                &&& final(self).spec_samples_per_packet() == tracked_max
                &&& tracked_max >= old(self).buffer.left@.capacity_left() ==> final(self).buffer.left@ == grown(
                    old(self).buffer.left@,
                    old(self).buffer.spec_channel_capacity(),
                ) && final(self).buffer.right@ == grown(
                    old(self).buffer.right@,
                    old(self).buffer.spec_channel_capacity(),
                )
                &&& tracked_max < old(self).buffer.left@.capacity_left() ==> final(self).buffer.left@ == old(self).buffer.left@ && final(self).buffer.right@ == old(self).buffer.right@
            },
    {
        if self.known_sample_count {
            return ;
        }
        if size > self.samples_per_packet {
            self.samples_per_packet = size;
        }
        if self.samples_per_packet >= self.buffer.capacity_left() {
            let capacity = self.buffer.channel_capacity();
            self.buffer.reserve(capacity);
        }
    }

    /// Finalize after the stream ended: trim to the written length, align the
    /// capacity to the host chunk size, and pad the alignment slack with
    /// silence, so slicing never truncates.
    pub fn finalize(&mut self)
        requires
            old(self).wf(),
            old(self).buffer.spec_cursor() + old(self).spec_host_buffer_len() <= usize::MAX,
        ensures
            final(self).wf(),
            final(self).buffer.left@ == padded(
                aligned(trimmed(old(self).buffer.left@), old(self).spec_host_buffer_len()),
            ),
            final(self).buffer.right@ == padded(
                aligned(trimmed(old(self).buffer.right@), old(self).spec_host_buffer_len()),
            ),
            final(self).buffer.spec_channel_capacity() % final(self).spec_host_buffer_len() == 0,
            final(self).buffer.spec_cursor() == final(self).buffer.spec_channel_capacity(),
            final(self).spec_read_cursor() == old(self).spec_read_cursor(),
            final(self).spec_host_buffer_len() == old(self).spec_host_buffer_len(),
            final(self).spec_policy() == old(self).spec_policy(),
    {
        self.buffer.trim();
        let host_buffer_len = self.host_buffer_len;
        self.buffer.align_to(host_buffer_len);
        self.buffer.pad_silence();
        proof {
            lemma_trim_then_align(old(self).buffer.left@, old(self).spec_host_buffer_len());
        }
    }

    /// Issue the next host-chunk-sized slice of both channels and advance the
    /// read cursor. Past the end of the buffer, either wraps back to the
    /// start or reports `UnexpectedState`, per the configured policy.
    pub fn next_slice(&mut self) -> (r: Result<(&[u32], &[u32]), SampleLoadError>)
        requires
            old(self).wf(),
            old(self).spec_read_cursor() + old(self).spec_host_buffer_len() <= usize::MAX,
        ensures
            final(self).wf(),
            final(self).buffer.left@ == old(self).buffer.left@,
            final(self).buffer.right@ == old(self).buffer.right@,
            final(self).spec_host_buffer_len() == old(self).spec_host_buffer_len(),
            final(self).spec_policy() == old(self).spec_policy(),
            ({
                let start = old(self).spec_read_cursor();
                let chunk = old(self).spec_host_buffer_len();
                let capacity = old(self).buffer.spec_channel_capacity();
                if start + chunk <= capacity {
                    &&& r matches Ok(s) && s.0@ == old(self).buffer.left@.data.subrange(
                        start as int,
                        (start + chunk) as int,
                    ) && s.1@ == old(self).buffer.right@.data.subrange(
                        start as int,
                        (start + chunk) as int,
                    )
                    &&& final(self).spec_read_cursor() == start + chunk
                } else if old(self).spec_policy() == SlicePolicy::Wrap && chunk <= capacity {
                    &&& r matches Ok(s) && s.0@ == old(self).buffer.left@.data.subrange(
                        0,
                        chunk as int,
                    ) && s.1@ == old(self).buffer.right@.data.subrange(0, chunk as int)
                    &&& final(self).spec_read_cursor() == chunk
                } else {
                    &&& r == Err::<(&[u32], &[u32]), SampleLoadError>(
                        SampleLoadError::UnexpectedState,
                    )
                    &&& final(self).spec_read_cursor() == start
                }
            }),
    {
        let start = self.cursor;
        let chunk = self.host_buffer_len;
        if start + chunk <= self.buffer.channel_capacity() {
            self.cursor = start + chunk;
            Ok(self.buffer.slice(start, chunk))
        } else {
            match self.policy {
                SlicePolicy::Wrap => {
                    if chunk <= self.buffer.channel_capacity() {
                        self.cursor = chunk;
                        Ok(self.buffer.slice(0, chunk))
                    } else {
                        Err(SampleLoadError::UnexpectedState)
                    }
                },
                SlicePolicy::Fail => Err(SampleLoadError::UnexpectedState),
            }
        }
    }

    /// The read cursor: how many samples per channel have been issued.
    pub fn read_cursor(&self) -> (r: usize)
        ensures
            r == self.spec_read_cursor(),
    {
        self.cursor
    }

    /// The configured host chunk size.
    pub fn host_buffer_len(&self) -> (r: usize)
        ensures
            r == self.spec_host_buffer_len(),
    {
        self.host_buffer_len
    }

    /// The largest per-packet sample count seen so far.
    pub fn samples_per_packet(&self) -> (r: usize)
        ensures
            r == self.spec_samples_per_packet(),
    {
        self.samples_per_packet
    }
}

} // verus!
