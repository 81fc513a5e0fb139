//! The packet-driven reading loop, as a verified state machine.
//!
//! The unverified host layer owns the decode library's handles. Each time it
//! pulls and decodes a packet it reports the outcome as a [`PacketEvent`] and
//! lets [`next_packet_step`] decide what happens: samples are deposited and
//! reported, the scan continues, the stream ends, or a fatal error aborts the
//! read.

use vstd::prelude::*;

pub mod error;
pub mod full_reader;
pub mod prepare;

use crate::buffer::stereo::{AudioFrame, StereoBuffer};
use crate::buffer::{appended, fitting_prefix, frame_left, frame_right, overflow_suffix};
use crate::reader::error::{SampleDecodeError, SampleLoadError};

verus! {

/// What one reading step reports back to the caller.
#[derive(Debug, Clone, Copy, PartialEq, Eq)]
pub enum ReadingProjection {
    /// Samples newly produced per channel, counting both the primary and the
    /// overflow destination.
    SamplesRead(usize),
    EndReached,
}

/// The shape of a decode-library failure, as far as the reading loop cares:
/// which signal it was, not what it said.
#[derive(Debug, Clone, Copy, PartialEq, Eq)]
pub enum StreamErrorKind {
    /// An I/O failure that means the source has no more data.
    IoUnexpectedEof,
    /// Any other I/O failure.
    IoOther,
    /// The packet could not be decoded, for a transient reason.
    Decode,
    /// The decoder's state is no longer trustworthy.
    ResetRequired,
    /// Any other failure of the decode library.
    Other,
}

/// What the host observed while pulling and decoding one packet.
pub enum PacketEvent {
    /// A packet of the selected track decoded into a raw frame.
    Decoded(AudioFrame),
    /// The packet belongs to another track.
    OtherTrack,
    /// Pulling the next packet from the demultiplexer failed.
    FormatError(StreamErrorKind),
    /// Decoding the packet failed.
    DecodeFailed(StreamErrorKind),
}

/// What the loop does next.
#[derive(Debug, Clone, Copy, PartialEq, Eq)]
pub enum LoopStep {
    /// Keep scanning: pull the next packet.
    Scan,
    /// Stop and report this to the caller.
    Finish(ReadingProjection),
    /// Abort with a fatal error.
    Fatal(SampleLoadError),
}

/// Classify a failure of the demultiplexer while pulling a packet: running
/// out of input ends the stream, other I/O hiccups are skippable, and
/// everything else — malformed container data included — is fatal.
pub fn classify_format_error(kind: StreamErrorKind) -> (r: SampleDecodeError)
    ensures
        r == match kind {
            StreamErrorKind::IoUnexpectedEof => SampleDecodeError::EndReached,
            StreamErrorKind::IoOther => SampleDecodeError::SkippablePacket,
            StreamErrorKind::Decode => SampleDecodeError::LoadError(
                SampleLoadError::DecodeLibraryError,
            ),
            StreamErrorKind::ResetRequired => SampleDecodeError::ResetRequired,
            StreamErrorKind::Other => SampleDecodeError::LoadError(
                SampleLoadError::DecodeLibraryError,
            ),
        },
{
    match kind {
        StreamErrorKind::IoUnexpectedEof => SampleDecodeError::EndReached,
        StreamErrorKind::IoOther => SampleDecodeError::SkippablePacket,
        StreamErrorKind::Decode => SampleDecodeError::LoadError(
            SampleLoadError::DecodeLibraryError,
        ),
        StreamErrorKind::ResetRequired => SampleDecodeError::ResetRequired,
        StreamErrorKind::Other => SampleDecodeError::LoadError(SampleLoadError::DecodeLibraryError),
    }
}

/// Classify a failure of the decoder on a packet of the selected track:
/// running out of input ends the stream, transient decode failures and other
/// I/O hiccups are skippable, a reset demand and everything else is fatal.
pub fn classify_decode_error(kind: StreamErrorKind) -> (r: SampleDecodeError)
    ensures
        r == match kind {
            StreamErrorKind::IoUnexpectedEof => SampleDecodeError::EndReached,
            StreamErrorKind::IoOther => SampleDecodeError::SkippablePacket,
            StreamErrorKind::Decode => SampleDecodeError::SkippablePacket,
            StreamErrorKind::ResetRequired => SampleDecodeError::ResetRequired,
            StreamErrorKind::Other => SampleDecodeError::LoadError(
                SampleLoadError::DecodeLibraryError,
            ),
        },
{
    match kind {
        StreamErrorKind::IoUnexpectedEof => SampleDecodeError::EndReached,
        StreamErrorKind::IoOther => SampleDecodeError::SkippablePacket,
        StreamErrorKind::Decode => SampleDecodeError::SkippablePacket,
        StreamErrorKind::ResetRequired => SampleDecodeError::ResetRequired,
        StreamErrorKind::Other => SampleDecodeError::LoadError(SampleLoadError::DecodeLibraryError),
    }
}

/// Turn a per-packet decode outcome into the loop's next move: skippable
/// packets keep the scan going, end of stream finishes the read, and load
/// errors or a reset demand abort it.
pub fn resolve_decode_outcome(outcome: SampleDecodeError) -> (r: LoopStep)
    ensures
        r == match outcome {
            SampleDecodeError::SkippablePacket => LoopStep::Scan,
            SampleDecodeError::EndReached => LoopStep::Finish(ReadingProjection::EndReached),
            SampleDecodeError::ResetRequired => LoopStep::Fatal(SampleLoadError::ResetRequired),
            SampleDecodeError::LoadError(e) => LoopStep::Fatal(e),
        },
{
    match outcome {
        SampleDecodeError::SkippablePacket => LoopStep::Scan,
        SampleDecodeError::EndReached => LoopStep::Finish(ReadingProjection::EndReached),
        SampleDecodeError::ResetRequired => LoopStep::Fatal(SampleLoadError::ResetRequired),
        SampleDecodeError::LoadError(e) => LoopStep::Fatal(e),
    }
}

/// Whether a pulled packet belongs to the selected track; packets of other
/// tracks are silently skipped.
pub fn packet_matches_track(selected_track_id: u32, packet_track_id: u32) -> (r: bool)
    ensures
        r == (selected_track_id == packet_track_id),
{
    selected_track_id == packet_track_id
}

/// One step of the reading loop. A decoded frame of the selected track is
/// normalized and deposited into `buffer`, spilling into `remainder`, and the
/// newly produced sample count is reported; every other event either keeps
/// the scan going, ends the stream, or aborts the read, leaving both
/// containers untouched.
pub fn next_packet_step(
    buffer: &mut StereoBuffer,
    remainder: &mut StereoBuffer,
    event: PacketEvent,
) -> (r: LoopStep)
    requires
        old(buffer).wf(),
        old(remainder).wf(),
        event matches PacketEvent::Decoded(frame) ==> {
            &&& frame.wf()
            &&& 1 <= frame@.len() <= 2
            &&& old(buffer).left@.overflow_on(frame.spec_frame_len()) <= old(remainder).left@.capacity_left()
            &&& frame.spec_frame_len() + old(remainder).spec_cursor() <= usize::MAX
        },
    ensures
        final(buffer).wf(),
        final(remainder).wf(),
        match event {
            PacketEvent::Decoded(frame) => {
                &&& final(buffer).left@ == appended(
                    old(buffer).left@,
                    fitting_prefix(old(buffer).left@, frame_left(frame@)),
                )
                &&& final(buffer).right@ == appended(
                    old(buffer).right@,
                    fitting_prefix(old(buffer).right@, frame_right(frame@)),
                )
                &&& old(buffer).left@.overflow_on(frame.spec_frame_len()) > 0 ==> final(remainder).left@ == appended(
                    old(remainder).left@,
                    overflow_suffix(old(buffer).left@, frame_left(frame@)),
                ) && final(remainder).right@ == appended(
                    old(remainder).right@,
                    overflow_suffix(old(buffer).right@, frame_right(frame@)),
                )
                &&& old(buffer).left@.overflow_on(frame.spec_frame_len()) == 0 ==> final(remainder).left@ == old(remainder).left@ && final(remainder).right@ == old(remainder).right@
                &&& r == LoopStep::Finish(
                    ReadingProjection::SamplesRead(
                        ((final(buffer).spec_cursor() - old(buffer).spec_cursor()) + final(remainder).spec_cursor()) as usize,
                    ),
                )
            },
            PacketEvent::OtherTrack => {
                &&& final(buffer).left@ == old(buffer).left@
                &&& final(buffer).right@ == old(buffer).right@
                &&& final(remainder).left@ == old(remainder).left@
                &&& final(remainder).right@ == old(remainder).right@
                &&& r == LoopStep::Scan
            },
            PacketEvent::FormatError(kind) => {
                &&& final(buffer).left@ == old(buffer).left@
                &&& final(buffer).right@ == old(buffer).right@
                &&& final(remainder).left@ == old(remainder).left@
                &&& final(remainder).right@ == old(remainder).right@
                &&& r == match kind {
                    StreamErrorKind::IoUnexpectedEof => LoopStep::Finish(
                        ReadingProjection::EndReached,
                    ),
                    StreamErrorKind::IoOther => LoopStep::Scan,
                    StreamErrorKind::Decode => LoopStep::Fatal(
                        SampleLoadError::DecodeLibraryError,
                    ),
                    StreamErrorKind::ResetRequired => LoopStep::Fatal(
                        SampleLoadError::ResetRequired,
                    ),
                    StreamErrorKind::Other => LoopStep::Fatal(SampleLoadError::DecodeLibraryError),
                }
            },
            PacketEvent::DecodeFailed(kind) => {
                &&& final(buffer).left@ == old(buffer).left@
                &&& final(buffer).right@ == old(buffer).right@
                &&& final(remainder).left@ == old(remainder).left@
                &&& final(remainder).right@ == old(remainder).right@
                &&& r == match kind {
                    StreamErrorKind::IoUnexpectedEof => LoopStep::Finish(
                        ReadingProjection::EndReached,
                    ),
                    StreamErrorKind::IoOther => LoopStep::Scan,
                    StreamErrorKind::Decode => LoopStep::Scan,
                    StreamErrorKind::ResetRequired => LoopStep::Fatal(
                        SampleLoadError::ResetRequired,
                    ),
                    StreamErrorKind::Other => LoopStep::Fatal(SampleLoadError::DecodeLibraryError),
                }
            },
        },
{
    match event {
        PacketEvent::Decoded(frame) => {
            let already_written = buffer.cursor();
            buffer.append_audio_buffer(&frame, remainder);
            let produced = (buffer.cursor() - already_written) + remainder.cursor();
            LoopStep::Finish(ReadingProjection::SamplesRead(produced))
        },
        PacketEvent::OtherTrack => LoopStep::Scan,
        PacketEvent::FormatError(kind) => resolve_decode_outcome(classify_format_error(kind)),
        PacketEvent::DecodeFailed(kind) => resolve_decode_outcome(classify_decode_error(kind)),
    }
}

} // verus!
