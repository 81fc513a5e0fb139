//! Error taxonomy of the sample reader.

use vstd::prelude::*;

verus! {

/// A required metadata field of the decode source.
#[derive(Debug, Clone, Copy, PartialEq, Eq)]
pub enum MetadataField {
    ChannelLayout,
    SampleRate,
    TimeBase,
    MaxFramesPerPacket,
}

/// Fatal load errors: they abort the current operation and are surfaced to
/// the caller.
#[derive(Debug, Clone, Copy, PartialEq, Eq)]
pub enum SampleLoadError {
    /// The source could not be opened or read.
    IoError,
    /// An otherwise unclassified error of the decode library.
    DecodeLibraryError,
    /// No track with a supported codec was found.
    NoSupportedAudioTracks,
    UnsupportedCodec,
    /// The track declares a channel layout other than mono or stereo; the
    /// payload is the declared channel count.
    UnsupportedChannelLayout(u32),
    MissingRequiredMetadata(MetadataField),
    /// The reading position left the valid range of the finalized buffer.
    UnexpectedState,
    /// The decoder's internal state is no longer trustworthy; the caller must
    /// reconstruct the reader.
    ResetRequired,
}

/// Per-packet decode outcomes used inside the reading loop. Only the
/// `LoadError` and `ResetRequired` cases ever escape to the caller; the
/// others are resolved inside the loop.
#[derive(Debug, Clone, Copy, PartialEq, Eq)]
pub enum SampleDecodeError {
    LoadError(SampleLoadError),
    /// A packet that produces no samples but is no reason to stop: it belongs
    /// to another track or failed to decode for a recoverable reason.
    SkippablePacket,
    /// The decode source signalled the end of the stream.
    EndReached,
    ResetRequired,
}

} // verus!
