//! Validation of the decode source's metadata before any packet is read.

use vstd::prelude::*;

use crate::buffer::BufferLayout;
use crate::reader::error::{MetadataField, SampleLoadError};

verus! {

/// The codec identifier that marks a track as having no decodable codec.
pub const CODEC_TYPE_NULL: u32 = 0;

/// A stream time base: `numer / denom` seconds per timestamp unit.
#[derive(Debug, Clone, Copy, PartialEq, Eq)]
pub struct TimeBase {
    pub numer: u32,
    pub denom: u32,
}

/// The per-track parameters the decode source reports at open time, before
/// validation. Fields the source may leave unset are optional here.
#[derive(Debug, Clone, Copy, PartialEq, Eq)]
pub struct CodecParams {
    /// Declared channel count of the track's channel layout.
    pub channel_count: Option<u32>,
    /// Decode delay in samples.
    pub delay: Option<u32>,
    /// Trailing padding in samples.
    pub padding: Option<u32>,
    pub sample_rate: Option<u32>,
    /// Timestamp of the first frame.
    pub start_ts: u64,
    pub time_base: Option<TimeBase>,
    pub max_frames_per_packet: Option<u64>,
    /// Total samples per channel, when the source knows it up front.
    pub n_frames: Option<u64>,
}

/// Immutable metadata snapshot captured once at open time.
#[derive(Debug, Clone, Copy, PartialEq, Eq)]
pub struct ReaderMeta {
    pub layout: BufferLayout,
    pub delay: u32,
    pub padding: u32,
    pub sample_rate: u32,
    pub start_ts: u64,
    pub time_base: TimeBase,
    pub max_frames_per_packet: u64,
    /// Total samples per channel, when known up front.
    pub n_samples: Option<u64>,
}

/// Pick the track to decode: the first one whose codec is not the null
/// codec. Fails when no track has a decodable codec.
pub fn select_track(codec_types: &Vec<u32>) -> (r: Result<usize, SampleLoadError>)
    ensures
        match r {
            Ok(i) => {
                &&& i < codec_types@.len()
                &&& codec_types@[i as int] != CODEC_TYPE_NULL
                &&& forall|j: int| 0 <= j < i ==> codec_types@[j] == CODEC_TYPE_NULL
            },
            Err(e) => {
                &&& e == SampleLoadError::NoSupportedAudioTracks
                &&& forall|j: int|
                    0 <= j < codec_types@.len() ==> codec_types@[j] == CODEC_TYPE_NULL
            },
        },
{
    let len = codec_types.len();
    let mut i: usize = 0;
    while i < len
        invariant
            i <= len,
            len == codec_types@.len(),
            forall|j: int| 0 <= j < i ==> codec_types@[j] == CODEC_TYPE_NULL,
        decreases len - i,
    {
        if codec_types[i] != CODEC_TYPE_NULL {
            return Ok(i);
        }
        i = i + 1;
    }
    Err(SampleLoadError::NoSupportedAudioTracks)
}

/// The layout a validated channel count stands for.
pub open spec fn layout_of(channel_count: u32) -> BufferLayout {
    if channel_count == 1 {
        BufferLayout::Mono
    } else {
        BufferLayout::Stereo
    }
}

/// Validate the parameters of the selected track and capture the reader's
/// metadata snapshot. Succeeds exactly when the channel layout is declared
/// and is mono or stereo and the sample rate, time base and maximum frames
/// per packet are all present; delay, padding and the total sample count are
/// optional.
pub fn prepare_sample_reader(params: &CodecParams) -> (r: Result<ReaderMeta, SampleLoadError>)
    ensures
        params.channel_count is None ==> r == Err::<ReaderMeta, SampleLoadError>(
            SampleLoadError::MissingRequiredMetadata(MetadataField::ChannelLayout),
        ),
        params.channel_count matches Some(c) ==> (c != 1 && c != 2 ==> r == Err::<
            ReaderMeta,
            SampleLoadError,
        >(SampleLoadError::UnsupportedChannelLayout(c))),
        params.channel_count matches Some(c) ==> ((c == 1 || c == 2) ==> r == (
        if params.sample_rate is None {
            Err(SampleLoadError::MissingRequiredMetadata(MetadataField::SampleRate))
        } else if params.time_base is None {
            Err(SampleLoadError::MissingRequiredMetadata(MetadataField::TimeBase))
        } else if params.max_frames_per_packet is None {
            Err(SampleLoadError::MissingRequiredMetadata(MetadataField::MaxFramesPerPacket))
        } else {
            Ok(
                ReaderMeta {
                    layout: layout_of(c),
                    delay: if params.delay is Some {
                        params.delay.unwrap()
                    } else {
                        0
                    },
                    padding: if params.padding is Some {
                        params.padding.unwrap()
                    } else {
                        0
                    },
                    sample_rate: params.sample_rate.unwrap(),
                    start_ts: params.start_ts,
                    time_base: params.time_base.unwrap(),
                    max_frames_per_packet: params.max_frames_per_packet.unwrap(),
                    n_samples: params.n_frames,
                },
            )
        })),
{
    let channel_count = match params.channel_count {
        Some(c) => c,
        None => {
            return Err(
                SampleLoadError::MissingRequiredMetadata(MetadataField::ChannelLayout),
            );
        },
    };
    let layout = match channel_count {
        1 => BufferLayout::Mono,
        2 => BufferLayout::Stereo,
        _ => {
            return Err(SampleLoadError::UnsupportedChannelLayout(channel_count));
        },
    };
    let delay = match params.delay {
        Some(d) => d,
        None => 0,
    };
    let padding = match params.padding {
        Some(p) => p,
        None => 0,
    };
    let sample_rate = match params.sample_rate {
        Some(s) => s,
        None => {
            return Err(SampleLoadError::MissingRequiredMetadata(MetadataField::SampleRate));
        },
    };
    let time_base = match params.time_base {
        Some(t) => t,
        None => {
            return Err(SampleLoadError::MissingRequiredMetadata(MetadataField::TimeBase));
        },
    };
    let max_frames_per_packet = match params.max_frames_per_packet {
        Some(m) => m,
        None => {
            return Err(
                SampleLoadError::MissingRequiredMetadata(MetadataField::MaxFramesPerPacket),
            );
        },
    };
    Ok(
        ReaderMeta {
            layout,
            delay,
            padding,
            sample_rate,
            start_ts: params.start_ts,
            time_base,
            max_frames_per_packet,
            n_samples: params.n_frames,
        },
    )
}

} // verus!
