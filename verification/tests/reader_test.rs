use audio_reader::buffer::stereo::{AudioFrame, StereoBuffer};
use audio_reader::buffer::BufferLayout;
use audio_reader::reader::error::{MetadataField, SampleDecodeError, SampleLoadError};
use audio_reader::reader::full_reader::{SlicePolicy, SyncFullReader, DEFAULT_CHANNEL_SIZE};
use audio_reader::reader::prepare::{
    prepare_sample_reader, select_track, CodecParams, ReaderMeta, TimeBase,
};
use audio_reader::reader::{
    classify_decode_error, classify_format_error, next_packet_step, packet_matches_track,
    resolve_decode_outcome, LoopStep, PacketEvent, ReadingProjection, StreamErrorKind,
};

fn bits(values: &[f32]) -> Vec<u32> {
    values.iter().map(|v| v.to_bits()).collect()
}

fn full_params() -> CodecParams {
    CodecParams {
        channel_count: Some(2),
        delay: Some(3),
        padding: Some(5),
        sample_rate: Some(44100),
        start_ts: 7,
        time_base: Some(TimeBase { numer: 1, denom: 44100 }),
        max_frames_per_packet: Some(1152),
        n_frames: Some(44100),
    }
}

fn meta(n_samples: Option<u64>) -> ReaderMeta {
    ReaderMeta {
        layout: BufferLayout::Stereo,
        delay: 0,
        padding: 0,
        sample_rate: 44100,
        start_ts: 0,
        time_base: TimeBase { numer: 1, denom: 44100 },
        max_frames_per_packet: 0,
        n_samples,
    }
}

#[test]
fn prepare_accepts_complete_stereo_params() {
    let r = prepare_sample_reader(&full_params()).unwrap();
    assert_eq!(r.layout, BufferLayout::Stereo);
    assert_eq!(r.delay, 3);
    assert_eq!(r.padding, 5);
    assert_eq!(r.sample_rate, 44100);
    assert_eq!(r.start_ts, 7);
    assert_eq!(r.time_base, TimeBase { numer: 1, denom: 44100 });
    assert_eq!(r.max_frames_per_packet, 1152);
    assert_eq!(r.n_samples, Some(44100));
}

#[test]
fn prepare_defaults_optional_fields() {
    let params = CodecParams {
        channel_count: Some(1),
        delay: None,
        padding: None,
        n_frames: None,
        ..full_params()
    };
    let r = prepare_sample_reader(&params).unwrap();
    assert_eq!(r.layout, BufferLayout::Mono);
    assert_eq!(r.delay, 0);
    assert_eq!(r.padding, 0);
    assert_eq!(r.n_samples, None);
}

#[test]
fn prepare_rejects_missing_metadata() {
    let no_layout = CodecParams { channel_count: None, ..full_params() };
    assert_eq!(
        prepare_sample_reader(&no_layout),
        Err(SampleLoadError::MissingRequiredMetadata(MetadataField::ChannelLayout))
    );

    let no_rate = CodecParams { sample_rate: None, ..full_params() };
    assert_eq!(
        prepare_sample_reader(&no_rate),
        Err(SampleLoadError::MissingRequiredMetadata(MetadataField::SampleRate))
    );

    let no_time_base = CodecParams { time_base: None, ..full_params() };
    assert_eq!(
        prepare_sample_reader(&no_time_base),
        Err(SampleLoadError::MissingRequiredMetadata(MetadataField::TimeBase))
    );

    let no_max_frames = CodecParams { max_frames_per_packet: None, ..full_params() };
    assert_eq!(
        prepare_sample_reader(&no_max_frames),
        Err(SampleLoadError::MissingRequiredMetadata(MetadataField::MaxFramesPerPacket))
    );
}

#[test]
fn prepare_rejects_multichannel_layouts() {
    let surround = CodecParams { channel_count: Some(6), ..full_params() };
    assert_eq!(
        prepare_sample_reader(&surround),
        Err(SampleLoadError::UnsupportedChannelLayout(6))
    );
}

#[test]
fn select_track_picks_first_decodable() {
    assert_eq!(select_track(&vec![0, 0, 5, 3]), Ok(2));
    assert_eq!(select_track(&vec![7]), Ok(0));
    assert_eq!(
        select_track(&vec![0, 0]),
        Err(SampleLoadError::NoSupportedAudioTracks)
    );
    assert_eq!(
        select_track(&Vec::new()),
        Err(SampleLoadError::NoSupportedAudioTracks)
    );
}

#[test]
fn classification_of_stream_errors() {
    assert_eq!(
        classify_format_error(StreamErrorKind::IoUnexpectedEof),
        SampleDecodeError::EndReached
    );
    assert_eq!(
        classify_format_error(StreamErrorKind::IoOther),
        SampleDecodeError::SkippablePacket
    );
    assert_eq!(
        classify_format_error(StreamErrorKind::Decode),
        SampleDecodeError::LoadError(SampleLoadError::DecodeLibraryError)
    );
    assert_eq!(
        classify_format_error(StreamErrorKind::ResetRequired),
        SampleDecodeError::ResetRequired
    );
    assert_eq!(
        classify_format_error(StreamErrorKind::Other),
        SampleDecodeError::LoadError(SampleLoadError::DecodeLibraryError)
    );

    assert_eq!(
        classify_decode_error(StreamErrorKind::IoUnexpectedEof),
        SampleDecodeError::EndReached
    );
    assert_eq!(
        classify_decode_error(StreamErrorKind::Decode),
        SampleDecodeError::SkippablePacket
    );
    assert_eq!(
        classify_decode_error(StreamErrorKind::IoOther),
        SampleDecodeError::SkippablePacket
    );
    assert_eq!(
        classify_decode_error(StreamErrorKind::ResetRequired),
        SampleDecodeError::ResetRequired
    );
    assert_eq!(
        classify_decode_error(StreamErrorKind::Other),
        SampleDecodeError::LoadError(SampleLoadError::DecodeLibraryError)
    );
}

#[test]
fn resolution_of_decode_outcomes() {
    assert_eq!(
        resolve_decode_outcome(SampleDecodeError::SkippablePacket),
        LoopStep::Scan
    );
    assert_eq!(
        resolve_decode_outcome(SampleDecodeError::EndReached),
        LoopStep::Finish(ReadingProjection::EndReached)
    );
    assert_eq!(
        resolve_decode_outcome(SampleDecodeError::ResetRequired),
        LoopStep::Fatal(SampleLoadError::ResetRequired)
    );
    assert_eq!(
        resolve_decode_outcome(SampleDecodeError::LoadError(SampleLoadError::IoError)),
        LoopStep::Fatal(SampleLoadError::IoError)
    );
}

#[test]
fn track_matching() {
    assert!(packet_matches_track(3, 3));
    assert!(!packet_matches_track(3, 4));
}

#[test]
fn step_deposits_decoded_frame_and_reports_count() {
    let mut buffer = StereoBuffer::new(10);
    let mut remainder = StereoBuffer::new(10);
    let samples: Vec<f32> = (1..=20).map(|i| i as f32).collect();
    let frame = AudioFrame::new(vec![bits(&samples)]).unwrap();

    let step = next_packet_step(&mut buffer, &mut remainder, PacketEvent::Decoded(frame));

    assert_eq!(step, LoopStep::Finish(ReadingProjection::SamplesRead(20)));
    assert_eq!(buffer.cursor(), 10);
    assert_eq!(remainder.cursor(), 10);
    assert_eq!(buffer.left.buf, bits(&samples[..10]));
    assert_eq!(remainder.left.buf, bits(&samples[10..]));
}

#[test]
fn step_skips_and_classifies() {
    let mut buffer = StereoBuffer::new(4);
    let mut remainder = StereoBuffer::_0();

    let step = next_packet_step(&mut buffer, &mut remainder, PacketEvent::OtherTrack);
    assert_eq!(step, LoopStep::Scan);
    assert_eq!(buffer.cursor(), 0);

    let step = next_packet_step(
        &mut buffer,
        &mut remainder,
        PacketEvent::FormatError(StreamErrorKind::IoUnexpectedEof),
    );
    assert_eq!(step, LoopStep::Finish(ReadingProjection::EndReached));

    let step = next_packet_step(
        &mut buffer,
        &mut remainder,
        PacketEvent::DecodeFailed(StreamErrorKind::Decode),
    );
    assert_eq!(step, LoopStep::Scan);

    let step = next_packet_step(
        &mut buffer,
        &mut remainder,
        PacketEvent::DecodeFailed(StreamErrorKind::ResetRequired),
    );
    assert_eq!(step, LoopStep::Fatal(SampleLoadError::ResetRequired));

    let step = next_packet_step(
        &mut buffer,
        &mut remainder,
        PacketEvent::FormatError(StreamErrorKind::Other),
    );
    assert_eq!(step, LoopStep::Fatal(SampleLoadError::DecodeLibraryError));
}

#[test]
fn full_reader_sizes_to_known_sample_count() {
    let reader = SyncFullReader::new(1024, &meta(Some(4096)), SlicePolicy::Fail);
    assert_eq!(reader.buffer.channel_capacity(), 4096);
    assert_eq!(reader.read_cursor(), 0);
    assert_eq!(reader.host_buffer_len(), 1024);
}

#[test]
fn full_reader_sizes_heuristically_when_unknown() {
    let reader = SyncFullReader::new(1024, &meta(None), SlicePolicy::Fail);
    assert_eq!(reader.buffer.channel_capacity(), DEFAULT_CHANNEL_SIZE as usize);
    assert_eq!(DEFAULT_CHANNEL_SIZE, 131072);
}

#[test]
fn growth_doubles_when_largest_packet_no_longer_fits() {
    let mut reader = SyncFullReader::new(4, &meta(None), SlicePolicy::Fail);
    // Shrink to a small test size first.
    reader.buffer = StereoBuffer::new(16);

    reader.on_samples_read(5);
    assert_eq!(reader.samples_per_packet(), 5);
    assert_eq!(reader.buffer.channel_capacity(), 16);

    let frame = AudioFrame::new(vec![bits(&[1.0; 12])]).unwrap();
    let mut none = StereoBuffer::_0();
    reader.buffer.append_audio_buffer(&frame, &mut none);

    // 12 written, 4 left, largest packet 12: the container doubles.
    reader.on_samples_read(12);
    assert_eq!(reader.samples_per_packet(), 12);
    assert_eq!(reader.buffer.channel_capacity(), 32);
    assert_eq!(reader.buffer.cursor(), 12);
}

#[test]
fn growth_is_skipped_when_sample_count_is_known() {
    let mut reader = SyncFullReader::new(4, &meta(Some(16)), SlicePolicy::Fail);
    reader.on_samples_read(1000);
    assert_eq!(reader.buffer.channel_capacity(), 16);
    assert_eq!(reader.samples_per_packet(), 0);
}

#[test]
fn finalize_trims_aligns_and_pads() {
    let mut reader = SyncFullReader::new(8, &meta(None), SlicePolicy::Fail);
    reader.buffer = StereoBuffer::new(64);
    let frame = AudioFrame::new(vec![bits(&[2.5; 21])]).unwrap();
    let mut none = StereoBuffer::_0();
    reader.buffer.append_audio_buffer(&frame, &mut none);

    reader.finalize();

    assert_eq!(reader.buffer.channel_capacity(), 24);
    assert_eq!(reader.buffer.channel_capacity() % 8, 0);
    assert_eq!(reader.buffer.cursor(), 24);
    assert_eq!(reader.buffer.capacity_left(), 0);
    assert!(reader.buffer.left.buf[21..].iter().all(|&x| f32::from_bits(x) == 0f32));
    assert_eq!(reader.buffer.left.buf[20], 2.5f32.to_bits());
}

#[test]
fn next_slice_walks_the_buffer_and_wraps() {
    let mut reader = SyncFullReader::new(4, &meta(Some(8)), SlicePolicy::Wrap);
    let frame = AudioFrame::new(vec![bits(&[1.0, 2.0, 3.0, 4.0, 5.0, 6.0, 7.0, 8.0])]).unwrap();
    let mut none = StereoBuffer::_0();
    reader.buffer.append_audio_buffer(&frame, &mut none);
    reader.finalize();

    let first: Vec<u32> = reader.next_slice().unwrap().0.to_vec();
    assert_eq!(first, bits(&[1.0, 2.0, 3.0, 4.0]));
    let second: Vec<u32> = reader.next_slice().unwrap().0.to_vec();
    assert_eq!(second, bits(&[5.0, 6.0, 7.0, 8.0]));
    // Past the end: round robin back to the start.
    let third: Vec<u32> = reader.next_slice().unwrap().0.to_vec();
    assert_eq!(third, bits(&[1.0, 2.0, 3.0, 4.0]));
    assert_eq!(reader.read_cursor(), 4);
}

#[test]
fn next_slice_fails_past_the_end_when_configured() {
    let mut reader = SyncFullReader::new(4, &meta(Some(4)), SlicePolicy::Fail);
    let frame = AudioFrame::new(vec![bits(&[1.0, 2.0, 3.0, 4.0])]).unwrap();
    let mut none = StereoBuffer::_0();
    reader.buffer.append_audio_buffer(&frame, &mut none);
    reader.finalize();

    assert!(reader.next_slice().is_ok());
    assert_eq!(
        reader.next_slice().map(|_| ()),
        Err(SampleLoadError::UnexpectedState)
    );
}
