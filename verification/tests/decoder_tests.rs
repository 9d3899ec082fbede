use sarcast::decoder::{
    bump_decode_errors, run_retry, AudioDecoder, DecoderError, PacketOutcome, RetryResult,
    MAX_DECODE_ERRORS,
};
use sarcast::{PlaybackInstructions, ReceivedData};

#[test]
fn retry_budget_steps() {
    assert_eq!(bump_decode_errors(0), Some(1));
    assert_eq!(bump_decode_errors(1), Some(2));
    assert_eq!(bump_decode_errors(2), Some(3));
    assert_eq!(bump_decode_errors(MAX_DECODE_ERRORS), None);
}

#[test]
fn three_malformed_packets_then_a_valid_one_is_accepted() {
    let outcomes = vec![
        PacketOutcome::Malformed,
        PacketOutcome::Malformed,
        PacketOutcome::Malformed,
        PacketOutcome::Decoded,
    ];
    assert_eq!(run_retry(&outcomes), RetryResult::Accepted(3));
}

#[test]
fn four_malformed_packets_exhaust_the_budget() {
    let outcomes = vec![
        PacketOutcome::Malformed,
        PacketOutcome::Malformed,
        PacketOutcome::Malformed,
        PacketOutcome::Malformed,
        PacketOutcome::Decoded,
    ];
    assert_eq!(run_retry(&outcomes), RetryResult::GaveUp(3));
}

#[test]
fn non_decode_failure_is_fatal_at_once() {
    let outcomes = vec![
        PacketOutcome::Malformed,
        PacketOutcome::Failed,
        PacketOutcome::Decoded,
    ];
    assert_eq!(run_retry(&outcomes), RetryResult::Stopped(1));
}

#[test]
fn running_out_of_packets_starves_the_policy() {
    let outcomes = vec![PacketOutcome::Malformed, PacketOutcome::Malformed];
    assert_eq!(run_retry(&outcomes), RetryResult::Starved);
}

#[test]
fn first_packet_accepted_immediately() {
    let outcomes = vec![PacketOutcome::Decoded, PacketOutcome::Failed];
    assert_eq!(run_retry(&outcomes), RetryResult::Accepted(0));
}

/// A minimal mono 16-bit PCM wave file holding the given samples.
fn wav_bytes(samples: &[i16]) -> Vec<u8> {
    let data_len = (samples.len() * 2) as u32;
    let mut out: Vec<u8> = Vec::new();
    out.extend_from_slice(b"RIFF");
    out.extend_from_slice(&(36 + data_len).to_le_bytes());
    out.extend_from_slice(b"WAVE");
    out.extend_from_slice(b"fmt ");
    out.extend_from_slice(&16u32.to_le_bytes());
    out.extend_from_slice(&1u16.to_le_bytes()); // PCM
    out.extend_from_slice(&1u16.to_le_bytes()); // mono
    out.extend_from_slice(&44100u32.to_le_bytes());
    out.extend_from_slice(&88200u32.to_le_bytes());
    out.extend_from_slice(&2u16.to_le_bytes());
    out.extend_from_slice(&16u16.to_le_bytes());
    out.extend_from_slice(b"data");
    out.extend_from_slice(&data_len.to_le_bytes());
    for s in samples {
        out.extend_from_slice(&s.to_le_bytes());
    }
    out
}

#[test]
fn decoder_yields_the_stream_samples_in_order() {
    let samples: Vec<i16> = vec![100, -100, 200, -200, 300, -300, 400, -400];
    let wav = wav_bytes(&samples);
    let (event_tx, mut event_rx) = tokio::sync::mpsc::channel(1000);
    let (_seek_tx, seek_rx) = std::sync::mpsc::channel();
    let mss = symphonia::core::io::MediaSourceStream::new(
        Box::new(std::io::Cursor::new(wav)),
        Default::default(),
    );
    let mut decoder = AudioDecoder::new(mss, event_tx, seek_rx).expect("wave stream must decode");
    assert_eq!(decoder.channels(), 1);
    assert_eq!(decoder.sample_rate(), 44100);
    assert_eq!(decoder.current_frame_len(), samples.len());
    for expected in &samples {
        assert_eq!(decoder.next_sample(), Some(*expected));
    }
    // The stream is exhausted: no further packet can be decoded.
    assert_eq!(decoder.next_sample(), None);
    // A plain wave stream carries no metadata revision, and the one packet was
    // decoded during initialization, so no event was offered.
    assert!(event_rx.try_recv().is_err());
}

#[test]
fn metadata_is_delivered_before_the_first_sample() {
    // A stream that opens with a metadata tag: the decoder must hand the
    // metadata event over before it yields any sample, so it is the first
    // thing a listening consumer observes.
    let samples: Vec<i16> = vec![10, 20, 30, 40];
    let mut stream_bytes: Vec<u8> = Vec::new();
    // A minimal metadata tag holding only padding.
    stream_bytes.extend_from_slice(b"ID3");
    stream_bytes.extend_from_slice(&[0x04, 0x00, 0x00]);
    stream_bytes.extend_from_slice(&[0x00, 0x00, 0x00, 0x0A]);
    stream_bytes.extend_from_slice(&[0u8; 10]);
    stream_bytes.extend_from_slice(&wav_bytes(&samples));

    let (event_tx, mut event_rx) = tokio::sync::mpsc::channel(1000);
    let (_seek_tx, seek_rx) = std::sync::mpsc::channel();
    let mss = symphonia::core::io::MediaSourceStream::new(
        Box::new(std::io::Cursor::new(stream_bytes)),
        Default::default(),
    );
    let mut decoder =
        AudioDecoder::new(mss, event_tx, seek_rx).expect("tagged wave stream must decode");
    // The metadata event is already waiting before any sample is pulled.
    let first_event = event_rx.try_recv().expect("a metadata event must be waiting");
    assert!(matches!(first_event, sarcast::ReceivedData::NewMetadata(_)));
    assert_eq!(decoder.next_sample(), Some(10));
}

#[test]
fn decoder_rejects_garbage_input() {
    let garbage = vec![0x55u8; 64];
    let (event_tx, _event_rx) = tokio::sync::mpsc::channel(1000);
    let (_seek_tx, seek_rx) = std::sync::mpsc::channel();
    let mss = symphonia::core::io::MediaSourceStream::new(
        Box::new(std::io::Cursor::new(garbage)),
        Default::default(),
    );
    let rejected = AudioDecoder::new(mss, event_tx, seek_rx);
    assert!(matches!(rejected, Err(DecoderError::UnsupportedFormat)));
}

#[test]
fn pending_seek_is_honoured_at_the_buffer_boundary() {
    // Consume the whole first buffer, queue a seek back to the start on the
    // side channel, and pull once more: the decoder observes the pending seek
    // at the boundary, repositions the demuxer, and decoding continues from
    // the start instead of ending.
    let samples: Vec<i16> = vec![11, 22, 33, 44];
    let wav = wav_bytes(&samples);
    let (event_tx, mut event_rx) = tokio::sync::mpsc::channel(1000);
    let (seek_tx, seek_rx) = std::sync::mpsc::channel();
    let mss = symphonia::core::io::MediaSourceStream::new(
        Box::new(std::io::Cursor::new(wav)),
        Default::default(),
    );
    let mut decoder = AudioDecoder::new(mss, event_tx, seek_rx).expect("wave stream must decode");
    for expected in &samples {
        assert_eq!(decoder.next_sample(), Some(*expected));
    }
    seek_tx.send(PlaybackInstructions::Seek(0)).unwrap();
    assert_eq!(decoder.next_sample(), Some(samples[0]));
    // The refill offered the fresh packet's timestamp to the telemetry
    // channel without blocking.
    let event = event_rx.try_recv().expect("a timestamp event must be waiting");
    assert!(matches!(event, ReceivedData::NewTimestamp(_)));
}
