use sarcast::byte_source::{BytesWrapper, ReadError, SeekError, SeekFrom};

fn source_with_chunks(chunks: &[&[u8]]) -> BytesWrapper {
    let (tx, rx) = tokio::sync::mpsc::channel::<bytes::Bytes>(64);
    for chunk in chunks {
        tx.blocking_send(bytes::Bytes::copy_from_slice(chunk)).unwrap();
    }
    drop(tx);
    BytesWrapper::new(rx)
}

#[test]
fn fresh_source_starts_empty() {
    let source = source_with_chunks(&[]);
    assert_eq!(source.current_position(), 0);
    assert_eq!(source.accumulated_len(), 0);
    assert!(source.is_seekable());
    assert_eq!(source.byte_len(), None);
}

#[test]
fn read_returns_exact_bytes_across_chunks() {
    let mut source = source_with_chunks(&[b"RIFF....", b"....data"]);
    let first = source.read(4).unwrap();
    assert_eq!(&first[..], b"RIFF");
    assert_eq!(source.current_position(), 4);
    let rest = source.read(12).unwrap();
    assert_eq!(&rest[..], b"........data");
    assert_eq!(source.current_position(), 16);
    assert_eq!(source.accumulated_len(), 16);
}

#[test]
fn scenario_read_near_live_edge() {
    // Two chunks of 8 bytes each, 16 in all, then the mailbox closes.
    let mut source = source_with_chunks(&[b"RIFF....", b"....data"]);
    // Read 4 bytes at offset 0: exactly the first 4 bytes of chunk one.
    let head = source.read(4).unwrap();
    assert_eq!(&head[..], b"RIFF");
    // Move to offset 14 and ask for 4 bytes: that would reach offset 18, past
    // the 16 bytes that will ever arrive, so the read fails by the end-of-data
    // rule instead of blocking forever or truncating silently.
    assert_eq!(source.seek(SeekFrom::Current(10)), Ok(14));
    assert_eq!(source.read(4), Err(ReadError::EndOfData));
    // The cursor stays at 14; the two bytes that do exist there are readable.
    assert_eq!(source.current_position(), 14);
    let tail = source.read(2).unwrap();
    assert_eq!(&tail[..], b"ta");
}

#[test]
fn read_past_end_after_close_fails() {
    let mut source = source_with_chunks(&[b"abc"]);
    let all = source.read(3).unwrap();
    assert_eq!(&all[..], b"abc");
    assert_eq!(source.read(1), Err(ReadError::EndOfData));
    assert_eq!(source.current_position(), 3);
}

#[test]
fn seek_from_start_clamps_to_accumulated_length() {
    let mut source = source_with_chunks(&[b"RIFF....", b"....data"]);
    // Pull everything in so 16 bytes have accumulated.
    let _ = source.read(16).unwrap();
    // A seek from the start past the accumulated length lands exactly on the
    // accumulated length, never out of range.
    assert_eq!(source.seek(SeekFrom::Start(100)), Ok(16));
    assert_eq!(source.current_position(), 16);
    assert_eq!(source.seek(SeekFrom::Start(5)), Ok(5));
    assert_eq!(source.current_position(), 5);
}

#[test]
fn seek_from_end_and_current_respect_bounds() {
    let mut source = source_with_chunks(&[b"0123456789"]);
    let _ = source.read(10).unwrap();
    assert_eq!(source.seek(SeekFrom::End(-4)), Ok(6));
    assert_eq!(source.seek(SeekFrom::Current(-6)), Ok(0));
    // Moving further back than the data reaches is unsupported, not wrapped.
    assert_eq!(source.seek(SeekFrom::End(-11)), Err(SeekError::Unsupported));
    assert_eq!(source.seek(SeekFrom::Current(-1)), Err(SeekError::Unsupported));
    // The failed seeks left the cursor in place.
    assert_eq!(source.current_position(), 0);
}

#[test]
fn read_within_accumulated_does_not_touch_mailbox() {
    let (tx, rx) = tokio::sync::mpsc::channel::<bytes::Bytes>(4);
    tx.blocking_send(bytes::Bytes::copy_from_slice(b"hello world")).unwrap();
    let mut source = BytesWrapper::new(rx);
    let hello = source.read(5).unwrap();
    assert_eq!(&hello[..], b"hello");
    // The sender is still open: a read inside the accumulated range succeeds
    // without waiting for anything more to arrive.
    assert_eq!(source.seek(SeekFrom::Start(0)), Ok(0));
    let again = source.read(5).unwrap();
    assert_eq!(&again[..], b"hello");
    drop(tx);
}
