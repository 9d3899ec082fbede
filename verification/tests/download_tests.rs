use sarcast::download::{DownloadBuffer, DownloadError};

#[test]
fn accumulation_preserves_every_byte_in_order() {
    let mut buffer = DownloadBuffer::new(11);
    buffer.append_chunk(b"hello".to_vec());
    buffer.append_chunk(b" ".to_vec());
    buffer.append_chunk(b"world".to_vec());
    assert_eq!(buffer.accumulated_len(), 11);
    assert_eq!(&buffer.snapshot()[..], b"hello world");
    assert_eq!(buffer.total_size(), 11);
}

#[test]
fn snapshot_then_live_round_trips_the_content() {
    // A resource of known content arrives in four chunks. A late subscriber
    // copies the snapshot after two chunks, then follows the remaining live
    // chunks: what it writes is byte-identical to the whole resource.
    let content: Vec<u8> = b"abcdefghijklmnopqrstuvwxyz".to_vec();
    let chunks: Vec<&[u8]> = vec![b"abcdefg", b"hijk", b"lmnopqrs", b"tuvwxyz"];

    let mut buffer = DownloadBuffer::new(content.len() as u64);
    buffer.append_chunk(chunks[0].to_vec());
    buffer.append_chunk(chunks[1].to_vec());

    // The late subscriber starts here: snapshot first, live continuation after.
    let mut written: Vec<u8> = buffer.snapshot();
    for chunk in &chunks[2..] {
        buffer.append_chunk(chunk.to_vec());
        written.extend_from_slice(chunk);
    }

    assert_eq!(written, content);
    assert_eq!(buffer.check_complete(written.len() as u64), Ok(()));
}

#[test]
fn short_download_is_reported_not_swallowed() {
    // The source declares 100 bytes but closes after 60: persistence must
    // surface the short download as an error.
    let mut buffer = DownloadBuffer::new(100);
    buffer.append_chunk(vec![7u8; 60]);
    let written = buffer.accumulated_len() as u64;
    assert_eq!(buffer.check_complete(written), Err(DownloadError::ShortDownload));
}

#[test]
fn complete_download_passes_the_check() {
    let buffer = DownloadBuffer::new(8);
    assert_eq!(buffer.check_complete(8), Ok(()));
    assert_eq!(buffer.check_complete(9), Ok(()));
    assert_eq!(buffer.check_complete(7), Err(DownloadError::ShortDownload));
}
