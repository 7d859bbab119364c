use std::io::Write;

use uploader::collect_bounded;
use uploader::gunzip_bounded;
use uploader::BoundedReader;
use uploader::SizeKind;
use uploader::UploadError;

fn gzip(data: &[u8]) -> Vec<u8> {
    let mut enc = flate2::write::GzEncoder::new(Vec::new(), flate2::Compression::default());
    enc.write_all(data).unwrap();
    enc.finish().unwrap()
}

#[test]
fn budget_allows_up_to_the_limit() {
    let mut budget = BoundedReader::new(10);
    assert_eq!(budget.try_consume(7), Ok(()));
    assert_eq!(budget.try_consume(3), Ok(()));
    assert_eq!(budget.count, 10);
}

#[test]
fn budget_fails_the_first_byte_past_the_limit_and_stays_failed() {
    let mut budget = BoundedReader::new(10);
    assert_eq!(budget.try_consume(10), Ok(()));
    assert_eq!(budget.try_consume(1), Err(()));
    // Exhaustion is terminal: even a zero-byte charge fails afterwards.
    assert_eq!(budget.try_consume(0), Err(()));
    assert_eq!(budget.count, 10);
}

#[test]
fn collect_bounded_gathers_chunks_in_order() {
    let chunks = vec![b"abc".to_vec(), b"".to_vec(), b"defg".to_vec()];
    assert_eq!(collect_bounded(&chunks, 7), Ok(b"abcdefg".to_vec()));
    assert_eq!(collect_bounded(&chunks, 6), Err(UploadError::SizeExceeded(SizeKind::RawBody)));
}

#[test]
fn gunzip_bounded_restores_the_original_bytes() {
    let raw = gzip(b"hello bounded world");
    assert_eq!(gunzip_bounded(&raw, 1 << 16), Ok(b"hello bounded world".to_vec()));
}

#[test]
fn gunzip_bounded_enforces_the_output_ceiling() {
    let payload = vec![b'z'; 100_000];
    let raw = gzip(&payload);
    assert!((raw.len() as u64) < 10_000);
    assert_eq!(gunzip_bounded(&raw, 10_000), Err(UploadError::SizeExceeded(SizeKind::Decompressed)));
    assert_eq!(gunzip_bounded(&raw, 100_000), Ok(payload));
}
