use vstd::prelude::*;

use crate::bounded::BoundedReader;
use crate::errors::ArchiveViolation;
use crate::errors::SizeKind;
use crate::errors::UploadError;

verus! {

/// What a byte sequence decompresses to: `Some` of the decompressed bytes
/// when `raw` is a well-formed gzip stream, `None` otherwise.  The result
/// depends on the bytes alone.
pub uninterp spec fn gunzip_of(raw: Seq<u8>) -> Option<Seq<u8>>;

/// An in-memory gzip decompression stream over a buffered raw body.
/// Decompressed bytes are handed out chunk by chunk, in a single forward
/// pass with no seeking.
#[verifier::external_body]
pub struct GzipStream {
    inner: flate2::read::GzDecoder<std::io::Cursor<Vec<u8>>>,
}

/// The raw bytes the stream was opened over.
pub uninterp spec fn gz_source(s: GzipStream) -> Seq<u8>;

/// How many decompressed bytes the stream has handed out so far.
pub uninterp spec fn gz_delivered(s: GzipStream) -> int;

/// Whether the stream has already reported an error.  After that the
/// stream is spent and nothing more is promised of it.
pub uninterp spec fn gz_failed(s: GzipStream) -> bool;

/// Relies on flate2::read::GzDecoder::new: building the decoder wraps the
/// raw bytes, hands out no decompressed byte yet, and reports no error.
#[verifier::external_body]
pub(crate) fn gz_open(raw: &Vec<u8>) -> (s: GzipStream)
    ensures
        gz_source(s) == raw@,
        gz_delivered(s) == 0,
        !gz_failed(s),
{
    GzipStream { inner: flate2::read::GzDecoder::new(std::io::Cursor::new(raw.clone())) }
}

/// Relies on the std::io::Read impl of flate2::read::GzDecoder: over a
/// well-formed gzip stream it hands out the decompressed bytes in order,
/// returns an empty chunk exactly at end-of-stream, and never fails; over
/// a malformed stream it fails, or hands out bytes that no contract here
/// constrains, but while it has not yet failed it never reports a clean
/// empty-chunk end: a truncated, corrupt, or checksum-mismatched stream
/// yields an error first.  A stream that has failed once is spent, and
/// nothing is promised of later reads but the book-keeping.
#[verifier::external_body]
pub(crate) fn gz_read_chunk(s: &mut GzipStream) -> (r: Result<Vec<u8>, ()>)
    ensures
        gz_source(*final(s)) == gz_source(*old(s)),
        r matches Ok(c) ==> gz_delivered(*final(s)) == gz_delivered(*old(s)) + c@.len(),
        r matches Ok(c) ==> gz_failed(*final(s)) == gz_failed(*old(s)),
        r is Err ==> gz_failed(*final(s)),
        (!gz_failed(*old(s)) && gunzip_of(gz_source(*old(s))) is None) ==> !(r matches Ok(c)
            && c@.len() == 0),
        (match gunzip_of(gz_source(*old(s))) {
            Some(d) => ((!gz_failed(*old(s)) && 0 <= gz_delivered(*old(s)) <= d.len()) ==> {
                &&& r is Ok
                &&& gz_delivered(*final(s)) <= d.len()
                &&& (r matches Ok(c) ==> c@ == d.subrange(
                    gz_delivered(*old(s)),
                    gz_delivered(*old(s)) + c@.len(),
                ))
                &&& (r matches Ok(c) ==> ((c@.len() == 0) <==> gz_delivered(*old(s)) == d.len()))
            }),
            None => true,
        }),
{
    let mut buf = vec![0u8; 8192];
    match std::io::Read::read(&mut s.inner, &mut buf) {
        Ok(n) => {
            buf.truncate(n);
            Ok(buf)
        },
        Err(_) => Err(()),
    }
}

/// Decompress a gzip stream while holding its output to `limit` bytes.
/// A well-formed stream within the limit is returned whole; one whose
/// output would pass the limit is rejected with the decompressed-size
/// ceiling, without ever buffering more than the limit; a malformed
/// stream is always rejected.
pub fn gunzip_bounded(raw: &Vec<u8>, limit: u64) -> (r: Result<Vec<u8>, UploadError>)
    ensures
        (match gunzip_of(raw@) {
            Some(d) => {
                &&& (d.len() <= limit ==> (r matches Ok(b) && b@ == d))
                &&& (d.len() > limit ==> r == Err::<Vec<u8>, UploadError>(
                    UploadError::SizeExceeded(SizeKind::Decompressed),
                ))
            },
            None => r is Err,
        }),
        r matches Ok(b) ==> b@.len() <= limit,
        r matches Err(e) ==> (e == UploadError::SizeExceeded(SizeKind::Decompressed) || e
            == UploadError::InvalidArchive(ArchiveViolation::Malformed)),
{
    let mut stream = gz_open(raw);
    let mut budget = BoundedReader::new(limit);
    let mut out: Vec<u8> = Vec::new();
    loop
        invariant
            budget.wf(),
            budget.limit == limit,
            !budget.exhausted,
            gz_source(stream) == raw@,
            !gz_failed(stream),
            gz_delivered(stream) == out@.len(),
            budget.count == out@.len(),
            (match gunzip_of(raw@) {
                Some(d) => out@.len() <= d.len() && out@ == d.subrange(0, out@.len() as int),
                None => true,
            }),
        decreases limit - budget.count,
    {
        let mut chunk = match gz_read_chunk(&mut stream) {
            Ok(c) => c,
            Err(()) => {
                return Err(UploadError::InvalidArchive(ArchiveViolation::Malformed));
            },
        };
        if chunk.len() == 0 {
            proof {
                if let Some(d) = gunzip_of(raw@) {
                    assert(out@ =~= d);
                }
            }
            return Ok(out);
        }
        match budget.try_consume(chunk.len() as u64) {
            Ok(()) => {},
            Err(()) => {
                return Err(UploadError::SizeExceeded(SizeKind::Decompressed));
            },
        }
        proof {
            if let Some(d) = gunzip_of(raw@) {
                assert(out@ + chunk@ =~= d.subrange(0, out@.len() + chunk@.len() as int));
            }
        }
        out.append(&mut chunk);
    }
}

} // verus!
