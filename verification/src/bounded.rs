use vstd::prelude::*;

verus! {

/// Size ceilings supplied per upload request: one for the raw body as
/// received, one for the decompressed contents of the archive.
#[derive(Clone, Copy, Debug)]
pub struct SizeLimits {
    pub max_raw_bytes: u64,
    pub max_decompressed_bytes: u64,
}

/// Running byte budget for one bounded stream.
///
/// Every chunk that passes through the stream is charged against the
/// configured limit; the first chunk that would push the cumulative count
/// past the limit fails, and the budget is then exhausted for good: no
/// later call can succeed.
pub struct BoundedReader {
    pub limit: u64,
    pub count: u64,
    pub exhausted: bool,
}

impl BoundedReader {
    /// The count never passes the limit.
    pub open spec fn wf(&self) -> bool {
        self.count <= self.limit
    }

    pub fn new(limit: u64) -> (r: BoundedReader)
        ensures
            r.wf(),
            r.limit == limit,
            r.count == 0,
            !r.exhausted,
    {
        BoundedReader { limit, count: 0, exhausted: false }
    }

    /// Charge `n` bytes against the budget.  Succeeds exactly when the
    /// budget was still live and the new cumulative count stays within the
    /// limit; otherwise the budget becomes (or stays) exhausted and the
    /// count is left unchanged.
    pub fn try_consume(&mut self, n: u64) -> (r: Result<(), ()>)
        requires
            old(self).wf(),
        ensures
            final(self).wf(),
            final(self).limit == old(self).limit,
            r is Ok <==> (!old(self).exhausted && old(self).count + n <= old(self).limit),
            r is Ok ==> final(self).count == old(self).count + n && !final(self).exhausted,
            r is Err ==> final(self).count == old(self).count && final(self).exhausted,
    {
        if self.exhausted {
            return Err(());
        }
        if n > self.limit - self.count {
            self.exhausted = true;
            return Err(());
        }
        self.count = self.count + n;
        Ok(())
    }
}

/// The bytes of a chunked stream, in order.
pub open spec fn concat_of(chunks: Seq<Seq<u8>>) -> Seq<u8>
    decreases chunks.len(),
{
    if chunks.len() == 0 {
        Seq::empty()
    } else {
        concat_of(chunks.drop_last()) + chunks.last()
    }
}

/// A prefix of a chunked stream never holds more bytes than the whole.
pub proof fn lemma_concat_take_len(chunks: Seq<Seq<u8>>, i: int)
    requires
        0 <= i <= chunks.len(),
    ensures
        concat_of(chunks.take(i)).len() <= concat_of(chunks).len(),
    decreases chunks.len(),
{
    if chunks.len() == 0 {
    } else if i == chunks.len() {
        assert(chunks.take(i) =~= chunks);
    } else {
        assert(chunks.drop_last().take(i) =~= chunks.take(i));
        lemma_concat_take_len(chunks.drop_last(), i);
    }
}

/// Gather a chunked byte stream into one buffer, charging every chunk
/// against `limit`: the stream is accepted exactly when its total byte
/// count stays within the limit, and rejected with the raw-body ceiling
/// the moment the running count would pass it.
pub fn collect_bounded(chunks: &Vec<Vec<u8>>, limit: u64) -> (r: Result<Vec<u8>, crate::errors::UploadError>)
    ensures
        concat_of(chunks.deep_view()).len() <= limit ==> (r matches Ok(b)
            && b@ == concat_of(chunks.deep_view())),
        concat_of(chunks.deep_view()).len() > limit ==> r == Err::<Vec<u8>, crate::errors::UploadError>(
            crate::errors::UploadError::SizeExceeded(crate::errors::SizeKind::RawBody),
        ),
        r matches Ok(b) ==> b@ == concat_of(chunks.deep_view()) && b@.len() <= limit,
{
    let ghost all = chunks.deep_view();
    let mut budget = BoundedReader::new(limit);
    let mut body: Vec<u8> = Vec::new();
    let n = chunks.len();
    let mut i: usize = 0;
    while i < n
        invariant
            0 <= i <= n,
            n == chunks.len(),
            all == chunks.deep_view(),
            budget.wf(),
            budget.limit == limit,
            !budget.exhausted,
            body@ == concat_of(all.take(i as int)),
            budget.count == body@.len(),
        decreases n - i,
    {
        proof {
            assert(all.take(i + 1).drop_last() =~= all.take(i as int));
            assert(all.take(i + 1).last() == chunks[i as int]@);
        }
        let chunk = &chunks[i];
        match budget.try_consume(chunk.len() as u64) {
            Ok(()) => {},
            Err(()) => {
                proof {
                    lemma_concat_take_len(all, i + 1);
                }
                return Err(
                    crate::errors::UploadError::SizeExceeded(crate::errors::SizeKind::RawBody),
                );
            },
        }
        body.extend_from_slice(chunk.as_slice());
        i = i + 1;
    }
    proof {
        assert(all.take(n as int) =~= all);
    }
    Ok(body)
}

} // verus!
