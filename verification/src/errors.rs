use vstd::prelude::*;

verus! {

/// Which ceiling a stream passed.
#[derive(Clone, Copy, Debug, PartialEq, Eq, Structural)]
pub enum SizeKind {
    /// The raw body as received passed its ceiling.
    RawBody,
    /// The decompressed contents of the archive passed their ceiling.
    Decompressed,
}

/// The rule an archive broke, kept for internal logging; callers are shown
/// one broad "invalid upload" class so that the exact rule is not disclosed.
#[derive(Clone, Copy, Debug, PartialEq, Eq, Structural)]
pub enum ArchiveViolation {
    /// The compressed or container stream could not be read to its end.
    Malformed,
    /// An entry path does not start with the required `{name}-{version}/` prefix.
    PathOutsidePrefix,
    /// An entry is a hard link or a symbolic link.
    DisallowedLink,
}

/// Why an upload was rejected or failed.
#[derive(Clone, Copy, Debug, PartialEq, Eq, Structural)]
pub enum UploadError {
    /// The raw body or the decompressed contents passed a configured ceiling.
    SizeExceeded(SizeKind),
    /// The archive is malformed or structurally unsafe to extract.
    InvalidArchive(ArchiveViolation),
    /// The storage backend failed after validation had already passed.
    BackendFailure,
}

impl UploadError {
    /// The message reported to the uploader.  Structural violations share a
    /// deliberately generic wording, and a decompressed stream that passed
    /// its ceiling is folded into the same wording as a malformed one.
    pub fn message(&self) -> (r: &'static str)
        ensures
            *self == UploadError::SizeExceeded(SizeKind::RawBody) ==> r@
                == "maximum upload size exceeded"@,
            *self == UploadError::SizeExceeded(SizeKind::Decompressed) ==> r@
                == "uploaded tarball is malformed or too large when decompressed"@,
            (*self matches UploadError::InvalidArchive(v) && v == ArchiveViolation::Malformed)
                ==> r@ == "uploaded tarball is malformed or too large when decompressed"@,
            (*self matches UploadError::InvalidArchive(v) && v != ArchiveViolation::Malformed)
                ==> r@ == "invalid tarball uploaded"@,
            *self == UploadError::BackendFailure ==> r@ == "failed to upload crate"@,
    {
        match self {
            UploadError::SizeExceeded(SizeKind::RawBody) => "maximum upload size exceeded",
            UploadError::SizeExceeded(SizeKind::Decompressed) => {
                "uploaded tarball is malformed or too large when decompressed"
            },
            UploadError::InvalidArchive(ArchiveViolation::Malformed) => {
                "uploaded tarball is malformed or too large when decompressed"
            },
            UploadError::InvalidArchive(_) => "invalid tarball uploaded",
            UploadError::BackendFailure => "failed to upload crate",
        }
    }
}

} // verus!
