use vstd::prelude::*;
use vstd::string::StringSliceAdditionalSpecFns;

use crate::errors::ArchiveViolation;
use crate::errors::SizeKind;
use crate::errors::UploadError;
use crate::gzip::gunzip_bounded;
use crate::gzip::gunzip_of;

verus! {

/// The type of one archive entry, read off its tar typeflag byte.
#[derive(Clone, Copy, Debug, PartialEq, Eq, Structural)]
pub enum EntryKind {
    Regular,
    Directory,
    HardLink,
    SymLink,
    Other,
}

/// The entry type that a tar typeflag byte stands for: `b'0'` a regular
/// file, `b'5'` a directory, `b'1'` a hard link, `b'2'` a symbolic link.
pub open spec fn kind_of_flag(flag: u8) -> EntryKind {
    if flag == 48 {
        EntryKind::Regular
    } else if flag == 53 {
        EntryKind::Directory
    } else if flag == 49 {
        EntryKind::HardLink
    } else if flag == 50 {
        EntryKind::SymLink
    } else {
        EntryKind::Other
    }
}

/// One entry's structural metadata: its path bytes and its tar typeflag
/// byte.  Entry contents are never materialized.
pub struct ArchiveEntry {
    pub path: Vec<u8>,
    pub typeflag: u8,
}

/// The mathematical model of one archive entry.
pub struct ArchiveEntryModel {
    pub path: Seq<u8>,
    pub typeflag: u8,
}

impl View for ArchiveEntry {
    type V = ArchiveEntryModel;

    open spec fn view(&self) -> ArchiveEntryModel {
        ArchiveEntryModel { path: self.path@, typeflag: self.typeflag }
    }
}

impl ArchiveEntry {
    /// The kind of this entry.
    pub fn kind(&self) -> (k: EntryKind)
        ensures
            k == kind_of_flag(self.typeflag),
    {
        if self.typeflag == 48 {
            EntryKind::Regular
        } else if self.typeflag == 53 {
            EntryKind::Directory
        } else if self.typeflag == 49 {
            EntryKind::HardLink
        } else if self.typeflag == 50 {
            EntryKind::SymLink
        } else {
            EntryKind::Other
        }
    }
}

/// The entry metadata listed by one forward pass over a tar container:
/// the entries read in order, and whether the pass reached end-of-stream
/// without a container error.
pub struct TarListing {
    pub entries: Vec<ArchiveEntry>,
    pub complete: bool,
}

/// The mathematical model of a listing pass.
pub struct TarListingModel {
    pub entries: Seq<ArchiveEntryModel>,
    pub complete: bool,
}

impl View for TarListing {
    type V = TarListingModel;

    open spec fn view(&self) -> TarListingModel {
        TarListingModel {
            entries: self.entries@.map_values(|e: ArchiveEntry| e@),
            complete: self.complete,
        }
    }
}

/// What one forward listing pass over a byte sequence yields.  The result
/// depends on the bytes alone.
pub uninterp spec fn tar_listing_of(data: Seq<u8>) -> TarListingModel;

/// Relies on tar::Archive::entries over an in-memory slice: the iterator
/// yields each entry's metadata in a single forward pass, resolving GNU
/// and pax long names, and yields an error where the container stream is
/// malformed; Entry::path_bytes gives the entry's path bytes and
/// EntryType::as_byte its tar typeflag byte.
#[verifier::external_body]
pub(crate) fn read_tar_listing(data: &Vec<u8>) -> (r: TarListing)
    ensures
        r@ == tar_listing_of(data@),
{
    let mut archive = tar::Archive::new(data.as_slice());
    let mut entries: Vec<ArchiveEntry> = Vec::new();
    let iter = match archive.entries() {
        Ok(i) => i,
        Err(_) => return TarListing { entries, complete: false },
    };
    for e in iter {
        match e {
            Ok(en) => entries
                .push(ArchiveEntry { path: en.path_bytes().to_vec(), typeflag: en.header().entry_type().as_byte() }),
            Err(_) => return TarListing { entries, complete: false },
        }
    }
    TarListing { entries, complete: true }
}

/// The entry-path prefix every entry of `{name}-{version}` must carry:
/// the bytes of `"{name}-{version}/"`.
pub open spec fn required_prefix_spec(name: &str, version: &str) -> Seq<u8> {
    name.spec_bytes() + seq![45u8] + version.spec_bytes() + seq![47u8]
}

/// Build the required entry-path prefix `"{name}-{version}/"` as bytes.
pub fn required_prefix(name: &str, version: &str) -> (r: Vec<u8>)
    ensures
        r@ == required_prefix_spec(name, version),
{
    let mut v: Vec<u8> = Vec::new();
    v.extend_from_slice(name.as_bytes());
    v.push(45);
    v.extend_from_slice(version.as_bytes());
    v.push(47);
    proof {
        assert(v@ =~= required_prefix_spec(name, version));
    }
    v
}

/// An entry is admissible when its path starts with the required prefix
/// and it is neither a hard link nor a symbolic link.
pub open spec fn entry_admissible(e: ArchiveEntryModel, prefix: Seq<u8>) -> bool {
    &&& prefix.is_prefix_of(e.path)
    &&& kind_of_flag(e.typeflag) != EntryKind::HardLink
    &&& kind_of_flag(e.typeflag) != EntryKind::SymLink
}

/// A listing pass is admissible when it reached end-of-stream and every
/// entry it yielded is admissible.
pub open spec fn listing_admissible(l: TarListingModel, prefix: Seq<u8>) -> bool {
    &&& l.complete
    &&& forall|i: int| 0 <= i < l.entries.len() ==> entry_admissible(#[trigger] l.entries[i], prefix)
}

/// The verdict on a run of entries, checked in order: the first entry
/// whose path leaves the prefix, or whose type is a link, decides.
pub open spec fn check_entries_spec(entries: Seq<ArchiveEntryModel>, prefix: Seq<u8>) -> Result<
    (),
    UploadError,
>
    decreases entries.len(),
{
    if entries.len() == 0 {
        Ok(())
    } else if !prefix.is_prefix_of(entries[0].path) {
        Err(UploadError::InvalidArchive(ArchiveViolation::PathOutsidePrefix))
    } else if kind_of_flag(entries[0].typeflag) == EntryKind::HardLink || kind_of_flag(
        entries[0].typeflag,
    ) == EntryKind::SymLink {
        Err(UploadError::InvalidArchive(ArchiveViolation::DisallowedLink))
    } else {
        check_entries_spec(entries.drop_first(), prefix)
    }
}

/// The verdict on a whole listing pass: the entries decide first, in
/// order; a pass that yielded no violation but did not reach end-of-stream
/// is malformed.
pub open spec fn check_listing_spec(l: TarListingModel, prefix: Seq<u8>) -> Result<
    (),
    UploadError,
> {
    match check_entries_spec(l.entries, prefix) {
        Ok(()) => if l.complete {
            Ok(())
        } else {
            Err(UploadError::InvalidArchive(ArchiveViolation::Malformed))
        },
        Err(e) => Err(e),
    }
}

/// A run of entries passes the ordered check exactly when every entry is
/// admissible.
pub proof fn lemma_check_entries_ok(entries: Seq<ArchiveEntryModel>, prefix: Seq<u8>)
    ensures
        check_entries_spec(entries, prefix) is Ok <==> (forall|i: int|
            0 <= i < entries.len() ==> entry_admissible(#[trigger] entries[i], prefix)),
    decreases entries.len(),
{
    if entries.len() > 0 {
        let rest = entries.drop_first();
        lemma_check_entries_ok(rest, prefix);
        assert(forall|i: int| 0 <= i < rest.len() ==> #[trigger] rest[i] == entries[i + 1]);
        if check_entries_spec(entries, prefix) is Ok {
            assert forall|i: int|
                0 <= i < entries.len() implies entry_admissible(
                #[trigger] entries[i],
                prefix,
            ) by {
                if i > 0 {
                    assert(rest[i - 1] == entries[i]);
                    assert(entry_admissible(rest[i - 1], prefix));
                }
            }
        } else if entry_admissible(entries[0], prefix) {
            assert(check_entries_spec(rest, prefix) is Err);
            assert(!(forall|j: int|
                0 <= j < rest.len() ==> entry_admissible(#[trigger] rest[j], prefix)));
            let j = choose|j: int|
                0 <= j < rest.len() && !entry_admissible(#[trigger] rest[j], prefix);
            assert(rest[j] == entries[j + 1]);
            assert(!entry_admissible(entries[j + 1], prefix));
        }
    }
}

/// Every archive whose listing pass reached end-of-stream, whose every
/// entry path starts with the required prefix, and whose entries hold no
/// hard link and no symbolic link, passes the structural check.
pub proof fn lemma_admissible_listing_passes(l: TarListingModel, prefix: Seq<u8>)
    requires
        listing_admissible(l, prefix),
    ensures
        check_listing_spec(l, prefix) == Ok::<(), UploadError>(()),
{
    lemma_check_entries_ok(l.entries, prefix);
}

/// Does `s` start with `prefix`, byte for byte?
pub fn starts_with_bytes(s: &Vec<u8>, prefix: &Vec<u8>) -> (r: bool)
    ensures
        r == prefix@.is_prefix_of(s@),
{
    if prefix.len() > s.len() {
        return false;
    }
    let n = prefix.len();
    let mut j: usize = 0;
    while j < n
        invariant
            0 <= j <= n,
            n == prefix.len(),
            n <= s.len(),
            forall|k: int| 0 <= k < j ==> s@[k] == prefix@[k],
        decreases n - j,
    {
        if s[j] != prefix[j] {
            return false;
        }
        j = j + 1;
    }
    proof {
        assert(prefix@ =~= s@.subrange(0, n as int));
    }
    true
}

/// Check one listing pass against the required prefix, entry by entry in
/// the order the archive listed them.
pub fn check_listing(listing: &TarListing, prefix: &Vec<u8>) -> (r: Result<(), UploadError>)
    ensures
        r == check_listing_spec(listing@, prefix@),
        r is Ok <==> listing_admissible(listing@, prefix@),
        r matches Err(e) ==> e matches UploadError::InvalidArchive(_),
{
    let ghost entries = listing@.entries;
    proof {
        assert(entries.skip(0) =~= entries);
    }
    let n = listing.entries.len();
    let mut i: usize = 0;
    while i < n
        invariant
            0 <= i <= n,
            n == listing.entries.len(),
            entries == listing@.entries,
            check_entries_spec(entries, prefix@) == check_entries_spec(
                entries.skip(i as int),
                prefix@,
            ),
            forall|k: int| 0 <= k < i ==> entry_admissible(#[trigger] entries[k], prefix@),
        decreases n - i,
    {
        proof {
            assert(entries.skip(i as int)[0] == entries[i as int]);
            assert(entries.skip(i as int).drop_first() =~= entries.skip(i + 1));
        }
        let entry = &listing.entries[i];
        if !starts_with_bytes(&entry.path, prefix) {
            return Err(UploadError::InvalidArchive(ArchiveViolation::PathOutsidePrefix));
        }
        let kind = entry.kind();
        match kind {
            EntryKind::HardLink | EntryKind::SymLink => {
                return Err(UploadError::InvalidArchive(ArchiveViolation::DisallowedLink));
            },
            _ => {},
        }
        i = i + 1;
    }
    proof {
        assert(entries.skip(n as int) =~= Seq::<ArchiveEntryModel>::empty());
        lemma_check_entries_ok(entries, prefix@);
    }
    if listing.complete {
        Ok(())
    } else {
        Err(UploadError::InvalidArchive(ArchiveViolation::Malformed))
    }
}

/// Raw archive bytes are admissible for `{name}-{version}` when they are
/// a well-formed gzip stream that decompresses within `max_unpack` bytes
/// to a tar container readable to its end, whose every entry path starts
/// with `"{name}-{version}/"`, and which holds no hard link and no
/// symbolic link.
pub open spec fn tarball_admissible(
    raw: Seq<u8>,
    name: &str,
    version: &str,
    max_unpack: u64,
) -> bool {
    match gunzip_of(raw) {
        Some(d) => d.len() <= max_unpack && listing_admissible(
            tar_listing_of(d),
            required_prefix_spec(name, version),
        ),
        None => false,
    }
}

/// Decide whether raw archive bytes are safe to persist for the package
/// `{name}-{version}`: validation succeeds exactly on admissible bytes.
/// Validation reads and decides only; nothing is extracted.
pub fn verify_tarball(name: &str, version: &str, tarball: &Vec<u8>, max_unpack: u64) -> (r: Result<
    (),
    UploadError,
>)
    ensures
        r is Ok <==> tarball_admissible(tarball@, name, version, max_unpack),
        (match gunzip_of(tarball@) {
            Some(d) => {
                &&& (d.len() <= max_unpack ==> r == check_listing_spec(
                    tar_listing_of(d),
                    required_prefix_spec(name, version),
                ))
                &&& (d.len() > max_unpack ==> r == Err::<(), UploadError>(
                    UploadError::SizeExceeded(SizeKind::Decompressed),
                ))
            },
            None => (r matches Err(e) && (e == UploadError::SizeExceeded(SizeKind::Decompressed)
                || e == UploadError::InvalidArchive(ArchiveViolation::Malformed))),
        }),
        r matches Err(e) ==> e != UploadError::BackendFailure,
{
    let prefix = required_prefix(name, version);
    let data = match gunzip_bounded(tarball, max_unpack) {
        Ok(d) => d,
        Err(e) => {
            return Err(e);
        },
    };
    let listing = read_tar_listing(&data);
    check_listing(&listing, &prefix)
}

} // verus!
