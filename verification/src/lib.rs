mod bounded;
mod digest;
mod errors;
mod gzip;
mod tarball;
mod uploaders;

pub use bounded::collect_bounded;
pub use bounded::concat_of;
pub use bounded::lemma_concat_take_len;
pub use bounded::BoundedReader;
pub use bounded::SizeLimits;
pub use digest::sha256_of;
pub use errors::ArchiveViolation;
pub use errors::SizeKind;
pub use errors::UploadError;
pub use gzip::gunzip_bounded;
pub use gzip::gunzip_of;
pub use gzip::GzipStream;
pub use tarball::check_entries_spec;
pub use tarball::check_listing;
pub use tarball::check_listing_spec;
pub use tarball::entry_admissible;
pub use tarball::kind_of_flag;
pub use tarball::lemma_admissible_listing_passes;
pub use tarball::lemma_check_entries_ok;
pub use tarball::listing_admissible;
pub use tarball::required_prefix;
pub use tarball::required_prefix_spec;
pub use tarball::starts_with_bytes;
pub use tarball::tar_listing_of;
pub use tarball::tarball_admissible;
pub use tarball::verify_tarball;
pub use tarball::ArchiveEntry;
pub use tarball::ArchiveEntryModel;
pub use tarball::EntryKind;
pub use tarball::TarListing;
pub use tarball::TarListingModel;
pub use uploaders::crate_path_spec;
pub use uploaders::crate_upload_ok;
pub use uploaders::finish_crate_upload;
pub use uploaders::lemma_digest_chunking_independent;
pub use uploaders::prepare_crate_upload;
pub use uploaders::prepare_readme_upload;
pub use uploaders::readme_path_spec;
pub use uploaders::CrateUpload;
pub use uploaders::ReadmeUpload;
pub use uploaders::Uploader;
