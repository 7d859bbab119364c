use vstd::prelude::*;
use vstd::string::StringSliceAdditionalSpecFns;

use crate::bounded::collect_bounded;
use crate::bounded::concat_of;
use crate::bounded::SizeLimits;
use crate::digest::sha256;
use crate::digest::sha256_of;
use crate::errors::ArchiveViolation;
use crate::errors::SizeKind;
use crate::errors::UploadError;
use crate::gzip::gunzip_of;
use crate::tarball::check_listing_spec;
use crate::tarball::required_prefix_spec;
use crate::tarball::tar_listing_of;
use crate::tarball::tarball_admissible;
use crate::tarball::verify_tarball;

verus! {

/// Where validated artifacts are persisted, chosen once at startup:
/// object storage behind an optional CDN, or a local directory for
/// development.  Only what the path and location rules read is held here;
/// the storage connection itself lives with the caller.
#[derive(Clone, Debug)]
pub enum Uploader {
    /// Object storage: the bucket's own hostname, and the CDN hostname to
    /// prefer when one is configured.
    S3 { host: String, cdn: Option<String> },
    /// Development only: files under a local root directory.
    Local { root: String },
}

/// The stored path of a package's archive: `crates/{name}/{name}-{version}.crate`.
pub open spec fn crate_path_spec(name: Seq<char>, version: Seq<char>) -> Seq<char> {
    "crates/"@ + name + "/"@ + name + "-"@ + version + ".crate"@
}

/// The stored path of a package's readme: `readmes/{name}/{name}-{version}.html`.
pub open spec fn readme_path_spec(name: Seq<char>, version: Seq<char>) -> Seq<char> {
    "readmes/"@ + name + "/"@ + name + "-"@ + version + ".html"@
}

impl Uploader {
    /// The hostname that read traffic is pointed at: the CDN when one is
    /// configured, the bucket itself otherwise.
    pub open spec fn read_host_spec(host: &String, cdn: &Option<String>) -> Seq<char> {
        match cdn {
            Option::Some(c) => c@,
            Option::None => host@,
        }
    }

    /// The location of a stored artifact at `path`: a URL on the read
    /// host for object storage, a root-relative path for local storage.
    pub open spec fn location_spec(&self, path: Seq<char>) -> Seq<char> {
        match self {
            Uploader::S3 { host, cdn } => "https://"@ + Self::read_host_spec(host, cdn) + "/"@
                + path,
            Uploader::Local { .. } => "/"@ + path,
        }
    }

    /// Returns the internal path of an uploaded crate's version archive.
    pub fn crate_path(name: &str, version: &str) -> (r: String)
        ensures
            r@ == crate_path_spec(name@, version@),
    {
        let r = String::from_str("crates/").concat(name).concat("/").concat(name).concat(
            "-",
        ).concat(version).concat(".crate");
        r
    }

    /// Returns the internal path of an uploaded crate's version readme.
    pub fn readme_path(name: &str, version: &str) -> (r: String)
        ensures
            r@ == readme_path_spec(name@, version@),
    {
        let r = String::from_str("readmes/").concat(name).concat("/").concat(name).concat(
            "-",
        ).concat(version).concat(".html");
        r
    }

    /// Returns the URL of an uploaded crate's version archive.
    ///
    /// The function doesn't check for the existence of the file.
    pub fn crate_location(&self, crate_name: &str, version: &str) -> (r: String)
        ensures
            r@ == self.location_spec(crate_path_spec(crate_name@, version@)),
    {
        let path = Self::crate_path(crate_name, version);
        self.location(path)
    }

    /// Returns the URL of an uploaded crate's version readme.
    ///
    /// The function doesn't check for the existence of the file.
    pub fn readme_location(&self, crate_name: &str, version: &str) -> (r: String)
        ensures
            r@ == self.location_spec(readme_path_spec(crate_name@, version@)),
    {
        let path = Self::readme_path(crate_name, version);
        self.location(path)
    }

    /// The location of a stored artifact, composed from the backend's
    /// read host and the artifact's path.
    pub fn location(&self, path: String) -> (r: String)
        ensures
            r@ == self.location_spec(path@),
    {
        match self {
            Uploader::S3 { host, cdn } => {
                let h: &String = match cdn {
                    Option::Some(c) => c,
                    Option::None => host,
                };
                String::from_str("https://").concat(h.as_str()).concat("/").concat(path.as_str())
            },
            Uploader::Local { .. } => String::from_str("/").concat(path.as_str()),
        }
    }
}

/// A crate upload that passed validation, ready for the storage backend:
/// the stored path, the exact raw bytes, their digest, and the transport
/// metadata the backend must send.
#[derive(Debug, PartialEq, Eq)]
pub struct CrateUpload {
    pub path: String,
    pub body: Vec<u8>,
    pub checksum: Vec<u8>,
    pub content_type: String,
    pub cache_control: String,
    pub content_length: u64,
}

/// A validated crate upload carries the archive path, the raw bytes as
/// received, their SHA-256 digest, the tar content type, and the
/// one-year immutable cache directive.
pub open spec fn crate_upload_ok(up: CrateUpload, name: &str, version: &str, raw: Seq<u8>) -> bool {
    &&& up.path@ == crate_path_spec(name@, version@)
    &&& up.body@ == raw
    &&& up.checksum@ == sha256_of(raw)
    &&& up.checksum@.len() == 32
    &&& up.content_type@ == "application/x-tar"@
    &&& up.cache_control@ == "public,max-age=31536000,immutable"@
    &&& up.content_length == raw.len()
}

/// Validate a crate upload and stage it for the backend.  The raw body
/// arrives as the chunks the transport delivered; it is gathered under
/// `max_raw_bytes`, its archive structure is validated under
/// `max_decompressed_bytes`, and only then is the digest computed and the
/// upload staged.  Any rejection happens before any storage side effect
/// is possible, and rejections are never reported as backend failures.
pub fn prepare_crate_upload(
    name: &str,
    version: &str,
    limits: &SizeLimits,
    chunks: &Vec<Vec<u8>>,
) -> (r: Result<CrateUpload, UploadError>)
    ensures
        ({
            let raw = concat_of(chunks.deep_view());
            &&& (r is Ok <==> (raw.len() <= limits.max_raw_bytes && tarball_admissible(
                raw,
                name,
                version,
                limits.max_decompressed_bytes,
            )))
            &&& (raw.len() > limits.max_raw_bytes ==> r == Err::<CrateUpload, UploadError>(
                UploadError::SizeExceeded(SizeKind::RawBody),
            ))
            &&& (raw.len() <= limits.max_raw_bytes ==> (match gunzip_of(raw) {
                Some(d) => {
                    &&& (d.len() > limits.max_decompressed_bytes ==> r == Err::<
                        CrateUpload,
                        UploadError,
                    >(UploadError::SizeExceeded(SizeKind::Decompressed)))
                    &&& (d.len() <= limits.max_decompressed_bytes ==> (r matches Err(e)
                        ==> check_listing_spec(tar_listing_of(d), required_prefix_spec(name, version))
                        == Err::<(), UploadError>(e)))
                },
                None => (r matches Err(e) && (e == UploadError::SizeExceeded(
                    SizeKind::Decompressed,
                ) || e == UploadError::InvalidArchive(ArchiveViolation::Malformed))),
            }))
            &&& (r matches Ok(up) ==> crate_upload_ok(up, name, version, raw))
            &&& (r matches Err(e) ==> e != UploadError::BackendFailure)
        }),
{
    let body = match collect_bounded(chunks, limits.max_raw_bytes) {
        Ok(b) => b,
        Err(e) => {
            return Err(e);
        },
    };
    match verify_tarball(name, version, &body, limits.max_decompressed_bytes) {
        Ok(()) => {},
        Err(e) => {
            return Err(e);
        },
    }
    let checksum = sha256(&body);
    let content_length = body.len() as u64;
    Ok(
        CrateUpload {
            path: Uploader::crate_path(name, version),
            body,
            checksum,
            content_type: String::from_str("application/x-tar"),
            cache_control: String::from_str("public,max-age=31536000,immutable"),
            content_length,
        },
    )
}

/// Conclude a crate upload from the backend's outcome: a stored location
/// yields the digest of the uploaded bytes; a backend error after
/// validation is reported as a backend failure and nothing else.
pub fn finish_crate_upload(up: CrateUpload, outcome: Result<String, String>) -> (r: Result<
    Vec<u8>,
    UploadError,
>)
    ensures
        outcome matches Ok(_) ==> (r matches Ok(c) && c == up.checksum),
        outcome matches Err(_) ==> r == Err::<Vec<u8>, UploadError>(UploadError::BackendFailure),
{
    match outcome {
        Ok(_) => Ok(up.checksum),
        Err(_) => Err(UploadError::BackendFailure),
    }
}

/// A readme upload staged for the backend: rendered HTML is persisted as
/// it is, with a seven-day cache directive; no archive validation applies.
#[derive(Debug, PartialEq, Eq)]
pub struct ReadmeUpload {
    pub path: String,
    pub body: String,
    pub content_type: String,
    pub cache_control: String,
    pub content_length: u64,
}

/// Stage a rendered readme for the backend.
pub fn prepare_readme_upload(name: &str, version: &str, readme: String) -> (up: ReadmeUpload)
    ensures
        up.path@ == readme_path_spec(name@, version@),
        up.body == readme,
        up.content_type@ == "text/html"@,
        up.cache_control@ == "public,max-age=604800"@,
        up.content_length == vstd::utf8::encode_utf8(readme@).len(),
{
    let content_length = readme.as_str().as_bytes().len() as u64;
    ReadmeUpload {
        path: Uploader::readme_path(name, version),
        body: readme,
        content_type: String::from_str("text/html"),
        cache_control: String::from_str("public,max-age=604800"),
        content_length,
    }
}

/// The digest of a validated upload depends on the raw bytes alone: two
/// deliveries whose chunks carry the same bytes are staged with the same
/// digest, however the transport split them.
pub proof fn lemma_digest_chunking_independent(a: Seq<Seq<u8>>, b: Seq<Seq<u8>>)
    requires
        concat_of(a) == concat_of(b),
    ensures
        sha256_of(concat_of(a)) == sha256_of(concat_of(b)),
{
}

} // verus!
