use std::io::Read;
use std::io::Write;

use uploader::verify_tarball;
use uploader::ArchiveEntry;
use uploader::ArchiveViolation;
use uploader::EntryKind;
use uploader::SizeKind;
use uploader::UploadError;

fn gzip(data: &[u8]) -> Vec<u8> {
    let mut enc = flate2::write::GzEncoder::new(Vec::new(), flate2::Compression::default());
    enc.write_all(data).unwrap();
    enc.finish().unwrap()
}

fn tar_bytes(entries: &[(&str, tar::EntryType, &[u8], Option<&str>)]) -> Vec<u8> {
    let mut builder = tar::Builder::new(Vec::new());
    for (path, entry_type, data, link) in entries {
        let mut header = tar::Header::new_gnu();
        header.set_entry_type(*entry_type);
        header.set_size(data.len() as u64);
        header.set_mode(0o644);
        if let Some(target) = link {
            header.set_link_name(target).unwrap();
        }
        builder.append_data(&mut header, path, *data).unwrap();
    }
    builder.into_inner().unwrap()
}

fn archive(entries: &[(&str, tar::EntryType, &[u8], Option<&str>)]) -> Vec<u8> {
    gzip(&tar_bytes(entries))
}

#[test]
fn accepts_well_formed_archive() {
    let tarball = archive(&[
        ("foo-1.0.0/", tar::EntryType::Directory, b"", None),
        ("foo-1.0.0/Cargo.toml", tar::EntryType::Regular, b"[package]", None),
        ("foo-1.0.0/src/lib.rs", tar::EntryType::Regular, b"pub fn f() {}", None),
    ]);
    assert_eq!(verify_tarball("foo", "1.0.0", &tarball, 1 << 20), Ok(()));
}

#[test]
fn accepts_empty_archive() {
    let tarball = archive(&[]);
    assert_eq!(verify_tarball("foo", "1.0.0", &tarball, 1 << 20), Ok(()));
}

#[test]
fn rejects_entry_outside_prefix() {
    let tarball = archive(&[
        ("foo-1.0.0/src/lib.rs", tar::EntryType::Regular, b"", None),
        ("other-9.9.9/file.rs", tar::EntryType::Regular, b"", None),
    ]);
    assert_eq!(
        verify_tarball("foo", "1.0.0", &tarball, 1 << 20),
        Err(UploadError::InvalidArchive(ArchiveViolation::PathOutsidePrefix))
    );
}

#[test]
fn rejects_prefix_without_separator() {
    let tarball = archive(&[("foo-1.0.0x/file.rs", tar::EntryType::Regular, b"", None)]);
    assert_eq!(
        verify_tarball("foo", "1.0.0", &tarball, 1 << 20),
        Err(UploadError::InvalidArchive(ArchiveViolation::PathOutsidePrefix))
    );
}

#[test]
fn rejects_symlink_inside_prefix() {
    let tarball = archive(&[
        ("foo-1.0.0/src/lib.rs", tar::EntryType::Regular, b"", None),
        ("foo-1.0.0/link", tar::EntryType::Symlink, b"", Some("/etc/passwd")),
    ]);
    assert_eq!(
        verify_tarball("foo", "1.0.0", &tarball, 1 << 20),
        Err(UploadError::InvalidArchive(ArchiveViolation::DisallowedLink))
    );
}

#[test]
fn rejects_hard_link_inside_prefix() {
    let tarball = archive(&[
        ("foo-1.0.0/link", tar::EntryType::Link, b"", Some("foo-1.0.0/src/lib.rs")),
    ]);
    assert_eq!(
        verify_tarball("foo", "1.0.0", &tarball, 1 << 20),
        Err(UploadError::InvalidArchive(ArchiveViolation::DisallowedLink))
    );
}

#[test]
fn prefix_violation_decides_before_link_violation() {
    let tarball = archive(&[
        ("other-9.9.9/file.rs", tar::EntryType::Regular, b"", None),
        ("foo-1.0.0/link", tar::EntryType::Symlink, b"", Some("x")),
    ]);
    assert_eq!(
        verify_tarball("foo", "1.0.0", &tarball, 1 << 20),
        Err(UploadError::InvalidArchive(ArchiveViolation::PathOutsidePrefix))
    );
}

#[test]
fn rejects_bytes_that_are_not_gzip() {
    let raw = b"this is not a gzip stream at all".to_vec();
    assert_eq!(
        verify_tarball("foo", "1.0.0", &raw, 1 << 20),
        Err(UploadError::InvalidArchive(ArchiveViolation::Malformed))
    );
}

#[test]
fn rejects_truncated_gzip_stream() {
    let tarball = archive(&[("foo-1.0.0/src/lib.rs", tar::EntryType::Regular, b"fn f() {}", None)]);
    let truncated = tarball[..tarball.len() - 5].to_vec();
    assert_eq!(
        verify_tarball("foo", "1.0.0", &truncated, 1 << 20),
        Err(UploadError::InvalidArchive(ArchiveViolation::Malformed))
    );
}

#[test]
fn rejects_gzip_that_is_not_tar() {
    let raw = gzip(b"just some text, no tar container here");
    assert_eq!(
        verify_tarball("foo", "1.0.0", &raw, 1 << 20),
        Err(UploadError::InvalidArchive(ArchiveViolation::Malformed))
    );
}

#[test]
fn rejects_decompression_past_ceiling_mid_entry() {
    let big = vec![b'a'; 200_000];
    let tarball = archive(&[("foo-1.0.0/big.txt", tar::EntryType::Regular, &big, None)]);
    assert_eq!(
        verify_tarball("foo", "1.0.0", &tarball, 10_000),
        Err(UploadError::SizeExceeded(SizeKind::Decompressed))
    );
}

#[test]
fn accepts_decompression_exactly_at_ceiling() {
    let tarball = archive(&[("foo-1.0.0/a.txt", tar::EntryType::Regular, b"abc", None)]);
    let decompressed = {
        let mut d = flate2::read::GzDecoder::new(tarball.as_slice());
        let mut out = Vec::new();
        d.read_to_end(&mut out).unwrap();
        out
    };
    let ceiling = decompressed.len() as u64;
    assert_eq!(verify_tarball("foo", "1.0.0", &tarball, ceiling), Ok(()));
    assert_eq!(
        verify_tarball("foo", "1.0.0", &tarball, ceiling - 1),
        Err(UploadError::SizeExceeded(SizeKind::Decompressed))
    );
}

#[test]
fn entry_kind_classifies_typeflag_bytes() {
    let regular = ArchiveEntry { path: b"a".to_vec(), typeflag: b'0' };
    let directory = ArchiveEntry { path: b"a/".to_vec(), typeflag: b'5' };
    let hard_link = ArchiveEntry { path: b"a".to_vec(), typeflag: b'1' };
    let symlink = ArchiveEntry { path: b"a".to_vec(), typeflag: b'2' };
    let fifo = ArchiveEntry { path: b"a".to_vec(), typeflag: b'6' };
    assert_eq!(regular.kind(), EntryKind::Regular);
    assert_eq!(directory.kind(), EntryKind::Directory);
    assert_eq!(hard_link.kind(), EntryKind::HardLink);
    assert_eq!(symlink.kind(), EntryKind::SymLink);
    assert_eq!(fifo.kind(), EntryKind::Other);
}

#[test]
fn error_messages_stay_generic_for_structural_violations() {
    let path = UploadError::InvalidArchive(ArchiveViolation::PathOutsidePrefix);
    let link = UploadError::InvalidArchive(ArchiveViolation::DisallowedLink);
    assert_eq!(path.message(), "invalid tarball uploaded");
    assert_eq!(link.message(), "invalid tarball uploaded");
    assert_eq!(
        UploadError::InvalidArchive(ArchiveViolation::Malformed).message(),
        "uploaded tarball is malformed or too large when decompressed"
    );
    assert_eq!(
        UploadError::SizeExceeded(SizeKind::RawBody).message(),
        "maximum upload size exceeded"
    );
    // The decompression-bomb rejection is folded into the malformed wording.
    assert_eq!(
        UploadError::SizeExceeded(SizeKind::Decompressed).message(),
        "uploaded tarball is malformed or too large when decompressed"
    );
    assert_eq!(UploadError::BackendFailure.message(), "failed to upload crate");
}
