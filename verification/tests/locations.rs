use uploader::Uploader;

#[test]
fn crate_path_follows_fixed_layout() {
    assert_eq!(Uploader::crate_path("foo", "1.0.0"), "crates/foo/foo-1.0.0.crate");
    assert_eq!(Uploader::crate_path("serde", "1.0.197"), "crates/serde/serde-1.0.197.crate");
}

#[test]
fn readme_path_follows_fixed_layout() {
    assert_eq!(Uploader::readme_path("foo", "1.0.0"), "readmes/foo/foo-1.0.0.html");
}

#[test]
fn local_backend_locations_are_root_relative() {
    let local = Uploader::Local { root: String::from("local_uploads") };
    assert_eq!(local.crate_location("foo", "1.0.0"), "/crates/foo/foo-1.0.0.crate");
    assert_eq!(local.readme_location("foo", "1.0.0"), "/readmes/foo/foo-1.0.0.html");
}

#[test]
fn object_storage_location_prefers_the_cdn() {
    let s3 = Uploader::S3 {
        host: String::from("bucket.s3.amazonaws.com"),
        cdn: Some(String::from("cdn.example.com")),
    };
    assert_eq!(
        s3.crate_location("foo", "1.0.0"),
        "https://cdn.example.com/crates/foo/foo-1.0.0.crate"
    );
    assert_eq!(
        s3.readme_location("foo", "1.0.0"),
        "https://cdn.example.com/readmes/foo/foo-1.0.0.html"
    );
}

#[test]
fn object_storage_location_falls_back_to_the_bucket_host() {
    let s3 = Uploader::S3 { host: String::from("bucket.s3.amazonaws.com"), cdn: None };
    assert_eq!(
        s3.crate_location("foo", "1.0.0"),
        "https://bucket.s3.amazonaws.com/crates/foo/foo-1.0.0.crate"
    );
}
