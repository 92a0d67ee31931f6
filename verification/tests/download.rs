use just_download::download::assemble_download_url;
use just_download::download::assemble_url;
use just_download::download::download;
use just_download::download::CreateFailure;
use just_download::error::DownloadError;
use just_download::manifest::Download;
use just_download::manifest::Manifest;
use just_download::manifest::Package;
use just_download::progress::DownloadProgress;
use just_download::progress::ReadOutcome;
use just_download::version::Version;
use just_download::version::VersionReq;

fn manifest(url: &str, pinned: Option<Version>, versions: Option<Vec<Version>>) -> Manifest {
    Manifest {
        package: Package { name: "pkg".to_string() },
        download: Download { url: url.to_string(), version: pinned },
        versions,
    }
}

fn example() -> Manifest {
    manifest(
        "https://example.test/pkg/{version}/pkg.tar.gz#pkg",
        None,
        Some(vec![Version::new(2, 0, 0)]),
    )
}

#[test]
fn assemble_url_puts_the_version_into_the_template() {
    assert_eq!(
        assemble_url("https://x/{version}/a.tgz", &Version::new(1, 2, 3)),
        "https://x/1.2.3/a.tgz"
    );
    assert_eq!(assemble_url("https://x/a.tgz", &Version::new(1, 2, 3)), "https://x/a.tgz");
    let beta = Version::with_labels(1, 0, 0, "beta.2", "").unwrap();
    assert_eq!(
        assemble_url("p-{version}.zip#p-{version}", &beta),
        "p-1.0.0-beta.2.zip#p-1.0.0-beta.2"
    );
}

#[test]
fn assemble_download_url_resolves_version_and_url() {
    let m = manifest(
        "https://h/{version}/t.zip#t-{version}.zip",
        Some(Version::new(0, 9, 0)),
        Some(vec![Version::new(1, 0, 0), Version::new(1, 2, 0), Version::new(2, 0, 0)]),
    );
    let (url, version) = assemble_download_url(&m, VersionReq::parse("^1")).unwrap();
    assert_eq!(url, "https://h/1.2.0/t.zip#t-1.2.0.zip");
    assert_eq!(version.to_text(), "1.2.0");
    let (url, version) = assemble_download_url(&m, VersionReq::parse("^3")).unwrap();
    assert_eq!(url, "https://h/0.9.0/t.zip#t-0.9.0.zip");
    assert_eq!(version.to_text(), "0.9.0");
}

#[test]
fn assemble_download_url_gives_nothing_without_a_version() {
    let m = manifest("https://h/{version}/t.zip#t", None, None);
    assert!(assemble_download_url(&m, None).is_none());
    let m = manifest("https://h/{version}/t.zip#t", None, Some(vec![Version::new(1, 0, 0)]));
    assert!(assemble_download_url(&m, VersionReq::parse("^2")).is_none());
}

#[test]
fn a_download_from_end_to_end() {
    let m = example();
    let request = download(&m, None).unwrap();
    assert_eq!(request.url, "https://example.test/pkg/2.0.0/pkg.tar.gz#pkg");
    assert_eq!(request.version.to_text(), "2.0.0");
    assert_eq!(request.package, &m.package);

    let mut transfer = request.responded(Some("10")).unwrap();
    assert_eq!(transfer.destination(), "pkg");
    assert_eq!(transfer.progress, DownloadProgress { total: 10, position: 0, finished: false });

    assert_eq!(transfer.record(ReadOutcome::Bytes(6)), 6);
    assert_eq!(transfer.record(ReadOutcome::Bytes(4)), 4);
    assert_eq!(transfer.record(ReadOutcome::Bytes(0)), 0);
    assert_eq!(transfer.progress.position, 10);

    let (info, progress) = transfer.complete(10);
    assert_eq!(info.package.name, "pkg");
    assert_eq!(info.version.to_text(), "2.0.0");
    assert_eq!(info.size, 10);
    assert_eq!(info.compressed_path, "pkg");
    assert_eq!(info.uncompressed_path, "pkg.tar.gz");
    assert_eq!(progress, DownloadProgress { total: 10, position: 10, finished: true });
}

#[test]
fn the_size_is_what_was_copied_not_what_was_declared() {
    let m = example();
    let transfer = download(&m, None).unwrap().responded(Some("10")).unwrap();
    let (info, progress) = transfer.complete(7);
    assert_eq!(info.size, 7);
    assert_eq!(progress.total, 10);
}

#[test]
fn a_download_without_version_fails_at_once() {
    let m = manifest("https://h/{version}/t.zip#t", None, None);
    assert_eq!(download(&m, None).unwrap_err(), DownloadError::Resolution);
    let m = manifest("https://h/{version}/t.zip#t", None, Some(vec![Version::new(1, 0, 0)]));
    assert_eq!(download(&m, VersionReq::parse("^2")).unwrap_err(), DownloadError::Resolution);
}

#[test]
fn a_failed_request_names_the_url() {
    let m = example();
    let request = download(&m, None).unwrap();
    let url = "https://example.test/pkg/2.0.0/pkg.tar.gz#pkg".to_string();
    assert_eq!(request.failed(), DownloadError::Transport { url });
}

#[test]
fn a_response_without_numeric_length_is_refused() {
    let m = example();
    let url = "https://example.test/pkg/2.0.0/pkg.tar.gz#pkg".to_string();
    assert_eq!(
        download(&m, None).unwrap().responded(None).unwrap_err(),
        DownloadError::MissingMetadata { url: url.clone() }
    );
    assert_eq!(
        download(&m, None).unwrap().responded(Some("ten")).unwrap_err(),
        DownloadError::MissingMetadata { url: url.clone() }
    );
    assert_eq!(
        download(&m, None).unwrap().responded(Some("")).unwrap_err(),
        DownloadError::MissingMetadata { url }
    );
}

#[test]
fn the_length_is_read_before_the_names_are_derived() {
    let m = manifest("https://h/{version}/t.zip", Some(Version::new(1, 0, 0)), None);
    let url = "https://h/1.0.0/t.zip".to_string();
    assert_eq!(
        download(&m, None).unwrap().responded(None).unwrap_err(),
        DownloadError::MissingMetadata { url: url.clone() }
    );
    assert_eq!(
        download(&m, None).unwrap().responded(Some("5")).unwrap_err(),
        DownloadError::MalformedUrl { url }
    );
}

#[test]
fn an_existing_destination_is_never_written_over() {
    let m = example();
    let transfer = download(&m, None).unwrap().responded(Some("10")).unwrap();
    assert_eq!(
        transfer.refused(CreateFailure::AlreadyExists),
        DownloadError::FileExists { path: "pkg".to_string() }
    );
}

#[test]
fn another_failure_to_create_the_destination_names_the_path() {
    let m = example();
    let transfer = download(&m, None).unwrap().responded(Some("10")).unwrap();
    let path = "pkg".to_string();
    assert_eq!(transfer.refused(CreateFailure::Other), DownloadError::Io { path });
}

#[test]
fn an_interrupted_copy_names_the_path() {
    let m = example();
    let mut transfer = download(&m, None).unwrap().responded(Some("10")).unwrap();
    transfer.record(ReadOutcome::Bytes(3));
    assert_eq!(transfer.record(ReadOutcome::Failed), 0);
    assert_eq!(transfer.progress.position, 3);
    assert_eq!(transfer.interrupted(), DownloadError::Io { path: "pkg".to_string() });
}

#[test]
fn each_failure_says_what_went_wrong_and_with_what() {
    assert_eq!(DownloadError::Resolution.message(), "no download URL or valid version given");
    assert_eq!(
        DownloadError::MalformedUrl { url: "https://h/a".to_string() }.message(),
        "malformed download URL: https://h/a"
    );
    assert_eq!(
        DownloadError::Transport { url: "https://h/a#b".to_string() }.message(),
        "download failed: https://h/a#b"
    );
    assert_eq!(
        DownloadError::MissingMetadata { url: "https://h/a#b".to_string() }.message(),
        "no content length given: https://h/a#b"
    );
    assert_eq!(
        DownloadError::FileExists { path: "b".to_string() }.message(),
        "file exists already: b"
    );
    assert_eq!(DownloadError::Io { path: "b".to_string() }.message(), "could not write file: b");
}

#[test]
fn the_main_types_are_found_at_the_root() {
    let m: just_download::Manifest = example();
    let info: just_download::DownloadInfo =
        download(&m, None).unwrap().responded(Some("1")).unwrap().complete(1).0;
    assert_eq!(info.version, just_download::Version::new(2, 0, 0));
    assert_eq!(info.package, &just_download::Package { name: "pkg".to_string() });
}
