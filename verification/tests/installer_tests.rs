use std::io::{Cursor, Write};

use duckup::errors::{
    classify_http_status, DownloadError, InstallError, ResolveError, Stage,
};
use duckup::installer::{step, InstallAction, InstallEvent, InstallState};
use duckup::metadata::{Asset, Author, Reactions, Root, Uploader};
use duckup::selector::{OsFamily, PlatformDescriptor};

fn author() -> Author {
    Author {
        login: String::new(),
        id: 0,
        node_id: String::new(),
        avatar_url: String::new(),
        gravatar_id: String::new(),
        url: String::new(),
        html_url: String::new(),
        followers_url: String::new(),
        following_url: String::new(),
        gists_url: String::new(),
        starred_url: String::new(),
        subscriptions_url: String::new(),
        organizations_url: String::new(),
        repos_url: String::new(),
        events_url: String::new(),
        received_events_url: String::new(),
        type_field: String::new(),
        site_admin: false,
    }
}

fn uploader() -> Uploader {
    Uploader {
        login: String::new(),
        id: 0,
        node_id: String::new(),
        avatar_url: String::new(),
        gravatar_id: String::new(),
        url: String::new(),
        html_url: String::new(),
        followers_url: String::new(),
        following_url: String::new(),
        gists_url: String::new(),
        starred_url: String::new(),
        subscriptions_url: String::new(),
        organizations_url: String::new(),
        repos_url: String::new(),
        events_url: String::new(),
        received_events_url: String::new(),
        type_field: String::new(),
        site_admin: false,
    }
}

fn reactions() -> Reactions {
    Reactions {
        url: String::new(),
        total_count: 0,
        n1: 0,
        n12: 0,
        laugh: 0,
        hooray: 0,
        confused: 0,
        heart: 0,
        rocket: 0,
        eyes: 0,
    }
}

fn asset(download_url: &str) -> Asset {
    Asset {
        url: String::new(),
        id: 0,
        node_id: String::new(),
        name: String::new(),
        label: None,
        uploader: uploader(),
        content_type: String::new(),
        state: String::new(),
        size: 0,
        download_count: 0,
        created_at: String::new(),
        updated_at: String::new(),
        browser_download_url: download_url.to_string(),
    }
}

fn release(urls: &[&str]) -> Root {
    Root {
        url: String::new(),
        assets_url: String::new(),
        upload_url: String::new(),
        html_url: String::new(),
        id: 0,
        author: author(),
        node_id: String::new(),
        tag_name: String::new(),
        target_commitish: String::new(),
        name: String::new(),
        draft: false,
        prerelease: false,
        created_at: String::new(),
        published_at: String::new(),
        assets: urls.iter().map(|u| asset(u)).collect(),
        tarball_url: String::new(),
        zipball_url: String::new(),
        body: String::new(),
        reactions: reactions(),
        mentions_count: 0,
    }
}

fn fixture_urls() -> Vec<&'static str> {
    vec![
        "https://host.example/duckdb-linux-amd64-cli.zip",
        "https://host.example/duckdb-linux-aarch64-cli.zip",
        "https://host.example/duckdb-linux-amd64-lib.zip",
        "https://host.example/duckdb-darwin-amd64-cli.zip",
    ]
}

fn linux_platform(arch: &str) -> PlatformDescriptor {
    PlatformDescriptor { os_family: OsFamily::Linux, architecture: Some(arch.to_string()) }
}

fn archive_with(entries: &[(&str, &[u8])]) -> Vec<u8> {
    let mut w = zip::write::ZipWriter::new(Cursor::new(Vec::new()));
    let opts = zip::write::SimpleFileOptions::default();
    for (name, data) in entries {
        w.start_file(*name, opts).unwrap();
        w.write_all(data).unwrap();
    }
    w.finish().unwrap().into_inner()
}

#[test]
fn pipeline_success_end_to_end() {
    let platform = linux_platform("x86_64");

    let (s1, a1) = step(InstallState::Idle, InstallEvent::Start { platform });
    assert!(matches!(s1, InstallState::AwaitingMetadata { .. }));
    assert!(matches!(a1, InstallAction::FetchMetadata));

    let root = release(&fixture_urls());
    let (s2, a2) = step(s1, InstallEvent::MetadataFetched { result: Ok(root) });
    match (&s2, &a2) {
        (InstallState::AwaitingDownload { url }, InstallAction::Download { url: u }) => {
            assert_eq!(url, "https://host.example/duckdb-linux-amd64-cli.zip");
            assert_eq!(u, url);
        },
        _ => panic!("expected a download of the linux amd64 cli archive"),
    }

    let bytes = archive_with(&[("duckdb", b"\x7fELFfake")]);
    let (s3, a3) = step(s2, InstallEvent::DownloadFinished { result: Ok(bytes) });
    assert!(matches!(s3, InstallState::AwaitingWrite { has_executable: true }));
    match &a3 {
        InstallAction::WriteEntries { plan } => {
            assert_eq!(plan.len(), 1);
            assert_eq!(plan[0].name, "duckdb");
            assert!(!plan[0].is_dir);
            assert_eq!(plan[0].data, b"\x7fELFfake");
        },
        _ => panic!("expected the planned entries to be written"),
    }

    let (s4, a4) = step(s3, InstallEvent::EntriesWritten { ok: true });
    assert!(matches!(s4, InstallState::AwaitingPermissions));
    match &a4 {
        InstallAction::SetExecutable { file_name, mode } => {
            assert_eq!(file_name, "duckdb");
            assert_eq!(*mode, 0o755);
        },
        _ => panic!("expected the executable bit to be set"),
    }

    let (s5, a5) = step(s4, InstallEvent::PermissionsSet { ok: true });
    assert!(matches!(s5, InstallState::Done));
    assert!(matches!(a5, InstallAction::Stop));
}

#[test]
fn pipeline_fails_on_windows_before_any_network_action() {
    let platform = PlatformDescriptor {
        os_family: OsFamily::Windows,
        architecture: Some("amd".to_string()),
    };
    let (s, a) = step(InstallState::Idle, InstallEvent::Start { platform });
    match s {
        InstallState::Failed { stage, cause } => {
            assert_eq!(stage, Stage::PlatformCheck);
            assert_eq!(cause, InstallError::UnsupportedPlatform);
        },
        _ => panic!("expected the platform precondition to fail"),
    }
    assert!(matches!(a, InstallAction::Stop));
}

#[test]
fn pipeline_fails_when_no_asset_matches() {
    let platform = linux_platform("riscv");
    let (s1, _) = step(InstallState::Idle, InstallEvent::Start { platform });
    let root = release(&fixture_urls());
    let (s2, a2) = step(s1, InstallEvent::MetadataFetched { result: Ok(root) });
    match s2 {
        InstallState::Failed { stage, cause } => {
            assert_eq!(stage, Stage::Select);
            assert_eq!(cause, InstallError::NoMatch);
        },
        _ => panic!("expected selection to fail"),
    }
    assert!(matches!(a2, InstallAction::Stop));
}

#[test]
fn pipeline_reports_resolver_failures() {
    let platform = linux_platform("amd");
    let (s1, _) = step(InstallState::Idle, InstallEvent::Start { platform });
    let (s2, _) = step(
        s1,
        InstallEvent::MetadataFetched { result: Err(ResolveError::Unreachable) },
    );
    match s2 {
        InstallState::Failed { stage, cause } => {
            assert_eq!(stage, Stage::Resolve);
            assert_eq!(cause, InstallError::Unreachable);
        },
        _ => panic!("expected resolution to fail"),
    }
}

#[test]
fn pipeline_reports_malformed_metadata() {
    let platform = linux_platform("amd");
    let (s1, _) = step(InstallState::Idle, InstallEvent::Start { platform });
    let (s2, _) = step(
        s1,
        InstallEvent::MetadataFetched { result: Err(ResolveError::MalformedMetadata) },
    );
    match s2 {
        InstallState::Failed { stage, cause } => {
            assert_eq!(stage, Stage::Resolve);
            assert_eq!(cause, InstallError::MalformedMetadata);
        },
        _ => panic!("expected resolution to fail"),
    }
}

fn state_awaiting_download() -> InstallState {
    let platform = linux_platform("amd");
    let (s1, _) = step(InstallState::Idle, InstallEvent::Start { platform });
    let root = release(&fixture_urls());
    let (s2, _) = step(s1, InstallEvent::MetadataFetched { result: Ok(root) });
    s2
}

#[test]
fn pipeline_reports_http_status_failure() {
    let s = state_awaiting_download();
    let (s2, _) = step(
        s,
        InstallEvent::DownloadFinished { result: Err(DownloadError::HttpStatus(404)) },
    );
    match s2 {
        InstallState::Failed { stage, cause } => {
            assert_eq!(stage, Stage::Download);
            assert_eq!(cause, InstallError::HttpStatus(404));
        },
        _ => panic!("expected the download to fail"),
    }
}

#[test]
fn pipeline_reports_unreachable_download() {
    let s = state_awaiting_download();
    let (s2, _) = step(
        s,
        InstallEvent::DownloadFinished { result: Err(DownloadError::Unreachable) },
    );
    match s2 {
        InstallState::Failed { stage, cause } => {
            assert_eq!(stage, Stage::Download);
            assert_eq!(cause, InstallError::Unreachable);
        },
        _ => panic!("expected the download to fail"),
    }
}

#[test]
fn pipeline_rejects_bad_archive() {
    let s = state_awaiting_download();
    let junk: Vec<u8> = b"<html>error</html>".to_vec();
    let (s2, _) = step(s, InstallEvent::DownloadFinished { result: Ok(junk) });
    match s2 {
        InstallState::Failed { stage, cause } => {
            assert_eq!(stage, Stage::Extract);
            assert_eq!(cause, InstallError::BadArchive);
        },
        _ => panic!("expected extraction to fail"),
    }
}

#[test]
fn pipeline_rejects_traversal_archive() {
    let s = state_awaiting_download();
    let bytes = archive_with(&[("../evil", b"escape"), ("duckdb", b"bin")]);
    let (s2, a2) = step(s, InstallEvent::DownloadFinished { result: Ok(bytes) });
    match s2 {
        InstallState::Failed { stage, cause } => {
            assert_eq!(stage, Stage::Extract);
            assert_eq!(cause, InstallError::PathTraversal);
        },
        _ => panic!("expected extraction to reject the traversal entry"),
    }
    assert!(matches!(a2, InstallAction::Stop));
}

#[test]
fn pipeline_fails_when_executable_missing() {
    let s = state_awaiting_download();
    let bytes = archive_with(&[("readme.txt", b"no binary here")]);
    let (s2, _) = step(s, InstallEvent::DownloadFinished { result: Ok(bytes) });
    assert!(matches!(s2, InstallState::AwaitingWrite { has_executable: false }));
    let (s3, a3) = step(s2, InstallEvent::EntriesWritten { ok: true });
    match s3 {
        InstallState::Failed { stage, cause } => {
            assert_eq!(stage, Stage::LocateExecutable);
            assert_eq!(cause, InstallError::ExecutableMissing);
        },
        _ => panic!("expected the executable to be missing"),
    }
    assert!(matches!(a3, InstallAction::Stop));
}

#[test]
fn pipeline_reports_write_failure() {
    let s = state_awaiting_download();
    let bytes = archive_with(&[("duckdb", b"bin")]);
    let (s2, _) = step(s, InstallEvent::DownloadFinished { result: Ok(bytes) });
    let (s3, _) = step(s2, InstallEvent::EntriesWritten { ok: false });
    match s3 {
        InstallState::Failed { stage, cause } => {
            assert_eq!(stage, Stage::Extract);
            assert_eq!(cause, InstallError::Io);
        },
        _ => panic!("expected the write failure to be reported"),
    }
}

#[test]
fn pipeline_reports_permission_failure() {
    let s = state_awaiting_download();
    let bytes = archive_with(&[("duckdb", b"bin")]);
    let (s2, _) = step(s, InstallEvent::DownloadFinished { result: Ok(bytes) });
    let (s3, _) = step(s2, InstallEvent::EntriesWritten { ok: true });
    let (s4, _) = step(s3, InstallEvent::PermissionsSet { ok: false });
    match s4 {
        InstallState::Failed { stage, cause } => {
            assert_eq!(stage, Stage::SetPermissions);
            assert_eq!(cause, InstallError::Io);
        },
        _ => panic!("expected the permission failure to be reported"),
    }
}

#[test]
fn mismatched_event_changes_nothing() {
    let (s, a) = step(InstallState::Idle, InstallEvent::EntriesWritten { ok: true });
    assert!(matches!(s, InstallState::Idle));
    assert!(matches!(a, InstallAction::Stop));

    let (s2, a2) = step(InstallState::Done, InstallEvent::PermissionsSet { ok: false });
    assert!(matches!(s2, InstallState::Done));
    assert!(matches!(a2, InstallAction::Stop));
}

#[test]
fn http_status_classification() {
    assert!(classify_http_status(200).is_ok());
    assert!(classify_http_status(204).is_ok());
    assert!(classify_http_status(299).is_ok());
    assert_eq!(classify_http_status(199), Err(DownloadError::HttpStatus(199)));
    assert_eq!(classify_http_status(301), Err(DownloadError::HttpStatus(301)));
    assert_eq!(classify_http_status(404), Err(DownloadError::HttpStatus(404)));
    assert_eq!(classify_http_status(500), Err(DownloadError::HttpStatus(500)));
}
