use duckup::errors::SelectError;
use duckup::selector::{arch_token, select, url_matches, OsFamily, PlatformDescriptor};

fn platform(os: OsFamily, arch: Option<&str>) -> PlatformDescriptor {
    PlatformDescriptor { os_family: os, architecture: arch.map(|a| a.to_string()) }
}

fn urls(list: &[&str]) -> Vec<String> {
    list.iter().map(|u| u.to_string()).collect()
}

fn fixture() -> Vec<String> {
    urls(&[
        "https://host.example/duckdb-linux-amd64-cli.zip",
        "https://host.example/duckdb-linux-aarch64-cli.zip",
        "https://host.example/duckdb-windows-amd64-cli.zip",
        "https://host.example/duckdb-linux-amd64-cli.tar.gz",
    ])
}

#[test]
fn selector_picks_linux_amd_zip() {
    let p = platform(OsFamily::Linux, Some("amd"));
    let r = select(&fixture(), &p).unwrap();
    assert_eq!(r, "https://host.example/duckdb-linux-amd64-cli.zip");
}

#[test]
fn selector_picks_aarch_for_arm64() {
    let p = platform(OsFamily::Linux, Some("arm64"));
    let r = select(&fixture(), &p).unwrap();
    assert_eq!(r, "https://host.example/duckdb-linux-aarch64-cli.zip");
}

#[test]
fn selector_is_deterministic() {
    let p = platform(OsFamily::Linux, Some("x86_64"));
    let first = select(&fixture(), &p);
    let second = select(&fixture(), &p);
    assert_eq!(first.clone().unwrap(), second.unwrap());
    assert_eq!(first.unwrap(), "https://host.example/duckdb-linux-amd64-cli.zip");
}

#[test]
fn selector_end_to_end_fixture_x86_64() {
    let list = urls(&[
        "https://host.example/duckdb-linux-amd64-cli.zip",
        "https://host.example/duckdb-linux-aarch64-cli.zip",
        "https://host.example/duckdb-linux-amd64-lib.zip",
        "https://host.example/duckdb-darwin-amd64-cli.zip",
    ]);
    let p = platform(OsFamily::Linux, Some("x86_64"));
    let r = select(&list, &p).unwrap();
    assert_eq!(r, "https://host.example/duckdb-linux-amd64-cli.zip");
}

#[test]
fn selector_no_match_for_unrecognized_arch() {
    let p = platform(OsFamily::Linux, Some("riscv"));
    assert_eq!(select(&fixture(), &p), Err(SelectError::NoMatch));
}

#[test]
fn selector_no_match_for_absent_arch() {
    let p = platform(OsFamily::Linux, None);
    assert_eq!(select(&fixture(), &p), Err(SelectError::NoMatch));
}

#[test]
fn selector_no_match_on_windows() {
    let p = platform(OsFamily::Windows, Some("amd"));
    assert_eq!(select(&fixture(), &p), Err(SelectError::NoMatch));
}

#[test]
fn selector_no_match_on_empty_list() {
    let p = platform(OsFamily::Linux, Some("amd"));
    assert_eq!(select(&urls(&[]), &p), Err(SelectError::NoMatch));
}

#[test]
fn selector_takes_first_of_several_matches() {
    let list = urls(&[
        "https://host.example/a-linux-amd64-cli.zip",
        "https://host.example/b-linux-amd64-cli.zip",
    ]);
    let p = platform(OsFamily::Linux, Some("amd"));
    assert_eq!(select(&list, &p).unwrap(), "https://host.example/a-linux-amd64-cli.zip");
}

#[test]
fn arch_token_mapping() {
    assert_eq!(arch_token("arm64"), Some("aarch"));
    assert_eq!(arch_token("aarch"), Some("aarch"));
    assert_eq!(arch_token("amd"), Some("amd"));
    assert_eq!(arch_token("x86_64"), Some("amd"));
    assert_eq!(arch_token("riscv"), None);
    assert_eq!(arch_token(""), None);
}

#[test]
fn url_matches_rejects_tar_gz() {
    let p = platform(OsFamily::Linux, Some("amd"));
    assert!(!url_matches("https://host.example/duckdb-linux-amd64-cli.tar.gz", &p));
    assert!(url_matches("https://host.example/duckdb-linux-amd64-cli.zip", &p));
}

#[test]
fn url_matches_requires_cli_token() {
    let p = platform(OsFamily::Linux, Some("amd"));
    assert!(!url_matches("https://host.example/duckdb-linux-amd64-lib.zip", &p));
}
