//! The release-metadata model: the subset of the release host's "latest
//! release" document that the pipeline reads. Only each asset's download URL
//! carries behavior; the remaining fields are carried verbatim and ignored.
use vstd::prelude::*;

verus! {

/// One release document of the release host.
#[derive(Debug, Clone)]
pub struct Root {
    pub url: String,
    pub assets_url: String,
    pub upload_url: String,
    pub html_url: String,
    pub id: i64,
    pub author: Author,
    pub node_id: String,
    pub tag_name: String,
    pub target_commitish: String,
    pub name: String,
    pub draft: bool,
    pub prerelease: bool,
    pub created_at: String,
    pub published_at: String,
    pub assets: Vec<Asset>,
    pub tarball_url: String,
    pub zipball_url: String,
    pub body: String,
    pub reactions: Reactions,
    pub mentions_count: i64,
}

/// The account that published a release.
#[derive(Debug, Clone)]
pub struct Author {
    pub login: String,
    pub id: i64,
    pub node_id: String,
    pub avatar_url: String,
    pub gravatar_id: String,
    pub url: String,
    pub html_url: String,
    pub followers_url: String,
    pub following_url: String,
    pub gists_url: String,
    pub starred_url: String,
    pub subscriptions_url: String,
    pub organizations_url: String,
    pub repos_url: String,
    pub events_url: String,
    pub received_events_url: String,
    pub type_field: String,
    pub site_admin: bool,
}

/// One downloadable file attached to a release. `browser_download_url` is the
/// only field the pipeline decides on.
#[derive(Debug, Clone)]
pub struct Asset {
    pub url: String,
    pub id: i64,
    pub node_id: String,
    pub name: String,
    pub label: Option<String>,
    pub uploader: Uploader,
    pub content_type: String,
    pub state: String,
    pub size: i64,
    pub download_count: i64,
    pub created_at: String,
    pub updated_at: String,
    pub browser_download_url: String,
}

/// The account that uploaded an asset.
#[derive(Debug, Clone)]
pub struct Uploader {
    pub login: String,
    pub id: i64,
    pub node_id: String,
    pub avatar_url: String,
    pub gravatar_id: String,
    pub url: String,
    pub html_url: String,
    pub followers_url: String,
    pub following_url: String,
    pub gists_url: String,
    pub starred_url: String,
    pub subscriptions_url: String,
    pub organizations_url: String,
    pub repos_url: String,
    pub events_url: String,
    pub received_events_url: String,
    pub type_field: String,
    pub site_admin: bool,
}

/// Reaction counters of a release; incidental, carried verbatim.
#[derive(Debug, Clone)]
pub struct Reactions {
    pub url: String,
    pub total_count: i64,
    pub n1: i64,
    pub n12: i64,
    pub laugh: i64,
    pub hooray: i64,
    pub confused: i64,
    pub heart: i64,
    pub rocket: i64,
    pub eyes: i64,
}

/// The download URLs of a release's assets, in document order.
pub open spec fn spec_asset_urls(assets: Seq<Asset>) -> Seq<Seq<char>> {
    assets.map_values(|a: Asset| a.browser_download_url@)
}

/// Extracts the candidate download URLs from a release document, one per
/// asset, in document order.
pub fn asset_urls(release: &Root) -> (r: Vec<String>)
    ensures
        r@.len() == release.assets@.len(),
        forall|i: int| 0 <= i < r@.len() ==> r@[i]@ == release.assets@[i].browser_download_url@,
{
    let n: usize = release.assets.len();
    let mut r: Vec<String> = Vec::new();
    let mut i: usize = 0;
    while i < n
        invariant
            n == release.assets@.len(),
            0 <= i <= n,
            r@.len() == i,
            forall|k: int| 0 <= k < i ==> r@[k]@ == release.assets@[k].browser_download_url@,
        decreases n - i,
    {
        r.push(release.assets[i].browser_download_url.clone());
        i += 1;
    }
    r
}

/// The fixed release-metadata endpoint of the one hard-coded upstream project.
pub fn release_endpoint() -> (r: &'static str)
    ensures
        r@ == "https://api.github.com/repos/duckdb/duckdb/releases/latest"@,
{
    "https://api.github.com/repos/duckdb/duckdb/releases/latest"
}

/// The identifying client marker sent with metadata requests; the release
/// host rejects anonymous requests.
pub fn client_marker() -> (r: &'static str)
    ensures
        r@ == "duckup"@,
{
    "duckup"
}

/// The fixed name of the executable the archive is expected to produce.
pub fn executable_name() -> (r: &'static str)
    ensures
        r@ == "duckdb"@,
{
    "duckdb"
}

/// The file name the downloaded archive is stored under in the scratch
/// directory.
pub fn archive_file_name() -> (r: &'static str)
    ensures
        r@ == "downloaded.zip"@,
{
    "downloaded.zip"
}

} // verus!
