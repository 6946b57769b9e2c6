//! Typed failures of each pipeline stage. Every failure is fatal to the run:
//! the orchestrator reports the originating stage and cause and stops.
use vstd::prelude::*;

verus! {

/// Failure while resolving the latest release from the release host.
#[derive(Clone, Copy, Debug, PartialEq, Eq, Structural)]
pub enum ResolveError {
    /// Transport-level failure (DNS, connection refused, timeout).
    Unreachable,
    /// The response body is not a release document of the expected shape.
    MalformedMetadata,
}

/// Failure while selecting the asset URL for the running platform.
#[derive(Clone, Copy, Debug, PartialEq, Eq, Structural)]
pub enum SelectError {
    /// No URL satisfies the extension + OS + kind + architecture filter chain.
    NoMatch,
}

/// Failure while downloading the selected asset.
#[derive(Clone, Copy, Debug, PartialEq, Eq, Structural)]
pub enum DownloadError {
    /// Transport-level failure reaching the download endpoint.
    Unreachable,
    /// The download endpoint answered with a non-success status code.
    HttpStatus(u16),
    /// A filesystem error while writing the downloaded bytes.
    Io,
}

/// Failure while turning the downloaded bytes into extraction entries.
#[derive(Clone, Copy, Debug, PartialEq, Eq, Structural)]
pub enum ExtractError {
    /// The bytes do not parse as an archive of the expected format.
    BadArchive,
    /// An entry's stored name would resolve outside the destination.
    PathTraversal,
    /// A filesystem error while writing an extracted entry.
    Io,
}

/// The pipeline stage at which an install run failed.
#[derive(Clone, Copy, Debug, PartialEq, Eq, Structural)]
pub enum Stage {
    PlatformCheck,
    Resolve,
    Select,
    Download,
    Extract,
    LocateExecutable,
    SetPermissions,
}

/// The cause of a failed install run, one variant per failure of the taxonomy.
#[derive(Clone, Copy, Debug, PartialEq, Eq, Structural)]
pub enum InstallError {
    /// The running OS family is not the one supported family.
    UnsupportedPlatform,
    Unreachable,
    MalformedMetadata,
    NoMatch,
    HttpStatus(u16),
    BadArchive,
    PathTraversal,
    Io,
    /// Extraction succeeded but produced no entry with the expected name.
    ExecutableMissing,
}

/// Maps a resolver failure to the install-level cause it becomes.
pub open spec fn spec_resolve_cause(e: ResolveError) -> InstallError {
    match e {
        ResolveError::Unreachable => InstallError::Unreachable,
        ResolveError::MalformedMetadata => InstallError::MalformedMetadata,
    }
}

/// Maps a download failure to the install-level cause it becomes.
pub open spec fn spec_download_cause(e: DownloadError) -> InstallError {
    match e {
        DownloadError::Unreachable => InstallError::Unreachable,
        DownloadError::HttpStatus(code) => InstallError::HttpStatus(code),
        DownloadError::Io => InstallError::Io,
    }
}

/// Maps an extraction failure to the install-level cause it becomes.
pub open spec fn spec_extract_cause(e: ExtractError) -> InstallError {
    match e {
        ExtractError::BadArchive => InstallError::BadArchive,
        ExtractError::PathTraversal => InstallError::PathTraversal,
        ExtractError::Io => InstallError::Io,
    }
}

pub fn resolve_cause(e: ResolveError) -> (r: InstallError)
    ensures
        r == spec_resolve_cause(e),
{
    match e {
        ResolveError::Unreachable => InstallError::Unreachable,
        ResolveError::MalformedMetadata => InstallError::MalformedMetadata,
    }
}

pub fn download_cause(e: DownloadError) -> (r: InstallError)
    ensures
        r == spec_download_cause(e),
{
    match e {
        DownloadError::Unreachable => InstallError::Unreachable,
        DownloadError::HttpStatus(code) => InstallError::HttpStatus(code),
        DownloadError::Io => InstallError::Io,
    }
}

pub fn extract_cause(e: ExtractError) -> (r: InstallError)
    ensures
        r == spec_extract_cause(e),
{
    match e {
        ExtractError::BadArchive => InstallError::BadArchive,
        ExtractError::PathTraversal => InstallError::PathTraversal,
        ExtractError::Io => InstallError::Io,
    }
}

/// Classifies a transport status code: only 2xx counts as success, any other
/// code fails the download with that code.
pub fn classify_http_status(code: u16) -> (r: Result<(), DownloadError>)
    ensures
        r is Ok <==> 200 <= code < 300,
        r is Err ==> r->Err_0 == DownloadError::HttpStatus(code),
{
    if 200 <= code && code < 300 {
        Ok(())
    } else {
        Err(DownloadError::HttpStatus(code))
    }
}

} // verus!
