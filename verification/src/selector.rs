//! Asset selector: given the candidate download URLs of a release and a
//! platform descriptor, deterministically picks the single URL matching the
//! running machine, or reports that none matches.
//!
//! The filter chain, in order: keep zip-style archives, keep URLs with the
//! OS-family token, keep the command-line-binary assets, then take the first
//! URL carrying a token compatible with the detected CPU architecture.
use vstd::prelude::*;

use crate::errors::SelectError;
use crate::text::{contains_seq, ends_with_seq, str_contains, str_ends_with, str_eq};

verus! {

/// The OS family reported by the OS-detection collaborator.
#[derive(Clone, Copy, Debug, PartialEq, Eq, Structural)]
pub enum OsFamily {
    Linux,
    Windows,
    MacOs,
    Other,
}

/// The (OS family, CPU architecture) pair identifying the running machine.
/// The architecture is a free-form token; no canonical list exists upstream,
/// so matching is tolerant rather than exhaustive.
#[derive(Clone, Debug)]
pub struct PlatformDescriptor {
    pub os_family: OsFamily,
    pub architecture: Option<String>,
}

/// The URL token that identifies an architecture, under the tolerant mapping:
/// `"arm64"`/`"aarch"` map to the `"aarch"` token, `"amd"`/`"x86_64"` to the
/// `"amd"` token, and any other value is unrecognized.
pub open spec fn spec_arch_token(arch: Seq<char>) -> Option<Seq<char>> {
    if arch == "arm64"@ || arch == "aarch"@ {
        Some("aarch"@)
    } else if arch == "amd"@ || arch == "x86_64"@ {
        Some("amd"@)
    } else {
        None
    }
}

/// The architecture token of a platform descriptor, if its architecture is
/// present and recognized.
pub open spec fn spec_platform_arch_token(arch: Option<String>) -> Option<Seq<char>> {
    match arch {
        Some(a) => spec_arch_token(a@),
        None => None,
    }
}

/// The URL token of an OS family. Only the one supported target family
/// carries a token here, so selection fails outright for every other family;
/// the installer refuses those families before selection anyway.
pub open spec fn spec_os_token(f: OsFamily) -> Option<Seq<char>> {
    match f {
        OsFamily::Linux => Some("linux"@),
        _ => None,
    }
}

/// Whether `url` passes the whole filter chain for platform `p`.
pub open spec fn is_candidate(url: Seq<char>, p: PlatformDescriptor) -> bool {
    &&& ends_with_seq(url, "zip"@)
    &&& spec_os_token(p.os_family) is Some
    &&& contains_seq(url, spec_os_token(p.os_family).unwrap())
    &&& contains_seq(url, "cli"@)
    &&& spec_platform_arch_token(p.architecture) is Some
    &&& contains_seq(url, spec_platform_arch_token(p.architecture).unwrap())
}

/// The first index at or after `i` whose URL passes the filter chain.
pub open spec fn first_candidate_from(urls: Seq<Seq<char>>, p: PlatformDescriptor, i: int) -> Option<int>
    decreases urls.len() - i,
{
    if i < 0 || i >= urls.len() {
        None
    } else if is_candidate(urls[i], p) {
        Some(i)
    } else {
        first_candidate_from(urls, p, i + 1)
    }
}

/// The index of the URL that selection picks, if any: the first candidate in
/// original list order.
pub open spec fn spec_selected(urls: Seq<Seq<char>>, p: PlatformDescriptor) -> Option<int> {
    first_candidate_from(urls, p, 0)
}

/// The character sequences of a list of URL strings.
pub open spec fn url_views(urls: Seq<String>) -> Seq<Seq<char>> {
    urls.map_values(|u: String| u@)
}

/// The token a recognized architecture value maps to, or `None` for an
/// unrecognized or absent one.
pub fn arch_token(arch: &str) -> (r: Option<&'static str>)
    ensures
        match r {
            Some(t) => spec_arch_token(arch@) == Some(t@),
            None => spec_arch_token(arch@) is None,
        },
{
    if str_eq(arch, "arm64") || str_eq(arch, "aarch") {
        Some("aarch")
    } else if str_eq(arch, "amd") || str_eq(arch, "x86_64") {
        Some("amd")
    } else {
        None
    }
}

/// Whether `url` passes the whole filter chain for `platform`.
pub fn url_matches(url: &str, platform: &PlatformDescriptor) -> (b: bool)
    ensures
        b == is_candidate(url@, *platform),
{
    if !str_ends_with(url, "zip") {
        return false;
    }
    let os_tok: &'static str = match platform.os_family {
        OsFamily::Linux => "linux",
        _ => {
            return false;
        },
    };
    if !str_contains(url, os_tok) {
        return false;
    }
    if !str_contains(url, "cli") {
        return false;
    }
    match &platform.architecture {
        Some(a) => match arch_token(a.as_str()) {
            Some(t) => str_contains(url, t),
            None => false,
        },
        None => false,
    }
}

/// Picks the download URL for `platform` out of `urls`: the first URL that
/// passes the filter chain, in original list order. Fails with `NoMatch` if
/// and only if no URL passes it.
pub fn select(urls: &Vec<String>, platform: &PlatformDescriptor) -> (r: Result<String, SelectError>)
    ensures
        match r {
            Ok(u) => ({
                &&& spec_selected(url_views(urls@), *platform) is Some
                &&& u@ == url_views(urls@)[spec_selected(url_views(urls@), *platform).unwrap()]
            }),
            Err(e) => ({
                &&& e == SelectError::NoMatch
                &&& spec_selected(url_views(urls@), *platform) is None
            }),
        },
{
    let ghost views = url_views(urls@);
    let n: usize = urls.len();
    let mut i: usize = 0;
    while i < n
        invariant
            n == urls@.len(),
            views == url_views(urls@),
            views.len() == n,
            0 <= i <= n,
            spec_selected(views, *platform) == first_candidate_from(views, *platform, i as int),
        decreases n - i,
    {
        if url_matches(urls[i].as_str(), platform) {
            assert(is_candidate(views[i as int], *platform));
            assert(first_candidate_from(views, *platform, i as int) == Some(i as int));
            return Ok(urls[i].clone());
        }
        assert(!is_candidate(views[i as int], *platform));
        assert(first_candidate_from(views, *platform, i as int) == first_candidate_from(
            views,
            *platform,
            i as int + 1,
        ));
        i += 1;
    }
    assert(first_candidate_from(views, *platform, n as int) is None);
    Err(SelectError::NoMatch)
}

/// Characterizes the selected index: it is in range, its URL passes the whole
/// filter chain, and no earlier URL does; and when selection fails, no URL in
/// the list passes the chain.
pub proof fn lemma_selected_is_first_candidate(urls: Seq<Seq<char>>, p: PlatformDescriptor)
    ensures
        spec_selected(urls, p) matches Some(i) ==> {
            &&& 0 <= i < urls.len()
            &&& is_candidate(urls[i], p)
            &&& forall|k: int| 0 <= k < i ==> !is_candidate(urls[k], p)
        },
        spec_selected(urls, p) is None ==> forall|k: int|
            0 <= k < urls.len() ==> !is_candidate(urls[k], p),
{
    lemma_first_candidate_from_props(urls, p, 0);
}

proof fn lemma_first_candidate_from_props(urls: Seq<Seq<char>>, p: PlatformDescriptor, i: int)
    requires
        0 <= i,
    ensures
        first_candidate_from(urls, p, i) matches Some(j) ==> {
            &&& i <= j < urls.len()
            &&& is_candidate(urls[j], p)
            &&& forall|k: int| i <= k < j ==> !is_candidate(urls[k], p)
        },
        first_candidate_from(urls, p, i) is None ==> forall|k: int|
            i <= k < urls.len() ==> !is_candidate(urls[k], p),
    decreases urls.len() - i,
{
    if i < urls.len() && !is_candidate(urls[i], p) {
        lemma_first_candidate_from_props(urls, p, i + 1);
    }
}

/// With an unrecognized or absent architecture value no URL passes the filter
/// chain, so selection fails with `NoMatch` for every URL list.
pub proof fn lemma_unrecognized_arch_never_matches(urls: Seq<Seq<char>>, p: PlatformDescriptor)
    requires
        spec_platform_arch_token(p.architecture) is None,
    ensures
        spec_selected(urls, p) is None,
{
    lemma_no_candidate_from(urls, p, 0);
}

proof fn lemma_no_candidate_from(urls: Seq<Seq<char>>, p: PlatformDescriptor, i: int)
    requires
        0 <= i,
        spec_platform_arch_token(p.architecture) is None,
    ensures
        first_candidate_from(urls, p, i) is None,
    decreases urls.len() - i,
{
    if i < urls.len() {
        lemma_no_candidate_from(urls, p, i + 1);
    }
}

/// Selection is a pure function of the URL list and the platform descriptor:
/// any two results that `select`'s contract allows on the same inputs agree.
pub proof fn lemma_select_deterministic(
    urls: Seq<Seq<char>>,
    p: PlatformDescriptor,
    r1: Option<int>,
    r2: Option<int>,
)
    requires
        r1 == spec_selected(urls, p),
        r2 == spec_selected(urls, p),
    ensures
        r1 == r2,
{
}

} // verus!
