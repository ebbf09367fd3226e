use vstd::prelude::*;

use crate::cache::{copy_bytes, latest_entry, CacheEntryView, CacheKey, CacheKeyView, PackageCache};
use crate::endpoint::{endpoint_of, opt_view, project_view, resolve_endpoint, str_view, ClientConfig, ProjectConfig, RegistryEndpoint};
use crate::error::DownloadError;
use crate::package::{default_file_name_of, PackageName};
use crate::version::{requirement_matches, requirement_of, resolve_version, Version, VersionParts, VersionRequirement};

verus! {

/// How the registry client answered a fetch.
#[derive(Debug, Clone, PartialEq, Eq)]
pub enum RegistryError {
    /// Transport or protocol failure, with the client's message.
    Transport(String),
    /// The registry knows no such package.
    PackageNotFound,
    /// The package has no release that satisfies the requirement.
    NoMatchingRelease,
}

/// A release's content together with its version.
#[derive(Debug, Clone, PartialEq, Eq)]
pub struct Fetched {
    pub version: Version,
    pub content: Vec<u8>,
}

impl View for Fetched {
    type V = (VersionParts, Seq<u8>);

    open spec fn view(&self) -> (VersionParts, Seq<u8>) {
        (self.version@, self.content@)
    }
}

/// Where the downloaded package is written.
#[derive(Debug, Clone, PartialEq, Eq)]
pub enum OutputTarget {
    /// The path the user gave.
    Path(String),
    /// This file name inside the target directory.
    InDirectory(String),
}

impl OutputTarget {
    /// A copy of this target.
    pub fn copied(&self) -> (r: OutputTarget)
        ensures
            r == *self,
    {
        match self {
            OutputTarget::Path(p) => OutputTarget::Path(p.clone()),
            OutputTarget::InDirectory(f) => OutputTarget::InDirectory(f.clone()),
        }
    }
}

/// What the user asked to download.
#[derive(Debug, Clone, PartialEq, Eq)]
pub struct DownloadRequest {
    /// The registry alias, if any.
    pub registry: Option<String>,
    pub package: PackageName,
    /// The exact version, if any; without one the newest release is taken.
    pub version: Option<String>,
    /// Skip the cache and ask the registry.
    pub update: bool,
    /// The output path, if any; without one `{name}.wit` in the target directory.
    pub output: Option<String>,
}

/// A download whose registry and version requirement are settled.
#[derive(Debug, Clone, PartialEq, Eq)]
pub struct Plan {
    pub endpoint: RegistryEndpoint,
    pub package: PackageName,
    pub requirement: VersionRequirement,
    pub update: bool,
    pub output: OutputTarget,
}

/// The result of a completed download.
#[derive(Debug, Clone, PartialEq, Eq)]
pub struct DownloadOutcome {
    pub output: OutputTarget,
    pub version: Version,
    pub content: Vec<u8>,
}

/// Whether `target` is where `request` asks the package to be written.
pub open spec fn output_fits(request: DownloadRequest, target: OutputTarget) -> bool {
    match request.output {
        Some(p) => target == OutputTarget::Path(p),
        None => target matches OutputTarget::InDirectory(f) && f@ == default_file_name_of(request.package@),
    }
}

/// Settles a request: first the registry endpoint, then the version requirement.
/// Nothing is fetched when either fails.
pub fn plan(request: &DownloadRequest, project: Option<&ProjectConfig>, client: &ClientConfig) -> (r: Result<Plan, DownloadError>)
    ensures
        ({
            let ep = endpoint_of(opt_view(request.registry), project_view(project), opt_view(client.home_url));
            let req = requirement_of(opt_view(request.version));
            match r {
                Ok(p) => ep == Some(p.endpoint@) && req == Some(p.requirement@)
                    && p.package@ == request.package@ && p.update == request.update
                    && output_fits(*request, p.output),
                Err(e) => if ep.is_none() {
                    e matches DownloadError::RegistryNotConfigured(_)
                } else {
                    req.is_none() && e matches DownloadError::InvalidVersionFormat(_)
                },
            }
        }),
{
    let alias: Option<&str> = match &request.registry {
        Some(a) => Some(a.as_str()),
        None => None,
    };
    assert(str_view(alias) == opt_view(request.registry));
    let endpoint = resolve_endpoint(alias, project, client)?;
    let text: Option<&str> = match &request.version {
        Some(v) => Some(v.as_str()),
        None => None,
    };
    let requirement = resolve_version(text)?;
    let output = match &request.output {
        Some(p) => OutputTarget::Path(p.clone()),
        None => OutputTarget::InDirectory(request.package.default_file_name()),
    };
    Ok(Plan { endpoint, package: request.package.copied(), requirement, update: request.update, output })
}

/// The cache key of a plan's package at `version`.
pub open spec fn cache_key_of(p: Plan, version: VersionParts) -> CacheKeyView {
    (p.endpoint.url@, p.package@, version)
}

/// The cached entry that serves a plan: only for an exact version and without
/// a forced update. The newest release is always asked of the registry, so a
/// cached copy never stands in for a release that has since been superseded.
pub open spec fn cache_hit(p: Plan, cache: Seq<(CacheKeyView, CacheEntryView)>) -> Option<CacheEntryView> {
    if !p.update && p.requirement@.is_some() {
        latest_entry(cache, cache_key_of(p, p.requirement@.unwrap()))
    } else {
        None
    }
}

/// What a download makes of the registry's answer.
pub open spec fn accepted(p: Plan, answer: Result<Fetched, RegistryError>) -> Result<(VersionParts, Seq<u8>), DownloadError> {
    match answer {
        Ok(f) => if requirement_matches(p.requirement@, f.version@) {
            Ok(f@)
        } else {
            Err(DownloadError::VersionNotFound)
        },
        Err(RegistryError::Transport(m)) => Err(DownloadError::RegistryFetchFailed(m)),
        Err(RegistryError::PackageNotFound) => Err(DownloadError::PackageNotFound),
        Err(RegistryError::NoMatchingRelease) => if p.requirement@.is_some() {
            Err(DownloadError::VersionNotFound)
        } else {
            Err(DownloadError::PackageNotFound)
        },
    }
}

/// A download that asks the registry: the release's version and content, or the
/// error, and the cache afterwards, which has the release recorded under its own
/// version when it was accepted.
pub open spec fn fetch_run(
    p: Plan,
    cache: Seq<(CacheKeyView, CacheEntryView)>,
    answer: Result<Fetched, RegistryError>,
    at: u64,
) -> (Result<(VersionParts, Seq<u8>), DownloadError>, Seq<(CacheKeyView, CacheEntryView)>) {
    match accepted(p, answer) {
        Ok(f) => (Ok(f), cache.push((cache_key_of(p, f.0), (f.1, at, f.0)))),
        Err(e) => (Err(e), cache),
    }
}

/// One whole download: the release's version and content, or the error, and
/// the cache afterwards. `answer` is what the registry would answer; a cache hit
/// never asks it.
pub open spec fn download_run(
    p: Plan,
    cache: Seq<(CacheKeyView, CacheEntryView)>,
    answer: Result<Fetched, RegistryError>,
    at: u64,
) -> (Result<(VersionParts, Seq<u8>), DownloadError>, Seq<(CacheKeyView, CacheEntryView)>) {
    match cache_hit(p, cache) {
        Some(e) => (Ok((p.requirement@.unwrap(), e.0)), cache),
        None => fetch_run(p, cache, answer, at),
    }
}

/// The download served from the cache, if the plan lets the cache serve it and
/// the cache holds the release; `None` means the registry must be asked.
pub fn from_cache(p: &Plan, cache: &PackageCache) -> (r: Option<DownloadOutcome>)
    ensures
        match r {
            Some(o) => cache_hit(*p, cache@) matches Some(e) && o.content@ == e.0
                && o.version@ == p.requirement@.unwrap() && o.output == p.output,
            None => cache_hit(*p, cache@).is_none(),
        },
{
    if p.update {
        return None;
    }
    match &p.requirement {
        VersionRequirement::Latest => None,
        VersionRequirement::Exact(v) => {
            let key = CacheKey { registry: p.endpoint.url.clone(), package: p.package.copied(), version: v.copied() };
            match cache.lookup(&key) {
                Some(e) => Some(DownloadOutcome { output: p.output.copied(), version: v.copied(), content: copy_bytes(&e.content) }),
                None => None,
            }
        },
    }
}

/// Checks the registry's answer against the plan's requirement.
pub fn accept(p: &Plan, answer: Result<Fetched, RegistryError>) -> (r: Result<Fetched, DownloadError>)
    ensures
        match r {
            Ok(f) => accepted(*p, answer) == Ok::<(VersionParts, Seq<u8>), DownloadError>(f@),
            Err(e) => accepted(*p, answer) == Err::<(VersionParts, Seq<u8>), DownloadError>(e),
        },
{
    match answer {
        Ok(f) => if p.requirement.matches(&f.version) {
            Ok(f)
        } else {
            Err(DownloadError::VersionNotFound)
        },
        Err(RegistryError::Transport(m)) => Err(DownloadError::RegistryFetchFailed(m)),
        Err(RegistryError::PackageNotFound) => Err(DownloadError::PackageNotFound),
        Err(RegistryError::NoMatchingRelease) => match &p.requirement {
            VersionRequirement::Exact(_) => Err(DownloadError::VersionNotFound),
            VersionRequirement::Latest => Err(DownloadError::PackageNotFound),
        },
    }
}

/// Finishes a download that asks the registry: checks the registry's
/// answer and, when it is accepted, keeps the content in the cache under the
/// release's own version.
pub fn complete(p: &Plan, cache: &mut PackageCache, answer: Result<Fetched, RegistryError>, at: u64) -> (r: Result<DownloadOutcome, DownloadError>)
    ensures
        ({
            let (res, after) = fetch_run(*p, old(cache)@, answer, at);
            &&& final(cache)@ == after
            &&& match r {
                Ok(o) => res == Ok::<(VersionParts, Seq<u8>), DownloadError>((o.version@, o.content@))
                    && o.output == p.output,
                Err(e) => res == Err::<(VersionParts, Seq<u8>), DownloadError>(e),
            }
        }),
{
    match accept(p, answer) {
        Ok(f) => {
            let key = CacheKey { registry: p.endpoint.url.clone(), package: p.package.copied(), version: f.version.copied() };
            cache.store(key, copy_bytes(&f.content), at);
            Ok(DownloadOutcome { output: p.output.copied(), version: f.version, content: f.content })
        },
        Err(e) => Err(e),
    }
}

/// Idempotence: with the registry answering the same, downloading twice gives
/// the same release and content, and the cache then holds the same content for
/// that release as after the first download.
pub proof fn lemma_download_twice_same(
    p: Plan,
    cache: Seq<(CacheKeyView, CacheEntryView)>,
    answer: Result<Fetched, RegistryError>,
    first_at: u64,
    second_at: u64,
)
    ensures
        ({
            let (first, after_first) = download_run(p, cache, answer, first_at);
            let (second, after_second) = download_run(p, after_first, answer, second_at);
            &&& second == first
            &&& first is Ok ==> {
                let key = cache_key_of(p, first->Ok_0.0);
                &&& latest_entry(after_first, key) is Some
                &&& latest_entry(after_second, key) is Some
                &&& latest_entry(after_second, key)->Some_0.0 == latest_entry(after_first, key)->Some_0.0
            }
        }),
{
    let (first, after_first) = download_run(p, cache, answer, first_at);
    if cache_hit(p, cache) is None {
        if let Ok(f) = accepted(p, answer) {
            let key = cache_key_of(p, f.0);
            assert(after_first.drop_last() =~= cache);
            assert(latest_entry(after_first, key) == Some((f.1, first_at, f.0)));
            if !p.update && p.requirement@ is Some {
                assert(f.0 == p.requirement@.unwrap());
            }
            let (second, after_second) = download_run(p, after_first, answer, second_at);
            if cache_hit(p, after_first) is None {
                assert(after_second.drop_last() =~= after_first);
            }
        }
    }
}

/// An exact version that was downloaded once is served from the cache
/// afterwards, whatever the registry would answer then, unless an update is forced.
pub proof fn lemma_exact_download_served_again(
    p: Plan,
    cache: Seq<(CacheKeyView, CacheEntryView)>,
    answer: Result<Fetched, RegistryError>,
    later_answer: Result<Fetched, RegistryError>,
    first_at: u64,
    second_at: u64,
)
    requires
        p.requirement@ is Some,
        !p.update,
        download_run(p, cache, answer, first_at).0 is Ok,
    ensures
        ({
            let (first, after_first) = download_run(p, cache, answer, first_at);
            &&& cache_hit(p, after_first) is Some
            &&& download_run(p, after_first, later_answer, second_at) == (first, after_first)
        }),
{
    let (first, after_first) = download_run(p, cache, answer, first_at);
    if cache_hit(p, cache) is None {
        let f = accepted(p, answer)->Ok_0;
        assert(after_first.drop_last() =~= cache);
        assert(f.0 == p.requirement@.unwrap());
    }
}

/// A forced update never takes the cache's word: the registry's answer decides
/// the result even where the cache holds the release.
pub proof fn lemma_update_bypasses_cache(
    p: Plan,
    cache: Seq<(CacheKeyView, CacheEntryView)>,
    answer: Result<Fetched, RegistryError>,
    at: u64,
)
    requires
        p.update,
    ensures
        cache_hit(p, cache) is None,
        download_run(p, cache, answer, at).0 == accepted(p, answer),
{
}

/// Without a version the registry's newest release is taken and recorded in the
/// cache under its own version, never under a "latest" marker.
pub proof fn lemma_newest_release_recorded(
    p: Plan,
    cache: Seq<(CacheKeyView, CacheEntryView)>,
    release: Fetched,
    at: u64,
)
    requires
        p.requirement@ is None,
    ensures
        ({
            let (res, after) = download_run(p, cache, Ok(release), at);
            &&& res == Ok::<(VersionParts, Seq<u8>), DownloadError>((release.version@, release.content@))
            &&& latest_entry(after, cache_key_of(p, release.version@))
                == Some((release.content@, at, release.version@))
        }),
{
    let (res, after) = download_run(p, cache, Ok(release), at);
    assert(after.drop_last() =~= cache);
}

/// An exact version that the registry does not have fails with
/// `VersionNotFound` and leaves the cache as it was.
pub proof fn lemma_missing_version_not_found(
    p: Plan,
    cache: Seq<(CacheKeyView, CacheEntryView)>,
    answer: Result<Fetched, RegistryError>,
    at: u64,
)
    requires
        p.requirement@ is Some,
        cache_hit(p, cache) is None,
        answer matches Err(RegistryError::NoMatchingRelease) || (answer matches Ok(f) && f.version@ != p.requirement@.unwrap()),
    ensures
        download_run(p, cache, answer, at) == (Err::<(VersionParts, Seq<u8>), DownloadError>(DownloadError::VersionNotFound), cache),
{
}

} // verus!
