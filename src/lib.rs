//! Fetching a WIT package from a registry: choosing the registry, pinning the
//! version, deciding between the local cache and the network, and recording
//! what was fetched.

mod cache;
mod download;
mod endpoint;
mod error;
mod package;
mod version;

pub use cache::{
    copy_bytes, latest_entry, CacheEntry, CacheEntryView, CacheKey, CacheKeyView, PackageCache,
};
pub use download::{
    accept, accepted, cache_hit, cache_key_of, complete, download_run, fetch_run, from_cache,
    lemma_download_twice_same, lemma_exact_download_served_again, lemma_missing_version_not_found,
    lemma_newest_release_recorded, lemma_update_bypasses_cache, output_fits, plan, DownloadOutcome,
    DownloadRequest, Fetched, OutputTarget, Plan, RegistryError,
};
pub use endpoint::{
    alias_url, chosen_alias, endpoint_of, lemma_endpoint_precedence, resolve_endpoint, ClientConfig,
    ProjectConfig, ProjectView, RegistryEndpoint,
};
pub use error::DownloadError;
pub use package::{default_file_name_of, package_name_parts, PackageName};
pub use version::{
    lemma_exact_version_pins, lemma_no_version_accepts_newest, requirement_matches, requirement_of,
    resolve_version, semver_parts, Version, VersionParts, VersionRequirement,
};
