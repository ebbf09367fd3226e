use vstd::prelude::*;

verus! {

/// Why a download did not complete.
#[derive(Debug, Clone, PartialEq, Eq)]
pub enum DownloadError {
    /// The version text given by the user is not a semantic version.
    InvalidVersionFormat(String),
    /// The package name is not of the form `namespace:name`.
    InvalidPackageName(String),
    /// No registry URL could be found for the alias asked for (if any).
    RegistryNotConfigured(Option<String>),
    /// The registry could not be reached or answered with a protocol error.
    RegistryFetchFailed(String),
    /// The registry knows no such package.
    PackageNotFound,
    /// No published release matches the exact version asked for.
    VersionNotFound,
    /// The fetched content could not be kept in the cache.
    CacheWriteFailed(String),
    /// The output file could not be written.
    OutputWriteFailed(String),
}

} // verus!
