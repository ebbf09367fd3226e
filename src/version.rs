use vstd::prelude::*;

use crate::error::DownloadError;

verus! {

/// The parts of a semantic version: major, minor, patch, pre-release and build metadata.
pub type VersionParts = (u64, u64, u64, Seq<char>, Seq<char>);

/// What `semver::Version::parse` makes of a text: its parts, or `None` where it rejects it.
pub uninterp spec fn semver_parts(text: Seq<char>) -> Option<VersionParts>;

/// A semantic version as plain values.
#[derive(Debug, Clone, PartialEq, Eq)]
pub struct Version {
    pub major: u64,
    pub minor: u64,
    pub patch: u64,
    pub pre: String,
    pub build: String,
}

impl View for Version {
    type V = VersionParts;

    open spec fn view(&self) -> VersionParts {
        (self.major, self.minor, self.patch, self.pre@, self.build@)
    }
}

/// Relies on `semver::Version::parse` for the syntax of a version; its parts are
/// copied out field by field.
#[verifier::external_body]
fn semver_parse(text: &str) -> (r: Option<Version>)
    ensures
        match r {
            Some(v) => semver_parts(text@) == Some(v@),
            None => semver_parts(text@).is_none(),
        },
{
    match semver::Version::parse(text) {
        Ok(v) => Some(Version {
            major: v.major,
            minor: v.minor,
            patch: v.patch,
            pre: v.pre.as_str().to_string(),
            build: v.build.as_str().to_string(),
        }),
        Err(_) => None,
    }
}

impl Version {
    /// Parses a semantic version such as `1.2.3` or `1.0.0-rc.1+build.5`.
    pub fn parse(text: &str) -> (r: Option<Version>)
        ensures
            match r {
                Some(v) => semver_parts(text@) == Some(v@),
                None => semver_parts(text@).is_none(),
            },
    {
        semver_parse(text)
    }

    /// A copy of this version.
    pub fn copied(&self) -> (r: Version)
        ensures
            r@ == self@,
    {
        Version {
            major: self.major,
            minor: self.minor,
            patch: self.patch,
            pre: self.pre.clone(),
            build: self.build.clone(),
        }
    }

    /// Whether two versions are the same release, build metadata included.
    pub fn same_release(&self, other: &Version) -> (r: bool)
        ensures
            r == (self@ == other@),
    {
        self.major == other.major && self.minor == other.minor && self.patch == other.patch
            && self.pre == other.pre && self.build == other.build
    }
}

/// Which releases of a package a download accepts.
#[derive(Debug, Clone, PartialEq, Eq)]
pub enum VersionRequirement {
    /// Exactly this release and no other.
    Exact(Version),
    /// Whatever release the registry reports as the newest.
    Latest,
}

impl View for VersionRequirement {
    /// `Some(v)` for an exact release, `None` for the newest one.
    type V = Option<VersionParts>;

    open spec fn view(&self) -> Option<VersionParts> {
        match self {
            VersionRequirement::Exact(v) => Some(v@),
            VersionRequirement::Latest => None,
        }
    }
}

/// Whether a release satisfies a requirement.
pub open spec fn requirement_matches(req: Option<VersionParts>, release: VersionParts) -> bool {
    match req {
        Some(v) => release == v,
        None => true,
    }
}

/// The requirement that an optional version text stands for; `None` where the
/// text is not a version.
pub open spec fn requirement_of(text: Option<Seq<char>>) -> Option<Option<VersionParts>> {
    match text {
        None => Some(None),
        Some(t) => match semver_parts(t) {
            Some(v) => Some(Some(v)),
            None => None,
        },
    }
}

pub open spec fn text_view(text: Option<&str>) -> Option<Seq<char>> {
    match text {
        Some(t) => Some(t@),
        None => None,
    }
}

impl VersionRequirement {
    /// Whether `release` satisfies this requirement.
    pub fn matches(&self, release: &Version) -> (r: bool)
        ensures
            r == requirement_matches(self@, release@),
    {
        match self {
            VersionRequirement::Exact(v) => v.same_release(release),
            VersionRequirement::Latest => true,
        }
    }
}

/// Turns the version the user asked for into a requirement: no version means
/// the newest release, a version pins exactly that release.
pub fn resolve_version(text: Option<&str>) -> (r: Result<VersionRequirement, DownloadError>)
    ensures
        match r {
            Ok(req) => requirement_of(text_view(text)) == Some(req@),
            Err(e) => requirement_of(text_view(text)).is_none() && text.is_some()
                && (e matches DownloadError::InvalidVersionFormat(m) && m@ == text.unwrap()@),
        },
{
    match text {
        None => Ok(VersionRequirement::Latest),
        Some(t) => match Version::parse(t) {
            Some(v) => Ok(VersionRequirement::Exact(v)),
            None => Err(DownloadError::InvalidVersionFormat(t.to_string())),
        },
    }
}

/// A version given by the user pins exactly that release: the requirement it
/// becomes accepts a release if and only if it is that very version.
pub proof fn lemma_exact_version_pins(text: Seq<char>, release: VersionParts)
    requires
        semver_parts(text).is_some(),
    ensures
        requirement_of(Some(text)) == Some(Some(semver_parts(text).unwrap())),
        requirement_matches(requirement_of(Some(text)).unwrap(), release)
            <==> release == semver_parts(text).unwrap(),
{
}

/// Without a version the requirement is the unconstrained one, which accepts
/// whatever release the registry reports as the newest.
pub proof fn lemma_no_version_accepts_newest(newest: VersionParts)
    ensures
        requirement_of(None) == Some(None::<VersionParts>),
        requirement_matches(requirement_of(None).unwrap(), newest),
{
}

} // verus!
