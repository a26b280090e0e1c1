//! Semantic versions, and the version that a release tag names.

use vstd::prelude::*;
use vstd::string::*;

verus! {

/// A semantic version, with its pre-release and build metadata as text
/// (each empty when the version has none).
#[derive(Debug)]
pub struct SemVer {
    pub major: u64,
    pub minor: u64,
    pub patch: u64,
    pub pre: String,
    pub build: String,
}

/// What a [`SemVer`] stands for.
pub struct SemVerView {
    pub major: u64,
    pub minor: u64,
    pub patch: u64,
    pub pre: Seq<char>,
    pub build: Seq<char>,
}

impl View for SemVer {
    type V = SemVerView;

    open spec fn view(&self) -> SemVerView {
        SemVerView {
            major: self.major,
            minor: self.minor,
            patch: self.patch,
            pre: self.pre@,
            build: self.build@,
        }
    }
}

impl Clone for SemVer {
    fn clone(&self) -> (copy: Self)
        ensures
            copy == *self,
    {
        SemVer {
            major: self.major,
            minor: self.minor,
            patch: self.patch,
            pre: self.pre.clone(),
            build: self.build.clone(),
        }
    }
}

/// Why a text names no version.
#[derive(Clone, Copy, Debug, PartialEq, Eq, Structural)]
pub enum VersionError {
    /// The text is not a semantic version.
    Malformed,
    /// The tag does not begin with the version marker.
    MissingMarker,
}

/// The parse error of the `semver` crate.
#[verifier::external_type_specification]
#[verifier::external_body]
pub struct ExSemverError(semver::Error);

/// The version that `semver::Version::parse` reads from `text`, `None`
/// where it reports an error.
pub uninterp spec fn semver_parse(text: Seq<char>) -> Option<SemVerView>;

/// Calls `semver::Version::parse` and copies the fields of the version it
/// returns. The contract claims only that the outcome is the one named
/// [`semver_parse`]: the same text always parses to the same version, or
/// always fails.
#[verifier::external_body]
fn semver_version_parse(text: &str) -> (parsed: Result<SemVer, semver::Error>)
    ensures
        match parsed {
            Ok(version) => semver_parse(text@) == Some(version@),
            Err(_) => semver_parse(text@) is None,
        },
{
    match semver::Version::parse(text) {
        Ok(v) => Ok(
            SemVer {
                major: v.major,
                minor: v.minor,
                patch: v.patch,
                pre: v.pre.as_str().to_string(),
                build: v.build.as_str().to_string(),
            },
        ),
        Err(e) => Err(e),
    }
}

/// The character that marks a release tag as a version.
pub const TAG_MARKER: char = 'v';

/// The version that a release tag names: the tag without its leading
/// marker, parsed strictly. `None` for a tag without the marker and for
/// one whose rest is no semantic version.
pub open spec fn tag_version(tag: Seq<char>) -> Option<SemVerView> {
    if tag.len() > 0 && tag[0] == TAG_MARKER {
        semver_parse(tag.skip(1))
    } else {
        None
    }
}

impl SemVer {
    /// A version without pre-release and build metadata.
    pub fn new(major: u64, minor: u64, patch: u64) -> (version: SemVer)
        ensures
            version@ == (SemVerView { major, minor, patch, pre: Seq::empty(), build: Seq::empty() }),
    {
        SemVer { major, minor, patch, pre: String::new(), build: String::new() }
    }

    /// Parses a semantic version strictly.
    pub fn parse(text: &str) -> (parsed: Result<SemVer, VersionError>)
        ensures
            match parsed {
                Ok(version) => semver_parse(text@) == Some(version@),
                Err(e) => semver_parse(text@) is None && e == VersionError::Malformed,
            },
    {
        match semver_version_parse(text) {
            Ok(version) => Ok(version),
            Err(_) => Err(VersionError::Malformed),
        }
    }

    /// Reads the version off a release tag such as `v0.13.2`.
    pub fn from_tag(tag: &str) -> (parsed: Result<SemVer, VersionError>)
        ensures
            match parsed {
                Ok(version) => tag_version(tag@) == Some(version@),
                Err(e) => tag_version(tag@) is None && e == (if tag@.len() > 0 && tag@[0]
                    == TAG_MARKER {
                    VersionError::Malformed
                } else {
                    VersionError::MissingMarker
                }),
            },
    {
        let n: usize = tag.unicode_len();
        if n == 0 || tag.get_char(0) != TAG_MARKER {
            return Err(VersionError::MissingMarker);
        }
        let rest = tag.substring_char(1, n);
        assert(rest@ =~= tag@.skip(1));
        SemVer::parse(rest)
    }

    /// Whether two versions are the same, metadata included.
    pub fn same(&self, other: &SemVer) -> (equal: bool)
        ensures
            equal == (self@ == other@),
    {
        let equal = self.major == other.major && self.minor == other.minor && self.patch
            == other.patch && self.pre == other.pre && self.build == other.build;
        proof {
            if equal {
                assert(self@.pre =~= other@.pre);
                assert(self@.build =~= other@.build);
            }
        }
        equal
    }
}

} // verus!
