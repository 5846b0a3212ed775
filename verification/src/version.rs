//! Semantic versions as plain parts, and the outside parser that fills them.

use vstd::prelude::*;

verus! {

/// A parsed semantic version: the three numeric parts, and the pre-release
/// and build-metadata identifiers (empty strings where absent).
#[derive(Debug, Clone, PartialEq, Eq)]
pub struct Version {
    pub major: u64,
    pub minor: u64,
    pub patch: u64,
    pub pre: String,
    pub build: String,
}

pub struct VersionView {
    pub major: u64,
    pub minor: u64,
    pub patch: u64,
    pub pre: Seq<char>,
    pub build: Seq<char>,
}

impl View for Version {
    type V = VersionView;

    open spec fn view(&self) -> VersionView {
        VersionView {
            major: self.major,
            minor: self.minor,
            patch: self.patch,
            pre: self.pre@,
            build: self.build@,
        }
    }
}

/// What the semantic-version grammar makes of a string: its parts, or
/// nothing where the string is not a valid semantic version. The grammar is
/// the outside parser's own and depends on the characters alone, so it is
/// only named here, never written out.
pub uninterp spec fn semver_of(s: Seq<char>) -> Option<VersionView>;

/// Relies on semver::Version::parse: accepts exactly the semantic-version
/// grammar, a function of the input characters alone; major, minor, patch,
/// pre-release and build metadata are copied out one for one.
#[verifier::external_body]
pub(crate) fn parse_semver(s: &str) -> (r: Option<Version>)
    ensures
        r is Some <==> semver_of(s@) is Some,
        r matches Some(v) ==> Some(v@) == semver_of(s@),
{
    match semver::Version::parse(s) {
        Ok(v) => Some(Version {
            major: v.major,
            minor: v.minor,
            patch: v.patch,
            pre: v.pre.as_str().to_owned(),
            build: v.build.as_str().to_owned(),
        }),
        Err(_) => None,
    }
}

} // verus!
