//! The version of the CVMFS software that a server reports. The reading of a
//! version is semver's; this module gives what it returns a name and holds the
//! result as plain fields.

use vstd::prelude::*;

verus! {

/// A semantic version: `major.minor.patch`, then an optional pre-release after `-`
/// and optional build metadata after `+`. Either text is empty where it is absent.
#[derive(Debug, PartialEq, Eq)]
pub struct Version {
    pub major: u64,
    pub minor: u64,
    pub patch: u64,
    pub pre: String,
    pub build: String,
}

/// What semver's `Version::parse` makes of `text`: the fields of the version, or
/// the text of the error it reports.
pub uninterp spec fn semver_parse(text: Seq<char>) -> Result<
    (u64, u64, u64, Seq<char>, Seq<char>),
    Seq<char>,
>;

/// Calls semver's `Version::parse` and moves the fields of what it gives into a
/// `Version`, or renders the error as text. The contract only names the result.
#[verifier::external_body]
pub(crate) fn parse_semver(text: &str) -> (r: Result<Version, String>)
    ensures
        match semver_parse(text@) {
            Ok(fields) => r is Ok && r->Ok_0.fields() == fields,
            Err(reason) => r is Err && r->Err_0@ == reason,
        },
{
    match semver::Version::parse(text) {
        Ok(v) => Ok(
            Version {
                major: v.major,
                minor: v.minor,
                patch: v.patch,
                pre: v.pre.as_str().to_string(),
                build: v.build.as_str().to_string(),
            },
        ),
        Err(error) => Err(error.to_string()),
    }
}

impl Version {
    /// The fields as plain values: major, minor, patch, pre-release and build
    /// metadata.
    pub open spec fn fields(&self) -> (u64, u64, u64, Seq<char>, Seq<char>) {
        (self.major, self.minor, self.patch, self.pre@, self.build@)
    }
}

impl Clone for Version {
    fn clone(&self) -> (r: Self)
        ensures
            r == *self,
    {
        Version {
            major: self.major,
            minor: self.minor,
            patch: self.patch,
            pre: self.pre.clone(),
            build: self.build.clone(),
        }
    }
}

} // verus!
