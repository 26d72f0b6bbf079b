use vstd::prelude::*;

verus! {

/// Identifies one component of a version.
#[derive(Debug, Copy, Clone, PartialEq, Eq, Structural)]
pub enum VersionPart {
    Major,
    Minor,
    Patch,
    Prerelease,
    Build,
}

/// The names of the five parts.
pub const MAJOR: &'static str = "MAJOR";

pub const MINOR: &'static str = "MINOR";

pub const PATCH: &'static str = "PATCH";

pub const PRERELEASE: &'static str = "PRERELEASE";

pub const BUILD: &'static str = "BUILD";

impl VersionPart {
    /// The upper-case name under which the part is reported.
    pub open spec fn name(self) -> Seq<char> {
        match self {
            VersionPart::Major => MAJOR@,
            VersionPart::Minor => MINOR@,
            VersionPart::Patch => PATCH@,
            VersionPart::Prerelease => PRERELEASE@,
            VersionPart::Build => BUILD@,
        }
    }

    /// The part's name as a static string slice.
    pub fn as_str(&self) -> (s: &'static str)
        ensures
            s@ == self.name(),
    {
        match self {
            VersionPart::Major => MAJOR,
            VersionPart::Minor => MINOR,
            VersionPart::Patch => PATCH,
            VersionPart::Prerelease => PRERELEASE,
            VersionPart::Build => BUILD,
        }
    }

    /// The part's name as an owned string.
    pub fn to_string(&self) -> (s: String)
        ensures
            s@ == self.name(),
    {
        self.as_str().to_owned()
    }
}

} // verus!
