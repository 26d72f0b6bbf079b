use vstd::prelude::*;

use crate::version::Version;
use crate::version::VersionView;
use crate::version_part::VersionPart;

verus! {

/// A pending bump: holds the version to start from.
pub struct Bump {
    source: Version,
}

impl View for Bump {
    type V = VersionView;

    /// The value of the version that the bump starts from.
    closed spec fn view(&self) -> VersionView {
        self.source@
    }
}

impl Bump {
    /// A bump that starts from `source`.
    pub fn new(source: Version) -> (bump: Self)
        ensures
            bump@ == source@,
    {
        Bump { source }
    }

    /// The version after a bump of `part`. The major number must have room
    /// to grow.
    pub fn increment(self, part: VersionPart) -> (version: Version)
        requires
            part == VersionPart::Major ==> self@.major < u64::MAX,
        ensures
            version@ == self@.bumped(part),
    {
        let mut version = self.source;
        match part {
            VersionPart::Major => {
                version.major = version.major + 1;
                version.minor = 0;
                version.patch = 0;
                version.prerelease = None;
                version.build = None;
            },
            VersionPart::Minor => {
                version.minor = 1;
                version.patch = 0;
                version.prerelease = None;
                version.build = None;
            },
            VersionPart::Patch => {
                version.patch = 1;
                version.prerelease = None;
                version.build = None;
            },
            VersionPart::Prerelease | VersionPart::Build => {
                version.prerelease = None;
                version.build = None;
            },
        }
        version
    }
}

} // verus!
