use vstd::prelude::*;

use crate::builder::result_view;
use crate::decimal::parse_u64;
use crate::decimal::parsed_u64;
use crate::error::VersionError;
use crate::grammar::captures;
use crate::grammar::first_match;
use crate::grammar::group_view;
use crate::grammar::Captures;
use crate::grammar::CapturesView;
use crate::version::Version;
use crate::version::VersionView;
use crate::version_part::VersionPart;

verus! {

/// The number in the group of `part`: `PartNotFound` where the group is
/// absent, `ParseInt` with the parse's error where its text is no number.
pub open spec fn captured_number(part: VersionPart, captures: CapturesView) -> Result<
    u64,
    VersionError,
> {
    match captures.group(part) {
        None => Err(VersionError::PartNotFound(part)),
        Some(text) => match parsed_u64(text) {
            Ok(number) => Ok(number),
            Err(err) => Err(VersionError::ParseInt(part, err)),
        },
    }
}

/// The version that the groups of a match stand for, or the error of the
/// first of major, minor and patch that is no number.
pub open spec fn captured_version(captures: CapturesView) -> Result<VersionView, VersionError> {
    match captured_number(VersionPart::Major, captures) {
        Err(error) => Err(error),
        Ok(major) => match captured_number(VersionPart::Minor, captures) {
            Err(error) => Err(error),
            Ok(minor) => match captured_number(VersionPart::Patch, captures) {
                Err(error) => Err(error),
                Ok(patch) => Ok(
                    VersionView {
                        major: major as nat,
                        minor: minor as nat,
                        patch: patch as nat,
                        prerelease: captures.prerelease,
                        build: captures.build,
                    },
                ),
            },
        },
    }
}

/// What parsing `text` gives: `Regex` where nothing in `text` matches the
/// grammar, else what the groups of the first match stand for.
pub open spec fn parsed(text: Seq<char>) -> Result<VersionView, VersionError> {
    match first_match(text, 0) {
        None => Err(VersionError::Regex),
        Some(captures) => captured_version(captures),
    }
}

/// The text of the group of `part`, if the match has that group.
pub fn capture_str<'a>(part: VersionPart, captures: &Captures<'a>) -> (text: Option<&'a str>)
    ensures
        group_view(text) == captures@.group(part),
{
    match part {
        VersionPart::Major => captures.major,
        VersionPart::Minor => captures.minor,
        VersionPart::Patch => captures.patch,
        VersionPart::Prerelease => captures.prerelease,
        VersionPart::Build => captures.build,
    }
}

/// The number in the group of `part`.
pub fn capture_int(part: VersionPart, captures: &Captures<'_>) -> (number: Result<
    u64,
    VersionError,
>)
    ensures
        number == captured_number(part, captures@),
{
    let text = capture_str(part, captures).ok_or(VersionError::part_not_found(part))?;
    parse_u64(text).map_err(VersionError::parse_int(part))
}

impl std::str::FromStr for Version {
    type Err = VersionError;

    /// Reads the first version that stands in `s`, wherever it starts.
    fn from_str(s: &str) -> (result: Result<Self, Self::Err>)
        ensures
            result_view(result) == parsed(s@),
    {
        let captures = captures(s).ok_or(VersionError::Regex)?;
        let mut builder = Version::builder().with_major(
            capture_int(VersionPart::Major, &captures)?,
        ).with_minor(capture_int(VersionPart::Minor, &captures)?).with_patch(
            capture_int(VersionPart::Patch, &captures)?,
        );
        if let Some(prerelease) = capture_str(VersionPart::Prerelease, &captures) {
            builder = builder.with_prerelease(prerelease);
        }
        if let Some(build) = capture_str(VersionPart::Build, &captures) {
            builder = builder.with_build(build);
        }
        builder.build()
    }
}

} // verus!
