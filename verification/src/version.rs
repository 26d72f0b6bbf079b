use vstd::prelude::*;

use crate::builder::result_view;
use crate::builder::BuilderView;
use crate::builder::VersionBuilder;
use crate::bump::Bump;
use crate::decimal::decimal_string;
use crate::decimal::decimal_text;
use crate::error::VersionError;
use crate::version_part::VersionPart;

verus! {

/// A version `vMAJOR.MINOR.PATCH[-PRERELEASE][+BUILD]`.
///
/// An absent prerelease or build label is distinct from an empty one.
#[derive(Debug, PartialEq, Eq)]
pub struct Version {
    pub major: u64,
    pub minor: u64,
    pub patch: u64,
    pub prerelease: Option<String>,
    pub build: Option<String>,
}

/// The mathematical value of a [`Version`]: three naturals and two optional
/// character sequences.
pub ghost struct VersionView {
    pub major: nat,
    pub minor: nat,
    pub patch: nat,
    pub prerelease: Option<Seq<char>>,
    pub build: Option<Seq<char>>,
}

/// The characters of an optional label.
pub open spec fn label_view(label: Option<String>) -> Option<Seq<char>> {
    match label {
        Some(text) => Some(text@),
        None => None,
    }
}

impl View for Version {
    type V = VersionView;

    open spec fn view(&self) -> VersionView {
        VersionView {
            major: self.major as nat,
            minor: self.minor as nat,
            patch: self.patch as nat,
            prerelease: label_view(self.prerelease),
            build: label_view(self.build),
        }
    }
}

/// A label behind its mark, or nothing where the label is absent.
pub open spec fn marked_label(mark: char, label: Option<Seq<char>>) -> Seq<char> {
    match label {
        Some(text) => seq![mark] + text,
        None => Seq::empty(),
    }
}

impl VersionView {
    /// The canonical text: `v`, the three numbers in decimal with a `.`
    /// between them, then `-` and the prerelease label if there is one, then
    /// `+` and the build label if there is one. Labels are not escaped.
    pub open spec fn formatted(self) -> Seq<char> {
        seq!['v'] + decimal_text(self.major) + seq!['.'] + decimal_text(self.minor) + seq!['.']
            + decimal_text(self.patch) + marked_label('-', self.prerelease) + marked_label(
            '+',
            self.build,
        )
    }

    /// The version that a bump of `part` leads to: the major number goes up by
    /// one and everything after it is reset; a bump of the minor or the patch
    /// number sets that number to one and resets what follows; a bump of a
    /// label only drops both labels.
    pub open spec fn bumped(self, part: VersionPart) -> VersionView {
        match part {
            VersionPart::Major => VersionView {
                major: self.major + 1,
                minor: 0,
                patch: 0,
                prerelease: None,
                build: None,
            },
            VersionPart::Minor => VersionView {
                major: self.major,
                minor: 1,
                patch: 0,
                prerelease: None,
                build: None,
            },
            VersionPart::Patch => VersionView {
                major: self.major,
                minor: self.minor,
                patch: 1,
                prerelease: None,
                build: None,
            },
            VersionPart::Prerelease | VersionPart::Build => VersionView {
                major: self.major,
                minor: self.minor,
                patch: self.patch,
                prerelease: None,
                build: None,
            },
        }
    }
}

/// The number that a calendar year becomes as a major number: the year
/// itself, or for a year before the year zero its two's complement in 64
/// bits.
pub open spec fn year_number(year: i32) -> nat {
    if year >= 0 {
        year as nat
    } else {
        (0x1_0000_0000_0000_0000 + year) as nat
    }
}

/// The year and the ISO week number of the current moment in UTC:
/// `chrono::Utc::now`, read with `Datelike::year` and with
/// `Datelike::iso_week` and `IsoWeek::week`. Trusted: that the year is not
/// before 1970, since the clock is read as a time since the Unix epoch, and
/// that the week number lies between 1 and 53.
#[verifier::external_body]
fn utc_year_and_week() -> (now: (i32, u32))
    ensures
        now.0 >= 1970,
        1 <= now.1 <= 53,
{
    let now = chrono::Utc::now();
    (chrono::Datelike::year(&now), chrono::Datelike::iso_week(&now).week())
}

/// A copy of an optional label.
pub(crate) fn clone_label(label: &Option<String>) -> (copy: Option<String>)
    ensures
        label_view(copy) == label_view(*label),
{
    match label {
        Some(text) => Some(text.clone()),
        None => None,
    }
}

impl Clone for Version {
    fn clone(&self) -> (copy: Self)
        ensures
            copy@ == self@,
    {
        Version {
            major: self.major,
            minor: self.minor,
            patch: self.patch,
            prerelease: clone_label(&self.prerelease),
            build: clone_label(&self.build),
        }
    }
}

impl Version {
    /// A version from its five parts.
    pub fn new(
        major: u64,
        minor: u64,
        patch: u64,
        prerelease: Option<String>,
        build: Option<String>,
    ) -> (version: Self)
        ensures
            version == (Version { major, minor, patch, prerelease, build }),
    {
        Version { major, minor, patch, prerelease, build }
    }

    /// An empty builder.
    pub fn builder() -> (builder: VersionBuilder)
        ensures
            builder@ == BuilderView::empty(),
    {
        VersionBuilder::new()
    }

    /// The version of a calendar week: the year as major number, the week
    /// as minor number, patch zero, no labels.
    pub fn of_year_and_week(year: i32, week: u32) -> (result: Result<Self, VersionError>)
        ensures
            result_view(result) == Ok::<VersionView, VersionError>(
                VersionView {
                    major: year_number(year),
                    minor: week as nat,
                    patch: 0,
                    prerelease: None,
                    build: None,
                },
            ),
    {
        let major: u64 = if year >= 0 {
            year as u64
        } else {
            u64::MAX - ((-(year + 1)) as u64)
        };
        Version::builder().with_major(major).with_minor(week as u64).with_patch(0).build()
    }

    /// The version of the current calendar week in UTC.
    pub fn new_date_based() -> (result: Result<Self, VersionError>)
        ensures
            result matches Ok(version) && version@.major >= 1970 && 1 <= version@.minor <= 53
                && version@.patch == 0 && version@.prerelease is None && version@.build is None,
    {
        let (year, week) = utc_year_and_week();
        Version::of_year_and_week(year, week)
    }

    /// The canonical text of this version.
    pub fn to_string(&self) -> (text: String)
        ensures
            text@ == self@.formatted(),
    {
        proof {
            reveal_strlit("v");
            reveal_strlit(".");
            reveal_strlit("-");
            reveal_strlit("+");
        }
        let mut text = "v".to_owned();
        text.append(decimal_string(self.major).as_str());
        text.append(".");
        text.append(decimal_string(self.minor).as_str());
        text.append(".");
        text.append(decimal_string(self.patch).as_str());
        match &self.prerelease {
            Some(label) => {
                text.append("-");
                text.append(label.as_str());
            },
            None => {},
        }
        match &self.build {
            Some(label) => {
                text.append("+");
                text.append(label.as_str());
            },
            None => {},
        }
        assert(text@ =~= self@.formatted());
        text
    }

    /// Starts a bump of a copy of this version.
    pub fn bump(&self) -> (bump: Bump)
        ensures
            bump@ == self@,
    {
        Bump::new(self.clone())
    }
}

} // verus!
