use vstd::prelude::*;

use crate::version_part::VersionPart;

verus! {

/// `std::num::ParseIntError`, the error of std's integer parsing. The library
/// carries such a value from the parse to the caller and never looks inside.
#[verifier::external_type_specification]
#[verifier::external_body]
pub struct ExParseIntError(std::num::ParseIntError);

/// The text that `Debug` formatting gives for the error of an integer parse.
pub uninterp spec fn cause_debug(err: std::num::ParseIntError) -> Seq<char>;

/// `<std::num::ParseIntError as Debug>::fmt`, reached through `format!`.
/// Trusted: that the text depends on the error alone.
#[verifier::external_body]
fn cause_text(err: &std::num::ParseIntError) -> (text: String)
    ensures
        text@ == cause_debug(*err),
{
    format!("{:?}", err)
}

/// Why a version could not be parsed or built.
#[derive(Debug)]
pub enum VersionError {
    /// The input holds no substring of the version grammar.
    Regex,
    /// A required part is absent.
    PartNotFound(VersionPart),
    /// The text of a numeric part is no integer of the machine's range; the
    /// second field is the parse's own error.
    ParseInt(VersionPart, std::num::ParseIntError),
}

impl VersionError {
    /// The message of the error. The part is named as
    /// [`VersionPart::name`] names it.
    pub open spec fn message(self) -> Seq<char> {
        match self {
            VersionError::PartNotFound(part) => part.name() + " not found"@,
            VersionError::ParseInt(part, err) => "failed to parse "@ + part.name() + ": "@
                + cause_debug(err),
            VersionError::Regex => "regex failed to parse version"@,
        }
    }

    /// The message of the error as a string.
    pub fn to_string(&self) -> (text: String)
        ensures
            text@ == self.message(),
    {
        match self {
            VersionError::PartNotFound(part) => {
                let mut text = part.to_string();
                text.append(" not found");
                text
            },
            VersionError::ParseInt(part, err) => {
                let mut text = "failed to parse ".to_owned();
                text.append(part.as_str());
                text.append(": ");
                text.append(cause_text(err).as_str());
                text
            },
            VersionError::Regex => "regex failed to parse version".to_owned(),
        }
    }

    /// The error for a required part that is absent.
    pub fn part_not_found(part: VersionPart) -> (error: Self)
        ensures
            error == VersionError::PartNotFound(part),
    {
        VersionError::PartNotFound(part)
    }

    /// The function that wraps the error of an integer parse into the error
    /// for `part`.
    pub fn parse_int(part: VersionPart) -> (wrap: impl Fn(std::num::ParseIntError) -> Self)
        ensures
            forall|err: std::num::ParseIntError| wrap.requires((err,)),
            forall|err: std::num::ParseIntError, error: VersionError|
                wrap.ensures((err,), error) ==> error == VersionError::ParseInt(part, err),
    {
        move |err: std::num::ParseIntError| -> (error: VersionError)
            ensures
                error == VersionError::ParseInt(part, err),
            { VersionError::ParseInt(part, err) }
    }

    /// The cause below this error, where it has one.
    pub fn source(&self) -> (cause: Option<&std::num::ParseIntError>)
        ensures
            cause == match *self {
                VersionError::ParseInt(_, err) => Some(&err),
                _ => None,
            },
    {
        match self {
            VersionError::ParseInt(_, err) => Some(err),
            _ => None,
        }
    }
}

} // verus!
