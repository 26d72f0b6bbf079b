use std::str::FromStr;

use versioneer::Version;
use versioneer::VersionError;
use versioneer::VersionPart;

#[test]
fn part_not_found_names_the_part() {
    let error = VersionError::part_not_found(VersionPart::Minor);
    assert!(matches!(error, VersionError::PartNotFound(VersionPart::Minor)));
    assert_eq!(error.to_string(), "MINOR not found");
    assert!(error.source().is_none());
}

#[test]
fn regex_error_has_its_message() {
    let error = Version::from_str("nothing here").unwrap_err();
    assert_eq!(error.to_string(), "regex failed to parse version");
    assert!(error.source().is_none());
}

#[test]
fn parse_int_wraps_the_cause() {
    let cause = "x".parse::<u64>().unwrap_err();
    let wrap = VersionError::parse_int(VersionPart::Patch);
    let error = wrap(cause.clone());
    match &error {
        VersionError::ParseInt(VersionPart::Patch, kept) => assert_eq!(kept, &cause),
        other => panic!("unexpected error: {:?}", other),
    }
    assert_eq!(error.source(), Some(&cause));
    assert_eq!(error.to_string(), "failed to parse PATCH: ParseIntError { kind: InvalidDigit }");
}

#[test]
fn parse_int_message_shows_an_overflow() {
    let error = Version::from_str("v99999999999999999999.1.1").unwrap_err();
    assert_eq!(error.to_string(), "failed to parse MAJOR: ParseIntError { kind: PosOverflow }");
    assert!(error.source().is_some());
}
