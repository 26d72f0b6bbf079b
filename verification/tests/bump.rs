use std::str::FromStr;

use versioneer::bump::Bump;
use versioneer::Version;
use versioneer::VersionPart;

fn labelled() -> Version {
    Version::from_str("v1.2.3-rc+b").unwrap()
}

#[test]
fn bump_major_increments_and_resets() {
    let bumped = labelled().bump().increment(VersionPart::Major);
    assert_eq!(bumped, Version::new(2, 0, 0, None, None));
    assert_eq!(bumped.to_string(), "v2.0.0");
}

#[test]
fn bump_minor_sets_minor_to_one() {
    let bumped = Version::from_str("v1.2.3").unwrap().bump().increment(VersionPart::Minor);
    assert_eq!(bumped, Version::new(1, 1, 0, None, None));
    assert_eq!(bumped.to_string(), "v1.1.0");
}

#[test]
fn bump_minor_clears_the_labels() {
    let bumped = labelled().bump().increment(VersionPart::Minor);
    assert_eq!(bumped, Version::new(1, 1, 0, None, None));
}

#[test]
fn bump_patch_sets_patch_to_one() {
    let bumped = labelled().bump().increment(VersionPart::Patch);
    assert_eq!(bumped, Version::new(1, 2, 1, None, None));
    let bumped = Version::new(5, 6, 0, None, None).bump().increment(VersionPart::Patch);
    assert_eq!(bumped, Version::new(5, 6, 1, None, None));
}

#[test]
fn bump_prerelease_clears_the_labels_only() {
    let bumped = labelled().bump().increment(VersionPart::Prerelease);
    assert_eq!(bumped, Version::new(1, 2, 3, None, None));
    assert_eq!(bumped.to_string(), "v1.2.3");
}

#[test]
fn bump_build_clears_the_labels_only() {
    let bumped = labelled().bump().increment(VersionPart::Build);
    assert_eq!(bumped, Version::new(1, 2, 3, None, None));
}

#[test]
fn bump_leaves_the_source_untouched() {
    let source = labelled();
    let bumped = source.bump().increment(VersionPart::Major);
    assert_eq!(source, Version::new(1, 2, 3, Some("rc".to_string()), Some("b".to_string())));
    assert_ne!(bumped, source);
}

#[test]
fn bump_major_from_zero_and_up_to_the_largest() {
    let bumped = Bump::new(Version::new(0, 0, 0, None, None)).increment(VersionPart::Major);
    assert_eq!(bumped, Version::new(1, 0, 0, None, None));
    let bumped = Bump::new(Version::new(u64::MAX - 1, 5, 5, None, None)).increment(VersionPart::Major);
    assert_eq!(bumped, Version::new(u64::MAX, 0, 0, None, None));
}

#[test]
fn bump_of_a_label_keeps_the_largest_numbers() {
    let bumped =
        Bump::new(Version::new(u64::MAX, u64::MAX, u64::MAX, Some("x".to_string()), None))
            .increment(VersionPart::Build);
    assert_eq!(bumped, Version::new(u64::MAX, u64::MAX, u64::MAX, None, None));
}
