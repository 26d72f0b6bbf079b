use chrono::Datelike;
use chrono::Utc;

use versioneer::Version;

#[test]
fn date_based_version_is_the_current_week() {
    let before = Utc::now();
    let version = Version::new_date_based().unwrap();
    let after = Utc::now();
    assert!(version.major == before.year() as u64 || version.major == after.year() as u64);
    assert!(
        version.minor == before.iso_week().week() as u64
            || version.minor == after.iso_week().week() as u64
    );
    assert!(version.major >= 1970);
    assert!(1 <= version.minor && version.minor <= 53);
    assert_eq!(version.patch, 0);
    assert_eq!(version.prerelease, None);
    assert_eq!(version.build, None);
}

#[test]
fn version_of_a_year_and_week() {
    let version = Version::of_year_and_week(2024, 17).unwrap();
    assert_eq!(version, Version::new(2024, 17, 0, None, None));
    assert_eq!(version.to_string(), "v2024.17.0");
}

#[test]
fn version_of_the_year_zero_and_of_the_last_year() {
    assert_eq!(Version::of_year_and_week(0, 1).unwrap(), Version::new(0, 1, 0, None, None));
    assert_eq!(
        Version::of_year_and_week(i32::MAX, u32::MAX).unwrap(),
        Version::new(2147483647, 4294967295, 0, None, None)
    );
}

#[test]
fn version_of_a_year_before_zero_wraps() {
    assert_eq!(
        Version::of_year_and_week(-1, 52).unwrap(),
        Version::new(u64::MAX, 52, 0, None, None)
    );
    assert_eq!(
        Version::of_year_and_week(-44, 1).unwrap(),
        Version::new(-44i32 as u64, 1, 0, None, None)
    );
    assert_eq!(
        Version::of_year_and_week(i32::MIN, 1).unwrap(),
        Version::new(18446744071562067968, 1, 0, None, None)
    );
}
