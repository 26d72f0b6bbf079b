use versioneer::Version;

#[test]
fn it_should_parse_a_simple_version() {
    let version = "v1.1.1";

    let expected = Version {
        major: 1,
        minor: 1,
        patch: 1,
        prerelease: None,
        build: None,
    };

    match version.parse() {
        Ok(version) => assert_eq!(expected, version),
        Err(err) => {
            println!("{:?}", err);

            unreachable!();
        }
    }
}

#[test]
fn it_should_parse_a_version_with_a_prerelease() {
    let version = "v1.1.1-rc1";

    let expected = Version {
        major: 1,
        minor: 1,
        patch: 1,
        prerelease: Some("rc1".to_string()),
        build: None,
    };

    match version.parse() {
        Ok(version) => assert_eq!(expected, version),
        Err(err) => {
            println!("{:?}", err);

            unreachable!();
        }
    }
}

#[test]
fn it_should_parse_a_version_with_a_build() {
    let version = "v1.1.1+build";

    let expected = Version {
        major: 1,
        minor: 1,
        patch: 1,
        prerelease: None,
        build: Some("build".to_string()),
    };

    match version.parse() {
        Ok(version) => assert_eq!(expected, version),
        Err(err) => {
            println!("{:?}", err);

            unreachable!();
        }
    }
}

#[test]
fn it_should_parse_a_version_with_a_prerelease_and_build() {
    let version = "v1.1.1-prerel+build";

    let expected = Version {
        major: 1,
        minor: 1,
        patch: 1,
        prerelease: Some("prerel".to_string()),
        build: Some("build".to_string()),
    };

    match version.parse() {
        Ok(version) => assert_eq!(expected, version),
        Err(err) => {
            println!("{:?}", err);

            unreachable!();
        }
    }
}

#[test]
fn it_should_format_a_minimal_version() {
    let version = Version {
        major: 1,
        minor: 1,
        patch: 1,
        prerelease: None,
        build: None,
    };

    let formatted = format!("{}", version.to_string());

    assert_eq!(formatted, "v1.1.1");
}

#[test]
fn it_should_format_a_version_with_prerelease() {
    let version = Version {
        major: 1,
        minor: 1,
        patch: 1,
        prerelease: Some("hotfix.1".to_string()),
        build: None,
    };

    let formatted = format!("{}", version.to_string());

    assert_eq!(formatted, "v1.1.1-hotfix.1");
}

#[test]
fn it_should_format_a_version_with_build() {
    let version = Version {
        major: 1,
        minor: 1,
        patch: 1,
        prerelease: None,
        build: Some("build".to_string()),
    };

    let formatted = format!("{}", version.to_string());

    assert_eq!(formatted, "v1.1.1+build");
}

#[test]
fn it_should_format_a_version_with_prerelease_and_build() {
    let version = Version {
        major: 1,
        minor: 1,
        patch: 1,
        prerelease: Some("hotfix.1".to_string()),
        build: Some("build".to_string()),
    };

    let formatted = format!("{}", version.to_string());

    assert_eq!(formatted, "v1.1.1-hotfix.1+build");
}

#[test]
fn it_should_hande_to_string() {
    let version = Version {
        major: 1,
        minor: 1,
        patch: 1,
        prerelease: None,
        build: None,
    };

    assert_eq!(version.to_string(), "v1.1.1");
}
