use atlas_local_js::engine::EngineVersion;
use atlas_local_js::error::RequestError;
use atlas_local_js::version::{resolve_version, version_from_parse};

#[test]
fn plain_version_is_resolved() {
    assert_eq!(
        resolve_version(Some("8.0.0".to_string())),
        Ok(Some(EngineVersion::new(8, 0, 0)))
    );
}

#[test]
fn latest_and_absent_are_unresolved() {
    assert_eq!(resolve_version(Some("latest".to_string())), Ok(None));
    assert_eq!(resolve_version(None), Ok(None));
}

#[test]
fn garbage_is_a_malformed_version() {
    assert_eq!(
        resolve_version(Some("not-a-version".to_string())),
        Err(RequestError::MalformedVersion("not-a-version".to_string()))
    );
}

#[test]
fn partial_versions_are_refused_not_padded() {
    for text in ["8", "8.0", "8.0.", "8.0.0.0", "08.0.0", "8.0.0-", "8.0.0+", " 8.0.0", ""] {
        assert_eq!(
            resolve_version(Some(text.to_string())),
            Err(RequestError::MalformedVersion(text.to_string()))
        );
    }
}

#[test]
fn pre_release_and_build_are_kept() {
    assert_eq!(
        resolve_version(Some("8.2.1-rc.1+20260217".to_string())),
        Ok(Some(EngineVersion {
            major: 8,
            minor: 2,
            patch: 1,
            pre: "rc.1".to_string(),
            build: "20260217".to_string(),
        }))
    );
}

#[test]
fn resolved_version_agrees_with_semver() {
    for text in ["0.0.0", "1.2.3", "18446744073709551615.0.1", "1.0.0-alpha.1", "1.0.0+b"] {
        let expected = semver::Version::parse(text).unwrap();
        let got = resolve_version(Some(text.to_string())).unwrap().unwrap();
        assert_eq!(got.major, expected.major);
        assert_eq!(got.minor, expected.minor);
        assert_eq!(got.patch, expected.patch);
        assert_eq!(got.pre, expected.pre.as_str());
        assert_eq!(got.build, expected.build.as_str());
        assert_eq!(got.to_text(), expected.to_string());
        assert_eq!(got.to_text(), text);
    }
}

#[test]
fn version_text_of_large_numbers() {
    assert_eq!(EngineVersion::new(8, 0, 0).to_text(), "8.0.0");
    assert_eq!(EngineVersion::new(10, 200, 3000).to_text(), "10.200.3000");
    assert_eq!(
        EngineVersion::new(u64::MAX, 0, 9).to_text(),
        "18446744073709551615.0.9"
    );
}

#[test]
fn decision_after_parsing() {
    assert_eq!(version_from_parse(None, None), Ok(None));
    assert_eq!(
        version_from_parse(None, Some(EngineVersion::new(1, 2, 3))),
        Ok(None)
    );
    assert_eq!(
        version_from_parse(Some("latest".to_string()), Some(EngineVersion::new(1, 2, 3))),
        Ok(None)
    );
    assert_eq!(
        version_from_parse(Some("1.2.3".to_string()), Some(EngineVersion::new(1, 2, 3))),
        Ok(Some(EngineVersion::new(1, 2, 3)))
    );
    assert_eq!(
        version_from_parse(Some("x".to_string()), None),
        Err(RequestError::MalformedVersion("x".to_string()))
    );
}

#[test]
fn error_messages() {
    assert_eq!(
        RequestError::MalformedVersion("x.y".to_string()).message(),
        "malformed version: x.y"
    );
    assert_eq!(
        RequestError::MalformedAddress("nowhere".to_string()).message(),
        "malformed address: nowhere"
    );
}
