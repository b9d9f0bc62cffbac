use commonlibsse_ng::version::{Version, VersionParseError};

#[test]
fn test_version_ord() {
    let v1 = Version::new(1, 2, 3, 4);
    let v2 = Version::new(1, 2, 3, 5);
    let v3 = Version::new(2, 0, 0, 0);
    let v4 = Version::new(1, 2, 3, 4);

    assert!(v1 < v2);
    assert!(v2 > v1);
    assert!(v3 > v1);
    assert!(v1 == v4);
}

#[test]
fn test_version_components() {
    let v = Version::new(1, 2, 3, 4);
    assert_eq!(v.major(), 1);
    assert_eq!(v.minor(), 2);
    assert_eq!(v.patch(), 3);
    assert_eq!(v.build(), 4);
    assert_eq!(Version::const_default(), Version::new(0, 0, 0, 0));
}

#[test]
fn test_version_pack() {
    let v = Version::new(1, 2, 3, 4);
    assert_eq!(v.pack(), 16908340);
    assert_eq!(Version::unpack(16908340), v);
}

#[test]
fn test_version_pack_unpack_roundtrip() {
    let v = Version::new(1, 6, 1170, 0);
    assert_eq!(Version::unpack(v.pack()), v);
}

#[test]
fn test_version_from_str() {
    assert_eq!(Version::const_from_str("1.2.3.4"), Ok(Version::new(1, 2, 3, 4)));
    assert_eq!(Version::const_from_str("1.2.3"), Ok(Version::new(1, 2, 3, 0)));
    assert_eq!(
        Version::const_from_str("1.2.3.4.5"),
        Err(VersionParseError::TooManyParts { parts: 4 })
    );
    assert_eq!(
        Version::const_from_str("1.2.f.4.5"),
        Err(VersionParseError::InvalidCharacter { character: 'f' })
    );
    assert_eq!(
        Version::const_from_str("1.2."),
        Err(VersionParseError::MissingNumber { part: 2 })
    );
    assert_eq!(
        Version::const_from_str(""),
        Err(VersionParseError::MissingNumber { part: 0 })
    );
}

#[test]
fn test_version_string_form() {
    let v = Version::new(1, 5, 97, 0);
    assert_eq!(v.to_version_string(), "1.5.97.0");
    let v = Version::new(1, 6, 1170, 0);
    assert_eq!(v.to_version_string(), "1.6.1170.0");
}
