use meta_version::Version;

#[test]
fn test_version_min() {
    let min = Version::min();
    assert_eq!(min, Version::new(0, 0, 0));
    assert!(min < Version::new(0, 0, 1));
    assert!(min < Version::new(1, 0, 0));
}

#[test]
fn test_version_ordering() {
    assert!(Version::min() < Version::new(1, 2, 163));
    assert!(Version::new(1, 2, 163) < Version::max());
    assert!(Version::min() < Version::max());
}

#[test]
fn test_to_digit_basic() {
    assert_eq!(Version::new(1, 2, 873).to_digit(), 1_002_873);
    assert_eq!(Version::new(0, 0, 0).to_digit(), 0);
    assert_eq!(Version::new(999, 999, 999).to_digit(), 999_999_999);
}

#[test]
fn test_from_digit_basic() {
    assert_eq!(Version::from_digit(1_002_873), Version::new(1, 2, 873));
    assert_eq!(Version::from_digit(0), Version::new(0, 0, 0));
    assert_eq!(Version::from_digit(999_999_999), Version::new(999, 999, 999));
}

#[test]
fn test_digit_roundtrip() {
    let versions = vec![
        Version::new(0, 0, 0),
        Version::new(1, 0, 0),
        Version::new(0, 1, 0),
        Version::new(0, 0, 1),
        Version::new(1, 2, 873),
        Version::new(10, 20, 30),
        Version::new(999, 999, 999),
        Version::new(260205, 0, 0),
        Version::new(260205, 1, 0),
        Version::new(260205, 0, 1),
        Version::new(261231, 999, 999),
    ];

    for ver in versions {
        assert_eq!(
            Version::from_digit(ver.to_digit()),
            ver,
            "Roundtrip failed for {:?}",
            ver
        );
    }
}

#[test]
fn test_digit_single_component() {
    assert_eq!(Version::new(1, 0, 0).to_digit(), 1_000_000);
    assert_eq!(Version::new(0, 1, 0).to_digit(), 1_000);
    assert_eq!(Version::new(0, 0, 1).to_digit(), 1);
}

#[test]
fn test_digit_calver_encoding() {
    assert_eq!(Version::new(260205, 1, 0).to_digit(), 260_205_001_000);
    assert_eq!(Version::new(260205, 0, 0).to_digit(), 260_205_000_000);
    assert_eq!(Version::new(260205, 999, 999).to_digit(), 260_205_999_999);
}

#[test]
fn test_digit_calver_ordering() {
    let jan = Version::new(260101, 0, 0).to_digit();
    let feb = Version::new(260205, 0, 0).to_digit();
    let dec = Version::new(261231, 0, 0).to_digit();
    assert!(jan < feb);
    assert!(feb < dec);

    let v0 = Version::new(260205, 0, 0).to_digit();
    let v1 = Version::new(260205, 1, 0).to_digit();
    let v1_fix = Version::new(260205, 1, 1).to_digit();
    let v2 = Version::new(260205, 2, 0).to_digit();
    assert!(v0 < v1 && v1 < v1_fix && v1_fix < v2);
}

#[test]
fn test_digit_old_versions_sort_before_calver() {
    let old = Version::new(1, 3, 0).to_digit();
    let calver = Version::new(260205, 0, 0).to_digit();
    assert!(old < calver);
}

#[test]
fn test_digit_minor_overflow_corrupts_roundtrip() {
    let v = Version::new(260205, 1000, 0);
    let recovered = Version::from_digit(v.to_digit());
    assert_ne!(v, recovered);
    assert_eq!(recovered, Version::new(260206, 0, 0));
}

#[test]
fn test_digit_patch_overflow_corrupts_roundtrip() {
    let v = Version::new(260205, 0, 1000);
    let recovered = Version::from_digit(v.to_digit());
    assert_ne!(v, recovered);
    assert_eq!(recovered, Version::new(260205, 1, 0));
}

#[test]
fn test_version_components() {
    let v = Version::new(7, 8, 9);
    assert_eq!(v.major(), 7);
    assert_eq!(v.minor(), 8);
    assert_eq!(v.patch(), 9);
    assert_eq!(v.as_tuple(), (7, 8, 9));
}

#[test]
fn test_sentinel_ordering_chain() {
    let samples = [
        Version::min(),
        Version::new(0, 0, 1),
        Version::new(0, 1, 0),
        Version::new(1, 0, 0),
        Version::new(1, 2, 163),
        Version::new(260205, 0, 0),
        Version::max(),
    ];
    for pair in samples.windows(2) {
        assert!(pair[0] < pair[1], "expected {:?} < {:?}", pair[0], pair[1]);
    }
    for v in samples.iter() {
        assert!(Version::min() <= *v);
        assert!(*v <= Version::max());
    }
}

#[test]
fn test_parse_version_valid_triple() {
    assert_eq!(
        meta_version::parse_version("1.2.3"),
        Some(Version::new(1, 2, 3))
    );
    assert_eq!(
        meta_version::parse_version("260205.0.0"),
        Some(Version::new(260205, 0, 0))
    );
}

#[test]
fn test_parse_version_keeps_numeric_triple_only() {
    assert_eq!(
        meta_version::parse_version("1.2.3-alpha.1+build.5"),
        Some(Version::new(1, 2, 3))
    );
}

#[test]
fn test_parse_version_rejects_malformed() {
    assert_eq!(meta_version::parse_version("1.2"), None);
    assert_eq!(meta_version::parse_version("v1.2.3"), None);
    assert_eq!(meta_version::parse_version("not a version"), None);
    assert_eq!(meta_version::parse_version(""), None);
}
