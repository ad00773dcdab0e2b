use meta_version::Feature;
use meta_version::FeatureSpan;
use meta_version::Version;

#[test]
fn test_feature_span_is_active_at() {
    let lt = FeatureSpan::new(Feature::KvApi, Version::new(1, 2, 163));

    // Before since: not active
    assert!(!lt.is_active_at(Version::new(1, 2, 162)));

    // At since: active
    assert!(lt.is_active_at(Version::new(1, 2, 163)));

    // After since: active (until is max)
    assert!(lt.is_active_at(Version::new(1, 2, 164)));
    assert!(lt.is_active_at(Version::new(2, 0, 0)));
}

#[test]
fn test_feature_span_is_active_at_with_until() {
    let lt =
        FeatureSpan::new(Feature::KvApi, Version::new(1, 2, 163)).until(Version::new(1, 2, 287));

    // Before since: not active
    assert!(!lt.is_active_at(Version::new(1, 2, 162)));

    // At since: active
    assert!(lt.is_active_at(Version::new(1, 2, 163)));

    // Between since and until: active
    assert!(lt.is_active_at(Version::new(1, 2, 200)));
    assert!(lt.is_active_at(Version::new(1, 2, 286)));

    // At until: not active (until is exclusive)
    assert!(!lt.is_active_at(Version::new(1, 2, 287)));

    // After until: not active
    assert!(!lt.is_active_at(Version::new(1, 2, 288)));
}

#[test]
fn test_feature_span_until3() {
    let lt = FeatureSpan::new(Feature::Watch, Version::new(1, 0, 0)).until3(2, 3, 4);
    assert!(lt.is_active_at(Version::new(2, 3, 3)));
    assert!(!lt.is_active_at(Version::new(2, 3, 4)));
}

#[test]
fn test_feature_span_reserved_never_active() {
    // A reservation: `since = MAX` means no current client build uses it.
    let lt = FeatureSpan::new(Feature::ExportV1, Version::max());
    assert!(!lt.is_active_at(Version::min()));
    assert!(!lt.is_active_at(Version::new(260205, 0, 0)));
    assert!(!lt.is_active_at(Version::max()));
}
