use meta_version::Feature;
use meta_version::Version;

#[test]
fn test_version_string() {
    assert_eq!(meta_version::version_str(), "260205.0.0");
}

#[test]
fn test_semver_components() {
    assert_eq!(meta_version::version().as_tuple(), (260205, 0, 0));
}

#[test]
fn test_min_client_version_matches_computed() {
    // The published minimum compatible client version for this build.
    let spec = meta_version::spec();
    assert_eq!(
        spec.min_compatible_client_version(),
        Version::new(1, 2, 676)
    );
}

#[test]
fn test_min_server_version_matches_computed() {
    // The published minimum compatible server version for this build.
    let spec = meta_version::spec();
    assert_eq!(
        spec.min_compatible_server_version(),
        Version::new(1, 2, 770)
    );
}

#[test]
fn test_catalog_size_and_order() {
    let all = Feature::all();
    assert_eq!(all.len(), 27);
    assert_eq!(all[0], Feature::KvApi);
    assert_eq!(all[26], Feature::KvGetMany);
    for (i, f) in all.iter().enumerate() {
        assert_eq!(f.index(), i);
    }
}

#[test]
fn test_feature_ids_are_unique() {
    let all = Feature::all();
    for a in all.iter() {
        for b in all.iter() {
            if a != b {
                assert_ne!(a.as_str(), b.as_str());
            }
        }
    }
}

#[test]
fn test_feature_as_str() {
    assert_eq!(Feature::KvApi.as_str(), "kv_api");
    assert_eq!(Feature::KvApiMGetKv.as_str(), "kv_api/mget_kv");
    assert_eq!(
        Feature::TransactionConditionKeysPrefix.as_str(),
        "transaction/condition_keys_prefix"
    );
    assert_eq!(Feature::KvGetMany.as_str(), "kv_get_many");
}
