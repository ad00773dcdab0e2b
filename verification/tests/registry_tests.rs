use meta_version::Feature;
use meta_version::Spec;
use meta_version::Version;

#[test]
fn test_changes_includes_all_features() {
    let spec = Spec::load();

    assert!(Spec::assert_all_features(spec.server_features()));
    assert!(Spec::assert_all_features(spec.client_features()));
}

#[test]
fn test_min_compatible_server_version() {
    let spec = Spec::load();
    let min_server = spec.min_compatible_server_version();

    assert_eq!(min_server, Version::new(1, 2, 770));
}

#[test]
fn test_min_compatible_client_version() {
    let spec = Spec::load();
    let min_client = spec.min_compatible_client_version();

    assert_eq!(min_client, Version::new(1, 2, 676));
}

#[test]
fn test_registry_version_is_build_version() {
    let spec = Spec::load();
    assert_eq!(*spec.version(), Version::new(260205, 0, 0));
}

#[test]
fn test_from_spans_rejects_short_table() {
    let mut srv = meta_version::initial_spans();
    let cli = meta_version::initial_spans();
    srv.pop();
    assert!(Spec::from_spans(Version::new(1, 0, 0), srv, cli).is_none());
}

#[test]
fn test_from_spans_rejects_misordered_table() {
    let srv = meta_version::initial_spans();
    let mut cli = meta_version::initial_spans();
    cli.swap(0, 1);
    assert!(Spec::from_spans(Version::new(1, 0, 0), srv, cli).is_none());
}

#[test]
fn test_from_spans_accepts_fresh_tables() {
    let srv = meta_version::initial_spans();
    let cli = meta_version::initial_spans();
    let spec = Spec::from_spans(Version::new(1, 0, 0), srv, cli);
    assert!(spec.is_some());
    // Nothing was ever removed, so any client is acceptable.
    assert_eq!(
        spec.unwrap().min_compatible_client_version(),
        Version::min()
    );
}

#[test]
fn test_server_window_scenario() {
    // A feature is added on the server at version 100 and removed at 200;
    // the client starts using it at 150 and never stops.
    let mut srv = meta_version::initial_spans();
    let mut cli = meta_version::initial_spans();
    meta_version::add(&mut srv, Feature::KvApi, Version::new(0, 0, 100));
    meta_version::remove(&mut srv, Feature::KvApi, Version::new(0, 0, 200));
    meta_version::add(&mut cli, Feature::KvApi, Version::new(0, 0, 150));

    // At client version 175 the feature is active, so the server must be
    // at least at the version that introduced it.
    let at_175 = Spec::from_spans(Version::new(0, 0, 175), srv.clone(), cli.clone()).unwrap();
    let min_server = at_175.min_compatible_server_version();
    assert!(Version::new(0, 0, 100) <= min_server);
    assert_eq!(min_server, Version::new(0, 0, 100));

    // At client version 140 the feature is not yet active on the client,
    // so it contributes no constraint.
    let at_140 = Spec::from_spans(Version::new(0, 0, 140), srv, cli).unwrap();
    assert_eq!(at_140.min_compatible_server_version(), Version::min());
}

#[test]
fn test_client_removal_scenario() {
    // The server removes a feature at version 300; the client stopped
    // depending on it at version 280.
    let mut srv = meta_version::initial_spans();
    let mut cli = meta_version::initial_spans();
    meta_version::add(&mut srv, Feature::Watch, Version::new(0, 0, 100));
    meta_version::remove(&mut srv, Feature::Watch, Version::new(0, 0, 300));
    meta_version::add(&mut cli, Feature::Watch, Version::new(0, 0, 80));
    meta_version::remove(&mut cli, Feature::Watch, Version::new(0, 0, 280));

    // At server version 350 the feature is inactive on the server, so the
    // client must have reached the version where it stopped depending on it.
    let spec = Spec::from_spans(Version::new(0, 0, 350), srv, cli).unwrap();
    assert_eq!(spec.min_compatible_client_version(), Version::new(0, 0, 280));
}

#[test]
fn test_unremoved_client_dependency_blocks_all_clients() {
    // The server drops a feature while the client still depends on it
    // (`until = MAX`): no client version is compatible.
    let mut srv = meta_version::initial_spans();
    let mut cli = meta_version::initial_spans();
    meta_version::add(&mut srv, Feature::Export, Version::new(0, 0, 100));
    meta_version::remove(&mut srv, Feature::Export, Version::new(0, 0, 300));
    meta_version::add(&mut cli, Feature::Export, Version::new(0, 0, 100));

    let spec = Spec::from_spans(Version::new(0, 0, 350), srv, cli).unwrap();
    assert_eq!(spec.min_compatible_client_version(), Version::max());
}
