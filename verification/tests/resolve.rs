use upgrade::error::UpgradeError;
use upgrade::source::resolve_source;
use upgrade::source::UpgradeSource;
use upgrade::source::UpgradeTo;

#[test]
fn local_utf8_path_resolves_to_its_text() {
    let path = "/home/dev/tool-src";
    let t = UpgradeTo { source: Some(UpgradeSource::Local(path.as_bytes().to_vec())) };
    let r = resolve_source(t);
    assert_eq!(r.unwrap(), path.to_string());
}

#[test]
fn local_non_utf8_path_is_a_configuration_error() {
    let t = UpgradeTo { source: Some(UpgradeSource::Local(vec![0xff, 0xfe, 0x2f])) };
    let r = resolve_source(t);
    match r {
        Err(UpgradeError::Configuration(m)) => {
            assert_eq!(m, "requested upgrade source directory is not UTF-8 clean");
        }
        _ => panic!("expected a configuration error"),
    }
}

#[test]
fn rolling_release_resolves_to_its_name() {
    let t = UpgradeTo { source: Some(UpgradeSource::RollingRelease) };
    assert_eq!(resolve_source(t).unwrap(), "rolling-release");
}

#[test]
fn master_resolves_to_its_name() {
    let t = UpgradeTo { source: Some(UpgradeSource::Master) };
    assert_eq!(resolve_source(t).unwrap(), "master");
}

#[test]
fn no_source_defaults_to_rolling_release() {
    let t = UpgradeTo { source: None };
    assert_eq!(resolve_source(t).unwrap(), "rolling-release");
}
