use upgrade::changelog::ChangelogEntry;
use upgrade::changelog::Log;
use upgrade::error::UpgradeError;
use upgrade::run::Event;
use upgrade::run::Op;
use upgrade::run::Upgrader;
use upgrade::source::UpgradeSource;
use upgrade::source::UpgradeTo;
use upgrade::version::Version;

fn started() -> Upgrader {
    let t = UpgradeTo { source: Some(UpgradeSource::Master) };
    let (machine, action) = Upgrader::new(t, Version::new(1, 2, 3)).unwrap();
    assert!(matches!(action.op, Op::StoreExpression));
    assert!(action.print.is_empty());
    assert!(!action.release_gc_root);
    machine
}

fn built_machine() -> Upgrader {
    let mut m = started();
    m.step(Event::Stored { expr_path: "/store/upgrade.nix".to_string() });
    let log = Log {
        entries: vec![ChangelogEntry {
            version: Version::new(1, 3, 0),
            changes: "fix X".to_string(),
        }],
    };
    m.step(Event::ChangelogEvaluated { log });
    m
}

#[test]
fn a_successful_run_installs_and_releases_the_root() {
    let mut m = built_machine();
    let a = m.step(Event::Built { build_path: "/store/out".to_string() });
    match a.op {
        Op::RunInstaller { build_path } => assert_eq!(build_path, "/store/out"),
        _ => panic!("expected the installer to run after a successful build"),
    }
    assert!(!a.release_gc_root);
    let a = m.step(Event::InstallExited { ok: true });
    assert!(a.release_gc_root);
    match a.op {
        Op::Finish { result } => assert_eq!(result.unwrap(), "\nUpgrade successful."),
        _ => panic!("expected the run to finish"),
    }
}

#[test]
fn the_store_path_and_target_flow_into_the_requests() {
    let mut m = started();
    let a = m.step(Event::Stored { expr_path: "/store/upgrade.nix".to_string() });
    assert_eq!(a.print, vec!["Upgrading from source: master".to_string()]);
    match a.op {
        Op::EvaluateChangelog { request } => {
            assert_eq!(request.expr_path, "/store/upgrade.nix");
            assert_eq!(request.src, "master");
        }
        _ => panic!("expected a changelog evaluation"),
    }
    let log = Log {
        entries: vec![ChangelogEntry {
            version: Version::new(1, 3, 0),
            changes: "fix X".to_string(),
        }],
    };
    let a = m.step(Event::ChangelogEvaluated { log });
    assert_eq!(
        a.print,
        vec![
            "Changelog when upgrading from 1.2.3:".to_string(),
            "".to_string(),
            "1.3.0:".to_string(),
            "    fix X".to_string(),
            "Upgrading from source: master".to_string(),
            "Building ...".to_string(),
        ]
    );
    match a.op {
        Op::BuildPackage { request } => {
            assert_eq!(request.expr_path, "/store/upgrade.nix");
            assert_eq!(request.src, "master");
        }
        _ => panic!("expected a package build"),
    }
}

#[test]
fn a_failed_build_reports_a_bug_and_never_installs() {
    let mut m = built_machine();
    let a = m.step(Event::BuildFailed { details: "attribute `package` missing".to_string() });
    assert!(!a.release_gc_root);
    match a.op {
        Op::Finish { result } => match result {
            Err(UpgradeError::Evaluation(msg)) => {
                assert!(msg.contains("report a bug"));
                assert!(msg.contains("attribute `package` missing"));
            }
            _ => panic!("expected an evaluation error"),
        },
        Op::RunInstaller { .. } => panic!("the installer must never run after a failed build"),
        _ => panic!("expected the run to finish"),
    }
}

#[test]
fn a_non_zero_install_exit_is_an_install_error_and_releases_the_root() {
    let mut m = built_machine();
    m.step(Event::Built { build_path: "/store/out".to_string() });
    let a = m.step(Event::InstallExited { ok: false });
    assert!(a.release_gc_root);
    match a.op {
        Op::Finish { result } => match result {
            Err(UpgradeError::Install(msg)) => {
                assert_eq!(msg, "\nError: nix-env command was not successful!");
            }
            _ => panic!("expected an install error"),
        },
        _ => panic!("expected the run to finish"),
    }
}

#[test]
fn an_absent_installer_is_an_install_error_and_releases_the_root() {
    let mut m = built_machine();
    m.step(Event::Built { build_path: "/store/out".to_string() });
    let a = m.step(Event::InstallLaunchFailed);
    assert!(a.release_gc_root);
    match a.op {
        Op::Finish { result } => match result {
            Err(e @ UpgradeError::Install(_)) => {
                assert_eq!(e.message(), "Error: failed to execute nix-env --install");
            }
            _ => panic!("expected an install error"),
        },
        _ => panic!("expected the run to finish"),
    }
}

#[test]
fn a_failed_store_write_is_a_storage_error() {
    let mut m = started();
    let a = m.step(Event::StoreFailed { details: "disk full".to_string() });
    match a.op {
        Op::Finish { result } => match result {
            Err(UpgradeError::Storage(msg)) => {
                assert!(msg.contains("could not write the upgrade expression"));
                assert!(msg.contains("disk full"));
            }
            _ => panic!("expected a storage error"),
        },
        _ => panic!("expected the run to finish"),
    }
}

#[test]
fn a_failed_changelog_evaluation_is_an_evaluation_error() {
    let mut m = started();
    m.step(Event::Stored { expr_path: "/store/upgrade.nix".to_string() });
    let a = m.step(Event::ChangelogFailed { details: "syntax error".to_string() });
    match a.op {
        Op::Finish { result } => match result {
            Err(UpgradeError::Evaluation(msg)) => {
                assert!(msg.contains("report a bug"));
                assert!(msg.contains("syntax error"));
            }
            _ => panic!("expected an evaluation error"),
        },
        _ => panic!("expected the run to finish"),
    }
}
