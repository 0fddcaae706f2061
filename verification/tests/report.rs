use upgrade::changelog::changelog_report;
use upgrade::changelog::ChangelogEntry;
use upgrade::changelog::Log;
use upgrade::version::Version;

fn entry(major: u64, minor: u64, patch: u64, changes: &str) -> ChangelogEntry {
    ChangelogEntry { version: Version::new(major, minor, patch), changes: changes.to_string() }
}

#[test]
fn report_shows_only_newer_entries_in_order() {
    let log = Log {
        entries: vec![entry(1, 2, 3, "a"), entry(1, 3, 0, "fix X"), entry(2, 0, 0, "fix Y\nfix Z")],
    };
    let r = changelog_report(&log, &Version::new(1, 2, 3));
    assert_eq!(
        r,
        vec![
            "Changelog when upgrading from 1.2.3:".to_string(),
            "".to_string(),
            "1.3.0:".to_string(),
            "    fix X".to_string(),
            "".to_string(),
            "2.0.0:".to_string(),
            "    fix Y".to_string(),
            "    fix Z".to_string(),
        ]
    );
}

#[test]
fn entries_at_or_below_the_running_version_are_skipped() {
    let log = Log { entries: vec![entry(0, 9, 9, "old"), entry(1, 0, 0, "current")] };
    let r = changelog_report(&log, &Version::new(1, 0, 0));
    assert_eq!(r, vec!["Changelog when upgrading from 1.0.0:".to_string()]);
}

#[test]
fn document_order_is_kept_even_when_unsorted() {
    let log = Log { entries: vec![entry(3, 0, 0, "later"), entry(2, 0, 0, "earlier")] };
    let r = changelog_report(&log, &Version::new(1, 0, 0));
    assert_eq!(
        r,
        vec![
            "Changelog when upgrading from 1.0.0:".to_string(),
            "".to_string(),
            "3.0.0:".to_string(),
            "    later".to_string(),
            "".to_string(),
            "2.0.0:".to_string(),
            "    earlier".to_string(),
        ]
    );
}

#[test]
fn an_empty_log_prints_only_the_header() {
    let log = Log { entries: vec![] };
    let r = changelog_report(&log, &Version::new(0, 1, 0));
    assert_eq!(r, vec!["Changelog when upgrading from 0.1.0:".to_string()]);
}
