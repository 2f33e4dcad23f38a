use std::cmp::Ordering;

use mcman::model::{artifact, first, latest};
use mcman::version::{compare_versions, get_latest_semver, is_default_str, resolve_latest};

fn strings(v: &[&str]) -> Vec<String> {
    v.iter().map(|s| s.to_string()).collect()
}

#[test]
fn latest_of_mixed_versions() {
    let list = strings(&["1.2.0", "1.10.0", "1.2.0-beta"]);
    assert_eq!(get_latest_semver(&list), Some("1.10.0".to_string()));
}

#[test]
fn latest_of_empty_list_is_none() {
    assert_eq!(get_latest_semver(&[]), None);
}

#[test]
fn latest_prefers_longer_with_same_prefix() {
    let list = strings(&["1.2.0", "1.2"]);
    assert_eq!(get_latest_semver(&list), Some("1.2.0".to_string()));
}

#[test]
fn latest_takes_last_of_equals() {
    let list = strings(&["1.x", "1.y"]);
    assert_eq!(get_latest_semver(&list), Some("1.y".to_string()));
}

#[test]
fn version_order() {
    assert_eq!(compare_versions("1.2", "1.2.0"), Ordering::Less);
    assert_eq!(compare_versions("1.10.0", "1.2.0"), Ordering::Greater);
    assert_eq!(compare_versions("1.2.0-beta", "1.2.0"), Ordering::Less);
    assert_eq!(compare_versions("1.2.0", "1.2.0"), Ordering::Equal);
    assert_eq!(compare_versions("+3", "3"), Ordering::Equal);
    assert_eq!(compare_versions("4294967296", "1"), Ordering::Less);
}

#[test]
fn sentinels() {
    assert!(is_default_str("latest"));
    assert!(!is_default_str("Latest"));
    assert!(!is_default_str("1.20.1"));
    assert_eq!(latest(), "latest");
    assert_eq!(first(), "first");
    assert_eq!(artifact(), "artifact");
}

#[test]
fn latest_selector_resolution() {
    assert_eq!(resolve_latest("latest", Some("0.15.3".to_string()), "x").unwrap(), "0.15.3");
    assert_eq!(resolve_latest("0.14.0", Some("0.15.3".to_string()), "x").unwrap(), "0.14.0");
    assert!(resolve_latest("latest", None, "x").is_err());
}

#[test]
fn white_space_trimming_in_folder_names() {
    assert_eq!(mcman::model::url_to_folder("https://ci.md-5.net/ "), "ci.md-5.net");
    assert_eq!(mcman::model::url_to_folder("\u{3000}http://x.y/"), "x.y");
}
