use ota_flasher::version::{
    bump_patch, can_bump_patch, is_confirmation, parse_version_from_status,
};

#[test]
fn a_status_states_a_version() {
    assert_eq!(parse_version_from_status("ONLINE v1.0.1").as_deref(), Some("1.0.1"));
    assert_eq!(parse_version_from_status("ONLINE v1.0.1 rssi=-60").as_deref(), Some("1.0.1"));
    assert_eq!(parse_version_from_status("ONLINE v  2 x").as_deref(), Some("2"));
    assert_eq!(parse_version_from_status("ONLINE v"), None);
    assert_eq!(parse_version_from_status("ONLINE v  "), None);
    assert_eq!(parse_version_from_status("ONLINE"), None);
    assert_eq!(parse_version_from_status("OFFLINE"), None);
    assert_eq!(parse_version_from_status(""), None);
}

#[test]
fn the_patch_number_is_bumped() {
    assert_eq!(bump_patch("1.0.1"), "1.0.2");
    assert_eq!(bump_patch("1.0.9"), "1.0.10");
    assert_eq!(bump_patch("1.2.3.4"), "1.2.4");
    assert_eq!(bump_patch("1.2.x"), "1.2.1");
    assert_eq!(bump_patch("1.2."), "1.2.1");
    assert_eq!(bump_patch("1.2.007"), "1.2.8");
    assert_eq!(bump_patch("1.2"), "1.2.1");
    assert_eq!(bump_patch(""), ".1");
    assert_eq!(bump_patch("1.0.4294967294"), "1.0.4294967295");
    assert_eq!(bump_patch("1.0.4294967296"), "1.0.1");
}

#[test]
fn a_patch_number_without_successor_is_told() {
    assert!(!can_bump_patch("1.0.4294967295"));
    assert!(can_bump_patch("1.0.4294967294"));
    assert!(can_bump_patch("1.0"));
    assert!(can_bump_patch("a.b.c"));
}

#[test]
fn only_the_exact_version_is_confirmed() {
    assert!(is_confirmation("ONLINE v1.0.1", "1.0.1"));
    assert!(is_confirmation("ONLINE v1.0.1 rssi=-60", "1.0.1"));
    assert!(!is_confirmation("ONLINE v1.0.10", "1.0.1"));
    assert!(!is_confirmation("ONLINE v1.0.1\tx", "1.0.1"));
    assert!(!is_confirmation("OFFLINE", "1.0.1"));
    assert!(!is_confirmation("ONLINE v1.0.2", "1.0.1"));
}

#[test]
fn what_confirms_a_version_reports_it() {
    for status in ["ONLINE v3.4.5", "ONLINE v3.4.5 more"] {
        assert!(is_confirmation(status, "3.4.5"));
        assert_eq!(parse_version_from_status(status).as_deref(), Some("3.4.5"));
    }
}
