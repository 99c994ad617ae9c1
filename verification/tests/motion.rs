use xtui::motion::{motion_enabled, truthy};

#[test]
fn truthy_settings_ignore_case_and_spaces() {
    assert!(truthy(" YES "));
    assert!(truthy("1"));
    assert!(truthy("On"));
    assert!(!truthy("no"));
    assert!(!truthy("2"));
}

#[test]
fn motion_can_be_frozen_from_the_environment() {
    assert!(motion_enabled(None, None));
    assert!(!motion_enabled(Some("true"), None));
    assert!(!motion_enabled(None, Some(" Off")));
    assert!(motion_enabled(Some("0"), Some("on")));
}
