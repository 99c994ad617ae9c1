use xtui::config::Config;

#[test]
fn a_login_replaces_every_token() {
    let mut config = Config {
        source: Some("extension".into()),
        refresh_token: Some("old-refresh".into()),
        expires_at: Some(5),
        ..Config::default()
    };
    config.record_login("client".into(), "access".into(), None, Some(99));
    assert_eq!(config.client_id.as_deref(), Some("client"));
    assert_eq!(config.access_token(), Some("access"));
    assert_eq!(config.refresh_token, None, "a login without a refresh token clears the old one");
    assert_eq!(config.expires_at, Some(99));
    assert_eq!(config.source.as_deref(), Some("extension"));
}

#[test]
fn a_refresh_keeps_the_refresh_token_unless_rotated() {
    let mut config = Config {
        refresh_token: Some("keep".into()),
        ..Config::default()
    };
    config.record_refresh("new-access".into(), None, None);
    assert_eq!(config.access_token(), Some("new-access"));
    assert_eq!(config.refresh_token.as_deref(), Some("keep"));
    config.record_refresh("newer".into(), Some("rotated".into()), Some(7));
    assert_eq!(config.refresh_token.as_deref(), Some("rotated"));
    assert_eq!(config.expires_at, Some(7));
}

#[test]
fn legacy_browser_source_selects_the_extension() {
    let config = Config { source: Some("browser".into()), ..Config::default() };
    assert!(config.use_extension());
    let config = Config { source: Some("api".into()), ..Config::default() };
    assert!(!config.use_extension());
    let config = Config { access_token: Some(String::new()), ..Config::default() };
    assert_eq!(config.access_token(), None, "an empty token counts as none");
}

#[test]
fn the_environment_overrides_saved_credentials() {
    let saved = Config {
        client_id: Some("saved".into()),
        access_token: Some("saved-token".into()),
        ..Config::default()
    };
    let config = saved.with_environment(Some("env".into()), None);
    assert_eq!(config.client_id.as_deref(), Some("env"));
    assert_eq!(config.access_token(), Some("saved-token"));
}
