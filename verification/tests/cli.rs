use xtui::cli::{choose_source, parse_command, version_line, Command, ExtensionAction, Source};

fn args(words: &[&str]) -> Vec<String> {
    words.iter().map(|w| w.to_string()).collect()
}

#[test]
fn commands_are_read_from_the_first_word() {
    assert!(matches!(parse_command(&args(&[])), Command::Run { word: None }));
    assert!(matches!(parse_command(&args(&["-h"])), Command::Help));
    assert!(matches!(parse_command(&args(&["version"])), Command::Version));
    assert!(matches!(parse_command(&args(&["native-host"])), Command::NativeHost));
    assert!(matches!(
        parse_command(&args(&["chrome-extension://iepklfmnjidigljfaegfjlbeghpjejka/"])),
        Command::NativeHost
    ));
    assert!(matches!(
        parse_command(&args(&["login", "abc"])),
        Command::Login { client_id: Some(ref c) } if c == "abc"
    ));
    assert!(matches!(
        parse_command(&args(&["extension", "install", "--chrome"])),
        Command::Extension { action: Some(ref a), browser: Some(ref b) } if a == "install" && b == "--chrome"
    ));
    assert!(matches!(parse_command(&args(&["browser-login"])), Command::RemovedBrowserMode));
    assert!(matches!(parse_command(&args(&["demo"])), Command::Run { word: Some(ref w) } if w == "demo"));
    assert_eq!(version_line(), "xtui 0.3.7");
}

#[test]
fn the_source_follows_the_command_and_the_config() {
    assert_eq!(choose_source(Some("live"), false, true), Source::Extension);
    assert_eq!(choose_source(None, true, false), Source::Extension);
    assert_eq!(choose_source(Some("demo"), false, true), Source::Demo);
    assert_eq!(choose_source(None, false, false), Source::Demo);
    assert_eq!(choose_source(None, false, true), Source::Api);
}

#[test]
fn extension_actions_default_to_status() {
    assert_eq!(ExtensionAction::parse(None), Ok(ExtensionAction::Status));
    assert_eq!(ExtensionAction::parse(Some("path")), Ok(ExtensionAction::Prepare));
    assert_eq!(
        ExtensionAction::parse(Some("remove")).unwrap_err(),
        "unknown extension action `remove`; use install, prepare, path, status, or check"
    );
}
