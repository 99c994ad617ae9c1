use xtui::keys::{Action, KeyBindings, KeyCode, KeyEvent, KeyModifiers, KeySpec, CONTROL, SHIFT};

fn key(code: KeyCode) -> KeyEvent {
    KeyEvent::from(code)
}

#[test]
fn defaults_bind_the_classic_keys() {
    let b = KeyBindings::default();
    assert_eq!(b.action_for(&key(KeyCode::Char('j'))), Some(Action::MoveDown));
    assert_eq!(b.action_for(&key(KeyCode::Down)), Some(Action::MoveDown));
    assert_eq!(b.action_for(&key(KeyCode::Char('q'))), Some(Action::Quit));
    assert_eq!(b.action_for(&key(KeyCode::Esc)), Some(Action::Back));
    assert_eq!(b.action_for(&key(KeyCode::Enter)), Some(Action::Open));
    assert_eq!(b.action_for(&key(KeyCode::Char('L'))), Some(Action::Likes));
    assert_eq!(b.action_for(&key(KeyCode::Char('l'))), None, "likes is L, not l");
    assert_eq!(b.action_for(&key(KeyCode::Char('G'))), Some(Action::Bottom));
    assert_eq!(b.action_for(&key(KeyCode::Char('g'))), Some(Action::Top));
    assert_eq!(b.action_for(&key(KeyCode::Char(' '))), Some(Action::ExpandThread));
    assert_eq!(b.action_for(&key(KeyCode::Char('1'))), Some(Action::Home));
    assert_eq!(b.action_for(&key(KeyCode::Char('?'))), Some(Action::Help));
}

#[test]
fn config_overrides_win_and_typos_are_ignored() {
    let overrides: Vec<(String, Vec<String>)> = vec![
        ("move_down".into(), vec!["s".into(), "down".into()]),
        ("totally_bogus".into(), vec!["z".into()]),
        ("quit".into(), vec!["ctrl-x".into()]),
    ];
    let b = KeyBindings::from_config(Some(&overrides));
    assert_eq!(b.action_for(&key(KeyCode::Char('s'))), Some(Action::MoveDown));
    assert_eq!(b.action_for(&key(KeyCode::Down)), Some(Action::MoveDown));
    assert_eq!(b.action_for(&key(KeyCode::Char('j'))), None, "j was unbound");
    assert_eq!(
        b.action_for(&KeyEvent::new(KeyCode::Char('x'), KeyModifiers::from_bits(CONTROL))),
        Some(Action::Quit)
    );
    assert_eq!(b.action_for(&key(KeyCode::Char('z'))), None);
}

#[test]
fn shift_is_normalized_away() {
    let with_shift = KeyEvent::new(KeyCode::Char('L'), KeyModifiers::from_bits(SHIFT));
    let without_shift = KeyEvent::from(KeyCode::Char('L'));
    let b = KeyBindings::default();
    assert_eq!(b.action_for(&with_shift), Some(Action::Likes));
    assert_eq!(b.action_for(&without_shift), Some(Action::Likes));
}

#[test]
fn specs_parse_and_label() {
    assert_eq!(KeySpec::parse("ctrl-u").unwrap().label(), "Ctrl+U");
    assert_eq!(KeySpec::parse("space").unwrap().label(), "Space");
    assert_eq!(KeySpec::parse("shift+g").unwrap().label(), "G");
    assert_eq!(KeySpec::parse("enter").unwrap().label(), "Enter");
    assert_eq!(KeySpec::parse("pageup").unwrap().label(), "PgUp");
    assert_eq!(KeySpec::parse("2chars").map(|_| ()), None);
    assert_eq!(KeySpec::parse("ctrl-").map(|_| ()), None);
}

#[test]
fn action_names_round_trip() {
    for name in ["quit", "move_down", "open_media", "toggle_feed", "expand_thread"] {
        let action = Action::parse(name).unwrap();
        assert_eq!(action.name(), name);
    }
    assert_eq!(Action::parse("nonsense"), None);
}

#[test]
fn action_names_parse_back() {
    for action in [Action::Quit, Action::MoveDown, Action::PageUp, Action::OpenMedia, Action::ToggleFeed, Action::ExpandThread, Action::Lists] {
        assert_eq!(Action::parse(action.name()), Some(action));
    }
    assert_eq!(Action::parse("MOVE_DOWN"), Some(Action::MoveDown), "names ignore case");
    assert_eq!(Action::parse("jump"), None);
}

#[test]
fn action_names_are_distinct() {
    let all = [Action::Quit, Action::MoveUp, Action::MoveDown, Action::PageUp, Action::PageDown, Action::Top, Action::Bottom, Action::Open, Action::Back, Action::Search, Action::Refresh, Action::Profile, Action::Likes, Action::MediaPreview, Action::OpenMedia, Action::OpenPost, Action::Help, Action::Sidebar, Action::Home, Action::Explore, Action::Mentions, Action::Bookmarks, Action::Lists, Action::ToggleFeed, Action::ExpandThread];
    for a in all {
        for b in all {
            assert_eq!(a.name() == b.name(), a == b);
        }
        assert_eq!(Action::parse(&a.name().to_uppercase()), Some(a));
    }
}
