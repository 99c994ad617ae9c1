use xtui::app::{App, LandingAction};
use xtui::landing::{landing_layout, menu_copy, menu_row, mode, state, LandingLayout};

#[test]
fn landing_copy_names_each_entry() {
    let app = App::new(true);
    assert_eq!(mode(&app), "demo");
    assert_eq!(menu_copy(LandingAction::Start, &app), ("Start", "Demo / no account"));
    assert_eq!(menu_copy(LandingAction::Quit, &app), ("Quit", "Return to shell"));
    let (line, identity) = state(&app);
    assert_eq!(line, "Offline / demo");
    assert_eq!(identity, "Local / no account");
    let live = App::new(false).with_browser_mode();
    assert_eq!(mode(&live), "extension");
    assert_eq!(state(&live).1, "Not linked");
}

#[test]
fn pending_work_shows_the_spinner_and_status() {
    let mut app = App::new(true);
    app.request_bootstrap();
    let (line, _) = state(&app);
    assert!(line.ends_with("  Checking your session…"));
    app.error = Some("boom".into());
    assert_eq!(state(&app).0, "Fault / r to retry");
}

#[test]
fn landing_pages_fit_the_terminal() {
    assert_eq!(landing_layout(110, 44), LandingLayout::Full);
    assert_eq!(landing_layout(88, 30), LandingLayout::Full);
    assert_eq!(landing_layout(87, 44), LandingLayout::Compact);
    assert_eq!(landing_layout(60, 24), LandingLayout::Compact);
    assert_eq!(landing_layout(44, 18), LandingLayout::Tiny);
    assert_eq!(landing_layout(52, 21), LandingLayout::Compact);
    assert_eq!(landing_layout(51, 21), LandingLayout::Tiny);
    assert_eq!(landing_layout(52, 20), LandingLayout::Tiny);
    assert!(xtui::ui::reader_is_wide(78));
    assert!(!xtui::ui::reader_is_wide(77));
    assert_eq!(xtui::landing::version_line(), "xtui version 0.3.7");
}

#[test]
fn menu_rows_mark_the_selection_and_fit_the_width() {
    let mut app = App::new(true);
    let start = menu_row(&app, 0, LandingAction::Start, 60, false);
    assert_eq!(start.marker, "▌ ");
    assert_eq!(start.number, "01  ");
    assert_eq!(start.title, "Start");
    assert_eq!(start.detail, "  /  Demo / no account");
    assert_eq!(start.key, "→ open");
    assert_eq!(start.gap, 60 - (2 + 4 + 5 + 22 + 6));
    let quit = menu_row(&app, 2, LandingAction::Quit, 60, true);
    assert_eq!((quit.marker, quit.key, quit.detail.as_str()), ("  ", "", ""));
    app.hovered = Some(xtui::app::HitAction::Landing(2));
    let hovered = menu_row(&app, 2, LandingAction::Quit, 10, false);
    assert_eq!((hovered.marker, hovered.key), ("› ", "click"));
    assert_eq!(hovered.title, "", "no room for the title");
    let narrow = menu_row(&app, 1, LandingAction::SignIn, 20, false);
    assert_eq!(narrow.title, "Connect brow…");
    assert_eq!(narrow.detail, "");
}

#[test]
fn menu_rows_are_clickable() {
    let mut app = App::new(true);
    xtui::landing::register_menu_hits(&mut app, 4, 10, 30, 3);
    assert_eq!(app.hit_regions.len(), 3);
    assert_eq!(app.hit_regions[2].y, 12);
    assert_eq!(app.hit_regions[2].action, xtui::app::HitAction::Landing(2));
    xtui::ui::handle_click(&mut app, 11, 5);
    assert_eq!(app.landing_selected, 1);
    assert!(matches!(app.take_effects().last(), Some(xtui::app::Effect::PrepareExtension)));
}
