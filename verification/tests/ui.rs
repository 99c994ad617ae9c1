use xtui::app::{App, Effect, HitAction, InputMode, Screen, ScreenPayload, UiMsg};
use xtui::config::ThemeConfig;
use xtui::demo::DemoApi;
use xtui::keys::{KeyCode, KeyEvent, KeyEventKind, KeyModifiers, CONTROL};
use xtui::media::best_external_url;
use xtui::ui::{
    body_limit, body_lines, body_window, card_height, card_window, clear_body_scroll,
    fit_body_scroll, pinned_card, BodyWindow,
};
use xtui::ui::{
    centered, handle_click, handle_key, header_height, key_repeats, loading_subject, monochrome,
    parse_hex, relative_time, truncate_to_width, Rect, Rgb, Theme,
};

#[test]
fn center_stays_inside() {
    let r = centered(Rect { x: 0, y: 0, width: 20, height: 10 }, 100, 100);
    assert_eq!(r, Rect { x: 0, y: 0, width: 20, height: 10 });
}

#[test]
fn centered_boxes_sit_in_the_middle() {
    let r = centered(Rect { x: 2, y: 1, width: 20, height: 10 }, 10, 4);
    assert_eq!(r, Rect { x: 7, y: 4, width: 10, height: 4 });
}

#[test]
fn theme_parses_hex_and_defaults() {
    let t = Theme::from_config(&Some(ThemeConfig {
        accent: Some("#112233".into()),
        ..Default::default()
    }));
    assert_eq!(t.accent, Rgb { red: 31, green: 31, blue: 31 });
    assert_eq!(t.gray, Theme::default().gray, "unset colors keep defaults");
    assert_eq!(parse_hex("nope"), None);
    assert_eq!(parse_hex("#FFF"), None);
}

#[test]
fn hex_colors_follow_from_str_radix() {
    assert_eq!(parse_hex("ff8000"), Some(Rgb { red: 255, green: 128, blue: 0 }));
    assert_eq!(parse_hex("#+f0a0b"), Some(Rgb { red: 15, green: 10, blue: 11 }));
    assert_eq!(parse_hex("#ff80g0"), None);
    assert_eq!(parse_hex("#éé0000"), None);
    assert_eq!(monochrome(Rgb { red: 255, green: 255, blue: 255 }), Rgb { red: 255, green: 255, blue: 255 });
    assert_eq!(monochrome(Rgb { red: 0, green: 0, blue: 0 }), Rgb { red: 0, green: 0, blue: 0 });
}

#[test]
fn status_text_is_truncated_with_an_ellipsis() {
    assert_eq!(truncate_to_width("hello world", 5), "hell…");
    assert_eq!(truncate_to_width("hello", 100), "hello");
    assert_eq!(truncate_to_width("", 5), "");
    assert_eq!(truncate_to_width("abcdef", 0), "");
}

#[test]
fn wide_glyphs_take_two_columns_when_truncating() {
    assert_eq!(truncate_to_width("界界界", 4), "界…");
    assert_eq!(truncate_to_width("ab", 1), "…");
}

#[test]
fn ages_read_in_the_largest_whole_unit() {
    let now = 10 * 86_400_000;
    assert_eq!(relative_time(now - 59_999, now), "now");
    assert_eq!(relative_time(now + 5_000, now), "now");
    assert_eq!(relative_time(now - 60_000, now), "1m");
    assert_eq!(relative_time(now - 3 * 3_600_000, now), "3h");
    assert_eq!(relative_time(now - 2 * 86_400_000 - 1, now), "2d");
}

#[test]
fn held_movement_keys_repeat() {
    assert!(key_repeats(KeyCode::Down));
    assert!(key_repeats(KeyCode::Char('j')));
    assert!(key_repeats(KeyCode::Backspace));
    assert!(!key_repeats(KeyCode::Enter));
    assert!(!key_repeats(KeyCode::Char('q')));
}

#[test]
fn loading_and_header_follow_the_screen() {
    let app = App::new(true);
    assert_eq!(loading_subject(&app), "session");
    assert_eq!(header_height(&app), 3);
}

#[test]
fn q_on_landing_quits() {
    let mut app = App::new(true);
    handle_key(&mut app, KeyEvent::from(KeyCode::Char('q')));
    assert!(app.should_quit);
}

#[test]
fn landing_keys_move_and_start() {
    let mut app = App::new(true);
    let len = app.landing_items().len();
    handle_key(&mut app, KeyEvent::from(KeyCode::Up));
    assert_eq!(app.landing_selected, len - 1, "up wraps to the last entry");
    handle_key(&mut app, KeyEvent::from(KeyCode::Down));
    assert_eq!(app.landing_selected, 0);
    handle_key(&mut app, KeyEvent::from(KeyCode::Enter));
    assert!(matches!(app.screen, Screen::Home));
    assert_eq!(app.history.len(), 1, "the landing page stays on the back stack");
}

#[test]
fn ctrl_c_always_quits() {
    let mut app = App::new(true);
    app.screen = Screen::Home;
    app.mode = InputMode::Search;
    handle_key(&mut app, KeyEvent::new(KeyCode::Char('c'), KeyModifiers::from_bits(CONTROL)));
    assert!(app.should_quit);
}

#[test]
fn search_keys_edit_the_query() {
    let mut app = App::new(true);
    app.screen = Screen::Explore;
    app.mode = InputMode::Search;
    for c in "ab".chars() {
        handle_key(&mut app, KeyEvent::from(KeyCode::Char(c)));
    }
    handle_key(&mut app, KeyEvent::from(KeyCode::Left));
    handle_key(&mut app, KeyEvent::from(KeyCode::Char('x')));
    assert_eq!(app.query, "axb");
    handle_key(&mut app, KeyEvent::from(KeyCode::End));
    assert_eq!(app.search_cursor, 3);
    handle_key(&mut app, KeyEvent::new(KeyCode::Char('u'), KeyModifiers::from_bits(CONTROL)));
    assert_eq!(app.query, "");
}

#[test]
fn tab_enters_sidebar_and_arrows_drive_it() {
    let mut app = App::new(true);
    app.screen = Screen::Home;
    handle_key(&mut app, KeyEvent::from(KeyCode::Tab));
    assert!(app.nav_focused);
    handle_key(&mut app, KeyEvent::from(KeyCode::Down));
    assert_eq!(app.nav_selected, 1);
    handle_key(&mut app, KeyEvent::from(KeyCode::Enter));
    assert!(!app.nav_focused);
    assert!(matches!(app.screen, Screen::Explore));
}

#[test]
fn clicks_follow_the_painted_regions() {
    let mut app = App::new(true);
    app.register_hit(10, 5, 8, 1, HitAction::Quit);
    handle_click(&mut app, 5, 3);
    assert!(!app.should_quit, "a click outside every region does nothing");
    app.help = true;
    handle_click(&mut app, 5, 12);
    assert!(!app.should_quit, "an open overlay swallows clicks");
    app.help = false;
    handle_click(&mut app, 5, 12);
    assert!(app.should_quit);
}

fn booted() -> (App, DemoApi) {
    let api = DemoApi::new();
    let mut app = App::new(true);
    app.me = Some(api.me());
    app.screen = Screen::Home;
    app.apply_screen_data(Ok(ScreenPayload::Page(api.home())), false);
    (app, api)
}

/// Answer the recorded screen loads and media fetches from the sample source.
fn settle(app: &mut App, api: &DemoApi) -> Vec<Effect> {
    let mut other = Vec::new();
    loop {
        let effects = app.take_effects();
        if effects.is_empty() {
            return other;
        }
        for effect in effects {
            match effect {
                Effect::FetchScreen { generation, silent, screen, .. } => {
                    let result = match screen {
                        Screen::Thread(post) => {
                            Ok(ScreenPayload::Thread(api.replies(&post.conversation_id)))
                        }
                        _ => Ok(ScreenPayload::Page(api.home())),
                    };
                    app.process_message(UiMsg::ScreenLoaded { generation, silent, result });
                }
                Effect::FetchMedia { url, counted } => app.process_message(UiMsg::MediaDone {
                    url,
                    open: counted,
                    counted,
                    result: Ok(()),
                }),
                other_effect => other.push(other_effect),
            }
        }
    }
}

#[test]
fn held_arrow_keys_keep_moving() {
    let (mut app, _) = booted();
    handle_key(&mut app, KeyEvent::new(KeyCode::Down, KeyModifiers::empty()));
    assert_eq!(app.selected, 1);
    let mut repeat = KeyEvent::new(KeyCode::Down, KeyModifiers::empty());
    repeat.kind = KeyEventKind::Repeat;
    handle_key(&mut app, repeat);
    assert_eq!(app.selected, 2, "key repeat must keep scrolling the feed");
}

#[test]
fn arrow_keys_open_and_restore_the_exact_feed_position() {
    let (mut app, api) = booted();
    handle_key(&mut app, KeyEvent::from(KeyCode::Down));
    settle(&mut app, &api);
    assert_eq!(app.selected, 1);
    let selected_id = app.selected_post().unwrap().id.clone();
    handle_key(&mut app, KeyEvent::from(KeyCode::Right));
    settle(&mut app, &api);
    assert!(matches!(app.screen, Screen::Thread(_)));
    handle_key(&mut app, KeyEvent::from(KeyCode::Left));
    settle(&mut app, &api);
    assert!(matches!(app.screen, Screen::Home));
    assert_eq!(app.selected_post().unwrap().id, selected_id);
    assert!(!app.should_quit);
}

#[test]
fn jk_and_g_keys_navigate() {
    let (mut app, api) = booted();
    handle_key(&mut app, KeyEvent::from(KeyCode::Char('j')));
    settle(&mut app, &api);
    assert_eq!(app.selected, 1);
    handle_key(&mut app, KeyEvent::from(KeyCode::Char('k')));
    settle(&mut app, &api);
    assert_eq!(app.selected, 0);
    handle_key(&mut app, KeyEvent::from(KeyCode::Char('G')));
    settle(&mut app, &api);
    assert_eq!(app.selected, app.posts.len() - 1);
    handle_key(&mut app, KeyEvent::from(KeyCode::Char('g')));
    settle(&mut app, &api);
    assert_eq!(app.selected, 0);
}

#[test]
fn pasted_search_text_lands_in_the_query() {
    let (mut app, _) = booted();
    app.begin_search();
    app.insert_query_text("from:ada_codes rust");
    assert_eq!(app.query, "from:ada_codes rust");
}

#[test]
fn media_modal_keeps_its_open_shortcuts_alive() {
    let (mut app, api) = booted();
    app.request_media_preview();
    settle(&mut app, &api);
    assert!(app.media_preview.is_some(), "demo media preview should open");
    handle_key(&mut app, KeyEvent::from(KeyCode::Char('v')));
    let post = app.selected_post().expect("demo post selected").clone();
    let media_url = best_external_url(&post.media[0]).expect("demo photo has an external URL");
    let permalink = post.permalink();
    let opened = |effects: Vec<Effect>| -> Vec<String> {
        effects
            .into_iter()
            .filter_map(|e| match e {
                Effect::OpenExternal { url } => Some(url),
                _ => None,
            })
            .collect()
    };
    assert_eq!(opened(settle(&mut app, &api)), vec![media_url]);
    assert!(app.media_preview.is_some(), "V while the modal is open must not dismiss it");
    handle_key(&mut app, KeyEvent::from(KeyCode::Char('o')));
    assert_eq!(opened(settle(&mut app, &api)), vec![permalink]);
    assert!(app.media_preview.is_some(), "O while the modal is open must not dismiss it");
    handle_key(&mut app, KeyEvent::from(KeyCode::Esc));
    assert!(app.media_preview.is_none(), "Esc closes the modal");
}

#[test]
fn every_configured_color_becomes_gray() {
    let hue = Some("#ff0000".to_string());
    let t = Theme::from_config(&Some(ThemeConfig {
        accent: hue.clone(),
        white: hue.clone(),
        gray: hue.clone(),
        dim: hue.clone(),
        surface: hue.clone(),
        surface_raised: hue.clone(),
        green: hue.clone(),
        amber: hue.clone(),
        red: hue.clone(),
        background: hue,
    }));
    let red_luma = Rgb { red: 53, green: 53, blue: 53 };
    for c in [t.white, t.gray, t.dim, t.surface, t.surface_raised, t.accent, t.green, t.amber, t.red, t.background] {
        assert_eq!(c, red_luma);
    }
    assert_eq!(t.author, Theme::default().author);
}

#[test]
fn truncated_text_fits_with_its_ellipsis() {
    let cut = truncate_to_width("abcdefghij", 6);
    assert_eq!(cut, "abcde…");
    assert_eq!(cut.chars().count(), 6);
}

#[test]
fn bodies_wrap_at_the_card_width() {
    assert_eq!(body_lines("aaa bbb ccc ddd", 10), vec!["aaa bbb", "ccc ddd"]);
    assert_eq!(body_lines("aaa bbb ccc ddd", 3), vec!["aaa bbb", "ccc ddd"], "never narrower than ten");
    assert_eq!(body_lines("short", 40), vec!["short"]);
}

#[test]
fn cards_show_bounded_bodies() {
    assert_eq!(body_limit(30, 4, true, true), 20);
    assert_eq!(body_limit(8, 4, true, true), 3);
    assert_eq!(body_limit(30, 4, true, false), 9);
    assert_eq!(body_limit(30, 4, false, true), 3);
    assert_eq!(
        body_window(10, 0, 3),
        BodyWindow { start: 0, end: 3, clipped_above: false, clipped_below: true }
    );
    assert_eq!(
        body_window(10, 7, 3),
        BodyWindow { start: 7, end: 10, clipped_above: true, clipped_below: false }
    );
    assert_eq!(
        body_window(2, 5, 3),
        BodyWindow { start: 2, end: 2, clipped_above: true, clipped_below: false }
    );
}

#[test]
fn the_feed_window_starts_at_the_pinned_card() {
    assert_eq!(pinned_card(9, 4, false), 3);
    assert_eq!(pinned_card(2, 4, false), 2);
    assert_eq!(pinned_card(2, 4, true), 0);
    assert_eq!(pinned_card(2, 0, false), 0);
    assert_eq!(card_window(2, 40, false), (2, 16));
    assert_eq!(card_window(2, 5, false), (2, 5));
    assert_eq!(card_window(0, 5, true), (0, 1));
    assert_eq!(card_window(3, 3, false), (3, 3));
    assert_eq!(card_height(5, 2, 20), (7, 8));
    assert_eq!(card_height(30, 0, 10), (9, 10));
    assert_eq!(card_height(0, 0, 2), (0, 1));
}

#[test]
fn long_bodies_scroll_to_their_last_line() {
    let mut app = App::new(true);
    app.body_scroll = 50;
    fit_body_scroll(&mut app, 30, 12);
    assert_eq!(app.body_scroll_max, 18);
    assert_eq!(app.body_scroll, 18);
    let tail = body_window(30, app.body_scroll, 12);
    assert_eq!(tail.end, 30);
    assert!(!tail.clipped_below);
    fit_body_scroll(&mut app, 5, 12);
    assert_eq!((app.body_scroll, app.body_scroll_max), (0, 0));
    app.body_scroll = 4;
    clear_body_scroll(&mut app);
    assert_eq!((app.body_scroll, app.body_scroll_max), (0, 0));
}

#[test]
fn empty_feeds_say_why() {
    let mut app = App::new(true);
    app.screen = Screen::Home;
    assert_eq!(xtui::ui::empty_feed_message(&app), "  Nothing here yet.\n  Press r to refresh or / to search.");
    app.screen = Screen::Explore;
    app.query = "  rust ".into();
    assert_eq!(xtui::ui::empty_feed_message(&app), "  No results for “rust”.\n  Press / to search again.");
    app.mode = InputMode::Search;
    assert_eq!(xtui::ui::empty_feed_message(&app), "  Type a query and press Enter to search X.");
}

#[test]
fn the_status_row_marks_errors() {
    let mut app = App::new(false);
    app.status = "Ready".into();
    assert_eq!(xtui::ui::status_row(&app), ('·', "Ready".to_string()));
    app.error = Some("boom".into());
    assert_eq!(xtui::ui::status_row(&app), ('!', "boom".to_string()));
    app.demo = true;
    app.error = None;
    assert_eq!(
        xtui::ui::status_row(&app),
        ('·', "Ready  ·  run `xtui browser` or `xtui login CLIENT_ID` for live X".to_string())
    );
}

#[test]
fn bottom_rail_segments_cover_the_row() {
    assert_eq!(xtui::ui::nav_segment(0, 52, 0), (0, 10));
    assert_eq!(xtui::ui::nav_segment(0, 52, 3), (30, 10));
    assert_eq!(xtui::ui::nav_segment(0, 52, 4), (40, 12));
    let mut app = App::new(true);
    app.landing_selected = 9;
    xtui::ui::clamp_landing_selection(&mut app, 3);
    assert_eq!(app.landing_selected, 2);
}

#[test]
fn overrides_that_cut_a_character_are_recognized() {
    assert!(!xtui::ui::override_splits_a_character("#ff8000"));
    assert!(!xtui::ui::override_splits_a_character("#éé00"), "two-byte letters on the pair boundaries");
    assert!(xtui::ui::override_splits_a_character("#0é000"));
    assert!(xtui::ui::override_splits_a_character("€000"));
    assert!(!xtui::ui::override_splits_a_character("#éé0000"), "eight bytes are never read as pairs");
    assert_eq!(parse_hex("#éé00"), None);
}

#[test]
fn cards_stack_from_the_pinned_post_without_gaps() {
    let area = Rect { x: 3, y: 5, width: 40, height: 20 };
    let (rows, hits) = xtui::ui::card_layout(area, 2, &vec![8, 6, 9, 4]);
    assert_eq!(rows, vec![(5, 13, 2), (13, 19, 3), (19, 25, 4)], "the last card is cut at the bottom");
    assert_eq!(hits.len(), 3);
    assert_eq!(hits[1], xtui::app::HitRegion { x: 3, y: 13, width: 40, height: 6, action: HitAction::Card(3) });
    let (rows, _) = xtui::ui::card_layout(area, 0, &vec![19, 5]);
    assert_eq!(rows, vec![(5, 24, 0)], "a single free row takes no card");
    let (rows, hits) = xtui::ui::card_layout(area, 0, &vec![]);
    assert!(rows.is_empty() && hits.is_empty());
}

#[test]
fn headers_describe_the_screen() {
    let (mut app, _) = booted();
    app.selected = 2;
    assert_eq!(xtui::ui::position_label(&app), " 3 / 6 ");
    assert!(xtui::ui::screen_caption(&app).is_empty());
    let post = app.posts[0].clone();
    app.navigate(Screen::Thread(Box::new(post.clone())));
    app.posts = vec![post];
    app.thread_expanded = false;
    assert_eq!(xtui::ui::screen_caption(&app), vec!["  1 posts · Space expands replies".to_string()]);
    let mut user = app.posts[0].author.clone();
    user.verified = true;
    app.screen = Screen::Likes(Box::new(user.clone()));
    assert_eq!(xtui::ui::screen_caption(&app), vec![format!("  posts liked by @{}", user.username)]);
    app.screen = Screen::Explore;
    app.mode = InputMode::Normal;
    app.query = "rust".into();
    assert_eq!(xtui::ui::screen_caption(&app), vec!["  Search: rust".to_string()]);
    app.screen = Screen::Lists;
    assert_eq!(xtui::ui::position_label(&app), "");
}

#[test]
fn header_clicks_follow_the_screen() {
    let (mut app, _) = booted();
    app.browser_mode = true;
    let area = Rect { x: 18, y: 0, width: 100, height: 3 };
    xtui::ui::register_header_hits(&mut app, area);
    assert_eq!(
        app.hit_regions,
        vec![xtui::app::HitRegion { x: 18, y: 1, width: 28, height: 1, action: HitAction::ToggleFeed }]
    );
    app.hit_regions.clear();
    app.navigate(Screen::Explore);
    xtui::ui::register_header_hits(&mut app, area);
    assert_eq!(app.hit_regions[0], xtui::app::HitRegion { x: 18, y: 0, width: 2, height: 1, action: HitAction::Back });
    assert_eq!(app.hit_regions[1].action, HitAction::Search);
}

#[test]
fn command_index_reflects_the_runtime_keymap() {
    let rows = xtui::ui::help_index(&xtui::keys::KeyBindings::default());
    assert_eq!(rows.len(), 9);
    assert_eq!(rows[0].left_keys, "j / ↓", "configured bindings are listed");
    assert_eq!(rows[0].left, "Next signal");
    assert_eq!(rows[4].left_keys, "1 — 5");
    assert_eq!(rows[8].right, "Quit XTUI");
    assert_eq!(rows[8].right_keys, "q");
}

#[test]
fn card_text_follows_the_post() {
    let api = DemoApi::new();
    let now = api.posts[0].created_at + 3 * 60_000;
    let photo = xtui::ui::card_text(&api.posts[0], 60, false, true, 9, 0, now);
    assert!(!photo.reposted);
    assert_eq!(photo.prefix, "  ");
    assert_eq!(photo.author_meta, "  @ada_codes · 3m");
    assert!(!photo.earlier);
    assert!(photo.body.iter().all(|line| line.starts_with("  ")));
    assert_eq!(photo.continuation, None);
    assert_eq!(
        photo.badge,
        Some(("▧ PHOTO", "  A laptop showing a dark terminal beside a cup of coffee".to_string()))
    );
    let quoting = xtui::ui::card_text(&api.posts[1], 60, true, true, 1, 0, now);
    assert_eq!(quoting.prefix, "  └─ ");
    assert_eq!(quoting.body.len(), 1);
    assert_eq!(quoting.continuation, Some("  …  → open to read the rest"));
    assert!(!quoting.quote.is_empty() && quoting.quote.len() <= 2);
    assert!(quoting.quote[0].starts_with("  │ The best interface"));
    let unfocused = xtui::ui::card_text(&api.posts[1], 60, false, false, 1, 1, now);
    assert!(unfocused.quote.is_empty());
    assert!(unfocused.earlier);
    assert_eq!(unfocused.continuation, Some("  …  ↓ continue reading"));
    let repost = xtui::ui::card_text(&api.posts[4], 60, false, false, 3, 0, now);
    assert!(repost.reposted);
    assert_eq!(repost.body, vec!["  Public roadmaps are useful. Public momentum is better."]);
}

#[test]
fn rail_and_hint_clicks_cover_their_targets() {
    let mut app = App::new(true);
    xtui::ui::register_rail_hits(&mut app, 0, 10, 15, 17);
    let ys: Vec<u16> = app.hit_regions.iter().map(|h| h.y).collect();
    assert_eq!(ys, vec![10, 12, 14]);
    assert_eq!(app.hit_regions[2].action, HitAction::Nav(2));
    app.hit_regions.clear();
    xtui::ui::register_rail_hits(&mut app, 0, 8, 100, 17);
    assert_eq!(app.hit_regions.len(), 5);
    app.hit_regions.clear();
    xtui::ui::register_hint_hits(&mut app, 120, 30, 100);
    assert_eq!(app.hit_regions[0], xtui::app::HitRegion { x: 112, y: 30, width: 8, height: 1, action: HitAction::Help });
    assert_eq!(app.hit_regions[1].x, 102);
    app.hit_regions.clear();
    xtui::ui::register_hint_hits(&mut app, 40, 30, 40);
    assert!(app.hit_regions.is_empty(), "no room for the hints' targets");
}

#[test]
fn the_feed_starts_at_the_pinned_post() {
    let (mut app, _) = booted();
    app.selected = 4;
    let area = Rect { x: 0, y: 2, width: 80, height: 20 };
    let (rows, hits) = xtui::ui::feed_cards(&app, area, &vec![7, 7]);
    assert_eq!(rows, vec![(2, 9, 4), (9, 16, 5)]);
    assert_eq!(hits[1].action, HitAction::Card(5));
    app.selected = 99;
    let (rows, _) = xtui::ui::feed_cards(&app, area, &vec![30]);
    assert_eq!(rows, vec![(2, 22, 5)], "the selection is kept within the feed");
}

#[test]
fn keys_are_taken_only_by_a_ready_reader() {
    let (mut app, _) = booted();
    assert!(xtui::ui::ready_for_keys(&app));
    assert!(app.keys.is_well_formed());
    app.generation = u32::MAX;
    assert!(!xtui::ui::ready_for_keys(&app));
}

#[test]
fn click_opens_the_post_under_the_cursor() {
    let (mut app, api) = booted();
    app.selected = 2;
    let area = Rect { x: 18, y: 3, width: 132, height: 30 };
    let (rows, hits) = xtui::ui::feed_cards(&app, area, &vec![8, 8, 8, 8]);
    assert!(rows.len() >= 3);
    assert_eq!((rows[0].0, rows[0].2), (3, 2), "the selected post is pinned at the top");
    assert_eq!(rows[1].2, 3);
    assert_eq!(rows[0].1, rows[1].0);
    app.card_rows = rows;
    app.hit_regions.extend(hits);
    let (top, _, target) = app.card_rows[1];
    let target_id = app.posts[target].id.clone();
    handle_click(&mut app, top + 1, 19);
    assert!(matches!(app.screen, Screen::Thread(_)));
    assert_eq!(app.selected_post().map(|p| p.id.clone()), Some(target_id.clone()));
    settle(&mut app, &api);
    assert_eq!(app.posts.first().map(|p| p.id.clone()), Some(target_id));
}
