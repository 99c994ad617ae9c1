use xtui::app::{
    fetch_more_call, fetch_screen_call, ApiCall, App, Effect, Screen, ScreenPayload, UiMsg,
    MAX_RETAINED_POSTS, MEDIA_CACHE_LIMIT,
};
use xtui::config::{Config, KeyConfig};
use xtui::demo::DemoApi;
use xtui::keys::{Action, KeyCode, KeyEvent};
use xtui::model::{FeedKind, Page, Post};

fn page_of(api: &DemoApi, call: ApiCall) -> Result<ScreenPayload, String> {
    match call {
        ApiCall::Home { .. } => Ok(ScreenPayload::Page(api.home())),
        ApiCall::Search { query, .. } => Ok(ScreenPayload::Page(api.search(&query))),
        ApiCall::Mentions { .. } => Ok(ScreenPayload::Page(api.mentions())),
        ApiCall::Bookmarks { .. } => Ok(ScreenPayload::Page(api.bookmarks())),
        ApiCall::Lists => Ok(ScreenPayload::Lists(api.lists())),
        ApiCall::ListPosts { list_id, .. } => api.list_posts(&list_id).map(ScreenPayload::Page),
        ApiCall::UserPosts { user_id, .. } => Ok(ScreenPayload::Page(api.user_posts(&user_id))),
        ApiCall::Likes { .. } => Ok(ScreenPayload::Page(api.likes())),
        ApiCall::Thread { conversation_id } => Ok(ScreenPayload::Thread(api.replies(&conversation_id))),
        ApiCall::EmptyPage => Ok(ScreenPayload::Page(Page { items: vec![], next_token: None })),
    }
}

fn page_only(payload: Result<ScreenPayload, String>) -> Result<Page<Post>, String> {
    match payload {
        Ok(ScreenPayload::Page(p)) => Ok(p),
        Ok(_) => Err("not a page".into()),
        Err(e) => Err(e),
    }
}

/// Carry out every recorded effect against the sample source until none is
/// left, as the runtime does.
fn drain(app: &mut App, api: &DemoApi) {
    loop {
        let effects = app.take_effects();
        if effects.is_empty() {
            return;
        }
        for effect in effects {
            let message = match effect {
                Effect::Bootstrap => Some(UiMsg::Bootstrap { me: Ok(api.me()) }),
                Effect::FetchScreen { generation, silent, screen, feed } => {
                    let result = fetch_screen_call(&screen, feed).and_then(|c| page_of(api, c));
                    Some(UiMsg::ScreenLoaded { generation, silent, result })
                }
                Effect::Search { generation, query } => {
                    Some(UiMsg::SearchDone { generation, result: Ok(api.search(&query)) })
                }
                Effect::FetchMore { generation, silent, screen, query, token } => {
                    let result = fetch_more_call(&screen, &query, &token)
                        .and_then(|c| page_only(page_of(api, c)));
                    Some(UiMsg::MoreLoaded { generation, silent, result })
                }
                Effect::FetchMedia { url, counted } => {
                    Some(UiMsg::MediaDone { url, open: counted, counted, result: Ok(()) })
                }
                _ => None,
            };
            if let Some(message) = message {
                app.process_message(message);
            }
        }
    }
}

fn booted(api: &DemoApi) -> App {
    let mut app = App::new(true);
    app.me = Some(api.me());
    app.screen = Screen::Home;
    app.apply_screen_data(Ok(ScreenPayload::Page(api.home())), false);
    app
}

#[test]
fn navigation_preserves_a_back_stack() {
    let api = DemoApi::new();
    let mut app = booted(&api);
    app.selected = 1;
    app.query = "remember me".into();
    app.next_token = Some("cursor".into());
    let home_ids: Vec<_> = app.posts.iter().map(|post| post.id.clone()).collect();
    let selected = app.selected_post().unwrap().clone();
    app.navigate(Screen::Thread(Box::new(selected)));
    drain(&mut app, &api);
    assert_eq!(app.title(), "Post");
    assert!(app.posts.len() > 1);
    app.back();
    assert_eq!(app.title(), "Home");
    assert_eq!(app.selected, 1);
    assert_eq!(app.query, "remember me");
    assert_eq!(app.next_token.as_deref(), Some("cursor"));
    assert_eq!(app.posts.iter().map(|post| post.id.clone()).collect::<Vec<_>>(), home_ids);
}

#[test]
fn roots_show_only_mother_posts_until_opened() {
    let api = DemoApi::new();
    let mut app = booted(&api);
    assert!(app.posts.iter().all(|p| p.in_reply_to_user_id.is_none()));
    app.activate();
    drain(&mut app, &api);
    assert!(app.posts.iter().skip(1).any(|p| p.in_reply_to_user_id.is_some()));
    app.thread_expanded = false;
    app.move_selection(10);
    assert_eq!(app.selected, 0);
}

#[test]
fn back_at_a_root_does_not_quit() {
    let api = DemoApi::new();
    let mut app = booted(&api);
    app.back();
    assert!(!app.should_quit);
    assert!(app.status.contains("top level"));
}

#[test]
fn search_cursor_supports_arrow_editing_and_unicode() {
    let mut app = App::new(true);
    app.insert_query_char('a');
    app.insert_query_char('界');
    app.move_search_cursor(-1);
    app.insert_query_char('b');
    assert_eq!(app.query, "ab界");
    assert_eq!(app.search_display(), "ab▌界");
    app.backspace_query();
    assert_eq!(app.query, "a界");
    app.clear_query();
    assert_eq!(app.query, "");
    assert_eq!(app.search_cursor, 0);
}

#[test]
fn pasted_text_inserts_at_the_cursor() {
    let mut app = App::new(true);
    app.insert_query_char('x');
    app.move_search_cursor(-1);
    app.insert_query_text("rust ");
    assert_eq!(app.query, "rust x", "paste lands at the cursor position");
    app.insert_query_text("y");
    assert_eq!(app.query, "rust yx");
}

#[test]
fn advancing_near_the_end_requests_and_deduplicates_more_posts() {
    let api = DemoApi::new();
    let mut app = booted(&api);
    let before = app.posts.len();
    app.next_token = Some("next".into());
    app.selected = before.saturating_sub(2);
    app.advance(1);
    drain(&mut app, &api);
    assert_eq!(app.posts.len(), before);
    assert_eq!(app.status, "You’re all caught up.");
}

#[test]
fn will_load_more_is_true_only_near_the_end_of_a_pageable_feed() {
    let api = DemoApi::new();
    let mut app = booted(&api);
    assert!(!app.will_load_more(1), "no next page, no fetch");
    app.next_token = Some("next".into());
    app.selected = 0;
    assert!(!app.will_load_more(1));
    app.selected = app.posts.len().saturating_sub(2);
    assert!(app.will_load_more(1));
    app.root(Screen::Lists);
    drain(&mut app, &api);
    assert!(!app.will_load_more(1), "lists never paginate");
    app.activate();
    drain(&mut app, &api);
    assert!(!app.will_load_more(1), "threads never paginate through the feed");
}

#[test]
fn read_ahead_prefetches_before_the_cursor_reaches_the_page_end() {
    let api = DemoApi::new();
    let mut app = booted(&api);
    app.next_token = Some("next".into());
    app.selected = 0;
    let status = app.status.clone();
    assert!(app.maintain_read_ahead(), "a short first page starts background prefetch immediately");
    assert_eq!(app.status, status, "prefetch stays visually silent");
    assert!(app.has_pending());
    drain(&mut app, &api);
    assert!(!app.has_pending());
}

#[test]
fn thread_navigation_scrolls_long_body_before_moving_to_replies() {
    let api = DemoApi::new();
    let mut app = booted(&api);
    let root = app.posts[0].clone();
    let reply = app.posts[1].clone();
    app.screen = Screen::Thread(Box::new(root.clone()));
    app.posts = vec![root, reply];
    app.body_scroll_max = 12;
    app.advance(5);
    assert_eq!(app.selected, 0);
    assert_eq!(app.body_scroll, 5);
    app.advance(-2);
    assert_eq!(app.body_scroll, 3);
    app.body_scroll = app.body_scroll_max;
    app.advance(1);
    assert_eq!(app.selected, 1, "selection moves after the full body is read");
    assert_eq!(app.body_scroll, 0);
}

#[test]
fn submitted_search_is_trimmed() {
    let api = DemoApi::new();
    let mut app = booted(&api);
    app.begin_search();
    for character in "  terminal  ".chars() {
        app.insert_query_char(character);
    }
    app.submit_search();
    drain(&mut app, &api);
    assert_eq!(app.query, "terminal");
    assert!(!app.posts.is_empty());
}

#[test]
fn sidebar_focus_moves_with_arrows_and_activates_sections() {
    let api = DemoApi::new();
    let mut app = booted(&api);
    app.toggle_nav_focus();
    assert!(app.nav_focused);
    assert_eq!(app.nav_selected, 0, "focus starts on the current section");
    app.nav_move(2);
    assert_eq!(app.nav_selected, 2);
    app.nav_activate();
    drain(&mut app, &api);
    assert!(!app.nav_focused, "activating leaves the sidebar");
    assert!(matches!(app.screen, Screen::Mentions));
    app.toggle_nav_focus();
    app.nav_move(5);
    assert_eq!(app.nav_selected, 4, "rail clamps at Lists");
    app.nav_move(-9);
    assert_eq!(app.nav_selected, 0, "rail clamps at Home");
}

#[test]
fn stale_screen_results_are_dropped() {
    let api = DemoApi::new();
    let mut app = App::new(true);
    app.request_bootstrap();
    app.request_screen(Screen::Mentions, false);
    drain(&mut app, &api);
    assert!(matches!(app.screen, Screen::Mentions));
}

#[test]
fn an_older_generation_changes_nothing_but_the_pending_count() {
    let api = DemoApi::new();
    let mut app = booted(&api);
    app.request_screen(Screen::Bookmarks, false);
    let stale = app.generation - 1;
    let before: Vec<_> = app.posts.iter().map(|p| p.id.clone()).collect();
    let pending = app.pending_ops;
    app.process_message(UiMsg::ScreenLoaded {
        generation: stale,
        silent: false,
        result: Ok(ScreenPayload::Page(api.likes())),
    });
    assert_eq!(app.pending_ops, pending - 1);
    assert_eq!(app.posts.iter().map(|p| p.id.clone()).collect::<Vec<_>>(), before);
}

#[test]
fn spinner_animates_while_requests_are_pending() {
    let api = DemoApi::new();
    let mut app = App::new(true);
    assert_eq!(app.spinner_frame(), None, "idle shows no spinner");
    app.request_bootstrap();
    assert!(app.has_pending());
    assert!(app.spinner_frame().is_some(), "a pending fetch must expose a spinner frame");
    drain(&mut app, &api);
    assert!(!app.has_pending());
    assert_eq!(app.spinner_frame(), None);
}

#[test]
fn silent_refresh_preserves_the_selected_post() {
    let api = DemoApi::new();
    let mut app = booted(&api);
    app.selected = 2;
    let anchor = app.selected_post().unwrap().id.clone();
    app.request_screen(Screen::Home, true);
    drain(&mut app, &api);
    assert_eq!(app.selected_post().map(|post| post.id.clone()), Some(anchor));
    assert_eq!(app.status, "Timeline refreshed");
}

#[test]
fn returning_to_home_never_replaces_the_retained_feed_with_a_small_page() {
    let api = DemoApi::new();
    let mut app = booted(&api);
    let mut retained_tail = app.posts.clone();
    for (index, post) in retained_tail.iter_mut().enumerate() {
        post.id = format!("cached-{index}");
    }
    app.posts.extend(retained_tail);
    app.selected = 4;
    let retained = app.posts.len();
    app.root(Screen::Explore);
    drain(&mut app, &api);
    app.root(Screen::Home);
    assert_eq!(app.posts.len(), retained);
    assert_eq!(app.selected, 4);
    drain(&mut app, &api);
    assert!(app.posts.len() >= retained);
}

#[test]
fn silent_refresh_prepends_fresh_posts_without_resetting_tail_pagination() {
    let api = DemoApi::new();
    let mut app = booted(&api);
    app.selected = 2;
    app.next_token = Some("tail-position".into());
    let anchor = app.selected_post().unwrap().id.clone();
    let mut fresh = app.posts[0].clone();
    fresh.id = "fresh-head-post".into();
    app.apply_page(Page { items: vec![fresh], next_token: Some("head-sample".into()) }, true);
    assert_eq!(app.posts[0].id, "fresh-head-post");
    assert_eq!(app.selected_post().map(|post| &post.id), Some(&anchor));
    assert_eq!(app.next_token.as_deref(), Some("tail-position"));
}

#[test]
fn feed_toggle_is_rejected_outside_browser_mode() {
    let api = DemoApi::new();
    let mut app = booted(&api);
    assert_eq!(app.feed_kind, FeedKind::Following);
    app.toggle_feed();
    assert_eq!(app.feed_kind, FeedKind::Following, "demo has no For You");
    assert!(app.status.contains("browser mode"));
}

#[test]
fn browser_mode_toggles_the_home_timeline_and_reloads_it() {
    let api = DemoApi::new();
    let mut app = booted(&api).with_browser_mode();
    app.toggle_feed();
    assert_eq!(app.feed_kind, FeedKind::ForYou);
    let effects = app.take_effects();
    assert!(matches!(
        effects.last(),
        Some(Effect::FetchScreen { feed: FeedKind::ForYou, silent: false, .. })
    ));
}

#[test]
fn config_applies_bindings_refresh_interval_and_theme_settings() {
    let keys: Vec<(String, Vec<String>)> = vec![("move_down".to_owned(), vec!["s".to_owned()])];
    let config = Config {
        auto_refresh_secs: Some(42),
        keys: Some(KeyConfig(keys)),
        ..Config::default()
    };
    let app = App::new(true).with_config(&config);
    assert_eq!(app.auto_refresh_secs, 42);
    assert_eq!(
        app.keys.action_for(&KeyEvent::from(KeyCode::Char('s'))),
        Some(Action::MoveDown),
        "configured keys override the defaults"
    );
    assert_eq!(
        app.keys.action_for(&KeyEvent::from(KeyCode::Char('j'))),
        None,
        "an overridden action drops its default bindings"
    );
    let bare = App::new(true);
    assert_eq!(bare.auto_refresh_secs, 300, "default refresh interval");
}

#[test]
fn the_feed_never_grows_past_its_limit() {
    let api = DemoApi::new();
    let mut app = booted(&api);
    let seed = app.posts.clone();
    let mut next = 0;
    while app.posts.len() < MAX_RETAINED_POSTS {
        for post in &seed {
            let mut copy = post.clone();
            copy.id = format!("p{next}");
            next += 1;
            app.posts.push(copy);
        }
    }
    app.selected = 100;
    let mut extra = Vec::new();
    for i in 0..20 {
        let mut copy = seed[0].clone();
        copy.id = format!("extra{i}");
        extra.push(copy);
    }
    let before = app.posts.len();
    app.apply_more(Ok(Page { items: extra, next_token: None }), false);
    assert_eq!(app.posts.len(), MAX_RETAINED_POSTS);
    assert_eq!(app.posts.last().unwrap().id, "extra19");
    assert_eq!(app.selected, 100 - (before + 20 - MAX_RETAINED_POSTS));
    assert_eq!(app.status, "Loaded 20 more posts");
}

#[test]
fn the_media_cache_drops_its_oldest_still() {
    let mut app = App::new(true);
    for i in 0..MEDIA_CACHE_LIMIT {
        app.process_message(UiMsg::MediaDone {
            url: format!("u{i}"),
            open: false,
            counted: false,
            result: Ok(()),
        });
    }
    assert_eq!(app.media_cache.len(), MEDIA_CACHE_LIMIT);
    app.process_message(UiMsg::MediaDone {
        url: "newest".into(),
        open: false,
        counted: false,
        result: Ok(()),
    });
    assert_eq!(app.media_cache.len(), MEDIA_CACHE_LIMIT);
    assert_eq!(app.media_cache[0], "newest");
    assert!(!app.cached_media("u0"));
    let effects = app.take_effects();
    assert!(matches!(effects.last(), Some(Effect::DropMedia { url }) if url == "u0"));
}

#[test]
fn a_signed_in_browser_switches_to_the_extension() {
    let api = DemoApi::new();
    let mut app = App::new(true);
    app.request_sign_in_check();
    let mut me = api.me();
    me.username = "ada".into();
    app.process_message(UiMsg::SignInChecked { result: Ok(me) });
    assert!(app.browser_mode);
    assert!(!app.demo);
    assert!(!app.has_pending());
    assert!(matches!(
        app.take_effects().last(),
        Some(Effect::SaveExtensionMode { username }) if username == "ada"
    ));
    app.process_message(UiMsg::ExtensionModeSaved { username: "ada".into(), result: Ok(()) });
    assert_eq!(app.status, "Connected as @ada — restart XTUI to use the extension");
}

#[test]
fn landing_menu_reflects_login_state() {
    let mut app = App::new(false);
    let labels: Vec<_> = app.landing_items().into_iter().map(|(label, _)| label).collect();
    assert_eq!(labels, vec!["Start (live · X API)", "Connect browser extension", "Quit"]);
    app.login_pending = true;
    assert_eq!(app.landing_items().len(), 4);
    let app = App::new(true).with_browser_mode();
    assert_eq!(app.landing_items().len(), 2);
}

#[test]
fn titles_name_the_screen() {
    let api = DemoApi::new();
    let mut app = booted(&api);
    let author = app.posts[0].author.clone();
    app.screen = Screen::Likes(Box::new(author));
    assert_eq!(app.title(), "Posts liked by Ada");
}

#[test]
fn search_entry_is_visible_and_preserves_back_navigation() {
    let api = DemoApi::new();
    let mut app = booted(&api);
    app.begin_search();
    assert!(matches!(app.screen, Screen::Explore));
    assert_eq!(app.mode, xtui::app::InputMode::Search);
    assert!(matches!(
        app.history.last(),
        Some(view) if matches!(view.screen, Screen::Home)
    ));
}

#[test]
fn browser_mode_keeps_prefetching_while_reader_stays_at_the_top() {
    let api = DemoApi::new();
    let mut app = App::new(false).with_browser_mode();
    app.me = Some(api.me());
    app.screen = Screen::Home;
    app.apply_screen_data(Ok(ScreenPayload::Page(api.home())), false);
    let seed = app.posts.clone();
    while app.posts.len() < 40 {
        app.posts.extend(seed.clone());
    }
    app.selected = 0;
    app.next_token = Some("next".into());
    assert!(
        app.posts.len().saturating_sub(app.selected) >= 24,
        "the ordinary near-end prefetch condition is not met"
    );
    assert!(
        app.maintain_read_ahead(),
        "browser mode fills its reservoir independently of reading position"
    );
    drain(&mut app, &api);
}

#[test]
fn the_back_stack_keeps_at_most_its_limit() {
    let api = DemoApi::new();
    let mut app = booted(&api);
    for _ in 0..(xtui::app::HISTORY_LIMIT + 5) {
        let post = app.posts[0].clone();
        app.navigate(Screen::Thread(Box::new(post)));
        drain(&mut app, &api);
        assert!(app.history.len() <= xtui::app::HISTORY_LIMIT);
    }
    assert_eq!(app.history.len(), xtui::app::HISTORY_LIMIT);
}

#[test]
fn rail_sections_round_trip() {
    let api = DemoApi::new();
    let mut app = booted(&api);
    for i in 0..5 {
        app.root(App::nav_screen(i));
        drain(&mut app, &api);
        assert!(app.history.is_empty());
        assert_eq!(app.nav_index(), i);
    }
}
