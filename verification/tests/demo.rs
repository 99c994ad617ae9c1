use xtui::demo::{user, DemoApi, DEMO_BASE_MS};

#[test]
fn demo_supports_core_browsing_flows() {
    let api = DemoApi::new();
    assert!(api.home().items.len() >= 6);
    assert!(!api.search("terminal").items.is_empty());
    let thread = api.replies("100");
    assert_eq!(thread.first().unwrap().id, "100");
    assert!(thread.len() > 1);
    assert_eq!(api.lists().len(), 2);
}

#[test]
fn demo_search_ignores_case() {
    let api = DemoApi::new();
    let upper = api.search("TERMINAL");
    let lower = api.search("terminal");
    assert!(!upper.items.is_empty());
    assert_eq!(upper.items.len(), lower.items.len());
    assert!(api.search("no such words anywhere").items.is_empty());
}

#[test]
fn demo_feeds_are_slices_of_the_timeline() {
    let api = DemoApi::new();
    let ids = |items: &[xtui::model::Post]| items.iter().map(|p| p.id.clone()).collect::<Vec<_>>();
    assert_eq!(ids(&api.bookmarks().items), vec!["101", "103", "105"]);
    assert_eq!(ids(&api.likes().items), vec!["105", "104", "103", "102"]);
    assert_eq!(ids(&api.list_posts("l2").unwrap().items), vec!["100", "102", "104"]);
    assert_eq!(api.list_posts("l9").unwrap_err(), "list not found");
    assert_eq!(ids(&api.user_posts("2").items), vec!["101", "105"]);
    assert_eq!(api.mentions().items.len(), 3);
    assert_eq!(api.home().items[0].created_at, DEMO_BASE_MS);
}

#[test]
fn demo_accounts_are_found_by_handle() {
    let api = DemoApi::new();
    assert_eq!(api.user_by_username("@ADA_codes").unwrap().name, "Ada");
    assert_eq!(api.user_by_username("terminalhuman").unwrap().id, "0");
    assert_eq!(api.user_by_username("nobody").unwrap_err(), "user not found");
    assert!(user("9", "Big", "big", "", 100_001, 0).verified);
    assert!(!user("9", "Small", "small", "", 100_000, 0).verified);
}

#[test]
fn demo_replies_follow_the_root() {
    let api = DemoApi::new();
    let thread = api.replies("102");
    assert_eq!(thread.len(), 4);
    assert_eq!(thread[1].id, "1021");
    assert_eq!(thread[3].author.username, "orbital");
    assert_eq!(thread[2].created_at, thread[0].created_at + 14 * 60_000);
    assert!(api.replies("999").is_empty());
}
