use xtui::extension::{
    after_bridge_failure, check_extension_version, BridgeRetry, ClientSlot, ThreadRoutes,
};
use xtui::extension::{
    bridge_error_is_retryable, created_at_ms, extension_root, extension_version_supported,
    host_manifest_path, origin_allowed, read_frame, resolve_created_at, write_frame, BrowserTarget,
    ScrapedMedia, ScrapedPost, MAX_MESSAGE_BYTES, PACKAGE_VERSION,
};

#[test]
fn current_and_previous_extension_builds_are_accepted() {
    assert!(extension_version_supported(PACKAGE_VERSION));
    assert!(extension_version_supported("0.3.2"));
    assert!(extension_version_supported("0.3.3"));
    assert!(extension_version_supported("0.3.4"));
    assert!(extension_version_supported("0.3.5"));
    assert!(extension_version_supported("0.3.6"));
    assert!(!extension_version_supported("0.2.4"));
}

#[test]
fn dropped_sockets_are_retried_but_application_errors_are_not() {
    assert!(bridge_error_is_retryable(
        "An established connection was aborted by the software in your host machine"
    ));
    assert!(bridge_error_is_retryable("connection reset by peer"));
    assert!(!bridge_error_is_retryable("unsupported operation: home"));
}

#[test]
fn retry_detection_ignores_ascii_case() {
    assert!(bridge_error_is_retryable("Broken Pipe"));
    assert!(bridge_error_is_retryable("The socket was FORCIBLY CLOSED"));
    assert!(bridge_error_is_retryable("os error 104"));
    assert!(!bridge_error_is_retryable("os error 2"));
}

#[test]
fn framing_rejects_oversized_messages() {
    let length = ((MAX_MESSAGE_BYTES + 1) as u32).to_le_bytes();
    let error = read_frame(length.as_slice(), MAX_MESSAGE_BYTES).unwrap_err();
    assert!(error.contains("exceeded"));
}

#[test]
fn a_written_frame_reads_back_its_payload() {
    let payload = b"{\"op\":\"status\"}";
    let mut framed = write_frame(payload).unwrap();
    assert_eq!(&framed[..4], &(payload.len() as u32).to_le_bytes());
    framed.extend_from_slice(b"trailing");
    assert_eq!(read_frame(&framed, MAX_MESSAGE_BYTES).unwrap(), payload.to_vec());
}

#[test]
fn short_frames_are_refused() {
    assert_eq!(
        read_frame(&[3, 0], MAX_MESSAGE_BYTES).unwrap_err(),
        "failed to fill whole buffer"
    );
    assert_eq!(
        read_frame(&[3, 0, 0, 0, 1, 2], MAX_MESSAGE_BYTES).unwrap_err(),
        "failed to fill whole buffer"
    );
    assert_eq!(
        read_frame(&[9, 0, 0, 0], 8).unwrap_err(),
        "native message exceeded 8 bytes"
    );
}

#[test]
fn oversized_payloads_are_not_written() {
    let payload = vec![7u8; MAX_MESSAGE_BYTES + 1];
    assert_eq!(
        write_frame(&payload).unwrap_err(),
        "native message exceeded 524288 bytes"
    );
}

#[test]
fn browser_targets_parse_with_an_edge_default() {
    assert_eq!(BrowserTarget::parse(None), Ok(BrowserTarget::Edge));
    assert_eq!(BrowserTarget::parse(Some("chrome")), Ok(BrowserTarget::Chrome));
    assert_eq!(BrowserTarget::parse(Some("--edge")), Ok(BrowserTarget::Edge));
    assert_eq!(
        BrowserTarget::parse(Some("firefox")),
        Err("unknown browser `firefox`; use --edge or --chrome".to_string())
    );
    assert_eq!(BrowserTarget::Chrome.label(), "Google Chrome");
    assert_eq!(BrowserTarget::Edge.label(), "Microsoft Edge");
}

#[test]
fn extension_files_live_under_the_config_directory() {
    let root = extension_root("/home/ada/.config");
    assert_eq!(root, "/home/ada/.config/xtui/extension");
    assert_eq!(
        host_manifest_path(&root, BrowserTarget::Chrome),
        "/home/ada/.config/xtui/extension/native-host-chrome.json"
    );
}

#[test]
fn only_the_extension_origin_may_start_the_host() {
    assert!(origin_allowed(Some(
        "chrome-extension://iepklfmnjidigljfaegfjlbeghpjejka/"
    )));
    assert!(!origin_allowed(Some("chrome-extension://other/")));
    assert!(!origin_allowed(None));
}

fn scraped(id: &str, username: &str) -> ScrapedPost {
    ScrapedPost {
        id: id.into(),
        text: "hello".into(),
        name: "Ada".into(),
        username: username.into(),
        verified: true,
        created_at: Some("2026-08-10T00:00:00Z".into()),
        replies: 1,
        reposts: 2,
        likes: 3,
        views: 4,
        media: vec![],
        quoted: None,
    }
}

#[test]
fn extension_scraped_post_normalizes() {
    let raw = ScrapedPost {
        id: "42".into(),
        text: "hello".into(),
        name: "Ada".into(),
        username: "ada".into(),
        verified: true,
        created_at: Some("2026-08-10T00:00:00Z".into()),
        replies: 1,
        reposts: 2,
        likes: 3,
        views: 4,
        media: vec![],
        quoted: None,
    };
    let post = raw.into_post(0).unwrap();
    assert_eq!(post.permalink(), "https://x.com/ada/status/42");
    assert_eq!(post.metrics.like_count, 3);
}

#[test]
fn scraped_posts_keep_their_creation_time_and_media_order() {
    let mut raw = scraped("7", "kai");
    raw.media = vec![
        ScrapedMedia { kind: "photo".into(), url: "a.jpg".into(), alt: None },
        ScrapedMedia { kind: "video".into(), url: "b.jpg".into(), alt: Some("clip".into()) },
    ];
    raw.quoted = Some(Box::new(scraped("", "nobody")));
    let post = raw.into_post(5).unwrap();
    assert_eq!(post.created_at, 1786320000000);
    assert_eq!(post.media.len(), 2);
    assert_eq!(post.media[1].key, "7-1");
    assert_eq!(post.media[1].kind, xtui::model::MediaKind::Video);
    assert_eq!(post.metrics.impression_count, Some(4));
    assert!(post.quoted.is_none(), "a quoted post without an id is dropped");
    assert!(scraped("", "ada").into_post(5).is_none());
    assert!(scraped("1", "").into_post(5).is_none());
}

#[test]
fn unreadable_creation_times_fall_back_to_now() {
    assert_eq!(created_at_ms(&Some("yesterday".into()), 99), 99);
    assert_eq!(created_at_ms(&None, 99), 99);
    assert_eq!(
        created_at_ms(&Some("2026-08-10T06:00:00+02:00".into()), 99),
        1786334400000
    );
    assert_eq!(resolve_created_at(Some(5), 99), 5);
    assert_eq!(resolve_created_at(None, 99), 99);
}

#[test]
fn scrape_scraped_post_normalizes() {
    let raw = ScrapedPost {
        id: "42".into(),
        text: "hello".into(),
        name: "Ada".into(),
        username: "ada".into(),
        verified: true,
        created_at: Some("2026-08-10T00:00:00Z".into()),
        replies: 1,
        reposts: 2,
        likes: 3,
        views: 4,
        media: vec![],
        quoted: None,
    };
    let post = raw.into_post(0).unwrap();
    assert_eq!(post.permalink(), "https://x.com/ada/status/42");
    assert_eq!(post.metrics.like_count, 3);
}

#[test]
fn a_new_terminal_replaces_and_hands_back_the_previous_one() {
    let mut slot: ClientSlot<&str> = ClientSlot::new();
    assert_eq!(slot.replace(1, "first"), None);
    assert!(slot.holds(1));
    assert_eq!(slot.replace(2, "second"), Some("first"), "the displaced client is handed back to be closed");
    assert!(!slot.holds(1));
    slot.clear(1);
    assert!(slot.holds(2), "a stale client leaving does not drop the live one");
    assert_eq!(slot.live_client(), Some((2, &"second")));
    slot.clear(2);
    assert_eq!(slot.live_client(), None);
}

#[test]
fn bridge_failures_retry_only_dropped_sockets() {
    assert_eq!(
        after_bridge_failure(0, "Connection reset by peer (os error 104)", "Connection reset by peer (os error 104)"),
        BridgeRetry::Retry { delay_ms: 120 }
    );
    assert_eq!(
        after_bridge_failure(1, "broken pipe", "first"),
        BridgeRetry::Retry { delay_ms: 240 }
    );
    assert_eq!(
        after_bridge_failure(2, "broken pipe", "first"),
        BridgeRetry::Fail {
            context: "browser bridge request failed after reconnect (first failure: first)".into()
        }
    );
    assert_eq!(
        after_bridge_failure(0, "X is not signed in", "X is not signed in"),
        BridgeRetry::Fail { context: "browser bridge request failed".into() }
    );
}

#[test]
fn outdated_extensions_are_asked_to_reload() {
    assert_eq!(check_extension_version(Some("0.3.7")), Ok(()));
    assert_eq!(check_extension_version(Some("0.3.2")), Ok(()));
    assert_eq!(
        check_extension_version(None),
        Err("Edge is running XTUI extension older than 0.2.4, but the CLI is 0.3.7; open edge://extensions and click Reload on XTUI".to_string())
    );
}

#[test]
fn thread_routes_remember_the_latest_author_and_start_over_past_the_limit() {
    let mut routes = ThreadRoutes::new();
    let a = scraped("1", "ada").into_post(0).unwrap();
    let mut b = scraped("2", "kai").into_post(0).unwrap();
    b.metrics.reply_count = 9;
    routes.remember(&vec![a.clone(), b.clone()]);
    assert_eq!(routes.len(), 2);
    assert_eq!(routes.route("2"), Some(("kai".to_string(), 9)));
    assert_eq!(routes.route("3"), None);
    let mut again = scraped("1", "mina").into_post(0).unwrap();
    again.metrics.reply_count = 4;
    routes.remember(&vec![again]);
    assert_eq!(routes.len(), 2, "a repeated id replaces its route");
    assert_eq!(routes.route("1"), Some(("mina".to_string(), 4)));

    let many: Vec<_> = (0..2049)
        .map(|i| scraped(&format!("p{i}"), "ada").into_post(0).unwrap())
        .collect();
    routes.remember(&many);
    assert_eq!(routes.len(), 2051);
    routes.remember(&vec![b]);
    assert_eq!(routes.len(), 1, "past the limit the routes start over");
    assert_eq!(routes.route("1"), None);
}

#[test]
fn timestamps_read_as_milliseconds() {
    assert_eq!(xtui::extension::timestamp_millis("2026-08-10T00:00:00Z"), Some(1786320000000));
    assert_eq!(xtui::extension::timestamp_millis("yesterday"), None);
}
