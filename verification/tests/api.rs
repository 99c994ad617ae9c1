use xtui::api::{
    error_detail, paged_params, post_fields, search_query, sort_thread, thread_query,
    user_fields, user_lookup_path, ApiResponse, Attachments, Includes, Meta, RawMedia, RawPost,
    RawUser, Reference,
};
use xtui::model::{MediaKind, Post, PostMetrics, User};

fn raw_post(id: &str, author: Option<&str>) -> RawPost {
    RawPost {
        id: id.into(),
        text: "hello".into(),
        author_id: author.map(|a| a.into()),
        created_at: Some(1_786_320_000_000),
        conversation_id: Some(id.into()),
        in_reply_to_user_id: None,
        lang: None,
        public_metrics: PostMetrics {
            reply_count: 1,
            retweet_count: 2,
            like_count: 3,
            quote_count: 0,
            bookmark_count: None,
            impression_count: None,
        },
        attachments: None,
        referenced_tweets: vec![],
    }
}

fn raw_user(id: &str, username: &str) -> RawUser {
    RawUser {
        id: id.into(),
        name: "Ada".into(),
        username: username.into(),
        verified: true,
        description: String::new(),
        profile_image_url: None,
        public_metrics: None,
    }
}

#[test]
fn expansion_response_is_normalized_into_post_cards() {
    let mut post = raw_post("10", Some("u1"));
    post.attachments = Some(Attachments { media_keys: vec!["m1".into()] });
    let response = ApiResponse {
        data: Some(vec![post]),
        includes: Some(Includes {
            users: vec![raw_user("u1", "ada")],
            media: vec![RawMedia {
                media_key: "m1".into(),
                kind: MediaKind::Photo,
                url: Some("https://example.test/image.jpg".into()),
                preview_image_url: None,
                alt_text: None,
                variants: vec![],
            }],
            tweets: vec![],
        }),
        meta: Some(Meta { next_token: Some("next".into()) }),
    };
    let page = response.into_posts(0);
    assert_eq!(page.next_token.as_deref(), Some("next"));
    assert_eq!(page.items[0].author.username, "ada");
    assert!(page.items[0].author.verified);
    assert_eq!(page.items[0].media.len(), 1);
    assert_eq!(page.items[0].metrics.like_count, 3);
}

#[test]
fn missing_expansions_fall_back_and_quotes_are_resolved() {
    let mut quoting = raw_post("20", Some("ghost"));
    quoting.created_at = None;
    quoting.conversation_id = None;
    quoting.referenced_tweets = vec![
        Reference { kind: "replied_to".into(), id: "1".into() },
        Reference { kind: "quoted".into(), id: "30".into() },
    ];
    quoting.attachments = Some(Attachments { media_keys: vec!["gone".into()] });
    let response = ApiResponse {
        data: Some(vec![quoting]),
        includes: Some(Includes {
            users: vec![raw_user("u2", "kai")],
            media: vec![],
            tweets: vec![raw_post("30", Some("u2"))],
        }),
        meta: None,
    };
    let page = response.into_posts(77);
    let card = &page.items[0];
    assert_eq!(card.author.username, "unknown");
    assert_eq!(card.author.name, "Unknown");
    assert_eq!(card.author.id, "ghost");
    assert_eq!(card.created_at, 77);
    assert_eq!(card.conversation_id, "20");
    assert!(card.media.is_empty());
    let quoted = card.quoted.as_ref().unwrap();
    assert_eq!(quoted.id, "30");
    assert_eq!(quoted.author.username, "kai");
    assert!(card.reposted.is_none());
    assert!(page.next_token.is_none());
}

#[test]
fn converting_users_keeps_every_field() {
    let user: User = raw_user("u9", "sam").into();
    assert_eq!(user.id, "u9");
    assert_eq!(user.username, "sam");
    assert!(user.verified);
}

fn timed(id: &str, at: i64) -> Post {
    let mut p: Post = xtui::demo::post(id, "", User::default(), at, 0, 0, 0);
    p.conversation_id = "c".into();
    p
}

#[test]
fn threads_read_oldest_first_and_keep_ties_in_order() {
    let sorted = sort_thread(vec![timed("c", 30), timed("a", 10), timed("b1", 20), timed("b2", 20)]);
    let ids: Vec<_> = sorted.iter().map(|p| p.id.as_str()).collect();
    assert_eq!(ids, vec!["a", "b1", "b2", "c"]);
}

#[test]
fn requests_ask_for_expansions_and_continuations() {
    let params = paged_params(vec![("max_results", "20".into())], Some("tok"));
    assert_eq!(params.len(), 1 + post_fields().len() + 1);
    assert_eq!(params[0], ("max_results", "20".to_string()));
    assert_eq!(params.last().unwrap(), &("pagination_token", "tok".to_string()));
    assert_eq!(user_fields()[0].0, "user.fields");
    assert_eq!(search_query("rust"), "rust -is:retweet");
    assert_eq!(thread_query("42"), "conversation_id:42");
    assert_eq!(user_lookup_path("@@ada"), "users/by/username/ada");
}

#[test]
fn refusals_show_the_api_detail_or_the_body_start() {
    assert_eq!(error_detail(Some("Too Many Requests".into()), "ignored"), "Too Many Requests");
    let body = "x".repeat(300);
    assert_eq!(error_detail(None, &body).len(), 240);
    assert_eq!(error_detail(None, "short"), "short");
}
