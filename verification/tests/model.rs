use xtui::model::{Post, PostMetrics, User};

#[test]
fn permalink_uses_author_and_id() {
    let post = Post {
        id: "42".into(),
        author: User { username: "ada".into(), ..Default::default() },
        text: String::new(),
        created_at: 0,
        conversation_id: "42".into(),
        in_reply_to_user_id: None,
        metrics: PostMetrics::default(),
        media: vec![],
        quoted: None,
        reposted: None,
        language: None,
    };
    assert_eq!(post.permalink(), "https://x.com/ada/status/42");
}
