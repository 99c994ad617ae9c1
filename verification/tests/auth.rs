use xtui::auth::{callback_code, callback_params, callback_reply, callback_target, pkce_challenge, token_text};

#[test]
fn pkce_challenge_matches_the_rfc_example() {
    assert_eq!(
        pkce_challenge("dBjftJeZ4CVP-mB92K27uhbUJU1p1r_wW1gFWFOEjXk"),
        "E9Melhoa2OwvFrEMTJguCHaoeK1t8URWbuGJSstw-cM"
    );
    assert_eq!(token_text(&[0xfb, 0xff]), "-_8");
}

#[test]
fn the_redirect_target_is_read_from_the_request_line() {
    assert_eq!(
        callback_target("GET /callback?code=abc&state=s HTTP/1.1\r\nHost: x\r\n").as_deref(),
        Some("/callback?code=abc&state=s")
    );
    assert_eq!(callback_target("GET\r\n/late HTTP/1.1"), None);
    assert_eq!(callback_target(""), None);
}

fn pairs(items: &[(&str, &str)]) -> Vec<(String, String)> {
    items.iter().map(|(k, v)| (k.to_string(), v.to_string())).collect()
}

#[test]
fn the_callback_decides_the_login() {
    let ok = pairs(&[("code", "abc"), ("state", "s")]);
    assert_eq!(callback_code(&ok, "s"), Ok("abc".to_string()));
    assert_eq!(callback_reply(&ok, "s"), "XTUI is authorized. You can close this tab and return to the terminal.");
    let forged = pairs(&[("code", "abc"), ("state", "t")]);
    assert_eq!(
        callback_code(&forged, "s").unwrap_err(),
        "OAuth state mismatch; login was cancelled for safety"
    );
    let denied = pairs(&[("state", "s"), ("error", "access_denied")]);
    assert_eq!(callback_code(&denied, "s").unwrap_err(), "X authorization failed: access_denied");
    assert_eq!(callback_reply(&denied, "s"), "X did not authorize XTUI. You can close this tab.");
    let parsed = callback_params("GET /callback?code=a%20b&state=s HTTP/1.1").unwrap();
    assert_eq!(parsed, pairs(&[("code", "a b"), ("state", "s")]));
    assert_eq!(callback_params("nonsense").unwrap_err(), "invalid OAuth callback");
}

#[test]
fn the_authorization_address_carries_the_pkce_query() {
    let url = xtui::auth::authorization_url("cid", "st", "ch").unwrap();
    assert!(url.starts_with("https://x.com/i/oauth2/authorize?response_type=code&client_id=cid&"));
    assert!(url.contains("redirect_uri=http%3A%2F%2F127.0.0.1%3A17171%2Fcallback"));
    assert!(url.contains("scope=tweet.read+users.read+follows.read+bookmark.read+like.read+list.read+offline.access"));
    assert!(url.ends_with("&state=st&code_challenge=ch&code_challenge_method=S256"));
}
