//! The OAuth 2.0 PKCE sign-in's own rules: the code challenge, reading the
//! browser's redirect, and what the callback page and the login answer.
use vstd::prelude::*;
use base64::Engine;
use sha2::Digest;
use vstd::string::StringSliceAdditionalSpecFns;
use crate::text::{chars_of, concat2, is_unicode_whitespace, owned, str_eq};

verus! {

/// Where X sends the browser back after authorization.
pub const REDIRECT_URI: &'static str = "http://127.0.0.1:17171/callback";

/// The access the reader asks for.
pub const SCOPES: &'static str = "tweet.read users.read follows.read bookmark.read like.read list.read offline.access";

/// The SHA-256 digest of `data`.
pub uninterp spec fn sha256(data: Seq<u8>) -> Seq<u8>;

/// `sha2::Sha256::digest`: the contract names the digest and states its
/// length, 32 bytes.
#[verifier::external_body]
fn sha256_digest(data: &[u8]) -> (r: Vec<u8>)
    ensures
        r@ == sha256(data@),
        r@.len() == 32,
{
    sha2::Sha256::digest(data).to_vec()
}

/// The unpadded URL-safe Base64 text of `data`.
pub uninterp spec fn base64_url(data: Seq<u8>) -> Seq<char>;

/// The length of unpadded Base64 text for `n` bytes.
pub open spec fn unpadded_len(n: int) -> int {
    (n / 3) * 4 + if n % 3 == 0 {
        0int
    } else if n % 3 == 1 {
        2int
    } else {
        3int
    }
}

/// `base64::engine::general_purpose::URL_SAFE_NO_PAD.encode`: the contract
/// names the text and states its length as the crate's `encoded_len`
/// computes it.
#[verifier::external_body]
fn base64_url_encode(data: &[u8]) -> (r: String)
    requires
        data@.len() <= usize::MAX / 4,
    ensures
        r@ == base64_url(data@),
        r@.len() == unpadded_len(data@.len() as int),
{
    base64::engine::general_purpose::URL_SAFE_NO_PAD.encode(data)
}

/// The PKCE code challenge for `verifier`: its SHA-256 digest in unpadded
/// URL-safe Base64 (the S256 method).
pub fn pkce_challenge(verifier: &str) -> (r: String)
    ensures
        r@ == base64_url(sha256(verifier.spec_bytes())),
        r@.len() == 43,
{
    let digest = sha256_digest(verifier.as_bytes());
    base64_url_encode(digest.as_slice())
}

/// The token text for random bytes: unpadded URL-safe Base64.
pub fn token_text(raw: &[u8]) -> (r: String)
    requires
        raw@.len() <= usize::MAX / 4,
    ensures
        r@ == base64_url(raw@),
        r@.len() == unpadded_len(raw@.len() as int),
{
    base64_url_encode(raw)
}

/// The first line of a text: up to the first line feed, without a carriage
/// return that ends it.
pub open spec fn first_line(text: Seq<char>) -> Seq<char>
    decreases text.len(),
{
    if text.len() == 0 {
        Seq::empty()
    } else if text[0] == '\n' {
        Seq::empty()
    } else if text[0] == '\r' && text.len() > 1 && text[1] == '\n' {
        Seq::empty()
    } else {
        seq![text[0]] + first_line(text.drop_first())
    }
}

/// The first position at or after `i` that is not whitespace.
pub open spec fn skip_space(s: Seq<char>, i: int) -> int
    decreases s.len() - i,
{
    if i >= s.len() || i < 0 {
        s.len() as int
    } else if is_unicode_whitespace(s[i]) {
        skip_space(s, i + 1)
    } else {
        i
    }
}

/// The first position at or after `i` that is whitespace.
pub open spec fn word_end(s: Seq<char>, i: int) -> int
    decreases s.len() - i,
{
    if i >= s.len() || i < 0 {
        s.len() as int
    } else if is_unicode_whitespace(s[i]) {
        i
    } else {
        word_end(s, i + 1)
    }
}

/// The second whitespace-separated word of the request's first line: the
/// request target.
pub open spec fn target_of(text: Seq<char>) -> Option<Seq<char>> {
    let line = first_line(text);
    let first = skip_space(line, 0);
    let second = skip_space(line, word_end(line, first));
    if second < line.len() {
        Some(line.subrange(second, word_end(line, second)))
    } else {
        None
    }
}

proof fn lemma_skip_space_range(s: Seq<char>, i: int)
    requires
        0 <= i <= s.len(),
    ensures
        i <= skip_space(s, i) <= s.len(),
    decreases s.len() - i,
{
    if i < s.len() && is_unicode_whitespace(s[i]) {
        lemma_skip_space_range(s, i + 1);
    }
}

proof fn lemma_word_end_range(s: Seq<char>, i: int)
    requires
        0 <= i <= s.len(),
    ensures
        i <= word_end(s, i) <= s.len(),
    decreases s.len() - i,
{
    if i < s.len() && !is_unicode_whitespace(s[i]) {
        lemma_word_end_range(s, i + 1);
    }
}

fn skip_space_exec(s: &Vec<char>, i: usize) -> (r: usize)
    requires
        i <= s@.len(),
    ensures
        r == skip_space(s@, i as int),
{
    let mut j = i;
    while j < s.len() && crate::text::is_whitespace(s[j])
        invariant
            i <= j <= s@.len(),
            skip_space(s@, i as int) == skip_space(s@, j as int),
        decreases s@.len() - j,
    {
        j += 1;
    }
    j
}

fn word_end_exec(s: &Vec<char>, i: usize) -> (r: usize)
    requires
        i <= s@.len(),
    ensures
        r == word_end(s@, i as int),
{
    let mut j = i;
    while j < s.len() && !crate::text::is_whitespace(s[j])
        invariant
            i <= j <= s@.len(),
            word_end(s@, i as int) == word_end(s@, j as int),
        decreases s@.len() - j,
    {
        j += 1;
    }
    j
}

/// The request target of the browser's redirect request (the path and
/// query of its first line).
pub fn callback_target(request: &str) -> (r: Option<String>)
    ensures
        match target_of(request@) {
            Some(t) => r matches Some(x) && x@ == t,
            None => r is None,
        },
{
    let text = chars_of(request);
    let mut line: Vec<char> = Vec::new();
    let mut i: usize = 0;
    assert(text@.subrange(0, text@.len() as int) =~= text@);
    assert(line@ + first_line(text@) =~= first_line(text@));
    while i < text.len() && text[i] != '\n' && !(text[i] == '\r' && i + 1 < text.len() && text[i
        + 1] == '\n')
        invariant
            i <= text@.len(),
            first_line(text@) == line@ + first_line(text@.subrange(i as int, text@.len() as int)),
        decreases text@.len() - i,
    {
        let ghost rest = text@.subrange(i as int, text@.len() as int);
        assert(rest.drop_first() =~= text@.subrange(i + 1, text@.len() as int));
        line.push(text[i]);
        i += 1;
        assert(first_line(text@) == line@ + first_line(text@.subrange(i as int, text@.len() as int))) by {
            assert(first_line(rest) == seq![rest[0]] + first_line(rest.drop_first()));
            assert(line@ =~= line@.drop_last() + seq![rest[0]]);
        }
    }
    proof {
        let rest = text@.subrange(i as int, text@.len() as int);
        assert(first_line(rest) == Seq::<char>::empty());
        assert(line@ + Seq::<char>::empty() =~= line@);
        assert(text@.subrange(0, text@.len() as int) =~= text@);
    }
    let first = skip_space_exec(&line, 0);
    proof {
        lemma_skip_space_range(line@, 0);
    }
    let end = word_end_exec(&line, first);
    proof {
        lemma_word_end_range(line@, first as int);
    }
    let second = skip_space_exec(&line, end);
    proof {
        lemma_skip_space_range(line@, end as int);
    }
    if second >= line.len() {
        return None;
    }
    let stop = word_end_exec(&line, second);
    proof {
        lemma_word_end_range(line@, second as int);
    }
    let mut out: Vec<char> = Vec::new();
    let mut k = second;
    while k < stop
        invariant
            second <= k <= stop <= line@.len(),
            out@ == line@.subrange(second as int, k as int),
        decreases stop - k,
    {
        out.push(line[k]);
        k += 1;
        assert(out@ =~= line@.subrange(second as int, k as int));
    }
    Some(crate::text::string_of(&out))
}

/// The value the callback's query gives `key` (the last one when repeated).
pub open spec fn param(params: Seq<(String, String)>, key: Seq<char>) -> Option<String>
    decreases params.len(),
{
    if params.len() == 0 {
        None
    } else if params.last().0@ == key {
        Some(params.last().1)
    } else {
        param(params.drop_last(), key)
    }
}

fn find_param(params: &Vec<(String, String)>, key: &str) -> (r: Option<String>)
    ensures
        r == param(params@, key@),
{
    let mut i = params.len();
    assert(params@.subrange(0, i as int) =~= params@);
    while i > 0
        invariant
            i <= params@.len(),
            param(params@, key@) == param(params@.subrange(0, i as int), key@),
        decreases i,
    {
        assert(params@.subrange(0, i as int).drop_last() =~= params@.subrange(0, i - 1));
        if str_eq(params[i - 1].0.as_str(), key) {
            return Some(params[i - 1].1.clone());
        }
        i -= 1;
    }
    None
}

/// Whether the callback carries the state this login sent.
pub open spec fn state_matches(params: Seq<(String, String)>, state: Seq<char>) -> bool {
    param(params, "state"@) matches Some(s) && s@ == state
}

/// The sentence the callback page shows.
pub open spec fn callback_message(params: Seq<(String, String)>, state: Seq<char>) -> Seq<char> {
    if !state_matches(params, state) {
        "OAuth state did not match. You can close this tab."@
    } else if param(params, "code"@) is Some {
        "XTUI is authorized. You can close this tab and return to the terminal."@
    } else {
        "X did not authorize XTUI. You can close this tab."@
    }
}

/// The sentence the callback page shows the person signing in.
pub fn callback_reply(params: &Vec<(String, String)>, state: &str) -> (r: &'static str)
    ensures
        r@ == callback_message(params@, state@),
{
    let matched = match find_param(params, "state") {
        Some(s) => str_eq(s.as_str(), state),
        None => false,
    };
    if !matched {
        "OAuth state did not match. You can close this tab."
    } else if find_param(params, "code").is_some() {
        "XTUI is authorized. You can close this tab and return to the terminal."
    } else {
        "X did not authorize XTUI. You can close this tab."
    }
}

/// The authorization code the callback delivers, or why the login stops:
/// a state mismatch first, then an error X reported, then a missing code.
pub fn callback_code(params: &Vec<(String, String)>, state: &str) -> (r: Result<String, String>)
    ensures
        !state_matches(params@, state@) ==> (r matches Err(e) && e@
            == "OAuth state mismatch; login was cancelled for safety"@),
        state_matches(params@, state@) ==> match param(params@, "error"@) {
            Some(err) => r matches Err(e) && e@ == "X authorization failed: "@ + err@,
            None => match param(params@, "code"@) {
                Some(c) => r == Ok::<String, String>(c),
                None => r matches Err(e) && e@
                    == "X callback did not contain an authorization code"@,
            },
        },
{
    let matched = match find_param(params, "state") {
        Some(s) => str_eq(s.as_str(), state),
        None => false,
    };
    if !matched {
        return Err(owned("OAuth state mismatch; login was cancelled for safety"));
    }
    if let Some(error) = find_param(params, "error") {
        return Err(concat2("X authorization failed: ", error.as_str()));
    }
    match find_param(params, "code") {
        Some(c) => Ok(c),
        None => Err(owned("X callback did not contain an authorization code")),
    }
}


pub open spec fn pairs_view(v: Seq<(String, String)>) -> Seq<(Seq<char>, Seq<char>)> {
    v.map_values(|p: (String, String)| (p.0@, p.1@))
}

/// The decoded query pairs of the address `url`, in order, or the text of
/// the error that parsing the address gives.
pub uninterp spec fn url_query(url: Seq<char>) -> Result<Seq<(Seq<char>, Seq<char>)>, Seq<char>>;

/// `url::Url::parse`, then `query_pairs` with each pair decoded and owned.
/// The contract names the outcome (the pairs in order, or the error's text),
/// a function of the address alone.
#[verifier::external_body]
fn parse_query_pairs(url: &str) -> (r: Result<Vec<(String, String)>, String>)
    ensures
        match r {
            Ok(v) => url_query(url@) == Ok::<Seq<(Seq<char>, Seq<char>)>, Seq<char>>(
                pairs_view(v@),
            ),
            Err(e) => url_query(url@) == Err::<Seq<(Seq<char>, Seq<char>)>, Seq<char>>(e@),
        },
{
    match url::Url::parse(url) {
        Ok(u) => Ok(u.query_pairs().into_owned().collect()),
        Err(e) => Err(e.to_string()),
    }
}

/// Where the browser's redirect request is read from: the loopback host
/// followed by the request target.
pub open spec fn callback_address(target: Seq<char>) -> Seq<char> {
    "http://localhost"@ + target
}

/// The query of the browser's redirect request.
pub fn callback_params(request: &str) -> (r: Result<Vec<(String, String)>, String>)
    ensures
        match target_of(request@) {
            None => r matches Err(e) && e@ == "invalid OAuth callback"@,
            Some(t) => match r {
                Ok(v) => url_query(callback_address(t)) == Ok::<
                    Seq<(Seq<char>, Seq<char>)>,
                    Seq<char>,
                >(pairs_view(v@)),
                Err(e) => url_query(callback_address(t)) == Err::<
                    Seq<(Seq<char>, Seq<char>)>,
                    Seq<char>,
                >(e@),
            },
        },
{
    match callback_target(request) {
        None => Err(owned("invalid OAuth callback")),
        Some(t) => {
            let address = concat2("http://localhost", t.as_str());
            parse_query_pairs(address.as_str())
        },
    }
}

/// Where the reader sends the browser to authorize it.
pub const AUTHORIZE_URL: &'static str = "https://x.com/i/oauth2/authorize";

/// The address `url::Url::parse_with_params` gives for `base` with `pairs`
/// appended to its query (form-encoded, in order), or the parse error's
/// text.
pub uninterp spec fn url_with_params(base: Seq<char>, pairs: Seq<(Seq<char>, Seq<char>)>) -> Result<
    Seq<char>,
    Seq<char>,
>;

/// `url::Url::parse_with_params`, the address then written out with
/// `to_string`. The contract names the outcome, a function of the base and
/// the pairs alone.
#[verifier::external_body]
fn address_with_params(base: &str, pairs: &Vec<(String, String)>) -> (r: Result<String, String>)
    ensures
        match r {
            Ok(a) => url_with_params(base@, pairs_view(pairs@)) == Ok::<Seq<char>, Seq<char>>(a@),
            Err(e) => url_with_params(base@, pairs_view(pairs@)) == Err::<Seq<char>, Seq<char>>(
                e@,
            ),
        },
{
    match url::Url::parse_with_params(base, pairs.iter()) {
        Ok(u) => Ok(u.to_string()),
        Err(e) => Err(e.to_string()),
    }
}

/// The query of the authorization request: the PKCE code flow for
/// `client_id`, returning to the loopback callback with the reader's scopes,
/// `state` and the S256 `challenge`.
pub open spec fn authorization_pairs(client_id: Seq<char>, state: Seq<char>, challenge: Seq<char>) -> Seq<
    (Seq<char>, Seq<char>),
> {
    seq![
        ("response_type"@, "code"@),
        ("client_id"@, client_id),
        ("redirect_uri"@, REDIRECT_URI@),
        ("scope"@, SCOPES@),
        ("state"@, state),
        ("code_challenge"@, challenge),
        ("code_challenge_method"@, "S256"@),
    ]
}

fn pair(k: &str, v: &str) -> (r: (String, String))
    ensures
        r.0@ == k@,
        r.1@ == v@,
{
    (owned(k), owned(v))
}

/// The address that asks X to authorize the reader.
pub fn authorization_url(client_id: &str, state: &str, challenge: &str) -> (r: Result<String, String>)
    ensures
        match r {
            Ok(a) => url_with_params(AUTHORIZE_URL@, authorization_pairs(client_id@, state@, challenge@))
                == Ok::<Seq<char>, Seq<char>>(a@),
            Err(e) => url_with_params(AUTHORIZE_URL@, authorization_pairs(client_id@, state@, challenge@))
                == Err::<Seq<char>, Seq<char>>(e@),
        },
{
    let mut pairs: Vec<(String, String)> = Vec::new();
    pairs.push(pair("response_type", "code"));
    pairs.push(pair("client_id", client_id));
    pairs.push(pair("redirect_uri", REDIRECT_URI));
    pairs.push(pair("scope", SCOPES));
    pairs.push(pair("state", state));
    pairs.push(pair("code_challenge", challenge));
    pairs.push(pair("code_challenge_method", "S256"));
    assert(pairs_view(pairs@) =~= authorization_pairs(client_id@, state@, challenge@));
    address_with_params(AUTHORIZE_URL, &pairs)
}

} // verus!
