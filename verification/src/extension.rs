//! The browser bridge's own rules: which extension builds it accepts, which
//! browser a command names, where the extension's files live, how messages
//! are framed on the native-messaging channel, which failures are worth a
//! reconnect, and how a post scraped by the extension becomes a reader post.
use vstd::prelude::*;
use crate::model::{Media, MediaKind, Post, PostMetrics, User};
use crate::text::{
    ascii_lower_seq, chars_of, concat2, concat3, contains_chars, contains_seq, decimal,
    lower_ascii_chars, owned, str_eq,
};

verus! {

/// This build's version; the extension it ships reports the same.
pub const PACKAGE_VERSION: &'static str = "0.3.7";

/// The extension's stable identity.
pub const EXTENSION_ID: &'static str = "iepklfmnjidigljfaegfjlbeghpjejka";

/// The native-messaging host's name.
pub const HOST_NAME: &'static str = "com.xtui.bridge";

/// The local address the bridge listens on.
pub const BRIDGE_ADDRESS: &'static str = "127.0.0.1:17471";

/// The largest message either side of the bridge accepts.
pub const MAX_MESSAGE_BYTES: usize = 524288;

/// Whether an extension build speaks the current bridge protocol: this
/// build's own version and the older builds that still do.
pub open spec fn supported_version(v: Seq<char>) -> bool {
    ||| v == PACKAGE_VERSION@
    ||| v == "0.3.2"@
    ||| v == "0.3.3"@
    ||| v == "0.3.4"@
    ||| v == "0.3.5"@
    ||| v == "0.3.6"@
}

/// Whether the running extension build can serve this reader.
pub fn extension_version_supported(running: &str) -> (r: bool)
    ensures
        r == supported_version(running@),
{
    str_eq(running, PACKAGE_VERSION) || str_eq(running, "0.3.2") || str_eq(running, "0.3.3")
        || str_eq(running, "0.3.4") || str_eq(running, "0.3.5") || str_eq(running, "0.3.6")
}


/// The browser whose extension page and native-messaging registry a command
/// addresses.
#[derive(Clone, Copy, Debug, PartialEq, Eq, Structural)]
pub enum BrowserTarget {
    Edge,
    Chrome,
}

/// The browser a command-line word names (Edge when none is given).
pub open spec fn target_named(value: Option<&str>) -> Option<BrowserTarget> {
    let word = match value {
        Some(v) => v@,
        None => "--edge"@,
    };
    if word == "edge"@ || word == "--edge"@ {
        Some(BrowserTarget::Edge)
    } else if word == "chrome"@ || word == "--chrome"@ {
        Some(BrowserTarget::Chrome)
    } else {
        None
    }
}

impl BrowserTarget {
    /// The browser named on the command line; Edge when none is given.
    pub fn parse(value: Option<&str>) -> (r: Result<Self, String>)
        ensures
            match target_named(value) {
                Some(t) => r == Ok::<BrowserTarget, String>(t),
                None => r matches Err(e) && value matches Some(v) && e@ == "unknown browser `"@
                    + v@ + "`; use --edge or --chrome"@,
            },
    {
        let word = match value {
            Some(v) => v,
            None => "--edge",
        };
        if str_eq(word, "edge") || str_eq(word, "--edge") {
            Ok(BrowserTarget::Edge)
        } else if str_eq(word, "chrome") || str_eq(word, "--chrome") {
            Ok(BrowserTarget::Chrome)
        } else {
            Err(concat3("unknown browser `", word, "`; use --edge or --chrome"))
        }
    }

    /// The browser's product name.
    pub fn label(self) -> (r: &'static str)
        ensures
            r@ == match self {
                BrowserTarget::Edge => "Microsoft Edge"@,
                BrowserTarget::Chrome => "Google Chrome"@,
            },
    {
        match self {
            BrowserTarget::Edge => "Microsoft Edge",
            BrowserTarget::Chrome => "Google Chrome",
        }
    }
}

/// Where the unpacked extension is written, under the platform's
/// configuration directory.
pub fn extension_root(config_dir: &str) -> (r: String)
    ensures
        r@ == config_dir@ + "/xtui/extension"@,
{
    concat2(config_dir, "/xtui/extension")
}

/// The native-host manifest written for `target` inside the extension
/// folder.
pub fn host_manifest_path(root: &str, target: BrowserTarget) -> (r: String)
    ensures
        r@ == root@ + "/native-host-"@ + match target {
            BrowserTarget::Edge => "edge"@,
            BrowserTarget::Chrome => "chrome"@,
        } + ".json"@,
{
    let suffix = match target {
        BrowserTarget::Edge => "edge",
        BrowserTarget::Chrome => "chrome",
    };
    let mut r = concat2(root, "/native-host-");
    r.append(suffix);
    r.append(".json");
    r
}

/// The only origin the native host answers.
pub open spec fn expected_origin() -> Seq<char> {
    "chrome-extension://"@ + EXTENSION_ID@ + "/"@
}

/// Whether the native host was started by this extension.
pub fn origin_allowed(origin: Option<&str>) -> (r: bool)
    ensures
        r == (origin matches Some(o) && o@ == expected_origin()),
{
    match origin {
        Some(o) => {
            let expected = concat3("chrome-extension://", EXTENSION_ID, "/");
            str_eq(o, expected.as_str())
        },
        None => false,
    }
}

/// The little-endian value of four bytes.
pub open spec fn le_value(b: Seq<u8>) -> int {
    b[0] + 256 * b[1] + 65536 * b[2] + 16777216 * b[3]
}

/// The four little-endian bytes of `n` (below 2^32).
pub open spec fn le_bytes(n: int) -> Seq<u8> {
    seq![
        (n % 256) as u8,
        ((n / 256) % 256) as u8,
        ((n / 65536) % 256) as u8,
        ((n / 16777216) % 256) as u8,
    ]
}

/// Why a frame could not be read.
pub enum FrameFault {
    /// The input ended inside the frame.
    Truncated,
    /// The announced length is over the limit.
    Oversized,
}

/// The payload at the start of `input`: a four-byte little-endian length,
/// then that many bytes. Anything after the frame is left alone.
pub open spec fn decode_frame(input: Seq<u8>, maximum: int) -> Result<Seq<u8>, FrameFault> {
    if input.len() < 4 {
        Err(FrameFault::Truncated)
    } else {
        let n = le_value(input.subrange(0, 4));
        if n > maximum {
            Err(FrameFault::Oversized)
        } else if input.len() < 4 + n {
            Err(FrameFault::Truncated)
        } else {
            Ok(input.subrange(4, 4 + n))
        }
    }
}

pub open spec fn oversize_message(maximum: int) -> Seq<char> {
    "native message exceeded "@ + decimal(maximum as nat) + " bytes"@
}

/// The payload length a frame header announces, refused when over
/// `maximum`.
pub fn frame_length(header: &[u8], maximum: usize) -> (r: Result<usize, String>)
    requires
        header@.len() == 4,
    ensures
        match r {
            Ok(n) => n == le_value(header@) && n <= maximum,
            Err(e) => le_value(header@) > maximum && e@ == oversize_message(maximum as int),
        },
{
    let n: u64 = header[0] as u64 + 256 * (header[1] as u64) + 65536 * (header[2] as u64)
        + 16777216 * (header[3] as u64);
    if n > maximum as u64 {
        let mut e = owned("native message exceeded ");
        e.append(crate::text::decimal_string(maximum as u64).as_str());
        e.append(" bytes");
        Err(e)
    } else {
        Ok(n as usize)
    }
}

/// Read one frame from the start of `input`.
pub fn read_frame(input: &[u8], maximum: usize) -> (r: Result<Vec<u8>, String>)
    ensures
        match decode_frame(input@, maximum as int) {
            Ok(p) => r matches Ok(v) && v@ == p,
            Err(FrameFault::Truncated) => r matches Err(e) && e@ == "failed to fill whole buffer"@,
            Err(FrameFault::Oversized) => r matches Err(e) && e@ == oversize_message(
                maximum as int,
            ),
        },
{
    if input.len() < 4 {
        return Err(owned("failed to fill whole buffer"));
    }
    let mut header: Vec<u8> = Vec::new();
    header.push(input[0]);
    header.push(input[1]);
    header.push(input[2]);
    header.push(input[3]);
    assert(header@ =~= input@.subrange(0, 4));
    let n = match frame_length(header.as_slice(), maximum) {
        Ok(n) => n,
        Err(e) => return Err(e),
    };
    if input.len() - 4 < n {
        return Err(owned("failed to fill whole buffer"));
    }
    let mut payload: Vec<u8> = Vec::new();
    let len = input.len();
    let mut i: usize = 0;
    while i < n
        invariant
            i <= n,
            len == input@.len(),
            4 + n <= len,
            payload@ == input@.subrange(4, 4 + i),
        decreases n - i,
    {
        payload.push(input[4 + i]);
        i += 1;
        assert(payload@ =~= input@.subrange(4, 4 + i));
    }
    Ok(payload)
}

/// Frame `payload` for the bridge: its length in four little-endian bytes,
/// then the payload; a payload over the limit is refused.
pub fn write_frame(payload: &[u8]) -> (r: Result<Vec<u8>, String>)
    ensures
        payload@.len() > MAX_MESSAGE_BYTES ==> (r matches Err(e) && e@ == oversize_message(
            MAX_MESSAGE_BYTES as int,
        )),
        payload@.len() <= MAX_MESSAGE_BYTES ==> (r matches Ok(v) && v@ == le_bytes(
            payload@.len() as int,
        ) + payload@),
{
    if payload.len() > MAX_MESSAGE_BYTES {
        let mut e = owned("native message exceeded ");
        e.append(crate::text::decimal_string(MAX_MESSAGE_BYTES as u64).as_str());
        e.append(" bytes");
        return Err(e);
    }
    let n = payload.len();
    let mut out: Vec<u8> = Vec::new();
    out.push((n % 256) as u8);
    out.push(((n / 256) % 256) as u8);
    out.push(((n / 65536) % 256) as u8);
    out.push(((n / 16777216) % 256) as u8);
    assert(out@ =~= le_bytes(n as int));
    let mut i: usize = 0;
    while i < payload.len()
        invariant
            i <= payload@.len(),
            out@ == le_bytes(n as int) + payload@.subrange(0, i as int),
        decreases payload@.len() - i,
    {
        out.push(payload[i]);
        i += 1;
        assert(out@ =~= le_bytes(n as int) + payload@.subrange(0, i as int));
    }
    assert(payload@.subrange(0, payload@.len() as int) =~= payload@);
    Ok(out)
}

proof fn lemma_le_round_trip(n: int)
    requires
        0 <= n < 4294967296,
    ensures
        le_value(le_bytes(n)) == n,
{
    let b = le_bytes(n);
    assert(b[0] == n % 256);
    assert(b[1] == (n / 256) % 256);
    assert(b[2] == (n / 65536) % 256);
    assert(b[3] == (n / 16777216) % 256);
    assert(le_value(b) == n) by (nonlinear_arith)
        requires
            0 <= n < 4294967296,
            b[0] == n % 256,
            b[1] == (n / 256) % 256,
            b[2] == (n / 65536) % 256,
            b[3] == (n / 16777216) % 256,
            le_value(b) == b[0] + 256 * b[1] + 65536 * b[2] + 16777216 * b[3],
    ;
}

/// Reading a written frame gives back its payload, whatever follows it.
pub proof fn law_framing_round_trips(payload: Seq<u8>, rest: Seq<u8>)
    requires
        payload.len() <= MAX_MESSAGE_BYTES,
    ensures
        decode_frame(le_bytes(payload.len() as int) + payload + rest, MAX_MESSAGE_BYTES as int)
            == Ok::<Seq<u8>, FrameFault>(payload),
{
    let frame = le_bytes(payload.len() as int) + payload + rest;
    lemma_le_round_trip(payload.len() as int);
    assert(frame.subrange(0, 4) =~= le_bytes(payload.len() as int));
    assert(frame.subrange(4, 4 + payload.len() as int) =~= payload);
}

/// Whether a bridge failure is a dropped socket worth one reconnect, as
/// opposed to an error the extension reported.
pub open spec fn retryable_message(message: Seq<char>) -> bool {
    let text = ascii_lower_seq(message);
    ||| contains_seq(text, "aborted"@)
    ||| contains_seq(text, "connection reset"@)
    ||| contains_seq(text, "broken pipe"@)
    ||| contains_seq(text, "os error 10053"@)
    ||| contains_seq(text, "os error 10054"@)
    ||| contains_seq(text, "os error 104"@)
    ||| contains_seq(text, "forcibly closed"@)
}

fn has(text: &Vec<char>, needle: &str) -> (r: bool)
    ensures
        r == contains_seq(text@, needle@),
{
    let n = chars_of(needle);
    contains_chars(text, &n)
}

/// Whether a failed bridge exchange (given by its message) should be retried
/// on a fresh connection.
pub fn bridge_error_is_retryable(message: &str) -> (r: bool)
    ensures
        r == retryable_message(message@),
{
    let text = lower_ascii_chars(&chars_of(message));
    has(&text, "aborted") || has(&text, "connection reset") || has(&text, "broken pipe") || has(
        &text,
        "os error 10053",
    ) || has(&text, "os error 10054") || has(&text, "os error 104") || has(
        &text,
        "forcibly closed",
    )
}


/// An attachment as the extension scrapes it.
#[derive(Debug)]
pub struct ScrapedMedia {
    pub kind: String,
    pub url: String,
    pub alt: Option<String>,
}

/// A post as the extension scrapes it from the page.
#[derive(Debug)]
pub struct ScrapedPost {
    pub id: String,
    pub text: String,
    pub name: String,
    pub username: String,
    pub verified: bool,
    pub created_at: Option<String>,
    pub replies: u64,
    pub reposts: u64,
    pub likes: u64,
    pub views: u64,
    pub media: Vec<ScrapedMedia>,
    pub quoted: Option<Box<ScrapedPost>>,
}

/// The instant (milliseconds since the Unix epoch) an RFC 3339 timestamp
/// names, or `None` when the text is not one.
pub uninterp spec fn rfc3339_millis(text: Seq<char>) -> Option<i64>;

/// `chrono::DateTime::parse_from_rfc3339`, read as milliseconds since the
/// epoch with `timestamp_millis`. The contract only names the result: the
/// parse is a function of the text alone.
#[verifier::external_body]
fn parse_rfc3339_millis(text: &str) -> (r: Option<i64>)
    ensures
        r == rfc3339_millis(text@),
{
    match chrono::DateTime::parse_from_rfc3339(text) {
        Ok(d) => Some(d.timestamp_millis()),
        Err(_) => None,
    }
}

/// A scraped post keeps its counts: replies, reposts, likes and views come
/// through unchanged, each in its own place, and the post keeps its id,
/// text and author handle.
pub proof fn law_scraped_counts_carry_over(s: ScrapedPost, now: i64, p: Post)
    requires
        converted(s, now, p),
    ensures
        p.metrics.reply_count == s.replies,
        p.metrics.retweet_count == s.reposts,
        p.metrics.like_count == s.likes,
        p.metrics.impression_count == Some(s.views),
        p.metrics.quote_count == 0,
        p.id == s.id,
        p.text == s.text,
        p.author.username == s.username,
        p.author.name == s.name,
        p.media@.len() == s.media@.len(),
        forall|i: int|
            0 <= i < s.media@.len() ==> {
                &&& (#[trigger] p.media@[i]).url == Some(s.media@[i].url)
                &&& p.media@[i].alt_text == s.media@[i].alt
                &&& (s.media@[i].kind@ == "video"@ ==> p.media@[i].kind == MediaKind::Video)
                &&& (s.media@[i].kind@ != "video"@ ==> p.media@[i].kind == MediaKind::Photo)
            },
{
    assert forall|i: int| 0 <= i < s.media@.len() implies {
        &&& (#[trigger] p.media@[i]).url == Some(s.media@[i].url)
        &&& p.media@[i].alt_text == s.media@[i].alt
        &&& (s.media@[i].kind@ == "video"@ ==> p.media@[i].kind == MediaKind::Video)
        &&& (s.media@[i].kind@ != "video"@ ==> p.media@[i].kind == MediaKind::Photo)
    } by {
        assert(media_converted(s.id@, i, s.media@[i], p.media@[i]));
    }
}

/// The instant an RFC 3339 timestamp names, in milliseconds since the epoch,
/// or `None` when the text is not one.
pub fn timestamp_millis(text: &str) -> (r: Option<i64>)
    ensures
        r == rfc3339_millis(text@),
{
    parse_rfc3339_millis(text)
}

/// The creation time kept for a post: the parsed timestamp, else `now`.
pub open spec fn resolved_time(parsed: Option<i64>, now: i64) -> i64 {
    match parsed {
        Some(t) => t,
        None => now,
    }
}

/// The creation time of a scraped post whose timestamp parsed to `parsed`.
pub fn resolve_created_at(parsed: Option<i64>, now: i64) -> (r: i64)
    ensures
        r == resolved_time(parsed, now),
{
    match parsed {
        Some(t) => t,
        None => now,
    }
}

/// The creation time of a post scraped with `created_at`.
pub open spec fn created_time(created_at: Option<String>, now: i64) -> i64 {
    match created_at {
        Some(c) => resolved_time(rfc3339_millis(c@), now),
        None => now,
    }
}

/// The creation time of a post scraped with `created_at`; `now` stands in
/// when the extension sent none or an unreadable one.
pub fn created_at_ms(created_at: &Option<String>, now: i64) -> (r: i64)
    ensures
        r == created_time(*created_at, now),
{
    match created_at {
        Some(c) => resolve_created_at(parse_rfc3339_millis(c.as_str()), now),
        None => now,
    }
}

pub open spec fn scraped_kind(kind: Seq<char>) -> MediaKind {
    if kind == "video"@ {
        MediaKind::Video
    } else {
        MediaKind::Photo
    }
}

/// `out` is attachment `index` of the post `id`, converted from `m`.
pub open spec fn media_converted(id: Seq<char>, index: int, m: ScrapedMedia, out: Media) -> bool {
    &&& out.key@ == id + "-"@ + decimal(index as nat)
    &&& out.kind == scraped_kind(m.kind@)
    &&& out.url == Some(m.url)
    &&& out.preview_url is None
    &&& out.alt_text == m.alt
    &&& out.variants@.len() == 0
}

/// Whether a scraped post can be shown: it needs an id and an author handle.
pub open spec fn accepted(s: ScrapedPost) -> bool {
    s.id@.len() > 0 && s.username@.len() > 0
}

/// `p` is the reader post for the scraped post `s` (its quoted post
/// converted in turn, and dropped when it cannot be shown).
pub open spec fn converted(s: ScrapedPost, now: i64, p: Post) -> bool
    decreases s,
{
    &&& p.id == s.id
    &&& p.text == s.text
    &&& p.author.id == s.username
    &&& p.author.name == s.name
    &&& p.author.username == s.username
    &&& p.author.verified == s.verified
    &&& p.author.description@.len() == 0
    &&& p.author.profile_image_url is None
    &&& p.author.public_metrics is None
    &&& p.created_at == created_time(s.created_at, now)
    &&& p.conversation_id == s.id
    &&& p.in_reply_to_user_id is None
    &&& p.metrics == PostMetrics {
        reply_count: s.replies,
        retweet_count: s.reposts,
        like_count: s.likes,
        quote_count: 0,
        bookmark_count: None,
        impression_count: Some(s.views),
    }
    &&& p.media@.len() == s.media@.len()
    &&& forall|i: int|
        0 <= i < s.media@.len() ==> media_converted(s.id@, i, s.media@[i], #[trigger] p.media@[i])
    &&& p.reposted is None
    &&& p.language is None
    &&& match s.quoted {
        Some(q) => if accepted(*q) {
            p.quoted matches Some(pq) && converted(*q, now, *pq)
        } else {
            p.quoted is None
        },
        None => p.quoted is None,
    }
}

fn convert_media(id: &String, media: Vec<ScrapedMedia>) -> (r: Vec<Media>)
    ensures
        r@.len() == media@.len(),
        forall|i: int|
            0 <= i < media@.len() ==> media_converted(id@, i, media@[i], #[trigger] r@[i]),
{
    let mut rest = media;
    let ghost orig = rest@;
    let n = rest.len();
    let mut out: Vec<Media> = Vec::new();
    let mut i: usize = 0;
    while rest.len() > 0
        invariant
            n == orig.len(),
            i + rest@.len() == n,
            rest@ == orig.subrange(i as int, n as int),
            out@.len() == i,
            forall|j: int| 0 <= j < i ==> media_converted(id@, j, orig[j], #[trigger] out@[j]),
        decreases rest@.len(),
    {
        let m = rest.remove(0);
        assert(m == orig[i as int]);
        let ScrapedMedia { kind, url, alt } = m;
        let mut key = concat2(id.as_str(), "-");
        key.append(crate::text::decimal_string(i as u64).as_str());
        let is_video = str_eq(kind.as_str(), "video");
        out.push(
            Media {
                key,
                kind: if is_video {
                    MediaKind::Video
                } else {
                    MediaKind::Photo
                },
                url: Some(url),
                preview_url: None,
                alt_text: alt,
                variants: Vec::new(),
            },
        );
        i += 1;
        assert(rest@ =~= orig.subrange(i as int, n as int));
    }
    out
}

impl ScrapedPost {
    /// The reader post for this scraped post, or `None` when it lacks an id
    /// or an author handle. `now` stands in for a missing or unreadable
    /// creation time.
    pub fn into_post(self, now: i64) -> (r: Option<Post>)
        ensures
            accepted(self) ==> (r matches Some(p) && converted(self, now, p)),
            !accepted(self) ==> r is None,
        decreases self,
    {
        if self.id.as_str().unicode_len() == 0 || self.username.as_str().unicode_len() == 0 {
            return None;
        }
        let ghost s = self;
        let ScrapedPost {
            id,
            text,
            name,
            username,
            verified,
            created_at,
            replies,
            reposts,
            likes,
            views,
            media,
            quoted,
        } = self;
        let created = created_at_ms(&created_at, now);
        let author = User {
            id: username.clone(),
            name,
            username,
            verified,
            description: String::new(),
            profile_image_url: None,
            public_metrics: None,
        };
        let media_out = convert_media(&id, media);
        let quoted_out: Option<Box<Post>> = match quoted {
            Some(q) => {
                assert(decreases_to!(s => *q));
                match (*q).into_post(now) {
                    Some(p) => Some(Box::new(p)),
                    None => None,
                }
            },
            None => None,
        };
        Some(
            Post {
                id: id.clone(),
                text,
                author,
                created_at: created,
                conversation_id: id,
                in_reply_to_user_id: None,
                metrics: PostMetrics {
                    reply_count: replies,
                    retweet_count: reposts,
                    like_count: likes,
                    quote_count: 0,
                    bookmark_count: None,
                    impression_count: Some(views),
                },
                media: media_out,
                quoted: quoted_out,
                reposted: None,
                language: None,
            },
        )
    }
}

/// How many times a bridge request is tried before it fails.
pub const BRIDGE_ATTEMPTS: u64 = 3;

/// What follows a failed bridge exchange.
#[derive(Debug, PartialEq, Eq)]
pub enum BridgeRetry {
    /// Wait, reconnect and try again.
    Retry { delay_ms: u64 },
    /// Give up, with this context on the error.
    Fail { context: String },
}

/// The decision after attempt `attempt` (counted from zero) failed with
/// `message`; `first` is the message of the first failure. A dropped
/// socket is retried after a growing pause until the attempts run out; any
/// other error fails at once.
pub open spec fn retry_after(attempt: u64, message: Seq<char>, first: Seq<char>) -> Result<
    u64,
    Seq<char>,
> {
    if !retryable_message(message) || attempt + 1 == BRIDGE_ATTEMPTS {
        Err(
            if attempt == 0 {
                "browser bridge request failed"@
            } else {
                "browser bridge request failed after reconnect (first failure: "@ + first + ")"@
            },
        )
    } else {
        Ok((120 * (attempt + 1)) as u64)
    }
}

pub fn after_bridge_failure(attempt: u64, message: &str, first: &str) -> (r: BridgeRetry)
    requires
        attempt < BRIDGE_ATTEMPTS,
    ensures
        match r {
            BridgeRetry::Retry { delay_ms } => retry_after(attempt, message@, first@) == Ok::<
                u64,
                Seq<char>,
            >(delay_ms),
            BridgeRetry::Fail { context } => retry_after(attempt, message@, first@) == Err::<
                u64,
                Seq<char>,
            >(context@),
        },
{
    if !bridge_error_is_retryable(message) || attempt + 1 == BRIDGE_ATTEMPTS {
        let context = if attempt == 0 {
            owned("browser bridge request failed")
        } else {
            concat3(
                "browser bridge request failed after reconnect (first failure: ",
                first,
                ")",
            )
        };
        BridgeRetry::Fail { context }
    } else {
        BridgeRetry::Retry { delay_ms: 120 * (attempt + 1) }
    }
}

/// A request is never tried more than three times.
pub proof fn law_the_last_attempt_never_retries(message: Seq<char>, first: Seq<char>)
    ensures
        retry_after((BRIDGE_ATTEMPTS - 1) as u64, message, first) is Err,
{
}

/// The version a bridge status reports, or the note for builds that report
/// none.
pub open spec fn reported_version(reported: Option<Seq<char>>) -> Seq<char> {
    match reported {
        Some(v) => v,
        None => "older than 0.2.4"@,
    }
}

/// Whether the running extension can serve this reader; when it cannot, the
/// message that asks for a reload.
pub fn check_extension_version(reported: Option<&str>) -> (r: Result<(), String>)
    ensures
        ({
            let v = reported_version(
                match reported {
                    Some(s) => Some(s@),
                    None => None,
                },
            );
            if supported_version(v) {
                r is Ok
            } else {
                r matches Err(e) && e@ == "Edge is running XTUI extension "@ + v
                    + ", but the CLI is "@ + PACKAGE_VERSION@
                    + "; open edge://extensions and click Reload on XTUI"@
            }
        }),
{
    let running = match reported {
        Some(v) => v,
        None => "older than 0.2.4",
    };
    if extension_version_supported(running) {
        Ok(())
    } else {
        let mut e = concat3("Edge is running XTUI extension ", running, ", but the CLI is ");
        e.append(PACKAGE_VERSION);
        e.append("; open edge://extensions and click Reload on XTUI");
        Err(e)
    }
}

/// The most routes the bridge keeps before it starts over.
pub const ROUTE_LIMIT: usize = 2048;

/// Where each post the bridge has handed out can be reopened: its author's
/// handle and how many replies it had, by post id.
pub struct ThreadRoutes {
    entries: Vec<(String, String, u64)>,
}

pub open spec fn route_map(s: Seq<(String, String, u64)>) -> Map<Seq<char>, (Seq<char>, u64)>
    decreases s.len(),
{
    if s.len() == 0 {
        Map::empty()
    } else {
        let l = s.last();
        route_map(s.drop_last()).insert(l.0@, (l.1@, l.2))
    }
}

pub open spec fn distinct_ids(s: Seq<(String, String, u64)>) -> bool {
    forall|i: int, j: int| 0 <= i < j < s.len() ==> (#[trigger] s[i]).0@ != (#[trigger] s[j]).0@
}

/// The routes after `posts` were handed out, in order, on top of `m`.
pub open spec fn remembered(m: Map<Seq<char>, (Seq<char>, u64)>, posts: Seq<Post>) -> Map<
    Seq<char>,
    (Seq<char>, u64),
>
    decreases posts.len(),
{
    if posts.len() == 0 {
        m
    } else {
        let p = posts.last();
        remembered(m, posts.drop_last()).insert(p.id@, (p.author.username@, p.metrics.reply_count))
    }
}

proof fn lemma_route_map_keys(s: Seq<(String, String, u64)>, k: Seq<char>)
    ensures
        route_map(s).contains_key(k) <==> exists|i: int| 0 <= i < s.len() && (#[trigger] s[i]).0@ == k,
        route_map(s).dom().finite(),
    decreases s.len(),
{
    if s.len() > 0 {
        let init = s.drop_last();
        lemma_route_map_keys(init, k);
        if route_map(s).contains_key(k) && s.last().0@ != k {
            let i = choose|i: int| 0 <= i < init.len() && (#[trigger] init[i]).0@ == k;
            assert(s[i] == init[i]);
        }
        if exists|i: int| 0 <= i < s.len() && (#[trigger] s[i]).0@ == k {
            let i = choose|i: int| 0 <= i < s.len() && (#[trigger] s[i]).0@ == k;
            if i < s.len() - 1 {
                assert(init[i] == s[i]);
            }
        }
    }
}

proof fn lemma_route_map_len(s: Seq<(String, String, u64)>)
    requires
        distinct_ids(s),
    ensures
        route_map(s).dom().len() == s.len(),
    decreases s.len(),
{
    if s.len() > 0 {
        let init = s.drop_last();
        assert(distinct_ids(init)) by {
            assert forall|i: int, j: int| 0 <= i < j < init.len() implies (#[trigger] init[i]).0@
                != (#[trigger] init[j]).0@ by {
                assert(init[i] == s[i] && init[j] == s[j]);
            }
        }
        lemma_route_map_len(init);
        lemma_route_map_keys(init, s.last().0@);
        if route_map(init).contains_key(s.last().0@) {
            let i = choose|i: int| 0 <= i < init.len() && (#[trigger] init[i]).0@ == s.last().0@;
            assert(init[i] == s[i]);
            assert(s[i].0@ != s[s.len() - 1].0@);
        }
    }
}

proof fn lemma_route_map_update(s: Seq<(String, String, u64)>, i: int, e: (String, String, u64))
    requires
        distinct_ids(s),
        0 <= i < s.len(),
        e.0@ == s[i].0@,
    ensures
        route_map(s.update(i, e)) == route_map(s).insert(e.0@, (e.1@, e.2)),
    decreases s.len(),
{
    let t = s.update(i, e);
    let last = s.len() - 1;
    if i == last {
        assert(t.drop_last() =~= s.drop_last());
        assert(route_map(s).insert(e.0@, (e.1@, e.2)) =~= route_map(s.drop_last()).insert(
            e.0@,
            (e.1@, e.2),
        ));
    } else {
        let init = s.drop_last();
        assert(distinct_ids(init)) by {
            assert forall|a: int, b: int| 0 <= a < b < init.len() implies (#[trigger] init[a]).0@
                != (#[trigger] init[b]).0@ by {
                assert(init[a] == s[a] && init[b] == s[b]);
            }
        }
        assert(init[i] == s[i]);
        lemma_route_map_update(init, i, e);
        assert(t.drop_last() =~= init.update(i, e));
        assert(t.last() == s.last());
        assert(s[i].0@ != s[last].0@);
        assert(route_map(t) =~= route_map(s).insert(e.0@, (e.1@, e.2)));
    }
}

proof fn lemma_route_map_value(s: Seq<(String, String, u64)>, i: int)
    requires
        distinct_ids(s),
        0 <= i < s.len(),
    ensures
        route_map(s).contains_key(s[i].0@),
        route_map(s)[s[i].0@] == (s[i].1@, s[i].2),
    decreases s.len(),
{
    let last = s.len() - 1;
    if i < last {
        let init = s.drop_last();
        assert(distinct_ids(init)) by {
            assert forall|a: int, b: int| 0 <= a < b < init.len() implies (#[trigger] init[a]).0@
                != (#[trigger] init[b]).0@ by {
                assert(init[a] == s[a] && init[b] == s[b]);
            }
        }
        assert(init[i] == s[i]);
        lemma_route_map_value(init, i);
        assert(s[i].0@ != s[last].0@);
    }
}

impl View for ThreadRoutes {
    type V = Map<Seq<char>, (Seq<char>, u64)>;

    closed spec fn view(&self) -> Self::V {
        route_map(self.entries@)
    }
}

impl ThreadRoutes {
    pub closed spec fn wf(&self) -> bool {
        distinct_ids(self.entries@)
    }

    pub fn new() -> (r: Self)
        ensures
            r.wf(),
            r@ == Map::<Seq<char>, (Seq<char>, u64)>::empty(),
    {
        ThreadRoutes { entries: Vec::new() }
    }

    /// How many posts have a route.
    pub fn len(&self) -> (r: usize)
        requires
            self.wf(),
        ensures
            r == self@.dom().len(),
    {
        proof {
            lemma_route_map_len(self.entries@);
        }
        self.entries.len()
    }

    fn position(&self, id: &str) -> (r: Option<usize>)
        ensures
            match r {
                Some(i) => i < self.entries@.len() && self.entries@[i as int].0@ == id@,
                None => forall|j: int|
                    0 <= j < self.entries@.len() ==> (#[trigger] self.entries@[j]).0@ != id@,
            },
    {
        let mut i: usize = 0;
        while i < self.entries.len()
            invariant
                i <= self.entries@.len(),
                forall|j: int| 0 <= j < i ==> (#[trigger] self.entries@[j]).0@ != id@,
            decreases self.entries@.len() - i,
        {
            if str_eq(self.entries[i].0.as_str(), id) {
                return Some(i);
            }
            i += 1;
        }
        None
    }

    /// The author and reply count remembered for post `id`.
    pub fn route(&self, id: &str) -> (r: Option<(String, u64)>)
        requires
            self.wf(),
        ensures
            match r {
                Some((author, replies)) => self@.contains_key(id@) && self@[id@] == (
                    author@,
                    replies,
                ),
                None => !self@.contains_key(id@),
            },
    {
        proof {
            lemma_route_map_keys(self.entries@, id@);
        }
        match self.position(id) {
            Some(i) => {
                proof {
                    lemma_route_map_value(self.entries@, i as int);
                }
                Some((self.entries[i].1.clone(), self.entries[i].2))
            },
            None => None,
        }
    }

    fn insert(&mut self, id: String, author: String, replies: u64)
        requires
            old(self).wf(),
        ensures
            final(self).wf(),
            final(self)@ == old(self)@.insert(id@, (author@, replies)),
    {
        let ghost before = self.entries@;
        proof {
            lemma_route_map_keys(before, id@);
        }
        match self.position(id.as_str()) {
            Some(i) => {
                let ghost e = (id, author, replies);
                proof {
                    lemma_route_map_update(before, i as int, e);
                }
                self.entries.set(i, (id, author, replies));
                assert(self.entries@ == before.update(i as int, e));
                assert(distinct_ids(self.entries@)) by {
                    assert forall|a: int, b: int| 0 <= a < b < self.entries@.len() implies (
                    #[trigger] self.entries@[a]).0@ != (#[trigger] self.entries@[b]).0@ by {
                        if a != i && b != i {
                            assert(self.entries@[a] == before[a] && self.entries@[b] == before[b]);
                        } else if a == i {
                            assert(self.entries@[b] == before[b]);
                        } else {
                            assert(self.entries@[a] == before[a]);
                        }
                    }
                }
            },
            None => {
                let ghost e = (id, author, replies);
                self.entries.push((id, author, replies));
                assert(self.entries@ == before.push(e));
                assert(self.entries@.drop_last() =~= before);
                assert(distinct_ids(self.entries@)) by {
                    assert forall|a: int, b: int| 0 <= a < b < self.entries@.len() implies (
                    #[trigger] self.entries@[a]).0@ != (#[trigger] self.entries@[b]).0@ by {
                        assert(self.entries@[a] == before[a]);
                        if b < before.len() {
                            assert(self.entries@[b] == before[b]);
                        }
                    }
                }
            },
        }
    }

    /// Note the route of each post handed out; past the limit the routes
    /// start over first.
    pub fn remember(&mut self, posts: &Vec<Post>)
        requires
            old(self).wf(),
        ensures
            final(self).wf(),
            final(self)@ == remembered(
                if old(self)@.dom().len() > ROUTE_LIMIT {
                    Map::empty()
                } else {
                    old(self)@
                },
                posts@,
            ),
    {
        if self.len() > ROUTE_LIMIT {
            self.entries = Vec::new();
        }
        let ghost base = self@;
        let mut k: usize = 0;
        while k < posts.len()
            invariant
                k <= posts@.len(),
                self.wf(),
                self@ == remembered(base, posts@.subrange(0, k as int)),
            decreases posts@.len() - k,
        {
            let p = &posts[k];
            self.insert(p.id.clone(), p.author.username.clone(), p.metrics.reply_count);
            assert(posts@.subrange(0, k + 1).drop_last() =~= posts@.subrange(0, k as int));
            k += 1;
        }
        assert(posts@.subrange(0, posts@.len() as int) =~= posts@);
    }
}

/// A post handed out is found again by its id, with the author and reply
/// count it was handed out with, unless a later post with the same id took
/// its place.
pub proof fn law_routes_find_the_posts_handed_out(
    m: Map<Seq<char>, (Seq<char>, u64)>,
    posts: Seq<Post>,
    i: int,
)
    requires
        0 <= i < posts.len(),
        forall|j: int| i < j < posts.len() ==> (#[trigger] posts[j]).id@ != posts[i].id@,
    ensures
        remembered(m, posts).contains_key(posts[i].id@),
        remembered(m, posts)[posts[i].id@] == (
            posts[i].author.username@,
            posts[i].metrics.reply_count,
        ),
    decreases posts.len(),
{
    if i < posts.len() - 1 {
        let init = posts.drop_last();
        assert(init[i] == posts[i]);
        assert forall|j: int| i < j < init.len() implies (#[trigger] init[j]).id@ != init[i].id@ by {
            assert(init[j] == posts[j]);
        }
        law_routes_find_the_posts_handed_out(m, init, i);
        assert(posts[posts.len() - 1].id@ != posts[i].id@);
    }
}

/// The terminal the native host relays to: the generation it connected in
/// and its stream. Only the latest terminal is live.
pub struct ClientSlot<S> {
    pub current: Option<(u64, S)>,
}

/// `b` is `a` after the client of `generation` left: the slot empties only
/// when that client is the live one.
pub open spec fn cleared<S>(a: ClientSlot<S>, b: ClientSlot<S>, generation: u64) -> bool {
    if a.current matches Some((g, _)) && g == generation {
        b.current is None
    } else {
        b.current == a.current
    }
}

impl<S> ClientSlot<S> {
    /// The generation of the live client.
    pub open spec fn live(self) -> Option<u64> {
        match self.current {
            Some((g, _)) => Some(g),
            None => None,
        }
    }

    pub fn new() -> (r: Self)
        ensures
            r.current is None,
    {
        ClientSlot { current: None }
    }

    /// Make `stream` the live client; the client it displaced is handed back
    /// so that it can be shut down.
    pub fn replace(&mut self, generation: u64, stream: S) -> (r: Option<S>)
        ensures
            final(self).current == Some((generation, stream)),
            r == match old(self).current {
                Some((_, previous)) => Some(previous),
                None => None::<S>,
            },
    {
        let previous = self.current.take();
        self.current = Some((generation, stream));
        match previous {
            Some((_, s)) => Some(s),
            None => None,
        }
    }

    /// Whether the client of `generation` is the live one.
    pub fn holds(&self, generation: u64) -> (r: bool)
        ensures
            r == (self.live() == Some(generation)),
    {
        match &self.current {
            Some((g, _)) => *g == generation,
            None => false,
        }
    }

    /// Forget the client of `generation`, if it is still the live one.
    pub fn clear(&mut self, generation: u64)
        ensures
            cleared(*old(self), *final(self), generation),
    {
        let live = match &self.current {
            Some((g, _)) => *g == generation,
            None => false,
        };
        if live {
            self.current = None;
        }
    }

    /// The live client, if any.
    pub fn live_client(&self) -> (r: Option<(u64, &S)>)
        ensures
            match self.current {
                Some((g, s)) => r == Some((g, &s)),
                None => r is None,
            },
    {
        match &self.current {
            Some((g, s)) => Some((*g, s)),
            None => None,
        }
    }
}

/// A terminal that connected earlier can never drop the one that replaced
/// it: once a newer client is live, the older one leaving changes nothing.
pub proof fn law_stale_clients_cannot_drop_the_live_one<S>(
    b: ClientSlot<S>,
    c: ClientSlot<S>,
    older: u64,
    newer: u64,
    stream: S,
)
    requires
        b.current == Some((newer, stream)),
        older != newer,
        cleared(b, c, older),
    ensures
        c.live() == Some(newer),
{
}

} // verus!
