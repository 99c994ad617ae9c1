//! The X API v2's response shapes and how a response with expansions turns
//! into the reader's posts, plus the field lists every request asks for.
use vstd::prelude::*;
use crate::model::{
    clone_media, media_values, Media, MediaKind, MediaValue, MediaVariant, Page, Post,
    PostMetrics, User, UserMetrics, XList,
};
use crate::text::{owned, str_eq};

verus! {

/// A response envelope: the data, the expanded objects it refers to, and the
/// pagination cursor.
#[derive(Debug)]
pub struct ApiResponse<T> {
    pub data: Option<T>,
    pub includes: Option<Includes>,
    pub meta: Option<Meta>,
}

/// Objects a response expands: authors, attachments and referenced posts.
#[derive(Debug)]
pub struct Includes {
    pub users: Vec<RawUser>,
    pub media: Vec<RawMedia>,
    pub tweets: Vec<RawPost>,
}

#[derive(Debug)]
pub struct Meta {
    pub next_token: Option<String>,
}

/// A post as the API returns it. `created_at` is in milliseconds since the
/// Unix epoch.
#[derive(Debug)]
pub struct RawPost {
    pub id: String,
    pub text: String,
    pub author_id: Option<String>,
    pub created_at: Option<i64>,
    pub conversation_id: Option<String>,
    pub in_reply_to_user_id: Option<String>,
    pub lang: Option<String>,
    pub public_metrics: PostMetrics,
    pub attachments: Option<Attachments>,
    pub referenced_tweets: Vec<Reference>,
}

#[derive(Debug)]
pub struct Attachments {
    pub media_keys: Vec<String>,
}

/// A post this one quotes, retweets or answers.
#[derive(Debug)]
pub struct Reference {
    pub kind: String,
    pub id: String,
}

#[derive(Debug)]
pub struct RawUser {
    pub id: String,
    pub name: String,
    pub username: String,
    pub verified: bool,
    pub description: String,
    pub profile_image_url: Option<String>,
    pub public_metrics: Option<UserMetrics>,
}

#[derive(Debug)]
pub struct RawMedia {
    pub media_key: String,
    pub kind: MediaKind,
    pub url: Option<String>,
    pub preview_image_url: Option<String>,
    pub alt_text: Option<String>,
    pub variants: Vec<MediaVariant>,
}

#[derive(Debug)]
pub struct RawList {
    pub id: String,
    pub name: String,
    pub description: String,
    pub member_count: Option<u64>,
    pub follower_count: Option<u64>,
    pub private: bool,
}

pub open spec fn user_of(u: RawUser) -> User {
    User {
        id: u.id,
        name: u.name,
        username: u.username,
        verified: u.verified,
        description: u.description,
        profile_image_url: u.profile_image_url,
        public_metrics: u.public_metrics,
    }
}

pub open spec fn media_of(m: RawMedia) -> Media {
    Media {
        key: m.media_key,
        kind: m.kind,
        url: m.url,
        preview_url: m.preview_image_url,
        alt_text: m.alt_text,
        variants: m.variants,
    }
}

pub open spec fn list_of(l: RawList) -> XList {
    XList {
        id: l.id,
        name: l.name,
        description: l.description,
        member_count: l.member_count,
        follower_count: l.follower_count,
        private: l.private,
    }
}

impl From<RawUser> for User {
    fn from(u: RawUser) -> (r: Self) {
        User {
            id: u.id,
            name: u.name,
            username: u.username,
            verified: u.verified,
            description: u.description,
            profile_image_url: u.profile_image_url,
            public_metrics: u.public_metrics,
        }
    }
}

impl vstd::std_specs::convert::FromSpecImpl<RawUser> for User {
    open spec fn obeys_from_spec() -> bool {
        true
    }

    open spec fn from_spec(u: RawUser) -> User {
        user_of(u)
    }
}

impl From<RawMedia> for Media {
    fn from(m: RawMedia) -> (r: Self) {
        Media {
            key: m.media_key,
            kind: m.kind,
            url: m.url,
            preview_url: m.preview_image_url,
            alt_text: m.alt_text,
            variants: m.variants,
        }
    }
}

impl vstd::std_specs::convert::FromSpecImpl<RawMedia> for Media {
    open spec fn obeys_from_spec() -> bool {
        true
    }

    open spec fn from_spec(m: RawMedia) -> Media {
        media_of(m)
    }
}

impl From<RawList> for XList {
    fn from(l: RawList) -> (r: Self) {
        XList {
            id: l.id,
            name: l.name,
            description: l.description,
            member_count: l.member_count,
            follower_count: l.follower_count,
            private: l.private,
        }
    }
}

impl vstd::std_specs::convert::FromSpecImpl<RawList> for XList {
    open spec fn obeys_from_spec() -> bool {
        true
    }

    open spec fn from_spec(l: RawList) -> XList {
        list_of(l)
    }
}


/// The query fields every post request asks for.
pub open spec fn post_field_list() -> Seq<(Seq<char>, Seq<char>)> {
    seq![
        ("tweet.fields"@, "id,text,author_id,created_at,conversation_id,in_reply_to_user_id,lang,public_metrics,attachments,referenced_tweets"@),
        ("expansions"@, "author_id,attachments.media_keys,referenced_tweets.id,referenced_tweets.id.author_id"@),
        ("user.fields"@, "id,name,username,verified,description,profile_image_url,public_metrics"@),
        ("media.fields"@, "media_key,type,url,preview_image_url,alt_text,variants"@),
    ]
}

pub open spec fn fields_view(v: Seq<(&'static str, String)>) -> Seq<(Seq<char>, Seq<char>)> {
    v.map_values(|e: (&'static str, String)| (e.0@, e.1@))
}

/// The query parameters that expand a post request with its authors,
/// attachments and referenced posts.
pub fn post_fields() -> (r: Vec<(&'static str, String)>)
    ensures
        fields_view(r@) == post_field_list(),
{
    let mut v: Vec<(&'static str, String)> = Vec::new();
    v.push(
        (
            "tweet.fields",
            owned(
                "id,text,author_id,created_at,conversation_id,in_reply_to_user_id,lang,public_metrics,attachments,referenced_tweets",
            ),
        ),
    );
    v.push(
        (
            "expansions",
            owned(
                "author_id,attachments.media_keys,referenced_tweets.id,referenced_tweets.id.author_id",
            ),
        ),
    );
    v.push(
        (
            "user.fields",
            owned("id,name,username,verified,description,profile_image_url,public_metrics"),
        ),
    );
    v.push(("media.fields", owned("media_key,type,url,preview_image_url,alt_text,variants")));
    assert(fields_view(v@) =~= post_field_list());
    v
}

/// The query parameters of a user request.
pub fn user_fields() -> (r: Vec<(&'static str, String)>)
    ensures
        fields_view(r@) == seq![
            ("user.fields"@, "id,name,username,verified,description,profile_image_url,public_metrics"@),
        ],
{
    let mut v: Vec<(&'static str, String)> = Vec::new();
    v.push(
        (
            "user.fields",
            owned("id,name,username,verified,description,profile_image_url,public_metrics"),
        ),
    );
    assert(fields_view(v@) =~= seq![
        ("user.fields"@, "id,name,username,verified,description,profile_image_url,public_metrics"@),
    ]);
    v
}

/// The last user with id `id` (a later expansion replaces an earlier one).
pub open spec fn last_user(users: Seq<User>, id: Seq<char>) -> Option<User>
    decreases users.len(),
{
    if users.len() == 0 {
        None
    } else if users.last().id@ == id {
        Some(users.last())
    } else {
        last_user(users.drop_last(), id)
    }
}

/// The last attachment with key `key`.
pub open spec fn last_media(media: Seq<Media>, key: Seq<char>) -> Option<Media>
    decreases media.len(),
{
    if media.len() == 0 {
        None
    } else if media.last().key@ == key {
        Some(media.last())
    } else {
        last_media(media.drop_last(), key)
    }
}

/// The last referenced post with id `id`.
pub open spec fn last_raw(posts: Seq<RawPost>, id: Seq<char>) -> Option<RawPost>
    decreases posts.len(),
{
    if posts.len() == 0 {
        None
    } else if posts.last().id@ == id {
        Some(posts.last())
    } else {
        last_raw(posts.drop_last(), id)
    }
}

/// The first reference of kind `kind`.
pub open spec fn first_ref(refs: Seq<Reference>, kind: Seq<char>) -> Option<Reference>
    decreases refs.len(),
{
    if refs.len() == 0 {
        None
    } else if refs[0].kind@ == kind {
        Some(refs[0])
    } else {
        first_ref(refs.drop_first(), kind)
    }
}

/// The attachments of the keys, in order, skipping keys with no expansion.
pub open spec fn attached(keys: Seq<String>, media: Seq<Media>) -> Seq<MediaValue>
    decreases keys.len(),
{
    if keys.len() == 0 {
        Seq::empty()
    } else {
        let earlier = attached(keys.drop_last(), media);
        match last_media(media, keys.last()@) {
            Some(m) => earlier.push(m@),
            None => earlier,
        }
    }
}

/// The author shown when the response does not expand one.
pub open spec fn is_fallback_author(raw: RawPost, a: User) -> bool {
    &&& a.id@ == match raw.author_id {
        Some(i) => i@,
        None => Seq::<char>::empty(),
    }
    &&& a.name@ == "Unknown"@
    &&& a.username@ == "unknown"@
    &&& !a.verified
    &&& a.description@.len() == 0
    &&& a.profile_image_url is None
    &&& a.public_metrics is None
}

pub open spec fn author_of(raw: RawPost, users: Seq<User>, a: User) -> bool {
    match raw.author_id {
        Some(id) => match last_user(users, id@) {
            Some(u) => a == u,
            None => is_fallback_author(raw, a),
        },
        None => is_fallback_author(raw, a),
    }
}

/// Every field of `p` but the nested posts comes from `raw` and the
/// expansions; `now` stands in for a missing creation time.
pub open spec fn core_converted(
    raw: RawPost,
    users: Seq<User>,
    media: Seq<Media>,
    now: i64,
    p: Post,
) -> bool {
    &&& p.id == raw.id
    &&& p.text == raw.text
    &&& author_of(raw, users, p.author)
    &&& p.created_at == match raw.created_at {
        Some(t) => t,
        None => now,
    }
    &&& p.conversation_id == match raw.conversation_id {
        Some(c) => c,
        None => raw.id,
    }
    &&& p.in_reply_to_user_id == raw.in_reply_to_user_id
    &&& p.metrics == raw.public_metrics
    &&& media_values(p.media@) == match raw.attachments {
        Some(a) => attached(a.media_keys@, media),
        None => Seq::empty(),
    }
    &&& p.language == raw.lang
}

/// The nested post of kind `kind`: the referenced post its first reference
/// of that kind names, converted without further nesting.
pub open spec fn nested_converted(
    raw: RawPost,
    kind: Seq<char>,
    users: Seq<User>,
    media: Seq<Media>,
    refs: Seq<RawPost>,
    now: i64,
    out: Option<Box<Post>>,
) -> bool {
    match first_ref(raw.referenced_tweets@, kind) {
        None => out is None,
        Some(r) => match last_raw(refs, r.id@) {
            None => out is None,
            Some(t) => out matches Some(q) && core_converted(t, users, media, now, *q)
                && q.quoted is None && q.reposted is None,
        },
    }
}

/// `p` is the card for `raw` given the response's expansions.
pub open spec fn post_converted(
    raw: RawPost,
    users: Seq<User>,
    media: Seq<Media>,
    refs: Seq<RawPost>,
    now: i64,
    p: Post,
) -> bool {
    &&& core_converted(raw, users, media, now, p)
    &&& nested_converted(raw, "quoted"@, users, media, refs, now, p.quoted)
    &&& nested_converted(raw, "retweeted"@, users, media, refs, now, p.reposted)
}

fn find_user(users: &Vec<User>, id: &str) -> (r: Option<usize>)
    ensures
        match last_user(users@, id@) {
            Some(u) => r matches Some(i) && i < users@.len() && users@[i as int] == u,
            None => r is None,
        },
{
    let mut i = users.len();
    assert(users@.subrange(0, i as int) =~= users@);
    while i > 0
        invariant
            i <= users@.len(),
            last_user(users@, id@) == last_user(users@.subrange(0, i as int), id@),
        decreases i,
    {
        let ghost sub = users@.subrange(0, i as int);
        assert(sub.drop_last() =~= users@.subrange(0, i - 1));
        if str_eq(users[i - 1].id.as_str(), id) {
            return Some(i - 1);
        }
        i -= 1;
    }
    None
}

fn find_media(media: &Vec<Media>, key: &str) -> (r: Option<usize>)
    ensures
        match last_media(media@, key@) {
            Some(m) => r matches Some(i) && i < media@.len() && media@[i as int] == m,
            None => r is None,
        },
{
    let mut i = media.len();
    assert(media@.subrange(0, i as int) =~= media@);
    while i > 0
        invariant
            i <= media@.len(),
            last_media(media@, key@) == last_media(media@.subrange(0, i as int), key@),
        decreases i,
    {
        let ghost sub = media@.subrange(0, i as int);
        assert(sub.drop_last() =~= media@.subrange(0, i - 1));
        if str_eq(media[i - 1].key.as_str(), key) {
            return Some(i - 1);
        }
        i -= 1;
    }
    None
}

fn find_raw(posts: &Vec<RawPost>, id: &str) -> (r: Option<usize>)
    ensures
        match last_raw(posts@, id@) {
            Some(t) => r matches Some(i) && i < posts@.len() && posts@[i as int] == t,
            None => r is None,
        },
{
    let mut i = posts.len();
    assert(posts@.subrange(0, i as int) =~= posts@);
    while i > 0
        invariant
            i <= posts@.len(),
            last_raw(posts@, id@) == last_raw(posts@.subrange(0, i as int), id@),
        decreases i,
    {
        let ghost sub = posts@.subrange(0, i as int);
        assert(sub.drop_last() =~= posts@.subrange(0, i - 1));
        if str_eq(posts[i - 1].id.as_str(), id) {
            return Some(i - 1);
        }
        i -= 1;
    }
    None
}

fn find_ref(refs: &Vec<Reference>, kind: &str) -> (r: Option<usize>)
    ensures
        match first_ref(refs@, kind@) {
            Some(x) => r matches Some(i) && i < refs@.len() && refs@[i as int] == x,
            None => r is None,
        },
{
    let mut i: usize = 0;
    assert(refs@.subrange(0, refs@.len() as int) =~= refs@);
    while i < refs.len()
        invariant
            i <= refs@.len(),
            first_ref(refs@, kind@) == first_ref(refs@.subrange(i as int, refs@.len() as int), kind@),
        decreases refs@.len() - i,
    {
        let ghost sub = refs@.subrange(i as int, refs@.len() as int);
        assert(sub.drop_first() =~= refs@.subrange(i + 1, refs@.len() as int));
        if str_eq(refs[i].kind.as_str(), kind) {
            return Some(i);
        }
        i += 1;
    }
    None
}

fn attach(keys: &Vec<String>, media: &Vec<Media>) -> (r: Vec<Media>)
    ensures
        media_values(r@) == attached(keys@, media@),
{
    let mut out: Vec<Media> = Vec::new();
    let mut i: usize = 0;
    while i < keys.len()
        invariant
            i <= keys@.len(),
            media_values(out@) == attached(keys@.subrange(0, i as int), media@),
        decreases keys@.len() - i,
    {
        let ghost sub = keys@.subrange(0, i + 1);
        assert(sub.drop_last() =~= keys@.subrange(0, i as int));
        match find_media(media, keys[i].as_str()) {
            Some(j) => {
                let m = media[j].clone();
                let ghost before = out@;
                out.push(m);
                assert(media_values(out@) =~= media_values(before).push(m@));
            },
            None => {},
        }
        i += 1;
    }
    assert(keys@.subrange(0, keys@.len() as int) =~= keys@);
    out
}

fn convert_core(raw: &RawPost, users: &Vec<User>, media: &Vec<Media>, now: i64) -> (r: Post)
    ensures
        core_converted(*raw, users@, media@, now, r),
        r.quoted is None,
        r.reposted is None,
{
    let found = match &raw.author_id {
        Some(id) => find_user(users, id.as_str()),
        None => None,
    };
    let author = match found {
        Some(i) => users[i].clone(),
        None => User {
            id: match &raw.author_id {
                Some(id) => id.clone(),
                None => String::new(),
            },
            name: owned("Unknown"),
            username: owned("unknown"),
            verified: false,
            description: String::new(),
            profile_image_url: None,
            public_metrics: None,
        },
    };
    let attachments = match &raw.attachments {
        Some(a) => attach(&a.media_keys, media),
        None => {
            let v: Vec<Media> = Vec::new();
            assert(media_values(v@) =~= Seq::<MediaValue>::empty());
            v
        },
    };
    Post {
        id: raw.id.clone(),
        text: raw.text.clone(),
        author,
        created_at: match raw.created_at {
            Some(t) => t,
            None => now,
        },
        conversation_id: match &raw.conversation_id {
            Some(c) => c.clone(),
            None => raw.id.clone(),
        },
        in_reply_to_user_id: crate::model::clone_opt_string(&raw.in_reply_to_user_id),
        metrics: raw.public_metrics,
        media: attachments,
        quoted: None,
        reposted: None,
        language: crate::model::clone_opt_string(&raw.lang),
    }
}

fn convert_nested(
    raw: &RawPost,
    kind: &str,
    users: &Vec<User>,
    media: &Vec<Media>,
    refs: &Vec<RawPost>,
    now: i64,
) -> (r: Option<Box<Post>>)
    ensures
        nested_converted(*raw, kind@, users@, media@, refs@, now, r),
{
    match find_ref(&raw.referenced_tweets, kind) {
        None => None,
        Some(i) => match find_raw(refs, raw.referenced_tweets[i].id.as_str()) {
            None => None,
            Some(j) => Some(Box::new(convert_core(&refs[j], users, media, now))),
        },
    }
}

/// The card for `raw`, given the response's expanded users, attachments and
/// referenced posts; `now` stands in for a missing creation time.
pub fn convert_post(
    raw: &RawPost,
    users: &Vec<User>,
    media: &Vec<Media>,
    refs: &Vec<RawPost>,
    now: i64,
) -> (r: Post)
    ensures
        post_converted(*raw, users@, media@, refs@, now, r),
{
    let mut p = convert_core(raw, users, media, now);
    p.quoted = convert_nested(raw, "quoted", users, media, refs, now);
    p.reposted = convert_nested(raw, "retweeted", users, media, refs, now);
    p
}


pub open spec fn included_users(inc: Option<Includes>) -> Seq<User> {
    match inc {
        Some(i) => i.users@.map_values(|u: RawUser| user_of(u)),
        None => Seq::empty(),
    }
}

pub open spec fn included_media(inc: Option<Includes>) -> Seq<Media> {
    match inc {
        Some(i) => i.media@.map_values(|m: RawMedia| media_of(m)),
        None => Seq::empty(),
    }
}

pub open spec fn included_posts(inc: Option<Includes>) -> Seq<RawPost> {
    match inc {
        Some(i) => i.tweets@,
        None => Seq::empty(),
    }
}

fn users_from(raw: Vec<RawUser>) -> (r: Vec<User>)
    ensures
        r@ == raw@.map_values(|u: RawUser| user_of(u)),
{
    let mut rest = raw;
    let ghost orig = rest@;
    let n = rest.len();
    let mut out: Vec<User> = Vec::new();
    let mut i: usize = 0;
    while rest.len() > 0
        invariant
            n == orig.len(),
            i + rest@.len() == n,
            rest@ == orig.subrange(i as int, n as int),
            out@ == orig.subrange(0, i as int).map_values(|u: RawUser| user_of(u)),
        decreases rest@.len(),
    {
        let u = rest.remove(0);
        out.push(User::from(u));
        i += 1;
        assert(out@ =~= orig.subrange(0, i as int).map_values(|u: RawUser| user_of(u)));
        assert(rest@ =~= orig.subrange(i as int, n as int));
    }
    assert(orig.subrange(0, n as int) =~= orig);
    out
}

fn media_from(raw: Vec<RawMedia>) -> (r: Vec<Media>)
    ensures
        r@ == raw@.map_values(|m: RawMedia| media_of(m)),
{
    let mut rest = raw;
    let ghost orig = rest@;
    let n = rest.len();
    let mut out: Vec<Media> = Vec::new();
    let mut i: usize = 0;
    while rest.len() > 0
        invariant
            n == orig.len(),
            i + rest@.len() == n,
            rest@ == orig.subrange(i as int, n as int),
            out@ == orig.subrange(0, i as int).map_values(|m: RawMedia| media_of(m)),
        decreases rest@.len(),
    {
        let m = rest.remove(0);
        out.push(Media::from(m));
        i += 1;
        assert(out@ =~= orig.subrange(0, i as int).map_values(|m: RawMedia| media_of(m)));
        assert(rest@ =~= orig.subrange(i as int, n as int));
    }
    assert(orig.subrange(0, n as int) =~= orig);
    out
}

impl ApiResponse<Vec<RawPost>> {
    /// The page of cards this response describes, with each post's author,
    /// attachments and quoted or retweeted post looked up among the
    /// expansions; `now` stands in for a missing creation time.
    pub fn into_posts(self, now: i64) -> (r: Page<Post>)
        ensures
            r.next_token == match self.meta {
                Some(m) => m.next_token,
                None => None,
            },
            r.items@.len() == match self.data {
                Some(d) => d@.len(),
                None => 0,
            },
            forall|i: int|
                0 <= i < r.items@.len() ==> post_converted(
                    self.data->0@[i],
                    included_users(self.includes),
                    included_media(self.includes),
                    included_posts(self.includes),
                    now,
                    #[trigger] r.items@[i],
                ),
    {
        let ApiResponse { data, includes, meta } = self;
        let (users, media, refs) = match includes {
            Some(inc) => {
                let Includes { users, media, tweets } = inc;
                (users_from(users), media_from(media), tweets)
            },
            None => (Vec::new(), Vec::new(), Vec::new()),
        };
        assert(users@ == included_users(includes));
        assert(media@ == included_media(includes));
        assert(refs@ == included_posts(includes));
        let data = match data {
            Some(d) => d,
            None => Vec::new(),
        };
        let mut items: Vec<Post> = Vec::new();
        let mut i: usize = 0;
        while i < data.len()
            invariant
                i <= data@.len(),
                items@.len() == i,
                forall|k: int|
                    0 <= k < i ==> post_converted(
                        data@[k],
                        users@,
                        media@,
                        refs@,
                        now,
                        #[trigger] items@[k],
                    ),
            decreases data@.len() - i,
        {
            items.push(convert_post(&data[i], &users, &media, &refs, now));
            i += 1;
        }
        Page {
            items,
            next_token: match meta {
                Some(m) => m.next_token,
                None => None,
            },
        }
    }
}


/// `sorted` with `p` placed after every post no newer than it.
pub open spec fn insert_by_time(sorted: Seq<Post>, p: Post) -> Seq<Post>
    decreases sorted.len(),
{
    if sorted.len() == 0 {
        seq![p]
    } else if sorted.last().created_at <= p.created_at {
        sorted.push(p)
    } else {
        insert_by_time(sorted.drop_last(), p).push(sorted.last())
    }
}

/// `s` in creation order; posts created at the same instant keep their
/// order.
pub open spec fn sorted_by_time(s: Seq<Post>) -> Seq<Post>
    decreases s.len(),
{
    if s.len() == 0 {
        s
    } else {
        insert_by_time(sorted_by_time(s.drop_last()), s.last())
    }
}

pub open spec fn oldest_first(s: Seq<Post>) -> bool {
    forall|i: int, j: int| 0 <= i < j < s.len() ==> s[i].created_at <= s[j].created_at
}

proof fn lemma_insert_at(s: Seq<Post>, p: Post, j: int)
    requires
        0 <= j <= s.len(),
        forall|k: int| j <= k < s.len() ==> s[k].created_at > p.created_at,
        j == 0 || s[j - 1].created_at <= p.created_at,
    ensures
        insert_by_time(s, p) == s.insert(j, p),
    decreases s.len(),
{
    if s.len() == 0 {
        assert(s.insert(0, p) =~= seq![p]);
    } else if s.last().created_at <= p.created_at {
        assert(j == s.len());
        assert(s.insert(j, p) =~= s.push(p));
    } else {
        lemma_insert_at(s.drop_last(), p, j);
        assert(s.drop_last().insert(j, p).push(s.last()) =~= s.insert(j, p));
    }
}

proof fn lemma_insert_sorted(s: Seq<Post>, p: Post)
    requires
        oldest_first(s),
    ensures
        oldest_first(insert_by_time(s, p)),
        insert_by_time(s, p).len() == s.len() + 1,
        forall|k: int|
            0 <= k < insert_by_time(s, p).len() ==> #[trigger] insert_by_time(s, p)[k] == p
                || s.contains(insert_by_time(s, p)[k]),
    decreases s.len(),
{
    if s.len() == 0 {
    } else if s.last().created_at <= p.created_at {
        let t = s.push(p);
        assert forall|k: int| 0 <= k < t.len() implies #[trigger] t[k] == p || s.contains(t[k]) by {
            if k < s.len() {
                assert(t[k] == s[k]);
            }
        }
    } else {
        let r = s.drop_last();
        assert(oldest_first(r));
        lemma_insert_sorted(r, p);
        let t0 = insert_by_time(r, p);
        let t = t0.push(s.last());
        assert forall|k: int| 0 <= k < t0.len() implies t0[k].created_at <= s.last().created_at by {
            if t0[k] != p {
                assert(r.contains(t0[k]));
                let m = choose|m: int| 0 <= m < r.len() && r[m] == t0[k];
                assert(s[m] == r[m]);
            }
        }
        assert forall|k: int| 0 <= k < t.len() implies #[trigger] t[k] == p || s.contains(t[k]) by {
            if k < t0.len() {
                assert(t[k] == t0[k]);
                if t0[k] != p {
                    assert(r.contains(t0[k]));
                    let m = choose|m: int| 0 <= m < r.len() && r[m] == t0[k];
                    assert(s[m] == r[m]);
                }
            } else {
                assert(s[s.len() - 1] == t[k]);
            }
        }
    }
}

/// A thread read in creation order is oldest first and keeps every post.
pub proof fn law_threads_read_oldest_first(s: Seq<Post>)
    ensures
        oldest_first(sorted_by_time(s)),
        sorted_by_time(s).len() == s.len(),
    decreases s.len(),
{
    if s.len() > 0 {
        law_threads_read_oldest_first(s.drop_last());
        lemma_insert_sorted(sorted_by_time(s.drop_last()), s.last());
    }
}

/// The replies of a thread in creation order (a stable sort, as the search
/// the thread comes from is newest first).
pub fn sort_thread(posts: Vec<Post>) -> (r: Vec<Post>)
    ensures
        r@ == sorted_by_time(posts@),
{
    let mut rest = posts;
    let ghost orig = rest@;
    let n = rest.len();
    let mut out: Vec<Post> = Vec::new();
    let mut i: usize = 0;
    while rest.len() > 0
        invariant
            n == orig.len(),
            i + rest@.len() == n,
            rest@ == orig.subrange(i as int, n as int),
            out@ == sorted_by_time(orig.subrange(0, i as int)),
        decreases rest@.len(),
    {
        let p = rest.remove(0);
        proof {
            assert(orig.subrange(0, i + 1).drop_last() =~= orig.subrange(0, i as int));
            assert(orig.subrange(0, i + 1).last() == p);
            law_threads_read_oldest_first(orig.subrange(0, i as int));
        }
        let mut j = out.len();
        while j > 0 && out[j - 1].created_at > p.created_at
            invariant
                j <= out@.len(),
                forall|k: int| j <= k < out@.len() ==> out@[k].created_at > p.created_at,
            decreases j,
        {
            j -= 1;
        }
        proof {
            lemma_insert_at(out@, p, j as int);
        }
        out.insert(j, p);
        i += 1;
        assert(rest@ =~= orig.subrange(i as int, n as int));
    }
    assert(orig.subrange(0, n as int) =~= orig);
    out
}


/// The query parameters of a post request: its own, the expansion fields,
/// and the pagination token when continuing.
pub fn paged_params(params: Vec<(&'static str, String)>, next: Option<&str>) -> (r: Vec<
    (&'static str, String),
>)
    ensures
        fields_view(r@) == fields_view(params@) + post_field_list() + match next {
            Some(t) => seq![("pagination_token"@, t@)],
            None => Seq::empty(),
        },
{
    let mut r = params;
    let ghost start = fields_view(r@);
    let mut fields = post_fields();
    let ghost added = fields_view(fields@);
    r.append(&mut fields);
    assert(fields_view(r@) =~= start + added);
    match next {
        Some(t) => {
            let ghost before = fields_view(r@);
            r.push(("pagination_token", owned(t)));
            assert(fields_view(r@) =~= before + seq![("pagination_token"@, t@)]);
        },
        None => {
            assert(fields_view(r@) =~= start + post_field_list() + Seq::empty());
        },
    }
    r
}

/// The search the reader runs for `query`: reposts are left out.
pub fn search_query(query: &str) -> (r: String)
    ensures
        r@ == query@ + " -is:retweet"@,
{
    crate::text::concat2(query, " -is:retweet")
}

/// The search that finds a conversation's posts.
pub fn thread_query(conversation_id: &str) -> (r: String)
    ensures
        r@ == "conversation_id:"@ + conversation_id@,
{
    crate::text::concat2("conversation_id:", conversation_id)
}

/// `s` without its leading `@` signs.
pub open spec fn without_at(s: Seq<char>) -> Seq<char>
    decreases s.len(),
{
    if s.len() > 0 && s[0] == '@' {
        without_at(s.drop_first())
    } else {
        s
    }
}

/// The path that looks up an account by handle (leading `@` signs are
/// ignored).
pub fn user_lookup_path(username: &str) -> (r: String)
    ensures
        r@ == "users/by/username/"@ + without_at(username@),
{
    let v = crate::text::chars_of(username);
    let mut k: usize = 0;
    assert(v@.subrange(0, v@.len() as int) =~= v@);
    while k < v.len() && v[k] == '@'
        invariant
            k <= v@.len(),
            without_at(v@) == without_at(v@.subrange(k as int, v@.len() as int)),
        decreases v@.len() - k,
    {
        assert(v@.subrange(k as int, v@.len() as int).drop_first() =~= v@.subrange(
            k + 1,
            v@.len() as int,
        ));
        k += 1;
    }
    let mut rest: Vec<char> = Vec::new();
    let mut i = k;
    while i < v.len()
        invariant
            k <= i <= v@.len(),
            rest@ == v@.subrange(k as int, i as int),
        decreases v@.len() - i,
    {
        rest.push(v[i]);
        i += 1;
        assert(rest@ =~= v@.subrange(k as int, i as int));
    }
    let mut r = owned("users/by/username/");
    crate::text::push_chars(&mut r, &rest);
    r
}

/// The detail shown when the API refuses a request: the message it gave, or
/// the first 240 characters of the body.
pub fn error_detail(detail: Option<String>, body: &str) -> (r: String)
    ensures
        r@ == match detail {
            Some(d) => d@,
            None => if body@.len() <= 240 {
                body@
            } else {
                body@.subrange(0, 240)
            },
        },
{
    match detail {
        Some(d) => d,
        None => {
            let v = crate::text::chars_of(body);
            let mut out: Vec<char> = Vec::new();
            let mut i: usize = 0;
            while i < v.len() && i < 240
                invariant
                    i <= v@.len(),
                    i <= 240,
                    out@ == v@.subrange(0, i as int),
                decreases v@.len() - i,
            {
                out.push(v[i]);
                i += 1;
                assert(out@ =~= v@.subrange(0, i as int));
            }
            assert(v@.len() <= 240 ==> v@.subrange(0, v@.len() as int) =~= v@);
            crate::text::string_of(&out)
        },
    }
}

} // verus!
