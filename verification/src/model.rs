//! The data the reader shows: users, posts, media, pages and lists.
use vstd::prelude::*;
use crate::text::owned;

verus! {

/// An account as the timelines show it.
#[derive(Debug)]
pub struct User {
    pub id: String,
    pub name: String,
    pub username: String,
    pub verified: bool,
    pub description: String,
    pub profile_image_url: Option<String>,
    pub public_metrics: Option<UserMetrics>,
}

#[derive(Clone, Copy, Debug, PartialEq, Eq, Structural)]
pub struct UserMetrics {
    pub followers_count: u64,
    pub following_count: u64,
    pub tweet_count: u64,
}

#[derive(Clone, Copy, Debug, PartialEq, Eq, Structural)]
pub struct PostMetrics {
    pub reply_count: u64,
    pub retweet_count: u64,
    pub like_count: u64,
    pub quote_count: u64,
    pub bookmark_count: Option<u64>,
    pub impression_count: Option<u64>,
}

#[derive(Clone, Copy, Debug, PartialEq, Eq, Structural)]
pub enum MediaKind {
    Photo,
    Video,
    AnimatedGif,
}

#[derive(Debug)]
pub struct Media {
    pub key: String,
    pub kind: MediaKind,
    pub url: Option<String>,
    pub preview_url: Option<String>,
    pub alt_text: Option<String>,
    pub variants: Vec<MediaVariant>,
}

#[derive(Debug)]
pub struct MediaVariant {
    pub url: String,
    pub bit_rate: Option<u64>,
    pub content_type: Option<String>,
}

/// A post. `created_at` is the creation instant in milliseconds since the Unix
/// epoch.
#[derive(Debug)]
pub struct Post {
    pub id: String,
    pub text: String,
    pub author: User,
    pub created_at: i64,
    pub conversation_id: String,
    pub in_reply_to_user_id: Option<String>,
    pub metrics: PostMetrics,
    pub media: Vec<Media>,
    pub quoted: Option<Box<Post>>,
    pub reposted: Option<Box<Post>>,
    pub language: Option<String>,
}

/// One page of a paginated timeline.
#[derive(Debug)]
pub struct Page<T> {
    pub items: Vec<T>,
    pub next_token: Option<String>,
}

#[derive(Debug)]
pub struct XList {
    pub id: String,
    pub name: String,
    pub description: String,
    pub member_count: Option<u64>,
    pub follower_count: Option<u64>,
    pub private: bool,
}

#[derive(Clone, Copy, Debug, PartialEq, Eq, Structural)]
pub enum FeedKind {
    Following,
    ForYou,
}

/// The value of a media attachment, with its variants as a sequence.
pub struct MediaValue {
    pub key: String,
    pub kind: MediaKind,
    pub url: Option<String>,
    pub preview_url: Option<String>,
    pub alt_text: Option<String>,
    pub variants: Seq<MediaVariant>,
}

/// The value of a post, with its attachments as a sequence of values.
pub struct PostValue {
    pub id: String,
    pub text: String,
    pub author: User,
    pub created_at: i64,
    pub conversation_id: String,
    pub in_reply_to_user_id: Option<String>,
    pub metrics: PostMetrics,
    pub media: Seq<MediaValue>,
    pub quoted: Option<Box<PostValue>>,
    pub reposted: Option<Box<PostValue>>,
    pub language: Option<String>,
}

impl View for Media {
    type V = MediaValue;

    open spec fn view(&self) -> MediaValue {
        MediaValue {
            key: self.key,
            kind: self.kind,
            url: self.url,
            preview_url: self.preview_url,
            alt_text: self.alt_text,
            variants: self.variants@,
        }
    }
}

pub open spec fn media_values(s: Seq<Media>) -> Seq<MediaValue> {
    s.map_values(|m: Media| m@)
}

pub open spec fn post_value(p: Post) -> PostValue
    decreases p,
{
    PostValue {
        id: p.id,
        text: p.text,
        author: p.author,
        created_at: p.created_at,
        conversation_id: p.conversation_id,
        in_reply_to_user_id: p.in_reply_to_user_id,
        metrics: p.metrics,
        media: media_values(p.media@),
        quoted: match p.quoted {
            Some(q) => Some(Box::new(post_value(*q))),
            None => None,
        },
        reposted: match p.reposted {
            Some(q) => Some(Box::new(post_value(*q))),
            None => None,
        },
        language: p.language,
    }
}

impl View for Post {
    type V = PostValue;

    open spec fn view(&self) -> PostValue {
        post_value(*self)
    }
}

/// The values of a sequence of posts.
pub open spec fn post_values(s: Seq<Post>) -> Seq<PostValue> {
    s.map_values(|p: Post| p@)
}

/// The ids of a sequence of posts.
pub open spec fn post_ids(s: Seq<Post>) -> Seq<Seq<char>> {
    s.map_values(|p: Post| p.id@)
}

pub fn clone_opt_string(s: &Option<String>) -> (r: Option<String>)
    ensures
        r == *s,
{
    match s {
        Some(v) => Some(v.clone()),
        None => None,
    }
}

impl Clone for User {
    fn clone(&self) -> (r: Self)
        ensures
            r == *self,
    {
        User {
            id: self.id.clone(),
            name: self.name.clone(),
            username: self.username.clone(),
            verified: self.verified,
            description: self.description.clone(),
            profile_image_url: clone_opt_string(&self.profile_image_url),
            public_metrics: self.public_metrics,
        }
    }
}

impl Clone for MediaVariant {
    fn clone(&self) -> (r: Self)
        ensures
            r == *self,
    {
        MediaVariant {
            url: self.url.clone(),
            bit_rate: self.bit_rate,
            content_type: clone_opt_string(&self.content_type),
        }
    }
}

impl Clone for XList {
    fn clone(&self) -> (r: Self)
        ensures
            r == *self,
    {
        XList {
            id: self.id.clone(),
            name: self.name.clone(),
            description: self.description.clone(),
            member_count: self.member_count,
            follower_count: self.follower_count,
            private: self.private,
        }
    }
}

pub fn clone_variants(v: &Vec<MediaVariant>) -> (r: Vec<MediaVariant>)
    ensures
        r@ == v@,
{
    let mut r: Vec<MediaVariant> = Vec::new();
    let mut i: usize = 0;
    while i < v.len()
        invariant
            i <= v.len(),
            r@ == v@.subrange(0, i as int),
        decreases v.len() - i,
    {
        r.push(v[i].clone());
        i += 1;
        assert(r@ =~= v@.subrange(0, i as int));
    }
    assert(v@.subrange(0, v.len() as int) =~= v@);
    r
}

impl Clone for Media {
    fn clone(&self) -> (r: Self)
        ensures
            r@ == self@,
    {
        Media {
            key: self.key.clone(),
            kind: self.kind,
            url: clone_opt_string(&self.url),
            preview_url: clone_opt_string(&self.preview_url),
            alt_text: clone_opt_string(&self.alt_text),
            variants: clone_variants(&self.variants),
        }
    }
}

pub fn clone_media(v: &Vec<Media>) -> (r: Vec<Media>)
    ensures
        media_values(r@) == media_values(v@),
{
    let mut r: Vec<Media> = Vec::new();
    let mut i: usize = 0;
    while i < v.len()
        invariant
            i <= v.len(),
            r@.len() == i,
            forall|j: int| 0 <= j < i ==> #[trigger] r@[j]@ == v@[j]@,
        decreases v.len() - i,
    {
        r.push(v[i].clone());
        i += 1;
    }
    assert(media_values(r@) =~= media_values(v@));
    r
}

impl Clone for Post {
    fn clone(&self) -> (r: Self)
        ensures
            r@ == self@,
        decreases self,
    {
        let quoted = match &self.quoted {
            Some(q) => Some(Box::new((**q).clone())),
            None => None,
        };
        let reposted = match &self.reposted {
            Some(q) => Some(Box::new((**q).clone())),
            None => None,
        };
        Post {
            id: self.id.clone(),
            text: self.text.clone(),
            author: self.author.clone(),
            created_at: self.created_at,
            conversation_id: self.conversation_id.clone(),
            in_reply_to_user_id: clone_opt_string(&self.in_reply_to_user_id),
            metrics: self.metrics,
            media: clone_media(&self.media),
            quoted,
            reposted,
            language: clone_opt_string(&self.language),
        }
    }
}

/// A copy of a sequence of posts.
pub fn clone_posts(v: &Vec<Post>) -> (r: Vec<Post>)
    ensures
        post_values(r@) == post_values(v@),
        post_ids(r@) == post_ids(v@),
        r@.len() == v@.len(),
{
    let mut r: Vec<Post> = Vec::new();
    let mut i: usize = 0;
    while i < v.len()
        invariant
            i <= v.len(),
            r@.len() == i,
            forall|j: int| 0 <= j < i ==> #[trigger] r@[j]@ == v@[j]@,
            forall|j: int| 0 <= j < i ==> #[trigger] r@[j].id == v@[j].id,
        decreases v.len() - i,
    {
        let c = v[i].clone();
        assert(c.id == v@[i as int].id);
        r.push(c);
        i += 1;
    }
    assert(post_values(r@) =~= post_values(v@));
    assert(post_ids(r@) =~= post_ids(v@));
    r
}

/// A copy of a sequence of lists.
pub fn clone_lists(v: &Vec<XList>) -> (r: Vec<XList>)
    ensures
        r@ == v@,
{
    let mut r: Vec<XList> = Vec::new();
    let mut i: usize = 0;
    while i < v.len()
        invariant
            i <= v.len(),
            r@ == v@.subrange(0, i as int),
        decreases v.len() - i,
    {
        r.push(v[i].clone());
        i += 1;
        assert(r@ =~= v@.subrange(0, i as int));
    }
    assert(v@.subrange(0, v.len() as int) =~= v@);
    r
}

impl Default for UserMetrics {
    fn default() -> (r: Self)
        ensures
            r.followers_count == 0 && r.following_count == 0 && r.tweet_count == 0,
    {
        UserMetrics { followers_count: 0, following_count: 0, tweet_count: 0 }
    }
}

impl Default for PostMetrics {
    fn default() -> (r: Self)
        ensures
            r == (PostMetrics {
                reply_count: 0,
                retweet_count: 0,
                like_count: 0,
                quote_count: 0,
                bookmark_count: None,
                impression_count: None,
            }),
    {
        PostMetrics {
            reply_count: 0,
            retweet_count: 0,
            like_count: 0,
            quote_count: 0,
            bookmark_count: None,
            impression_count: None,
        }
    }
}

impl Default for User {
    fn default() -> (r: Self)
        ensures
            r.id@ == Seq::<char>::empty(),
            r.name@ == Seq::<char>::empty(),
            r.username@ == Seq::<char>::empty(),
            !r.verified,
            r.description@ == Seq::<char>::empty(),
            r.profile_image_url is None,
            r.public_metrics is None,
    {
        User {
            id: String::new(),
            name: String::new(),
            username: String::new(),
            verified: false,
            description: String::new(),
            profile_image_url: None,
            public_metrics: None,
        }
    }
}

impl Default for XList {
    fn default() -> (r: Self)
        ensures
            r.id@ == Seq::<char>::empty(),
            r.name@ == Seq::<char>::empty(),
            r.description@ == Seq::<char>::empty(),
            r.member_count is None,
            r.follower_count is None,
            !r.private,
    {
        XList {
            id: String::new(),
            name: String::new(),
            description: String::new(),
            member_count: None,
            follower_count: None,
            private: false,
        }
    }
}

impl Default for FeedKind {
    fn default() -> (r: Self)
        ensures
            r == FeedKind::Following,
    {
        FeedKind::Following
    }
}

impl<T> Page<T> {
    /// An empty page with no continuation.
    pub fn empty() -> (r: Self)
        ensures
            r.items@.len() == 0,
            r.next_token is None,
    {
        Page { items: Vec::new(), next_token: None }
    }
}

pub open spec fn permalink_of(username: Seq<char>, id: Seq<char>) -> Seq<char> {
    "https://x.com/"@ + username + "/status/"@ + id
}

impl Post {
    /// The post's canonical web address.
    pub fn permalink(&self) -> (r: String)
        ensures
            r@ == permalink_of(self.author.username@, self.id@),
    {
        let mut r = owned("https://x.com/");
        r.append(self.author.username.as_str());
        r.append("/status/");
        r.append(self.id.as_str());
        r
    }
}

} // verus!
