//! The offline sample source: a fixed cast of accounts and posts, and the
//! queries the reader runs against it.
use vstd::prelude::*;
use crate::api::without_at;
use crate::model::{
    clone_opt_string, post_values, Media, MediaKind, Page, Post, PostMetrics, PostValue, User,
    UserMetrics, XList,
};
use crate::text::{
    ascii_lower_seq, chars_of, concat2, contains_chars, contains_seq, lower_ascii_chars, owned,
    seq_eq, str_eq,
};

verus! {

/// Milliseconds between the Unix epoch and 2026-08-10 06:00 UTC, the demo's
/// "now".
pub const DEMO_BASE_MS: i64 = 1786341600000;

pub const MINUTE_MS: i64 = 60000;

pub const HOUR_MS: i64 = 3600000;

pub const DAY_MS: i64 = 86400000;

/// A sample account.
pub fn user(
    id: &str,
    name: &str,
    username: &str,
    description: &str,
    followers: u64,
    following: u64,
) -> (r: User)
    ensures
        r.id@ == id@,
        r.name@ == name@,
        r.username@ == username@,
        r.verified == (followers > 100000),
        r.description@ == description@,
        r.profile_image_url is None,
        r.public_metrics == Some(
            UserMetrics {
                followers_count: followers,
                following_count: following,
                tweet_count: 1240,
            },
        ),
{
    User {
        id: owned(id),
        name: owned(name),
        username: owned(username),
        verified: followers > 100000,
        description: owned(description),
        profile_image_url: None,
        public_metrics: Some(
            UserMetrics { followers_count: followers, following_count: following, tweet_count: 1240 },
        ),
    }
}

/// A sample post that starts its own conversation.
pub fn post(
    id: &str,
    text: &str,
    author: User,
    created_at: i64,
    replies: u64,
    reposts: u64,
    likes: u64,
) -> (r: Post)
    requires
        likes * 21 <= u64::MAX,
    ensures
        r.id@ == id@,
        r.text@ == text@,
        r.author == author,
        r.created_at == created_at,
        r.conversation_id@ == id@,
        r.in_reply_to_user_id is None,
        r.metrics == (PostMetrics {
            reply_count: replies,
            retweet_count: reposts,
            like_count: likes,
            quote_count: 0,
            bookmark_count: Some((likes / 9) as u64),
            impression_count: Some((likes * 21) as u64),
        }),
        r.media@.len() == 0,
        r.quoted is None,
        r.reposted is None,
        r.language matches Some(l) && l@ == "en"@,
{
    Post {
        id: owned(id),
        text: owned(text),
        author,
        created_at,
        conversation_id: owned(id),
        in_reply_to_user_id: None,
        metrics: PostMetrics {
            reply_count: replies,
            retweet_count: reposts,
            like_count: likes,
            quote_count: 0,
            bookmark_count: Some(likes / 9),
            impression_count: Some(likes * 21),
        },
        media: Vec::new(),
        quoted: None,
        reposted: None,
        language: Some(owned("en")),
    }
}

/// The sample source: its timeline and the account it is signed in as.
#[derive(Debug)]
pub struct DemoApi {
    pub posts: Vec<Post>,
    pub me: User,
}

/// The ids of the sample timeline, newest first.
pub open spec fn demo_ids() -> Seq<Seq<char>> {
    seq!["100"@, "101"@, "102"@, "103"@, "104"@, "105"@]
}

/// The creation times of the sample timeline.
pub open spec fn demo_times() -> Seq<i64> {
    seq![
        DEMO_BASE_MS,
        (DEMO_BASE_MS - 17 * MINUTE_MS) as i64,
        (DEMO_BASE_MS - 43 * MINUTE_MS) as i64,
        (DEMO_BASE_MS - HOUR_MS) as i64,
        (DEMO_BASE_MS - 2 * HOUR_MS) as i64,
        (DEMO_BASE_MS - 3 * HOUR_MS) as i64,
    ]
}

/// The authors' handles of the sample timeline.
pub open spec fn demo_authors() -> Seq<Seq<char>> {
    seq!["ada_codes"@, "kainaka"@, "orbital"@, "sam_builds"@, "ada_codes"@, "kainaka"@]
}

/// The texts of the sample timeline.
pub open spec fn demo_texts() -> Seq<Seq<char>> {
    seq![
        "I replaced my morning browser scroll with a terminal feed for a week. The surprise wasn't the speed \u{2014} it was how much calmer plain text made everything feel."@,
        "A tiny design rule that keeps paying rent:\n\nIf secondary information can be revealed on intent, don't make everyone parse it by default."@,
        "Sunrise crossing the terminator over the Pacific. No filter, just an absurdly beautiful planet."@,
        "shipped: keyboard-only navigation, offline cache, and image previews that degrade gracefully all the way down to Unicode blocks.\n\nThe boring compatibility work is usually the feature."@,
        "What are you building this week?"@,
        "Hot take: software can be both powerful and quiet."@,
    ]
}

/// The reply, repost and like counts of the sample timeline.
pub open spec fn demo_counts() -> Seq<(u64, u64, u64)> {
    seq![(38, 226, 2401), (91, 804, 9300), (1200, 8600, 79000), (46, 119, 1800), (412, 97, 1200), (188, 1600, 20100)]
}

/// No sample post is due to be answered past the end of time.
pub open spec fn replies_fit(s: Seq<Post>) -> bool {
    forall|i: int| 0 <= i < s.len() ==> s[i].created_at <= i64::MAX - 21 * MINUTE_MS
}

/// `u` is the sample account with these details, as `user` builds it.
pub open spec fn user_is(
    u: User,
    id: Seq<char>,
    name: Seq<char>,
    username: Seq<char>,
    description: Seq<char>,
    followers: u64,
    following: u64,
) -> bool {
    &&& u.id@ == id
    &&& u.name@ == name
    &&& u.username@ == username
    &&& u.verified == (followers > 100000)
    &&& u.description@ == description
    &&& u.profile_image_url is None
    &&& u.public_metrics == Some(
        UserMetrics { followers_count: followers, following_count: following, tweet_count: 1240 },
    )
}

/// Sample account `k` (1 to 4) of the timeline.
pub open spec fn sample_author(u: User, k: int) -> bool {
    if k == 1 {
        user_is(u, "1"@, "Ada"@, "ada_codes"@, "Systems, type theory, and good coffee."@, 48200, 391)
    } else if k == 2 {
        user_is(
            u,
            "2"@,
            "Kai Nakamura"@,
            "kainaka"@,
            "Designer. I make complicated things feel inevitable."@,
            126000,
            744,
        )
    } else if k == 3 {
        user_is(u, "3"@, "Orbital"@, "orbital"@, "Earth, from a little higher up."@, 9300000, 42)
    } else {
        user_is(u, "4"@, "Sam Rivera"@, "sam_builds"@, "Indie developer. Shipping in public."@, 8900, 512)
    }
}

/// Which sample account wrote each post of the timeline.
pub open spec fn demo_author_ids() -> Seq<int> {
    seq![1, 2, 3, 4, 1, 2]
}

/// `p` is a sample post with these details, as `post` builds it.
pub open spec fn post_is(
    p: Post,
    id: Seq<char>,
    text: Seq<char>,
    created_at: i64,
    counts: (u64, u64, u64),
) -> bool {
    &&& p.id@ == id
    &&& p.text@ == text
    &&& p.created_at == created_at
    &&& p.conversation_id@ == id
    &&& p.in_reply_to_user_id is None
    &&& p.metrics == (PostMetrics {
        reply_count: counts.0,
        retweet_count: counts.1,
        like_count: counts.2,
        quote_count: 0,
        bookmark_count: Some((counts.2 / 9) as u64),
        impression_count: Some((counts.2 * 21) as u64),
    })
    &&& p.language matches Some(l) && l@ == "en"@
}

/// The sample source as built: its six posts (ids, times, authors, texts
/// and counts), which of them carry a photo, a quote and a repost, and the
/// reader's account.
pub open spec fn is_sample_source(r: DemoApi) -> bool {
    &&& r.posts@.len() == 6
    &&& forall|i: int| 0 <= i < 6 ==> #[trigger] r.posts@[i].id@ == demo_ids()[i]
    &&& forall|i: int| 0 <= i < 6 ==> #[trigger] r.posts@[i].created_at == demo_times()[i]
    &&& forall|i: int| 0 <= i < 6 ==> #[trigger] r.posts@[i].author.username@ == demo_authors()[i]
    &&& forall|i: int| 0 <= i < 6 ==> #[trigger] r.posts@[i].text@ == demo_texts()[i]
    &&& forall|i: int|
        0 <= i < 6 ==> (#[trigger] r.posts@[i]).metrics.reply_count == demo_counts()[i].0
            && r.posts@[i].metrics.retweet_count == demo_counts()[i].1
            && r.posts@[i].metrics.like_count == demo_counts()[i].2
    &&& forall|i: int|
        0 <= i < 6 ==> post_is(
            #[trigger] r.posts@[i],
            demo_ids()[i],
            demo_texts()[i],
            demo_times()[i],
            demo_counts()[i],
        ) && sample_author(r.posts@[i].author, demo_author_ids()[i])
    &&& r.posts@[0].media@.len() == 1
    &&& r.posts@[0].media@[0].kind == MediaKind::Photo
    &&& r.posts@[0].media@[0].variants@.len() == 0
    &&& r.posts@[0].media@[0].key@ == "m1"@
    &&& r.posts@[0].media@[0].url matches Some(u) && u@
        == "https://images.unsplash.com/photo-1516321318423-f06f85e504b3?w=1200"@
    &&& r.posts@[0].media@[0].preview_url matches Some(u) && u@ == "demo://terminal-workspace"@
    &&& r.posts@[0].media@[0].alt_text matches Some(t) && t@
        == "A laptop showing a dark terminal beside a cup of coffee"@
    &&& forall|i: int| 0 <= i < 6 && i != 0 ==> (#[trigger] r.posts@[i]).media@.len() == 0
    &&& forall|i: int| 0 <= i < 6 && i != 1 ==> (#[trigger] r.posts@[i]).quoted is None
    &&& forall|i: int| 0 <= i < 6 && i != 4 ==> (#[trigger] r.posts@[i]).reposted is None
    &&& r.posts@[1].quoted matches Some(q) && post_is(
        *q,
        "91"@,
        "The best interface is the one that leaves room for the thing you came to read."@,
        (DEMO_BASE_MS - 4 * HOUR_MS) as i64,
        (214, 3100, 18700),
    ) && sample_author(q.author, 2) && q.media@.len() == 0 && q.quoted is None && q.reposted is None
    &&& r.posts@[4].reposted matches Some(q) && post_is(
        *q,
        "88"@,
        "Public roadmaps are useful. Public momentum is better."@,
        (DEMO_BASE_MS - DAY_MS) as i64,
        (62, 344, 4000),
    ) && sample_author(q.author, 4) && q.media@.len() == 0 && q.quoted is None && q.reposted is None
    &&& user_is(
        r.me,
        "0"@,
        "Terminal Human"@,
        "terminalhuman"@,
        "Building quieter software, one keystroke at a time."@,
        284,
        311,
    )
    &&& replies_fit(r.posts@)
}

impl DemoApi {
    /// The sample timeline: six posts by four accounts (one with a photo,
    /// one quoting and one reposting another post), read by
    /// @terminalhuman.
    pub fn new() -> (r: DemoApi)
        ensures
            is_sample_source(r),
    {
        let me = user(
            "0",
            "Terminal Human",
            "terminalhuman",
            "Building quieter software, one keystroke at a time.",
            284,
            311,
        );
        let ada = user("1", "Ada", "ada_codes", "Systems, type theory, and good coffee.", 48200, 391);
        let kai = user(
            "2",
            "Kai Nakamura",
            "kainaka",
            "Designer. I make complicated things feel inevitable.",
            126000,
            744,
        );
        let orbital = user("3", "Orbital", "orbital", "Earth, from a little higher up.", 9300000, 42);
        let sam = user("4", "Sam Rivera", "sam_builds", "Indie developer. Shipping in public.", 8900, 512);
        let base = DEMO_BASE_MS;
        let quote = post(
            "91",
            "The best interface is the one that leaves room for the thing you came to read.",
            kai.clone(),
            base - 4 * HOUR_MS,
            214,
            3100,
            18700,
        );
        let mut p1 = post(
            "100",
            "I replaced my morning browser scroll with a terminal feed for a week. The surprise wasn't the speed \u{2014} it was how much calmer plain text made everything feel.",
            ada.clone(),
            base,
            38,
            226,
            2401,
        );
        p1.media.push(
            Media {
                key: owned("m1"),
                kind: MediaKind::Photo,
                url: Some(
                    owned("https://images.unsplash.com/photo-1516321318423-f06f85e504b3?w=1200"),
                ),
                preview_url: Some(owned("demo://terminal-workspace")),
                alt_text: Some(owned("A laptop showing a dark terminal beside a cup of coffee")),
                variants: Vec::new(),
            },
        );
        let mut p2 = post(
            "101",
            "A tiny design rule that keeps paying rent:\n\nIf secondary information can be revealed on intent, don't make everyone parse it by default.",
            kai.clone(),
            base - 17 * MINUTE_MS,
            91,
            804,
            9300,
        );
        p2.quoted = Some(Box::new(quote));
        let p3 = post(
            "102",
            "Sunrise crossing the terminator over the Pacific. No filter, just an absurdly beautiful planet.",
            orbital.clone(),
            base - 43 * MINUTE_MS,
            1200,
            8600,
            79000,
        );
        let p4 = post(
            "103",
            "shipped: keyboard-only navigation, offline cache, and image previews that degrade gracefully all the way down to Unicode blocks.\n\nThe boring compatibility work is usually the feature.",
            sam.clone(),
            base - HOUR_MS,
            46,
            119,
            1800,
        );
        let mut p5 = post(
            "104",
            "What are you building this week?",
            ada.clone(),
            base - 2 * HOUR_MS,
            412,
            97,
            1200,
        );
        p5.reposted = Some(
            Box::new(
                post(
                    "88",
                    "Public roadmaps are useful. Public momentum is better.",
                    sam.clone(),
                    base - DAY_MS,
                    62,
                    344,
                    4000,
                ),
            ),
        );
        let p6 = post(
            "105",
            "Hot take: software can be both powerful and quiet.",
            kai.clone(),
            base - 3 * HOUR_MS,
            188,
            1600,
            20100,
        );
        let mut posts: Vec<Post> = Vec::new();
        posts.push(p1);
        posts.push(p2);
        posts.push(p3);
        posts.push(p4);
        posts.push(p5);
        posts.push(p6);
        assert(posts@[0].id@ == demo_ids()[0]);
        DemoApi { posts, me }
    }
}


impl Default for DemoApi {
    fn default() -> (r: DemoApi)
        ensures
            is_sample_source(r),
    {
        DemoApi::new()
    }
}

/// The text `str::to_lowercase` gives (full Unicode lowercasing).
pub uninterp spec fn lowercase(s: Seq<char>) -> Seq<char>;

/// `str::to_lowercase`. The contract names the result: Unicode lowercasing
/// depends on the text alone.
#[verifier::external_body]
fn to_lowercase(s: &str) -> (r: String)
    ensures
        r@ == lowercase(s@),
{
    s.to_lowercase()
}

/// Whether a sample post answers a search for the lowercased query `q`: its
/// text, author name or handle contains it, ignoring case.
pub open spec fn demo_match(p: Post, q: Seq<char>) -> bool {
    ||| contains_seq(lowercase(p.text@), q)
    ||| contains_seq(lowercase(p.author.name@), q)
    ||| contains_seq(lowercase(p.author.username@), q)
}

/// Every second post of `s`, starting at `start`.
pub open spec fn every_other(s: Seq<Post>, start: int) -> Seq<Post> {
    let count = if s.len() > start {
        (s.len() - start + 1) / 2
    } else {
        0
    };
    Seq::new(count as nat, |k: int| s[start + 2 * k])
}

/// The last `n` posts of `s`, newest last becoming first.
pub open spec fn last_reversed(s: Seq<Post>, n: int) -> Seq<Post> {
    let count = if s.len() < n {
        s.len() as int
    } else {
        n
    };
    Seq::new(count as nat, |k: int| s[s.len() - 1 - k])
}

fn contains_lower(haystack: &str, q: &Vec<char>) -> (r: bool)
    ensures
        r == contains_seq(lowercase(haystack@), q@),
{
    let lower = to_lowercase(haystack);
    contains_chars(&chars_of(lower.as_str()), q)
}

fn copy_posts_where_author(posts: &Vec<Post>, user_id: &str) -> (r: Vec<Post>)
    ensures
        post_values(r@) == post_values(posts@.filter(|p: Post| p.author.id@ == user_id@)),
{
    let mut out: Vec<Post> = Vec::new();
    let mut i: usize = 0;
    while i < posts.len()
        invariant
            i <= posts@.len(),
            post_values(out@) == post_values(
                posts@.subrange(0, i as int).filter(|p: Post| p.author.id@ == user_id@),
            ),
        decreases posts@.len() - i,
    {
        proof {
            reveal(Seq::filter);
            assert(posts@.subrange(0, i + 1).drop_last() =~= posts@.subrange(0, i as int));
        }
        let ghost before = out@;
        if str_eq(posts[i].author.id.as_str(), user_id) {
            let c = posts[i].clone();
            out.push(c);
            assert(post_values(out@) =~= post_values(before).push(c@));
            assert(post_values(posts@.subrange(0, i + 1).filter(|p: Post| p.author.id@ == user_id@))
                =~= post_values(
                posts@.subrange(0, i as int).filter(|p: Post| p.author.id@ == user_id@),
            ).push(posts@[i as int]@));
        }
        i += 1;
    }
    assert(posts@.subrange(0, posts@.len() as int) =~= posts@);
    out
}

impl DemoApi {
    /// The signed-in sample account.
    pub fn me(&self) -> (r: User)
        ensures
            r == self.me,
    {
        self.me.clone()
    }

    /// The whole sample timeline; it has no further pages.
    pub fn home(&self) -> (r: Page<Post>)
        ensures
            post_values(r.items@) == post_values(self.posts@),
            r.next_token is None,
    {
        Page { items: crate::model::clone_posts(&self.posts), next_token: None }
    }

    /// The sample posts whose text, author name or handle contains `query`,
    /// ignoring case.
    pub fn search(&self, query: &str) -> (r: Page<Post>)
        ensures
            post_values(r.items@) == post_values(
                self.posts@.filter(|p: Post| demo_match(p, lowercase(query@))),
            ),
            r.next_token is None,
    {
        let q = chars_of(to_lowercase(query).as_str());
        let ghost lq = lowercase(query@);
        let mut out: Vec<Post> = Vec::new();
        let mut i: usize = 0;
        while i < self.posts.len()
            invariant
                i <= self.posts@.len(),
                q@ == lq,
                lq == lowercase(query@),
                post_values(out@) == post_values(
                    self.posts@.subrange(0, i as int).filter(|p: Post| demo_match(p, lq)),
                ),
            decreases self.posts@.len() - i,
        {
            proof {
                reveal(Seq::filter);
                assert(self.posts@.subrange(0, i + 1).drop_last() =~= self.posts@.subrange(
                    0,
                    i as int,
                ));
            }
            let p = &self.posts[i];
            let hit = contains_lower(p.text.as_str(), &q) || contains_lower(
                p.author.name.as_str(),
                &q,
            ) || contains_lower(p.author.username.as_str(), &q);
            let ghost before = out@;
            if hit {
                let c = p.clone();
                out.push(c);
                assert(post_values(out@) =~= post_values(before).push(c@));
                assert(post_values(
                    self.posts@.subrange(0, i + 1).filter(|p: Post| demo_match(p, lq)),
                ) =~= post_values(
                    self.posts@.subrange(0, i as int).filter(|p: Post| demo_match(p, lq)),
                ).push(self.posts@[i as int]@));
            }
            i += 1;
        }
        assert(self.posts@.subrange(0, self.posts@.len() as int) =~= self.posts@);
        Page { items: out, next_token: None }
    }

    fn every_other_from(&self, start: usize) -> (r: Vec<Post>)
        requires
            start <= 1,
        ensures
            post_values(r@) == post_values(every_other(self.posts@, start as int)),
    {
        let mut out: Vec<Post> = Vec::new();
        let n = self.posts.len();
        let count: usize = if n > start {
            (n - start) / 2 + (n - start) % 2
        } else {
            0
        };
        let ghost all = every_other(self.posts@, start as int);
        let mut k: usize = 0;
        while k < count
            invariant
                start <= 1,
                n == self.posts@.len(),
                count == (if n > start {
                    (n - start + 1) / 2
                } else {
                    0
                }),
                all == every_other(self.posts@, start as int),
                k <= count,
                out@.len() == k,
                forall|j: int| 0 <= j < k ==> #[trigger] out@[j]@ == self.posts@[start + 2 * j]@,
            decreases count - k,
        {
            out.push(self.posts[start + 2 * k].clone());
            k += 1;
        }
        assert(out@.len() == all.len());
        assert(post_values(out@) =~= post_values(all));
        out
    }

    /// Every second sample post, starting with the second.
    pub fn bookmarks(&self) -> (r: Page<Post>)
        ensures
            post_values(r.items@) == post_values(every_other(self.posts@, 1)),
            r.next_token is None,
    {
        Page { items: self.every_other_from(1), next_token: None }
    }

    /// The last four sample posts, oldest of them first.
    pub fn likes(&self) -> (r: Page<Post>)
        ensures
            post_values(r.items@) == post_values(last_reversed(self.posts@, 4)),
            r.next_token is None,
    {
        let n = self.posts.len();
        let count = if n < 4 {
            n
        } else {
            4
        };
        let mut out: Vec<Post> = Vec::new();
        let mut k: usize = 0;
        while k < count
            invariant
                n == self.posts@.len(),
                count <= n,
                count == (if n < 4 {
                    n
                } else {
                    4
                }),
                k <= count,
                out@.len() == k,
                forall|j: int| 0 <= j < k ==> #[trigger] out@[j]@ == self.posts@[n - 1 - j]@,
            decreases count - k,
        {
            out.push(self.posts[n - 1 - k].clone());
            k += 1;
        }
        assert(post_values(out@) =~= post_values(last_reversed(self.posts@, 4)));
        Page { items: out, next_token: None }
    }

    /// The sample posts by account `user_id`.
    pub fn user_posts(&self, user_id: &str) -> (r: Page<Post>)
        ensures
            post_values(r.items@) == post_values(
                self.posts@.filter(|p: Post| p.author.id@ == user_id@),
            ),
            r.next_token is None,
    {
        Page { items: copy_posts_where_author(&self.posts, user_id), next_token: None }
    }

    /// The two sample lists.
    pub fn lists(&self) -> (r: Vec<XList>)
        ensures
            r@.len() == 2,
            r@[0].id@ == "l1"@ && r@[0].name@ == "Design & craft"@ && r@[0].member_count == Some(
                42u64,
            ) && r@[0].follower_count == Some(812u64) && !r@[0].private,
            r@[1].id@ == "l2"@ && r@[1].name@ == "Terminal people"@ && r@[1].member_count == Some(
                28u64,
            ) && r@[1].follower_count == Some(309u64) && !r@[1].private,
    {
        let mut v: Vec<XList> = Vec::new();
        v.push(
            XList {
                id: owned("l1"),
                name: owned("Design & craft"),
                description: owned("People sweating the details."),
                member_count: Some(42),
                follower_count: Some(812),
                private: false,
            },
        );
        v.push(
            XList {
                id: owned("l2"),
                name: owned("Terminal people"),
                description: owned("CLIs, TUIs, shells and systems."),
                member_count: Some(28),
                follower_count: Some(309),
                private: false,
            },
        );
        v
    }

    /// The posts of a sample list: "l1" holds every second post from the
    /// second, "l2" every second post from the first.
    pub fn list_posts(&self, list_id: &str) -> (r: Result<Page<Post>, String>)
        ensures
            list_id@ == "l1"@ ==> (r matches Ok(p) && post_values(p.items@) == post_values(
                every_other(self.posts@, 1),
            ) && p.next_token is None),
            list_id@ == "l2"@ ==> (r matches Ok(p) && post_values(p.items@) == post_values(
                every_other(self.posts@, 0),
            ) && p.next_token is None),
            !(list_id@ == "l1"@ || list_id@ == "l2"@) ==> (r matches Err(e) && e@
                == "list not found"@),
    {
        proof {
            reveal_strlit("l1");
            reveal_strlit("l2");
            assert("l1"@[1] != "l2"@[1]);
        }
        if str_eq(list_id, "l1") {
            Ok(Page { items: self.every_other_from(1), next_token: None })
        } else if str_eq(list_id, "l2") {
            Ok(Page { items: self.every_other_from(0), next_token: None })
        } else {
            Err(owned("list not found"))
        }
    }
}


/// The first post of `s` with id `id`.
pub open spec fn find_post(s: Seq<Post>, id: Seq<char>) -> Option<Post>
    decreases s.len(),
{
    if s.len() == 0 {
        None
    } else if s[0].id@ == id {
        Some(s[0])
    } else {
        find_post(s.drop_first(), id)
    }
}

/// The first author among `s` whose handle equals `name`, ignoring ASCII
/// case.
pub open spec fn find_author(s: Seq<Post>, name: Seq<char>) -> Option<User>
    decreases s.len(),
{
    if s.len() == 0 {
        None
    } else if ascii_lower_seq(s[0].author.username@) == ascii_lower_seq(name) {
        Some(s[0].author)
    } else {
        find_author(s.drop_first(), name)
    }
}

/// `p` is sample reply `k` (1 to 3) under `root`, the post with id `id`:
/// two readers answer the root, then its author answers the second.
pub open spec fn reply_card(root: Post, id: Seq<char>, k: int, p: Post) -> bool {
    &&& p.id@ == id + if k == 1 {
        "1"@
    } else if k == 2 {
        "2"@
    } else {
        "3"@
    }
    &&& p.conversation_id == root.conversation_id
    &&& p.text@ == if k == 1 {
        "This is exactly it. Removing the sidebars changed what I actually chose to read."@
    } else if k == 2 {
        "How are you handling media? That's the part that always sends terminal clients back to the browser."@
    } else {
        "Unicode preview in every terminal, native protocols when supported, and one key to open the original. Graceful layers."@
    }
    &&& p.created_at == root.created_at + if k == 1 {
        8 * MINUTE_MS
    } else if k == 2 {
        14 * MINUTE_MS
    } else {
        21 * MINUTE_MS
    }
    &&& p.metrics == (PostMetrics {
        reply_count: if k == 1 { 4 } else if k == 2 { 7 } else { 3 },
        retweet_count: if k == 1 { 9 } else if k == 2 { 3 } else { 8 },
        like_count: if k == 1 { 138 } else if k == 2 { 64 } else { 91 },
        quote_count: 0,
        bookmark_count: Some(if k == 1 { 15 } else if k == 2 { 7 } else { 10 }),
        impression_count: Some(if k == 1 { 2898 } else if k == 2 { 1344 } else { 1911 }),
    })
    &&& p.media@.len() == 0
    &&& p.quoted is None
    &&& p.reposted is None
    &&& if k == 1 {
        user_is(p.author, "5"@, "Mina"@, "minamakes"@, "Product engineer"@, 3200, 201)
            && p.in_reply_to_user_id == Some(root.author.id)
    } else if k == 2 {
        user_is(p.author, "6"@, "Drew"@, "drewcli"@, "Terminal enthusiast"@, 760, 180)
            && p.in_reply_to_user_id == Some(root.author.id)
    } else {
        p.author == root.author && (p.in_reply_to_user_id matches Some(u) && u@ == "6"@)
    }
}

fn find_post_index(posts: &Vec<Post>, id: &str) -> (r: Option<usize>)
    ensures
        match find_post(posts@, id@) {
            Some(p) => r matches Some(i) && i < posts@.len() && posts@[i as int] == p,
            None => r is None,
        },
{
    let mut i: usize = 0;
    assert(posts@.subrange(0, posts@.len() as int) =~= posts@);
    while i < posts.len()
        invariant
            i <= posts@.len(),
            find_post(posts@, id@) == find_post(posts@.subrange(i as int, posts@.len() as int), id@),
        decreases posts@.len() - i,
    {
        assert(posts@.subrange(i as int, posts@.len() as int).drop_first() =~= posts@.subrange(
            i + 1,
            posts@.len() as int,
        ));
        if str_eq(posts[i].id.as_str(), id) {
            return Some(i);
        }
        i += 1;
    }
    None
}

impl DemoApi {
    /// The conversation under the sample post `id`: the post and three
    /// replies; nothing when there is no such post.
    pub fn replies(&self, id: &str) -> (r: Vec<Post>)
        requires
            replies_fit(self.posts@),
        ensures
            match find_post(self.posts@, id@) {
                None => r@.len() == 0,
                Some(root) => {
                    &&& r@.len() == 4
                    &&& r@[0]@ == root@
                    &&& forall|k: int| 1 <= k < 4 ==> reply_card(root, id@, k, #[trigger] r@[k])
                },
            },
    {
        let found = find_post_index(&self.posts, id);
        let i = match found {
            Some(i) => i,
            None => return Vec::new(),
        };
        let root = self.posts[i].clone();
        let base = root.created_at;
        let mut a = post(
            concat2(id, "1").as_str(),
            "This is exactly it. Removing the sidebars changed what I actually chose to read.",
            user("5", "Mina", "minamakes", "Product engineer", 3200, 201),
            base + 8 * MINUTE_MS,
            4,
            9,
            138,
        );
        a.conversation_id = root.conversation_id.clone();
        a.in_reply_to_user_id = Some(root.author.id.clone());
        let mut b = post(
            concat2(id, "2").as_str(),
            "How are you handling media? That's the part that always sends terminal clients back to the browser.",
            user("6", "Drew", "drewcli", "Terminal enthusiast", 760, 180),
            base + 14 * MINUTE_MS,
            7,
            3,
            64,
        );
        b.conversation_id = root.conversation_id.clone();
        b.in_reply_to_user_id = Some(root.author.id.clone());
        let mut c = post(
            concat2(id, "3").as_str(),
            "Unicode preview in every terminal, native protocols when supported, and one key to open the original. Graceful layers.",
            root.author.clone(),
            base + 21 * MINUTE_MS,
            3,
            8,
            91,
        );
        c.conversation_id = root.conversation_id.clone();
        c.in_reply_to_user_id = Some(b.author.id.clone());
        let mut v: Vec<Post> = Vec::new();
        v.push(root);
        v.push(a);
        v.push(b);
        v.push(c);
        v
    }

    /// The replies to the sample post "100", as mentions of the reader.
    pub fn mentions(&self) -> (r: Page<Post>)
        requires
            replies_fit(self.posts@),
        ensures
            match find_post(self.posts@, "100"@) {
                None => r.items@.len() == 0,
                Some(root) => {
                    &&& r.items@.len() == 3
                    &&& forall|k: int|
                        0 <= k < 3 ==> reply_card(root, "100"@, k + 1, #[trigger] r.items@[k])
                },
            },
            r.next_token is None,
    {
        let mut all = self.replies("100");
        if all.len() > 0 {
            all.remove(0);
        }
        Page { items: all, next_token: None }
    }

    /// The sample account with handle `username` (leading `@` signs and ASCII
    /// case ignored), else the reader's own account when the handle is
    /// exactly its own.
    pub fn user_by_username(&self, username: &str) -> (r: Result<User, String>)
        ensures
            match find_author(self.posts@, crate::api::without_at(username@)) {
                Some(u) => r == Ok::<User, String>(u),
                None => if self.me.username@ == username@ {
                    r == Ok::<User, String>(self.me)
                } else {
                    r matches Err(e) && e@ == "user not found"@
                },
            },
    {
        let trimmed = chars_of(crate::api::user_lookup_path(username).as_str());
        let prefix = chars_of("users/by/username/");
        let mut wanted: Vec<char> = Vec::new();
        let mut j = prefix.len();
        assert(prefix@ == "users/by/username/"@);
        assert(trimmed@ == "users/by/username/"@ + without_at(username@));
        while j < trimmed.len()
            invariant
                prefix@.len() <= j <= trimmed@.len(),
                trimmed@ == prefix@ + without_at(username@),
                wanted@ == trimmed@.subrange(prefix@.len() as int, j as int),
            decreases trimmed@.len() - j,
        {
            wanted.push(trimmed[j]);
            j += 1;
            assert(wanted@ =~= trimmed@.subrange(prefix@.len() as int, j as int));
        }
        assert(wanted@ =~= without_at(username@));
        let wanted_lower = lower_ascii_chars(&wanted);
        let mut i: usize = 0;
        assert(self.posts@.subrange(0, self.posts@.len() as int) =~= self.posts@);
        while i < self.posts.len()
            invariant
                i <= self.posts@.len(),
                wanted_lower@ == ascii_lower_seq(without_at(username@)),
                find_author(self.posts@, without_at(username@)) == find_author(
                    self.posts@.subrange(i as int, self.posts@.len() as int),
                    without_at(username@),
                ),
            decreases self.posts@.len() - i,
        {
            assert(self.posts@.subrange(i as int, self.posts@.len() as int).drop_first()
                =~= self.posts@.subrange(i + 1, self.posts@.len() as int));
            let name = lower_ascii_chars(&chars_of(self.posts[i].author.username.as_str()));
            if seq_eq(&name, &wanted_lower) {
                return Ok(self.posts[i].author.clone());
            }
            i += 1;
        }
        if str_eq(self.me.username.as_str(), username) {
            Ok(self.me.clone())
        } else {
            Err(owned("user not found"))
        }
    }
}

} // verus!
