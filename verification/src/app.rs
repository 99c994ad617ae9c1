//! The reader's state machine: screens, the back stack, the feed and its
//! pagination, search editing, the media cache and pending requests.
//!
//! Nothing here performs I/O. Operations that need the network, the browser
//! or the operating system record an `Effect`; the runtime carries it out and
//! hands the outcome back as a `UiMsg`.
use vstd::prelude::*;
use crate::config::Config;
use crate::keys::KeyBindings;
use crate::model::{
    clone_lists, clone_opt_string, clone_posts, post_ids, post_values, FeedKind, Media, MediaKind,
    Page, Post, PostValue, User, XList, permalink_of,
};
use crate::media::{external_url, preview_url};
use crate::text::{chars_of, owned};

verus! {

/// The most posts one feed keeps in memory.
pub const MAX_RETAINED_POSTS: usize = 800;

/// The deepest the back stack grows.
pub const HISTORY_LIMIT: usize = 16;

/// The most decoded stills kept at once.
pub const MEDIA_CACHE_LIMIT: usize = 32;

/// Read-ahead keeps at least this many posts beyond the cursor.
pub const MIN_POSTS_AHEAD: usize = 24;

#[derive(Debug)]
pub enum Screen {
    Landing,
    Home,
    Explore,
    Mentions,
    Bookmarks,
    Lists,
    ListFeed(Box<XList>),
    Profile(Box<User>),
    Likes(Box<User>),
    Thread(Box<Post>),
}

/// The value of a screen, with a thread's root post as a value.
pub enum ScreenValue {
    Landing,
    Home,
    Explore,
    Mentions,
    Bookmarks,
    Lists,
    ListFeed(XList),
    Profile(User),
    Likes(User),
    Thread(PostValue),
}

impl View for Screen {
    type V = ScreenValue;

    open spec fn view(&self) -> ScreenValue {
        match *self {
            Screen::Landing => ScreenValue::Landing,
            Screen::Home => ScreenValue::Home,
            Screen::Explore => ScreenValue::Explore,
            Screen::Mentions => ScreenValue::Mentions,
            Screen::Bookmarks => ScreenValue::Bookmarks,
            Screen::Lists => ScreenValue::Lists,
            Screen::ListFeed(l) => ScreenValue::ListFeed(*l),
            Screen::Profile(u) => ScreenValue::Profile(*u),
            Screen::Likes(u) => ScreenValue::Likes(*u),
            Screen::Thread(p) => ScreenValue::Thread((*p)@),
        }
    }
}

impl Clone for Screen {
    fn clone(&self) -> (r: Self)
        ensures
            r@ == self@,
    {
        match self {
            Screen::Landing => Screen::Landing,
            Screen::Home => Screen::Home,
            Screen::Explore => Screen::Explore,
            Screen::Mentions => Screen::Mentions,
            Screen::Bookmarks => Screen::Bookmarks,
            Screen::Lists => Screen::Lists,
            Screen::ListFeed(l) => Screen::ListFeed(Box::new((**l).clone())),
            Screen::Profile(u) => Screen::Profile(Box::new((**u).clone())),
            Screen::Likes(u) => Screen::Likes(Box::new((**u).clone())),
            Screen::Thread(p) => Screen::Thread(Box::new((**p).clone())),
        }
    }
}

/// What a landing-page menu entry does when activated.
#[derive(Clone, Copy, Debug, PartialEq, Eq, Structural)]
pub enum LandingAction {
    Start,
    SignIn,
    Verify,
    Quit,
}

/// What a click on a painted region does.
#[derive(Clone, Copy, Debug, PartialEq, Eq, Structural)]
pub enum HitAction {
    Landing(usize),
    Nav(usize),
    Card(usize),
    Back,
    Search,
    ToggleFeed,
    Help,
    Quit,
}

/// A clickable rectangle painted on the last frame.
#[derive(Clone, Copy, Debug, PartialEq, Eq, Structural)]
pub struct HitRegion {
    pub x: u16,
    pub y: u16,
    pub width: u16,
    pub height: u16,
    pub action: HitAction,
}

/// `a + b`, saturating at `u16::MAX`.
pub open spec fn sat_add16(a: u16, b: u16) -> int {
    if a + b > u16::MAX {
        u16::MAX as int
    } else {
        a + b
    }
}

pub open spec fn region_contains(r: HitRegion, column: u16, row: u16) -> bool {
    &&& column >= r.x
    &&& column < sat_add16(r.x, r.width)
    &&& row >= r.y
    &&& row < sat_add16(r.y, r.height)
}

impl HitRegion {
    /// Whether the cell at (`column`, `row`) lies inside the region.
    pub fn contains(self, column: u16, row: u16) -> (r: bool)
        ensures
            r == region_contains(self, column, row),
    {
        column >= self.x && column < self.x.saturating_add(self.width) && row >= self.y && row
            < self.y.saturating_add(self.height)
    }
}

#[derive(Clone, Copy, Debug, PartialEq, Eq, Structural)]
pub enum InputMode {
    Normal,
    Search,
}

/// What a screen load produced.
#[derive(Debug)]
pub enum ScreenPayload {
    Page(Page<Post>),
    Thread(Vec<Post>),
    Lists(Vec<XList>),
}

/// The outcome of an effect, handed back by the runtime. Every request that
/// changes the feed carries the generation it was made in, so a slow
/// response can never overwrite newer screen state.
#[derive(Debug)]
#[allow(inconsistent_fields)]
pub enum UiMsg {
    Bootstrap { me: Result<User, String> },
    ScreenLoaded { generation: u32, silent: bool, result: Result<ScreenPayload, String> },
    SearchDone { generation: u32, result: Result<Page<Post>, String> },
    MoreLoaded { generation: u32, silent: bool, result: Result<Page<Post>, String> },
    MediaDone { url: String, open: bool, counted: bool, result: Result<(), String> },
    SignInOpened { result: Result<(), String> },
    SignInChecked { result: Result<User, String> },
    ExtensionModeSaved { username: String, result: Result<(), String> },
}

/// Work for the runtime: network requests, the browser bridge, the operating
/// system's opener and the image renderer.
#[derive(Debug)]
pub enum Effect {
    /// Ask the source who is signed in; answer with `UiMsg::Bootstrap`.
    Bootstrap,
    /// Load a screen; answer with `UiMsg::ScreenLoaded`.
    FetchScreen { generation: u32, silent: bool, screen: Screen, feed: FeedKind },
    /// Run a search; answer with `UiMsg::SearchDone`.
    Search { generation: u32, query: String },
    /// Load the next page; answer with `UiMsg::MoreLoaded`.
    FetchMore { generation: u32, silent: bool, screen: Screen, query: String, token: String },
    /// Download and decode a still; answer with `UiMsg::MediaDone`.
    FetchMedia { url: String, counted: bool },
    /// Write the browser extension's files; answer with `UiMsg::SignInOpened`.
    PrepareExtension,
    /// Connect to the extension and ask who is signed in; answer with
    /// `UiMsg::SignInChecked`.
    CheckSignIn,
    /// Persist the extension as the configured source; answer with
    /// `UiMsg::ExtensionModeSaved`.
    SaveExtensionMode { username: String },
    /// Let the browser bridge release its secondary transports.
    ReleaseSecondary,
    /// Open an address with the operating system; report a failure with
    /// `App::open_failed`.
    OpenExternal { url: String },
    /// Forget the decoded image state kept for an evicted still.
    DropMedia { url: String },
}

/// A screen on the back stack.
#[derive(Debug)]
pub struct ViewState {
    pub screen: Screen,
    pub posts: Vec<Post>,
    pub lists: Vec<XList>,
    pub selected: usize,
    pub mode: InputMode,
    pub query: String,
    pub search_cursor: usize,
    pub status: String,
    pub error: Option<String>,
    pub thread_expanded: bool,
    pub next_token: Option<String>,
    pub body_scroll: usize,
}

/// The Home feed as it was when the reader last left it.
#[derive(Debug)]
pub struct HomeCache {
    pub feed: FeedKind,
    pub posts: Vec<Post>,
    pub selected: usize,
    pub status: String,
    pub error: Option<String>,
    pub next_token: Option<String>,
    pub body_scroll: usize,
}

/// The whole reader state.
#[derive(Debug)]
pub struct App {
    pub screen: Screen,
    pub history: Vec<ViewState>,
    pub posts: Vec<Post>,
    pub lists: Vec<XList>,
    pub selected: usize,
    pub me: Option<User>,
    pub mode: InputMode,
    pub query: String,
    pub search_cursor: usize,
    pub status: String,
    pub error: Option<String>,
    pub help: bool,
    pub demo: bool,
    pub browser_mode: bool,
    pub should_quit: bool,
    pub thread_expanded: bool,
    /// The open media preview: its alternative text and the still's address.
    pub media_preview: Option<(String, String)>,
    pub next_token: Option<String>,
    pub body_scroll: usize,
    pub body_scroll_max: usize,
    pub nav_focused: bool,
    pub nav_selected: usize,
    pub feed_kind: FeedKind,
    pub keys: KeyBindings,
    pub auto_refresh_secs: u64,
    pub landing_selected: usize,
    pub login_pending: bool,
    /// (top row, bottom row, post/list index) for the cards painted on the
    /// last frame.
    pub card_rows: Vec<(u16, u16, usize)>,
    pub hit_regions: Vec<HitRegion>,
    pub hovered: Option<HitAction>,
    pub pending_ops: usize,
    /// When the oldest outstanding request started (milliseconds).
    pub pending_since: Option<u64>,
    pub generation: u32,
    /// Addresses of the decoded stills, most recent first.
    pub media_cache: Vec<String>,
    pub media_inflight: Vec<String>,
    pub open_media_on_arrival: Vec<String>,
    /// The earliest time (milliseconds) for the next background fetch.
    pub next_background_fetch: u64,
    pub thread_sync_attempts: usize,
    pub home_cache: Option<HomeCache>,
    /// The current time in milliseconds, as the runtime last reported it.
    pub clock: u64,
    /// Effects recorded and not yet taken by the runtime.
    pub effects: Vec<Effect>,
}

/// The spinner glyph shown for `tick` (a count of 100 ms steps).
pub open spec fn spinner_glyph(tick: int) -> char {
    let i = tick % 10;
    if i == 0 {
        '\u{280B}'
    } else if i == 1 {
        '\u{2819}'
    } else if i == 2 {
        '\u{2839}'
    } else if i == 3 {
        '\u{2838}'
    } else if i == 4 {
        '\u{283C}'
    } else if i == 5 {
        '\u{2834}'
    } else if i == 6 {
        '\u{2826}'
    } else if i == 7 {
        '\u{2827}'
    } else if i == 8 {
        '\u{2807}'
    } else {
        '\u{280F}'
    }
}

/// The rail section a screen belongs to (0..=4).
pub open spec fn section_of(s: Screen) -> usize {
    match s {
        Screen::Home => 0,
        Screen::Explore => 1,
        Screen::Mentions => 2,
        Screen::Bookmarks => 3,
        Screen::Lists => 4,
        Screen::ListFeed(_) => 4,
        _ => 0,
    }
}

/// The screen of rail section `index`, as a screen.
pub open spec fn section_root(index: usize) -> Screen {
    if index == 0 {
        Screen::Home
    } else if index == 1 {
        Screen::Explore
    } else if index == 2 {
        Screen::Mentions
    } else if index == 3 {
        Screen::Bookmarks
    } else {
        Screen::Lists
    }
}

/// The screen of rail section `index`.
pub open spec fn section_screen(index: usize) -> ScreenValue {
    if index == 0 {
        ScreenValue::Home
    } else if index == 1 {
        ScreenValue::Explore
    } else if index == 2 {
        ScreenValue::Mentions
    } else if index == 3 {
        ScreenValue::Bookmarks
    } else {
        ScreenValue::Lists
    }
}

pub open spec fn clamp(v: int, lo: int, hi: int) -> int {
    if v < lo {
        lo
    } else if v > hi {
        hi
    } else {
        v
    }
}

/// The index of the last region containing the cell, if any.
pub open spec fn last_hit(regions: Seq<HitRegion>, column: u16, row: u16) -> Option<int>
    decreases regions.len(),
{
    if regions.len() == 0 {
        None
    } else if region_contains(regions.last(), column, row) {
        Some(regions.len() - 1)
    } else {
        last_hit(regions.drop_last(), column, row)
    }
}

pub open spec fn hit_action(regions: Seq<HitRegion>, column: u16, row: u16) -> Option<HitAction> {
    match last_hit(regions, column, row) {
        Some(i) => Some(regions[i].action),
        None => None,
    }
}

/// The number of characters of `s`.
fn char_count(s: &str) -> (n: usize)
    ensures
        n == s@.len(),
{
    crate::text::chars_of(s).len()
}

impl App {
    /// The number of entries `move_selection` clamps to.
    pub open spec fn view_len(self) -> int {
        if self.screen is Lists {
            self.lists@.len() as int
        } else if self.screen is Thread && !self.thread_expanded {
            1
        } else {
            self.posts@.len() as int
        }
    }

    /// A reader at the landing page. `demo` selects the offline sample source.
    pub fn new(demo: bool) -> (r: App)
        ensures
            r.screen is Landing,
            r.history@.len() == 0,
            r.posts@.len() == 0,
            r.lists@.len() == 0,
            r.selected == 0,
            r.me is None,
            r.mode == InputMode::Normal,
            r.query@.len() == 0,
            r.search_cursor == 0,
            r.status@ == "Loading your timeline\u{2026}"@,
            r.error is None,
            !r.help,
            r.demo == demo,
            !r.browser_mode,
            !r.should_quit,
            r.thread_expanded,
            r.media_preview is None,
            r.next_token is None,
            r.body_scroll == 0,
            r.body_scroll_max == 0,
            !r.nav_focused,
            r.nav_selected == 0,
            r.feed_kind == FeedKind::Following,
            r.keys.wf(),
            r.keys@ == crate::keys::default_bindings(),
            r.auto_refresh_secs == 300,
            r.landing_selected == 0,
            !r.login_pending,
            r.card_rows@.len() == 0,
            r.hit_regions@.len() == 0,
            r.hovered is None,
            r.pending_ops == 0,
            r.pending_since is None,
            r.generation == 0,
            r.media_cache@.len() == 0,
            r.media_inflight@.len() == 0,
            r.open_media_on_arrival@.len() == 0,
            r.next_background_fetch == 0,
            r.thread_sync_attempts == 0,
            r.home_cache is None,
            r.clock == 0,
            r.effects@.len() == 0,
    {
        App {
            screen: Screen::Landing,
            history: Vec::new(),
            posts: Vec::new(),
            lists: Vec::new(),
            selected: 0,
            me: None,
            mode: InputMode::Normal,
            query: String::new(),
            search_cursor: 0,
            status: owned("Loading your timeline\u{2026}"),
            error: None,
            help: false,
            demo,
            browser_mode: false,
            should_quit: false,
            thread_expanded: true,
            media_preview: None,
            next_token: None,
            body_scroll: 0,
            body_scroll_max: 0,
            nav_focused: false,
            nav_selected: 0,
            feed_kind: FeedKind::Following,
            keys: KeyBindings::default_keys(),
            auto_refresh_secs: 300,
            landing_selected: 0,
            login_pending: false,
            card_rows: Vec::new(),
            hit_regions: Vec::new(),
            hovered: None,
            pending_ops: 0,
            pending_since: None,
            generation: 0,
            media_cache: Vec::new(),
            media_inflight: Vec::new(),
            open_media_on_arrival: Vec::new(),
            next_background_fetch: 0,
            thread_sync_attempts: 0,
            home_cache: None,
            clock: 0,
            effects: Vec::new(),
        }
    }

    /// Apply the configured key overrides and refresh interval (300 s when
    /// unset).
    pub fn with_config(self, config: &Config) -> (r: App)
        ensures
            r.keys.wf(),
            r.keys@ == match config.keys {
                Some(k) => crate::keys::apply_overrides(crate::keys::default_bindings(), k.0@),
                None => crate::keys::default_bindings(),
            },
            r.auto_refresh_secs == match config.auto_refresh_secs {
                Some(s) => s,
                None => 300,
            },
            r == (App { keys: r.keys, auto_refresh_secs: r.auto_refresh_secs, ..self }),
    {
        let mut app = self;
        let keys = match &config.keys {
            Some(k) => KeyBindings::from_config(Some(&k.0)),
            None => KeyBindings::from_config(None),
        };
        app.keys = keys;
        app.auto_refresh_secs = match config.auto_refresh_secs {
            Some(s) => s,
            None => 300,
        };
        app
    }

    /// Switch to the browser-extension source.
    pub fn with_browser_mode(self) -> (r: App)
        ensures
            r == (App { browser_mode: true, ..self }),
    {
        let mut app = self;
        app.browser_mode = true;
        app
    }

    /// Advance the clock the time-dependent decisions read.
    pub fn advance_clock(&mut self, now: u64)
        ensures
            *final(self) == (App { clock: now, ..*old(self) }),
    {
        self.clock = now;
    }

    /// Hand the recorded effects to the runtime, oldest first.
    pub fn take_effects(&mut self) -> (r: Vec<Effect>)
        ensures
            r@ == old(self).effects@,
            final(self).effects@.len() == 0,
            *final(self) == (App { effects: final(self).effects, ..*old(self) }),
    {
        let mut taken: Vec<Effect> = Vec::new();
        std::mem::swap(&mut taken, &mut self.effects);
        taken
    }

    /// Record a clickable region; empty regions are ignored.
    pub fn register_hit(&mut self, x: u16, y: u16, width: u16, height: u16, action: HitAction)
        ensures
            final(self).hit_regions@ == if width > 0 && height > 0 {
                old(self).hit_regions@.push(HitRegion { x, y, width, height, action })
            } else {
                old(self).hit_regions@
            },
            *final(self) == (App { hit_regions: final(self).hit_regions, ..*old(self) }),
    {
        if width > 0 && height > 0 {
            self.hit_regions.push(HitRegion { x, y, width, height, action });
        }
    }

    /// What a click at (`column`, `row`) does: the action of the most
    /// recently registered region containing the cell.
    pub fn hit_at(&self, column: u16, row: u16) -> (r: Option<HitAction>)
        ensures
            r == hit_action(self.hit_regions@, column, row),
    {
        let mut i = self.hit_regions.len();
        assert(self.hit_regions@.subrange(0, i as int) =~= self.hit_regions@);
        while i > 0
            invariant
                i <= self.hit_regions@.len(),
                last_hit(self.hit_regions@, column, row) == last_hit(
                    self.hit_regions@.subrange(0, i as int),
                    column,
                    row,
                ),
            decreases i,
        {
            let region = self.hit_regions[i - 1];
            proof {
                let pre = self.hit_regions@.subrange(0, i as int);
                assert(pre.drop_last() =~= self.hit_regions@.subrange(0, i - 1));
                assert(pre.last() == region);
            }
            if region.contains(column, row) {
                return Some(region.action);
            }
            i -= 1;
        }
        proof {
            assert(self.hit_regions@.subrange(0, 0).len() == 0);
        }
        None
    }

    /// Track the region under the mouse; true when the hovered action changed.
    pub fn hover_at(&mut self, column: u16, row: u16) -> (changed: bool)
        ensures
            changed == (hit_action(old(self).hit_regions@, column, row) != old(self).hovered),
            *final(self) == (App {
                hovered: hit_action(old(self).hit_regions@, column, row),
                ..*old(self)
            }),
    {
        let next = self.hit_at(column, row);
        if next == self.hovered {
            return false;
        }
        self.hovered = next;
        true
    }

    /// The post under the cursor.
    pub fn selected_post(&self) -> (r: Option<&Post>)
        ensures
            self.selected < self.posts@.len() ==> r == Some(&self.posts@[self.selected as int]),
            self.selected >= self.posts@.len() ==> r is None,
    {
        if self.selected < self.posts.len() {
            Some(&self.posts[self.selected])
        } else {
            None
        }
    }

    /// The list under the cursor.
    pub fn selected_list(&self) -> (r: Option<&XList>)
        ensures
            self.selected < self.lists@.len() ==> r == Some(&self.lists@[self.selected as int]),
            self.selected >= self.lists@.len() ==> r is None,
    {
        if self.selected < self.lists.len() {
            Some(&self.lists[self.selected])
        } else {
            None
        }
    }

    pub open spec fn spec_origin(self) -> Screen {
        if self.history@.len() > 0 {
            self.history@.last().screen
        } else {
            self.screen
        }
    }

    /// The screen at the top of the back stack, or the current screen at a
    /// root; sub-screens keep their section highlighted through it.
    pub fn origin_screen(&self) -> (r: &Screen)
        ensures
            *r == self.spec_origin(),
    {
        let n = self.history.len();
        if n > 0 {
            &self.history[n - 1].screen
        } else {
            &self.screen
        }
    }

    /// The rail section that `origin_screen` belongs to (0..=4).
    pub fn nav_index(&self) -> (r: usize)
        ensures
            r == section_of(self.spec_origin()),
    {
        match self.origin_screen() {
            Screen::Home => 0,
            Screen::Explore => 1,
            Screen::Mentions => 2,
            Screen::Bookmarks => 3,
            Screen::Lists => 4,
            Screen::ListFeed(_) => 4,
            _ => 0,
        }
    }

    /// The screen of rail item `index`.
    pub fn nav_screen(index: usize) -> (r: Screen)
        ensures
            r@ == section_screen(index),
            r == section_root(index),
    {
        if index == 0 {
            Screen::Home
        } else if index == 1 {
            Screen::Explore
        } else if index == 2 {
            Screen::Mentions
        } else if index == 3 {
            Screen::Bookmarks
        } else {
            Screen::Lists
        }
    }

    /// Enter or leave sidebar navigation; entering starts on the current
    /// section.
    pub fn toggle_nav_focus(&mut self)
        ensures
            nav_toggled(*old(self), *final(self)),
    {
        self.nav_focused = !self.nav_focused;
        if self.nav_focused {
            self.nav_selected = self.nav_index();
            self.status = owned(
                "Sidebar \u{00B7} \u{2191}\u{2193} choose \u{00B7} \u{2192} open \u{00B7} Esc back",
            );
        }
    }

    /// Move the rail cursor by `delta`, clamped to the five sections.
    pub fn nav_move(&mut self, delta: isize)
        requires
            isize::MIN <= (old(self).nav_selected as isize) + delta <= isize::MAX,
        ensures
            nav_moved(*old(self), *final(self), delta),
    {
        let v = self.nav_selected as isize + delta;
        self.nav_selected = if v < 0 {
            0
        } else if v > 4 {
            4
        } else {
            v as usize
        };
    }

    /// Start a request: count it and note when the oldest one started.
    pub fn begin_pending(&mut self)
        requires
            old(self).pending_ops < usize::MAX,
        ensures
            final(self).pending_ops == old(self).pending_ops + 1,
            final(self).pending_since == match old(self).pending_since {
                Some(t) => Some(t),
                None => Some(old(self).clock),
            },
            *final(self) == (App {
                pending_ops: final(self).pending_ops,
                pending_since: final(self).pending_since,
                ..*old(self)
            }),
    {
        self.pending_ops = self.pending_ops + 1;
        if self.pending_since.is_none() {
            self.pending_since = Some(self.clock);
        }
    }

    /// Finish a request; the spinner stops when none is left.
    pub fn end_pending(&mut self)
        ensures
            final(self).pending_ops == if old(self).pending_ops > 0 {
                old(self).pending_ops - 1
            } else {
                0
            },
            final(self).pending_since == if final(self).pending_ops == 0 {
                None
            } else {
                old(self).pending_since
            },
            *final(self) == (App {
                pending_ops: final(self).pending_ops,
                pending_since: final(self).pending_since,
                ..*old(self)
            }),
    {
        self.pending_ops = self.pending_ops.saturating_sub(1);
        if self.pending_ops == 0 {
            self.pending_since = None;
        }
    }

    pub fn has_pending(&self) -> (r: bool)
        ensures
            r == (self.pending_ops > 0),
    {
        self.pending_ops > 0
    }

    pub fn has_media_inflight(&self) -> (r: bool)
        ensures
            r == (self.media_inflight@.len() > 0),
    {
        self.media_inflight.len() > 0
    }

    /// How long the oldest outstanding request has run (milliseconds).
    pub fn activity_ms(&self) -> (r: u64)
        ensures
            r == match self.pending_since {
                Some(t) => if self.clock >= t {
                    (self.clock - t) as u64
                } else {
                    0
                },
                None => 0,
            },
    {
        match self.pending_since {
            Some(t) => self.clock.saturating_sub(t),
            None => 0,
        }
    }

    /// The current spinner glyph, or `None` when idle; it advances every
    /// 100 ms of the oldest outstanding request.
    pub fn spinner_frame(&self) -> (r: Option<char>)
        ensures
            self.pending_ops == 0 ==> r is None,
            self.pending_ops > 0 ==> r == Some(spinner_glyph(self.activity_ms_spec() as int / 100)),
    {
        if self.pending_ops == 0 {
            return None;
        }
        let elapsed = self.activity_ms();
        let i = (elapsed / 100) % 10;
        let c = if i == 0 {
            '\u{280B}'
        } else if i == 1 {
            '\u{2819}'
        } else if i == 2 {
            '\u{2839}'
        } else if i == 3 {
            '\u{2838}'
        } else if i == 4 {
            '\u{283C}'
        } else if i == 5 {
            '\u{2834}'
        } else if i == 6 {
            '\u{2826}'
        } else if i == 7 {
            '\u{2827}'
        } else if i == 8 {
            '\u{2807}'
        } else {
            '\u{280F}'
        };
        Some(c)
    }

    pub open spec fn activity_ms_spec(self) -> u64 {
        match self.pending_since {
            Some(t) => if self.clock >= t {
                (self.clock - t) as u64
            } else {
                0
            },
            None => 0,
        }
    }

    /// Record an error and the retry hint.
    pub fn set_error(&mut self, message: String)
        ensures
            final(self).error == Some(message),
            final(self).status@ == "Request failed \u{2014} press r to retry"@,
            *final(self) == (App {
                error: final(self).error,
                status: final(self).status,
                ..*old(self)
            }),
    {
        self.error = Some(message);
        self.status = owned("Request failed \u{2014} press r to retry");
    }
}

/// The view `push_view` stores on the back stack.
pub open spec fn snapshot(a: App) -> ViewState {
    ViewState {
        screen: a.screen,
        posts: a.posts,
        lists: a.lists,
        selected: a.selected,
        mode: a.mode,
        query: a.query,
        search_cursor: a.search_cursor,
        status: a.status,
        error: a.error,
        thread_expanded: a.thread_expanded,
        next_token: a.next_token,
        body_scroll: a.body_scroll,
    }
}

/// The back stack after pushing `v`: the oldest view is dropped when the
/// stack is full.
pub open spec fn pushed_history(h: Seq<ViewState>, v: ViewState) -> Seq<ViewState> {
    (if h.len() == HISTORY_LIMIT {
        h.drop_first()
    } else {
        h
    }).push(v)
}

/// Whether `cache` is the Home cache after leaving state `a`: a non-empty Home
/// feed is remembered (posts copied), anything else keeps the old cache.
pub open spec fn remembers(a: App, cache: Option<HomeCache>) -> bool {
    if a.screen is Home && a.posts@.len() > 0 {
        &&& cache matches Some(c)
        &&& c.feed == a.feed_kind
        &&& post_values(c.posts@) == post_values(a.posts@)
        &&& post_ids(c.posts@) == post_ids(a.posts@)
        &&& c.posts@.len() == a.posts@.len()
        &&& c.selected == a.selected
        &&& c.status == a.status
        &&& c.error == a.error
        &&& c.next_token == a.next_token
        &&& c.body_scroll == a.body_scroll
    } else {
        cache == a.home_cache
    }
}

pub open spec fn is_fetch_screen(
    e: Effect,
    generation: int,
    silent: bool,
    screen: ScreenValue,
    feed: FeedKind,
) -> bool {
    e matches Effect::FetchScreen { generation: g, silent: s, screen: sc, feed: f } && g
        == generation && s == silent && sc@ == screen && f == feed
}

pub open spec fn is_fetch_more(
    e: Effect,
    generation: int,
    silent: bool,
    screen: ScreenValue,
    query: Seq<char>,
    token: Seq<char>,
) -> bool {
    e matches Effect::FetchMore { generation: g, silent: s, screen: sc, query: q, token: t } && g
        == generation && s == silent && sc@ == screen && q@ == query && t@ == token
}

/// `b` holds the effects of `a` and one more, satisfying `last`.
pub open spec fn one_more_effect(a: Seq<Effect>, b: Seq<Effect>) -> bool {
    b.len() == a.len() + 1 && b.subrange(0, a.len() as int) == a
}

pub open spec fn began_pending(a: App, b: App) -> bool {
    &&& b.pending_ops == a.pending_ops + 1
    &&& b.pending_since == match a.pending_since {
        Some(t) => Some(t),
        None => Some(a.clock),
    }
}

/// The state a screen request starts from: a loud request resets the body
/// scroll, the thread sync attempts and the read-ahead timer.
pub open spec fn request_base(a: App, silent: bool) -> App {
    if silent {
        a
    } else {
        App {
            body_scroll: 0,
            body_scroll_max: 0,
            thread_sync_attempts: 0,
            next_background_fetch: a.clock,
            ..a
        }
    }
}

/// `b` is `a` after requesting its current screen. Explore needs no network:
/// it opens search input with an empty feed. Any other screen gets a new
/// generation, a pending request and a `FetchScreen` effect; a loud request
/// also shows "Loading…" and forgets the continuation token.
pub open spec fn requested(a0: App, b: App, silent: bool) -> bool {
    let a = request_base(a0, silent);
    if a.screen is Explore {
        &&& b == App {
            mode: InputMode::Search,
            query: b.query,
            search_cursor: 0,
            posts: b.posts,
            selected: 0,
            next_token: None,
            status: b.status,
            ..a
        }
        &&& b.query@.len() == 0
        &&& b.posts@.len() == 0
        &&& if silent {
            b.status == a.status
        } else {
            b.status@ == "Type a search and press Enter"@
        }
    } else {
        &&& b == App {
            status: b.status,
            next_token: b.next_token,
            generation: (a.generation + 1) as u32,
            pending_ops: b.pending_ops,
            pending_since: b.pending_since,
            effects: b.effects,
            ..a
        }
        &&& began_pending(a, b)
        &&& if silent {
            b.status == a.status && b.next_token == a.next_token
        } else {
            b.status@ == "Loading\u{2026}"@ && b.next_token is None
        }
        &&& one_more_effect(a.effects@, b.effects@)
        &&& is_fetch_screen(b.effects@.last(), a.generation + 1, silent, a.screen@, a.feed_kind)
    }
}

impl App {
    /// Room for one more request: the generation and the pending count can
    /// still grow.
    pub open spec fn can_request(self) -> bool {
        self.generation < u32::MAX && self.pending_ops < usize::MAX
    }

    /// Begin loading the current screen; `silent` refreshes in place without
    /// touching the status, scroll or continuation.
    pub fn request_current(&mut self, silent: bool)
        requires
            old(self).can_request(),
        ensures
            requested(*old(self), *final(self), silent),
    {
        if !silent {
            self.body_scroll = 0;
            self.body_scroll_max = 0;
            self.thread_sync_attempts = 0;
            self.next_background_fetch = self.clock;
        }
        if let Screen::Explore = self.screen {
            self.mode = InputMode::Search;
            self.query = String::new();
            self.search_cursor = 0;
            self.posts = Vec::new();
            self.selected = 0;
            self.next_token = None;
            if !silent {
                self.status = owned("Type a search and press Enter");
            }
            return;
        }
        if !silent {
            self.status = owned("Loading\u{2026}");
            self.next_token = None;
        }
        self.generation = self.generation + 1;
        self.begin_pending();
        let screen = self.screen.clone();
        let ghost before = self.effects@;
        self.effects.push(
            Effect::FetchScreen {
                generation: self.generation,
                silent,
                screen,
                feed: self.feed_kind,
            },
        );
        assert(self.effects@.subrange(0, before.len() as int) =~= before);
    }

    /// Show `screen` and begin loading it.
    pub fn request_screen(&mut self, screen: Screen, silent: bool)
        requires
            old(self).can_request(),
        ensures
            requested(App { screen, ..*old(self) }, *final(self), silent),
    {
        self.screen = screen;
        self.request_current(silent);
    }

    /// Remember a non-empty Home feed so returning to Home restores it.
    pub fn remember_home(&mut self)
        ensures
            remembers(*old(self), final(self).home_cache),
            *final(self) == (App { home_cache: final(self).home_cache, ..*old(self) }),
    {
        let at_home = match self.screen {
            Screen::Home => true,
            _ => false,
        };
        if !at_home || self.posts.len() == 0 {
            return;
        }
        self.home_cache = Some(
            HomeCache {
                feed: self.feed_kind,
                posts: clone_posts(&self.posts),
                selected: self.selected,
                status: self.status.clone(),
                error: clone_opt_string(&self.error),
                next_token: clone_opt_string(&self.next_token),
                body_scroll: self.body_scroll,
            },
        );
    }

    /// Put the current view on the back stack and show `screen` with a fresh
    /// view state.
    pub fn push_view(&mut self, screen: Screen)
        ensures
            final(self).history@ == pushed_history(old(self).history@, snapshot(*old(self))),
            remembers(*old(self), final(self).home_cache),
            final(self).posts@.len() == 0,
            final(self).lists@.len() == 0,
            final(self).query@.len() == 0,
            final(self).status@.len() == 0,
            *final(self) == (App {
                screen,
                history: final(self).history,
                posts: final(self).posts,
                lists: final(self).lists,
                selected: 0,
                mode: InputMode::Normal,
                query: final(self).query,
                search_cursor: 0,
                status: final(self).status,
                error: None,
                thread_expanded: true,
                next_token: None,
                body_scroll: 0,
                home_cache: final(self).home_cache,
                ..*old(self)
            }),
    {
        self.remember_home();
        let mut previous_screen = screen;
        std::mem::swap(&mut previous_screen, &mut self.screen);
        let mut posts: Vec<Post> = Vec::new();
        std::mem::swap(&mut posts, &mut self.posts);
        let mut lists: Vec<XList> = Vec::new();
        std::mem::swap(&mut lists, &mut self.lists);
        let mut query = String::new();
        std::mem::swap(&mut query, &mut self.query);
        let mut status = String::new();
        std::mem::swap(&mut status, &mut self.status);
        let previous = ViewState {
            screen: previous_screen,
            posts,
            lists,
            selected: self.selected,
            mode: self.mode,
            query,
            search_cursor: self.search_cursor,
            status,
            error: self.error.take(),
            thread_expanded: self.thread_expanded,
            next_token: self.next_token.take(),
            body_scroll: self.body_scroll,
        };
        self.selected = 0;
        self.mode = InputMode::Normal;
        self.search_cursor = 0;
        self.thread_expanded = true;
        self.body_scroll = 0;
        if self.history.len() == HISTORY_LIMIT {
            self.history.remove(0);
        }
        self.history.push(previous);
        proof {
            let h = old(self).history@;
            if h.len() == HISTORY_LIMIT {
                assert(h.remove(0) =~= h.drop_first());
            }
        }
    }
}

/// `b` is `a` after pushing the current view and loading `screen` (see
/// `push_view` and `requested`).
pub open spec fn entered(a: App, b: App, screen: Screen) -> bool {
    &&& b.history@ == pushed_history(a.history@, snapshot(a))
    &&& remembers(a, b.home_cache)
    &&& b.screen == screen
    &&& b.posts@.len() == 0
    &&& b.lists@.len() == 0
    &&& b.query@.len() == 0
    &&& if screen is Explore {
        &&& b == App {
            screen,
            history: b.history,
            posts: b.posts,
            lists: b.lists,
            selected: 0,
            mode: InputMode::Search,
            query: b.query,
            search_cursor: 0,
            status: b.status,
            error: None,
            thread_expanded: true,
            next_token: None,
            body_scroll: 0,
            body_scroll_max: 0,
            thread_sync_attempts: 0,
            next_background_fetch: a.clock,
            home_cache: b.home_cache,
            ..a
        }
        &&& b.status@ == "Type a search and press Enter"@
    } else {
        &&& b == App {
            screen,
            history: b.history,
            posts: b.posts,
            lists: b.lists,
            selected: 0,
            mode: InputMode::Normal,
            query: b.query,
            search_cursor: 0,
            status: b.status,
            error: None,
            thread_expanded: true,
            next_token: None,
            body_scroll: 0,
            body_scroll_max: 0,
            thread_sync_attempts: 0,
            next_background_fetch: a.clock,
            home_cache: b.home_cache,
            generation: (a.generation + 1) as u32,
            pending_ops: b.pending_ops,
            pending_since: b.pending_since,
            effects: b.effects,
            ..a
        }
        &&& b.status@ == "Loading\u{2026}"@
        &&& began_pending(a, b)
        &&& one_more_effect(a.effects@, b.effects@)
        &&& is_fetch_screen(b.effects@.last(), a.generation + 1, false, screen@, a.feed_kind)
    }
}

/// `b` is `a` after Back: an open overlay (media preview or help) closes
/// first; otherwise the newest view on the back stack is restored; at a root
/// only the status changes.
pub open spec fn went_back(a: App, b: App) -> bool {
    if a.media_preview is Some || a.help {
        b == App { media_preview: None, help: false, ..a }
    } else if a.history@.len() > 0 {
        let v = a.history@.last();
        &&& b == App {
            history: b.history,
            screen: v.screen,
            posts: v.posts,
            lists: v.lists,
            selected: v.selected,
            mode: v.mode,
            query: v.query,
            search_cursor: v.search_cursor,
            status: v.status,
            error: v.error,
            thread_expanded: v.thread_expanded,
            next_token: v.next_token,
            body_scroll: v.body_scroll,
            body_scroll_max: 0,
            next_background_fetch: a.clock,
            effects: b.effects,
            ..a
        }
        &&& b.history@ == a.history@.drop_last()
        &&& if a.browser_mode && v.screen is Home {
            one_more_effect(a.effects@, b.effects@) && b.effects@.last() is ReleaseSecondary
        } else {
            b.effects == a.effects
        }
    } else {
        &&& b == App { status: b.status, ..a }
        &&& b.status@ == "Already at the top level \u{00B7} press Q to quit"@
    }
}

impl App {
    /// Push the current view onto the back stack and start loading `screen`.
    pub fn navigate(&mut self, screen: Screen)
        requires
            old(self).can_request(),
        ensures
            entered(*old(self), *final(self), screen),
    {
        self.push_view(screen);
        self.request_current(false);
    }

    /// Leave the current view: close an open overlay, else restore the
    /// previous view from the back stack.
    pub fn back(&mut self)
        ensures
            went_back(*old(self), *final(self)),
    {
        let had_preview = self.media_preview.is_some();
        self.media_preview = None;
        if had_preview || self.help {
            self.help = false;
            return;
        }
        if self.history.len() > 0 {
            let view = self.history.pop().unwrap();
            assert(self.history@ =~= old(self).history@.drop_last());
            self.restore(view);
        } else {
            self.status = owned("Already at the top level \u{00B7} press Q to quit");
        }
    }

    fn restore(&mut self, view: ViewState)
        ensures
            *final(self) == (App {
                screen: view.screen,
                posts: view.posts,
                lists: view.lists,
                selected: view.selected,
                mode: view.mode,
                query: view.query,
                search_cursor: view.search_cursor,
                status: view.status,
                error: view.error,
                thread_expanded: view.thread_expanded,
                next_token: view.next_token,
                body_scroll: view.body_scroll,
                body_scroll_max: 0,
                next_background_fetch: old(self).clock,
                effects: final(self).effects,
                ..*old(self)
            }),
            if old(self).browser_mode && view.screen is Home {
                one_more_effect(old(self).effects@, final(self).effects@)
                    && final(self).effects@.last() is ReleaseSecondary
            } else {
                final(self).effects == old(self).effects
            },
    {
        let is_home = match view.screen {
            Screen::Home => true,
            _ => false,
        };
        self.screen = view.screen;
        self.posts = view.posts;
        self.lists = view.lists;
        self.selected = view.selected;
        self.mode = view.mode;
        self.query = view.query;
        self.search_cursor = view.search_cursor;
        self.status = view.status;
        self.error = view.error;
        self.thread_expanded = view.thread_expanded;
        self.next_token = view.next_token;
        self.body_scroll = view.body_scroll;
        self.body_scroll_max = 0;
        self.next_background_fetch = self.clock;
        if self.browser_mode && is_home {
            let ghost before = self.effects@;
            self.effects.push(Effect::ReleaseSecondary);
            assert(self.effects@.subrange(0, before.len() as int) =~= before);
        }
    }
}

/// Navigating to a screen and then going Back restores the view the reader
/// left: screen, feed, lists, cursor, search input, status, error, thread
/// expansion, continuation and scroll. The back stack is as before, minus its
/// oldest entry if it was full.
pub proof fn law_back_returns_to_the_previous_view(a: App, b: App, c: App, screen: Screen)
    requires
        a.media_preview is None,
        !a.help,
        entered(a, b, screen),
        went_back(b, c),
    ensures
        c.screen == a.screen,
        c.posts == a.posts,
        c.lists == a.lists,
        c.selected == a.selected,
        c.mode == a.mode,
        c.query == a.query,
        c.search_cursor == a.search_cursor,
        c.status == a.status,
        c.error == a.error,
        c.thread_expanded == a.thread_expanded,
        c.next_token == a.next_token,
        c.body_scroll == a.body_scroll,
        c.history@ == if a.history@.len() == HISTORY_LIMIT {
            a.history@.drop_first()
        } else {
            a.history@
        },
{
    let h = if a.history@.len() == HISTORY_LIMIT {
        a.history@.drop_first()
    } else {
        a.history@
    };
    assert(b.history@ == h.push(snapshot(a)));
    assert(b.history@.drop_last() =~= h);
}

/// Going Back restores the view the reader left also after results for the
/// new screen arrived: a screen load, a search or a further page applied in
/// between changes only the new view, never the one kept on the back stack.
pub proof fn law_back_after_results_returns_to_the_previous_view(
    a: App,
    b: App,
    c: App,
    d: App,
    screen: Screen,
    msg: UiMsg,
)
    requires
        a.media_preview is None,
        !a.help,
        entered(a, b, screen),
        msg is ScreenLoaded || msg is SearchDone || msg is MoreLoaded,
        processed(b, c, msg),
        went_back(c, d),
    ensures
        d.screen == a.screen,
        d.posts == a.posts,
        d.lists == a.lists,
        d.selected == a.selected,
        d.mode == a.mode,
        d.query == a.query,
        d.search_cursor == a.search_cursor,
        d.status == a.status,
        d.error == a.error,
        d.thread_expanded == a.thread_expanded,
        d.next_token == a.next_token,
        d.body_scroll == a.body_scroll,
        d.body_scroll_max == 0,
        d.history@ == if a.history@.len() == HISTORY_LIMIT {
            a.history@.drop_first()
        } else {
            a.history@
        },
{
    let h = if a.history@.len() == HISTORY_LIMIT {
        a.history@.drop_first()
    } else {
        a.history@
    };
    assert(b.history@ == h.push(snapshot(a)));
    assert(c.history == b.history);
    assert(c.media_preview is None && !c.help);
    assert(c.history@.drop_last() =~= h);
}

/// A further page always moves the continuation on to that page's token,
/// however many of its posts were new: the next request fetches the page
/// after it, so paging never sticks on a page of repeats.
pub proof fn law_further_pages_advance_the_continuation(
    a: App,
    b: App,
    page: Page<Post>,
    silent: bool,
)
    requires
        more_applied(a, b, Ok(page), silent),
    ensures
        b.next_token == page.next_token,
        fresh_posts(a.posts@, page.items@).len() == 0 ==> b.posts@ == trimmed(a.posts@),
{
    if fresh_posts(a.posts@, page.items@).len() == 0 {
        assert(a.posts@ + fresh_posts(a.posts@, page.items@) =~= a.posts@);
    }
}

/// While the feed stays within `MAX_RETAINED_POSTS`, a further page keeps
/// every post already shown, in place, and adds each of its posts whose id
/// was not shown yet; everything added comes from the page and was not shown
/// before.
pub proof fn law_further_pages_add_what_is_new(a: App, b: App, page: Page<Post>, silent: bool)
    requires
        more_applied(a, b, Ok(page), silent),
        a.posts@.len() + fresh_posts(a.posts@, page.items@).len() <= MAX_RETAINED_POSTS,
    ensures
        b.posts@.len() >= a.posts@.len(),
        b.posts@.subrange(0, a.posts@.len() as int) == a.posts@,
        forall|i: int|
            0 <= i < page.items@.len() && !post_ids(a.posts@).contains(
                (#[trigger] page.items@[i]).id@,
            ) ==> b.posts@.contains(page.items@[i]),
        forall|k: int|
            a.posts@.len() <= k < b.posts@.len() ==> page.items@.contains(#[trigger] b.posts@[k])
                && !post_ids(a.posts@).contains(b.posts@[k].id@),
{
    let ids = post_ids(a.posts@);
    let pred = |p: Post| !ids.contains(p.id@);
    let fresh = fresh_posts(a.posts@, page.items@);
    assert(fresh == page.items@.filter(pred));
    page.items@.filter_lemma(pred);
    let all = a.posts@ + fresh;
    assert(b.posts@ == all);
    assert(all.subrange(0, a.posts@.len() as int) =~= a.posts@);
    assert forall|i: int|
        0 <= i < page.items@.len() && !post_ids(a.posts@).contains(
            (#[trigger] page.items@[i]).id@,
        ) implies b.posts@.contains(page.items@[i]) by {
        assert(pred(page.items@[i]));
        assert(fresh.contains(page.items@[i]));
        let j = choose|j: int| 0 <= j < fresh.len() && fresh[j] == page.items@[i];
        assert(all[a.posts@.len() + j] == page.items@[i]);
    }
    assert forall|k: int| a.posts@.len() <= k < b.posts@.len() implies page.items@.contains(
        #[trigger] b.posts@[k],
    ) && !post_ids(a.posts@).contains(b.posts@[k].id@) by {
        let j = k - a.posts@.len();
        assert(all[k] == fresh[j]);
        assert(pred(fresh[j]));
        page.items@.lemma_filter_contains_rev(pred, fresh[j]);
    }
}

/// Opening a thread whose load left out the root shows the root on top, then
/// the loaded replies in their order; a load that holds the root is shown as
/// it came.
pub proof fn law_threads_open_with_their_root(
    a: App,
    b: App,
    root: Box<Post>,
    loaded: Vec<Post>,
    silent: bool,
)
    requires
        a.screen == Screen::Thread(root),
        screen_data_applied(a, b, Ok(ScreenPayload::Thread(loaded)), silent),
    ensures
        !post_ids(loaded@).contains(root.id@) ==> {
            &&& b.posts@.len() == loaded@.len() + 1
            &&& b.posts@[0]@ == (*root)@
            &&& forall|i: int| 0 <= i < loaded@.len() ==> #[trigger] b.posts@[i + 1] == loaded@[i]
        },
        post_ids(loaded@).contains(root.id@) ==> b.posts@ == loaded@,
        b.screen == a.screen,
        b.thread_expanded,
{
    if !post_ids(loaded@).contains(root.id@) {
        assert forall|i: int| 0 <= i < loaded@.len() implies #[trigger] b.posts@[i + 1] == loaded@[i] by {
            assert(b.posts@.subrange(1, b.posts@.len() as int)[i] == b.posts@[i + 1]);
        }
    }
}

pub open spec fn min_int(a: int, b: int) -> int {
    if a < b {
        a
    } else {
        b
    }
}

pub open spec fn sat_sub(a: int, b: int) -> int {
    if a >= b {
        a - b
    } else {
        0
    }
}

/// Whether `root` restores the Home feed from the cache: the target is Home
/// and the cache holds a feed of the current kind.
pub open spec fn restores_home(a: App, cache: Option<HomeCache>, screen: Screen) -> bool {
    &&& screen is Home
    &&& cache matches Some(c) && c.feed == a.feed_kind
}

/// `b` is `a` after `root(screen)`: the back stack is cleared; Home comes
/// back from the cache (refreshed silently) when one of the current feed kind
/// is there; any other root starts empty and loads loudly.
pub open spec fn rooted(a: App, b: App, screen: Screen) -> bool {
    &&& remembers(a, b.home_cache)
    &&& b.history@.len() == 0
    &&& b.screen == screen
    &&& b.lists@.len() == 0
    &&& if restores_home(a, b.home_cache, screen) {
        let c = b.home_cache->0;
        &&& post_values(b.posts@) == post_values(c.posts@)
        &&& post_ids(b.posts@) == post_ids(c.posts@)
        &&& b.posts@.len() == c.posts@.len()
        &&& b.selected == min_int(c.selected as int, sat_sub(c.posts@.len() as int, 1))
        &&& b == App {
            screen,
            history: b.history,
            posts: b.posts,
            lists: b.lists,
            selected: b.selected,
            status: c.status,
            error: c.error,
            next_token: c.next_token,
            body_scroll: c.body_scroll,
            home_cache: b.home_cache,
            generation: (a.generation + 1) as u32,
            pending_ops: b.pending_ops,
            pending_since: b.pending_since,
            effects: b.effects,
            ..a
        }
        &&& began_pending(a, b)
        &&& one_more_effect(a.effects@, b.effects@)
        &&& is_fetch_screen(b.effects@.last(), a.generation + 1, true, ScreenValue::Home, a.feed_kind)
    } else {
        &&& b.posts@.len() == 0
        &&& b.selected == 0
        &&& b.error is None
        &&& b.body_scroll == 0
        &&& b.body_scroll_max == 0
        &&& b.thread_sync_attempts == 0
        &&& b.next_background_fetch == a.clock
        &&& if screen is Explore {
            &&& b == App {
                screen,
                history: b.history,
                posts: b.posts,
                lists: b.lists,
                selected: 0,
                error: None,
                mode: InputMode::Search,
                query: b.query,
                search_cursor: 0,
                next_token: None,
                status: b.status,
                body_scroll: 0,
                body_scroll_max: 0,
                thread_sync_attempts: 0,
                next_background_fetch: a.clock,
                home_cache: b.home_cache,
                ..a
            }
            &&& b.query@.len() == 0
            &&& b.status@ == "Type a search and press Enter"@
        } else {
            &&& b == App {
                screen,
                history: b.history,
                posts: b.posts,
                lists: b.lists,
                selected: 0,
                error: None,
                status: b.status,
                next_token: None,
                body_scroll: 0,
                body_scroll_max: 0,
                thread_sync_attempts: 0,
                next_background_fetch: a.clock,
                home_cache: b.home_cache,
                generation: (a.generation + 1) as u32,
                pending_ops: b.pending_ops,
                pending_since: b.pending_since,
                effects: b.effects,
                ..a
            }
            &&& b.status@ == "Loading\u{2026}"@
            &&& began_pending(a, b)
            &&& one_more_effect(a.effects@, b.effects@)
            &&& is_fetch_screen(b.effects@.last(), a.generation + 1, false, screen@, a.feed_kind)
        }
    }
}

impl App {
    /// Jump to a top-level section: the back stack is cleared, and Home comes
    /// back from its cache when one of the current feed kind is there.
    pub fn root(&mut self, screen: Screen)
        requires
            old(self).can_request(),
        ensures
            rooted(*old(self), *final(self), screen),
    {
        self.remember_home();
        self.history.clear();
        let is_home = match screen {
            Screen::Home => true,
            _ => false,
        };
        self.screen = screen;
        let restore = is_home && match &self.home_cache {
            Some(c) => c.feed == self.feed_kind,
            None => false,
        };
        if restore {
            self.restore_home();
            self.request_current(true);
            return;
        }
        self.posts = Vec::new();
        self.lists = Vec::new();
        self.selected = 0;
        self.error = None;
        self.request_current(false);
    }

    fn restore_home(&mut self)
        requires
            old(self).home_cache is Some,
        ensures
            ({
                let c = old(self).home_cache->0;
                &&& post_values(final(self).posts@) == post_values(c.posts@)
                &&& post_ids(final(self).posts@) == post_ids(c.posts@)
                &&& final(self).posts@.len() == c.posts@.len()
                &&& final(self).lists@.len() == 0
                &&& final(self).selected == min_int(
                    c.selected as int,
                    sat_sub(c.posts@.len() as int, 1),
                )
                &&& *final(self) == App {
                    posts: final(self).posts,
                    lists: final(self).lists,
                    selected: final(self).selected,
                    status: c.status,
                    error: c.error,
                    next_token: c.next_token,
                    body_scroll: c.body_scroll,
                    ..*old(self)
                }
            }),
    {
        let (posts, selected, status, error, next_token, body_scroll) = match &self.home_cache {
            Some(c) => (
                clone_posts(&c.posts),
                c.selected,
                c.status.clone(),
                clone_opt_string(&c.error),
                clone_opt_string(&c.next_token),
                c.body_scroll,
            ),
            None => {
                assert(false);
                (Vec::new(), 0, String::new(), None, None, 0)
            },
        };
        self.posts = posts;
        let last = self.posts.len().saturating_sub(1);
        self.selected = if selected < last {
            selected
        } else {
            last
        };
        self.status = status;
        self.error = error;
        self.next_token = next_token;
        self.body_scroll = body_scroll;
        self.lists = Vec::new();
    }
}

/// Leaving a Home feed for any top-level section and coming back to Home
/// restores the retained feed (the same posts, in the same order) and the
/// reading position, instead of replacing it with a freshly loaded page.
pub proof fn law_home_feed_survives_a_round_trip(a: App, b: App, c: App, detour: Screen)
    requires
        a.screen is Home,
        a.posts@.len() > 0,
        rooted(a, b, detour),
        rooted(b, c, Screen::Home),
    ensures
        post_values(c.posts@) == post_values(a.posts@),
        post_ids(c.posts@) == post_ids(a.posts@),
        c.selected == min_int(a.selected as int, a.posts@.len() - 1),
        c.screen is Home,
        c.history@.len() == 0,
{
}

/// Where `move_selection(delta)` puts the cursor: clamped to the entries of
/// the current view (0 when it is empty).
pub open spec fn selection_after(a: App, delta: isize) -> int {
    let len = a.view_len();
    if len == 0 {
        0
    } else {
        clamp((a.selected as isize) + delta, 0, len - 1)
    }
}

/// `b` is `a` after moving the cursor by `delta`; a cursor that moves resets
/// the body scroll.
pub open spec fn moved(a: App, b: App, delta: isize) -> bool {
    let next = selection_after(a, delta);
    if a.view_len() == 0 {
        b == App { selected: 0, ..a }
    } else if next != a.selected {
        b == App { selected: next as usize, body_scroll: 0, body_scroll_max: 0, ..a }
    } else {
        b == a
    }
}

/// Whether a forward move of `delta` needs another page: a forward move on a
/// pageable feed with a continuation and nothing in flight, landing within
/// the prefetch margin (12 posts, fewer on short feeds) of the end.
pub open spec fn spec_will_load_more(a: App, delta: isize) -> bool {
    let len = a.posts@.len() as int;
    let prefetch = min_int(12, sat_sub(len, 2));
    &&& delta > 0
    &&& !(a.screen is Lists || a.screen is Thread)
    &&& a.pending_ops == 0
    &&& a.next_token is Some
    &&& min_int(a.selected + delta, usize::MAX as int) >= sat_sub(len, prefetch)
}

/// `b` is `a` after asking for the next page: nothing to ask without a
/// continuation or on lists and threads (the status says so); otherwise a
/// pending `FetchMore` for the current generation, screen, query and token.
pub open spec fn more_requested(a: App, b: App, silent: bool) -> bool {
    if a.next_token is None {
        b == App { status: b.status, ..a } && b.status@ == "You\u{2019}re all caught up."@
    } else if a.screen is Lists || a.screen is Thread {
        b == App { status: b.status, ..a } && b.status@
            == "No more items are available on this screen."@
    } else {
        &&& b == App {
            status: b.status,
            pending_ops: b.pending_ops,
            pending_since: b.pending_since,
            effects: b.effects,
            ..a
        }
        &&& b.status@ == "Loading more posts\u{2026}"@
        &&& began_pending(a, b)
        &&& one_more_effect(a.effects@, b.effects@)
        &&& is_fetch_more(
            b.effects@.last(),
            a.generation as int,
            silent,
            a.screen@,
            a.query@,
            a.next_token->0@,
        )
    }
}

/// `b` is `a` after `advance(delta)`: on a thread a long body scrolls before
/// the cursor moves; otherwise the next page is requested when the move
/// needs it, and the cursor moves.
pub open spec fn advanced(a: App, b: App, delta: isize) -> bool {
    if a.screen is Thread && delta > 0 && a.body_scroll < a.body_scroll_max {
        b == App { body_scroll: min_int(a.body_scroll + delta, a.body_scroll_max as int) as usize, ..a }
    } else if a.screen is Thread && delta < 0 && a.body_scroll > 0 {
        b == App { body_scroll: sat_sub(a.body_scroll as int, -delta) as usize, ..a }
    } else if spec_will_load_more(a, delta) {
        exists|m: App| more_requested(a, m, false) && #[trigger] moved(m, b, delta)
    } else {
        moved(a, b, delta)
    }
}

impl App {
    /// Move the cursor by `delta` within the current view.
    pub fn move_selection(&mut self, delta: isize)
        requires
            old(self).view_len() <= isize::MAX,
            old(self).view_len() > 0 ==> isize::MIN <= (old(self).selected as isize) + delta
                <= isize::MAX,
        ensures
            moved(*old(self), *final(self), delta),
    {
        let is_lists = match self.screen {
            Screen::Lists => true,
            _ => false,
        };
        let is_thread = match self.screen {
            Screen::Thread(_) => true,
            _ => false,
        };
        let len = if is_lists {
            self.lists.len()
        } else if is_thread && !self.thread_expanded {
            1
        } else {
            self.posts.len()
        };
        if len == 0 {
            self.selected = 0;
            return;
        }
        let v = self.selected as isize + delta;
        let hi = len as isize - 1;
        let next = if v < 0 {
            0
        } else if v > hi {
            hi as usize
        } else {
            v as usize
        };
        if next != self.selected {
            self.selected = next;
            self.body_scroll = 0;
            self.body_scroll_max = 0;
        }
    }

    /// Whether a forward move of `delta` would need another page.
    pub fn will_load_more(&self, delta: isize) -> (r: bool)
        ensures
            r == spec_will_load_more(*self, delta),
    {
        let len = self.posts.len();
        let short = len.saturating_sub(2);
        let prefetch = if 12 < short {
            12
        } else {
            short
        };
        let pageable = match self.screen {
            Screen::Lists => false,
            Screen::Thread(_) => false,
            _ => true,
        };
        delta > 0 && pageable && !self.has_pending() && self.next_token.is_some()
            && self.selected.saturating_add(delta as usize) >= len.saturating_sub(prefetch)
    }

    /// Ask for the next page of the current feed.
    pub fn request_more(&mut self)
        requires
            old(self).pending_ops < usize::MAX,
        ensures
            more_requested(*old(self), *final(self), false),
    {
        self.request_more_inner(false);
    }

    fn request_more_inner(&mut self, silent: bool)
        requires
            old(self).pending_ops < usize::MAX,
        ensures
            more_requested(*old(self), *final(self), silent),
    {
        let token = match &self.next_token {
            Some(t) => t.clone(),
            None => {
                self.status = owned("You\u{2019}re all caught up.");
                return;
            },
        };
        let pageable = match self.screen {
            Screen::Lists => false,
            Screen::Thread(_) => false,
            _ => true,
        };
        if !pageable {
            self.status = owned("No more items are available on this screen.");
            return;
        }
        self.status = owned("Loading more posts\u{2026}");
        let generation = self.generation;
        self.begin_pending();
        let screen = self.screen.clone();
        let query = self.query.clone();
        let ghost before = self.effects@;
        self.effects.push(Effect::FetchMore { generation, silent, screen, query, token });
        assert(self.effects@.subrange(0, before.len() as int) =~= before);
    }

    /// Move forward or back by `delta`: a thread's long body scrolls first,
    /// then the cursor moves, fetching the next page when the move nears the
    /// end of the feed.
    pub fn advance(&mut self, delta: isize)
        requires
            old(self).screen is Thread && delta > 0 && old(self).body_scroll
                < old(self).body_scroll_max ==> old(self).body_scroll + delta <= usize::MAX,
            old(self).view_len() <= isize::MAX,
            old(self).view_len() > 0 ==> isize::MIN <= (old(self).selected as isize) + delta
                <= isize::MAX,
            old(self).pending_ops < usize::MAX,
        ensures
            advanced(*old(self), *final(self), delta),
    {
        let is_thread = match self.screen {
            Screen::Thread(_) => true,
            _ => false,
        };
        if is_thread {
            if delta > 0 && self.body_scroll < self.body_scroll_max {
                let target = self.body_scroll + delta as usize;
                self.body_scroll = if target < self.body_scroll_max {
                    target
                } else {
                    self.body_scroll_max
                };
                return;
            }
            if delta < 0 && self.body_scroll > 0 {
                let step: usize = if delta == isize::MIN {
                    (isize::MAX as usize) + 1
                } else {
                    (-delta) as usize
                };
                self.body_scroll = self.body_scroll.saturating_sub(step);
                return;
            }
        }
        if self.will_load_more(delta) {
            let ghost a = *self;
            self.request_more();
            let ghost m = *self;
            self.move_selection(delta);
            assert(more_requested(a, m, false) && moved(m, *self, delta));
        } else {
            self.move_selection(delta);
        }
    }
}

/// Where text typed at character `cursor` lands (the end when the cursor is
/// past it).
pub open spec fn insert_point(q: Seq<char>, cursor: int) -> int {
    if cursor <= q.len() {
        cursor
    } else {
        q.len() as int
    }
}

/// The query after typing `ins` at the cursor.
pub open spec fn typed(q: Seq<char>, cursor: int, ins: Seq<char>) -> Seq<char> {
    let k = insert_point(q, cursor);
    q.subrange(0, k) + ins + q.subrange(k, q.len() as int)
}

/// The query after Backspace at `cursor` (> 0): the character before the
/// cursor goes; a cursor beyond the end clears the query, as the byte range
/// the editor computes then spans all of it.
pub open spec fn backspaced(q: Seq<char>, cursor: int) -> Seq<char> {
    let start = if cursor - 1 < q.len() {
        cursor - 1
    } else {
        0
    };
    let end = if cursor < q.len() {
        cursor
    } else {
        q.len() as int
    };
    q.subrange(0, start) + q.subrange(end, q.len() as int)
}

/// The query with the cursor bar drawn at `cursor` (no bar when the cursor is
/// past the end).
pub open spec fn with_cursor(q: Seq<char>, cursor: int) -> Seq<char> {
    if cursor <= q.len() {
        q.subrange(0, cursor).push('\u{258C}') + q.subrange(cursor, q.len() as int)
    } else {
        q
    }
}

/// The status shown while a search runs.
pub open spec fn searching_status(q: Seq<char>) -> Seq<char> {
    "Searching for \u{201C}"@ + q + "\u{201D}\u{2026}"@
}

/// Typing a character and then pressing Backspace gives back the query and
/// the cursor as they were.
pub proof fn law_backspace_undoes_typing(q: Seq<char>, cursor: int, c: char)
    requires
        0 <= cursor <= q.len(),
    ensures
        backspaced(typed(q, cursor, seq![c]), cursor + 1) == q,
{
    let t = typed(q, cursor, seq![c]);
    assert(t.len() == q.len() + 1);
    assert(t.subrange(0, cursor) =~= q.subrange(0, cursor));
    assert(t.subrange(cursor + 1, t.len() as int) =~= q.subrange(cursor, q.len() as int));
    assert(q.subrange(0, cursor) + q.subrange(cursor, q.len() as int) =~= q);
}

fn chars_range(v: &Vec<char>, from: usize, to: usize) -> (r: Vec<char>)
    requires
        from <= to <= v@.len(),
    ensures
        r@ == v@.subrange(from as int, to as int),
{
    let mut r: Vec<char> = Vec::new();
    let mut i = from;
    while i < to
        invariant
            from <= i <= to <= v@.len(),
            r@ == v@.subrange(from as int, i as int),
        decreases to - i,
    {
        r.push(v[i]);
        i += 1;
        assert(r@ =~= v@.subrange(from as int, i as int));
    }
    r
}

fn append_chars(a: &mut Vec<char>, b: &Vec<char>)
    ensures
        final(a)@ == old(a)@ + b@,
{
    let mut i: usize = 0;
    while i < b.len()
        invariant
            i <= b@.len(),
            a@ == old(a)@ + b@.subrange(0, i as int),
        decreases b@.len() - i,
    {
        a.push(b[i]);
        i += 1;
        assert(a@ =~= old(a)@ + b@.subrange(0, i as int));
    }
    assert(b@.subrange(0, b@.len() as int) =~= b@);
}

fn splice(q: &Vec<char>, k: usize, ins: &Vec<char>) -> (r: Vec<char>)
    requires
        k <= q@.len(),
    ensures
        r@ == q@.subrange(0, k as int) + ins@ + q@.subrange(k as int, q@.len() as int),
{
    let mut r = chars_range(q, 0, k);
    append_chars(&mut r, ins);
    let tail = chars_range(q, k, q.len());
    append_chars(&mut r, &tail);
    r
}

impl App {
    /// Move the search cursor by `delta`, clamped to the query.
    pub fn move_search_cursor(&mut self, delta: isize)
        requires
            old(self).query@.len() <= isize::MAX,
            isize::MIN <= (old(self).search_cursor as isize) + delta <= isize::MAX,
        ensures
            cursor_moved(*old(self), *final(self), delta),
    {
        let length = char_count(self.query.as_str());
        let v = self.search_cursor as isize + delta;
        let hi = length as isize;
        self.search_cursor = if v < 0 {
            0
        } else if v > hi {
            hi as usize
        } else {
            v as usize
        };
    }

    /// Type a character at the search cursor.
    pub fn insert_query_char(&mut self, character: char)
        requires
            old(self).search_cursor < usize::MAX,
        ensures
            char_typed(*old(self), *final(self), character),
    {
        let q = chars_of(self.query.as_str());
        let k = if self.search_cursor <= q.len() {
            self.search_cursor
        } else {
            q.len()
        };
        let mut ins: Vec<char> = Vec::new();
        ins.push(character);
        assert(ins@ =~= seq![character]);
        let r = splice(&q, k, &ins);
        self.query = crate::text::string_of(&r);
        self.search_cursor = self.search_cursor + 1;
    }

    /// Insert pasted text at the search cursor.
    pub fn insert_query_text(&mut self, text: &str)
        requires
            old(self).search_cursor + text@.len() <= usize::MAX,
        ensures
            final(self).query@ == typed(old(self).query@, old(self).search_cursor as int, text@),
            final(self).search_cursor == old(self).search_cursor + text@.len(),
            *final(self) == (App {
                query: final(self).query,
                search_cursor: final(self).search_cursor,
                ..*old(self)
            }),
    {
        let q = chars_of(self.query.as_str());
        let k = if self.search_cursor <= q.len() {
            self.search_cursor
        } else {
            q.len()
        };
        let ins = chars_of(text);
        let r = splice(&q, k, &ins);
        self.query = crate::text::string_of(&r);
        self.search_cursor = self.search_cursor + ins.len();
    }

    /// Delete the character before the search cursor.
    pub fn backspace_query(&mut self)
        ensures
            backspace_applied(*old(self), *final(self)),
    {
        if self.search_cursor == 0 {
            return;
        }
        let q = chars_of(self.query.as_str());
        let start = if self.search_cursor - 1 < q.len() {
            self.search_cursor - 1
        } else {
            0
        };
        let end = if self.search_cursor < q.len() {
            self.search_cursor
        } else {
            q.len()
        };
        let mut r = chars_range(&q, 0, start);
        let tail = chars_range(&q, end, q.len());
        append_chars(&mut r, &tail);
        self.query = crate::text::string_of(&r);
        self.search_cursor = self.search_cursor - 1;
    }

    /// Empty the search input.
    pub fn clear_query(&mut self)
        ensures
            query_cleared(*old(self), *final(self)),
    {
        self.query = String::new();
        self.search_cursor = 0;
    }

    /// The search input with a bar at the cursor.
    pub fn search_display(&self) -> (r: String)
        ensures
            r@ == with_cursor(self.query@, self.search_cursor as int),
    {
        let q = chars_of(self.query.as_str());
        if self.search_cursor <= q.len() {
            let mut bar: Vec<char> = Vec::new();
            bar.push('\u{258C}');
            let r = splice(&q, self.search_cursor, &bar);
            assert(r@ =~= with_cursor(self.query@, self.search_cursor as int));
            crate::text::string_of(&r)
        } else {
            crate::text::string_of(&q)
        }
    }

    /// Open search input on Explore (pushing the current view unless already
    /// there), with an empty query and feed.
    pub fn begin_search(&mut self)
        ensures
            search_begun(*old(self), *final(self)),
    {
        let at_explore = match self.screen {
            Screen::Explore => true,
            _ => false,
        };
        if !at_explore {
            self.push_view(Screen::Explore);
        }
        self.mode = InputMode::Search;
        self.query = String::new();
        self.search_cursor = 0;
        self.posts = Vec::new();
        self.selected = 0;
        self.error = None;
        self.status = owned("Type a search and press Enter");
    }

    /// Run the typed search: the query is trimmed, and an empty one only
    /// leaves search input.
    pub fn submit_search(&mut self)
        requires
            old(self).can_request(),
        ensures
            search_submitted(*old(self), *final(self)),
    {
        self.mode = InputMode::Normal;
        let q = chars_of(self.query.as_str());
        let trimmed = crate::text::trim_chars(&q);
        if trimmed.len() == 0 {
            return;
        }
        self.query = crate::text::string_of(&trimmed);
        self.screen = Screen::Explore;
        self.selected = 0;
        self.error = None;
        let mut status = chars_of("Searching for \u{201C}");
        append_chars(&mut status, &trimmed);
        let close = chars_of("\u{201D}\u{2026}");
        append_chars(&mut status, &close);
        self.status = crate::text::string_of(&status);
        self.generation = self.generation + 1;
        self.begin_pending();
        let query = crate::text::string_of(&trimmed);
        let ghost before = self.effects@;
        self.effects.push(Effect::Search { generation: self.generation, query });
        assert(self.effects@.subrange(0, before.len() as int) =~= before);
    }
}


/// `b` is `a` after opening the entry under the cursor: a list opens its
/// feed; a post opens its thread, painted at once with the post itself while
/// the replies load.
pub open spec fn activated(a: App, b: App) -> bool {
    if a.screen is Lists {
        if a.selected < a.lists@.len() {
            entered(a, b, Screen::ListFeed(Box::new(a.lists@[a.selected as int])))
        } else {
            b == a
        }
    } else if a.selected < a.posts@.len() {
        let post = a.posts@[a.selected as int];
        exists|m: App|
            #[trigger] entered(a, m, m.screen) && m.screen@ == ScreenValue::Thread(post@) && b
                == (App { posts: b.posts, ..m }) && b.posts@.len() == 1 && b.posts@[0]@ == post@
    } else {
        b == a
    }
}

/// Whose profile `open_profile` shows: the selected post's author, else the
/// signed-in account.
pub open spec fn profile_target(a: App) -> Option<User> {
    if a.selected < a.posts@.len() {
        Some(a.posts@[a.selected as int].author)
    } else {
        a.me
    }
}

/// Whose likes `open_likes` shows: the profile on screen, else the selected
/// post's author.
pub open spec fn likes_target(a: App) -> Option<User> {
    match a.screen {
        Screen::Profile(u) => Some(*u),
        _ => if a.selected < a.posts@.len() {
            Some(a.posts@[a.selected as int].author)
        } else {
            None
        },
    }
}

/// The address `open_external` hands to the system opener: the selected
/// post's permalink, or with `media_only` its first attachment's external
/// address when it has one.
pub open spec fn external_target(a: App, media_only: bool) -> Option<Seq<char>> {
    if a.selected < a.posts@.len() {
        let p = a.posts@[a.selected as int];
        let link = permalink_of(p.author.username@, p.id@);
        if media_only && p.media@.len() > 0 {
            match external_url(p.media@[0]) {
                Some(u) => Some(u@),
                None => Some(link),
            }
        } else {
            Some(link)
        }
    } else {
        None
    }
}

/// `b` is `a` after a request that needs no generation: `status` is shown,
/// the request is counted and effect `e` is recorded.
pub open spec fn asked(a: App, b: App, status: Seq<char>, e: Effect) -> bool {
    &&& b == App {
        status: b.status,
        pending_ops: b.pending_ops,
        pending_since: b.pending_since,
        effects: b.effects,
        ..a
    }
    &&& b.status@ == status
    &&& began_pending(a, b)
    &&& one_more_effect(a.effects@, b.effects@)
    &&& b.effects@.last() == e
}

pub open spec fn other_feed(k: FeedKind) -> FeedKind {
    match k {
        FeedKind::Following => FeedKind::ForYou,
        FeedKind::ForYou => FeedKind::Following,
    }
}

pub open spec fn switched_status(k: FeedKind) -> Seq<char> {
    match k {
        FeedKind::Following => "Switched to the Following timeline"@,
        FeedKind::ForYou => "Switched to the algorithmic For You timeline"@,
    }
}

/// `b` is `a` after toggling the timeline: only in browser mode, and Home
/// reloads with the other timeline.
pub open spec fn toggled(a: App, b: App) -> bool {
    if !a.browser_mode {
        b == (App { status: b.status, ..a }) && b.status@
            == "For You is only available in browser mode"@
    } else if a.screen is Home {
        requested(App { feed_kind: other_feed(a.feed_kind), ..a }, b, false)
    } else {
        b == (App { feed_kind: other_feed(a.feed_kind), status: b.status, ..a }) && b.status@
            == switched_status(other_feed(a.feed_kind))
    }
}

/// The landing menu, in display order.
pub open spec fn landing_menu(demo: bool, browser_mode: bool, login_pending: bool) -> Seq<
    (Seq<char>, LandingAction),
> {
    let start = if demo {
        "Start (demo \u{2014} no account)"@
    } else if browser_mode {
        "Start (live \u{00B7} browser extension)"@
    } else {
        "Start (live \u{00B7} X API)"@
    };
    let with_start = seq![(start, LandingAction::Start)];
    let with_sign_in = if !browser_mode {
        with_start.push(("Connect browser extension"@, LandingAction::SignIn))
    } else {
        with_start
    };
    let with_verify = if login_pending {
        with_sign_in.push(("I finished signing in \u{2014} verify"@, LandingAction::Verify))
    } else {
        with_sign_in
    };
    with_verify.push(("Quit"@, LandingAction::Quit))
}

pub open spec fn entries_view(v: Seq<(String, LandingAction)>) -> Seq<(Seq<char>, LandingAction)> {
    v.map_values(|e: (String, LandingAction)| (e.0@, e.1))
}

/// `b` is `a` after activating the highlighted landing entry.
pub open spec fn landing_activated(a: App, b: App) -> bool {
    let items = landing_menu(a.demo, a.browser_mode, a.login_pending);
    if a.landing_selected >= items.len() {
        b == a
    } else {
        match items[a.landing_selected as int].1 {
            LandingAction::Start => entered(App { landing_selected: 0, ..a }, b, Screen::Home),
            LandingAction::SignIn => asked(
                a,
                b,
                "Preparing the browser extension\u{2026}"@,
                Effect::PrepareExtension,
            ),
            LandingAction::Verify => asked(
                a,
                b,
                "Checking the browser session\u{2026}"@,
                Effect::CheckSignIn,
            ),
            LandingAction::Quit => b == App { should_quit: true, ..a },
        }
    }
}

/// The heading of a screen.
pub open spec fn title_of(s: Screen) -> Seq<char> {
    match s {
        Screen::Landing => "XTUI"@,
        Screen::Home => "Home"@,
        Screen::Explore => "Explore"@,
        Screen::Mentions => "Mentions"@,
        Screen::Bookmarks => "Bookmarks"@,
        Screen::Lists => "Lists"@,
        Screen::ListFeed(l) => l.name@,
        Screen::Profile(u) => u.name@,
        Screen::Likes(u) => "Posts liked by "@ + u.name@,
        Screen::Thread(_) => "Post"@,
    }
}

/// The status line after a screen loads.
pub open spec fn feed_status_of(a: App) -> Seq<char> {
    if a.posts@.len() == 0 && !(a.screen is Lists || a.screen is Explore) {
        "Nothing here yet."@
    } else if a.demo {
        "DEMO \u{00B7} no network or account required"@
    } else if a.browser_mode {
        "LIVE \u{00B7} browser extension \u{00B7} no API credits"@
    } else {
        "Live \u{00B7} X API"@
    }
}

impl App {
    /// Open the entry under the cursor.
    pub fn activate(&mut self)
        requires
            old(self).can_request(),
        ensures
            activated(*old(self), *final(self)),
    {
        let is_lists = match self.screen {
            Screen::Lists => true,
            _ => false,
        };
        if is_lists {
            if self.selected < self.lists.len() {
                let list = self.lists[self.selected].clone();
                self.navigate(Screen::ListFeed(Box::new(list)));
            }
        } else if self.selected < self.posts.len() {
            let post = self.posts[self.selected].clone();
            let shown = post.clone();
            self.navigate(Screen::Thread(Box::new(post)));
            let ghost m = *self;
            self.posts.push(shown);
            assert(entered(*old(self), m, m.screen));
        }
    }

    /// Show the profile of the selected post's author (or of the signed-in
    /// account).
    pub fn open_profile(&mut self)
        requires
            old(self).can_request(),
        ensures
            profile_opened(*old(self), *final(self)),
    {
        let user = if self.selected < self.posts.len() {
            Some(self.posts[self.selected].author.clone())
        } else {
            match &self.me {
                Some(me) => Some(me.clone()),
                None => None,
            }
        };
        if let Some(user) = user {
            self.navigate(Screen::Profile(Box::new(user)));
        }
    }

    /// Show the posts liked by the profile on screen (or by the selected
    /// post's author).
    pub fn open_likes(&mut self)
        requires
            old(self).can_request(),
        ensures
            likes_opened(*old(self), *final(self)),
    {
        let user = match &self.screen {
            Screen::Profile(u) => Some((**u).clone()),
            _ => if self.selected < self.posts.len() {
                Some(self.posts[self.selected].author.clone())
            } else {
                None
            },
        };
        if let Some(user) = user {
            self.navigate(Screen::Likes(Box::new(user)));
        }
    }

    /// Ask the system to open the selected post in the browser (with
    /// `media_only`, its first attachment when it has an address).
    pub fn open_external(&mut self, media_only: bool)
        ensures
            opened_external(*old(self), *final(self), media_only),
    {
        if self.selected >= self.posts.len() {
            return;
        }
        let post = &self.posts[self.selected];
        let link = post.permalink();
        let url = if media_only && post.media.len() > 0 {
            match crate::media::best_external_url(&post.media[0]) {
                Some(u) => u,
                None => link,
            }
        } else {
            link
        };
        let ghost before = self.effects@;
        self.effects.push(Effect::OpenExternal { url });
        assert(self.effects@.subrange(0, before.len() as int) =~= before);
    }

    /// Report that the system opener refused an address.
    pub fn open_failed(&mut self, reason: &str)
        ensures
            final(self).error matches Some(e) && e@ == "Could not open browser: "@ + reason@,
            *final(self) == (App { error: final(self).error, ..*old(self) }),
    {
        self.error = Some(crate::text::concat2("Could not open browser: ", reason));
    }

    /// Reload the current screen, clearing the last error.
    pub fn refresh(&mut self)
        requires
            old(self).can_request(),
        ensures
            requested(App { error: None, ..*old(self) }, *final(self), false),
    {
        self.error = None;
        self.request_current(false);
    }

    /// Switch between the Following and For You timelines (browser mode
    /// only).
    pub fn toggle_feed(&mut self)
        requires
            old(self).can_request(),
        ensures
            toggled(*old(self), *final(self)),
    {
        if !self.browser_mode {
            self.status = owned("For You is only available in browser mode");
            return;
        }
        self.feed_kind = match self.feed_kind {
            FeedKind::Following => FeedKind::ForYou,
            FeedKind::ForYou => FeedKind::Following,
        };
        self.status = match self.feed_kind {
            FeedKind::Following => owned("Switched to the Following timeline"),
            FeedKind::ForYou => owned("Switched to the algorithmic For You timeline"),
        };
        let at_home = match self.screen {
            Screen::Home => true,
            _ => false,
        };
        if at_home {
            self.request_current(false);
        }
    }

    /// The landing page menu, in display order.
    pub fn landing_items(&self) -> (r: Vec<(String, LandingAction)>)
        ensures
            entries_view(r@) == landing_menu(self.demo, self.browser_mode, self.login_pending),
    {
        let mut items: Vec<(String, LandingAction)> = Vec::new();
        let start = if self.demo {
            owned("Start (demo \u{2014} no account)")
        } else if self.browser_mode {
            owned("Start (live \u{00B7} browser extension)")
        } else {
            owned("Start (live \u{00B7} X API)")
        };
        items.push((start, LandingAction::Start));
        if !self.browser_mode {
            items.push((owned("Connect browser extension"), LandingAction::SignIn));
        }
        if self.login_pending {
            items.push((owned("I finished signing in \u{2014} verify"), LandingAction::Verify));
        }
        items.push((owned("Quit"), LandingAction::Quit));
        assert(entries_view(items@) =~= landing_menu(
            self.demo,
            self.browser_mode,
            self.login_pending,
        ));
        items
    }

    /// Carry out the highlighted landing entry.
    pub fn activate_landing(&mut self)
        requires
            old(self).can_request(),
        ensures
            landing_activated(*old(self), *final(self)),
    {
        let items = self.landing_items();
        if self.landing_selected >= items.len() {
            return;
        }
        let action = items[self.landing_selected].1;
        assert(action == entries_view(items@)[self.landing_selected as int].1);
        match action {
            LandingAction::Start => self.start_reading(),
            LandingAction::SignIn => self.request_browser_login(),
            LandingAction::Verify => self.request_sign_in_check(),
            LandingAction::Quit => {
                self.should_quit = true;
            },
        }
    }

    /// Enter the Home feed; the landing page stays on the back stack.
    pub fn start_reading(&mut self)
        requires
            old(self).can_request(),
        ensures
            entered(App { landing_selected: 0, ..*old(self) }, *final(self), Screen::Home),
    {
        self.landing_selected = 0;
        self.navigate(Screen::Home);
    }

    fn ask(&mut self, status: &str, e: Effect)
        requires
            old(self).pending_ops < usize::MAX,
        ensures
            asked(*old(self), *final(self), status@, e),
    {
        self.status = owned(status);
        self.begin_pending();
        let ghost before = self.effects@;
        self.effects.push(e);
        assert(self.effects@.subrange(0, before.len() as int) =~= before);
    }

    /// Prepare the browser extension's files.
    pub fn request_browser_login(&mut self)
        requires
            old(self).pending_ops < usize::MAX,
        ensures
            asked(
                *old(self),
                *final(self),
                "Preparing the browser extension\u{2026}"@,
                Effect::PrepareExtension,
            ),
    {
        self.ask("Preparing the browser extension\u{2026}", Effect::PrepareExtension);
    }

    /// Connect to the extension and confirm the browser's X session.
    pub fn request_sign_in_check(&mut self)
        requires
            old(self).pending_ops < usize::MAX,
        ensures
            asked(
                *old(self),
                *final(self),
                "Checking the browser session\u{2026}"@,
                Effect::CheckSignIn,
            ),
    {
        self.ask("Checking the browser session\u{2026}", Effect::CheckSignIn);
    }

    /// Ask the source who is signed in.
    pub fn request_bootstrap(&mut self)
        requires
            old(self).pending_ops < usize::MAX,
        ensures
            asked(*old(self), *final(self), "Checking your session\u{2026}"@, Effect::Bootstrap),
    {
        self.ask("Checking your session\u{2026}", Effect::Bootstrap);
    }

    /// The heading of the current screen.
    pub fn title(&self) -> (r: String)
        ensures
            r@ == title_of(self.screen),
    {
        match &self.screen {
            Screen::Landing => owned("XTUI"),
            Screen::Home => owned("Home"),
            Screen::Explore => owned("Explore"),
            Screen::Mentions => owned("Mentions"),
            Screen::Bookmarks => owned("Bookmarks"),
            Screen::Lists => owned("Lists"),
            Screen::ListFeed(l) => l.name.clone(),
            Screen::Profile(u) => u.name.clone(),
            Screen::Likes(u) => crate::text::concat2("Posts liked by ", u.name.as_str()),
            Screen::Thread(_) => owned("Post"),
        }
    }

    /// The status line after a screen loads.
    pub fn feed_status(&self) -> (r: String)
        ensures
            r@ == feed_status_of(*self),
    {
        let plain = match self.screen {
            Screen::Lists => true,
            Screen::Explore => true,
            _ => false,
        };
        if self.posts.len() == 0 && !plain {
            owned("Nothing here yet.")
        } else if self.demo {
            owned("DEMO \u{00B7} no network or account required")
        } else if self.browser_mode {
            owned("LIVE \u{00B7} browser extension \u{00B7} no API credits")
        } else {
            owned("Live \u{00B7} X API")
        }
    }
}


/// The characters of each string.
pub open spec fn str_views(v: Seq<String>) -> Seq<Seq<char>> {
    v.map_values(|s: String| s@)
}

/// `s` with `x` added unless it is already there (a set insert).
pub open spec fn set_insert(s: Seq<Seq<char>>, x: Seq<char>) -> Seq<Seq<char>> {
    if s.contains(x) {
        s
    } else {
        s.push(x)
    }
}

/// `v` without the strings equal to `x` (a set remove).
pub open spec fn without(v: Seq<String>, x: Seq<char>) -> Seq<String> {
    v.filter(|e: String| e@ != x)
}

/// The name a media kind is shown by when it has no alternative text.
pub open spec fn kind_name(k: MediaKind) -> Seq<char> {
    match k {
        MediaKind::Photo => "Photo"@,
        MediaKind::Video => "Video"@,
        MediaKind::AnimatedGif => "AnimatedGif"@,
    }
}

/// `b` is `a` after asking for the still at `url`: nothing when it is cached
/// or already on its way; otherwise it is marked in flight (and counted as a
/// pending request when `counted`) and a `FetchMedia` effect is recorded.
pub open spec fn fetch_started(a: App, b: App, url: Seq<char>, counted: bool) -> bool {
    if str_views(a.media_cache@).contains(url) || str_views(a.media_inflight@).contains(url) {
        b == a
    } else {
        &&& b == App {
            media_inflight: b.media_inflight,
            pending_ops: b.pending_ops,
            pending_since: b.pending_since,
            effects: b.effects,
            ..a
        }
        &&& str_views(b.media_inflight@) == str_views(a.media_inflight@).push(url)
        &&& if counted {
            began_pending(a, b)
        } else {
            b.pending_ops == a.pending_ops && b.pending_since == a.pending_since
        }
        &&& one_more_effect(a.effects@, b.effects@)
        &&& b.effects@.last() matches Effect::FetchMedia { url: u, counted: c }
        &&& u@ == url
        &&& c == counted
    }
}

/// The addresses among `urls` that a run of uncounted fetches starts, in
/// order: those neither cached, nor in flight, nor seen earlier in `urls`.
pub open spec fn new_fetches(
    cache: Seq<Seq<char>>,
    inflight: Seq<Seq<char>>,
    urls: Seq<Seq<char>>,
) -> Seq<Seq<char>>
    decreases urls.len(),
{
    if urls.len() == 0 {
        Seq::empty()
    } else {
        let earlier = new_fetches(cache, inflight, urls.drop_last());
        let u = urls.last();
        if cache.contains(u) || inflight.contains(u) || earlier.contains(u) {
            earlier
        } else {
            earlier.push(u)
        }
    }
}

/// `b` is `a` after asking for the preview of the selected post's first
/// attachment.
pub open spec fn preview_requested(a: App, b: App) -> bool {
    if !(a.selected < a.posts@.len() && a.posts@[a.selected as int].media@.len() > 0) {
        b == (App { status: b.status, ..a }) && b.status@ == "This post has no attached media."@
    } else {
        let item = a.posts@[a.selected as int].media@[0];
        match preview_url(item) {
            None => b == (App { status: b.status, ..a }) && b.status@
                == "No still preview is available \u{2014} press V to open the media."@,
            Some(url) => {
                let alt = match item.alt_text {
                    Some(t) => t@,
                    None => kind_name(item.kind),
                };
                if str_views(a.media_cache@).contains(url@) {
                    &&& b == (App { media_preview: b.media_preview, status: b.status, ..a })
                    &&& b.media_preview matches Some((t, u))
                    &&& t@ == alt
                    &&& u@ == url@
                    &&& b.status@ == "Media preview \u{00B7} cached"@
                } else {
                    exists|m: App|
                        {
                            &&& m == App {
                                status: m.status,
                                open_media_on_arrival: m.open_media_on_arrival,
                                ..a
                            }
                            &&& m.status@ == "Rendering media preview\u{2026}"@
                            &&& str_views(m.open_media_on_arrival@) == set_insert(
                                str_views(a.open_media_on_arrival@),
                                url@,
                            )
                            &&& #[trigger] fetch_started(m, b, url@, true)
                        }
                }
            },
        }
    }
}

/// Where `s` first occurs in `v`.
fn position_of(v: &Vec<String>, s: &str) -> (r: Option<usize>)
    ensures
        match r {
            Some(i) => i < v@.len() && v@[i as int]@ == s@ && forall|j: int|
                0 <= j < i ==> v@[j]@ != s@,
            None => !str_views(v@).contains(s@),
        },
{
    let mut i: usize = 0;
    while i < v.len()
        invariant
            i <= v@.len(),
            forall|j: int| 0 <= j < i ==> v@[j]@ != s@,
        decreases v@.len() - i,
    {
        if crate::text::str_eq(v[i].as_str(), s) {
            return Some(i);
        }
        i += 1;
    }
    assert forall|k: int| 0 <= k < str_views(v@).len() implies str_views(v@)[k] != s@ by {}
    None
}

fn contains_str(v: &Vec<String>, s: &str) -> (r: bool)
    ensures
        r == str_views(v@).contains(s@),
{
    match position_of(v, s) {
        Some(i) => {
            assert(str_views(v@)[i as int] == s@);
            true
        },
        None => false,
    }
}

/// Add `s` unless it is there already.
fn insert_str(v: &mut Vec<String>, s: &str)
    ensures
        str_views(final(v)@) == set_insert(str_views(old(v)@), s@),
{
    if !contains_str(v, s) {
        v.push(owned(s));
        assert(str_views(v@) =~= str_views(old(v)@).push(s@));
    }
}

/// Drop every copy of `s`; true when there was one.
fn remove_str(v: &mut Vec<String>, s: &str) -> (removed: bool)
    ensures
        removed == str_views(old(v)@).contains(s@),
        final(v)@ == without(old(v)@, s@),
{
    let removed = contains_str(v, s);
    let mut kept: Vec<String> = Vec::new();
    let ghost orig = v@;
    let n = v.len();
    let mut i: usize = 0;
    while v.len() > 0
        invariant
            n == orig.len(),
            i + v@.len() == n,
            v@ == orig.subrange(i as int, orig.len() as int),
            kept@ == without(orig.subrange(0, i as int), s@),
        decreases v@.len(),
    {
        let e = v.remove(0);
        proof {
            reveal(Seq::filter);
            assert(orig.subrange(0, i + 1).drop_last() =~= orig.subrange(0, i as int));
        }
        if !crate::text::str_eq(e.as_str(), s) {
            kept.push(e);
        }
        i += 1;
        assert(v@ =~= orig.subrange(i as int, orig.len() as int));
    }
    assert(orig.subrange(0, orig.len() as int) =~= orig);
    *v = kept;
    removed
}

impl App {
    /// Whether the still at `url` is decoded and kept.
    pub fn cached_media(&self, url: &str) -> (r: bool)
        ensures
            r == str_views(self.media_cache@).contains(url@),
    {
        contains_str(&self.media_cache, url)
    }

    /// The still to preview for the selected post.
    pub fn selected_preview_url(&self) -> (r: Option<String>)
        ensures
            r == (if self.selected < self.posts@.len() && self.posts@[self.selected as int].media@.len()
                > 0 {
                preview_url(self.posts@[self.selected as int].media@[0])
            } else {
                None
            }),
    {
        if self.selected < self.posts.len() && self.posts[self.selected].media.len() > 0 {
            crate::media::best_preview_url(&self.posts[self.selected].media[0])
        } else {
            None
        }
    }

    fn start_media_fetch(&mut self, url: String, counted: bool)
        requires
            counted ==> old(self).pending_ops < usize::MAX,
        ensures
            fetch_started(*old(self), *final(self), url@, counted),
    {
        if self.cached_media(url.as_str()) || contains_str(&self.media_inflight, url.as_str()) {
            return;
        }
        self.media_inflight.push(url.clone());
        assert(str_views(self.media_inflight@) =~= str_views(old(self).media_inflight@).push(url@));
        if counted {
            self.begin_pending();
        }
        let ghost before = self.effects@;
        self.effects.push(Effect::FetchMedia { url, counted });
        assert(self.effects@.subrange(0, before.len() as int) =~= before);
    }

    /// Fetch the stills of every visible card, without counting them as
    /// pending requests.
    pub fn ensure_visible_media(&mut self, urls: Vec<String>)
        ensures
            *final(self) == (App {
                media_inflight: final(self).media_inflight,
                effects: final(self).effects,
                ..*old(self)
            }),
            str_views(final(self).media_inflight@) == str_views(old(self).media_inflight@)
                + new_fetches(
                str_views(old(self).media_cache@),
                str_views(old(self).media_inflight@),
                str_views(urls@),
            ),
            final(self).effects@.subrange(0, old(self).effects@.len() as int)
                == old(self).effects@,
            final(self).effects@.len() == old(self).effects@.len() + new_fetches(
                str_views(old(self).media_cache@),
                str_views(old(self).media_inflight@),
                str_views(urls@),
            ).len(),
            forall|k: int|
                0 <= k < final(self).effects@.len() - old(self).effects@.len() ==> {
                    &&& #[trigger] final(self).effects@[old(self).effects@.len() + k] matches Effect::FetchMedia {
                        url: u,
                        counted: c,
                    }
                    &&& u@ == new_fetches(
                        str_views(old(self).media_cache@),
                        str_views(old(self).media_inflight@),
                        str_views(urls@),
                    )[k]
                    &&& !c
                },
    {
        let ghost cache = str_views(old(self).media_cache@);
        let ghost inflight = str_views(old(self).media_inflight@);
        let ghost all = str_views(urls@);
        let ghost n0 = old(self).effects@.len();
        let mut i: usize = 0;
        while i < urls.len()
            invariant
                i <= urls@.len(),
                all == str_views(urls@),
                cache == str_views(old(self).media_cache@),
                inflight == str_views(old(self).media_inflight@),
                n0 == old(self).effects@.len(),
                *self == (App {
                    media_inflight: self.media_inflight,
                    effects: self.effects,
                    ..*old(self)
                }),
                str_views(self.media_inflight@) == inflight + new_fetches(
                    cache,
                    inflight,
                    all.subrange(0, i as int),
                ),
                self.effects@.subrange(0, n0 as int) == old(self).effects@,
                self.effects@.len() == n0 + new_fetches(
                    cache,
                    inflight,
                    all.subrange(0, i as int),
                ).len(),
                forall|k: int|
                    0 <= k < self.effects@.len() - n0 ==> {
                        &&& #[trigger] self.effects@[n0 + k] matches Effect::FetchMedia {
                            url: u,
                            counted: c,
                        }
                        &&& u@ == new_fetches(cache, inflight, all.subrange(0, i as int))[k]
                        &&& !c
                    },
            decreases urls@.len() - i,
        {
            let ghost before = *self;
            let ghost earlier = new_fetches(cache, inflight, all.subrange(0, i as int));
            let url = urls[i].clone();
            assert(all.subrange(0, i + 1).drop_last() =~= all.subrange(0, i as int));
            assert(all[i as int] == url@);
            proof {
                assert(inflight + earlier == str_views(before.media_inflight@));
                assert((inflight + earlier).contains(url@) <==> (inflight.contains(url@)
                    || earlier.contains(url@))) by {
                    if inflight.contains(url@) {
                        let j = choose|j: int| 0 <= j < inflight.len() && inflight[j] == url@;
                        assert((inflight + earlier)[j] == url@);
                    }
                    if earlier.contains(url@) {
                        let j = choose|j: int| 0 <= j < earlier.len() && earlier[j] == url@;
                        assert((inflight + earlier)[inflight.len() + j] == url@);
                    }
                }
            }
            self.start_media_fetch(url, false);
            i += 1;
            proof {
                let now = new_fetches(cache, inflight, all.subrange(0, i as int));
                if now.len() > earlier.len() {
                    assert(now == earlier.push(url@));
                    assert(str_views(self.media_inflight@) =~= inflight + now);
                    assert(self.effects@.subrange(0, n0 as int) =~= before.effects@.subrange(
                        0,
                        n0 as int,
                    ));
                    assert forall|k: int| 0 <= k < self.effects@.len() - n0 implies {
                        &&& #[trigger] self.effects@[n0 + k] matches Effect::FetchMedia {
                            url: u,
                            counted: c,
                        }
                        &&& u@ == now[k]
                        &&& !c
                    } by {
                        if k < earlier.len() {
                            assert(self.effects@[n0 + k] == before.effects@[n0 + k]);
                        }
                    }
                } else {
                    assert(now == earlier);
                }
            }
        }
        assert(all.subrange(0, urls@.len() as int) =~= all);
    }

    /// Show the preview of the selected post's first attachment, fetching
    /// the still when it is not cached.
    pub fn request_media_preview(&mut self)
        requires
            old(self).pending_ops < usize::MAX,
        ensures
            preview_requested(*old(self), *final(self)),
    {
        if !(self.selected < self.posts.len() && self.posts[self.selected].media.len() > 0) {
            self.status = owned("This post has no attached media.");
            return;
        }
        let url = match crate::media::best_preview_url(&self.posts[self.selected].media[0]) {
            Some(u) => u,
            None => {
                self.status = owned(
                    "No still preview is available \u{2014} press V to open the media.",
                );
                return;
            },
        };
        let alt = match &self.posts[self.selected].media[0].alt_text {
            Some(t) => t.clone(),
            None => match self.posts[self.selected].media[0].kind {
                MediaKind::Photo => owned("Photo"),
                MediaKind::Video => owned("Video"),
                MediaKind::AnimatedGif => owned("AnimatedGif"),
            },
        };
        if self.cached_media(url.as_str()) {
            self.media_preview = Some((alt, url));
            self.status = owned("Media preview \u{00B7} cached");
            return;
        }
        self.status = owned("Rendering media preview\u{2026}");
        insert_str(&mut self.open_media_on_arrival, url.as_str());
        let ghost m = *self;
        self.start_media_fetch(url, true);
        assert(fetch_started(m, *self, url@, true));
    }
}


/// A feed cut to the newest `MAX_RETAINED_POSTS` posts (the oldest go).
pub open spec fn trimmed(s: Seq<Post>) -> Seq<Post> {
    if s.len() > MAX_RETAINED_POSTS {
        s.subrange(s.len() - MAX_RETAINED_POSTS, s.len() as int)
    } else {
        s
    }
}

/// How many posts `trimmed` drops.
pub open spec fn excess(len: int) -> int {
    sat_sub(len, MAX_RETAINED_POSTS as int)
}

/// The posts of `items` whose id is not in `ids`, in order.
pub open spec fn fresh_by_ids(ids: Seq<Seq<char>>, items: Seq<Post>) -> Seq<Post> {
    items.filter(|p: Post| !ids.contains(p.id@))
}

/// The posts of `items` whose id is not among those of `existing`, in order.
pub open spec fn fresh_posts(existing: Seq<Post>, items: Seq<Post>) -> Seq<Post> {
    fresh_by_ids(post_ids(existing), items)
}

pub open spec fn failed(a: App, b: App, e: Seq<char>) -> bool {
    &&& b == App { error: b.error, status: b.status, ..a }
    &&& b.error matches Some(x)
    &&& x@ == e
    &&& b.status@ == "Request failed \u{2014} press r to retry"@
}

/// `b` is `a` after a further page arrived: posts already shown are skipped,
/// the rest are appended and the feed is trimmed; a silent request keeps the
/// status unless an error is showing.
pub open spec fn more_applied(a: App, b: App, result: Result<Page<Post>, String>, silent: bool) -> bool {
    match result {
        Ok(page) => {
            let fresh = fresh_posts(a.posts@, page.items@);
            let all = a.posts@ + fresh;
            &&& b == App {
                posts: b.posts,
                selected: b.selected,
                next_token: page.next_token,
                next_background_fetch: b.next_background_fetch,
                status: b.status,
                ..a
            }
            &&& b.posts@ == trimmed(all)
            &&& b.selected == sat_sub(a.selected as int, excess(all.len() as int))
            &&& b.next_background_fetch == a.clock + if fresh.len() == 0 {
                700int
            } else {
                20int
            }
            &&& if silent && a.error is None {
                b.status == a.status
            } else if fresh.len() == 0 {
                b.status@ == "You\u{2019}re all caught up."@
            } else {
                b.status@ == "Loaded "@ + crate::text::decimal(fresh.len()) + " more posts"@
            }
        },
        Err(e) => failed(a, b, e@),
    }
}

/// The cursor kept within `len` entries.
pub open spec fn kept_within(selected: int, len: int) -> int {
    min_int(selected, sat_sub(len, 1))
}

/// `b` is `a` after a first page arrived. A loud load replaces the feed and
/// its continuation. A silent refresh puts the page first, keeps the older
/// posts that the page does not repeat, keeps the continuation and keeps
/// the cursor on the post it was on when that post is still there.
pub open spec fn page_applied(a: App, b: App, page: Page<Post>, silent: bool) -> bool {
    if silent {
        let merged = page.items@ + fresh_posts(page.items@, a.posts@);
        let posts = trimmed(merged);
        let sel = kept_within(
            sat_sub(a.selected as int, excess(merged.len() as int)),
            posts.len() as int,
        );
        &&& b == App { posts: b.posts, selected: b.selected, status: b.status, ..a }
        &&& b.posts@ == posts
        &&& if a.selected < a.posts@.len() {
            let id = a.posts@[a.selected as int].id@;
            &&& b.status@ == "Timeline refreshed"@
            &&& post_ids(posts).contains(id) ==> b.selected < posts.len() && posts[b.selected as int].id@
                == id && forall|j: int| 0 <= j < b.selected ==> posts[j].id@ != id
            &&& !post_ids(posts).contains(id) ==> b.selected == sel
        } else {
            b.status == a.status && b.selected == sel
        }
    } else {
        &&& b == App { posts: b.posts, selected: b.selected, next_token: page.next_token, ..a }
        &&& b.posts@ == page.items@
        &&& b.selected == kept_within(a.selected as int, page.items@.len() as int)
    }
}

/// The posts a thread shows: the replies as loaded, with the root first when
/// the load left it out.
pub open spec fn thread_shown(screen: Screen, loaded: Seq<Post>, shown: Seq<Post>) -> bool {
    match screen {
        Screen::Thread(root) => if !post_ids(loaded).contains(root.id@) {
            &&& shown.len() == loaded.len() + 1
            &&& shown[0]@ == root@
            &&& shown.subrange(1, shown.len() as int) == loaded
        } else {
            shown == loaded
        },
        _ => shown == loaded,
    }
}

/// `b` is `a` after the current screen's load arrived.
pub open spec fn screen_data_applied(
    a: App,
    b: App,
    result: Result<ScreenPayload, String>,
    silent: bool,
) -> bool {
    match result {
        Ok(ScreenPayload::Page(page)) => if silent {
            page_applied(a, b, page, true)
        } else {
            &&& page_applied(a, App { status: a.status, ..b }, page, false)
            &&& b.status@ == feed_status_of(b)
        },
        Ok(ScreenPayload::Thread(posts)) => {
            &&& b == App {
                posts: b.posts,
                selected: b.selected,
                next_background_fetch: b.next_background_fetch,
                thread_expanded: true,
                status: b.status,
                ..a
            }
            &&& thread_shown(a.screen, posts@, b.posts@)
            &&& b.selected == kept_within(a.selected as int, b.posts@.len() as int)
            &&& b.next_background_fetch == a.clock + 300
            &&& if silent {
                b.status == a.status
            } else {
                b.status@ == feed_status_of(b)
            }
        },
        Ok(ScreenPayload::Lists(lists)) => {
            &&& b == App { lists, selected: b.selected, status: b.status, ..a }
            &&& b.selected == kept_within(a.selected as int, lists@.len() as int)
            &&& if silent {
                b.status == a.status
            } else {
                b.status@ == feed_status_of(b)
            }
        },
        Err(e) => failed(a, b, e@),
    }
}

impl App {
    /// Keep at most `MAX_RETAINED_POSTS` posts, dropping the oldest; the
    /// cursor moves with its post.
    pub fn trim_feed(&mut self)
        ensures
            final(self).posts@ == trimmed(old(self).posts@),
            final(self).selected == sat_sub(
                old(self).selected as int,
                excess(old(self).posts@.len() as int),
            ),
            *final(self) == (App {
                posts: final(self).posts,
                selected: final(self).selected,
                ..*old(self)
            }),
    {
        let excess = self.posts.len().saturating_sub(MAX_RETAINED_POSTS);
        if excess > 0 {
            let kept = self.posts.split_off(excess);
            self.posts = kept;
            self.selected = self.selected.saturating_sub(excess);
        }
    }
}

/// The ids of `posts`, in order.
fn post_id_list(posts: &Vec<Post>) -> (r: Vec<String>)
    ensures
        str_views(r@) == post_ids(posts@),
{
    let mut r: Vec<String> = Vec::new();
    let mut i: usize = 0;
    while i < posts.len()
        invariant
            i <= posts@.len(),
            str_views(r@) == post_ids(posts@.subrange(0, i as int)),
        decreases posts@.len() - i,
    {
        let id = posts[i].id.clone();
        assert(id@ == posts@[i as int].id@);
        let ghost prev = r@;
        r.push(id);
        i += 1;
        assert(r@ == prev.push(id));
        assert(str_views(r@) =~= str_views(prev).push(id@));
        assert(post_ids(posts@.subrange(0, i as int)) =~= post_ids(posts@.subrange(0, i - 1)).push(
            posts@[i - 1].id@,
        ));
    }
    assert(posts@.subrange(0, posts@.len() as int) =~= posts@);
    r
}

/// Move the posts of `items` whose id is not among `ids` onto the end of
/// `out`.
fn append_fresh(out: &mut Vec<Post>, ids: &Vec<String>, items: Vec<Post>)
    ensures
        final(out)@ == old(out)@ + fresh_by_ids(str_views(ids@), items@),
{
    let mut rest = items;
    let ghost orig = rest@;
    let ghost known = str_views(ids@);
    let n = rest.len();
    let mut i: usize = 0;
    while rest.len() > 0
        invariant
            n == orig.len(),
            known == str_views(ids@),
            i + rest@.len() == n,
            rest@ == orig.subrange(i as int, n as int),
            out@ == old(out)@ + fresh_by_ids(known, orig.subrange(0, i as int)),
        decreases rest@.len(),
    {
        let p = rest.remove(0);
        proof {
            reveal(Seq::filter);
            assert(orig.subrange(0, i + 1).drop_last() =~= orig.subrange(0, i as int));
            assert(orig.subrange(0, i + 1).last() == p);
        }
        if !contains_str(ids, p.id.as_str()) {
            out.push(p);
            assert(out@ =~= old(out)@ + fresh_by_ids(known, orig.subrange(0, i + 1)));
        }
        i += 1;
        assert(rest@ =~= orig.subrange(i as int, n as int));
    }
    assert(orig.subrange(0, n as int) =~= orig);
}

/// Whether some post of `posts` has id `id`.
fn has_post_id(posts: &Vec<Post>, id: &str) -> (r: bool)
    ensures
        r == post_ids(posts@).contains(id@),
{
    match first_with_id(posts, id) {
        Some(i) => {
            assert(post_ids(posts@)[i as int] == id@);
            true
        },
        None => false,
    }
}

/// The first position of a post with id `id`.
fn first_with_id(posts: &Vec<Post>, id: &str) -> (r: Option<usize>)
    ensures
        match r {
            Some(i) => i < posts@.len() && posts@[i as int].id@ == id@ && forall|j: int|
                0 <= j < i ==> posts@[j].id@ != id@,
            None => !post_ids(posts@).contains(id@),
        },
{
    let mut i: usize = 0;
    while i < posts.len()
        invariant
            i <= posts@.len(),
            forall|j: int| 0 <= j < i ==> posts@[j].id@ != id@,
        decreases posts@.len() - i,
    {
        if crate::text::str_eq(posts[i].id.as_str(), id) {
            return Some(i);
        }
        i += 1;
    }
    assert forall|k: int| 0 <= k < post_ids(posts@).len() implies post_ids(posts@)[k] != id@ by {}
    None
}

impl App {
    /// Apply a further page.
    pub fn apply_more(&mut self, result: Result<Page<Post>, String>, silent: bool)
        requires
            old(self).clock <= u64::MAX - 700,
        ensures
            more_applied(*old(self), *final(self), result, silent),
    {
        let prior_status = self.status.clone();
        match result {
            Ok(page) => {
                let Page { items, next_token } = page;
                let before = self.posts.len();
                let ids = post_id_list(&self.posts);
                append_fresh(&mut self.posts, &ids, items);
                let added = self.posts.len() - before;
                self.trim_feed();
                self.next_token = next_token;
                self.next_background_fetch = if added == 0 {
                    self.clock + 700
                } else {
                    self.clock + 20
                };
                self.status = if added == 0 {
                    owned("You\u{2019}re all caught up.")
                } else {
                    let n = crate::text::decimal_string(added as u64);
                    crate::text::concat3("Loaded ", n.as_str(), " more posts")
                };
            },
            Err(e) => self.set_error(e),
        }
        if silent && self.error.is_none() {
            self.status = prior_status;
        }
    }
}


impl App {
    /// Apply the first page of the current screen.
    #[verifier::spinoff_prover]
    #[verifier::rlimit(40)]
    pub fn apply_page(&mut self, page: Page<Post>, silent: bool)
        ensures
            page_applied(*old(self), *final(self), page, silent),
    {
        let anchor: Option<String> = if silent && self.selected < self.posts.len() {
            Some(self.posts[self.selected].id.clone())
        } else {
            None
        };
        if silent {
            let Page { items, next_token: _ } = page;
            let ids = post_id_list(&items);
            let mut merged = items;
            let mut previous: Vec<Post> = Vec::new();
            std::mem::swap(&mut previous, &mut self.posts);
            append_fresh(&mut merged, &ids, previous);
            self.posts = merged;
            self.trim_feed();
        } else {
            let Page { items, next_token } = page;
            self.posts = items;
            self.next_token = next_token;
        }
        let last = self.posts.len().saturating_sub(1);
        if self.selected > last {
            self.selected = last;
        }
        if let Some(anchor) = anchor {
            if let Some(position) = first_with_id(&self.posts, anchor.as_str()) {
                assert(post_ids(self.posts@)[position as int] == anchor@);
                self.selected = position;
            }
            self.status = owned("Timeline refreshed");
        }
    }

    /// Apply the load of the current screen.
    pub fn apply_screen_data(&mut self, result: Result<ScreenPayload, String>, silent: bool)
        requires
            old(self).clock <= u64::MAX - 300,
        ensures
            screen_data_applied(*old(self), *final(self), result, silent),
    {
        match result {
            Ok(ScreenPayload::Page(page)) => {
                self.apply_page(page, silent);
                if !silent {
                    self.status = self.feed_status();
                }
            },
            Ok(ScreenPayload::Thread(posts)) => self.apply_thread(posts, silent),
            Ok(ScreenPayload::Lists(lists)) => self.apply_lists(lists, silent),
            Err(e) => self.set_error(e),
        }
    }
}


impl App {
    fn apply_thread(&mut self, posts: Vec<Post>, silent: bool)
        requires
            old(self).clock <= u64::MAX - 300,
        ensures
            screen_data_applied(
                *old(self),
                *final(self),
                Ok(ScreenPayload::Thread(posts)),
                silent,
            ),
    {
        let shown = thread_posts(&self.screen, posts);
        self.posts = shown;
        let last = self.posts.len().saturating_sub(1);
        if self.selected > last {
            self.selected = last;
        }
        self.next_background_fetch = self.clock + 300;
        self.thread_expanded = true;
        if !silent {
            self.status = self.feed_status();
        }
    }

    fn apply_lists(&mut self, lists: Vec<XList>, silent: bool)
        ensures
            screen_data_applied(*old(self), *final(self), Ok(ScreenPayload::Lists(lists)), silent),
    {
        self.lists = lists;
        let last = self.lists.len().saturating_sub(1);
        if self.selected > last {
            self.selected = last;
        }
        if !silent {
            self.status = self.feed_status();
        }
    }
}


/// The posts a thread shows for `screen` once `posts` loaded.
fn thread_posts(screen: &Screen, posts: Vec<Post>) -> (r: Vec<Post>)
    ensures
        thread_shown(*screen, posts@, r@),
{
    let ghost loaded = posts@;
    let mut shown = posts;
    let root: Option<Post> = match screen {
        Screen::Thread(p) => if !has_post_id(&shown, p.id.as_str()) {
            Some((**p).clone())
        } else {
            None
        },
        _ => None,
    };
    if let Some(r) = root {
        shown.insert(0, r);
        assert(shown@.subrange(1, shown@.len() as int) =~= loaded);
    }
    shown
}


/// Whether a message answers a counted request: every message but an
/// uncounted still and the answer to saving the extension mode.
pub open spec fn counts(msg: UiMsg) -> bool {
    match msg {
        UiMsg::MediaDone { counted, .. } => counted,
        UiMsg::ExtensionModeSaved { .. } => false,
        _ => true,
    }
}

/// `a` with one pending request finished (see `end_pending`).
pub open spec fn settled(a: App) -> App {
    let n = sat_sub(a.pending_ops as int, 1);
    App {
        pending_ops: n as usize,
        pending_since: if n == 0 {
            None
        } else {
            a.pending_since
        },
        ..a
    }
}

/// `b` is `a` after a search answered.
pub open spec fn searched(a: App, b: App, result: Result<Page<Post>, String>) -> bool {
    match result {
        Ok(page) => {
            &&& b == App {
                posts: page.items,
                next_token: page.next_token,
                status: b.status,
                ..a
            }
            &&& b.status@ == crate::text::decimal(page.items@.len()) + " results"@
        },
        Err(e) => failed(a, b, e@),
    }
}

/// `b` is `a` after the extension reported the browser's session: a
/// signed-in account switches the reader to the extension and asks for the
/// mode to be saved.
pub open spec fn signed_in(a: App, b: App, result: Result<User, String>) -> bool {
    match result {
        Ok(u) => if u.username@.len() > 0 {
            &&& b == App {
                me: Some(u),
                browser_mode: true,
                demo: false,
                login_pending: false,
                effects: b.effects,
                ..a
            }
            &&& one_more_effect(a.effects@, b.effects@)
            &&& b.effects@.last() == Effect::SaveExtensionMode { username: u.username }
        } else {
            failed(a, b, "X is not signed in in the browser profile"@)
        },
        Err(e) => failed(a, b, e@),
    }
}

/// The alternative text of a freshly rendered preview.
pub open spec fn rendered_alt(a: App) -> Seq<char> {
    if a.selected < a.posts@.len() && a.posts@[a.selected as int].media@.len() > 0 {
        match a.posts@[a.selected as int].media@[0].alt_text {
            Some(t) => t@,
            None => "Media"@,
        }
    } else {
        "Media"@
    }
}

/// `b` is `a` after the still at `url` arrived (or failed). It is no longer
/// in flight; a decoded still goes first in the cache, which drops its
/// oldest entry when full; the preview opens when it was asked for.
pub open spec fn media_done(a: App, b: App, url: Seq<char>, open: bool, result: Result<(), String>) -> bool {
    let should_open = open || str_views(a.open_media_on_arrival@).contains(url);
    &&& b.media_inflight@ == without(a.media_inflight@, url)
    &&& b.open_media_on_arrival@ == if open {
        a.open_media_on_arrival@
    } else {
        without(a.open_media_on_arrival@, url)
    }
    &&& match result {
        Ok(()) => {
            let evict = a.media_cache@.len() >= MEDIA_CACHE_LIMIT;
            &&& str_views(b.media_cache@) == seq![url] + str_views(
                if evict {
                    a.media_cache@.drop_last()
                } else {
                    a.media_cache@
                },
            )
            &&& if evict {
                &&& one_more_effect(a.effects@, b.effects@)
                &&& b.effects@.last() == Effect::DropMedia { url: a.media_cache@.last() }
            } else {
                b.effects == a.effects
            }
            &&& if should_open {
                &&& b == App {
                    media_inflight: b.media_inflight,
                    open_media_on_arrival: b.open_media_on_arrival,
                    media_cache: b.media_cache,
                    effects: b.effects,
                    media_preview: b.media_preview,
                    status: b.status,
                    ..a
                }
                &&& b.media_preview matches Some((t, u))
                &&& t@ == rendered_alt(a)
                &&& u@ == url
                &&& b.status@ == "Media preview \u{00B7} rendered"@
            } else {
                b == App {
                    media_inflight: b.media_inflight,
                    open_media_on_arrival: b.open_media_on_arrival,
                    media_cache: b.media_cache,
                    effects: b.effects,
                    ..a
                }
            }
        },
        Err(e) => if should_open {
            failed(
                App {
                    media_inflight: b.media_inflight,
                    open_media_on_arrival: b.open_media_on_arrival,
                    ..a
                },
                b,
                e@,
            )
        } else {
            b == App {
                media_inflight: b.media_inflight,
                open_media_on_arrival: b.open_media_on_arrival,
                ..a
            }
        },
    }
}

/// `b` is `a0` after applying `msg`. A counted message first finishes one
/// pending request; a feed result from an older generation changes nothing
/// else.
pub open spec fn processed(a0: App, b: App, msg: UiMsg) -> bool {
    let a = if counts(msg) {
        settled(a0)
    } else {
        a0
    };
    match msg {
        UiMsg::Bootstrap { me } => match me {
            Ok(u) => b == (App { me: Some(u), status: b.status, ..a }) && b.status@
                == "Signed in as @"@ + u.username@ + " \u{2014} press Enter to start"@,
            Err(_) => b == (App { me: None, status: b.status, ..a }) && b.status@
                == "Not connected \u{2014} demo mode is ready, or connect the browser extension"@,
        },
        UiMsg::ScreenLoaded { generation, silent, result } => if generation != a.generation {
            b == a
        } else {
            screen_data_applied(a, b, result, silent)
        },
        UiMsg::SearchDone { generation, result } => if generation != a.generation {
            b == a
        } else {
            searched(a, b, result)
        },
        UiMsg::MoreLoaded { generation, silent, result } => if generation != a.generation {
            b == a
        } else {
            more_applied(a, b, result, silent)
        },
        UiMsg::MediaDone { url, open, counted: _, result } => media_done(a, b, url@, open, result),
        UiMsg::SignInOpened { result } => match result {
            Ok(()) => b == (App { login_pending: true, status: b.status, ..a }) && b.status@
                == "Extension prepared \u{2014} load it in Edge, then press r to verify"@,
            Err(e) => failed(a, b, e@),
        },
        UiMsg::SignInChecked { result } => signed_in(a, b, result),
        UiMsg::ExtensionModeSaved { username, result } => {
            &&& b == (App { status: b.status, ..a })
            &&& b.status@ == match result {
                Ok(()) => "Connected as @"@ + username@
                    + " \u{2014} restart XTUI to use the extension"@,
                Err(e) => "Signed in as @"@ + username@ + " \u{2014} but saving the mode failed: "@
                    + e@,
            }
        },
    }
}

impl App {
    /// Apply one result handed back by the runtime.
    pub fn process_message(&mut self, msg: UiMsg)
        requires
            old(self).clock <= u64::MAX - 700,
        ensures
            processed(*old(self), *final(self), msg),
    {
        let counted = match &msg {
            UiMsg::MediaDone { counted, .. } => *counted,
            UiMsg::ExtensionModeSaved { .. } => false,
            _ => true,
        };
        if counted {
            self.end_pending();
        }
        match msg {
            UiMsg::Bootstrap { me } => self.on_bootstrap(me),
            UiMsg::ScreenLoaded { generation, silent, result } => {
                if generation == self.generation {
                    self.apply_screen_data(result, silent);
                }
            },
            UiMsg::SearchDone { generation, result } => {
                if generation == self.generation {
                    self.on_search_done(result);
                }
            },
            UiMsg::MoreLoaded { generation, silent, result } => {
                if generation == self.generation {
                    self.apply_more(result, silent);
                }
            },
            UiMsg::MediaDone { url, open, counted: _, result } => self.on_media_done(
                url,
                open,
                result,
            ),
            UiMsg::SignInOpened { result } => match result {
                Ok(()) => {
                    self.login_pending = true;
                    self.status = owned(
                        "Extension prepared \u{2014} load it in Edge, then press r to verify",
                    );
                },
                Err(e) => self.set_error(e),
            },
            UiMsg::SignInChecked { result } => self.on_sign_in_checked(result),
            UiMsg::ExtensionModeSaved { username, result } => {
                self.status = match result {
                    Ok(()) => crate::text::concat3(
                        "Connected as @",
                        username.as_str(),
                        " \u{2014} restart XTUI to use the extension",
                    ),
                    Err(e) => {
                        let mut s = crate::text::concat3(
                            "Signed in as @",
                            username.as_str(),
                            " \u{2014} but saving the mode failed: ",
                        );
                        s.append(e.as_str());
                        s
                    },
                };
            },
        }
    }

    fn on_bootstrap(&mut self, me: Result<User, String>)
        ensures
            match me {
                Ok(u) => *final(self) == (App { me: Some(u), status: final(self).status, ..*old(self) })
                    && final(self).status@ == "Signed in as @"@ + u.username@
                    + " \u{2014} press Enter to start"@,
                Err(_) => *final(self) == (App { me: None, status: final(self).status, ..*old(self) })
                    && final(self).status@
                    == "Not connected \u{2014} demo mode is ready, or connect the browser extension"@,
            },
    {
        match me {
            Ok(me) => {
                self.status = crate::text::concat3(
                    "Signed in as @",
                    me.username.as_str(),
                    " \u{2014} press Enter to start",
                );
                self.me = Some(me);
            },
            Err(_) => {
                self.me = None;
                self.status = owned(
                    "Not connected \u{2014} demo mode is ready, or connect the browser extension",
                );
            },
        }
    }

    fn on_search_done(&mut self, result: Result<Page<Post>, String>)
        ensures
            searched(*old(self), *final(self), result),
    {
        match result {
            Ok(page) => {
                let Page { items, next_token } = page;
                let n = crate::text::decimal_string(items.len() as u64);
                self.posts = items;
                self.next_token = next_token;
                self.status = crate::text::concat2(n.as_str(), " results");
            },
            Err(e) => self.set_error(e),
        }
    }

    fn on_sign_in_checked(&mut self, result: Result<User, String>)
        ensures
            signed_in(*old(self), *final(self), result),
    {
        match result {
            Ok(user) => {
                if char_count(user.username.as_str()) > 0 {
                    let username = user.username.clone();
                    self.me = Some(user);
                    self.browser_mode = true;
                    self.demo = false;
                    self.login_pending = false;
                    let ghost before = self.effects@;
                    self.effects.push(Effect::SaveExtensionMode { username });
                    assert(self.effects@.subrange(0, before.len() as int) =~= before);
                } else {
                    self.set_error(owned("X is not signed in in the browser profile"));
                }
            },
            Err(e) => self.set_error(e),
        }
    }

    #[verifier::spinoff_prover]
    #[verifier::rlimit(40)]
    fn on_media_done(&mut self, url: String, open: bool, result: Result<(), String>)
        ensures
            media_done(*old(self), *final(self), url@, open, result),
    {
        remove_str(&mut self.media_inflight, url.as_str());
        let should_open = if open {
            true
        } else {
            remove_str(&mut self.open_media_on_arrival, url.as_str())
        };
        match result {
            Ok(()) => {
                let ghost before = *self;
                if self.media_cache.len() >= MEDIA_CACHE_LIMIT {
                    if let Some(evicted) = self.media_cache.pop() {
                        self.effects.push(Effect::DropMedia { url: evicted });
                        assert(self.effects@.subrange(0, before.effects@.len() as int)
                            =~= before.effects@);
                    }
                }
                let ghost kept = self.media_cache@;
                self.media_cache.insert(0, url.clone());
                assert(str_views(self.media_cache@) =~= seq![url@] + str_views(kept));
                if should_open {
                    let alt = if self.selected < self.posts.len()
                        && self.posts[self.selected].media.len() > 0 {
                        match &self.posts[self.selected].media[0].alt_text {
                            Some(t) => t.clone(),
                            None => owned("Media"),
                        }
                    } else {
                        owned("Media")
                    };
                    self.media_preview = Some((alt, url));
                    self.status = owned("Media preview \u{00B7} rendered");
                }
            },
            Err(e) => {
                if should_open {
                    self.set_error(e);
                }
            },
        }
    }
}


/// How many posts a synced thread should hold: its replies and the root,
/// between 2 and 100.
pub open spec fn thread_expected(a: App) -> int {
    let raw = if a.posts@.len() > 0 {
        a.posts@[0].metrics.reply_count + 1
    } else {
        2
    };
    clamp(raw, 2, 100)
}

/// `b` is `a` after one read-ahead tick that returned `r`. Nothing happens
/// while a request is pending or before the next background fetch is due.
/// In browser mode a thread reloads silently until it holds its expected
/// posts (at least twice, at most 16 times, half a second apart). Any other
/// pageable feed with a continuation silently asks for its next page unless
/// enough posts lie ahead of the cursor (in browser mode: unless the feed is
/// also full).
pub open spec fn read_ahead(a: App, b: App, r: bool) -> bool {
    let len = a.posts@.len() as int;
    let ahead = sat_sub(len, a.selected as int);
    if a.pending_ops > 0 || a.clock < a.next_background_fetch {
        !r && b == a
    } else if a.screen is Thread && a.browser_mode {
        if a.thread_sync_attempts >= 16 || (len >= thread_expected(a) && a.thread_sync_attempts
            >= 2) {
            !r && b == a
        } else {
            r && requested(
                App {
                    thread_sync_attempts: (a.thread_sync_attempts + 1) as usize,
                    next_background_fetch: (a.clock + 500) as u64,
                    ..a
                },
                b,
                true,
            )
        }
    } else if a.next_token is None || a.screen is Landing || a.screen is Lists || a.screen is Thread
        || (!a.browser_mode && ahead >= MIN_POSTS_AHEAD) || (a.browser_mode && len
        >= MAX_RETAINED_POSTS && ahead >= MIN_POSTS_AHEAD) {
        !r && b == a
    } else {
        r && exists|m: App| #[trigger] more_requested(a, m, true) && b == App { status: a.status, ..m }
    }
}

impl App {
    /// Keep the local timeline filled ahead of the reader; true when a
    /// request was started.
    pub fn maintain_read_ahead(&mut self) -> (r: bool)
        requires
            old(self).generation < u32::MAX,
            old(self).clock <= u64::MAX - 500,
        ensures
            read_ahead(*old(self), *final(self), r),
    {
        if self.has_pending() || self.clock < self.next_background_fetch {
            return false;
        }
        let is_thread = match self.screen {
            Screen::Thread(_) => true,
            _ => false,
        };
        if is_thread && self.browser_mode {
            let raw: u64 = if self.posts.len() > 0 {
                let replies = self.posts[0].metrics.reply_count;
                if replies >= 99 {
                    100
                } else {
                    replies + 1
                }
            } else {
                2
            };
            let expected: usize = if raw < 2 {
                2
            } else {
                raw as usize
            };
            if self.thread_sync_attempts >= 16 || (self.posts.len() >= expected
                && self.thread_sync_attempts >= 2) {
                return false;
            }
            self.thread_sync_attempts = self.thread_sync_attempts + 1;
            self.next_background_fetch = self.clock + 500;
            self.request_current(true);
            return true;
        }
        let len = self.posts.len();
        let ahead = len.saturating_sub(self.selected);
        let idle_screen = match self.screen {
            Screen::Landing => true,
            Screen::Lists => true,
            Screen::Thread(_) => true,
            _ => false,
        };
        if self.next_token.is_none() || idle_screen || (!self.browser_mode && ahead
            >= MIN_POSTS_AHEAD) || (self.browser_mode && len >= MAX_RETAINED_POSTS && ahead
            >= MIN_POSTS_AHEAD) {
            return false;
        }
        let status = self.status.clone();
        self.request_more_inner(true);
        let ghost m = *self;
        self.status = status;
        assert(more_requested(*old(self), m, true));
        true
    }
}


/// A call on the timeline source, as the runtime should make it.
#[derive(Debug)]
pub enum ApiCall {
    /// The home timeline; `feed` is selected first when given.
    Home { feed: Option<FeedKind>, token: Option<String> },
    Search { query: String, token: Option<String> },
    Mentions { token: Option<String> },
    Bookmarks { token: Option<String> },
    Lists,
    ListPosts { list_id: String, token: Option<String> },
    UserPosts { user_id: String, token: Option<String> },
    Likes { user_id: String, token: Option<String> },
    Thread { conversation_id: String },
    /// No call: the answer is an empty page.
    EmptyPage,
}

/// The call that loads the first page of `screen`.
pub open spec fn screen_call_is(screen: Screen, feed: FeedKind, c: ApiCall) -> bool {
    match screen {
        Screen::Landing => false,
        Screen::Home => c == ApiCall::Home { feed: Some(feed), token: None },
        Screen::Explore => c == ApiCall::EmptyPage,
        Screen::Mentions => c == ApiCall::Mentions { token: None },
        Screen::Bookmarks => c == ApiCall::Bookmarks { token: None },
        Screen::Lists => c == ApiCall::Lists,
        Screen::ListFeed(l) => c == ApiCall::ListPosts { list_id: l.id, token: None },
        Screen::Profile(u) => c == ApiCall::UserPosts { user_id: u.id, token: None },
        Screen::Likes(u) => c == ApiCall::Likes { user_id: u.id, token: None },
        Screen::Thread(p) => c == ApiCall::Thread { conversation_id: p.conversation_id },
    }
}

/// The call that loads the page after `token` of `screen`.
pub open spec fn more_call_is(screen: Screen, query: Seq<char>, token: Seq<char>, c: ApiCall) -> bool {
    match screen {
        Screen::Home => c matches ApiCall::Home { feed: None, token: Some(t) } && t@ == token,
        Screen::Explore => c matches ApiCall::Search { query: q, token: Some(t) } && q@ == query
            && t@ == token,
        Screen::Mentions => c matches ApiCall::Mentions { token: Some(t) } && t@ == token,
        Screen::Bookmarks => c matches ApiCall::Bookmarks { token: Some(t) } && t@ == token,
        Screen::ListFeed(l) => c matches ApiCall::ListPosts { list_id, token: Some(t) } && list_id
            == l.id && t@ == token,
        Screen::Profile(u) => c matches ApiCall::UserPosts { user_id, token: Some(t) } && user_id
            == u.id && t@ == token,
        Screen::Likes(u) => c matches ApiCall::Likes { user_id, token: Some(t) } && user_id == u.id
            && t@ == token,
        _ => false,
    }
}

/// The call that loads `screen`; the landing page loads nothing.
pub fn fetch_screen_call(screen: &Screen, feed: FeedKind) -> (r: Result<ApiCall, String>)
    ensures
        match r {
            Ok(c) => screen_call_is(*screen, feed, c),
            Err(e) => screen is Landing && e@ == "the landing page requires no fetch"@,
        },
        !(screen is Landing) ==> r is Ok,
{
    match screen {
        Screen::Landing => Err(owned("the landing page requires no fetch")),
        Screen::Home => Ok(ApiCall::Home { feed: Some(feed), token: None }),
        Screen::Explore => Ok(ApiCall::EmptyPage),
        Screen::Mentions => Ok(ApiCall::Mentions { token: None }),
        Screen::Bookmarks => Ok(ApiCall::Bookmarks { token: None }),
        Screen::Lists => Ok(ApiCall::Lists),
        Screen::ListFeed(l) => Ok(ApiCall::ListPosts { list_id: l.id.clone(), token: None }),
        Screen::Profile(u) => Ok(ApiCall::UserPosts { user_id: u.id.clone(), token: None }),
        Screen::Likes(u) => Ok(ApiCall::Likes { user_id: u.id.clone(), token: None }),
        Screen::Thread(p) => Ok(ApiCall::Thread { conversation_id: p.conversation_id.clone() }),
    }
}

/// The call that loads the page after `token`; lists, threads and the
/// landing page have no further pages.
pub fn fetch_more_call(screen: &Screen, query: &str, token: &str) -> (r: Result<ApiCall, String>)
    ensures
        match r {
            Ok(c) => more_call_is(*screen, query@, token@, c),
            Err(e) => if screen is Landing {
                e@ == "the landing page requires no fetch"@
            } else {
                (screen is Lists || screen is Thread) && e@ == "no more items on this screen"@
            },
        },
        !(screen is Landing || screen is Lists || screen is Thread) ==> r is Ok,
{
    let t = Some(owned(token));
    match screen {
        Screen::Landing => Err(owned("the landing page requires no fetch")),
        Screen::Home => Ok(ApiCall::Home { feed: None, token: t }),
        Screen::Explore => Ok(ApiCall::Search { query: owned(query), token: t }),
        Screen::Mentions => Ok(ApiCall::Mentions { token: t }),
        Screen::Bookmarks => Ok(ApiCall::Bookmarks { token: t }),
        Screen::ListFeed(l) => Ok(ApiCall::ListPosts { list_id: l.id.clone(), token: t }),
        Screen::Profile(u) => Ok(ApiCall::UserPosts { user_id: u.id.clone(), token: t }),
        Screen::Likes(u) => Ok(ApiCall::Likes { user_id: u.id.clone(), token: t }),
        Screen::Lists => Err(owned("no more items on this screen")),
        Screen::Thread(_) => Err(owned("no more items on this screen")),
    }
}


impl App {
    /// Leave the rail and jump to its highlighted section.
    pub fn nav_activate(&mut self)
        requires
            old(self).can_request(),
        ensures
            rooted(
                App { nav_focused: false, ..*old(self) },
                *final(self),
                section_root(old(self).nav_selected),
            ),
    {
        let screen = Self::nav_screen(self.nav_selected);
        self.nav_focused = false;
        self.root(screen);
    }
}


/// No two posts of `s` share an id.
pub open spec fn distinct_ids(s: Seq<Post>) -> bool {
    forall|i: int, j: int| 0 <= i < j < s.len() ==> s[i].id@ != s[j].id@
}

proof fn lemma_fresh(ids: Seq<Seq<char>>, items: Seq<Post>)
    requires
        distinct_ids(items),
    ensures
        distinct_ids(fresh_by_ids(ids, items)),
        forall|k: int|
            0 <= k < fresh_by_ids(ids, items).len() ==> !ids.contains(
                #[trigger] fresh_by_ids(ids, items)[k].id@,
            ),
    decreases items.len(),
{
    reveal(Seq::filter);
    let f = fresh_by_ids(ids, items);
    if items.len() > 0 {
        let rest = items.drop_last();
        let last = items.last();
        lemma_fresh(ids, rest);
        let f0 = fresh_by_ids(ids, rest);
        assert(f0 == rest.filter(|p: Post| !ids.contains(p.id@)));
        if !ids.contains(last.id@) {
            assert(f == f0.push(last));
            assert forall|k: int| 0 <= k < f0.len() implies f0[k].id@ != last.id@ by {
                rest.lemma_filter_contains_rev(|p: Post| !ids.contains(p.id@), f0[k]);
                let m = choose|m: int| 0 <= m < rest.len() && rest[m] == f0[k];
                assert(items[m] == rest[m]);
            }
        } else {
            assert(f == f0);
        }
    }
}

proof fn lemma_concat_distinct(x: Seq<Post>, y: Seq<Post>)
    requires
        distinct_ids(x),
        distinct_ids(y),
        forall|i: int, j: int| 0 <= i < x.len() && 0 <= j < y.len() ==> x[i].id@ != y[j].id@,
    ensures
        distinct_ids(x + y),
{
    assert forall|i: int, j: int| 0 <= i < j < (x + y).len() implies (x + y)[i].id@ != (x
        + y)[j].id@ by {
        if j < x.len() {
        } else if i >= x.len() {
            assert((x + y)[i] == y[i - x.len()]);
            assert((x + y)[j] == y[j - x.len()]);
        } else {
            assert((x + y)[j] == y[j - x.len()]);
        }
    }
}

proof fn lemma_trimmed(s: Seq<Post>)
    requires
        distinct_ids(s),
    ensures
        distinct_ids(trimmed(s)),
        trimmed(s).len() <= MAX_RETAINED_POSTS,
{
    if s.len() > MAX_RETAINED_POSTS {
        let t = trimmed(s);
        let d = s.len() - MAX_RETAINED_POSTS;
        assert forall|i: int, j: int| 0 <= i < j < t.len() implies t[i].id@ != t[j].id@ by {
            assert(t[i] == s[i + d]);
            assert(t[j] == s[j + d]);
        }
    }
}

/// Further pages never show a post twice and never grow the feed past
/// `MAX_RETAINED_POSTS`: when the feed and the page each hold distinct
/// posts, so does the feed after the page is applied.
pub proof fn law_more_pages_never_repeat_posts(
    a: App,
    b: App,
    page: Page<Post>,
    silent: bool,
)
    requires
        distinct_ids(a.posts@),
        distinct_ids(page.items@),
        more_applied(a, b, Ok(page), silent),
    ensures
        distinct_ids(b.posts@),
        b.posts@.len() <= MAX_RETAINED_POSTS,
{
    let ids = post_ids(a.posts@);
    let fresh = fresh_posts(a.posts@, page.items@);
    lemma_fresh(ids, page.items@);
    assert forall|i: int, j: int| 0 <= i < a.posts@.len() && 0 <= j < fresh.len() implies a.posts@[
        i].id@ != fresh[j].id@ by {
        assert(ids[i] == a.posts@[i].id@);
        assert(!ids.contains(fresh[j].id@));
    }
    lemma_concat_distinct(a.posts@, fresh);
    lemma_trimmed(a.posts@ + fresh);
}

/// A silent refresh keeps the reader in place: the continuation of older
/// pages is kept, the post under the cursor stays under it while it is still
/// in the feed, the new page comes first when nothing had to be trimmed, and
/// no post shows twice.
pub proof fn law_silent_refresh_keeps_the_reader_in_place(a: App, b: App, page: Page<Post>)
    requires
        distinct_ids(a.posts@),
        distinct_ids(page.items@),
        page_applied(a, b, page, true),
    ensures
        b.next_token == a.next_token,
        distinct_ids(b.posts@),
        b.posts@.len() <= MAX_RETAINED_POSTS,
        a.selected < a.posts@.len() && post_ids(b.posts@).contains(
            a.posts@[a.selected as int].id@,
        ) ==> b.selected < b.posts@.len() && b.posts@[b.selected as int].id@ == a.posts@[
            a.selected as int].id@,
        (page.items@ + fresh_posts(page.items@, a.posts@)).len() <= MAX_RETAINED_POSTS
            ==> b.posts@.subrange(0, page.items@.len() as int) == page.items@,
{
    let ids = post_ids(page.items@);
    let fresh = fresh_posts(page.items@, a.posts@);
    lemma_fresh(ids, a.posts@);
    assert forall|i: int, j: int|
        0 <= i < page.items@.len() && 0 <= j < fresh.len() implies page.items@[i].id@
        != fresh[j].id@ by {
        assert(ids[i] == page.items@[i].id@);
        assert(!ids.contains(fresh[j].id@));
    }
    lemma_concat_distinct(page.items@, fresh);
    lemma_trimmed(page.items@ + fresh);
    assert((page.items@ + fresh).subrange(0, page.items@.len() as int) =~= page.items@);
}

/// A feed result from an older generation changes nothing but the count of
/// pending requests.
pub proof fn law_stale_results_are_ignored(a: App, b: App, msg: UiMsg)
    requires
        processed(a, b, msg),
        match msg {
            UiMsg::ScreenLoaded { generation, .. } => generation != a.generation,
            UiMsg::SearchDone { generation, .. } => generation != a.generation,
            UiMsg::MoreLoaded { generation, .. } => generation != a.generation,
            _ => false,
        },
    ensures
        b == settled(a),
{
}

/// The back stack never holds more than `HISTORY_LIMIT` views.
pub proof fn law_back_stack_is_bounded(a: App, b: App, screen: Screen)
    requires
        a.history@.len() <= HISTORY_LIMIT,
        entered(a, b, screen),
    ensures
        b.history@.len() <= HISTORY_LIMIT,
{
}

/// The media cache never holds more than `MEDIA_CACHE_LIMIT` stills.
pub proof fn law_media_cache_is_bounded(
    a: App,
    b: App,
    url: Seq<char>,
    open: bool,
    result: Result<(), String>,
)
    requires
        a.media_cache@.len() <= MEDIA_CACHE_LIMIT,
        media_done(a, b, url, open, result),
    ensures
        b.media_cache@.len() <= MEDIA_CACHE_LIMIT,
{
    if result is Ok {
        let kept = if a.media_cache@.len() >= MEDIA_CACHE_LIMIT {
            a.media_cache@.drop_last()
        } else {
            a.media_cache@
        };
        assert(str_views(b.media_cache@).len() == b.media_cache@.len());
        assert((seq![url] + str_views(kept)).len() == 1 + kept.len());
    }
}

/// The spinner runs exactly while requests are pending, and finishing a
/// request undoes starting one.
pub proof fn law_pending_requests_balance(a: App, b: App)
    requires
        (a.pending_ops == 0) == (a.pending_since is None),
        began_pending(a, b),
    ensures
        (b.pending_ops == 0) == (b.pending_since is None),
        (settled(a).pending_ops == 0) == (settled(a).pending_since is None),
        settled(b).pending_ops == a.pending_ops,
        settled(b).pending_since == a.pending_since,
{
}

/// The rail highlights one of its five sections, read from the view the
/// reader came from (sub-screens keep their section); going to section `i`
/// from the rail clears the back stack and highlights section `i`.
pub proof fn law_rail_sections_round_trip(a: App, b: App, i: usize)
    requires
        i <= 4,
        rooted(a, b, section_root(i)),
    ensures
        section_of(a.spec_origin()) <= 4,
        b.history@.len() == 0,
        section_of(b.spec_origin()) == i,
{
}

/// Back at a root view never quits the reader: only the status changes.
pub proof fn law_back_at_a_root_does_not_quit(a: App, b: App)
    requires
        a.media_preview is None,
        !a.help,
        a.history@.len() == 0,
        went_back(a, b),
    ensures
        b.should_quit == a.should_quit,
        b.screen == a.screen,
{
}


/// `b` is `a` after entering or leaving the rail; entering starts on the
/// current section and explains the keys.
pub open spec fn nav_toggled(a: App, b: App) -> bool {
    if !a.nav_focused {
        &&& b == App {
            nav_focused: true,
            nav_selected: section_of(a.spec_origin()),
            status: b.status,
            ..a
        }
        &&& b.status@
            == "Sidebar \u{00B7} \u{2191}\u{2193} choose \u{00B7} \u{2192} open \u{00B7} Esc back"@
    } else {
        b == App { nav_focused: false, ..a }
    }
}

/// `b` is `a` with the rail highlight moved by `delta` within its five
/// sections.
pub open spec fn nav_moved(a: App, b: App, delta: isize) -> bool {
    b == App { nav_selected: clamp((a.nav_selected as isize) + delta, 0, 4) as usize, ..a }
}

/// `b` is `a` with the search cursor moved by `delta` within the query.
pub open spec fn cursor_moved(a: App, b: App, delta: isize) -> bool {
    b == App {
        search_cursor: clamp((a.search_cursor as isize) + delta, 0, a.query@.len() as int) as usize,
        ..a
    }
}

/// `b` is `a` after typing `c` at the search cursor.
pub open spec fn char_typed(a: App, b: App, c: char) -> bool {
    &&& b.query@ == typed(a.query@, a.search_cursor as int, seq![c])
    &&& b == App { query: b.query, search_cursor: (a.search_cursor + 1) as usize, ..a }
}

/// `b` is `a` after Backspace in the search input.
pub open spec fn backspace_applied(a: App, b: App) -> bool {
    if a.search_cursor == 0 {
        b == a
    } else {
        &&& b.query@ == backspaced(a.query@, a.search_cursor as int)
        &&& b == App { query: b.query, search_cursor: (a.search_cursor - 1) as usize, ..a }
    }
}

/// `b` is `a` with the search input emptied.
pub open spec fn query_cleared(a: App, b: App) -> bool {
    b.query@.len() == 0 && b == App { query: b.query, search_cursor: 0, ..a }
}

/// `b` is `a` after opening search input on Explore (the current view is
/// pushed unless it is Explore already).
pub open spec fn search_begun(a: App, b: App) -> bool {
    &&& if a.screen is Explore {
        &&& b.history == a.history
        &&& b.home_cache == a.home_cache
        &&& b.screen == a.screen
        &&& b.lists == a.lists
        &&& b.thread_expanded == a.thread_expanded
        &&& b.next_token == a.next_token
        &&& b.body_scroll == a.body_scroll
    } else {
        &&& b.history@ == pushed_history(a.history@, snapshot(a))
        &&& remembers(a, b.home_cache)
        &&& b.screen is Explore
        &&& b.lists@.len() == 0
        &&& b.thread_expanded
        &&& b.next_token is None
        &&& b.body_scroll == 0
    }
    &&& b.mode == InputMode::Search
    &&& b.query@.len() == 0
    &&& b.posts@.len() == 0
    &&& b.status@ == "Type a search and press Enter"@
    &&& b == App {
        screen: b.screen,
        history: b.history,
        posts: b.posts,
        lists: b.lists,
        selected: 0,
        mode: InputMode::Search,
        query: b.query,
        search_cursor: 0,
        status: b.status,
        error: None,
        thread_expanded: b.thread_expanded,
        next_token: b.next_token,
        body_scroll: b.body_scroll,
        home_cache: b.home_cache,
        ..a
    }
}

/// `b` is `a` after submitting the typed search: the query is trimmed, and
/// an empty one only leaves search input.
pub open spec fn search_submitted(a: App, b: App) -> bool {
    if crate::text::trim(a.query@).len() == 0 {
        b == App { mode: InputMode::Normal, ..a }
    } else {
        &&& b.query@ == crate::text::trim(a.query@)
        &&& b.screen is Explore
        &&& b.status@ == searching_status(b.query@)
        &&& began_pending(a, b)
        &&& one_more_effect(a.effects@, b.effects@)
        &&& (b.effects@.last() matches Effect::Search { generation, query } && generation
            == a.generation + 1 && query@ == b.query@)
        &&& b == App {
            mode: InputMode::Normal,
            query: b.query,
            screen: b.screen,
            selected: 0,
            error: None,
            status: b.status,
            generation: (a.generation + 1) as u32,
            pending_ops: b.pending_ops,
            pending_since: b.pending_since,
            effects: b.effects,
            ..a
        }
    }
}

/// `b` is `a` after asking the system to open the selected post (or its
/// first attachment) outside the terminal.
pub open spec fn opened_external(a: App, b: App, media_only: bool) -> bool {
    match external_target(a, media_only) {
        None => b == a,
        Some(url) => {
            &&& b == App { effects: b.effects, ..a }
            &&& one_more_effect(a.effects@, b.effects@)
            &&& b.effects@.last() matches Effect::OpenExternal { url: u }
            &&& u@ == url
        },
    }
}

/// `b` is `a` after opening a profile (see `profile_target`).
pub open spec fn profile_opened(a: App, b: App) -> bool {
    match profile_target(a) {
        Some(u) => entered(a, b, Screen::Profile(Box::new(u))),
        None => b == a,
    }
}

/// `b` is `a` after opening a likes feed (see `likes_target`).
pub open spec fn likes_opened(a: App, b: App) -> bool {
    match likes_target(a) {
        Some(u) => entered(a, b, Screen::Likes(Box::new(u))),
        None => b == a,
    }
}

} // verus!
