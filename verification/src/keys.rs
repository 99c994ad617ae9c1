//! Configurable key bindings: commands, key descriptions and the keymap.
use vstd::prelude::*;
use crate::text::{
    ascii_upper, chars_of, fold_case, concat3, decimal, fold_case_seq, fold_chars, is_ascii_lower, is_prefix,
    owned, push_chars, push_decimal, seq_eq, starts_with, string_of, to_ascii_upper,
};

verus! {

/// Every user-facing command that can be bound to a key in Normal mode.
#[derive(Clone, Copy, Debug, PartialEq, Eq, Structural, Hash)]
pub enum Action {
    Quit,
    MoveUp,
    MoveDown,
    PageUp,
    PageDown,
    Top,
    Bottom,
    Open,
    Back,
    Search,
    Refresh,
    Profile,
    Likes,
    MediaPreview,
    OpenMedia,
    OpenPost,
    Help,
    Sidebar,
    Home,
    Explore,
    Mentions,
    Bookmarks,
    Lists,
    ToggleFeed,
    ExpandThread,
}

/// The command a (case-folded) configuration name selects.
pub open spec fn action_named(s: Seq<char>) -> Option<Action> {
    if s == "quit"@ {
        Some(Action::Quit)
    } else if s == "move_up"@ || s == "up"@ {
        Some(Action::MoveUp)
    } else if s == "move_down"@ || s == "down"@ {
        Some(Action::MoveDown)
    } else if s == "page_up"@ || s == "pageup"@ {
        Some(Action::PageUp)
    } else if s == "page_down"@ || s == "pagedown"@ {
        Some(Action::PageDown)
    } else if s == "top"@ {
        Some(Action::Top)
    } else if s == "bottom"@ {
        Some(Action::Bottom)
    } else if s == "open"@ {
        Some(Action::Open)
    } else if s == "back"@ {
        Some(Action::Back)
    } else if s == "search"@ {
        Some(Action::Search)
    } else if s == "refresh"@ {
        Some(Action::Refresh)
    } else if s == "profile"@ {
        Some(Action::Profile)
    } else if s == "likes"@ {
        Some(Action::Likes)
    } else if s == "media_preview"@ || s == "media"@ {
        Some(Action::MediaPreview)
    } else if s == "open_media"@ {
        Some(Action::OpenMedia)
    } else if s == "open_post"@ {
        Some(Action::OpenPost)
    } else if s == "help"@ {
        Some(Action::Help)
    } else if s == "sidebar"@ {
        Some(Action::Sidebar)
    } else if s == "home"@ {
        Some(Action::Home)
    } else if s == "explore"@ {
        Some(Action::Explore)
    } else if s == "mentions"@ {
        Some(Action::Mentions)
    } else if s == "bookmarks"@ {
        Some(Action::Bookmarks)
    } else if s == "lists"@ {
        Some(Action::Lists)
    } else if s == "toggle_feed"@ || s == "feed"@ {
        Some(Action::ToggleFeed)
    } else if s == "expand_thread"@ || s == "expand"@ {
        Some(Action::ExpandThread)
    } else {
        None
    }
}

/// The canonical configuration name of a command.
pub open spec fn action_name(a: Action) -> Seq<char> {
    match a {
        Action::Quit => "quit"@,
        Action::MoveUp => "move_up"@,
        Action::MoveDown => "move_down"@,
        Action::PageUp => "page_up"@,
        Action::PageDown => "page_down"@,
        Action::Top => "top"@,
        Action::Bottom => "bottom"@,
        Action::Open => "open"@,
        Action::Back => "back"@,
        Action::Search => "search"@,
        Action::Refresh => "refresh"@,
        Action::Profile => "profile"@,
        Action::Likes => "likes"@,
        Action::MediaPreview => "media_preview"@,
        Action::OpenMedia => "open_media"@,
        Action::OpenPost => "open_post"@,
        Action::Help => "help"@,
        Action::Sidebar => "sidebar"@,
        Action::Home => "home"@,
        Action::Explore => "explore"@,
        Action::Mentions => "mentions"@,
        Action::Bookmarks => "bookmarks"@,
        Action::Lists => "lists"@,
        Action::ToggleFeed => "toggle_feed"@,
        Action::ExpandThread => "expand_thread"@,
    }
}

/// Whether the characters of `v` are exactly those of `lit`.
pub fn eq_lit(v: &Vec<char>, lit: &str) -> (r: bool)
    ensures
        r == (v@ == lit@),
{
    let l = chars_of(lit);
    seq_eq(v, &l)
}

impl Action {
    /// The command a configuration name selects; names are matched without
    /// regard to letter case.
    pub fn parse(name: &str) -> (r: Option<Action>)
        ensures
            r == action_named(fold_case_seq(name@)),
    {
        let f = fold_chars(&chars_of(name));
        if eq_lit(&f, "quit") {
            Some(Action::Quit)
        } else if eq_lit(&f, "move_up") || eq_lit(&f, "up") {
            Some(Action::MoveUp)
        } else if eq_lit(&f, "move_down") || eq_lit(&f, "down") {
            Some(Action::MoveDown)
        } else if eq_lit(&f, "page_up") || eq_lit(&f, "pageup") {
            Some(Action::PageUp)
        } else if eq_lit(&f, "page_down") || eq_lit(&f, "pagedown") {
            Some(Action::PageDown)
        } else if eq_lit(&f, "top") {
            Some(Action::Top)
        } else if eq_lit(&f, "bottom") {
            Some(Action::Bottom)
        } else if eq_lit(&f, "open") {
            Some(Action::Open)
        } else if eq_lit(&f, "back") {
            Some(Action::Back)
        } else if eq_lit(&f, "search") {
            Some(Action::Search)
        } else if eq_lit(&f, "refresh") {
            Some(Action::Refresh)
        } else if eq_lit(&f, "profile") {
            Some(Action::Profile)
        } else if eq_lit(&f, "likes") {
            Some(Action::Likes)
        } else if eq_lit(&f, "media_preview") || eq_lit(&f, "media") {
            Some(Action::MediaPreview)
        } else if eq_lit(&f, "open_media") {
            Some(Action::OpenMedia)
        } else if eq_lit(&f, "open_post") {
            Some(Action::OpenPost)
        } else if eq_lit(&f, "help") {
            Some(Action::Help)
        } else if eq_lit(&f, "sidebar") {
            Some(Action::Sidebar)
        } else if eq_lit(&f, "home") {
            Some(Action::Home)
        } else if eq_lit(&f, "explore") {
            Some(Action::Explore)
        } else if eq_lit(&f, "mentions") {
            Some(Action::Mentions)
        } else if eq_lit(&f, "bookmarks") {
            Some(Action::Bookmarks)
        } else if eq_lit(&f, "lists") {
            Some(Action::Lists)
        } else if eq_lit(&f, "toggle_feed") || eq_lit(&f, "feed") {
            Some(Action::ToggleFeed)
        } else if eq_lit(&f, "expand_thread") || eq_lit(&f, "expand") {
            Some(Action::ExpandThread)
        } else {
            None
        }
    }

    /// The canonical configuration name of the command.
    pub fn name(self) -> (r: &'static str)
        ensures
            r@ == action_name(self),
    {
        match self {
            Action::Quit => "quit",
            Action::MoveUp => "move_up",
            Action::MoveDown => "move_down",
            Action::PageUp => "page_up",
            Action::PageDown => "page_down",
            Action::Top => "top",
            Action::Bottom => "bottom",
            Action::Open => "open",
            Action::Back => "back",
            Action::Search => "search",
            Action::Refresh => "refresh",
            Action::Profile => "profile",
            Action::Likes => "likes",
            Action::MediaPreview => "media_preview",
            Action::OpenMedia => "open_media",
            Action::OpenPost => "open_post",
            Action::Help => "help",
            Action::Sidebar => "sidebar",
            Action::Home => "home",
            Action::Explore => "explore",
            Action::Mentions => "mentions",
            Action::Bookmarks => "bookmarks",
            Action::Lists => "lists",
            Action::ToggleFeed => "toggle_feed",
            Action::ExpandThread => "expand_thread",
        }
    }
}

/// Every command's canonical name parses back to that command.
pub proof fn law_action_name_parses_back(a: Action)
    ensures
        action_named(fold_case_seq(action_name(a))) == Some(a),
{
    reveal_strlit("quit");
    reveal_strlit("move_up");
    reveal_strlit("up");
    reveal_strlit("move_down");
    reveal_strlit("down");
    reveal_strlit("page_up");
    reveal_strlit("pageup");
    reveal_strlit("page_down");
    reveal_strlit("pagedown");
    reveal_strlit("top");
    reveal_strlit("bottom");
    reveal_strlit("open");
    reveal_strlit("back");
    reveal_strlit("search");
    reveal_strlit("refresh");
    reveal_strlit("profile");
    reveal_strlit("likes");
    reveal_strlit("media_preview");
    reveal_strlit("media");
    reveal_strlit("open_media");
    reveal_strlit("open_post");
    reveal_strlit("help");
    reveal_strlit("sidebar");
    reveal_strlit("home");
    reveal_strlit("explore");
    reveal_strlit("mentions");
    reveal_strlit("bookmarks");
    reveal_strlit("lists");
    reveal_strlit("toggle_feed");
    reveal_strlit("feed");
    reveal_strlit("expand_thread");
    reveal_strlit("expand");
    let n = action_name(a);
    assert(fold_case_seq(n) =~= n);
    match a {
        Action::Quit => {},
        Action::MoveUp => {},
        Action::MoveDown => {},
        Action::PageUp => {
            assert("move_up"@[0] == 'm');
            assert(n[0] == 'p');
        },
        Action::PageDown => {
            assert("move_down"@[0] == 'm');
            assert(n[0] == 'p');
        },
        Action::Top => {},
        Action::Bottom => {
            assert("pageup"@[0] == 'p');
            assert(n[0] == 'b');
        },
        Action::Open => {
            assert("quit"@[0] == 'q');
            assert(n[0] == 'o');
            assert("down"@[0] == 'd');
            assert(n[0] == 'o');
        },
        Action::Back => {
            assert("quit"@[0] == 'q');
            assert(n[0] == 'b');
            assert("down"@[0] == 'd');
            assert(n[0] == 'b');
            assert("open"@[0] == 'o');
            assert(n[0] == 'b');
        },
        Action::Search => {
            assert("pageup"@[0] == 'p');
            assert(n[0] == 's');
            assert("bottom"@[0] == 'b');
            assert(n[0] == 's');
        },
        Action::Refresh => {
            assert("move_up"@[0] == 'm');
            assert(n[0] == 'r');
            assert("page_up"@[0] == 'p');
            assert(n[0] == 'r');
        },
        Action::Profile => {
            assert("move_up"@[0] == 'm');
            assert(n[0] == 'p');
            assert("page_up"@[1] == 'a');
            assert(n[1] == 'r');
            assert("refresh"@[0] == 'r');
            assert(n[0] == 'p');
        },
        Action::Likes => {},
        Action::MediaPreview => {},
        Action::OpenMedia => {},
        Action::OpenPost => {
            assert("move_down"@[0] == 'm');
            assert(n[0] == 'o');
            assert("page_down"@[0] == 'p');
            assert(n[0] == 'o');
        },
        Action::Help => {
            assert("quit"@[0] == 'q');
            assert(n[0] == 'h');
            assert("down"@[0] == 'd');
            assert(n[0] == 'h');
            assert("open"@[0] == 'o');
            assert(n[0] == 'h');
            assert("back"@[0] == 'b');
            assert(n[0] == 'h');
        },
        Action::Sidebar => {
            assert("move_up"@[0] == 'm');
            assert(n[0] == 's');
            assert("page_up"@[0] == 'p');
            assert(n[0] == 's');
            assert("refresh"@[0] == 'r');
            assert(n[0] == 's');
            assert("profile"@[0] == 'p');
            assert(n[0] == 's');
        },
        Action::Home => {
            assert("quit"@[0] == 'q');
            assert(n[0] == 'h');
            assert("down"@[0] == 'd');
            assert(n[0] == 'h');
            assert("open"@[0] == 'o');
            assert(n[0] == 'h');
            assert("back"@[0] == 'b');
            assert(n[0] == 'h');
            assert("help"@[1] == 'e');
            assert(n[1] == 'o');
        },
        Action::Explore => {
            assert("move_up"@[0] == 'm');
            assert(n[0] == 'e');
            assert("page_up"@[0] == 'p');
            assert(n[0] == 'e');
            assert("refresh"@[0] == 'r');
            assert(n[0] == 'e');
            assert("profile"@[0] == 'p');
            assert(n[0] == 'e');
            assert("sidebar"@[0] == 's');
            assert(n[0] == 'e');
        },
        Action::Mentions => {
            assert("pagedown"@[0] == 'p');
            assert(n[0] == 'm');
        },
        Action::Bookmarks => {
            assert("move_down"@[0] == 'm');
            assert(n[0] == 'b');
            assert("page_down"@[0] == 'p');
            assert(n[0] == 'b');
            assert("open_post"@[0] == 'o');
            assert(n[0] == 'b');
        },
        Action::Lists => {
            assert("likes"@[2] == 'k');
            assert(n[2] == 's');
            assert("media"@[0] == 'm');
            assert(n[0] == 'l');
        },
        Action::ToggleFeed => {},
        Action::ExpandThread => {
            assert("media_preview"@[0] == 'm');
            assert(n[0] == 'e');
        },
    }
}

pub const SHIFT: u8 = 1;
pub const CONTROL: u8 = 2;
pub const ALT: u8 = 4;
pub const SUPER: u8 = 8;
pub const HYPER: u8 = 16;
pub const META: u8 = 32;

/// Modifier keys held with a key, as a set of flag bits (`SHIFT`, `CONTROL`,
/// `ALT`, `SUPER`, `HYPER`, `META`).
#[derive(Clone, Copy, Debug, PartialEq, Eq, Structural)]
pub struct KeyModifiers {
    pub bits: u8,
}

impl KeyModifiers {
    pub fn empty() -> (r: KeyModifiers)
        ensures
            r.bits == 0,
    {
        KeyModifiers { bits: 0 }
    }

    pub fn from_bits(bits: u8) -> (r: KeyModifiers)
        ensures
            r.bits == bits,
    {
        KeyModifiers { bits }
    }

    /// Whether every flag of `flag` is held.
    pub fn contains(self, flag: u8) -> (r: bool)
        ensures
            r == (self.bits & flag == flag),
    {
        self.bits & flag == flag
    }
}

/// Media keys of an enhanced keyboard protocol.
#[derive(Clone, Copy, Debug, PartialEq, Eq, Structural)]
pub enum MediaKeyCode {
    Play,
    Pause,
    PlayPause,
    Reverse,
    Stop,
    FastForward,
    Rewind,
    TrackNext,
    TrackPrevious,
    Record,
    LowerVolume,
    RaiseVolume,
    MuteVolume,
}

/// Modifier keys reported on their own by an enhanced keyboard protocol.
#[derive(Clone, Copy, Debug, PartialEq, Eq, Structural)]
pub enum ModifierKeyCode {
    LeftShift,
    LeftControl,
    LeftAlt,
    LeftSuper,
    LeftHyper,
    LeftMeta,
    RightShift,
    RightControl,
    RightAlt,
    RightSuper,
    RightHyper,
    RightMeta,
    IsoLevel3Shift,
    IsoLevel5Shift,
}

/// A key on the keyboard.
#[derive(Clone, Copy, Debug, PartialEq, Eq, Structural)]
pub enum KeyCode {
    Backspace,
    Enter,
    Left,
    Right,
    Up,
    Down,
    Home,
    End,
    PageUp,
    PageDown,
    Tab,
    BackTab,
    Delete,
    Insert,
    F(u8),
    Char(char),
    Null,
    Esc,
    CapsLock,
    ScrollLock,
    NumLock,
    PrintScreen,
    Pause,
    Menu,
    KeypadBegin,
    Media(MediaKeyCode),
    Modifier(ModifierKeyCode),
}

#[derive(Clone, Copy, Debug, PartialEq, Eq, Structural)]
pub enum KeyEventKind {
    Press,
    Repeat,
    Release,
}

/// A key press as the terminal reports it.
#[derive(Clone, Copy, Debug, PartialEq, Eq, Structural)]
pub struct KeyEvent {
    pub code: KeyCode,
    pub modifiers: KeyModifiers,
    pub kind: KeyEventKind,
}

impl KeyEvent {
    /// A press of `code` with `modifiers` held.
    pub fn new(code: KeyCode, modifiers: KeyModifiers) -> (r: KeyEvent)
        ensures
            r.code == code,
            r.modifiers == modifiers,
            r.kind == KeyEventKind::Press,
    {
        KeyEvent { code, modifiers, kind: KeyEventKind::Press }
    }
}

impl From<KeyCode> for KeyEvent {
    fn from(code: KeyCode) -> (r: KeyEvent) {
        KeyEvent { code, modifiers: KeyModifiers { bits: 0 }, kind: KeyEventKind::Press }
    }
}

impl vstd::std_specs::convert::FromSpecImpl<KeyCode> for KeyEvent {
    open spec fn obeys_from_spec() -> bool {
        true
    }

    open spec fn from_spec(code: KeyCode) -> KeyEvent {
        KeyEvent { code, modifiers: KeyModifiers { bits: 0 }, kind: KeyEventKind::Press }
    }
}

/// The modifier bit a description prefix names.
pub open spec fn prefix_bit(p: Seq<char>) -> u8 {
    if p == "ctrl-"@ || p == "ctrl+"@ {
        CONTROL
    } else if p == "shift-"@ || p == "shift+"@ {
        SHIFT
    } else {
        ALT
    }
}

/// A single key description such as `"j"`, `"ctrl-u"`, `"shift+l"` or
/// `"pagedown"`.
#[derive(Clone, Copy, Debug, PartialEq, Eq, Structural)]
pub struct KeySpec {
    pub code: KeyCode,
    pub modifiers: KeyModifiers,
}

/// The modifier a key description starts with, and the length of that
/// prefix (`(0, 0)` when there is none). Prefixes are matched with their case.
pub open spec fn modifier_prefix(s: Seq<char>) -> (u8, int) {
    if is_prefix("ctrl-"@, s) {
        (CONTROL, 5)
    } else if is_prefix("ctrl+"@, s) {
        (CONTROL, 5)
    } else if is_prefix("shift-"@, s) {
        (SHIFT, 6)
    } else if is_prefix("shift+"@, s) {
        (SHIFT, 6)
    } else if is_prefix("alt-"@, s) {
        (ALT, 4)
    } else if is_prefix("alt+"@, s) {
        (ALT, 4)
    } else {
        (0, 0)
    }
}

/// The key a (case-folded) key name selects.
pub open spec fn named_key(s: Seq<char>) -> Option<KeyCode> {
    if s == "enter"@ || s == "return"@ {
        Some(KeyCode::Enter)
    } else if s == "esc"@ || s == "escape"@ {
        Some(KeyCode::Esc)
    } else if s == "up"@ {
        Some(KeyCode::Up)
    } else if s == "down"@ {
        Some(KeyCode::Down)
    } else if s == "left"@ {
        Some(KeyCode::Left)
    } else if s == "right"@ {
        Some(KeyCode::Right)
    } else if s == "tab"@ {
        Some(KeyCode::Tab)
    } else if s == "backspace"@ {
        Some(KeyCode::Backspace)
    } else if s == "delete"@ {
        Some(KeyCode::Delete)
    } else if s == "home"@ {
        Some(KeyCode::Home)
    } else if s == "end"@ {
        Some(KeyCode::End)
    } else if s == "pageup"@ {
        Some(KeyCode::PageUp)
    } else if s == "pagedown"@ {
        Some(KeyCode::PageDown)
    } else if s == "space"@ {
        Some(KeyCode::Char(' '))
    } else if s == "?"@ {
        Some(KeyCode::Char('?'))
    } else if s == "/"@ {
        Some(KeyCode::Char('/'))
    } else {
        None
    }
}

/// What a key description means: an optional modifier prefix, then a key
/// name (matched without regard to case) or a single character; `shift` with
/// a small ASCII letter means the capital letter.
pub open spec fn parse_key_spec(s: Seq<char>) -> Option<KeySpec> {
    let (m, k) = modifier_prefix(s);
    let name = s.subrange(k, s.len() as int);
    let modifiers = KeyModifiers { bits: m };
    match named_key(fold_case_seq(name)) {
        Some(code) => Some(KeySpec { code, modifiers }),
        None => if name.len() == 1 {
            let c = name[0];
            let c2 = if m == SHIFT && is_ascii_lower(c) {
                ascii_upper(c)
            } else {
                c
            };
            Some(KeySpec { code: KeyCode::Char(c2), modifiers })
        } else {
            None
        },
    }
}

/// A key description that starts with a modifier prefix parses with exactly
/// the modifier the prefix names: `ctrl-`/`ctrl+` give Control, `shift-`/
/// `shift+` give Shift and `alt-`/`alt+` give Alt; a description with none of
/// these prefixes has no modifier.
pub proof fn law_prefixes_name_their_modifier(p: Seq<char>, rest: Seq<char>)
    requires
        p == "ctrl-"@ || p == "ctrl+"@ || p == "shift-"@ || p == "shift+"@ || p == "alt-"@ || p
            == "alt+"@,
    ensures
        parse_key_spec(p + rest) matches Some(k) ==> k.modifiers.bits == prefix_bit(p),
{
    reveal_strlit("ctrl-");
    reveal_strlit("ctrl+");
    reveal_strlit("shift-");
    reveal_strlit("shift+");
    reveal_strlit("alt-");
    reveal_strlit("alt+");
    let s = p + rest;
    assert(s.subrange(0, p.len() as int) =~= p);
    assert(s[0] == p[0]);
    if p.len() >= 5 {
        assert(s[4] == p[4]);
    }
    if p.len() >= 4 {
        assert(s[3] == p[3]);
    }
}

/// Without a modifier prefix a key description parses with no modifier.
pub proof fn law_plain_descriptions_have_no_modifier(s: Seq<char>)
    requires
        modifier_prefix(s).1 == 0,
    ensures
        parse_key_spec(s) matches Some(k) ==> k.modifiers.bits == 0,
{
}

pub open spec fn media_key_name(m: MediaKeyCode) -> Seq<char> {
    match m {
        MediaKeyCode::Play => "Play"@,
        MediaKeyCode::Pause => "Pause"@,
        MediaKeyCode::PlayPause => "PlayPause"@,
        MediaKeyCode::Reverse => "Reverse"@,
        MediaKeyCode::Stop => "Stop"@,
        MediaKeyCode::FastForward => "FastForward"@,
        MediaKeyCode::Rewind => "Rewind"@,
        MediaKeyCode::TrackNext => "TrackNext"@,
        MediaKeyCode::TrackPrevious => "TrackPrevious"@,
        MediaKeyCode::Record => "Record"@,
        MediaKeyCode::LowerVolume => "LowerVolume"@,
        MediaKeyCode::RaiseVolume => "RaiseVolume"@,
        MediaKeyCode::MuteVolume => "MuteVolume"@,
    }
}

pub open spec fn modifier_key_name(m: ModifierKeyCode) -> Seq<char> {
    match m {
        ModifierKeyCode::LeftShift => "LeftShift"@,
        ModifierKeyCode::LeftControl => "LeftControl"@,
        ModifierKeyCode::LeftAlt => "LeftAlt"@,
        ModifierKeyCode::LeftSuper => "LeftSuper"@,
        ModifierKeyCode::LeftHyper => "LeftHyper"@,
        ModifierKeyCode::LeftMeta => "LeftMeta"@,
        ModifierKeyCode::RightShift => "RightShift"@,
        ModifierKeyCode::RightControl => "RightControl"@,
        ModifierKeyCode::RightAlt => "RightAlt"@,
        ModifierKeyCode::RightSuper => "RightSuper"@,
        ModifierKeyCode::RightHyper => "RightHyper"@,
        ModifierKeyCode::RightMeta => "RightMeta"@,
        ModifierKeyCode::IsoLevel3Shift => "IsoLevel3Shift"@,
        ModifierKeyCode::IsoLevel5Shift => "IsoLevel5Shift"@,
    }
}

/// The display label of a key description ("Enter", "Space", "G", "Ctrl+U");
/// keys without a short label show their debug name, such as "F(5)".
pub open spec fn key_label_of(k: KeySpec) -> Seq<char> {
    match k.code {
        KeyCode::Char(c) => if k.modifiers.bits & CONTROL == CONTROL {
            "Ctrl+"@.push(ascii_upper(c))
        } else if c == ' ' {
            "Space"@
        } else {
            seq![c]
        },
        KeyCode::Enter => "Enter"@,
        KeyCode::Esc => "Esc"@,
        KeyCode::Up => "\u{2191}"@,
        KeyCode::Down => "\u{2193}"@,
        KeyCode::Left => "\u{2190}"@,
        KeyCode::Right => "\u{2192}"@,
        KeyCode::Tab => "Tab"@,
        KeyCode::Backspace => "Backspace"@,
        KeyCode::Delete => "Del"@,
        KeyCode::Home => "Home"@,
        KeyCode::End => "End"@,
        KeyCode::PageUp => "PgUp"@,
        KeyCode::PageDown => "PgDn"@,
        KeyCode::BackTab => "BackTab"@,
        KeyCode::Insert => "Insert"@,
        KeyCode::F(n) => "F("@ + decimal(n as nat) + ")"@,
        KeyCode::Null => "Null"@,
        KeyCode::CapsLock => "CapsLock"@,
        KeyCode::ScrollLock => "ScrollLock"@,
        KeyCode::NumLock => "NumLock"@,
        KeyCode::PrintScreen => "PrintScreen"@,
        KeyCode::Pause => "Pause"@,
        KeyCode::Menu => "Menu"@,
        KeyCode::KeypadBegin => "KeypadBegin"@,
        KeyCode::Media(m) => "Media("@ + media_key_name(m) + ")"@,
        KeyCode::Modifier(m) => "Modifier("@ + modifier_key_name(m) + ")"@,
    }
}

/// Every modifier but SHIFT, which terminals report inconsistently.
pub const NOT_SHIFT: u8 = 62;

/// Whether a key press triggers a key description: same key, and the same
/// modifiers once SHIFT is set aside.
pub open spec fn spec_matches(k: KeySpec, e: KeyEvent) -> bool {
    k.code == e.code && (e.modifiers.bits & NOT_SHIFT) == (k.modifiers.bits & NOT_SHIFT)
}

/// Shift never decides whether a key matches: an event matches a binding
/// with Shift held exactly when it matches without it.
pub proof fn law_shift_never_decides_a_match(k: KeySpec, e: KeyEvent)
    ensures
        spec_matches(k, KeyEvent { modifiers: KeyModifiers { bits: e.modifiers.bits | SHIFT }, ..e })
            == spec_matches(k, e),
        spec_matches(k, KeyEvent { modifiers: KeyModifiers { bits: e.modifiers.bits & NOT_SHIFT }, ..e })
            == spec_matches(k, e),
{
    let b = e.modifiers.bits;
    assert((b | 1u8) & 62u8 == b & 62u8) by (bit_vector);
    assert((b & 62u8) & 62u8 == b & 62u8) by (bit_vector);
}

fn media_key_text(m: MediaKeyCode) -> (r: &'static str)
    ensures
        r@ == media_key_name(m),
{
    match m {
        MediaKeyCode::Play => "Play",
        MediaKeyCode::Pause => "Pause",
        MediaKeyCode::PlayPause => "PlayPause",
        MediaKeyCode::Reverse => "Reverse",
        MediaKeyCode::Stop => "Stop",
        MediaKeyCode::FastForward => "FastForward",
        MediaKeyCode::Rewind => "Rewind",
        MediaKeyCode::TrackNext => "TrackNext",
        MediaKeyCode::TrackPrevious => "TrackPrevious",
        MediaKeyCode::Record => "Record",
        MediaKeyCode::LowerVolume => "LowerVolume",
        MediaKeyCode::RaiseVolume => "RaiseVolume",
        MediaKeyCode::MuteVolume => "MuteVolume",
    }
}

fn modifier_key_text(m: ModifierKeyCode) -> (r: &'static str)
    ensures
        r@ == modifier_key_name(m),
{
    match m {
        ModifierKeyCode::LeftShift => "LeftShift",
        ModifierKeyCode::LeftControl => "LeftControl",
        ModifierKeyCode::LeftAlt => "LeftAlt",
        ModifierKeyCode::LeftSuper => "LeftSuper",
        ModifierKeyCode::LeftHyper => "LeftHyper",
        ModifierKeyCode::LeftMeta => "LeftMeta",
        ModifierKeyCode::RightShift => "RightShift",
        ModifierKeyCode::RightControl => "RightControl",
        ModifierKeyCode::RightAlt => "RightAlt",
        ModifierKeyCode::RightSuper => "RightSuper",
        ModifierKeyCode::RightHyper => "RightHyper",
        ModifierKeyCode::RightMeta => "RightMeta",
        ModifierKeyCode::IsoLevel3Shift => "IsoLevel3Shift",
        ModifierKeyCode::IsoLevel5Shift => "IsoLevel5Shift",
    }
}

fn starts_with_lit(s: &Vec<char>, lit: &str) -> (r: bool)
    ensures
        r == is_prefix(lit@, s@),
{
    let p = chars_of(lit);
    starts_with(s, &p)
}

impl KeySpec {
    /// Parse a key description; `None` when it names no key.
    pub fn parse(spec: &str) -> (r: Option<KeySpec>)
        ensures
            r == parse_key_spec(spec@),
    {
        let s = chars_of(spec);
        let (m, k): (u8, usize) = if starts_with_lit(&s, "ctrl-") {
            (CONTROL, 5)
        } else if starts_with_lit(&s, "ctrl+") {
            (CONTROL, 5)
        } else if starts_with_lit(&s, "shift-") {
            (SHIFT, 6)
        } else if starts_with_lit(&s, "shift+") {
            (SHIFT, 6)
        } else if starts_with_lit(&s, "alt-") {
            (ALT, 4)
        } else if starts_with_lit(&s, "alt+") {
            (ALT, 4)
        } else {
            (0, 0)
        };
        proof {
            reveal_strlit("ctrl-");
            reveal_strlit("ctrl+");
            reveal_strlit("shift-");
            reveal_strlit("shift+");
            reveal_strlit("alt-");
            reveal_strlit("alt+");
        }
        assert(k <= s.len());
        let mut name: Vec<char> = Vec::new();
        let mut i: usize = k;
        while i < s.len()
            invariant
                k <= i <= s.len(),
                name@ == s@.subrange(k as int, i as int),
            decreases s.len() - i,
        {
            name.push(s[i]);
            i += 1;
            assert(name@ =~= s@.subrange(k as int, i as int));
        }
        let modifiers = KeyModifiers { bits: m };
        let f = fold_chars(&name);
        let code = if eq_lit(&f, "enter") || eq_lit(&f, "return") {
            KeyCode::Enter
        } else if eq_lit(&f, "esc") || eq_lit(&f, "escape") {
            KeyCode::Esc
        } else if eq_lit(&f, "up") {
            KeyCode::Up
        } else if eq_lit(&f, "down") {
            KeyCode::Down
        } else if eq_lit(&f, "left") {
            KeyCode::Left
        } else if eq_lit(&f, "right") {
            KeyCode::Right
        } else if eq_lit(&f, "tab") {
            KeyCode::Tab
        } else if eq_lit(&f, "backspace") {
            KeyCode::Backspace
        } else if eq_lit(&f, "delete") {
            KeyCode::Delete
        } else if eq_lit(&f, "home") {
            KeyCode::Home
        } else if eq_lit(&f, "end") {
            KeyCode::End
        } else if eq_lit(&f, "pageup") {
            KeyCode::PageUp
        } else if eq_lit(&f, "pagedown") {
            KeyCode::PageDown
        } else if eq_lit(&f, "space") {
            KeyCode::Char(' ')
        } else if eq_lit(&f, "?") {
            KeyCode::Char('?')
        } else if eq_lit(&f, "/") {
            KeyCode::Char('/')
        } else {
            if name.len() != 1 {
                return None;
            }
            let first = name[0];
            if m == SHIFT && 'a' <= first && first <= 'z' {
                KeyCode::Char(to_ascii_upper(first))
            } else {
                KeyCode::Char(first)
            }
        };
        Some(KeySpec { code, modifiers })
    }

    /// A display label for help and hints.
    pub fn label(&self) -> (r: String)
        ensures
            r@ == key_label_of(*self),
    {
        match self.code {
            KeyCode::Char(c) => {
                if self.modifiers.bits & CONTROL == CONTROL {
                    let mut v = chars_of("Ctrl+");
                    v.push(to_ascii_upper(c));
                    string_of(&v)
                } else if c == ' ' {
                    owned("Space")
                } else {
                    let mut v: Vec<char> = Vec::new();
                    v.push(c);
                    assert(v@ =~= seq![c]);
                    string_of(&v)
                }
            },
            KeyCode::Enter => owned("Enter"),
            KeyCode::Esc => owned("Esc"),
            KeyCode::Up => owned("\u{2191}"),
            KeyCode::Down => owned("\u{2193}"),
            KeyCode::Left => owned("\u{2190}"),
            KeyCode::Right => owned("\u{2192}"),
            KeyCode::Tab => owned("Tab"),
            KeyCode::Backspace => owned("Backspace"),
            KeyCode::Delete => owned("Del"),
            KeyCode::Home => owned("Home"),
            KeyCode::End => owned("End"),
            KeyCode::PageUp => owned("PgUp"),
            KeyCode::PageDown => owned("PgDn"),
            KeyCode::BackTab => owned("BackTab"),
            KeyCode::Insert => owned("Insert"),
            KeyCode::F(n) => {
                let mut v = chars_of("F(");
                push_decimal(&mut v, n as u64);
                let close = chars_of(")");
                let mut s = string_of(&v);
                push_chars(&mut s, &close);
                s
            },
            KeyCode::Null => owned("Null"),
            KeyCode::CapsLock => owned("CapsLock"),
            KeyCode::ScrollLock => owned("ScrollLock"),
            KeyCode::NumLock => owned("NumLock"),
            KeyCode::PrintScreen => owned("PrintScreen"),
            KeyCode::Pause => owned("Pause"),
            KeyCode::Menu => owned("Menu"),
            KeyCode::KeypadBegin => owned("KeypadBegin"),
            KeyCode::Media(m) => concat3("Media(", media_key_text(m), ")"),
            KeyCode::Modifier(m) => concat3("Modifier(", modifier_key_text(m), ")"),
        }
    }

    /// Whether `key` triggers this description; SHIFT is ignored because
    /// terminals report it inconsistently.
    pub fn matches(&self, key: &KeyEvent) -> (r: bool)
        ensures
            r == spec_matches(*self, *key),
    {
        if self.code != key.code {
            return false;
        }
        let actual = key.modifiers.bits & NOT_SHIFT;
        let expected = self.modifiers.bits & NOT_SHIFT;
        actual == expected
    }
}

/// The key descriptions among `keys` that parse, in order.
pub open spec fn parse_all(keys: Seq<Seq<char>>) -> Seq<KeySpec>
    decreases keys.len(),
{
    if keys.len() == 0 {
        Seq::empty()
    } else {
        let rest = parse_all(keys.drop_last());
        match parse_key_spec(keys.last()) {
            Some(k) => rest.push(k),
            None => rest,
        }
    }
}

pub open spec fn string_values(v: Seq<String>) -> Seq<Seq<char>> {
    v.map_values(|s: String| s@)
}

/// The key descriptions among `keys` that parse, in order.
pub open spec fn parse_strs(keys: Seq<&str>) -> Seq<KeySpec>
    decreases keys.len(),
{
    if keys.len() == 0 {
        Seq::empty()
    } else {
        let rest = parse_strs(keys.drop_last());
        match parse_key_spec(keys.last()@) {
            Some(k) => rest.push(k),
            None => rest,
        }
    }
}

/// Command → key bindings. Each command appears at most once.
#[derive(Debug)]
pub struct KeyBindings {
    entries: Vec<(Action, Vec<KeySpec>)>,
}

/// The first command, in the order the bindings were made, with a key
/// description that `key` matches.
pub open spec fn first_match(entries: Seq<(Action, Vec<KeySpec>)>, key: KeyEvent) -> Option<Action>
    decreases entries.len(),
{
    if entries.len() == 0 {
        None
    } else if exists|i: int| 0 <= i < entries[0].1@.len() && spec_matches(#[trigger] entries[0].1@[i], key) {
        Some(entries[0].0)
    } else {
        first_match(entries.drop_first(), key)
    }
}

proof fn lemma_first_match_ignores_shift(entries: Seq<(Action, Vec<KeySpec>)>, k1: KeyEvent, k2: KeyEvent)
    requires
        k1.code == k2.code,
        k1.modifiers.bits & NOT_SHIFT == k2.modifiers.bits & NOT_SHIFT,
    ensures
        first_match(entries, k1) == first_match(entries, k2),
    decreases entries.len(),
{
    if entries.len() > 0 {
        assert forall|i: int| 0 <= i < entries[0].1@.len() implies spec_matches(
            #[trigger] entries[0].1@[i],
            k1,
        ) == spec_matches(entries[0].1@[i], k2) by {}
        lemma_first_match_ignores_shift(entries.drop_first(), k1, k2);
    }
}

pub open spec fn entries_map(s: Seq<(Action, Vec<KeySpec>)>) -> Map<Action, Seq<KeySpec>>
    decreases s.len(),
{
    if s.len() == 0 {
        Map::empty()
    } else {
        entries_map(s.drop_last()).insert(s.last().0, s.last().1@)
    }
}

pub open spec fn distinct_actions(s: Seq<(Action, Vec<KeySpec>)>) -> bool {
    forall|i: int, j: int| 0 <= i < j < s.len() ==> s[i].0 != s[j].0
}

proof fn lemma_entries_map_index(s: Seq<(Action, Vec<KeySpec>)>, i: int)
    requires
        distinct_actions(s),
        0 <= i < s.len(),
    ensures
        entries_map(s).contains_key(s[i].0),
        entries_map(s)[s[i].0] == s[i].1@,
    decreases s.len(),
{
    if i < s.len() - 1 {
        lemma_entries_map_index(s.drop_last(), i);
        assert(s.drop_last()[i] == s[i]);
    }
}

proof fn lemma_entries_map_dom(s: Seq<(Action, Vec<KeySpec>)>, a: Action)
    ensures
        entries_map(s).contains_key(a) <==> exists|i: int| 0 <= i < s.len() && s[i].0 == a,
    decreases s.len(),
{
    if s.len() > 0 {
        lemma_entries_map_dom(s.drop_last(), a);
        if entries_map(s.drop_last()).contains_key(a) {
            let i = choose|i: int| 0 <= i < s.len() - 1 && s.drop_last()[i].0 == a;
            assert(s[i].0 == a);
        }
        if exists|i: int| 0 <= i < s.len() && s[i].0 == a {
            let i = choose|i: int| 0 <= i < s.len() && s[i].0 == a;
            if i < s.len() - 1 {
                assert(s.drop_last()[i].0 == a);
            }
        }
    }
}

impl View for KeyBindings {
    type V = Map<Action, Seq<KeySpec>>;

    closed spec fn view(&self) -> Map<Action, Seq<KeySpec>> {
        entries_map(self.entries@)
    }
}

/// The default keymap: each command with the keys it answers to before any
/// configuration.
pub open spec fn default_bindings() -> Map<Action, Seq<KeySpec>> {
    Map::<Action, Seq<KeySpec>>::empty()
        .insert(Action::Quit, parse_strs(seq!["q"]))
        .insert(Action::MoveUp, parse_strs(seq!["k", "up"]))
        .insert(Action::MoveDown, parse_strs(seq!["j", "down"]))
        .insert(Action::PageUp, parse_strs(seq!["pageup"]))
        .insert(Action::PageDown, parse_strs(seq!["pagedown"]))
        .insert(Action::Top, parse_strs(seq!["g", "home"]))
        .insert(Action::Bottom, parse_strs(seq!["shift+g", "end"]))
        .insert(Action::Open, parse_strs(seq!["enter", "right"]))
        .insert(Action::Back, parse_strs(seq!["left", "esc", "backspace"]))
        .insert(Action::Search, parse_strs(seq!["/"]))
        .insert(Action::Refresh, parse_strs(seq!["r"]))
        .insert(Action::Profile, parse_strs(seq!["p"]))
        .insert(Action::Likes, parse_strs(seq!["shift+l"]))
        .insert(Action::MediaPreview, parse_strs(seq!["m"]))
        .insert(Action::OpenMedia, parse_strs(seq!["v"]))
        .insert(Action::OpenPost, parse_strs(seq!["o"]))
        .insert(Action::Help, parse_strs(seq!["?"]))
        .insert(Action::Sidebar, parse_strs(seq!["tab"]))
        .insert(Action::Home, parse_strs(seq!["1"]))
        .insert(Action::Explore, parse_strs(seq!["2"]))
        .insert(Action::Mentions, parse_strs(seq!["3"]))
        .insert(Action::Bookmarks, parse_strs(seq!["4"]))
        .insert(Action::Lists, parse_strs(seq!["5"]))
        .insert(Action::ToggleFeed, parse_strs(seq!["f"]))
        .insert(Action::ExpandThread, parse_strs(seq!["space"]))
}

/// The keymap after the configuration entries `ov`, taken in order: an entry
/// whose name selects a command and at least one of whose key descriptions
/// parses replaces that command's keys; any other entry is ignored.
pub open spec fn apply_overrides(
    m: Map<Action, Seq<KeySpec>>,
    ov: Seq<(String, Vec<String>)>,
) -> Map<Action, Seq<KeySpec>>
    decreases ov.len(),
{
    if ov.len() == 0 {
        m
    } else {
        let before = apply_overrides(m, ov.drop_last());
        let (name, keys) = ov.last();
        match action_named(fold_case_seq(name@)) {
            Some(a) => {
                let parsed = parse_all(string_values(keys@));
                if parsed.len() > 0 {
                    before.insert(a, parsed)
                } else {
                    before
                }
            },
            None => before,
        }
    }
}

/// Each command has a name of its own.
pub proof fn law_action_names_are_distinct(a: Action, b: Action)
    requires
        action_name(a) == action_name(b),
    ensures
        a == b,
{
    law_action_name_parses_back(a);
    law_action_name_parses_back(b);
}

/// Parsing a command name ignores case: the name written with any of its
/// letters in capitals still names the command.
pub proof fn law_action_names_ignore_case(a: Action, s: Seq<char>)
    requires
        s.len() == action_name(a).len(),
        forall|i: int|
            0 <= i < s.len() ==> #[trigger] s[i] == action_name(a)[i] || s[i] == ascii_upper(
                action_name(a)[i],
            ),
    ensures
        action_named(fold_case_seq(s)) == Some(a),
{
    let n = action_name(a);
    assert forall|i: int| 0 <= i < s.len() implies fold_case(#[trigger] s[i]) == fold_case(n[i]) by {
        let c = n[i];
        if s[i] != c {
            assert(s[i] == ascii_upper(c));
        }
    }
    assert(fold_case_seq(s) =~= fold_case_seq(n));
    law_action_name_parses_back(a);
}

/// Configured bindings only touch the actions they name: an entry whose name
/// is no action (a typo), or that names another action, leaves an action's
/// bindings as they were.
pub proof fn law_overrides_touch_only_named_actions(
    m: Map<Action, Seq<KeySpec>>,
    ov: Seq<(String, Vec<String>)>,
    a: Action,
)
    requires
        forall|i: int| 0 <= i < ov.len() ==> action_named(fold_case_seq((#[trigger] ov[i]).0@))
            != Some(a),
    ensures
        apply_overrides(m, ov).contains_key(a) == m.contains_key(a),
        m.contains_key(a) ==> apply_overrides(m, ov)[a] == m[a],
    decreases ov.len(),
{
    if ov.len() > 0 {
        let init = ov.drop_last();
        assert forall|i: int| 0 <= i < init.len() implies action_named(
            fold_case_seq((#[trigger] init[i]).0@),
        ) != Some(a) by {
            assert(init[i] == ov[i]);
        }
        law_overrides_touch_only_named_actions(m, init, a);
        assert(ov.last() == ov[ov.len() - 1]);
    }
}

/// The last configured entry for an action wins when any of its keys parse.
pub proof fn law_last_override_wins(
    m: Map<Action, Seq<KeySpec>>,
    ov: Seq<(String, Vec<String>)>,
    name: String,
    keys: Vec<String>,
    a: Action,
)
    requires
        action_named(fold_case_seq(name@)) == Some(a),
        parse_all(string_values(keys@)).len() > 0,
    ensures
        apply_overrides(m, ov.push((name, keys))).contains_key(a),
        apply_overrides(m, ov.push((name, keys)))[a] == parse_all(string_values(keys@)),
{
    assert(ov.push((name, keys)).drop_last() =~= ov);
}

/// Parse each description of `keys`, keeping those that parse.
pub fn parse_keys(keys: &Vec<&str>) -> (r: Vec<KeySpec>)
    ensures
        r@ == parse_strs(keys@),
{
    let mut r: Vec<KeySpec> = Vec::new();
    let mut i: usize = 0;
    while i < keys.len()
        invariant
            i <= keys.len(),
            r@ == parse_strs(keys@.subrange(0, i as int)),
        decreases keys.len() - i,
    {
        let p = KeySpec::parse(keys[i]);
        proof {
            let pre = keys@.subrange(0, i as int);
            let next = keys@.subrange(0, i + 1);
            assert(next.drop_last() =~= pre);
        }
        match p {
            Some(k) => r.push(k),
            None => {},
        }
        i += 1;
    }
    assert(keys@.subrange(0, keys.len() as int) =~= keys@);
    r
}

/// Parse each description of `keys`, keeping those that parse.
pub fn parse_key_strings(keys: &Vec<String>) -> (r: Vec<KeySpec>)
    ensures
        r@ == parse_all(string_values(keys@)),
{
    let mut r: Vec<KeySpec> = Vec::new();
    let mut i: usize = 0;
    while i < keys.len()
        invariant
            i <= keys.len(),
            r@ == parse_all(string_values(keys@.subrange(0, i as int))),
        decreases keys.len() - i,
    {
        let p = KeySpec::parse(keys[i].as_str());
        proof {
            let pre = keys@.subrange(0, i as int);
            let next = keys@.subrange(0, i + 1);
            assert(string_values(next).drop_last() =~= string_values(pre));
            assert(string_values(next).last() == keys@[i as int]@);
        }
        match p {
            Some(k) => r.push(k),
            None => {},
        }
        i += 1;
    }
    assert(keys@.subrange(0, keys.len() as int) =~= keys@);
    r
}

impl KeyBindings {
    /// The command `key` triggers: the first, in the order the bindings
    /// were made, whose key descriptions `key` matches.
    pub closed spec fn command_for(self, key: KeyEvent) -> Option<Action> {
        first_match(self.entries@, key)
    }

    /// Shift never changes the command a key triggers: two key events that
    /// differ at most in Shift trigger the same command.
    pub proof fn law_shift_never_changes_the_command(self, k1: KeyEvent, k2: KeyEvent)
        requires
            k1.code == k2.code,
            k1.modifiers.bits & NOT_SHIFT == k2.modifiers.bits & NOT_SHIFT,
        ensures
            self.command_for(k1) == self.command_for(k2),
    {
        lemma_first_match_ignores_shift(self.entries@, k1, k2);
    }

    pub closed spec fn wf(&self) -> bool {
        distinct_actions(self.entries@)
    }

    /// Whether each command holds at most one entry of the keymap.
    pub fn is_well_formed(&self) -> (r: bool)
        ensures
            r == self.wf(),
    {
        let n = self.entries.len();
        let mut i: usize = 0;
        while i < n
            invariant
                n == self.entries@.len(),
                i <= n,
                forall|a: int, b: int|
                    0 <= a < b < n && a < i ==> self.entries@[a].0 != self.entries@[b].0,
            decreases n - i,
        {
            let mut j: usize = i + 1;
            while j < n
                invariant
                    n == self.entries@.len(),
                    i < n,
                    i + 1 <= j <= n,
                    forall|a: int, b: int|
                        0 <= a < b < n && a < i ==> self.entries@[a].0 != self.entries@[b].0,
                    forall|b: int| i < b < j ==> self.entries@[i as int].0 != self.entries@[b].0,
                decreases n - j,
            {
                if self.entries[i].0 == self.entries[j].0 {
                    return false;
                }
                j += 1;
            }
            i += 1;
        }
        true
    }

    /// A keymap with no binding.
    pub fn empty() -> (r: KeyBindings)
        ensures
            r.wf(),
            r@ == Map::<Action, Seq<KeySpec>>::empty(),
    {
        KeyBindings { entries: Vec::new() }
    }

    /// Bind `action` to exactly `specs`.
    pub fn insert(&mut self, action: Action, specs: Vec<KeySpec>)
        requires
            old(self).wf(),
        ensures
            final(self).wf(),
            final(self)@ == old(self)@.insert(action, specs@),
    {
        let ghost before = self.entries@;
        let mut i: usize = 0;
        while i < self.entries.len()
            invariant
                self.entries@ == before,
                before == old(self).entries@,
                distinct_actions(before),
                i <= before.len(),
                forall|j: int| 0 <= j < i ==> before[j].0 != action,
            decreases before.len() - i,
        {
            if self.entries[i].0 == action {
                let ghost old_map = entries_map(before);
                self.entries.set(i, (action, specs));
                proof {
                    let after = self.entries@;
                    assert(distinct_actions(after)) by {
                        assert forall|a: int, b: int| 0 <= a < b < after.len() implies after[a].0
                            != after[b].0 by {
                            assert(before[a].0 != before[b].0);
                        }
                    }
                    assert forall|a: Action| #[trigger] entries_map(after).contains_key(a)
                        <==> old_map.insert(action, specs@).contains_key(a) by {
                        lemma_entries_map_dom(after, a);
                        lemma_entries_map_dom(before, a);
                        if a == action {
                            assert(after[i as int].0 == a);
                        } else {
                            if exists|j: int| 0 <= j < before.len() && before[j].0 == a {
                                let j = choose|j: int| 0 <= j < before.len() && before[j].0 == a;
                                assert(after[j].0 == a);
                            }
                            if exists|j: int| 0 <= j < after.len() && after[j].0 == a {
                                let j = choose|j: int| 0 <= j < after.len() && after[j].0 == a;
                                assert(before[j].0 == a);
                            }
                        }
                    }
                    assert forall|a: Action| #[trigger] entries_map(after).contains_key(a)
                        implies entries_map(after)[a] == old_map.insert(action, specs@)[a] by {
                        lemma_entries_map_dom(after, a);
                        let j = choose|j: int| 0 <= j < after.len() && after[j].0 == a;
                        lemma_entries_map_index(after, j);
                        if j != i {
                            lemma_entries_map_index(before, j);
                        }
                    }
                    assert(entries_map(after) =~= old_map.insert(action, specs@));
                    assert(self@ == entries_map(after));
                    assert(old_map == old(self)@);
                }
                return;
            }
            i += 1;
        }
        self.entries.push((action, specs));
        proof {
            let after = self.entries@;
            assert(after.drop_last() =~= before);
            assert(distinct_actions(after)) by {
                assert forall|a: int, b: int| 0 <= a < b < after.len() implies after[a].0
                    != after[b].0 by {
                    if b < before.len() {
                        assert(before[a].0 != before[b].0);
                    }
                }
            }
        }
    }

    /// The keys bound to `action`, if it is bound.
    pub fn get(&self, action: Action) -> (r: Option<&Vec<KeySpec>>)
        requires
            self.wf(),
        ensures
            r is Some <==> self@.contains_key(action),
            r matches Some(v) ==> v@ == self@[action],
    {
        let mut i: usize = 0;
        while i < self.entries.len()
            invariant
                self.wf(),
                i <= self.entries@.len(),
                forall|j: int| 0 <= j < i ==> self.entries@[j].0 != action,
            decreases self.entries@.len() - i,
        {
            if self.entries[i].0 == action {
                proof {
                    lemma_entries_map_index(self.entries@, i as int);
                }
                return Some(&self.entries[i].1);
            }
            i += 1;
        }
        proof {
            lemma_entries_map_dom(self.entries@, action);
        }
        None
    }

    /// The default keymap.
    pub fn default_keys() -> (r: KeyBindings)
        ensures
            r.wf(),
            r@ == default_bindings(),
    {
        let mut b = KeyBindings::empty();
        let keys = vec!["q"];
        assert(keys@ =~= seq!["q"]);
        b.insert(Action::Quit, parse_keys(&keys));
        let keys = vec!["k", "up"];
        assert(keys@ =~= seq!["k", "up"]);
        b.insert(Action::MoveUp, parse_keys(&keys));
        let keys = vec!["j", "down"];
        assert(keys@ =~= seq!["j", "down"]);
        b.insert(Action::MoveDown, parse_keys(&keys));
        let keys = vec!["pageup"];
        assert(keys@ =~= seq!["pageup"]);
        b.insert(Action::PageUp, parse_keys(&keys));
        let keys = vec!["pagedown"];
        assert(keys@ =~= seq!["pagedown"]);
        b.insert(Action::PageDown, parse_keys(&keys));
        let keys = vec!["g", "home"];
        assert(keys@ =~= seq!["g", "home"]);
        b.insert(Action::Top, parse_keys(&keys));
        let keys = vec!["shift+g", "end"];
        assert(keys@ =~= seq!["shift+g", "end"]);
        b.insert(Action::Bottom, parse_keys(&keys));
        let keys = vec!["enter", "right"];
        assert(keys@ =~= seq!["enter", "right"]);
        b.insert(Action::Open, parse_keys(&keys));
        let keys = vec!["left", "esc", "backspace"];
        assert(keys@ =~= seq!["left", "esc", "backspace"]);
        b.insert(Action::Back, parse_keys(&keys));
        let keys = vec!["/"];
        assert(keys@ =~= seq!["/"]);
        b.insert(Action::Search, parse_keys(&keys));
        let keys = vec!["r"];
        assert(keys@ =~= seq!["r"]);
        b.insert(Action::Refresh, parse_keys(&keys));
        let keys = vec!["p"];
        assert(keys@ =~= seq!["p"]);
        b.insert(Action::Profile, parse_keys(&keys));
        let keys = vec!["shift+l"];
        assert(keys@ =~= seq!["shift+l"]);
        b.insert(Action::Likes, parse_keys(&keys));
        let keys = vec!["m"];
        assert(keys@ =~= seq!["m"]);
        b.insert(Action::MediaPreview, parse_keys(&keys));
        let keys = vec!["v"];
        assert(keys@ =~= seq!["v"]);
        b.insert(Action::OpenMedia, parse_keys(&keys));
        let keys = vec!["o"];
        assert(keys@ =~= seq!["o"]);
        b.insert(Action::OpenPost, parse_keys(&keys));
        let keys = vec!["?"];
        assert(keys@ =~= seq!["?"]);
        b.insert(Action::Help, parse_keys(&keys));
        let keys = vec!["tab"];
        assert(keys@ =~= seq!["tab"]);
        b.insert(Action::Sidebar, parse_keys(&keys));
        let keys = vec!["1"];
        assert(keys@ =~= seq!["1"]);
        b.insert(Action::Home, parse_keys(&keys));
        let keys = vec!["2"];
        assert(keys@ =~= seq!["2"]);
        b.insert(Action::Explore, parse_keys(&keys));
        let keys = vec!["3"];
        assert(keys@ =~= seq!["3"]);
        b.insert(Action::Mentions, parse_keys(&keys));
        let keys = vec!["4"];
        assert(keys@ =~= seq!["4"]);
        b.insert(Action::Bookmarks, parse_keys(&keys));
        let keys = vec!["5"];
        assert(keys@ =~= seq!["5"]);
        b.insert(Action::Lists, parse_keys(&keys));
        let keys = vec!["f"];
        assert(keys@ =~= seq!["f"]);
        b.insert(Action::ToggleFeed, parse_keys(&keys));
        let keys = vec!["space"];
        assert(keys@ =~= seq!["space"]);
        b.insert(Action::ExpandThread, parse_keys(&keys));
        b
    }

    /// Merge configuration overrides over the defaults (see
    /// `apply_overrides`): unknown command names and unparsable keys are
    /// ignored, so a typo never leaves the interface without keys.
    pub fn from_config(overrides: Option<&Vec<(String, Vec<String>)>>) -> (r: KeyBindings)
        ensures
            r.wf(),
            r@ == match overrides {
                Some(ov) => apply_overrides(default_bindings(), ov@),
                None => default_bindings(),
            },
    {
        let mut b = KeyBindings::default_keys();
        match overrides {
            None => b,
            Some(ov) => {
                let mut i: usize = 0;
                while i < ov.len()
                    invariant
                        i <= ov.len(),
                        b.wf(),
                        b@ == apply_overrides(default_bindings(), ov@.subrange(0, i as int)),
                    decreases ov.len() - i,
                {
                    proof {
                        assert(ov@.subrange(0, i + 1).drop_last() =~= ov@.subrange(0, i as int));
                    }
                    match Action::parse(ov[i].0.as_str()) {
                        Some(action) => {
                            let parsed = parse_key_strings(&ov[i].1);
                            if parsed.len() > 0 {
                                b.insert(action, parsed);
                            }
                        },
                        None => {},
                    }
                    i += 1;
                }
                assert(ov@.subrange(0, ov.len() as int) =~= ov@);
                b
            },
        }
    }

    /// The command `key` triggers: one whose bindings contain a description
    /// that `key` matches, or `None` when no binding matches.
    pub fn action_for(&self, key: &KeyEvent) -> (r: Option<Action>)
        requires
            self.wf(),
        ensures
            r == self.command_for(*key),
            r matches Some(a) ==> self@.contains_key(a) && exists|i: int|
                0 <= i < self@[a].len() && spec_matches(#[trigger] self@[a][i], *key),
            r is None ==> forall|a: Action, i: int|
                self@.contains_key(a) && 0 <= i < self@[a].len() ==> !spec_matches(
                    #[trigger] self@[a][i],
                    *key,
                ),
    {
        let mut e: usize = 0;
        proof {
            assert(self.entries@.subrange(0, self.entries@.len() as int) =~= self.entries@);
        }
        while e < self.entries.len()
            invariant
                self.wf(),
                e <= self.entries@.len(),
                first_match(self.entries@, *key) == first_match(
                    self.entries@.subrange(e as int, self.entries@.len() as int),
                    *key,
                ),
                forall|j: int, i: int|
                    0 <= j < e && 0 <= i < self.entries@[j].1@.len() ==> !spec_matches(
                        #[trigger] self.entries@[j].1@[i],
                        *key,
                    ),
            decreases self.entries@.len() - e,
        {
            let specs = &self.entries[e].1;
            let mut k: usize = 0;
            while k < specs.len()
                invariant
                    self.wf(),
                    e < self.entries@.len(),
                    specs@ == self.entries@[e as int].1@,
                    k <= specs@.len(),
                    first_match(self.entries@, *key) == first_match(
                        self.entries@.subrange(e as int, self.entries@.len() as int),
                        *key,
                    ),
                    forall|i: int| 0 <= i < k ==> !spec_matches(#[trigger] specs@[i], *key),
                decreases specs@.len() - k,
            {
                if specs[k].matches(key) {
                    proof {
                        let rest = self.entries@.subrange(e as int, self.entries@.len() as int);
                        assert(rest[0] == self.entries@[e as int]);
                        assert((k as int) < rest[0].1@.len());
                        assert(spec_matches(rest[0].1@[k as int], *key));
                        assert(first_match(rest, *key) == Some(rest[0].0));
                        lemma_entries_map_index(self.entries@, e as int);
                        let a = self.entries@[e as int].0;
                        assert(self@[a][k as int] == specs@[k as int]);
                        assert(spec_matches(self@[a][k as int], *key));
                    }
                    return Some(self.entries[e].0);
                }
                k += 1;
            }
            proof {
                let rest = self.entries@.subrange(e as int, self.entries@.len() as int);
                assert(rest[0] == self.entries@[e as int]);
                assert(rest.drop_first() =~= self.entries@.subrange(e + 1, self.entries@.len() as int));
            }
            e += 1;
        }
        proof {
            assert(self.entries@.subrange(e as int, self.entries@.len() as int) =~= Seq::<(Action, Vec<KeySpec>)>::empty());
            assert forall|a: Action, i: int|
                self@.contains_key(a) && 0 <= i < self@[a].len() implies !spec_matches(
                #[trigger] self@[a][i],
                *key,
            ) by {
                lemma_entries_map_dom(self.entries@, a);
                let j = choose|j: int| 0 <= j < self.entries@.len() && self.entries@[j].0 == a;
                lemma_entries_map_index(self.entries@, j);
                assert(self.entries@[j].1@[i] == self@[a][i]);
            }
        }
        None
    }

    /// The label of the first key bound to `action`, or the command's name
    /// when it has no key.
    pub fn key_label(&self, action: Action) -> (r: String)
        requires
            self.wf(),
        ensures
            r@ == (if self@.contains_key(action) && self@[action].len() > 0 {
                key_label_of(self@[action][0])
            } else {
                action_name(action)
            }),
    {
        match self.get(action) {
            Some(specs) => {
                if specs.len() > 0 {
                    specs[0].label()
                } else {
                    owned(action.name())
                }
            },
            None => owned(action.name()),
        }
    }

    /// The labels of every key bound to `action`, in order.
    pub fn bound_keys(&self, action: Action) -> (r: Vec<String>)
        requires
            self.wf(),
        ensures
            self@.contains_key(action) ==> r@.len() == self@[action].len() && forall|i: int|
                0 <= i < r@.len() ==> #[trigger] r@[i]@ == key_label_of(self@[action][i]),
            !self@.contains_key(action) ==> r@.len() == 0,
    {
        let mut r: Vec<String> = Vec::new();
        match self.get(action) {
            Some(specs) => {
                let mut i: usize = 0;
                while i < specs.len()
                    invariant
                        i <= specs@.len(),
                        r@.len() == i,
                        forall|j: int| 0 <= j < i ==> #[trigger] r@[j]@ == key_label_of(specs@[j]),
                    decreases specs@.len() - i,
                {
                    r.push(specs[i].label());
                    i += 1;
                }
            },
            None => {},
        }
        r
    }

    /// The keys bound to `action`, as the help index lists them: their
    /// labels joined by " / ".
    pub fn binding_text(&self, action: Action) -> (r: String)
        requires
            self.wf(),
        ensures
            r@ == bound_text(self@, action),
    {
        let keys = self.bound_keys(action);
        let ghost labels = if self@.contains_key(action) {
            self@[action].map_values(|k: KeySpec| key_label_of(k))
        } else {
            Seq::<Seq<char>>::empty()
        };
        let mut r = String::new();
        let mut i: usize = 0;
        while i < keys.len()
            invariant
                i <= keys@.len(),
                keys@.len() == labels.len(),
                forall|j: int| 0 <= j < keys@.len() ==> #[trigger] keys@[j]@ == labels[j],
                r@ == joined(labels.subrange(0, i as int), " / "@),
            decreases keys@.len() - i,
        {
            if i > 0 {
                r.append(" / ");
            }
            r.append(keys[i].as_str());
            proof {
                let s = labels.subrange(0, i + 1);
                assert(s.drop_last() =~= labels.subrange(0, i as int));
                assert(s.last() == labels[i as int]);
            }
            i += 1;
        }
        proof {
            assert(labels.subrange(0, labels.len() as int) =~= labels);
        }
        r
    }
}

/// `parts` joined with `sep` between each two.
pub open spec fn joined(parts: Seq<Seq<char>>, sep: Seq<char>) -> Seq<char>
    decreases parts.len(),
{
    if parts.len() == 0 {
        Seq::empty()
    } else if parts.len() == 1 {
        parts[0]
    } else {
        joined(parts.drop_last(), sep) + sep + parts.last()
    }
}

/// The keys bound to `a` in `b`, joined by " / ".
pub open spec fn bound_text(b: Map<Action, Seq<KeySpec>>, a: Action) -> Seq<char> {
    if b.contains_key(a) {
        joined(b[a].map_values(|k: KeySpec| key_label_of(k)), " / "@)
    } else {
        Seq::empty()
    }
}


impl Default for KeyBindings {
    /// The default keymap.
    fn default() -> (r: KeyBindings)
        ensures
            r.wf(),
            r@ == default_bindings(),
    {
        KeyBindings::default_keys()
    }
}

} // verus!
