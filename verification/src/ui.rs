//! The interface's own rules, apart from painting: the palette and its
//! overrides, layout arithmetic, text fitting, relative times, and what a
//! key press or a click does to the reader.
use vstd::prelude::*;
use crate::app::{
    activated, advanced, asked, backspace_applied, char_typed, clamp, cursor_moved, entered,
    hit_action, landing_activated, landing_menu, likes_opened, moved, nav_moved, nav_toggled,
    opened_external, preview_requested, profile_opened, query_cleared, requested, rooted,
    search_begun, search_submitted, section_root, toggled, went_back, App, Effect, HitAction,
    HitRegion, InputMode, Screen,
};
use crate::config::ThemeConfig;
use crate::model::{MediaKind, Post};
use crate::keys::{spec_matches, Action, KeyBindings, KeyCode, KeyEvent, KeySpec, CONTROL};
use crate::text::{chars_of, decimal, owned};

verus! {

/// A 24-bit colour.
#[derive(Clone, Copy, Debug, PartialEq, Eq, Structural)]
pub struct Rgb {
    pub red: u8,
    pub green: u8,
    pub blue: u8,
}

/// The palette: a true-black canvas, white type and a grayscale ramp; author
/// names are the one reserved hue.
#[derive(Clone, Copy, Debug, PartialEq, Eq, Structural)]
pub struct Theme {
    pub white: Rgb,
    pub gray: Rgb,
    pub dim: Rgb,
    pub surface: Rgb,
    pub surface_raised: Rgb,
    pub accent: Rgb,
    pub author: Rgb,
    pub green: Rgb,
    pub amber: Rgb,
    pub red: Rgb,
    pub background: Rgb,
}

pub open spec fn gray(luma: u8) -> Rgb {
    Rgb { red: luma, green: luma, blue: luma }
}

pub open spec fn default_theme() -> Theme {
    Theme {
        white: gray(245),
        gray: gray(156),
        dim: gray(66),
        surface: gray(0),
        surface_raised: gray(18),
        accent: gray(255),
        author: Rgb { red: 168, green: 196, blue: 214 },
        green: gray(220),
        amber: gray(190),
        red: gray(255),
        background: gray(0),
    }
}

impl Default for Theme {
    fn default() -> (r: Self)
        ensures
            r == default_theme(),
    {
        Theme {
            white: Rgb { red: 245, green: 245, blue: 245 },
            gray: Rgb { red: 156, green: 156, blue: 156 },
            dim: Rgb { red: 66, green: 66, blue: 66 },
            surface: Rgb { red: 0, green: 0, blue: 0 },
            surface_raised: Rgb { red: 18, green: 18, blue: 18 },
            accent: Rgb { red: 255, green: 255, blue: 255 },
            author: Rgb { red: 168, green: 196, blue: 214 },
            green: Rgb { red: 220, green: 220, blue: 220 },
            amber: Rgb { red: 190, green: 190, blue: 190 },
            red: Rgb { red: 255, green: 255, blue: 255 },
            background: Rgb { red: 0, green: 0, blue: 0 },
        }
    }
}

proof fn lemma_non_ascii_hex(input: Seq<char>)
    requires
        !all_ascii(strip_hash(input)),
    ensures
        hex_color(input) is None,
{
}

/// The value of a hexadecimal digit.
pub open spec fn hex_value(c: char) -> Option<int> {
    if '0' <= c && c <= '9' {
        Some(c as int - '0' as int)
    } else if 'a' <= c && c <= 'f' {
        Some(c as int - 'a' as int + 10)
    } else if 'A' <= c && c <= 'F' {
        Some(c as int - 'A' as int + 10)
    } else {
        None
    }
}

/// Two characters read as a base-16 byte; like `u8::from_str_radix`, a
/// leading `+` is allowed.
pub open spec fn hex_pair(a: char, b: char) -> Option<u8> {
    if a == '+' {
        match hex_value(b) {
            Some(v) => Some(v as u8),
            None => None,
        }
    } else {
        match (hex_value(a), hex_value(b)) {
            (Some(x), Some(y)) => Some((16 * x + y) as u8),
            _ => None,
        }
    }
}

pub open spec fn all_ascii(s: Seq<char>) -> bool {
    forall|i: int| 0 <= i < s.len() ==> s[i] < '\u{80}'
}

/// `s` without one leading `#`.
pub open spec fn strip_hash(s: Seq<char>) -> Seq<char> {
    if s.len() > 0 && s[0] == '#' {
        s.drop_first()
    } else {
        s
    }
}

/// The colour `#rrggbb` (the `#` is optional) names.
pub open spec fn hex_color(input: Seq<char>) -> Option<Rgb> {
    let hex = strip_hash(input);
    if hex.len() != 6 || !all_ascii(hex) {
        None
    } else {
        match (hex_pair(hex[0], hex[1]), hex_pair(hex[2], hex[3]), hex_pair(hex[4], hex[5])) {
            (Some(r), Some(g), Some(b)) => Some(Rgb { red: r, green: g, blue: b }),
            _ => None,
        }
    }
}

/// The bytes a character takes in UTF-8.
pub open spec fn utf8_len(c: char) -> int {
    if (c as u32) < 0x80 {
        1
    } else if (c as u32) < 0x800 {
        2
    } else if (c as u32) < 0x10000 {
        3
    } else {
        4
    }
}

/// The bytes a text takes in UTF-8.
pub open spec fn byte_len(s: Seq<char>) -> int
    decreases s.len(),
{
    if s.len() == 0 {
        0
    } else {
        byte_len(s.drop_last()) + utf8_len(s.last())
    }
}

/// Whether byte offset `n` of `s` falls between two characters, looking at
/// the first `upto` characters.
pub open spec fn on_boundary(s: Seq<char>, n: int, upto: int) -> bool {
    exists|k: int| 0 <= k <= upto && byte_len(#[trigger] s.subrange(0, k)) == n
}

/// Whether reading `input` as `#rrggbb` byte pairs would cut a character
/// apart: the digits take six bytes, but the second or the fourth byte
/// boundary falls inside a character (the `#rrggbb` reader fails on such
/// text instead of answering).
pub open spec fn splits_a_character(input: Seq<char>) -> bool {
    let hex = strip_hash(input);
    byte_len(hex) == 6 && !(on_boundary(hex, 2, hex.len() as int) && on_boundary(
        hex,
        4,
        hex.len() as int,
    ))
}

fn utf8_width(c: char) -> (r: u8)
    ensures
        r == utf8_len(c),
{
    if '\u{80}' > c {
        1
    } else if '\u{800}' > c {
        2
    } else if '\u{10000}' > c {
        3
    } else {
        4
    }
}

/// Whether a colour override would cut a character apart when read as
/// `#rrggbb` byte pairs.
pub fn override_splits_a_character(input: &str) -> (r: bool)
    ensures
        r == splits_a_character(input@),
{
    let all = chars_of(input);
    let start: usize = if all.len() > 0 && all[0] == '#' {
        1
    } else {
        0
    };
    let ghost hex = strip_hash(input@);
    assert(hex =~= all@.subrange(start as int, all@.len() as int));
    let mut bytes: u128 = 0;
    let mut at2 = false;
    let mut at4 = false;
    let mut i = start;
    assert(hex.subrange(0, 0) =~= Seq::<char>::empty());
    while i < all.len()
        invariant
            start <= i <= all@.len(),
            hex == all@.subrange(start as int, all@.len() as int),
            hex == strip_hash(input@),
            bytes == byte_len(hex.subrange(0, (i - start) as int)),
            bytes <= 4 * (i - start),
            i - start <= usize::MAX,
            at2 == on_boundary(hex, 2, (i - start) as int),
            at4 == on_boundary(hex, 4, (i - start) as int),
        decreases all@.len() - i,
    {
        let c = all[i];
        let w = utf8_width(c) as u128;
        let ghost m = (i - start) as int;
        assert(hex[m] == c);
        assert(hex.subrange(0, m + 1).drop_last() =~= hex.subrange(0, m));
        bytes = bytes + w;
        assert(bytes == byte_len(hex.subrange(0, m + 1)));
        if bytes == 2 {
            at2 = true;
        }
        if bytes == 4 {
            at4 = true;
        }
        assert(at2 == on_boundary(hex, 2, m + 1)) by {
            if on_boundary(hex, 2, m + 1) && !on_boundary(hex, 2, m) {
                let k = choose|k: int| 0 <= k <= m + 1 && byte_len(#[trigger] hex.subrange(0, k)) == 2;
                assert(k == m + 1);
            }
        }
        assert(at4 == on_boundary(hex, 4, m + 1)) by {
            if on_boundary(hex, 4, m + 1) && !on_boundary(hex, 4, m) {
                let k = choose|k: int| 0 <= k <= m + 1 && byte_len(#[trigger] hex.subrange(0, k)) == 4;
                assert(k == m + 1);
            }
        }
        i += 1;
    }
    assert(hex.subrange(0, hex.len() as int) =~= hex);
    bytes == 6 && !(at2 && at4)
}

fn hex_digit(c: char) -> (r: Option<u8>)
    ensures
        match hex_value(c) {
            Some(v) => r == Some(v as u8),
            None => r is None,
        },
{
    if '0' <= c && c <= '9' {
        Some(((c as u32) - ('0' as u32)) as u8)
    } else if 'a' <= c && c <= 'f' {
        Some(((c as u32) - ('a' as u32) + 10) as u8)
    } else if 'A' <= c && c <= 'F' {
        Some(((c as u32) - ('A' as u32) + 10) as u8)
    } else {
        None
    }
}

fn read_pair(a: char, b: char) -> (r: Option<u8>)
    ensures
        r == hex_pair(a, b),
{
    if a == '+' {
        hex_digit(b)
    } else {
        match (hex_digit(a), hex_digit(b)) {
            (Some(x), Some(y)) => Some(16 * x + y),
            _ => None,
        }
    }
}

/// The colour a `#rrggbb` override names, if it is one.
pub fn parse_hex(input: &str) -> (r: Option<Rgb>)
    requires
        !splits_a_character(input@),
    ensures
        r == hex_color(input@),
{
    let all = chars_of(input);
    let start: usize = if all.len() > 0 && all[0] == '#' {
        1
    } else {
        0
    };
    let ghost hex = strip_hash(input@);
    assert(hex =~= all@.subrange(start as int, all@.len() as int));
    if all.len() - start != 6 {
        return None;
    }
    let mut i = start;
    while i < all.len()
        invariant
            start <= i <= all@.len(),
            all@.len() == start + 6,
            hex == all@.subrange(start as int, all@.len() as int),
            hex == strip_hash(input@),
            forall|k: int| start <= k < i ==> all@[k] < '\u{80}',
        decreases all@.len() - i,
    {
        if all[i] >= '\u{80}' {
            proof {
                let k = (i - start) as int;
                assert(hex[k] == all@[i as int]);
                assert(!(hex[k] < '\u{80}'));
                assert(!all_ascii(hex));
                lemma_non_ascii_hex(input@);
            }
            return None;
        }
        i += 1;
    }
    assert(all_ascii(hex)) by {
        assert forall|k: int| 0 <= k < hex.len() implies hex[k] < '\u{80}' by {
            assert(hex[k] == all@[start + k]);
        }
    }
    let r = read_pair(all[start], all[start + 1]);
    let g = read_pair(all[start + 2], all[start + 3]);
    let b = read_pair(all[start + 4], all[start + 5]);
    match (r, g, b) {
        (Some(r), Some(g), Some(b)) => Some(Rgb { red: r, green: g, blue: b }),
        _ => None,
    }
}

/// Integer Rec. 709 luma of a colour.
pub open spec fn luma(c: Rgb) -> int {
    (54 * c.red + 183 * c.green + 19 * c.blue) / 256
}

/// The gray of the same intensity: overrides set brightness, never hue.
pub fn monochrome(color: Rgb) -> (r: Rgb)
    ensures
        r == gray(luma(color) as u8),
        0 <= luma(color) <= 255,
{
    let l: u32 = (54 * (color.red as u32) + 183 * (color.green as u32) + 19 * (color.blue as u32))
        / 256;
    let v = l as u8;
    Rgb { red: v, green: v, blue: v }
}

/// A colour with its override applied: a valid `#rrggbb` replaces it, as a
/// gray of the same intensity.
pub open spec fn overridden(c: Rgb, value: Option<String>) -> Rgb {
    match value {
        Some(v) => match hex_color(v@) {
            Some(x) => gray(luma(x) as u8),
            None => c,
        },
        None => c,
    }
}

/// Whether an override can be read without cutting a character apart.
pub open spec fn override_whole(value: Option<String>) -> bool {
    match value {
        Some(v) => !splits_a_character(v@),
        None => true,
    }
}

/// Whether every colour override of `config` can be read.
pub open spec fn overrides_whole(config: Option<ThemeConfig>) -> bool {
    match config {
        None => true,
        Some(c) => {
            &&& override_whole(c.white)
            &&& override_whole(c.gray)
            &&& override_whole(c.dim)
            &&& override_whole(c.surface)
            &&& override_whole(c.surface_raised)
            &&& override_whole(c.accent)
            &&& override_whole(c.green)
            &&& override_whole(c.amber)
            &&& override_whole(c.red)
            &&& override_whole(c.background)
        },
    }
}

fn apply(target: Rgb, value: &Option<String>) -> (r: Rgb)
    requires
        override_whole(*value),
    ensures
        r == overridden(target, *value),
{
    match value {
        Some(v) => match parse_hex(v.as_str()) {
            Some(x) => monochrome(x),
            None => target,
        },
        None => target,
    }
}

/// The palette after the configured overrides.
pub open spec fn configured_theme(config: Option<ThemeConfig>) -> Theme {
    let d = default_theme();
    match config {
        None => d,
        Some(c) => Theme {
            white: overridden(d.white, c.white),
            gray: overridden(d.gray, c.gray),
            dim: overridden(d.dim, c.dim),
            surface: overridden(d.surface, c.surface),
            surface_raised: overridden(d.surface_raised, c.surface_raised),
            accent: overridden(d.accent, c.accent),
            author: d.author,
            green: overridden(d.green, c.green),
            amber: overridden(d.amber, c.amber),
            red: overridden(d.red, c.red),
            background: overridden(d.background, c.background),
        },
    }
}

impl Theme {
    /// The default palette with the configured intensity overrides; invalid
    /// values are ignored and the author hue cannot be overridden.
    pub fn from_config(config: &Option<ThemeConfig>) -> (r: Theme)
        requires
            overrides_whole(*config),
        ensures
            r == configured_theme(*config),
    {
        let d = Theme::default();
        match config {
            None => d,
            Some(c) => Theme {
                white: apply(d.white, &c.white),
                gray: apply(d.gray, &c.gray),
                dim: apply(d.dim, &c.dim),
                surface: apply(d.surface, &c.surface),
                surface_raised: apply(d.surface_raised, &c.surface_raised),
                accent: apply(d.accent, &c.accent),
                author: d.author,
                green: apply(d.green, &c.green),
                amber: apply(d.amber, &c.amber),
                red: apply(d.red, &c.red),
                background: apply(d.background, &c.background),
            },
        }
    }
}

/// A rectangle of terminal cells.
#[derive(Clone, Copy, Debug, PartialEq, Eq, Structural)]
pub struct Rect {
    pub x: u16,
    pub y: u16,
    pub width: u16,
    pub height: u16,
}

pub open spec fn min_u16(a: u16, b: u16) -> u16 {
    if a < b {
        a
    } else {
        b
    }
}

pub open spec fn half_gap(outer: u16, inner: u16) -> int {
    if outer > inner {
        (outer - inner) / 2
    } else {
        0
    }
}

/// A `width` × `height` box centred in `area`, never larger than it.
pub fn centered(area: Rect, width: u16, height: u16) -> (r: Rect)
    requires
        area.x + area.width <= u16::MAX,
        area.y + area.height <= u16::MAX,
    ensures
        r == (Rect {
            x: (area.x + half_gap(area.width, width)) as u16,
            y: (area.y + half_gap(area.height, height)) as u16,
            width: min_u16(width, area.width),
            height: min_u16(height, area.height),
        }),
        area.x <= r.x && r.x + r.width <= area.x + area.width,
        area.y <= r.y && r.y + r.height <= area.y + area.height,
{
    Rect {
        x: area.x + area.width.saturating_sub(width) / 2,
        y: area.y + area.height.saturating_sub(height) / 2,
        width: if width < area.width {
            width
        } else {
            area.width
        },
        height: if height < area.height {
            height
        } else {
            area.height
        },
    }
}

/// The columns `unicode_width::UnicodeWidthChar::width` gives a character
/// (`None` for a control character).
pub uninterp spec fn char_columns(c: char) -> Option<usize>;

/// The columns `unicode_width::UnicodeWidthStr::width` gives a string.
pub uninterp spec fn text_columns(s: Seq<char>) -> usize;

/// `UnicodeWidthChar::width`. Printable ASCII is one column and the C0 and
/// C1 control characters have no width, as the crate's lookup shows; other
/// characters get the width its tables give, which the contract only names.
#[verifier::external_body]
fn char_width(c: char) -> (r: Option<usize>)
    ensures
        r == char_columns(c),
        (' ' <= c && c <= '~') ==> r == Some(1usize),
        ((c as int) < 0x20 || (0x7f <= (c as int) && (c as int) < 0xa0)) ==> r is None,
{
    unicode_width::UnicodeWidthChar::width(c)
}

/// `UnicodeWidthStr::width`. The contract only names the result, a
/// function of the text alone; the crate's width tables are not restated.
#[verifier::external_body]
pub(crate) fn text_width(s: &str) -> (r: usize)
    ensures
        r == text_columns(s@),
{
    unicode_width::UnicodeWidthStr::width(s)
}

/// The columns a character takes while text is fitted (a control
/// character takes none).
pub open spec fn columns(c: char) -> int {
    match char_columns(c) {
        Some(w) => w as int,
        None => 0,
    }
}

/// The longest prefix of `text` that leaves a column free within `room`.
pub open spec fn cut(text: Seq<char>, room: int) -> Seq<char>
    decreases text.len(),
{
    if text.len() == 0 {
        Seq::empty()
    } else if columns(text[0]) + 1 > room {
        Seq::empty()
    } else {
        seq![text[0]] + cut(text.drop_first(), room - columns(text[0]))
    }
}

/// `text` fitted into `max` columns: unchanged when it fits, otherwise cut
/// and closed with an ellipsis.
pub open spec fn fitted(text: Seq<char>, max: int) -> Seq<char> {
    if max == 0 || text.len() == 0 {
        Seq::empty()
    } else if text_columns(text) <= max {
        text
    } else {
        cut(text, max).push('\u{2026}')
    }
}

/// Cut `text` to at most `max` display columns, ending with an ellipsis when
/// it had to be shortened. Wide glyphs count as two columns.
pub fn truncate_to_width(text: &str, max: usize) -> (r: String)
    ensures
        r@ == fitted(text@, max as int),
{
    let chars = chars_of(text);
    if max == 0 || chars.len() == 0 {
        return String::new();
    }
    if text_width(text) <= max {
        return owned(text);
    }
    let mut out: Vec<char> = Vec::new();
    let mut used: usize = 0;
    let mut i: usize = 0;
    assert(chars@.subrange(0, chars@.len() as int) =~= chars@);
    assert(out@ + cut(chars@, max as int) =~= cut(chars@, max as int));
    while i < chars.len()
        invariant_except_break
            i <= chars@.len(),
            used < max,
            cut(chars@, max as int) == out@ + cut(
                chars@.subrange(i as int, chars@.len() as int),
                max - used,
            ),
        ensures
            cut(chars@, max as int) == out@,
        decreases chars@.len() - i,
    {
        let rest = Ghost(chars@.subrange(i as int, chars@.len() as int));
        let c = chars[i];
        assert(rest@[0] == c);
        let width: usize = match char_width(c) {
            Some(w) => w,
            None => 0,
        };
        if width >= max - used {
            assert(cut(rest@, max - used) == Seq::<char>::empty());
            assert(out@ + Seq::<char>::empty() =~= out@);
            break;
        }
        assert(rest@.drop_first() =~= chars@.subrange(i + 1, chars@.len() as int));
        out.push(c);
        used = used + width;
        i += 1;
        assert(cut(chars@, max as int) == out@ + cut(
            chars@.subrange(i as int, chars@.len() as int),
            max - used,
        )) by {
            assert(out@.drop_last() + (seq![c] + cut(rest@.drop_first(), max - used)) =~= out@
                + cut(rest@.drop_first(), max - used));
        }
        if i == chars.len() {
            assert(chars@.subrange(i as int, chars@.len() as int) =~= Seq::<char>::empty());
            assert(out@ + Seq::<char>::empty() =~= out@);
        }
    }
    out.push('\u{2026}');
    crate::text::string_of(&out)
}

/// The columns a run of characters takes while text is fitted.
pub open spec fn columns_of(s: Seq<char>) -> int
    decreases s.len(),
{
    if s.len() == 0 {
        0
    } else {
        columns(s[0]) + columns_of(s.drop_first())
    }
}

/// Text that had to be shortened keeps a leading part of itself, and that
/// part leaves at least one of the `max` columns free for the ellipsis.
pub proof fn law_truncation_leaves_room_for_the_ellipsis(text: Seq<char>, max: int)
    requires
        max >= 1,
    ensures
        columns_of(cut(text, max)) + 1 <= max,
        cut(text, max).len() <= text.len(),
        cut(text, max) =~= text.subrange(0, cut(text, max).len() as int),
    decreases text.len(),
{
    if text.len() == 0 {
    } else if columns(text[0]) + 1 > max {
    } else {
        let rest = text.drop_first();
        let room = max - columns(text[0]);
        law_truncation_leaves_room_for_the_ellipsis(rest, room);
        let tail = cut(rest, room);
        let whole = seq![text[0]] + tail;
        assert(whole[0] == text[0]);
        assert(whole.drop_first() =~= tail);
        assert(whole =~= text.subrange(0, whole.len() as int));
    }
}

/// Whether a colour has no hue.
pub open spec fn is_gray(c: Rgb) -> bool {
    c.red == c.green && c.green == c.blue
}

/// Every colour a configuration can set comes out as a gray; the author
/// hue, which no configuration sets, stays as it is by default.
pub proof fn law_configured_colors_are_gray(config: Option<ThemeConfig>)
    ensures
        ({
            let t = configured_theme(config);
            &&& is_gray(t.white)
            &&& is_gray(t.gray)
            &&& is_gray(t.dim)
            &&& is_gray(t.surface)
            &&& is_gray(t.surface_raised)
            &&& is_gray(t.accent)
            &&& is_gray(t.green)
            &&& is_gray(t.amber)
            &&& is_gray(t.red)
            &&& is_gray(t.background)
            &&& t.author == default_theme().author
        }),
{
}

/// How long ago an instant was, in the largest whole unit: "now" under a
/// minute (and for instants in the future), then minutes, hours and days.
pub open spec fn ago(elapsed_ms: int) -> Seq<char> {
    if elapsed_ms < 60000 {
        "now"@
    } else if elapsed_ms < 3600000 {
        decimal((elapsed_ms / 60000) as nat) + "m"@
    } else if elapsed_ms < 86400000 {
        decimal((elapsed_ms / 3600000) as nat) + "h"@
    } else {
        decimal((elapsed_ms / 86400000) as nat) + "d"@
    }
}

/// The age of a post created at `time` (milliseconds), as of `now`.
pub fn relative_time(time: i64, now: i64) -> (r: String)
    ensures
        r@ == ago(now - time),
{
    let elapsed: i128 = now as i128 - time as i128;
    if elapsed < 60000 {
        owned("now")
    } else if elapsed < 3600000 {
        crate::text::concat2(crate::text::decimal_string((elapsed / 60000) as u64).as_str(), "m")
    } else if elapsed < 86400000 {
        crate::text::concat2(crate::text::decimal_string((elapsed / 3600000) as u64).as_str(), "h")
    } else {
        crate::text::concat2(crate::text::decimal_string((elapsed / 86400000) as u64).as_str(), "d")
    }
}


/// Whether holding `code` repeats it: movement, paging and Backspace.
pub open spec fn repeating(code: KeyCode) -> bool {
    match code {
        KeyCode::Up | KeyCode::Down | KeyCode::Left | KeyCode::Right | KeyCode::PageUp
        | KeyCode::PageDown | KeyCode::Home | KeyCode::End | KeyCode::Backspace => true,
        KeyCode::Char(c) => c == 'j' || c == 'k',
        _ => false,
    }
}

/// Whether a held key's repeats act like fresh presses.
pub fn key_repeats(code: KeyCode) -> (r: bool)
    ensures
        r == repeating(code),
{
    match code {
        KeyCode::Up | KeyCode::Down | KeyCode::Left | KeyCode::Right | KeyCode::PageUp
        | KeyCode::PageDown | KeyCode::Home | KeyCode::End | KeyCode::Backspace => true,
        KeyCode::Char(c) => c == 'j' || c == 'k',
        _ => false,
    }
}

/// What the loading card says is being fetched.
pub open spec fn loading_subject_of(s: Screen) -> Seq<char> {
    match s {
        Screen::Home => "home"@,
        Screen::Explore => "search"@,
        Screen::Mentions => "mentions"@,
        Screen::Bookmarks => "bookmarks"@,
        Screen::Lists => "lists"@,
        Screen::ListFeed(_) => "list"@,
        Screen::Profile(_) => "profile"@,
        Screen::Likes(_) => "likes"@,
        Screen::Thread(_) => "conversation"@,
        Screen::Landing => "session"@,
    }
}

/// What the loading card says is being fetched on `app`'s screen.
pub fn loading_subject(app: &App) -> (r: &'static str)
    ensures
        r@ == loading_subject_of(app.screen),
{
    match app.screen {
        Screen::Home => "home",
        Screen::Explore => "search",
        Screen::Mentions => "mentions",
        Screen::Bookmarks => "bookmarks",
        Screen::Lists => "lists",
        Screen::ListFeed(_) => "list",
        Screen::Profile(_) => "profile",
        Screen::Likes(_) => "likes",
        Screen::Thread(_) => "conversation",
        Screen::Landing => "session",
    }
}

/// Rows taken by the screen header: profiles and lists show more.
pub fn header_height(app: &App) -> (r: u16)
    ensures
        r == match app.screen {
            Screen::Profile(_) => 7u16,
            Screen::ListFeed(_) => 5u16,
            _ => 3u16,
        },
{
    match app.screen {
        Screen::Profile(_) => 7,
        Screen::ListFeed(_) => 5,
        _ => 3,
    }
}

/// The lines `textwrap::wrap` breaks `text` into at `width` columns.
pub uninterp spec fn wrapped(text: Seq<char>, width: usize) -> Seq<Seq<char>>;

/// `textwrap::wrap`, each line taken as an owned string. The contract only
/// names the lines: the wrapping is a function of the text and the width,
/// and what it gives is not stated further.
#[verifier::external_body]
fn wrap_text(text: &str, width: usize) -> (r: Vec<String>)
    ensures
        strs(r@) == wrapped(text@, width),
{
    textwrap::wrap(text, width).into_iter().map(|line| line.into_owned()).collect()
}

/// The lines of a post body laid out `width` columns wide; never narrower
/// than ten columns.
pub fn body_lines(text: &str, width: usize) -> (r: Vec<String>)
    ensures
        strs(r@) == wrapped(text@, if width < 10 { 10 } else { width }),
{
    let w = if width < 10 { 10 } else { width };
    wrap_text(text, w)
}

/// How many body lines a card shows: in an open thread the focused post
/// gets what the area leaves after six rows and its still (at least three);
/// elsewhere the focused card shows nine and the others three.
pub open spec fn body_limit_of(area_height: u16, image_rows: u16, focused: bool, thread_view: bool) -> int {
    if focused && thread_view {
        let room = area_height - (6 + image_rows);
        if room < 3 {
            3
        } else {
            room
        }
    } else if focused {
        9
    } else {
        3
    }
}

pub fn body_limit(area_height: u16, image_rows: u16, focused: bool, thread_view: bool) -> (r: usize)
    ensures
        r == body_limit_of(area_height, image_rows, focused, thread_view),
{
    if focused && thread_view {
        let chrome: u32 = 6 + image_rows as u32;
        let height: u32 = area_height as u32;
        if height < chrome + 3 {
            3
        } else {
            (height - chrome) as usize
        }
    } else if focused {
        9
    } else {
        3
    }
}

/// Keep the open post's scroll inside its body: at most the lines that do
/// not fit in `limit`.
pub fn fit_body_scroll(app: &mut App, total: usize, limit: usize)
    ensures
        final(app).body_scroll_max == if total > limit { total - limit } else { 0 },
        final(app).body_scroll == if old(app).body_scroll < final(app).body_scroll_max {
            old(app).body_scroll
        } else {
            final(app).body_scroll_max
        },
        *final(app) == (App {
            body_scroll: final(app).body_scroll,
            body_scroll_max: final(app).body_scroll_max,
            ..*old(app)
        }),
{
    let max = if total > limit { total - limit } else { 0 };
    app.body_scroll_max = max;
    if app.body_scroll > max {
        app.body_scroll = max;
    }
}

/// Outside an open thread nothing scrolls within a card.
pub fn clear_body_scroll(app: &mut App)
    ensures
        *final(app) == (App { body_scroll: 0, body_scroll_max: 0, ..*old(app) }),
{
    app.body_scroll = 0;
    app.body_scroll_max = 0;
}

/// The part of a card's wrapped body that is shown: lines `start..end`,
/// and whether text was cut above or below.
#[derive(Clone, Copy, Debug, PartialEq, Eq, Structural)]
pub struct BodyWindow {
    pub start: usize,
    pub end: usize,
    pub clipped_above: bool,
    pub clipped_below: bool,
}

pub open spec fn body_window_of(lines: int, offset: int, limit: int) -> BodyWindow {
    BodyWindow {
        start: (if offset < lines { offset } else { lines }) as usize,
        end: (if offset + limit < lines { offset + limit } else { lines }) as usize,
        clipped_above: offset > 0,
        clipped_below: lines > offset + limit,
    }
}

/// The window over `lines` wrapped lines that starts `offset` lines down and
/// holds at most `limit`.
pub fn body_window(lines: usize, offset: usize, limit: usize) -> (r: BodyWindow)
    ensures
        r == body_window_of(lines as int, offset as int, limit as int),
{
    let start = if offset < lines { offset } else { lines };
    let reach: u128 = offset as u128 + limit as u128;
    let end = if reach < lines as u128 { (offset + limit) as usize } else { lines };
    BodyWindow {
        start,
        end,
        clipped_above: offset > 0,
        clipped_below: (lines as u128) > reach,
    }
}

/// Scrolled to its end, an open post shows its last line and nothing is
/// left below.
pub proof fn law_thread_body_scrolls_to_its_tail(total: usize, limit: usize)
    ensures
        ({
            let max = if total > limit { total - limit } else { 0 };
            let w = body_window_of(total as int, max as int, limit as int);
            &&& w.end == total
            &&& !w.clipped_below
        }),
{
}

/// The card pinned at the top of the feed: the root of a collapsed thread,
/// else the selection kept within the posts.
pub fn pinned_card(selected: usize, len: usize, collapsed: bool) -> (r: usize)
    ensures
        r == if collapsed {
            0
        } else if len == 0 {
            0
        } else if selected < len {
            selected
        } else {
            (len - 1) as usize
        },
{
    if collapsed {
        0
    } else if len == 0 {
        0
    } else if selected < len {
        selected
    } else {
        len - 1
    }
}

/// The cards laid out from `first`: one in a collapsed thread, else up to
/// fourteen.
pub fn card_window(first: usize, len: usize, collapsed: bool) -> (r: (usize, usize))
    ensures
        r.0 == first,
        r.1 == ({
            let want = first + if collapsed { 1int } else { 14int };
            if first >= len {
                first as int
            } else if want < len {
                want
            } else {
                len as int
            }
        }),
{
    if first >= len {
        return (first, first);
    }
    let span: usize = if collapsed { 1 } else { 14 };
    let end = if len - first > span { first + span } else { len };
    (first, end)
}

/// A card's rows: its content (text and still, kept a row short of what is
/// left) and its height with the rule below it.
pub fn card_height(text_rows: u16, image_rows: u16, remaining: u16) -> (r: (u16, u16))
    requires
        remaining >= 2,
    ensures
        ({
            let wanted = if text_rows + image_rows > u16::MAX {
                u16::MAX as int
            } else {
                text_rows + image_rows
            };
            let room = remaining - 1;
            let content = if wanted < room {
                wanted
            } else {
                room
            };
            &&& r.0 == content
            &&& r.1 == if content + 1 < remaining {
                content + 1
            } else {
                remaining as int
            }
        }),
{
    let wanted = text_rows.saturating_add(image_rows);
    let room = remaining - 1;
    let content = if wanted < room { wanted } else { room };
    let height = if content + 1 < remaining { content + 1 } else { remaining };
    (content, height)
}

/// What an empty feed says: why it is empty and what to do next.
pub open spec fn empty_message_of(a: App) -> Seq<char> {
    let q = crate::text::trim(a.query@);
    if a.screen is Explore && a.mode == InputMode::Normal && q.len() > 0 {
        "  No results for \u{201C}"@ + q + "\u{201D}.\n  Press / to search again."@
    } else if a.mode == InputMode::Search {
        "  Type a query and press Enter to search X."@
    } else if a.screen is Thread && a.pending_ops > 0 {
        "  Loading this conversation and its replies\u{2026}"@
    } else if a.screen is Thread {
        "  This conversation has no posts."@
    } else {
        "  Nothing here yet.\n  Press r to refresh or / to search."@
    }
}

pub fn empty_feed_message(app: &App) -> (r: String)
    ensures
        r@ == empty_message_of(*app),
{
    let explore = match app.screen {
        Screen::Explore => true,
        _ => false,
    };
    let thread = match app.screen {
        Screen::Thread(_) => true,
        _ => false,
    };
    let q = crate::text::trim_chars(&chars_of(app.query.as_str()));
    if explore && app.mode == InputMode::Normal && q.len() > 0 {
        let mut r = owned("  No results for \u{201C}");
        crate::text::push_chars(&mut r, &q);
        r.append("\u{201D}.\n  Press / to search again.");
        r
    } else if app.mode == InputMode::Search {
        owned("  Type a query and press Enter to search X.")
    } else if thread && app.has_pending() {
        owned("  Loading this conversation and its replies\u{2026}")
    } else if thread {
        owned("  This conversation has no posts.")
    } else {
        owned("  Nothing here yet.\n  Press r to refresh or / to search.")
    }
}

/// The status row: the error when there is one, else the status, with a
/// pointer to live X in the demo; marked `!` for an error, `·` otherwise.
pub open spec fn status_row_of(a: App) -> (char, Seq<char>) {
    let text = match a.error {
        Some(e) => e@,
        None => a.status@,
    };
    let shown = if a.demo {
        text + "  \u{00B7}  run `xtui browser` or `xtui login CLIENT_ID` for live X"@
    } else {
        text
    };
    (if a.error is Some { '!' } else { '\u{00B7}' }, shown)
}

pub fn status_row(app: &App) -> (r: (char, String))
    ensures
        (r.0, r.1@) == status_row_of(*app),
{
    let mut text = match &app.error {
        Some(e) => owned(e.as_str()),
        None => owned(app.status.as_str()),
    };
    if app.demo {
        text.append("  \u{00B7}  run `xtui browser` or `xtui login CLIENT_ID` for live X");
    }
    let mark = if app.error.is_some() { '!' } else { '\u{00B7}' };
    (mark, text)
}

/// The bottom rail's click target for section `index` of five: equal
/// segments, the last reaching the right edge.
pub fn nav_segment(x: u16, width: u16, index: u16) -> (r: (u16, u16))
    requires
        index < 5,
        x + width <= u16::MAX,
    ensures
        ({
            let segment = width / 5;
            let start = x + segment * index;
            &&& r.0 == start
            &&& r.1 == if index == 4 {
                x + width - start
            } else {
                segment as int
            }
        }),
{
    let segment = width / 5;
    assert(segment * index <= width) by (nonlinear_arith)
        requires
            segment == width / 5,
            index < 5,
    ;
    let start = x + segment * index;
    let span = if index == 4 { x + width - start } else { segment };
    (start, span)
}

/// Keep the landing selection on one of its `len` entries.
pub fn clamp_landing_selection(app: &mut App, len: usize)
    ensures
        final(app).landing_selected == if old(app).landing_selected >= len && len > 0 {
            (len - 1) as usize
        } else if old(app).landing_selected >= len {
            0
        } else {
            old(app).landing_selected
        },
        *final(app) == (App { landing_selected: final(app).landing_selected, ..*old(app) }),
{
    if app.landing_selected >= len {
        app.landing_selected = if len > 0 { len - 1 } else { 0 };
    }
}

/// How long the event loop waits for input: a short tick while work is in
/// flight or the browser bridge is live, a quicker one for the landing
/// page's motion, and thirty seconds when idle.
pub open spec fn poll_wait_of(a: App, motion: bool) -> u64 {
    if a.pending_ops > 0 || a.media_inflight@.len() > 0 || a.browser_mode {
        125
    } else if motion && a.screen is Landing {
        80
    } else {
        30000
    }
}

pub fn poll_wait_ms(app: &App, motion: bool) -> (r: u64)
    ensures
        r == poll_wait_of(*app, motion),
{
    let landing = match app.screen {
        Screen::Landing => true,
        _ => false,
    };
    if app.has_pending() || app.has_media_inflight() || app.browser_mode {
        125
    } else if motion && landing {
        80
    } else {
        30000
    }
}

/// Whether the Home feed is due a silent refresh, `since_ms` after the last
/// one: every two seconds with the browser bridge, else at the configured
/// interval (never when it is zero), and only on a live Home feed that the
/// reader is not searching or navigating and that has nothing in flight.
pub open spec fn refresh_due_of(a: App, since_ms: u64) -> bool {
    let interval: int = if a.browser_mode { 2000 } else { a.auto_refresh_secs * 1000 };
    &&& (a.browser_mode || a.auto_refresh_secs > 0)
    &&& !a.demo
    &&& a.mode == InputMode::Normal
    &&& !a.nav_focused
    &&& a.screen is Home
    &&& a.pending_ops == 0
    &&& since_ms >= interval
}

/// Silent refreshes keep to their interval: none in the demo, none when the
/// interval is zero outside the browser bridge, and never before the
/// interval (two seconds with the bridge, else the configured seconds) has
/// passed since the last one.
pub proof fn law_refresh_keeps_its_interval(a: App, since_ms: u64)
    requires
        refresh_due_of(a, since_ms),
    ensures
        !a.demo,
        a.browser_mode || a.auto_refresh_secs > 0,
        a.browser_mode ==> since_ms >= 2000,
        !a.browser_mode ==> since_ms >= a.auto_refresh_secs * 1000,
{
}

pub fn auto_refresh_due(app: &App, since_ms: u64) -> (r: bool)
    ensures
        r == refresh_due_of(*app, since_ms),
{
    let home = match app.screen {
        Screen::Home => true,
        _ => false,
    };
    let interval: u128 = if app.browser_mode { 2000 } else { app.auto_refresh_secs as u128 * 1000 };
    (app.browser_mode || app.auto_refresh_secs > 0) && !app.demo && app.mode == InputMode::Normal
        && !app.nav_focused && home && !app.has_pending() && since_ms as u128 >= interval
}

/// Whether the reader is wide enough for the route rail beside the feed;
/// narrower terminals get the bottom rail.
pub fn reader_is_wide(width: u16) -> (r: bool)
    ensures
        r == (width >= 78),
{
    width >= 78
}

/// The rows the feed's cards occupy and their click regions, stacked from
/// the top of `area`: card `i` shows post `first + i` and is `heights[i]`
/// rows tall, cut at the bottom of the area; stacking stops when fewer than
/// two rows are left or the cards run out.
pub fn card_layout(area: Rect, first: usize, heights: &Vec<u16>) -> (r: (
    Vec<(u16, u16, usize)>,
    Vec<HitRegion>,
))
    requires
        area.y + area.height <= u16::MAX,
        first + heights@.len() <= usize::MAX,
    ensures
        ({
            let rows = r.0@;
            let hits = r.1@;
            let bottom = area.y + area.height;
            &&& rows.len() == hits.len()
            &&& rows.len() <= heights@.len()
            &&& rows.len() > 0 ==> rows[0].0 == area.y
            &&& forall|i: int| 0 <= i < rows.len() - 1 ==> #[trigger] rows[i].1 == rows[i + 1].0
            &&& forall|i: int|
                0 <= i < rows.len() ==> {
                    &&& bottom - (#[trigger] rows[i]).0 >= 2
                    &&& rows[i].2 == first + i
                    &&& rows[i].1 == rows[i].0 + if heights@[i] < bottom - rows[i].0 {
                        heights@[i] as int
                    } else {
                        bottom - rows[i].0
                    }
                    &&& hits[i] == HitRegion {
                        x: area.x,
                        y: rows[i].0,
                        width: area.width,
                        height: (rows[i].1 - rows[i].0) as u16,
                        action: HitAction::Card((first + i) as usize),
                    }
                }
            &&& rows.len() < heights@.len() ==> bottom - (if rows.len() == 0 {
                area.y as int
            } else {
                rows.last().1 as int
            }) < 2
        }),
{
    let bottom: u16 = area.y + area.height;
    let mut rows: Vec<(u16, u16, usize)> = Vec::new();
    let mut hits: Vec<HitRegion> = Vec::new();
    let mut y: u16 = area.y;
    let mut i: usize = 0;
    while i < heights.len() && bottom - y >= 2
        invariant
            bottom == area.y + area.height,
            area.y <= y <= bottom,
            i <= heights@.len(),
            first + heights@.len() <= usize::MAX,
            rows@.len() == i,
            hits@.len() == i,
            i == 0 ==> y == area.y,
            i > 0 ==> y == rows@[i - 1].1,
            rows@.len() > 0 ==> rows@[0].0 == area.y,
            forall|j: int| 0 <= j < i - 1 ==> #[trigger] rows@[j].1 == rows@[j + 1].0,
            forall|j: int|
                0 <= j < i ==> {
                    &&& bottom - (#[trigger] rows@[j]).0 >= 2
                    &&& rows@[j].2 == first + j
                    &&& rows@[j].1 == rows@[j].0 + if heights@[j] < bottom - rows@[j].0 {
                        heights@[j] as int
                    } else {
                        bottom - rows@[j].0
                    }
                    &&& hits@[j] == HitRegion {
                        x: area.x,
                        y: rows@[j].0,
                        width: area.width,
                        height: (rows@[j].1 - rows@[j].0) as u16,
                        action: HitAction::Card((first + j) as usize),
                    }
                },
        decreases heights@.len() - i,
    {
        let remaining = bottom - y;
        let h = if heights[i] < remaining { heights[i] } else { remaining };
        rows.push((y, y + h, first + i));
        hits.push(HitRegion { x: area.x, y, width: area.width, height: h, action: HitAction::Card(first + i) });
        y = y + h;
        i += 1;
    }
    if i > 0 {
        assert(rows@.last() == rows@[i - 1]);
    }
    (rows, hits)
}

/// The reading position shown at the right of the header: the selected
/// post's place in the feed, padded; nothing for lists or an empty feed.
pub open spec fn position_label_of(a: App) -> Seq<char> {
    if a.posts@.len() > 0 && !(a.screen is Lists) {
        " "@ + decimal((a.selected + 1) as nat) + " / "@ + decimal(a.posts@.len() as nat) + " "@
    } else {
        Seq::empty()
    }
}

pub fn position_label(app: &App) -> (r: String)
    requires
        app.selected < u64::MAX,
    ensures
        r@ == position_label_of(*app),
{
    let lists = match app.screen {
        Screen::Lists => true,
        _ => false,
    };
    if app.posts.len() > 0 && !lists {
        let mut r = owned(" ");
        r.append(crate::text::decimal_string(app.selected as u64 + 1).as_str());
        r.append(" / ");
        r.append(crate::text::decimal_string(app.posts.len() as u64).as_str());
        r.append(" ");
        r
    } else {
        String::new()
    }
}

/// The header's click regions in `area`: back on the arrow while there is
/// somewhere to go back to, the feed switch on Home with the browser bridge,
/// and the search line on Explore.
pub open spec fn header_hits_of(a: App, area: Rect) -> Seq<HitRegion> {
    let back = if a.history@.len() > 0 {
        seq![HitRegion { x: area.x, y: area.y, width: 2, height: 1, action: HitAction::Back }]
    } else {
        Seq::empty()
    };
    let line = (area.y + 1) as u16;
    let rest = if a.screen is Home && a.browser_mode && area.width > 0 {
        seq![HitRegion {
            x: area.x,
            y: line,
            width: if area.width < 28 { area.width } else { 28 },
            height: 1,
            action: HitAction::ToggleFeed,
        }]
    } else if a.screen is Explore && area.width > 0 {
        seq![HitRegion { x: area.x, y: line, width: area.width, height: 1, action: HitAction::Search }]
    } else {
        Seq::empty()
    };
    back + rest
}

pub fn register_header_hits(app: &mut App, area: Rect)
    requires
        area.y < u16::MAX,
    ensures
        final(app).hit_regions@ == old(app).hit_regions@ + header_hits_of(*old(app), area),
        *final(app) == (App { hit_regions: final(app).hit_regions, ..*old(app) }),
{
    let ghost before = app.hit_regions@;
    if app.history.len() > 0 {
        app.register_hit(area.x, area.y, 2, 1, HitAction::Back);
    }
    let ghost mid = app.hit_regions@;
    let home = match app.screen {
        Screen::Home => true,
        _ => false,
    };
    let explore = match app.screen {
        Screen::Explore => true,
        _ => false,
    };
    if home && app.browser_mode {
        let w = if area.width < 28 { area.width } else { 28 };
        app.register_hit(area.x, area.y + 1, w, 1, HitAction::ToggleFeed);
    } else if explore {
        app.register_hit(area.x, area.y + 1, area.width, 1, HitAction::Search);
    }
    proof {
        let a = *old(app);
        assert(mid == before + if a.history@.len() > 0 {
            seq![HitRegion { x: area.x, y: area.y, width: 2, height: 1, action: HitAction::Back }]
        } else {
            Seq::<HitRegion>::empty()
        }) by {
            if a.history@.len() == 0 {
                assert(before + Seq::<HitRegion>::empty() =~= before);
            } else {
                assert(before.push(HitRegion { x: area.x, y: area.y, width: 2, height: 1, action: HitAction::Back }) =~= before + seq![HitRegion { x: area.x, y: area.y, width: 2, height: 1, action: HitAction::Back }]);
            }
        }
        assert(app.hit_regions@ =~= old(app).hit_regions@ + header_hits_of(a, area));
    }
}

/// The lines under the header's title that describe the screen: a list's
/// description and size, a thread's size and how to expand it, whose likes
/// are shown, a profile's handle and bio, and the last search. Home and the
/// search box are drawn as controls instead; a profile's counts follow.
pub open spec fn screen_caption_of(a: App) -> Seq<Seq<char>> {
    match a.screen {
        Screen::ListFeed(l) => seq![
            "  "@ + l.description@,
            "  "@ + decimal(
                (match l.member_count {
                    Some(n) => n,
                    None => 0,
                }) as nat,
            ) + " members  \u{00B7}  "@ + decimal(
                (match l.follower_count {
                    Some(n) => n,
                    None => 0,
                }) as nat,
            ) + " followers"@,
        ],
        Screen::Thread(_) => seq![
            "  "@ + decimal(a.posts@.len() as nat) + " posts \u{00B7} "@ + (
            if a.keys@.contains_key(Action::ExpandThread) && a.keys@[Action::ExpandThread].len()
                > 0 {
                crate::keys::key_label_of(a.keys@[Action::ExpandThread][0])
            } else {
                crate::keys::action_name(Action::ExpandThread)
            }) + if a.thread_expanded {
                " collapses replies"@
            } else {
                " expands replies"@
            },
        ],
        Screen::Likes(u) => seq!["  posts liked by @"@ + u.username@],
        Screen::Profile(u) => seq![
            "  @"@ + u.username@ + if u.verified {
                "  \u{2713}"@
            } else {
                ""@
            },
            "  "@ + u.description@,
        ],
        Screen::Explore => if a.mode == InputMode::Search {
            Seq::empty()
        } else {
            seq!["  Search: "@ + a.query@]
        },
        _ => Seq::empty(),
    }
}

pub fn screen_caption(app: &App) -> (r: Vec<String>)
    requires
        app.keys.wf(),
    ensures
        r@.map_values(|l: String| l@) == screen_caption_of(*app),
{
    let mut r: Vec<String> = Vec::new();
    match &app.screen {
        Screen::ListFeed(l) => {
            r.push(crate::text::concat2("  ", l.description.as_str()));
            let members = match l.member_count {
                Some(n) => n,
                None => 0,
            };
            let followers = match l.follower_count {
                Some(n) => n,
                None => 0,
            };
            let mut line = crate::text::concat2(
                "  ",
                crate::text::decimal_string(members).as_str(),
            );
            line.append(" members  \u{00B7}  ");
            line.append(crate::text::decimal_string(followers).as_str());
            line.append(" followers");
            r.push(line);
        },
        Screen::Thread(_) => {
            let key = app.keys.key_label(Action::ExpandThread);
            let mut line = crate::text::concat2(
                "  ",
                crate::text::decimal_string(app.posts.len() as u64).as_str(),
            );
            line.append(" posts \u{00B7} ");
            line.append(key.as_str());
            line.append(if app.thread_expanded { " collapses replies" } else { " expands replies" });
            r.push(line);
        },
        Screen::Likes(u) => {
            r.push(crate::text::concat2("  posts liked by @", u.username.as_str()));
        },
        Screen::Profile(u) => {
            let mut line = crate::text::concat2("  @", u.username.as_str());
            line.append(if u.verified { "  \u{2713}" } else { "" });
            r.push(line);
            r.push(crate::text::concat2("  ", u.description.as_str()));
        },
        Screen::Explore => {
            if app.mode != InputMode::Search {
                r.push(crate::text::concat2("  Search: ", app.query.as_str()));
            }
        },
        _ => {},
    }
    proof {
        assert(r@.map_values(|l: String| l@) =~= screen_caption_of(*app));
    }
    r
}

/// One row of the help index: two commands, each with its keys.
#[derive(Debug)]
pub struct HelpPair {
    pub left_keys: String,
    pub left: &'static str,
    pub right_keys: String,
    pub right: &'static str,
}

pub open spec fn pair_is(p: HelpPair, lk: Seq<char>, l: Seq<char>, rk: Seq<char>, r: Seq<char>) -> bool {
    p.left_keys@ == lk && p.left@ == l && p.right_keys@ == rk && p.right@ == r
}

/// The help index of keymap `b`: what to read and move with, the routes,
/// and the hand-offs, each command with the keys it is bound to.
pub open spec fn help_index_of(b: Map<Action, Seq<KeySpec>>, r: Seq<HelpPair>) -> bool {
    let t = |a: Action| crate::keys::bound_text(b, a);
    &&& r.len() == 9
    &&& pair_is(r[0], t(Action::MoveDown), "Next signal"@, t(Action::MoveUp), "Previous signal"@)
    &&& pair_is(
        r[1],
        t(Action::PageDown) + " / "@ + t(Action::PageUp),
        "Jump five"@,
        t(Action::Top) + " / "@ + t(Action::Bottom),
        "Top / bottom"@,
    )
    &&& pair_is(r[2], t(Action::Open), "Open selection"@, t(Action::Back), "Back / leave"@)
    &&& pair_is(r[3], t(Action::Sidebar), "Focus route rail"@, t(Action::Search), "Search X"@)
    &&& pair_is(r[4], "1 \u{2014} 5"@, "Direct route"@, t(Action::Refresh), "Refresh"@)
    &&& pair_is(
        r[5],
        t(Action::ToggleFeed),
        "Following / For You"@,
        t(Action::ExpandThread),
        "Expand replies"@,
    )
    &&& pair_is(r[6], t(Action::Profile), "Author profile"@, t(Action::Likes), "Liked posts"@)
    &&& pair_is(
        r[7],
        t(Action::MediaPreview),
        "Media preview"@,
        t(Action::OpenMedia),
        "Open media"@,
    )
    &&& pair_is(r[8], t(Action::OpenPost), "Open on x.com"@, t(Action::Quit), "Quit XTUI"@)
}

fn two_bindings(keys: &KeyBindings, a: Action, b: Action) -> (r: String)
    requires
        keys.wf(),
    ensures
        r@ == crate::keys::bound_text(keys@, a) + " / "@ + crate::keys::bound_text(keys@, b),
{
    let mut r = keys.binding_text(a);
    r.append(" / ");
    r.append(keys.binding_text(b).as_str());
    r
}

fn help_pair(keys: &KeyBindings, l: Action, left: &'static str, r: Action, right: &'static str) -> (p: HelpPair)
    requires
        keys.wf(),
    ensures
        pair_is(p, crate::keys::bound_text(keys@, l), left@, crate::keys::bound_text(keys@, r), right@),
{
    HelpPair { left_keys: keys.binding_text(l), left, right_keys: keys.binding_text(r), right }
}

/// The help index for keymap `keys`.
pub fn help_index(keys: &KeyBindings) -> (r: Vec<HelpPair>)
    requires
        keys.wf(),
    ensures
        help_index_of(keys@, r@),
{
    let mut r: Vec<HelpPair> = Vec::new();
    r.push(help_pair(keys, Action::MoveDown, "Next signal", Action::MoveUp, "Previous signal"));
    r.push(
        HelpPair {
            left_keys: two_bindings(keys, Action::PageDown, Action::PageUp),
            left: "Jump five",
            right_keys: two_bindings(keys, Action::Top, Action::Bottom),
            right: "Top / bottom",
        },
    );
    r.push(help_pair(keys, Action::Open, "Open selection", Action::Back, "Back / leave"));
    r.push(help_pair(keys, Action::Sidebar, "Focus route rail", Action::Search, "Search X"));
    r.push(
        HelpPair {
            left_keys: owned("1 \u{2014} 5"),
            left: "Direct route",
            right_keys: keys.binding_text(Action::Refresh),
            right: "Refresh",
        },
    );
    r.push(
        help_pair(keys, Action::ToggleFeed, "Following / For You", Action::ExpandThread, "Expand replies"),
    );
    r.push(help_pair(keys, Action::Profile, "Author profile", Action::Likes, "Liked posts"));
    r.push(help_pair(keys, Action::MediaPreview, "Media preview", Action::OpenMedia, "Open media"));
    r.push(help_pair(keys, Action::OpenPost, "Open on x.com", Action::Quit, "Quit XTUI"));
    r
}

/// The words of a post card; the card paints them with its styles and adds
/// the counts.
#[derive(Debug)]
pub struct CardText {
    /// Whether the card opens with the repost marker.
    pub reposted: bool,
    /// What stands before the author's name: a reply's elbow or an indent.
    pub prefix: &'static str,
    /// The handle and age after the author's name.
    pub author_meta: String,
    /// Whether text above the shown lines was scrolled away.
    pub earlier: bool,
    /// The shown lines of the body, indented.
    pub body: Vec<String>,
    /// The note that more text follows, if it does.
    pub continuation: Option<&'static str>,
    /// The first lines of a quoted post, on the focused card only.
    pub quote: Vec<String>,
    /// The first attachment's badge and caption.
    pub badge: Option<(&'static str, String)>,
}

pub open spec fn strs(v: Seq<String>) -> Seq<Seq<char>> {
    v.map_values(|l: String| l@)
}

/// `s` with each line indented by `indent`.
pub open spec fn indented(indent: Seq<char>, s: Seq<Seq<char>>) -> Seq<Seq<char>> {
    s.map_values(|l: Seq<char>| indent + l)
}

pub open spec fn badge_of(kind: MediaKind) -> Seq<char> {
    match kind {
        MediaKind::Photo => "\u{25A7} PHOTO"@,
        MediaKind::Video => "\u{25B6} VIDEO"@,
        MediaKind::AnimatedGif => "\u{25B6} GIF"@,
    }
}

/// `t` is the card text of `post` at `width` columns as of `now`: a reply's
/// elbow, the handle and age, the body window that starts `offset` lines down
/// and holds `limit` lines (of the reposted post when it is a repost), the
/// quoted post's first two lines on the focused card, and the attachment.
pub open spec fn card_text_of(
    post: Post,
    width: usize,
    reply: bool,
    focused: bool,
    limit: usize,
    offset: usize,
    now: i64,
    t: CardText,
) -> bool {
    let target = match post.reposted {
        Some(r) => *r,
        None => post,
    };
    let lines = wrapped(target.text@, if width < 10 { 10 } else { width });
    let w = body_window_of(lines.len() as int, offset as int, limit as int);
    &&& t.reposted == post.reposted is Some
    &&& t.prefix@ == if reply {
        "  \u{2514}\u{2500} "@
    } else {
        "  "@
    }
    &&& t.author_meta@ == "  @"@ + post.author.username@ + " \u{00B7} "@ + ago(now - post.created_at)
    &&& t.earlier == w.clipped_above
    &&& strs(t.body@) == indented("  "@, lines.subrange(w.start as int, w.end as int))
    &&& t.continuation == if !w.clipped_below {
        None
    } else if offset > 0 {
        Some("  \u{2026}  \u{2193} continue reading")
    } else {
        Some("  \u{2026}  \u{2192} open to read the rest")
    }
    &&& strs(t.quote@) == if focused && post.quoted is Some {
        let ql = wrapped(
            post.quoted->0.text@,
            if width < 14 {
                10
            } else {
                (width - 4) as usize
            },
        );
        indented("  \u{2502} "@, ql.subrange(0, if ql.len() < 2 { ql.len() as int } else { 2 }))
    } else {
        Seq::empty()
    }
    &&& match t.badge {
        None => target.media@.len() == 0,
        Some((b, caption)) => target.media@.len() > 0 && b@ == badge_of(target.media@[0].kind)
            && caption@ == "  "@ + match target.media@[0].alt_text {
            Some(a) => a@,
            None => "M enlarge \u{00B7} V open"@,
        },
    }
}

fn indent_lines(indent: &str, lines: &Vec<String>, start: usize, end: usize) -> (r: Vec<String>)
    requires
        start <= end <= lines@.len(),
    ensures
        strs(r@) == indented(indent@, strs(lines@).subrange(start as int, end as int)),
{
    let mut r: Vec<String> = Vec::new();
    let mut i = start;
    while i < end
        invariant
            start <= i <= end <= lines@.len(),
            r@.len() == i - start,
            forall|k: int| 0 <= k < r@.len() ==> #[trigger] r@[k]@ == indent@ + lines@[start + k]@,
        decreases end - i,
    {
        r.push(crate::text::concat2(indent, lines[i].as_str()));
        i += 1;
    }
    assert(strs(r@) =~= indented(indent@, strs(lines@).subrange(start as int, end as int)));
    r
}

/// The words of the card for `post`.
pub fn card_text(
    post: &Post,
    width: usize,
    reply: bool,
    focused: bool,
    limit: usize,
    offset: usize,
    now: i64,
) -> (t: CardText)
    ensures
        card_text_of(*post, width, reply, focused, limit, offset, now, t),
{
    let target: &Post = match &post.reposted {
        Some(r) => &**r,
        None => post,
    };
    let lines = body_lines(target.text.as_str(), width);
    let w = body_window(lines.len(), offset, limit);
    let body = indent_lines("  ", &lines, w.start, w.end);
    let continuation = if !w.clipped_below {
        None
    } else if offset > 0 {
        Some("  \u{2026}  \u{2193} continue reading")
    } else {
        Some("  \u{2026}  \u{2192} open to read the rest")
    };
    let quote = match &post.quoted {
        Some(q) => if focused {
            let qw = if width < 14 { 10 } else { width - 4 };
            let ql = body_lines(q.text.as_str(), qw);
            let n = if ql.len() < 2 { ql.len() } else { 2 };
            let r = indent_lines("  \u{2502} ", &ql, 0, n);
            proof {
                assert(strs(ql@) == wrapped((**q).text@, qw));
                assert(strs(r@) == indented("  \u{2502} "@, wrapped((**q).text@, qw).subrange(0, n as int)));
            }
            r
        } else {
            Vec::new()
        },
        None => Vec::new(),
    };
    proof {
        if focused && post.quoted is Some {
            let q = post.quoted->0;
            let qw: usize = if width < 14 { 10 } else { (width - 4) as usize };
            let ql = wrapped(q.text@, qw);
            assert(strs(quote@) == indented(
                "  \u{2502} "@,
                ql.subrange(0, if ql.len() < 2 { ql.len() as int } else { 2 }),
            ));
        } else {
            assert(quote@.len() == 0);
            assert(strs(quote@) =~= Seq::<Seq<char>>::empty());
        }
    }
    let badge = if target.media.len() > 0 {
        let b = match target.media[0].kind {
            MediaKind::Photo => "\u{25A7} PHOTO",
            MediaKind::Video => "\u{25B6} VIDEO",
            MediaKind::AnimatedGif => "\u{25B6} GIF",
        };
        let caption = match &target.media[0].alt_text {
            Some(a) => crate::text::concat2("  ", a.as_str()),
            None => crate::text::concat2("  ", "M enlarge \u{00B7} V open"),
        };
        Some((b, caption))
    } else {
        None
    };
    let mut author_meta = crate::text::concat2("  @", post.author.username.as_str());
    author_meta.append(" \u{00B7} ");
    author_meta.append(relative_time(post.created_at, now).as_str());
    let t = CardText {
        reposted: post.reposted.is_some(),
        prefix: if reply { "  \u{2514}\u{2500} " } else { "  " },
        author_meta,
        earlier: w.clipped_above,
        body,
        continuation,
        quote,
        badge,
    };
    t
}

/// The card pinned at the top of a feed of `len` posts.
pub open spec fn pinned_of(selected: usize, len: usize, collapsed: bool) -> int {
    if collapsed || len == 0 {
        0
    } else if selected < len {
        selected as int
    } else {
        len - 1
    }
}

/// How many cards a feed lays out from the pinned one: one in a collapsed
/// thread, else up to fourteen.
pub open spec fn window_len(first: int, len: int, collapsed: bool) -> int {
    let want = if collapsed { 1int } else { 14int };
    if first >= len {
        0
    } else if first + want < len {
        want
    } else {
        len - first
    }
}

/// Whether the feed shows a thread with its replies folded away.
pub open spec fn collapsed_thread(a: App) -> bool {
    a.screen is Thread && !a.thread_expanded
}

proof fn lemma_rows_start_below(rows: Seq<(u16, u16, usize)>, y0: u16, i: int)
    requires
        0 <= i < rows.len(),
        rows[0].0 == y0,
        forall|k: int| 0 <= k < rows.len() - 1 ==> #[trigger] rows[k].1 == rows[k + 1].0,
        forall|k: int| 0 <= k < rows.len() ==> (#[trigger] rows[k]).0 <= rows[k].1,
    ensures
        y0 <= rows[i].0,
    decreases i,
{
    if i > 0 {
        lemma_rows_start_below(rows, y0, i - 1);
        assert(rows[i - 1].1 == rows[i].0);
        assert(rows[i - 1].0 <= rows[i - 1].1);
    }
}

/// The feed's cards in `area` and their click regions. The cards start at
/// the pinned post and follow it in order, one for a collapsed thread and up
/// to fourteen otherwise; `heights` gives each card's wanted rows. The rows
/// start at the top of the area, follow one another without gaps, stay
/// inside it, each is at least one row tall, and each card gets one click
/// region covering its rows. Cards keep coming while at least two rows are
/// left, so a non-empty feed always shows its pinned card when the area has
/// two rows.
pub fn feed_cards(app: &App, area: Rect, heights: &Vec<u16>) -> (r: (
    Vec<(u16, u16, usize)>,
    Vec<HitRegion>,
))
    requires
        area.y + area.height <= u16::MAX,
        heights@.len() == window_len(
            pinned_of(app.selected, app.posts@.len() as usize, collapsed_thread(*app)),
            app.posts@.len() as int,
            collapsed_thread(*app),
        ),
        forall|i: int| 0 <= i < heights@.len() ==> #[trigger] heights@[i] >= 1,
    ensures
        ({
            let rows = r.0@;
            let hits = r.1@;
            let s = pinned_of(app.selected, app.posts@.len() as usize, collapsed_thread(*app));
            let bottom = area.y + area.height;
            &&& rows.len() == hits.len()
            &&& rows.len() <= heights@.len()
            &&& rows.len() <= if collapsed_thread(*app) { 1int } else { 14int }
            &&& app.posts@.len() > 0 && area.height >= 2 ==> rows.len() >= 1
            &&& rows.len() < heights@.len() ==> bottom - (if rows.len() == 0 {
                area.y as int
            } else {
                rows.last().1 as int
            }) < 2
            &&& rows.len() > 0 ==> rows[0].0 == area.y
            &&& forall|i: int| 0 <= i < rows.len() - 1 ==> #[trigger] rows[i].1 == rows[i + 1].0
            &&& forall|i: int|
                0 <= i < rows.len() ==> {
                    &&& (#[trigger] rows[i]).2 == s + i
                    &&& s + i < app.posts@.len()
                    &&& area.y <= rows[i].0 < rows[i].1 <= bottom
                    &&& rows[i].1 - rows[i].0 == if heights@[i] < bottom - rows[i].0 {
                        heights@[i] as int
                    } else {
                        bottom - rows[i].0
                    }
                    &&& hits[i] == HitRegion {
                        x: area.x,
                        y: rows[i].0,
                        width: area.width,
                        height: (rows[i].1 - rows[i].0) as u16,
                        action: HitAction::Card((s + i) as usize),
                    }
                }
        }),
{
    let collapsed = match app.screen {
        Screen::Thread(_) => !app.thread_expanded,
        _ => false,
    };
    let first = pinned_card(app.selected, app.posts.len(), collapsed);
    let r = card_layout(area, first, heights);
    proof {
        let rows = r.0@;
        if rows.len() > 0 {
            assert forall|i: int| 0 <= i < rows.len() implies area.y <= (#[trigger] rows[i]).0 by {
                assert forall|k: int| 0 <= k < rows.len() implies (#[trigger] rows[k]).0 <= rows[k].1 by {
                }
                lemma_rows_start_below(rows, area.y, i);
            }
        }
    }
    r
}

/// The rows of the route rail's five sections: every second row from
/// `top`, as many as fit above `bottom`.
pub open spec fn rail_rows(top: u16, bottom: u16) -> Seq<u16> {
    let fit = if top >= bottom {
        0int
    } else {
        let n = (bottom - top + 1) / 2;
        if n < 5 {
            n
        } else {
            5
        }
    };
    Seq::new(fit as nat, |i: int| (top + 2 * i) as u16)
}

/// Register a one-row click region `width` wide for each section on the rail.
pub fn register_rail_hits(app: &mut App, x: u16, top: u16, bottom: u16, width: u16)
    ensures
        final(app).hit_regions@ == old(app).hit_regions@ + if width > 0 {
            Seq::new(
                rail_rows(top, bottom).len(),
                |i: int|
                    HitRegion {
                        x,
                        y: rail_rows(top, bottom)[i],
                        width,
                        height: 1,
                        action: HitAction::Nav(i as usize),
                    },
            )
        } else {
            Seq::empty()
        },
        *final(app) == (App { hit_regions: final(app).hit_regions, ..*old(app) }),
{
    let ghost rows = rail_rows(top, bottom);
    let ghost f = |i: int|
        HitRegion { x, y: rows[i], width, height: 1, action: HitAction::Nav(i as usize) };
    let mut i: usize = 0;
    while i < 5 && (top as u32) + 2 * (i as u32) < bottom as u32
        invariant
            i <= 5,
            i <= rows.len(),
            rows == rail_rows(top, bottom),
            forall|k: int| 0 <= k < rows.len() ==> #[trigger] rows[k] == (top + 2 * k) as u16,
            f == (|i: int|
                HitRegion { x, y: rows[i], width, height: 1, action: HitAction::Nav(i as usize) }),
            app.hit_regions@ == old(app).hit_regions@ + if width > 0 {
                Seq::new(i as nat, f)
            } else {
                Seq::empty()
            },
            *app == (App { hit_regions: app.hit_regions, ..*old(app) }),
        decreases 5 - i,
    {
        assert((i as int) < rows.len());
        app.register_hit(x, top + 2 * (i as u16), width, 1, HitAction::Nav(i));
        proof {
            if width > 0 {
                assert(Seq::new((i + 1) as nat, f) =~= Seq::new(i as nat, f).push(f(i as int)));
                assert(old(app).hit_regions@ + Seq::new((i + 1) as nat, f) =~= (
                old(app).hit_regions@ + Seq::new(i as nat, f)).push(f(i as int)));
            }
        }
        i += 1;
    }
    assert(i == rows.len());
}

/// The status row's click regions at its right end, in normal mode on a
/// row of at least 42 columns: help over the last eight columns and search
/// over the ten before them.
pub open spec fn hint_hits_of(a: App, right: u16, row: u16, width: u16) -> Seq<HitRegion> {
    if a.mode == InputMode::Normal && width >= 42 {
        seq![
            HitRegion { x: (right - 8) as u16, y: row, width: 8, height: 1, action: HitAction::Help },
            HitRegion { x: (right - 18) as u16, y: row, width: 10, height: 1, action: HitAction::Search },
        ]
    } else {
        Seq::empty()
    }
}

pub fn register_hint_hits(app: &mut App, right: u16, row: u16, width: u16)
    requires
        right >= width,
    ensures
        final(app).hit_regions@ == old(app).hit_regions@ + hint_hits_of(*old(app), right, row, width),
        *final(app) == (App { hit_regions: final(app).hit_regions, ..*old(app) }),
{
    if app.mode == InputMode::Normal && width >= 42 {
        app.register_hit(right - 8, row, 8, 1, HitAction::Help);
        app.register_hit(right - 18, row, 10, 1, HitAction::Search);
        assert(app.hit_regions@ =~= old(app).hit_regions@ + hint_hits_of(*old(app), right, row, width));
    } else {
        assert(app.hit_regions@ =~= old(app).hit_regions@ + hint_hits_of(*old(app), right, row, width));
    }
}

/// `b` is `a` after a left click at (`column`, `row`): nothing while an
/// overlay is open, else the action of the region under the pointer.
pub open spec fn clicked(a: App, b: App, column: u16, row: u16) -> bool {
    if a.help || a.media_preview is Some {
        b == a
    } else {
        match hit_action(a.hit_regions@, column, row) {
            None => b == a,
            Some(HitAction::Landing(i)) => landing_activated(App { landing_selected: i, ..a }, b),
            Some(HitAction::Nav(i)) => rooted(
                App { nav_selected: i, nav_focused: false, ..a },
                b,
                section_root(i),
            ),
            Some(HitAction::Card(i)) => activated(App { selected: i, ..a }, b),
            Some(HitAction::Back) => went_back(a, b),
            Some(HitAction::Search) => search_begun(a, b),
            Some(HitAction::ToggleFeed) => toggled(a, b),
            Some(HitAction::Help) => b == App { help: true, ..a },
            Some(HitAction::Quit) => b == App { should_quit: true, ..a },
        }
    }
}

/// Carry out a left click at (`column`, `row`).
pub fn handle_click(app: &mut App, row: u16, column: u16)
    requires
        old(app).can_request(),
    ensures
        clicked(*old(app), *final(app), column, row),
{
    if app.help || app.media_preview.is_some() {
        return;
    }
    match app.hit_at(column, row) {
        Some(HitAction::Landing(index)) => {
            app.landing_selected = index;
            app.activate_landing();
        },
        Some(HitAction::Nav(index)) => {
            app.nav_selected = index;
            app.nav_focused = false;
            app.root(App::nav_screen(index));
        },
        Some(HitAction::Card(index)) => {
            app.selected = index;
            app.activate();
        },
        Some(HitAction::Back) => app.back(),
        Some(HitAction::Search) => app.begin_search(),
        Some(HitAction::ToggleFeed) => app.toggle_feed(),
        Some(HitAction::Help) => {
            app.help = true;
        },
        Some(HitAction::Quit) => {
            app.should_quit = true;
        },
        None => {},
    }
}

/// Room for every key to act: a well-formed keymap, room for one more
/// request, and positions far enough from the integer limits that no move
/// overflows.
pub open spec fn key_ready(a: App) -> bool {
    &&& a.keys.wf()
    &&& a.can_request()
    &&& a.posts@.len() <= isize::MAX / 4
    &&& a.lists@.len() <= isize::MAX / 4
    &&& a.selected <= isize::MAX / 4
    &&& a.body_scroll <= usize::MAX - 5
    &&& a.search_cursor < isize::MAX
    &&& a.query@.len() <= isize::MAX
    &&& a.landing_selected < usize::MAX - 4
    &&& a.nav_selected < isize::MAX
}

/// Whether the reader can take a key press: its keymap is well formed and
/// its counters are far enough from their limits.
pub fn ready_for_keys(app: &App) -> (r: bool)
    ensures
        r == key_ready(*app),
{
    let quarter = (isize::MAX / 4) as usize;
    let half = isize::MAX as usize;
    app.keys.is_well_formed() && app.generation < u32::MAX && app.pending_ops < usize::MAX
        && app.posts.len() <= quarter && app.lists.len() <= quarter && app.selected <= quarter
        && app.body_scroll <= usize::MAX - 5 && app.search_cursor < half
        && chars_of(app.query.as_str()).len() <= half && app.landing_selected < usize::MAX - 4
        && app.nav_selected < half
}

pub open spec fn ctrl_held(key: KeyEvent) -> bool {
    key.modifiers.bits & CONTROL == CONTROL
}

/// `b` is `a` after a key while the media preview or help is open: Esc, q
/// or ? close it; with the preview open V and O still open the media or the
/// post outside.
pub open spec fn overlay_key(a: App, b: App, code: KeyCode) -> bool {
    let closes = code == KeyCode::Esc || code == KeyCode::Char('q') || code == KeyCode::Char('?');
    let c = if closes {
        App { media_preview: None, help: false, ..a }
    } else {
        a
    };
    if c.media_preview is Some && code == KeyCode::Char('v') {
        opened_external(c, b, true)
    } else if c.media_preview is Some && code == KeyCode::Char('o') {
        opened_external(c, b, false)
    } else {
        b == c
    }
}

/// `b` is `a` after a key on the landing page.
pub open spec fn landing_key(a: App, b: App, code: KeyCode) -> bool {
    let len = landing_menu(a.demo, a.browser_mode, a.login_pending).len() as int;
    if code == KeyCode::Up || code == KeyCode::Char('k') {
        b == App { landing_selected: ((a.landing_selected + len - 1) % len) as usize, ..a }
    } else if code == KeyCode::Down || code == KeyCode::Char('j') {
        b == App { landing_selected: ((a.landing_selected + 1) % len) as usize, ..a }
    } else if code == KeyCode::Enter || code == KeyCode::Right || code == KeyCode::Char(' ') {
        landing_activated(a, b)
    } else if code == KeyCode::Char('r') {
        asked(a, b, "Checking the browser session\u{2026}"@, Effect::CheckSignIn)
    } else if code == KeyCode::Esc || code == KeyCode::Left {
        b == (App { status: b.status, ..a }) && b.status@
            == "Use \u{2191}/\u{2193} to choose and Enter to select \u{2014} Q quits"@
    } else if code == KeyCode::Char('q') {
        b == App { should_quit: true, ..a }
    } else {
        b == a
    }
}

/// `b` is `a` after a key while typing a search.
pub open spec fn search_key(a: App, b: App, key: KeyEvent) -> bool {
    let code = key.code;
    if code == KeyCode::Enter {
        search_submitted(a, b)
    } else if code == KeyCode::Esc {
        let c = App { mode: InputMode::Normal, ..a };
        if c.history@.len() == 0 {
            rooted(c, b, Screen::Home)
        } else {
            went_back(c, b)
        }
    } else if code == KeyCode::Left {
        cursor_moved(a, b, -1isize)
    } else if code == KeyCode::Right {
        cursor_moved(a, b, 1)
    } else if code == KeyCode::Home {
        b == App { search_cursor: 0, ..a }
    } else if code == KeyCode::End {
        b == App { search_cursor: a.query@.len() as usize, ..a }
    } else if code == KeyCode::Char('u') && ctrl_held(key) {
        query_cleared(a, b)
    } else if code == KeyCode::Backspace {
        backspace_applied(a, b)
    } else {
        match code {
            KeyCode::Char(c) => if !ctrl_held(key) {
                char_typed(a, b, c)
            } else {
                b == a
            },
            _ => b == a,
        }
    }
}

/// The section a digit key jumps to from the rail.
pub open spec fn digit_section(code: KeyCode) -> Option<Screen> {
    if code == KeyCode::Char('1') {
        Some(Screen::Home)
    } else if code == KeyCode::Char('2') {
        Some(Screen::Explore)
    } else if code == KeyCode::Char('3') {
        Some(Screen::Mentions)
    } else if code == KeyCode::Char('4') {
        Some(Screen::Bookmarks)
    } else if code == KeyCode::Char('5') {
        Some(Screen::Lists)
    } else {
        None
    }
}

/// `b` is `a` after a key while the rail has focus.
pub open spec fn rail_key(a: App, b: App, code: KeyCode) -> bool {
    let left = App { nav_focused: false, ..a };
    if code == KeyCode::Up {
        nav_moved(a, b, -1isize)
    } else if code == KeyCode::Down {
        nav_moved(a, b, 1)
    } else if code == KeyCode::Right || code == KeyCode::Enter {
        rooted(left, b, section_root(a.nav_selected))
    } else if code == KeyCode::Left || code == KeyCode::Esc || code == KeyCode::Backspace || code
        == KeyCode::Tab {
        b == left
    } else if code == KeyCode::Char('q') {
        b == App { should_quit: true, ..a }
    } else if code == KeyCode::Char('?') {
        b == App { help: true, ..a }
    } else if code == KeyCode::Char('/') {
        search_begun(left, b)
    } else {
        match digit_section(code) {
            Some(s) => rooted(left, b, s),
            None => b == a,
        }
    }
}

/// `r` is a command `keys` may give for `key` (see
/// `KeyBindings::action_for`).
pub open spec fn action_chosen(keys: KeyBindings, key: KeyEvent, r: Option<Action>) -> bool {
    match r {
        Some(x) => keys@.contains_key(x) && exists|i: int|
            0 <= i < keys@[x].len() && spec_matches(#[trigger] keys@[x][i], key),
        None => forall|x: Action, i: int|
            keys@.contains_key(x) && 0 <= i < keys@[x].len() ==> !spec_matches(
                #[trigger] keys@[x][i],
                key,
            ),
    }
}

/// `b` is `a` after command `action`.
pub open spec fn acted(a: App, b: App, action: Action) -> bool {
    let len = a.posts@.len() as int;
    match action {
        Action::Quit => b == App { should_quit: true, ..a },
        Action::MoveUp => advanced(a, b, -1isize),
        Action::MoveDown => advanced(a, b, 1),
        Action::PageUp => advanced(a, b, -5isize),
        Action::PageDown => advanced(a, b, 5),
        Action::Top => moved(a, b, (-2 * len) as isize),
        Action::Bottom => moved(a, b, (2 * len) as isize),
        Action::Open => activated(a, b),
        Action::Back => went_back(a, b),
        Action::Search => search_begun(a, b),
        Action::Refresh => requested(App { error: None, ..a }, b, false),
        Action::Profile => profile_opened(a, b),
        Action::Likes => likes_opened(a, b),
        Action::MediaPreview => preview_requested(a, b),
        Action::OpenMedia => opened_external(a, b, true),
        Action::OpenPost => opened_external(a, b, false),
        Action::Help => b == App { help: true, ..a },
        Action::Sidebar => nav_toggled(a, b),
        Action::Home => rooted(a, b, Screen::Home),
        Action::Explore => rooted(a, b, Screen::Explore),
        Action::Mentions => rooted(a, b, Screen::Mentions),
        Action::Bookmarks => rooted(a, b, Screen::Bookmarks),
        Action::Lists => rooted(a, b, Screen::Lists),
        Action::ToggleFeed => toggled(a, b),
        Action::ExpandThread => if a.screen is Thread {
            &&& b == App {
                thread_expanded: !a.thread_expanded,
                selected: 0,
                status: b.status,
                ..a
            }
            &&& b.status@ == if !a.thread_expanded {
                "Replies expanded \u{00B7} Space collapses"@
            } else {
                "Replies collapsed \u{00B7} Space expands"@
            }
        } else {
            b == a
        },
    }
}

/// `b` is `a` after the key press `key`. Ctrl-C always quits; an open
/// overlay, the landing page, search input and the focused rail each take
/// the keys first; otherwise the keymap's command runs.
pub open spec fn key_handled(a: App, b: App, key: KeyEvent) -> bool {
    if ctrl_held(key) && key.code == KeyCode::Char('c') {
        b == App { should_quit: true, ..a }
    } else if a.media_preview is Some || a.help {
        overlay_key(a, b, key.code)
    } else if a.screen is Landing {
        landing_key(a, b, key.code)
    } else if a.mode == InputMode::Search {
        search_key(a, b, key)
    } else if a.nav_focused {
        rail_key(a, b, key.code)
    } else {
        exists|r: Option<Action>|
            #[trigger] action_chosen(a.keys, key, r) && match r {
                Some(x) => acted(a, b, x),
                None => b == a,
            }
    }
}


fn overlay_keys(app: &mut App, code: KeyCode)
    ensures
        overlay_key(*old(app), *final(app), code),
{
    match code {
        KeyCode::Esc => {
            app.media_preview = None;
            app.help = false;
        },
        KeyCode::Char(c) => {
            if c == 'q' || c == '?' {
                app.media_preview = None;
                app.help = false;
            }
        },
        _ => {},
    }
    if app.media_preview.is_some() {
        match code {
            KeyCode::Char(c) => {
                if c == 'v' {
                    app.open_external(true);
                } else if c == 'o' {
                    app.open_external(false);
                }
            },
            _ => {},
        }
    }
}

fn landing_keys(app: &mut App, code: KeyCode)
    requires
        old(app).can_request(),
        old(app).landing_selected < usize::MAX - 4,
    ensures
        landing_key(*old(app), *final(app), code),
{
    let up = match code {
        KeyCode::Up => true,
        KeyCode::Char(c) => c == 'k',
        _ => false,
    };
    let down = match code {
        KeyCode::Down => true,
        KeyCode::Char(c) => c == 'j',
        _ => false,
    };
    let enter = match code {
        KeyCode::Enter | KeyCode::Right => true,
        KeyCode::Char(c) => c == ' ',
        _ => false,
    };
    let leave = match code {
        KeyCode::Esc | KeyCode::Left => true,
        _ => false,
    };
    if up || down {
        let items = app.landing_items();
        let len = items.len();
        assert(len == landing_menu(app.demo, app.browser_mode, app.login_pending).len());
        app.landing_selected = if up {
            (app.landing_selected + len - 1) % len
        } else {
            (app.landing_selected + 1) % len
        };
    } else if enter {
        app.activate_landing();
    } else if code == KeyCode::Char('r') {
        app.request_sign_in_check();
    } else if leave {
        app.status = owned("Use \u{2191}/\u{2193} to choose and Enter to select \u{2014} Q quits");
    } else if code == KeyCode::Char('q') {
        app.should_quit = true;
    }
}

fn search_keys(app: &mut App, key: KeyEvent)
    requires
        old(app).can_request(),
        old(app).search_cursor < isize::MAX,
        old(app).query@.len() <= isize::MAX,
    ensures
        search_key(*old(app), *final(app), key),
{
    let ctrl = key.modifiers.contains(CONTROL);
    match key.code {
        KeyCode::Enter => app.submit_search(),
        KeyCode::Esc => {
            app.mode = InputMode::Normal;
            if app.history.len() == 0 {
                app.root(Screen::Home);
            } else {
                app.back();
            }
        },
        KeyCode::Left => app.move_search_cursor(-1),
        KeyCode::Right => app.move_search_cursor(1),
        KeyCode::Home => {
            app.search_cursor = 0;
        },
        KeyCode::End => {
            app.search_cursor = chars_of(app.query.as_str()).len();
        },
        KeyCode::Backspace => app.backspace_query(),
        KeyCode::Char(c) => {
            if c == 'u' && ctrl {
                app.clear_query();
            } else if !ctrl {
                app.insert_query_char(c);
            }
        },
        _ => {},
    }
}

fn rail_keys(app: &mut App, code: KeyCode)
    requires
        old(app).can_request(),
        old(app).nav_selected < isize::MAX,
    ensures
        rail_key(*old(app), *final(app), code),
{
    match code {
        KeyCode::Up => app.nav_move(-1),
        KeyCode::Down => app.nav_move(1),
        KeyCode::Right | KeyCode::Enter => app.nav_activate(),
        KeyCode::Left | KeyCode::Esc | KeyCode::Backspace | KeyCode::Tab => {
            app.nav_focused = false;
        },
        KeyCode::Char(c) => {
            if c == 'q' {
                app.should_quit = true;
            } else if c == '?' {
                app.help = true;
            } else if c == '/' {
                app.nav_focused = false;
                app.begin_search();
            } else if c == '1' {
                app.nav_focused = false;
                app.root(Screen::Home);
            } else if c == '2' {
                app.nav_focused = false;
                app.root(Screen::Explore);
            } else if c == '3' {
                app.nav_focused = false;
                app.root(Screen::Mentions);
            } else if c == '4' {
                app.nav_focused = false;
                app.root(Screen::Bookmarks);
            } else if c == '5' {
                app.nav_focused = false;
                app.root(Screen::Lists);
            }
        },
        _ => {},
    }
}

fn run_action(app: &mut App, action: Action)
    requires
        key_ready(*old(app)),
    ensures
        acted(*old(app), *final(app), action),
{
    match action {
        Action::Quit => {
            app.should_quit = true;
        },
        Action::MoveUp => app.advance(-1),
        Action::MoveDown => app.advance(1),
        Action::PageUp => app.advance(-5),
        Action::PageDown => app.advance(5),
        Action::Top => {
            let n = app.posts.len() as isize;
            app.move_selection(-(n * 2));
        },
        Action::Bottom => {
            let n = app.posts.len() as isize;
            app.move_selection(n * 2);
        },
        Action::Open => app.activate(),
        Action::Back => app.back(),
        Action::Search => app.begin_search(),
        Action::Refresh => app.refresh(),
        Action::Profile => app.open_profile(),
        Action::Likes => app.open_likes(),
        Action::MediaPreview => app.request_media_preview(),
        Action::OpenMedia => app.open_external(true),
        Action::OpenPost => app.open_external(false),
        Action::Help => {
            app.help = true;
        },
        Action::Sidebar => app.toggle_nav_focus(),
        Action::Home => app.root(Screen::Home),
        Action::Explore => app.root(Screen::Explore),
        Action::Mentions => app.root(Screen::Mentions),
        Action::Bookmarks => app.root(Screen::Bookmarks),
        Action::Lists => app.root(Screen::Lists),
        Action::ToggleFeed => app.toggle_feed(),
        Action::ExpandThread => {
            let in_thread = match app.screen {
                Screen::Thread(_) => true,
                _ => false,
            };
            if in_thread {
                app.thread_expanded = !app.thread_expanded;
                app.selected = 0;
                app.status = if app.thread_expanded {
                    owned("Replies expanded \u{00B7} Space collapses")
                } else {
                    owned("Replies collapsed \u{00B7} Space expands")
                };
            }
        },
    }
}

/// Carry out a key press.
pub fn handle_key(app: &mut App, key: KeyEvent)
    requires
        key_ready(*old(app)),
    ensures
        key_handled(*old(app), *final(app), key),
{
    if key.modifiers.contains(CONTROL) && key.code == KeyCode::Char('c') {
        app.should_quit = true;
        return;
    }
    if app.media_preview.is_some() || app.help {
        overlay_keys(app, key.code);
        return;
    }
    let at_landing = match app.screen {
        Screen::Landing => true,
        _ => false,
    };
    if at_landing {
        landing_keys(app, key.code);
        return;
    }
    if app.mode == InputMode::Search {
        search_keys(app, key);
        return;
    }
    if app.nav_focused {
        rail_keys(app, key.code);
        return;
    }
    let chosen = app.keys.action_for(&key);
    assert(action_chosen(app.keys, key, chosen));
    match chosen {
        Some(action) => run_action(app, action),
        None => {},
    }
}

} // verus!
