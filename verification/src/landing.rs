//! The landing page's words: the session state line, the identity line, the
//! source mode and the menu copy.
use vstd::prelude::*;
use crate::app::{spinner_glyph, App, HitAction, HitRegion, LandingAction};
use crate::text::{concat2, decimal, decimal_string, owned, push_char};
use crate::ui::{fitted, text_columns, text_width, truncate_to_width};

verus! {

/// The session state line of the landing page.
pub open spec fn state_line(a: App) -> Seq<char> {
    if a.error is Some {
        "Fault / r to retry"@
    } else if a.pending_ops > 0 {
        seq![spinner_glyph(a.activity_ms_spec() as int / 100), ' ', ' '] + a.status@
    } else if a.demo {
        "Offline / demo"@
    } else if a.browser_mode {
        "Online / extension"@
    } else {
        "Online / X API"@
    }
}

/// The identity line of the landing page.
pub open spec fn identity_line(a: App) -> Seq<char> {
    match a.me {
        Some(u) => u.name@ + " / @"@ + u.username@,
        None => if a.demo {
            "Local / no account"@
        } else {
            "Not linked"@
        },
    }
}

/// The session state and the signed-in identity, as the landing page shows
/// them.
pub fn state(app: &App) -> (r: (String, String))
    ensures
        r.0@ == state_line(*app),
        r.1@ == identity_line(*app),
{
    let state = if app.error.is_some() {
        owned("Fault / r to retry")
    } else if app.has_pending() {
        let glyph = match app.spinner_frame() {
            Some(c) => c,
            None => '\u{00B7}',
        };
        let mut s = String::new();
        push_char(&mut s, glyph);
        push_char(&mut s, ' ');
        push_char(&mut s, ' ');
        s.append(app.status.as_str());
        assert(s@ =~= seq![glyph, ' ', ' '] + app.status@);
        s
    } else if app.demo {
        owned("Offline / demo")
    } else if app.browser_mode {
        owned("Online / extension")
    } else {
        owned("Online / X API")
    };
    let identity = match &app.me {
        Some(user) => {
            let mut s = concat2(user.name.as_str(), " / @");
            s.append(user.username.as_str());
            s
        },
        None => if app.demo {
            owned("Local / no account")
        } else {
            owned("Not linked")
        },
    };
    (state, identity)
}

/// The timeline source a header names.
pub fn mode(app: &App) -> (r: &'static str)
    ensures
        r@ == if app.demo {
            "demo"@
        } else if app.browser_mode {
            "extension"@
        } else {
            "API"@
        },
{
    if app.demo {
        "demo"
    } else if app.browser_mode {
        "extension"
    } else {
        "API"
    }
}

/// The title and caption of a landing menu entry.
pub open spec fn menu_copy_of(action: LandingAction, demo: bool, browser_mode: bool) -> (
    Seq<char>,
    Seq<char>,
) {
    match action {
        LandingAction::Start => (
            "Start"@,
            if demo {
                "Demo / no account"@
            } else if browser_mode {
                "Live / extension"@
            } else {
                "Live / X API"@
            },
        ),
        LandingAction::SignIn => ("Connect browser extension"@, "No API credits"@),
        LandingAction::Verify => ("Verify sign-in"@, "Extension handshake"@),
        LandingAction::Quit => ("Quit"@, "Return to shell"@),
    }
}

/// The title and caption shown for a landing menu entry.
pub fn menu_copy(action: LandingAction, app: &App) -> (r: (&'static str, &'static str))
    ensures
        (r.0@, r.1@) == menu_copy_of(action, app.demo, app.browser_mode),
{
    match action {
        LandingAction::Start => if app.demo {
            ("Start", "Demo / no account")
        } else if app.browser_mode {
            ("Start", "Live / extension")
        } else {
            ("Start", "Live / X API")
        },
        LandingAction::SignIn => ("Connect browser extension", "No API credits"),
        LandingAction::Verify => ("Verify sign-in", "Extension handshake"),
        LandingAction::Quit => ("Quit", "Return to shell"),
    }
}

/// The product line under the wordmark.
pub const PRODUCT_LINE: &'static str = "Browse X in your Terminal.";

/// The version line of the landing page.
pub fn version_line() -> (r: String)
    ensures
        r@ == "xtui version "@ + crate::extension::PACKAGE_VERSION@,
{
    concat2("xtui version ", crate::extension::PACKAGE_VERSION)
}

/// How much of the landing page a terminal has room for.
#[derive(Clone, Copy, Debug, PartialEq, Eq, Structural)]
pub enum LandingLayout {
    /// The framed page with the large wordmark.
    Full,
    /// The framed page with the small wordmark.
    Compact,
    /// The name and the menu only.
    Tiny,
}

/// The full page needs 88 × 30 cells; inside a one-cell margin the small
/// wordmark needs 50 × 19; anything smaller is tiny.
pub open spec fn layout_for(width: u16, height: u16) -> LandingLayout {
    let inner_w = width - 2 * if width / 2 < 1 { width / 2 } else { 1 };
    let inner_h = height - 2 * if height / 2 < 1 { height / 2 } else { 1 };
    if width >= 88 && height >= 30 {
        LandingLayout::Full
    } else if inner_w < 50 || inner_h < 19 {
        LandingLayout::Tiny
    } else {
        LandingLayout::Compact
    }
}

pub fn landing_layout(width: u16, height: u16) -> (r: LandingLayout)
    ensures
        r == layout_for(width, height),
{
    let mw: u16 = if width / 2 < 1 { width / 2 } else { 1 };
    let mh: u16 = if height / 2 < 1 { height / 2 } else { 1 };
    let inner_w = width - 2 * mw;
    let inner_h = height - 2 * mh;
    if width >= 88 && height >= 30 {
        LandingLayout::Full
    } else if inner_w < 50 || inner_h < 19 {
        LandingLayout::Tiny
    } else {
        LandingLayout::Compact
    }
}

/// A landing menu row, laid out to `available` columns: the marker, the
/// entry's number, its title, its caption when there is room, the padding
/// and the key hint.
#[derive(Debug)]
pub struct MenuRow {
    pub marker: &'static str,
    pub number: String,
    pub title: String,
    pub detail: String,
    pub gap: usize,
    pub key: &'static str,
}

pub open spec fn row_marker(selected: bool, hovered: bool) -> Seq<char> {
    if selected {
        "\u{258C} "@
    } else if hovered {
        "\u{203A} "@
    } else {
        "  "@
    }
}

pub open spec fn row_key(selected: bool, hovered: bool) -> Seq<char> {
    if selected {
        "\u{2192} open"@
    } else if hovered {
        "click"@
    } else {
        ""@
    }
}

/// A number written with at least two digits.
pub open spec fn two_digits(n: nat) -> Seq<char> {
    if n < 10 {
        "0"@ + decimal(n)
    } else {
        decimal(n)
    }
}

pub open spec fn sat_sub(a: int, b: int) -> int {
    if a > b {
        a - b
    } else {
        0
    }
}

/// `r` is row `index` (for `action`) of the landing menu of `a`, laid out to
/// `available` columns; the compact page leaves the captions out.
pub open spec fn menu_row_of(
    a: App,
    index: int,
    action: LandingAction,
    available: int,
    compact: bool,
    r: MenuRow,
) -> bool {
    let selected = index == a.landing_selected;
    let hovered = a.hovered == Some(HitAction::Landing(index as usize));
    let copy = menu_copy_of(action, a.demo, a.browser_mode);
    let fixed = text_columns(r.marker@) + text_columns(r.number@) + text_columns(r.key@);
    &&& r.marker@ == row_marker(selected, hovered)
    &&& r.number@ == two_digits((index + 1) as nat) + "  "@
    &&& r.key@ == row_key(selected, hovered)
    &&& r.title@ == fitted(copy.0, sat_sub(available, fixed + 1))
    &&& r.detail@ == if !compact && fixed + text_columns(r.title@) + text_columns(copy.1) + 5
        <= available {
        "  /  "@ + copy.1
    } else {
        Seq::<char>::empty()
    }
    &&& r.gap == sat_sub(
        available,
        fixed + text_columns(r.title@) + text_columns(r.detail@),
    )
}

fn numbered(n: u64) -> (r: String)
    requires
        n >= 1,
    ensures
        r@ == two_digits(n as nat) + "  "@,
{
    let digits = decimal_string(n);
    let mut r = if n < 10 {
        concat2("0", digits.as_str())
    } else {
        digits
    };
    r.append("  ");
    r
}

/// Row `index` of the landing menu of `app`, laid out to `available` columns.
pub fn menu_row(app: &App, index: usize, action: LandingAction, available: usize, compact: bool) -> (r: MenuRow)
    requires
        index + 1 <= u64::MAX,
    ensures
        menu_row_of(*app, index as int, action, available as int, compact, r),
{
    let selected = index == app.landing_selected;
    let hovered = match app.hovered {
        Some(HitAction::Landing(i)) => i == index,
        _ => false,
    };
    let marker = if selected {
        "\u{258C} "
    } else if hovered {
        "\u{203A} "
    } else {
        "  "
    };
    let key = if selected {
        "\u{2192} open"
    } else if hovered {
        "click"
    } else {
        ""
    };
    let number = numbered(index as u64 + 1);
    let (title_text, detail_text) = menu_copy(action, app);
    let fixed: u128 = text_width(marker) as u128 + text_width(number.as_str()) as u128
        + text_width(key) as u128;
    let room: usize = if (available as u128) > fixed + 1 {
        (available as u128 - (fixed + 1)) as usize
    } else {
        0
    };
    let title = truncate_to_width(title_text, room);
    let title_w = text_width(title.as_str()) as u128;
    let detail = if !compact && fixed + title_w + text_width(detail_text) as u128 + 5
        <= available as u128 {
        concat2("  /  ", detail_text)
    } else {
        String::new()
    };
    let used: u128 = fixed + title_w + text_width(detail.as_str()) as u128;
    let gap: usize = if (available as u128) > used {
        (available as u128 - used) as usize
    } else {
        0
    };
    MenuRow { marker, number, title, detail, gap, key }
}

/// Register one click region per landing menu row, the rows stacked from
/// (`x`, `y`) and `width` columns wide.
pub fn register_menu_hits(app: &mut App, x: u16, y: u16, width: u16, count: usize)
    requires
        y + count <= u16::MAX,
    ensures
        final(app).hit_regions@ == old(app).hit_regions@ + if width > 0 {
            Seq::new(
                count as nat,
                |i: int|
                    HitRegion {
                        x,
                        y: (y + i) as u16,
                        width,
                        height: 1,
                        action: HitAction::Landing(i as usize),
                    },
            )
        } else {
            Seq::empty()
        },
        *final(app) == (App { hit_regions: final(app).hit_regions, ..*old(app) }),
{
    let mut i: usize = 0;
    while i < count
        invariant
            i <= count,
            y + count <= u16::MAX,
            app.hit_regions@ == old(app).hit_regions@ + if width > 0 {
                Seq::new(
                    i as nat,
                    |k: int|
                        HitRegion {
                            x,
                            y: (y + k) as u16,
                            width,
                            height: 1,
                            action: HitAction::Landing(k as usize),
                        },
                )
            } else {
                Seq::empty()
            },
            *app == (App { hit_regions: app.hit_regions, ..*old(app) }),
        decreases count - i,
    {
        let ghost before = app.hit_regions@;
        app.register_hit(x, y + i as u16, width, 1, HitAction::Landing(i));
        proof {
            if width > 0 {
                let f = |k: int|
                    HitRegion {
                        x,
                        y: (y + k) as u16,
                        width,
                        height: 1,
                        action: HitAction::Landing(k as usize),
                    };
                assert(Seq::new((i + 1) as nat, f) =~= Seq::new(i as nat, f).push(f(i as int)));
                assert(old(app).hit_regions@ + Seq::new((i + 1) as nat, f) =~= (
                old(app).hit_regions@ + Seq::new(i as nat, f)).push(f(i as int)));
            }
        }
        i += 1;
    }
}

} // verus!
