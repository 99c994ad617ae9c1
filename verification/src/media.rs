//! Choosing which address of a media attachment to open or to preview.
use vstd::prelude::*;
use crate::model::{clone_opt_string, Media, MediaKind, MediaVariant};
use crate::text::{
    ascii_lower_seq, chars_of, contains_chars, contains_seq, ends_with, is_prefix, is_suffix,
    lower_ascii_chars, starts_with,
};

verus! {

pub open spec fn is_mp4(v: MediaVariant) -> bool {
    v.content_type matches Some(t) && t@ == "video/mp4"@
}

pub open spec fn bit_rate_key(v: MediaVariant) -> u64 {
    match v.bit_rate {
        Some(b) => b,
        None => 0,
    }
}

/// The position of the MP4 variant with the highest bit rate (a missing rate
/// counts as zero); among equal rates the last one wins, as
/// `Iterator::max_by_key` picks it.
pub open spec fn best_mp4(vs: Seq<MediaVariant>) -> Option<int>
    decreases vs.len(),
{
    if vs.len() == 0 {
        None
    } else {
        let before = best_mp4(vs.drop_last());
        let last = vs.len() - 1;
        if is_mp4(vs[last]) && (before is None || bit_rate_key(vs[before->0]) <= bit_rate_key(
            vs[last],
        )) {
            Some(last)
        } else {
            before
        }
    }
}

proof fn lemma_best_mp4_in_range(vs: Seq<MediaVariant>)
    ensures
        best_mp4(vs) matches Some(i) ==> 0 <= i < vs.len(),
    decreases vs.len(),
{
    if vs.len() > 0 {
        lemma_best_mp4_in_range(vs.drop_last());
    }
}

/// A video opens as its highest-bit-rate MP4 rendition: the chosen variant
/// is an MP4, no MP4 variant has a higher rate, and one is chosen whenever
/// any variant is an MP4.
pub proof fn law_videos_open_their_best_mp4(vs: Seq<MediaVariant>)
    ensures
        best_mp4(vs) is None <==> (forall|j: int| 0 <= j < vs.len() ==> !is_mp4(#[trigger] vs[j])),
        best_mp4(vs) matches Some(i) ==> {
            &&& 0 <= i < vs.len()
            &&& is_mp4(vs[i])
            &&& forall|j: int| 0 <= j < vs.len() && is_mp4(#[trigger] vs[j]) ==> bit_rate_key(vs[j])
                <= bit_rate_key(vs[i])
        },
    decreases vs.len(),
{
    if vs.len() > 0 {
        let init = vs.drop_last();
        law_videos_open_their_best_mp4(init);
        assert forall|j: int| 0 <= j < init.len() implies #[trigger] init[j] == vs[j] by {}
        let last = vs.len() - 1;
        let before = best_mp4(init);
        if let Some(i) = best_mp4(vs) {
            assert forall|j: int| 0 <= j < vs.len() && is_mp4(#[trigger] vs[j]) implies bit_rate_key(
                vs[j],
            ) <= bit_rate_key(vs[i]) by {
                if j < last {
                    assert(init[j] == vs[j]);
                    assert(before is Some);
                    let b = before->0;
                    assert(init[b] == vs[b]);
                }
            }
            if i < last {
                assert(init[i] == vs[i]);
            }
        }
        if best_mp4(vs) is None {
            assert forall|j: int| 0 <= j < vs.len() implies !is_mp4(#[trigger] vs[j]) by {
                if j < last {
                    assert(init[j] == vs[j]);
                }
            }
        }
    }
}

/// A video or an animated GIF with any MP4 rendition opens as an MP4 with
/// the highest bit rate among them (a missing rate counts as zero); a photo
/// opens at its address, else its preview.
pub proof fn law_moving_media_opens_its_best_mp4(m: Media)
    ensures
        (m.kind == MediaKind::Video || m.kind == MediaKind::AnimatedGif) && (exists|j: int|
            0 <= j < m.variants@.len() && is_mp4(#[trigger] m.variants@[j])) ==> exists|i: int|
            0 <= i < m.variants@.len() && #[trigger] is_mp4(m.variants@[i]) && external_url(m)
                == Some(m.variants@[i].url) && forall|j: int|
                0 <= j < m.variants@.len() && is_mp4(#[trigger] m.variants@[j]) ==> bit_rate_key(
                    m.variants@[j],
                ) <= bit_rate_key(m.variants@[i]),
        m.kind == MediaKind::Photo ==> external_url(m) == match m.url {
            Some(u) => Some(u),
            None => m.preview_url,
        },
{
    law_videos_open_their_best_mp4(m.variants@);
    if (m.kind == MediaKind::Video || m.kind == MediaKind::AnimatedGif) && (exists|j: int|
        0 <= j < m.variants@.len() && is_mp4(#[trigger] m.variants@[j])) {
        let i = best_mp4(m.variants@)->0;
        assert(is_mp4(m.variants@[i]));
    }
}

pub open spec fn or_else(a: Option<String>, b: Option<String>) -> Option<String> {
    match a {
        Some(x) => Some(x),
        None => b,
    }
}

/// The address that opens a media attachment outside the terminal: for
/// videos and GIFs the best MP4 rendition, then the media address, then the
/// poster; for photos the address, then the preview.
pub open spec fn external_url(m: Media) -> Option<String> {
    if m.kind == MediaKind::Video || m.kind == MediaKind::AnimatedGif {
        match best_mp4(m.variants@) {
            Some(i) => Some(m.variants@[i].url),
            None => or_else(m.url, m.preview_url),
        }
    } else {
        or_else(m.url, m.preview_url)
    }
}

/// The part of an address before its query or fragment.
pub open spec fn address_path(s: Seq<char>) -> Seq<char>
    decreases s.len(),
{
    if s.len() == 0 {
        s
    } else {
        let before = address_path(s.drop_last());
        if before.len() < s.len() - 1 {
            before
        } else if s.last() == '?' || s.last() == '#' {
            s.drop_last()
        } else {
            s
        }
    }
}

/// Whether an address names a still image by its extension.
pub open spec fn spec_looks_like_image(url: Seq<char>) -> bool {
    let path = ascii_lower_seq(address_path(url));
    ||| is_suffix(".jpg"@, path)
    ||| is_suffix(".jpeg"@, path)
    ||| is_suffix(".png"@, path)
    ||| is_suffix(".webp"@, path)
    ||| is_suffix(".gif"@, path)
    ||| is_suffix(".bmp"@, path)
}

/// The still image to show inside the terminal: the preview when there is
/// one, else the media address if it is a demo still or looks like an image.
pub open spec fn preview_url(m: Media) -> Option<String> {
    match m.preview_url {
        Some(p) => Some(p),
        None => match m.url {
            Some(u) => if is_prefix("demo://"@, u@) || spec_looks_like_image(u@) {
                Some(u)
            } else {
                None
            },
            None => None,
        },
    }
}

fn is_mp4_exec(v: &MediaVariant) -> (r: bool)
    ensures
        r == is_mp4(*v),
{
    match &v.content_type {
        Some(t) => {
            let a = chars_of(t.as_str());
            let b = chars_of("video/mp4");
            crate::text::seq_eq(&a, &b)
        },
        None => false,
    }
}

fn key_of(v: &MediaVariant) -> (r: u64)
    ensures
        r == bit_rate_key(*v),
{
    match v.bit_rate {
        Some(b) => b,
        None => 0,
    }
}

/// The address that opens a media attachment outside the terminal.
pub fn best_external_url(media: &Media) -> (r: Option<String>)
    ensures
        r == external_url(*media),
{
    if media.kind == MediaKind::Video || media.kind == MediaKind::AnimatedGif {
        let vs = &media.variants;
        let mut best: Option<usize> = None;
        let mut i: usize = 0;
        while i < vs.len()
            invariant
                i <= vs@.len(),
                vs@ == media.variants@,
                best matches Some(b) ==> b < i,
                (match best {
                    Some(b) => Some(b as int),
                    None => None,
                }) == best_mp4(vs@.subrange(0, i as int)),
            decreases vs@.len() - i,
        {
            proof {
                assert(vs@.subrange(0, i + 1).drop_last() =~= vs@.subrange(0, i as int));
            }
            if is_mp4_exec(&vs[i]) {
                match best {
                    None => {
                        best = Some(i);
                    },
                    Some(b) => {
                        if key_of(&vs[b]) <= key_of(&vs[i]) {
                            best = Some(i);
                        }
                    },
                }
            }
            i += 1;
        }
        assert(vs@.subrange(0, vs@.len() as int) =~= vs@);
        match best {
            Some(b) => Some(vs[b].url.clone()),
            None => match &media.url {
                Some(u) => Some(u.clone()),
                None => clone_opt_string(&media.preview_url),
            },
        }
    } else {
        match &media.url {
            Some(u) => Some(u.clone()),
            None => clone_opt_string(&media.preview_url),
        }
    }
}

proof fn lemma_address_path(s: Seq<char>, k: int)
    requires
        0 <= k <= s.len(),
        forall|j: int| 0 <= j < k ==> s[j] != '?' && s[j] != '#',
        k == s.len() || s[k] == '?' || s[k] == '#',
    ensures
        address_path(s) == s.subrange(0, k),
    decreases s.len(),
{
    if s.len() == 0 {
        assert(s.subrange(0, 0) =~= s);
    } else if k == s.len() {
        lemma_address_path(s.drop_last(), k - 1);
        assert(s.drop_last().subrange(0, k - 1) =~= s.drop_last());
        assert(s.subrange(0, k) =~= s);
    } else if k == s.len() - 1 {
        lemma_address_path(s.drop_last(), k);
        assert(s.drop_last().subrange(0, k) =~= s.drop_last());
        assert(s.drop_last() =~= s.subrange(0, k));
    } else {
        lemma_address_path(s.drop_last(), k);
        assert(s.drop_last().subrange(0, k) =~= s.subrange(0, k));
    }
}

fn ends_with_lit(s: &Vec<char>, lit: &str) -> (r: bool)
    ensures
        r == is_suffix(lit@, s@),
{
    let p = chars_of(lit);
    ends_with(s, &p)
}

/// Whether an address names a still image by its extension (case-insensitive,
/// ignoring the query and fragment).
pub fn looks_like_image(url: &str) -> (r: bool)
    ensures
        r == spec_looks_like_image(url@),
{
    let s = chars_of(url);
    let mut k: usize = 0;
    while k < s.len() && s[k] != '?' && s[k] != '#'
        invariant
            k <= s@.len(),
            forall|j: int| 0 <= j < k ==> s@[j] != '?' && s@[j] != '#',
        decreases s@.len() - k,
    {
        k += 1;
    }
    proof {
        lemma_address_path(s@, k as int);
    }
    let mut path: Vec<char> = Vec::new();
    let mut i: usize = 0;
    while i < k
        invariant
            i <= k <= s@.len(),
            path@ == s@.subrange(0, i as int),
        decreases k - i,
    {
        path.push(s[i]);
        i += 1;
        assert(path@ =~= s@.subrange(0, i as int));
    }
    let lower = lower_ascii_chars(&path);
    ends_with_lit(&lower, ".jpg") || ends_with_lit(&lower, ".jpeg") || ends_with_lit(&lower, ".png")
        || ends_with_lit(&lower, ".webp") || ends_with_lit(&lower, ".gif") || ends_with_lit(
        &lower,
        ".bmp",
    )
}

/// The still image to show inside the terminal; videos and GIFs prefer their
/// poster frame so a video file is never decoded as a photo.
pub fn best_preview_url(media: &Media) -> (r: Option<String>)
    ensures
        r == preview_url(*media),
{
    match &media.preview_url {
        Some(p) => Some(p.clone()),
        None => match &media.url {
            Some(u) => {
                let chars = chars_of(u.as_str());
                let demo = chars_of("demo://");
                if starts_with(&chars, &demo) || looks_like_image(u.as_str()) {
                    Some(u.clone())
                } else {
                    None
                }
            },
            None => None,
        },
    }
}


/// A terminal graphics protocol.
#[derive(Clone, Copy, Debug, PartialEq, Eq, Structural)]
pub enum GraphicsProtocol {
    Sixel,
    Iterm2,
    Kitty,
}

/// What the terminal's environment says about it.
#[derive(Debug)]
pub struct TerminalHints {
    /// `WT_SESSION` is set (Windows Terminal).
    pub windows_terminal: bool,
    pub term_program: Option<String>,
    /// `KITTY_WINDOW_ID` is set.
    pub kitty_window: bool,
    pub term: Option<String>,
    /// The reader runs on Windows.
    pub windows: bool,
}

pub open spec fn names(v: Option<String>, word: Seq<char>) -> bool {
    v matches Some(s) && s@ == word
}

pub open spec fn mentions(v: Option<String>, word: Seq<char>) -> bool {
    v matches Some(s) && contains_seq(s@, word)
}

/// The protocol a terminal is known to speak, if its environment says.
pub open spec fn forced_protocol(h: TerminalHints) -> Option<GraphicsProtocol> {
    if h.windows_terminal || names(h.term_program, "vscode"@) {
        Some(GraphicsProtocol::Sixel)
    } else if names(h.term_program, "WezTerm"@) || names(h.term_program, "iTerm.app"@) || names(
        h.term_program,
        "Bobcat"@,
    ) {
        Some(GraphicsProtocol::Iterm2)
    } else if names(h.term_program, "ghostty"@) {
        Some(GraphicsProtocol::Kitty)
    } else if h.kitty_window || mentions(h.term, "kitty"@) {
        Some(GraphicsProtocol::Kitty)
    } else if mentions(h.term, "sixel"@) || mentions(h.term, "mlterm"@) || mentions(
        h.term,
        "foot"@,
    ) {
        Some(GraphicsProtocol::Sixel)
    } else if h.windows {
        Some(GraphicsProtocol::Sixel)
    } else {
        None
    }
}

fn names_exec(v: &Option<String>, word: &str) -> (r: bool)
    ensures
        r == names(*v, word@),
{
    match v {
        Some(s) => crate::text::str_eq(s.as_str(), word),
        None => false,
    }
}

fn mentions_exec(v: &Option<String>, word: &str) -> (r: bool)
    ensures
        r == mentions(*v, word@),
{
    match v {
        Some(s) => contains_chars(&chars_of(s.as_str()), &chars_of(word)),
        None => false,
    }
}

/// The graphics protocol to use without probing the terminal, when its
/// environment identifies it.
pub fn forced_graphics_protocol(h: &TerminalHints) -> (r: Option<GraphicsProtocol>)
    ensures
        r == forced_protocol(*h),
{
    if h.windows_terminal || names_exec(&h.term_program, "vscode") {
        Some(GraphicsProtocol::Sixel)
    } else if names_exec(&h.term_program, "WezTerm") || names_exec(&h.term_program, "iTerm.app")
        || names_exec(&h.term_program, "Bobcat") {
        Some(GraphicsProtocol::Iterm2)
    } else if names_exec(&h.term_program, "ghostty") {
        Some(GraphicsProtocol::Kitty)
    } else if h.kitty_window || mentions_exec(&h.term, "kitty") {
        Some(GraphicsProtocol::Kitty)
    } else if mentions_exec(&h.term, "sixel") || mentions_exec(&h.term, "mlterm") || mentions_exec(
        &h.term,
        "foot",
    ) {
        Some(GraphicsProtocol::Sixel)
    } else if h.windows {
        Some(GraphicsProtocol::Sixel)
    } else {
        None
    }
}

/// The cell size in pixels a window reports: its pixel size over its cell
/// count, at least one pixel each way; nothing when any size is zero.
pub fn cell_pixels(width: u16, height: u16, columns: u16, rows: u16) -> (r: Option<(u16, u16)>)
    ensures
        (width == 0 || height == 0 || columns == 0 || rows == 0) ==> r is None,
        !(width == 0 || height == 0 || columns == 0 || rows == 0) ==> r == Some(
            (
                if width / columns >= 1 {
                    (width / columns) as u16
                } else {
                    1u16
                },
                if height / rows >= 1 {
                    (height / rows) as u16
                } else {
                    1u16
                },
            ),
        ),
{
    if width == 0 || height == 0 || columns == 0 || rows == 0 {
        return None;
    }
    let w = width / columns;
    let h = height / rows;
    Some((if w >= 1 { w } else { 1 }, if h >= 1 { h } else { 1 }))
}

/// A font cell size, with the 10 × 20 default standing in for a zero one.
pub fn font_or_default(width: u16, height: u16) -> (r: (u16, u16))
    ensures
        r == if width == 0 || height == 0 {
            (10u16, 20u16)
        } else {
            (width, height)
        },
{
    if width == 0 || height == 0 {
        (10, 20)
    } else {
        (width, height)
    }
}

} // verus!
