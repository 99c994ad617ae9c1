use xtui::media::{
    best_external_url, best_preview_url, cell_pixels, font_or_default, forced_graphics_protocol,
    looks_like_image, GraphicsProtocol, TerminalHints,
};
use xtui::model::{Media, MediaKind, MediaVariant};

#[test]
fn video_prefers_highest_bitrate_mp4() {
    let m = Media {
        key: "x".into(),
        kind: MediaKind::Video,
        url: None,
        preview_url: Some("preview".into()),
        alt_text: None,
        variants: vec![
            MediaVariant {
                url: "low".into(),
                bit_rate: Some(64),
                content_type: Some("video/mp4".into()),
            },
            MediaVariant {
                url: "high".into(),
                bit_rate: Some(128),
                content_type: Some("video/mp4".into()),
            },
        ],
    };
    assert_eq!(best_external_url(&m).as_deref(), Some("high"));
}

#[test]
fn preview_url_prefers_stills_over_video_files() {
    let video = Media {
        key: "v".into(),
        kind: MediaKind::Video,
        url: Some("https://example.test/clip.mp4".into()),
        preview_url: Some("https://example.test/poster.jpg".into()),
        alt_text: None,
        variants: vec![],
    };
    assert_eq!(
        best_preview_url(&video).as_deref(),
        Some("https://example.test/poster.jpg")
    );
    let bare = Media {
        key: "v".into(),
        kind: MediaKind::Video,
        url: Some("https://example.test/clip.mp4".into()),
        preview_url: None,
        alt_text: None,
        variants: vec![],
    };
    assert_eq!(best_preview_url(&bare), None);
}

#[test]
fn photos_open_their_own_address() {
    let photo = Media {
        key: "p".into(),
        kind: MediaKind::Photo,
        url: Some("https://example.test/a.PNG?size=large".into()),
        preview_url: None,
        alt_text: None,
        variants: vec![],
    };
    assert_eq!(
        best_external_url(&photo).as_deref(),
        Some("https://example.test/a.PNG?size=large")
    );
    assert_eq!(
        best_preview_url(&photo).as_deref(),
        Some("https://example.test/a.PNG?size=large")
    );
    assert!(looks_like_image("https://x.test/p.JpEg#frag"));
    assert!(!looks_like_image("https://x.test/p.mp4?x=.jpg"));
}

fn hints(program: Option<&str>, term: Option<&str>) -> TerminalHints {
    TerminalHints {
        windows_terminal: false,
        term_program: program.map(|p| p.to_string()),
        kitty_window: false,
        term: term.map(|t| t.to_string()),
        windows: false,
    }
}

#[test]
fn terminal_environment_selects_a_graphics_protocol() {
    assert_eq!(
        forced_graphics_protocol(&hints(Some("vscode"), None)),
        Some(GraphicsProtocol::Sixel)
    );
    assert_eq!(
        forced_graphics_protocol(&hints(Some("WezTerm"), None)),
        Some(GraphicsProtocol::Iterm2)
    );
    assert_eq!(
        forced_graphics_protocol(&hints(Some("ghostty"), None)),
        Some(GraphicsProtocol::Kitty)
    );
    assert_eq!(
        forced_graphics_protocol(&hints(None, Some("xterm-kitty"))),
        Some(GraphicsProtocol::Kitty)
    );
    assert_eq!(
        forced_graphics_protocol(&hints(None, Some("foot"))),
        Some(GraphicsProtocol::Sixel)
    );
    assert_eq!(forced_graphics_protocol(&hints(None, Some("xterm"))), None);
}

#[test]
fn cell_size_comes_from_the_window() {
    assert_eq!(cell_pixels(1000, 800, 100, 40), Some((10, 20)));
    assert_eq!(cell_pixels(50, 20, 100, 40), Some((1, 1)));
    assert_eq!(cell_pixels(0, 800, 100, 40), None);
    assert_eq!(font_or_default(0, 18), (10, 20));
    assert_eq!(font_or_default(9, 18), (9, 18));
}
