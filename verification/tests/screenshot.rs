use xtui::screenshot::{capture_geometry, color_hex, escape_xml, indexed_rgb, CaptureGeometry, CaptureOptions, TermColor};

#[test]
fn the_landing_viewport_is_standard() {
    let o = CaptureOptions::landing();
    assert_eq!((o.columns, o.rows, o.cell_width, o.cell_height, o.font_size), (110, 44, 9, 18, 15));
    assert_eq!(CaptureOptions::default(), o);
    assert_eq!(
        capture_geometry(o),
        Ok(CaptureGeometry { pixel_width: 990, pixel_height: 792, baseline: 16 })
    );
    let mut empty = o;
    empty.rows = 0;
    assert_eq!(capture_geometry(empty).unwrap_err(), "capture dimensions must be greater than zero");
}

#[test]
fn palette_indexes_map_to_rgb() {
    assert_eq!(indexed_rgb(1), (128, 0, 0));
    assert_eq!(indexed_rgb(16), (0, 0, 0));
    assert_eq!(indexed_rgb(231), (255, 255, 255));
    assert_eq!(indexed_rgb(196), (255, 0, 0));
    assert_eq!(indexed_rgb(232), (8, 8, 8));
    assert_eq!(indexed_rgb(255), (238, 238, 238));
}

#[test]
fn colors_are_written_as_hex() {
    assert_eq!(color_hex(TermColor::Reset, "#000000"), "#000000");
    assert_eq!(color_hex(TermColor::Rgb(255, 128, 9), "#000000"), "#ff8009");
    assert_eq!(color_hex(TermColor::Red, "#000000"), "#cd3131");
    assert_eq!(color_hex(TermColor::Indexed(232), "#000000"), "#080808");
}

#[test]
fn markup_characters_are_escaped() {
    assert_eq!(escape_xml("a<b> & \"c\" 'd'"), "a&lt;b&gt; &amp; &quot;c&quot; &apos;d&apos;");
    assert_eq!(escape_xml("&amp;"), "&amp;amp;");
}
