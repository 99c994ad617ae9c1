//! The arithmetic and text of headless SVG captures: the capture geometry,
//! terminal colours as hex, and XML escaping.
use vstd::prelude::*;
use crate::text::{chars_of, owned, push_char};

verus! {

/// Geometry and typography for a terminal capture.
#[derive(Clone, Copy, Debug, PartialEq, Eq, Structural)]
pub struct CaptureOptions {
    pub columns: u16,
    pub rows: u16,
    pub cell_width: u16,
    pub cell_height: u16,
    pub font_size: u16,
}

pub open spec fn landing_options() -> CaptureOptions {
    CaptureOptions { columns: 110, rows: 44, cell_width: 9, cell_height: 18, font_size: 15 }
}

impl CaptureOptions {
    /// The standard landing-page capture viewport (110 columns by 44 rows).
    pub fn landing() -> (r: Self)
        ensures
            r == landing_options(),
    {
        CaptureOptions { columns: 110, rows: 44, cell_width: 9, cell_height: 18, font_size: 15 }
    }
}

impl Default for CaptureOptions {
    fn default() -> (r: Self)
        ensures
            r == landing_options(),
    {
        CaptureOptions::landing()
    }
}

/// The pixel size of a capture and the text baseline within a cell.
#[derive(Clone, Copy, Debug, PartialEq, Eq, Structural)]
pub struct CaptureGeometry {
    pub pixel_width: u32,
    pub pixel_height: u32,
    pub baseline: u16,
}

pub open spec fn sat_sub16(a: u16, b: int) -> int {
    if a >= b {
        a - b
    } else {
        0
    }
}

/// The geometry of a capture; every dimension must be positive.
pub fn capture_geometry(options: CaptureOptions) -> (r: Result<CaptureGeometry, String>)
    ensures
        (options.columns == 0 || options.rows == 0 || options.cell_width == 0
            || options.cell_height == 0 || options.font_size == 0) ==> (r matches Err(e) && e@
            == "capture dimensions must be greater than zero"@),
        !(options.columns == 0 || options.rows == 0 || options.cell_width == 0
            || options.cell_height == 0 || options.font_size == 0) ==> r == Ok::<
            CaptureGeometry,
            String,
        >(
            CaptureGeometry {
                pixel_width: (options.columns * options.cell_width) as u32,
                pixel_height: (options.rows * options.cell_height) as u32,
                baseline: sat_sub16(
                    options.cell_height,
                    sat_sub16(options.cell_height, options.font_size as int) / 2 + 1,
                ) as u16,
            },
        ),
{
    if options.columns == 0 || options.rows == 0 || options.cell_width == 0
        || options.cell_height == 0 || options.font_size == 0 {
        return Err(owned("capture dimensions must be greater than zero"));
    }
    assert((options.columns as u32) * (options.cell_width as u32) <= 65535 * 65535)
        by (nonlinear_arith)
        requires
            options.columns <= 65535,
            options.cell_width <= 65535,
    ;
    assert((options.rows as u32) * (options.cell_height as u32) <= 65535 * 65535)
        by (nonlinear_arith)
        requires
            options.rows <= 65535,
            options.cell_height <= 65535,
    ;
    let pixel_width = (options.columns as u32) * (options.cell_width as u32);
    let pixel_height = (options.rows as u32) * (options.cell_height as u32);
    let baseline = options.cell_height.saturating_sub(
        options.cell_height.saturating_sub(options.font_size) / 2 + 1,
    );
    Ok(CaptureGeometry { pixel_width, pixel_height, baseline })
}

/// The colours a terminal cell can carry.
#[derive(Clone, Copy, Debug, PartialEq, Eq, Structural)]
pub enum TermColor {
    Reset,
    Black,
    Red,
    Green,
    Yellow,
    Blue,
    Magenta,
    Cyan,
    Gray,
    DarkGray,
    LightRed,
    LightGreen,
    LightYellow,
    LightBlue,
    LightMagenta,
    LightCyan,
    White,
    Rgb(u8, u8, u8),
    Indexed(u8),
}

/// The sixteen ANSI colours.
pub open spec fn ansi_color(i: int) -> (u8, u8, u8) {
    if i == 0 {
        (0, 0, 0)
    } else if i == 1 {
        (128, 0, 0)
    } else if i == 2 {
        (0, 128, 0)
    } else if i == 3 {
        (128, 128, 0)
    } else if i == 4 {
        (0, 0, 128)
    } else if i == 5 {
        (128, 0, 128)
    } else if i == 6 {
        (0, 128, 128)
    } else if i == 7 {
        (192, 192, 192)
    } else if i == 8 {
        (128, 128, 128)
    } else if i == 9 {
        (255, 0, 0)
    } else if i == 10 {
        (0, 255, 0)
    } else if i == 11 {
        (255, 255, 0)
    } else if i == 12 {
        (0, 0, 255)
    } else if i == 13 {
        (255, 0, 255)
    } else if i == 14 {
        (0, 255, 255)
    } else {
        (255, 255, 255)
    }
}

/// A level of the 6×6×6 colour cube.
pub open spec fn cube_level(part: int) -> int {
    if part == 0 {
        0
    } else {
        55 + part * 40
    }
}

/// The RGB value of a 256-colour palette index: the ANSI colours, the colour
/// cube, then the gray ramp.
pub open spec fn palette_rgb(index: u8) -> (u8, u8, u8) {
    if index <= 15 {
        ansi_color(index as int)
    } else if index <= 231 {
        let v = index - 16;
        (cube_level(v / 36) as u8, cube_level((v % 36) / 6) as u8, cube_level(v % 6) as u8)
    } else {
        let g = 8 + (index - 232) * 10;
        (g as u8, g as u8, g as u8)
    }
}

fn cube(part: u8) -> (r: u8)
    requires
        part <= 5,
    ensures
        r == cube_level(part as int),
{
    if part == 0 {
        0
    } else {
        55 + part * 40
    }
}

/// The RGB value of a 256-colour palette index.
pub fn indexed_rgb(index: u8) -> (r: (u8, u8, u8))
    ensures
        r == palette_rgb(index),
{
    if index <= 15 {
        match index {
            0 => (0, 0, 0),
            1 => (128, 0, 0),
            2 => (0, 128, 0),
            3 => (128, 128, 0),
            4 => (0, 0, 128),
            5 => (128, 0, 128),
            6 => (0, 128, 128),
            7 => (192, 192, 192),
            8 => (128, 128, 128),
            9 => (255, 0, 0),
            10 => (0, 255, 0),
            11 => (255, 255, 0),
            12 => (0, 0, 255),
            13 => (255, 0, 255),
            14 => (0, 255, 255),
            _ => (255, 255, 255),
        }
    } else if index <= 231 {
        let value = index - 16;
        (cube(value / 36), cube((value % 36) / 6), cube(value % 6))
    } else {
        let gray = 8 + (index - 232) * 10;
        (gray, gray, gray)
    }
}

/// The RGB value of a named terminal colour (`None` for the reset colour).
pub open spec fn color_rgb(color: TermColor) -> Option<(u8, u8, u8)> {
    match color {
        TermColor::Reset => None,
        TermColor::Black => Some((0, 0, 0)),
        TermColor::Red => Some((205, 49, 49)),
        TermColor::Green => Some((13, 188, 121)),
        TermColor::Yellow => Some((229, 229, 16)),
        TermColor::Blue => Some((36, 114, 200)),
        TermColor::Magenta => Some((188, 63, 188)),
        TermColor::Cyan => Some((17, 168, 205)),
        TermColor::Gray => Some((229, 229, 229)),
        TermColor::DarkGray => Some((102, 102, 102)),
        TermColor::LightRed => Some((241, 76, 76)),
        TermColor::LightGreen => Some((35, 209, 139)),
        TermColor::LightYellow => Some((245, 245, 67)),
        TermColor::LightBlue => Some((59, 142, 234)),
        TermColor::LightMagenta => Some((214, 112, 214)),
        TermColor::LightCyan => Some((41, 184, 219)),
        TermColor::White => Some((255, 255, 255)),
        TermColor::Rgb(r, g, b) => Some((r, g, b)),
        TermColor::Indexed(i) => Some(palette_rgb(i)),
    }
}

/// A lowercase hexadecimal digit.
pub open spec fn hex_digit_char(d: int) -> char {
    if d < 10 {
        (('0' as int) + d) as char
    } else {
        (('a' as int) + d - 10) as char
    }
}

/// A byte as two lowercase hexadecimal digits.
pub open spec fn hex2(b: u8) -> Seq<char> {
    seq![hex_digit_char((b / 16) as int), hex_digit_char((b % 16) as int)]
}

fn hex_char(d: u8) -> (c: char)
    requires
        d < 16,
    ensures
        c == hex_digit_char(d as int),
{
    match d {
        0 => '0',
        1 => '1',
        2 => '2',
        3 => '3',
        4 => '4',
        5 => '5',
        6 => '6',
        7 => '7',
        8 => '8',
        9 => '9',
        10 => 'a',
        11 => 'b',
        12 => 'c',
        13 => 'd',
        14 => 'e',
        _ => 'f',
    }
}

/// `#rrggbb` for a colour; the reset colour is written as `reset`.
pub fn color_hex(color: TermColor, reset: &str) -> (r: String)
    ensures
        r@ == match color_rgb(color) {
            None => reset@,
            Some((red, green, blue)) => seq!['#'] + hex2(red) + hex2(green) + hex2(blue),
        },
{
    let (red, green, blue): (u8, u8, u8) = match color {
        TermColor::Reset => return owned(reset),
        TermColor::Black => (0, 0, 0),
        TermColor::Red => (205, 49, 49),
        TermColor::Green => (13, 188, 121),
        TermColor::Yellow => (229, 229, 16),
        TermColor::Blue => (36, 114, 200),
        TermColor::Magenta => (188, 63, 188),
        TermColor::Cyan => (17, 168, 205),
        TermColor::Gray => (229, 229, 229),
        TermColor::DarkGray => (102, 102, 102),
        TermColor::LightRed => (241, 76, 76),
        TermColor::LightGreen => (35, 209, 139),
        TermColor::LightYellow => (245, 245, 67),
        TermColor::LightBlue => (59, 142, 234),
        TermColor::LightMagenta => (214, 112, 214),
        TermColor::LightCyan => (41, 184, 219),
        TermColor::White => (255, 255, 255),
        TermColor::Rgb(r, g, b) => (r, g, b),
        TermColor::Indexed(i) => indexed_rgb(i),
    };
    let mut s = String::new();
    push_char(&mut s, '#');
    push_char(&mut s, hex_char(red / 16));
    push_char(&mut s, hex_char(red % 16));
    push_char(&mut s, hex_char(green / 16));
    push_char(&mut s, hex_char(green % 16));
    push_char(&mut s, hex_char(blue / 16));
    push_char(&mut s, hex_char(blue % 16));
    assert(s@ =~= seq!['#'] + hex2(red) + hex2(green) + hex2(blue));
    s
}

/// The XML text for a character: markup characters become entities.
pub open spec fn xml_char(c: char) -> Seq<char> {
    if c == '&' {
        "&amp;"@
    } else if c == '<' {
        "&lt;"@
    } else if c == '>' {
        "&gt;"@
    } else if c == '"' {
        "&quot;"@
    } else if c == '\'' {
        "&apos;"@
    } else {
        seq![c]
    }
}

/// `s` as XML text.
pub open spec fn xml_text(s: Seq<char>) -> Seq<char>
    decreases s.len(),
{
    if s.len() == 0 {
        Seq::empty()
    } else {
        xml_text(s.drop_last()) + xml_char(s.last())
    }
}

/// Escape the markup characters of `value` for XML text and attributes.
pub fn escape_xml(value: &str) -> (r: String)
    ensures
        r@ == xml_text(value@),
{
    let chars = chars_of(value);
    let mut out = String::new();
    let mut i: usize = 0;
    while i < chars.len()
        invariant
            i <= chars@.len(),
            out@ == xml_text(chars@.subrange(0, i as int)),
        decreases chars@.len() - i,
    {
        let c = chars[i];
        assert(chars@.subrange(0, i + 1).drop_last() =~= chars@.subrange(0, i as int));
        if c == '&' {
            out.append("&amp;");
        } else if c == '<' {
            out.append("&lt;");
        } else if c == '>' {
            out.append("&gt;");
        } else if c == '"' {
            out.append("&quot;");
        } else if c == '\'' {
            out.append("&apos;");
        } else {
            push_char(&mut out, c);
        }
        i += 1;
    }
    assert(chars@.subrange(0, chars@.len() as int) =~= chars@);
    out
}

} // verus!
