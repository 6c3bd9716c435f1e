use vstd::prelude::*;

use crate::util::str_eq;

verus! {

/// The sixteen standard ANSI color slots, plus the terminal default.
#[derive(Debug, Clone, Copy, PartialEq, Eq, Structural, Hash)]
pub enum AnsiColor {
    Default,
    Black,
    Red,
    Green,
    Yellow,
    Blue,
    Magenta,
    Cyan,
    White,
    BrightBlack,
    BrightRed,
    BrightGreen,
    BrightYellow,
    BrightBlue,
    BrightMagenta,
    BrightCyan,
    BrightWhite,
}

impl Default for AnsiColor {
    fn default() -> (r: Self)
        ensures
            r == AnsiColor::Default,
    {
        AnsiColor::Default
    }
}

/// The SGR foreground code of each ANSI slot.
pub open spec fn ansi_code(c: AnsiColor) -> int {
    match c {
        AnsiColor::Default => 39,
        AnsiColor::Black => 30,
        AnsiColor::Red => 31,
        AnsiColor::Green => 32,
        AnsiColor::Yellow => 33,
        AnsiColor::Blue => 34,
        AnsiColor::Magenta => 35,
        AnsiColor::Cyan => 36,
        AnsiColor::White => 37,
        AnsiColor::BrightBlack => 90,
        AnsiColor::BrightRed => 91,
        AnsiColor::BrightGreen => 92,
        AnsiColor::BrightYellow => 93,
        AnsiColor::BrightBlue => 94,
        AnsiColor::BrightMagenta => 95,
        AnsiColor::BrightCyan => 96,
        AnsiColor::BrightWhite => 97,
    }
}

/// The SGR background code of each ANSI slot.
pub open spec fn ansi_background_code(c: AnsiColor) -> int {
    match c {
        AnsiColor::Default => 49,
        AnsiColor::Black => 40,
        AnsiColor::Red => 41,
        AnsiColor::Green => 42,
        AnsiColor::Yellow => 43,
        AnsiColor::Blue => 44,
        AnsiColor::Magenta => 45,
        AnsiColor::Cyan => 46,
        AnsiColor::White => 47,
        AnsiColor::BrightBlack => 100,
        AnsiColor::BrightRed => 101,
        AnsiColor::BrightGreen => 102,
        AnsiColor::BrightYellow => 103,
        AnsiColor::BrightBlue => 104,
        AnsiColor::BrightMagenta => 105,
        AnsiColor::BrightCyan => 106,
        AnsiColor::BrightWhite => 107,
    }
}

/// The display RGB approximation of each ANSI slot; the terminal default
/// reports black only so that distance math is total.
pub open spec fn ansi_rgb(c: AnsiColor) -> (u8, u8, u8) {
    match c {
        AnsiColor::Default => (0 as u8, 0 as u8, 0 as u8),
        AnsiColor::Black => (0 as u8, 0 as u8, 0 as u8),
        AnsiColor::Red => (205 as u8, 0 as u8, 0 as u8),
        AnsiColor::Green => (0 as u8, 205 as u8, 0 as u8),
        AnsiColor::Yellow => (205 as u8, 205 as u8, 0 as u8),
        AnsiColor::Blue => (0 as u8, 0 as u8, 238 as u8),
        AnsiColor::Magenta => (205 as u8, 0 as u8, 205 as u8),
        AnsiColor::Cyan => (0 as u8, 205 as u8, 205 as u8),
        AnsiColor::White => (229 as u8, 229 as u8, 229 as u8),
        AnsiColor::BrightBlack => (127 as u8, 127 as u8, 127 as u8),
        AnsiColor::BrightRed => (255 as u8, 0 as u8, 0 as u8),
        AnsiColor::BrightGreen => (0 as u8, 255 as u8, 0 as u8),
        AnsiColor::BrightYellow => (255 as u8, 255 as u8, 0 as u8),
        AnsiColor::BrightBlue => (92 as u8, 92 as u8, 255 as u8),
        AnsiColor::BrightMagenta => (255 as u8, 0 as u8, 255 as u8),
        AnsiColor::BrightCyan => (0 as u8, 255 as u8, 255 as u8),
        AnsiColor::BrightWhite => (255 as u8, 255 as u8, 255 as u8),
    }
}

/// The spelled-out style names (and aliases) of the ANSI slots.
pub open spec fn ansi_from_name(s: Seq<char>) -> Option<AnsiColor> {
    if s == "ansidefault"@ { Some(AnsiColor::Default) } else
    if s == "ansiblack"@ { Some(AnsiColor::Black) } else
    if s == "ansired"@ { Some(AnsiColor::Red) } else
    if s == "ansidarkred"@ { Some(AnsiColor::Red) } else
    if s == "ansigreen"@ { Some(AnsiColor::Green) } else
    if s == "ansidarkgreen"@ { Some(AnsiColor::Green) } else
    if s == "ansiyellow"@ { Some(AnsiColor::Yellow) } else
    if s == "ansibrown"@ { Some(AnsiColor::Yellow) } else
    if s == "ansiblue"@ { Some(AnsiColor::Blue) } else
    if s == "ansidarkblue"@ { Some(AnsiColor::Blue) } else
    if s == "ansimagenta"@ { Some(AnsiColor::Magenta) } else
    if s == "ansipurple"@ { Some(AnsiColor::Magenta) } else
    if s == "ansicyan"@ { Some(AnsiColor::Cyan) } else
    if s == "ansiteal"@ { Some(AnsiColor::Cyan) } else
    if s == "ansiwhite"@ { Some(AnsiColor::White) } else
    if s == "ansilightgray"@ { Some(AnsiColor::White) } else
    if s == "ansibrightblack"@ { Some(AnsiColor::BrightBlack) } else
    if s == "ansidarkgray"@ { Some(AnsiColor::BrightBlack) } else
    if s == "ansibrightred"@ { Some(AnsiColor::BrightRed) } else
    if s == "ansibrightgreen"@ { Some(AnsiColor::BrightGreen) } else
    if s == "ansibrightyellow"@ { Some(AnsiColor::BrightYellow) } else
    if s == "ansibrightblue"@ { Some(AnsiColor::BrightBlue) } else
    if s == "ansibrightmagenta"@ { Some(AnsiColor::BrightMagenta) } else
    if s == "ansifuchsia"@ { Some(AnsiColor::BrightMagenta) } else
    if s == "ansibrightcyan"@ { Some(AnsiColor::BrightCyan) } else
    if s == "ansiturquoise"@ { Some(AnsiColor::BrightCyan) } else
    if s == "ansibrightwhite"@ { Some(AnsiColor::BrightWhite) } else
    { None }
}

/// Squared RGB distance between an ANSI slot and a requested color.
pub open spec fn dist2(c: AnsiColor, r: int, g: int, b: int) -> int {
    let (r2, g2, b2) = ansi_rgb(c);
    (r - r2) * (r - r2) + (g - g2) * (g - g2) + (b - b2) * (b - b2)
}

/// The fixed candidate order of the nearest-ANSI search.
pub open spec fn ansi_candidates() -> Seq<AnsiColor> {
    seq![
        AnsiColor::Red,
        AnsiColor::Green,
        AnsiColor::Blue,
        AnsiColor::Yellow,
        AnsiColor::Magenta,
        AnsiColor::Cyan,
        AnsiColor::White,
        AnsiColor::BrightRed,
        AnsiColor::BrightGreen,
        AnsiColor::BrightBlue,
        AnsiColor::BrightYellow,
        AnsiColor::BrightMagenta,
        AnsiColor::BrightCyan,
        AnsiColor::BrightWhite,
        AnsiColor::Black,
        AnsiColor::BrightBlack,
    ]
}

/// ASCII-only lowercase of one character.
pub open spec fn ascii_lower_char(c: char) -> char {
    if c == 'A' { 'a' } else
    if c == 'B' { 'b' } else
    if c == 'C' { 'c' } else
    if c == 'D' { 'd' } else
    if c == 'E' { 'e' } else
    if c == 'F' { 'f' } else
    if c == 'G' { 'g' } else
    if c == 'H' { 'h' } else
    if c == 'I' { 'i' } else
    if c == 'J' { 'j' } else
    if c == 'K' { 'k' } else
    if c == 'L' { 'l' } else
    if c == 'M' { 'm' } else
    if c == 'N' { 'n' } else
    if c == 'O' { 'o' } else
    if c == 'P' { 'p' } else
    if c == 'Q' { 'q' } else
    if c == 'R' { 'r' } else
    if c == 'S' { 's' } else
    if c == 'T' { 't' } else
    if c == 'U' { 'u' } else
    if c == 'V' { 'v' } else
    if c == 'W' { 'w' } else
    if c == 'X' { 'x' } else
    if c == 'Y' { 'y' } else
    if c == 'Z' { 'z' } else
    { c }
}

/// ASCII-only lowercase of a character sequence.
pub open spec fn ascii_lower(s: Seq<char>) -> Seq<char> {
    s.map_values(|c: char| ascii_lower_char(c))
}

/// Lowercases the ASCII letters of a string, leaving all else unchanged.
pub fn ascii_lowercase_str(s: &str) -> (r: String)
    ensures
        r@ == ascii_lower(s@),
{
    let cv = crate::util::str_chars(s);
    let mut lowered: Vec<char> = Vec::new();
    let mut i: usize = 0;
    while i < cv.len()
        invariant
            i <= cv.len(),
            cv@ == s@,
            lowered@ == ascii_lower(s@.take(i as int)),
        decreases cv.len() - i,
    {
        let c = cv[i];
        let lc = ascii_lower_char_exec(c);
        lowered.push(lc);
        proof {
            assert(s@.take(i + 1).map_values(|c: char| ascii_lower_char(c)) =~= s@.take(
                i as int,
            ).map_values(|c: char| ascii_lower_char(c)).push(ascii_lower_char(s@[i as int])));
        }
        i = i + 1;
    }
    proof {
        assert(s@.take(cv.len() as int) =~= s@);
    }
    crate::util::chars_to_string(&lowered)
}

/// Lowercases one ASCII letter, leaving all else unchanged.
pub fn ascii_lower_char_exec(c: char) -> (r: char)
    ensures
        r == ascii_lower_char(c),
{
    if c == 'A' { 'a' } else
    if c == 'B' { 'b' } else
    if c == 'C' { 'c' } else
    if c == 'D' { 'd' } else
    if c == 'E' { 'e' } else
    if c == 'F' { 'f' } else
    if c == 'G' { 'g' } else
    if c == 'H' { 'h' } else
    if c == 'I' { 'i' } else
    if c == 'J' { 'j' } else
    if c == 'K' { 'k' } else
    if c == 'L' { 'l' } else
    if c == 'M' { 'm' } else
    if c == 'N' { 'n' } else
    if c == 'O' { 'o' } else
    if c == 'P' { 'p' } else
    if c == 'Q' { 'q' } else
    if c == 'R' { 'r' } else
    if c == 'S' { 's' } else
    if c == 'T' { 't' } else
    if c == 'U' { 'u' } else
    if c == 'V' { 'v' } else
    if c == 'W' { 'w' } else
    if c == 'X' { 'x' } else
    if c == 'Y' { 'y' } else
    if c == 'Z' { 'z' } else
    { c }
}
/// The fixed table of named colors (CSS-like spellings).
#[verifier::opaque]
pub open spec fn named_color(s: Seq<char>) -> Option<(u8, u8, u8)> {
    if s == "aliceblue"@ { Some((0xf0 as u8, 0xf8 as u8, 0xff as u8)) } else
    if s == "antiquewhite"@ { Some((0xfa as u8, 0xeb as u8, 0xd7 as u8)) } else
    if s == "aqua"@ { Some((0x00 as u8, 0xff as u8, 0xff as u8)) } else
    if s == "aquamarine"@ { Some((0x7f as u8, 0xff as u8, 0xd4 as u8)) } else
    if s == "azure"@ { Some((0xf0 as u8, 0xff as u8, 0xff as u8)) } else
    if s == "beige"@ { Some((0xf5 as u8, 0xf5 as u8, 0xdc as u8)) } else
    if s == "bisque"@ { Some((0xff as u8, 0xe4 as u8, 0xc4 as u8)) } else
    if s == "black"@ { Some((0x00 as u8, 0x00 as u8, 0x00 as u8)) } else
    if s == "blanchedalmond"@ { Some((0xff as u8, 0xeb as u8, 0xcd as u8)) } else
    if s == "blue"@ { Some((0x00 as u8, 0x00 as u8, 0xff as u8)) } else
    if s == "blueviolet"@ { Some((0x8a as u8, 0x2b as u8, 0xe2 as u8)) } else
    if s == "brown"@ { Some((0xa5 as u8, 0x2a as u8, 0x2a as u8)) } else
    if s == "burlywood"@ { Some((0xde as u8, 0xb8 as u8, 0x87 as u8)) } else
    if s == "cadetblue"@ { Some((0x5f as u8, 0x9e as u8, 0xa0 as u8)) } else
    if s == "chartreuse"@ { Some((0x7f as u8, 0xff as u8, 0x00 as u8)) } else
    if s == "chocolate"@ { Some((0xd2 as u8, 0x69 as u8, 0x1e as u8)) } else
    if s == "coral"@ { Some((0xff as u8, 0x7f as u8, 0x50 as u8)) } else
    if s == "cornflowerblue"@ { Some((0x64 as u8, 0x95 as u8, 0xed as u8)) } else
    if s == "cornsilk"@ { Some((0xff as u8, 0xf8 as u8, 0xdc as u8)) } else
    if s == "crimson"@ { Some((0xdc as u8, 0x14 as u8, 0x3c as u8)) } else
    if s == "cyan"@ { Some((0x00 as u8, 0xff as u8, 0xff as u8)) } else
    if s == "darkblue"@ { Some((0x00 as u8, 0x00 as u8, 0x8b as u8)) } else
    if s == "darkcyan"@ { Some((0x00 as u8, 0x8b as u8, 0x8b as u8)) } else
    if s == "darkgoldenrod"@ { Some((0xb8 as u8, 0x86 as u8, 0x0b as u8)) } else
    if s == "darkgray"@ { Some((0xa9 as u8, 0xa9 as u8, 0xa9 as u8)) } else
    if s == "darkgreen"@ { Some((0x00 as u8, 0x64 as u8, 0x00 as u8)) } else
    if s == "darkgrey"@ { Some((0xa9 as u8, 0xa9 as u8, 0xa9 as u8)) } else
    if s == "darkkhaki"@ { Some((0xbd as u8, 0xb7 as u8, 0x6b as u8)) } else
    if s == "darkmagenta"@ { Some((0x8b as u8, 0x00 as u8, 0x8b as u8)) } else
    if s == "darkolivegreen"@ { Some((0x55 as u8, 0x6b as u8, 0x2f as u8)) } else
    if s == "darkorange"@ { Some((0xff as u8, 0x8c as u8, 0x00 as u8)) } else
    if s == "darkorchid"@ { Some((0x99 as u8, 0x32 as u8, 0xcc as u8)) } else
    if s == "darkred"@ { Some((0x8b as u8, 0x00 as u8, 0x00 as u8)) } else
    if s == "darksalmon"@ { Some((0xe9 as u8, 0x96 as u8, 0x7a as u8)) } else
    if s == "darkseagreen"@ { Some((0x8f as u8, 0xbc as u8, 0x8f as u8)) } else
    if s == "darkslateblue"@ { Some((0x48 as u8, 0x3d as u8, 0x8b as u8)) } else
    if s == "darkslategray"@ { Some((0x2f as u8, 0x4f as u8, 0x4f as u8)) } else
    if s == "darkslategrey"@ { Some((0x2f as u8, 0x4f as u8, 0x4f as u8)) } else
    if s == "darkturquoise"@ { Some((0x00 as u8, 0xce as u8, 0xd1 as u8)) } else
    if s == "darkviolet"@ { Some((0x94 as u8, 0x00 as u8, 0xd3 as u8)) } else
    if s == "deeppink"@ { Some((0xff as u8, 0x14 as u8, 0x93 as u8)) } else
    if s == "deepskyblue"@ { Some((0x00 as u8, 0xbf as u8, 0xff as u8)) } else
    if s == "dimgray"@ { Some((0x69 as u8, 0x69 as u8, 0x69 as u8)) } else
    if s == "dimgrey"@ { Some((0x69 as u8, 0x69 as u8, 0x69 as u8)) } else
    if s == "dodgerblue"@ { Some((0x1e as u8, 0x90 as u8, 0xff as u8)) } else
    if s == "firebrick"@ { Some((0xb2 as u8, 0x22 as u8, 0x22 as u8)) } else
    if s == "floralwhite"@ { Some((0xff as u8, 0xfa as u8, 0xf0 as u8)) } else
    if s == "forestgreen"@ { Some((0x22 as u8, 0x8b as u8, 0x22 as u8)) } else
    if s == "fuchsia"@ { Some((0xff as u8, 0x00 as u8, 0xff as u8)) } else
    if s == "gainsboro"@ { Some((0xdc as u8, 0xdc as u8, 0xdc as u8)) } else
    if s == "ghostwhite"@ { Some((0xf8 as u8, 0xf8 as u8, 0xff as u8)) } else
    if s == "gold"@ { Some((0xff as u8, 0xd7 as u8, 0x00 as u8)) } else
    if s == "goldenrod"@ { Some((0xda as u8, 0xa5 as u8, 0x20 as u8)) } else
    if s == "gray"@ { Some((0x80 as u8, 0x80 as u8, 0x80 as u8)) } else
    if s == "green"@ { Some((0x00 as u8, 0x80 as u8, 0x00 as u8)) } else
    if s == "greenyellow"@ { Some((0xad as u8, 0xff as u8, 0x2f as u8)) } else
    if s == "grey"@ { Some((0x80 as u8, 0x80 as u8, 0x80 as u8)) } else
    if s == "honeydew"@ { Some((0xf0 as u8, 0xff as u8, 0xf0 as u8)) } else
    if s == "hotpink"@ { Some((0xff as u8, 0x69 as u8, 0xb4 as u8)) } else
    if s == "indianred"@ { Some((0xcd as u8, 0x5c as u8, 0x5c as u8)) } else
    if s == "indigo"@ { Some((0x4b as u8, 0x00 as u8, 0x82 as u8)) } else
    if s == "ivory"@ { Some((0xff as u8, 0xff as u8, 0xf0 as u8)) } else
    if s == "khaki"@ { Some((0xf0 as u8, 0xe6 as u8, 0x8c as u8)) } else
    if s == "lavender"@ { Some((0xe6 as u8, 0xe6 as u8, 0xfa as u8)) } else
    if s == "lavenderblush"@ { Some((0xff as u8, 0xf0 as u8, 0xf5 as u8)) } else
    if s == "lawngreen"@ { Some((0x7c as u8, 0xfc as u8, 0x00 as u8)) } else
    if s == "lemonchiffon"@ { Some((0xff as u8, 0xfa as u8, 0xcd as u8)) } else
    if s == "lightblue"@ { Some((0xad as u8, 0xd8 as u8, 0xe6 as u8)) } else
    if s == "lightcoral"@ { Some((0xf0 as u8, 0x80 as u8, 0x80 as u8)) } else
    if s == "lightcyan"@ { Some((0xe0 as u8, 0xff as u8, 0xff as u8)) } else
    if s == "lightgoldenrodyellow"@ { Some((0xfa as u8, 0xfa as u8, 0xd2 as u8)) } else
    if s == "lightgray"@ { Some((0xd3 as u8, 0xd3 as u8, 0xd3 as u8)) } else
    if s == "lightgreen"@ { Some((0x90 as u8, 0xee as u8, 0x90 as u8)) } else
    if s == "lightgrey"@ { Some((0xd3 as u8, 0xd3 as u8, 0xd3 as u8)) } else
    if s == "lightpink"@ { Some((0xff as u8, 0xb6 as u8, 0xc1 as u8)) } else
    if s == "lightsalmon"@ { Some((0xff as u8, 0xa0 as u8, 0x7a as u8)) } else
    if s == "lightseagreen"@ { Some((0x20 as u8, 0xb2 as u8, 0xaa as u8)) } else
    if s == "lightskyblue"@ { Some((0x87 as u8, 0xce as u8, 0xfa as u8)) } else
    if s == "lightslategray"@ { Some((0x77 as u8, 0x88 as u8, 0x99 as u8)) } else
    if s == "lightslategrey"@ { Some((0x77 as u8, 0x88 as u8, 0x99 as u8)) } else
    if s == "lightsteelblue"@ { Some((0xb0 as u8, 0xc4 as u8, 0xde as u8)) } else
    if s == "lightyellow"@ { Some((0xff as u8, 0xff as u8, 0xe0 as u8)) } else
    if s == "lime"@ { Some((0x00 as u8, 0xff as u8, 0x00 as u8)) } else
    if s == "limegreen"@ { Some((0x32 as u8, 0xcd as u8, 0x32 as u8)) } else
    if s == "linen"@ { Some((0xfa as u8, 0xf0 as u8, 0xe6 as u8)) } else
    if s == "magenta"@ { Some((0xff as u8, 0x00 as u8, 0xff as u8)) } else
    if s == "maroon"@ { Some((0x80 as u8, 0x00 as u8, 0x00 as u8)) } else
    if s == "mediumaquamarine"@ { Some((0x66 as u8, 0xcd as u8, 0xaa as u8)) } else
    if s == "mediumblue"@ { Some((0x00 as u8, 0x00 as u8, 0xcd as u8)) } else
    if s == "mediumorchid"@ { Some((0xba as u8, 0x55 as u8, 0xd3 as u8)) } else
    if s == "mediumpurple"@ { Some((0x93 as u8, 0x70 as u8, 0xdb as u8)) } else
    if s == "mediumseagreen"@ { Some((0x3c as u8, 0xb3 as u8, 0x71 as u8)) } else
    if s == "mediumslateblue"@ { Some((0x7b as u8, 0x68 as u8, 0xee as u8)) } else
    if s == "mediumspringgreen"@ { Some((0x00 as u8, 0xfa as u8, 0x9a as u8)) } else
    if s == "mediumturquoise"@ { Some((0x48 as u8, 0xd1 as u8, 0xcc as u8)) } else
    if s == "mediumvioletred"@ { Some((0xc7 as u8, 0x15 as u8, 0x85 as u8)) } else
    if s == "midnightblue"@ { Some((0x19 as u8, 0x19 as u8, 0x70 as u8)) } else
    if s == "mintcream"@ { Some((0xf5 as u8, 0xff as u8, 0xfa as u8)) } else
    if s == "mistyrose"@ { Some((0xff as u8, 0xe4 as u8, 0xe1 as u8)) } else
    if s == "moccasin"@ { Some((0xff as u8, 0xe4 as u8, 0xb5 as u8)) } else
    if s == "navajowhite"@ { Some((0xff as u8, 0xde as u8, 0xad as u8)) } else
    if s == "navy"@ { Some((0x00 as u8, 0x00 as u8, 0x80 as u8)) } else
    if s == "oldlace"@ { Some((0xfd as u8, 0xf5 as u8, 0xe6 as u8)) } else
    if s == "olive"@ { Some((0x80 as u8, 0x80 as u8, 0x00 as u8)) } else
    if s == "olivedrab"@ { Some((0x6b as u8, 0x8e as u8, 0x23 as u8)) } else
    if s == "orange"@ { Some((0xff as u8, 0xa5 as u8, 0x00 as u8)) } else
    if s == "orangered"@ { Some((0xff as u8, 0x45 as u8, 0x00 as u8)) } else
    if s == "orchid"@ { Some((0xda as u8, 0x70 as u8, 0xd6 as u8)) } else
    if s == "palegoldenrod"@ { Some((0xee as u8, 0xe8 as u8, 0xaa as u8)) } else
    if s == "palegreen"@ { Some((0x98 as u8, 0xfb as u8, 0x98 as u8)) } else
    if s == "paleturquoise"@ { Some((0xaf as u8, 0xee as u8, 0xee as u8)) } else
    if s == "palevioletred"@ { Some((0xdb as u8, 0x70 as u8, 0x93 as u8)) } else
    if s == "papayawhip"@ { Some((0xff as u8, 0xef as u8, 0xd5 as u8)) } else
    if s == "peachpuff"@ { Some((0xff as u8, 0xda as u8, 0xb9 as u8)) } else
    if s == "peru"@ { Some((0xcd as u8, 0x85 as u8, 0x3f as u8)) } else
    if s == "pink"@ { Some((0xff as u8, 0xc0 as u8, 0xcb as u8)) } else
    if s == "plum"@ { Some((0xdd as u8, 0xa0 as u8, 0xdd as u8)) } else
    if s == "powderblue"@ { Some((0xb0 as u8, 0xe0 as u8, 0xe6 as u8)) } else
    if s == "purple"@ { Some((0x80 as u8, 0x00 as u8, 0x80 as u8)) } else
    if s == "rebeccapurple"@ { Some((0x66 as u8, 0x33 as u8, 0x99 as u8)) } else
    if s == "red"@ { Some((0xff as u8, 0x00 as u8, 0x00 as u8)) } else
    if s == "rosybrown"@ { Some((0xbc as u8, 0x8f as u8, 0x8f as u8)) } else
    if s == "royalblue"@ { Some((0x41 as u8, 0x69 as u8, 0xe1 as u8)) } else
    if s == "saddlebrown"@ { Some((0x8b as u8, 0x45 as u8, 0x13 as u8)) } else
    if s == "salmon"@ { Some((0xfa as u8, 0x80 as u8, 0x72 as u8)) } else
    if s == "sandybrown"@ { Some((0xf4 as u8, 0xa4 as u8, 0x60 as u8)) } else
    if s == "seagreen"@ { Some((0x2e as u8, 0x8b as u8, 0x57 as u8)) } else
    if s == "seashell"@ { Some((0xff as u8, 0xf5 as u8, 0xee as u8)) } else
    if s == "sienna"@ { Some((0xa0 as u8, 0x52 as u8, 0x2d as u8)) } else
    if s == "silver"@ { Some((0xc0 as u8, 0xc0 as u8, 0xc0 as u8)) } else
    if s == "skyblue"@ { Some((0x87 as u8, 0xce as u8, 0xeb as u8)) } else
    if s == "slateblue"@ { Some((0x6a as u8, 0x5a as u8, 0xcd as u8)) } else
    if s == "slategray"@ { Some((0x70 as u8, 0x80 as u8, 0x90 as u8)) } else
    if s == "slategrey"@ { Some((0x70 as u8, 0x80 as u8, 0x90 as u8)) } else
    if s == "snow"@ { Some((0xff as u8, 0xfa as u8, 0xfa as u8)) } else
    if s == "springgreen"@ { Some((0x00 as u8, 0xff as u8, 0x7f as u8)) } else
    if s == "steelblue"@ { Some((0x46 as u8, 0x82 as u8, 0xb4 as u8)) } else
    if s == "tan"@ { Some((0xd2 as u8, 0xb4 as u8, 0x8c as u8)) } else
    if s == "teal"@ { Some((0x00 as u8, 0x80 as u8, 0x80 as u8)) } else
    if s == "thistle"@ { Some((0xd8 as u8, 0xbf as u8, 0xd8 as u8)) } else
    if s == "tomato"@ { Some((0xff as u8, 0x63 as u8, 0x47 as u8)) } else
    if s == "turquoise"@ { Some((0x40 as u8, 0xe0 as u8, 0xd0 as u8)) } else
    if s == "violet"@ { Some((0xee as u8, 0x82 as u8, 0xee as u8)) } else
    if s == "wheat"@ { Some((0xf5 as u8, 0xde as u8, 0xb3 as u8)) } else
    if s == "white"@ { Some((0xff as u8, 0xff as u8, 0xff as u8)) } else
    if s == "whitesmoke"@ { Some((0xf5 as u8, 0xf5 as u8, 0xf5 as u8)) } else
    if s == "yellow"@ { Some((0xff as u8, 0xff as u8, 0x00 as u8)) } else
    if s == "yellowgreen"@ { Some((0x9a as u8, 0xcd as u8, 0x32 as u8)) } else
    { None }
}

/// Looks a lowercase spelling up in the named-color table.
#[verifier::rlimit(100)]
pub fn named_color_lookup(s: &str) -> (r: Option<(u8, u8, u8)>)
    ensures
        r == named_color(s@),
{
    proof {
        reveal(named_color);
    }
    if crate::util::str_eq(s, "aliceblue") { return Some((0xf0, 0xf8, 0xff)); }
    if crate::util::str_eq(s, "antiquewhite") { return Some((0xfa, 0xeb, 0xd7)); }
    if crate::util::str_eq(s, "aqua") { return Some((0x00, 0xff, 0xff)); }
    if crate::util::str_eq(s, "aquamarine") { return Some((0x7f, 0xff, 0xd4)); }
    if crate::util::str_eq(s, "azure") { return Some((0xf0, 0xff, 0xff)); }
    if crate::util::str_eq(s, "beige") { return Some((0xf5, 0xf5, 0xdc)); }
    if crate::util::str_eq(s, "bisque") { return Some((0xff, 0xe4, 0xc4)); }
    if crate::util::str_eq(s, "black") { return Some((0x00, 0x00, 0x00)); }
    if crate::util::str_eq(s, "blanchedalmond") { return Some((0xff, 0xeb, 0xcd)); }
    if crate::util::str_eq(s, "blue") { return Some((0x00, 0x00, 0xff)); }
    if crate::util::str_eq(s, "blueviolet") { return Some((0x8a, 0x2b, 0xe2)); }
    if crate::util::str_eq(s, "brown") { return Some((0xa5, 0x2a, 0x2a)); }
    if crate::util::str_eq(s, "burlywood") { return Some((0xde, 0xb8, 0x87)); }
    if crate::util::str_eq(s, "cadetblue") { return Some((0x5f, 0x9e, 0xa0)); }
    if crate::util::str_eq(s, "chartreuse") { return Some((0x7f, 0xff, 0x00)); }
    if crate::util::str_eq(s, "chocolate") { return Some((0xd2, 0x69, 0x1e)); }
    if crate::util::str_eq(s, "coral") { return Some((0xff, 0x7f, 0x50)); }
    if crate::util::str_eq(s, "cornflowerblue") { return Some((0x64, 0x95, 0xed)); }
    if crate::util::str_eq(s, "cornsilk") { return Some((0xff, 0xf8, 0xdc)); }
    if crate::util::str_eq(s, "crimson") { return Some((0xdc, 0x14, 0x3c)); }
    if crate::util::str_eq(s, "cyan") { return Some((0x00, 0xff, 0xff)); }
    if crate::util::str_eq(s, "darkblue") { return Some((0x00, 0x00, 0x8b)); }
    if crate::util::str_eq(s, "darkcyan") { return Some((0x00, 0x8b, 0x8b)); }
    if crate::util::str_eq(s, "darkgoldenrod") { return Some((0xb8, 0x86, 0x0b)); }
    if crate::util::str_eq(s, "darkgray") { return Some((0xa9, 0xa9, 0xa9)); }
    if crate::util::str_eq(s, "darkgreen") { return Some((0x00, 0x64, 0x00)); }
    if crate::util::str_eq(s, "darkgrey") { return Some((0xa9, 0xa9, 0xa9)); }
    if crate::util::str_eq(s, "darkkhaki") { return Some((0xbd, 0xb7, 0x6b)); }
    if crate::util::str_eq(s, "darkmagenta") { return Some((0x8b, 0x00, 0x8b)); }
    if crate::util::str_eq(s, "darkolivegreen") { return Some((0x55, 0x6b, 0x2f)); }
    if crate::util::str_eq(s, "darkorange") { return Some((0xff, 0x8c, 0x00)); }
    if crate::util::str_eq(s, "darkorchid") { return Some((0x99, 0x32, 0xcc)); }
    if crate::util::str_eq(s, "darkred") { return Some((0x8b, 0x00, 0x00)); }
    if crate::util::str_eq(s, "darksalmon") { return Some((0xe9, 0x96, 0x7a)); }
    if crate::util::str_eq(s, "darkseagreen") { return Some((0x8f, 0xbc, 0x8f)); }
    if crate::util::str_eq(s, "darkslateblue") { return Some((0x48, 0x3d, 0x8b)); }
    if crate::util::str_eq(s, "darkslategray") { return Some((0x2f, 0x4f, 0x4f)); }
    if crate::util::str_eq(s, "darkslategrey") { return Some((0x2f, 0x4f, 0x4f)); }
    if crate::util::str_eq(s, "darkturquoise") { return Some((0x00, 0xce, 0xd1)); }
    if crate::util::str_eq(s, "darkviolet") { return Some((0x94, 0x00, 0xd3)); }
    if crate::util::str_eq(s, "deeppink") { return Some((0xff, 0x14, 0x93)); }
    if crate::util::str_eq(s, "deepskyblue") { return Some((0x00, 0xbf, 0xff)); }
    if crate::util::str_eq(s, "dimgray") { return Some((0x69, 0x69, 0x69)); }
    if crate::util::str_eq(s, "dimgrey") { return Some((0x69, 0x69, 0x69)); }
    if crate::util::str_eq(s, "dodgerblue") { return Some((0x1e, 0x90, 0xff)); }
    if crate::util::str_eq(s, "firebrick") { return Some((0xb2, 0x22, 0x22)); }
    if crate::util::str_eq(s, "floralwhite") { return Some((0xff, 0xfa, 0xf0)); }
    if crate::util::str_eq(s, "forestgreen") { return Some((0x22, 0x8b, 0x22)); }
    if crate::util::str_eq(s, "fuchsia") { return Some((0xff, 0x00, 0xff)); }
    if crate::util::str_eq(s, "gainsboro") { return Some((0xdc, 0xdc, 0xdc)); }
    if crate::util::str_eq(s, "ghostwhite") { return Some((0xf8, 0xf8, 0xff)); }
    if crate::util::str_eq(s, "gold") { return Some((0xff, 0xd7, 0x00)); }
    if crate::util::str_eq(s, "goldenrod") { return Some((0xda, 0xa5, 0x20)); }
    if crate::util::str_eq(s, "gray") { return Some((0x80, 0x80, 0x80)); }
    if crate::util::str_eq(s, "green") { return Some((0x00, 0x80, 0x00)); }
    if crate::util::str_eq(s, "greenyellow") { return Some((0xad, 0xff, 0x2f)); }
    if crate::util::str_eq(s, "grey") { return Some((0x80, 0x80, 0x80)); }
    if crate::util::str_eq(s, "honeydew") { return Some((0xf0, 0xff, 0xf0)); }
    if crate::util::str_eq(s, "hotpink") { return Some((0xff, 0x69, 0xb4)); }
    if crate::util::str_eq(s, "indianred") { return Some((0xcd, 0x5c, 0x5c)); }
    if crate::util::str_eq(s, "indigo") { return Some((0x4b, 0x00, 0x82)); }
    if crate::util::str_eq(s, "ivory") { return Some((0xff, 0xff, 0xf0)); }
    if crate::util::str_eq(s, "khaki") { return Some((0xf0, 0xe6, 0x8c)); }
    if crate::util::str_eq(s, "lavender") { return Some((0xe6, 0xe6, 0xfa)); }
    if crate::util::str_eq(s, "lavenderblush") { return Some((0xff, 0xf0, 0xf5)); }
    if crate::util::str_eq(s, "lawngreen") { return Some((0x7c, 0xfc, 0x00)); }
    if crate::util::str_eq(s, "lemonchiffon") { return Some((0xff, 0xfa, 0xcd)); }
    if crate::util::str_eq(s, "lightblue") { return Some((0xad, 0xd8, 0xe6)); }
    if crate::util::str_eq(s, "lightcoral") { return Some((0xf0, 0x80, 0x80)); }
    if crate::util::str_eq(s, "lightcyan") { return Some((0xe0, 0xff, 0xff)); }
    if crate::util::str_eq(s, "lightgoldenrodyellow") { return Some((0xfa, 0xfa, 0xd2)); }
    if crate::util::str_eq(s, "lightgray") { return Some((0xd3, 0xd3, 0xd3)); }
    if crate::util::str_eq(s, "lightgreen") { return Some((0x90, 0xee, 0x90)); }
    if crate::util::str_eq(s, "lightgrey") { return Some((0xd3, 0xd3, 0xd3)); }
    if crate::util::str_eq(s, "lightpink") { return Some((0xff, 0xb6, 0xc1)); }
    if crate::util::str_eq(s, "lightsalmon") { return Some((0xff, 0xa0, 0x7a)); }
    if crate::util::str_eq(s, "lightseagreen") { return Some((0x20, 0xb2, 0xaa)); }
    if crate::util::str_eq(s, "lightskyblue") { return Some((0x87, 0xce, 0xfa)); }
    if crate::util::str_eq(s, "lightslategray") { return Some((0x77, 0x88, 0x99)); }
    if crate::util::str_eq(s, "lightslategrey") { return Some((0x77, 0x88, 0x99)); }
    if crate::util::str_eq(s, "lightsteelblue") { return Some((0xb0, 0xc4, 0xde)); }
    if crate::util::str_eq(s, "lightyellow") { return Some((0xff, 0xff, 0xe0)); }
    if crate::util::str_eq(s, "lime") { return Some((0x00, 0xff, 0x00)); }
    if crate::util::str_eq(s, "limegreen") { return Some((0x32, 0xcd, 0x32)); }
    if crate::util::str_eq(s, "linen") { return Some((0xfa, 0xf0, 0xe6)); }
    if crate::util::str_eq(s, "magenta") { return Some((0xff, 0x00, 0xff)); }
    if crate::util::str_eq(s, "maroon") { return Some((0x80, 0x00, 0x00)); }
    if crate::util::str_eq(s, "mediumaquamarine") { return Some((0x66, 0xcd, 0xaa)); }
    if crate::util::str_eq(s, "mediumblue") { return Some((0x00, 0x00, 0xcd)); }
    if crate::util::str_eq(s, "mediumorchid") { return Some((0xba, 0x55, 0xd3)); }
    if crate::util::str_eq(s, "mediumpurple") { return Some((0x93, 0x70, 0xdb)); }
    if crate::util::str_eq(s, "mediumseagreen") { return Some((0x3c, 0xb3, 0x71)); }
    if crate::util::str_eq(s, "mediumslateblue") { return Some((0x7b, 0x68, 0xee)); }
    if crate::util::str_eq(s, "mediumspringgreen") { return Some((0x00, 0xfa, 0x9a)); }
    if crate::util::str_eq(s, "mediumturquoise") { return Some((0x48, 0xd1, 0xcc)); }
    if crate::util::str_eq(s, "mediumvioletred") { return Some((0xc7, 0x15, 0x85)); }
    if crate::util::str_eq(s, "midnightblue") { return Some((0x19, 0x19, 0x70)); }
    if crate::util::str_eq(s, "mintcream") { return Some((0xf5, 0xff, 0xfa)); }
    if crate::util::str_eq(s, "mistyrose") { return Some((0xff, 0xe4, 0xe1)); }
    if crate::util::str_eq(s, "moccasin") { return Some((0xff, 0xe4, 0xb5)); }
    if crate::util::str_eq(s, "navajowhite") { return Some((0xff, 0xde, 0xad)); }
    if crate::util::str_eq(s, "navy") { return Some((0x00, 0x00, 0x80)); }
    if crate::util::str_eq(s, "oldlace") { return Some((0xfd, 0xf5, 0xe6)); }
    if crate::util::str_eq(s, "olive") { return Some((0x80, 0x80, 0x00)); }
    if crate::util::str_eq(s, "olivedrab") { return Some((0x6b, 0x8e, 0x23)); }
    if crate::util::str_eq(s, "orange") { return Some((0xff, 0xa5, 0x00)); }
    if crate::util::str_eq(s, "orangered") { return Some((0xff, 0x45, 0x00)); }
    if crate::util::str_eq(s, "orchid") { return Some((0xda, 0x70, 0xd6)); }
    if crate::util::str_eq(s, "palegoldenrod") { return Some((0xee, 0xe8, 0xaa)); }
    if crate::util::str_eq(s, "palegreen") { return Some((0x98, 0xfb, 0x98)); }
    if crate::util::str_eq(s, "paleturquoise") { return Some((0xaf, 0xee, 0xee)); }
    if crate::util::str_eq(s, "palevioletred") { return Some((0xdb, 0x70, 0x93)); }
    if crate::util::str_eq(s, "papayawhip") { return Some((0xff, 0xef, 0xd5)); }
    if crate::util::str_eq(s, "peachpuff") { return Some((0xff, 0xda, 0xb9)); }
    if crate::util::str_eq(s, "peru") { return Some((0xcd, 0x85, 0x3f)); }
    if crate::util::str_eq(s, "pink") { return Some((0xff, 0xc0, 0xcb)); }
    if crate::util::str_eq(s, "plum") { return Some((0xdd, 0xa0, 0xdd)); }
    if crate::util::str_eq(s, "powderblue") { return Some((0xb0, 0xe0, 0xe6)); }
    if crate::util::str_eq(s, "purple") { return Some((0x80, 0x00, 0x80)); }
    if crate::util::str_eq(s, "rebeccapurple") { return Some((0x66, 0x33, 0x99)); }
    if crate::util::str_eq(s, "red") { return Some((0xff, 0x00, 0x00)); }
    if crate::util::str_eq(s, "rosybrown") { return Some((0xbc, 0x8f, 0x8f)); }
    if crate::util::str_eq(s, "royalblue") { return Some((0x41, 0x69, 0xe1)); }
    if crate::util::str_eq(s, "saddlebrown") { return Some((0x8b, 0x45, 0x13)); }
    if crate::util::str_eq(s, "salmon") { return Some((0xfa, 0x80, 0x72)); }
    if crate::util::str_eq(s, "sandybrown") { return Some((0xf4, 0xa4, 0x60)); }
    if crate::util::str_eq(s, "seagreen") { return Some((0x2e, 0x8b, 0x57)); }
    if crate::util::str_eq(s, "seashell") { return Some((0xff, 0xf5, 0xee)); }
    if crate::util::str_eq(s, "sienna") { return Some((0xa0, 0x52, 0x2d)); }
    if crate::util::str_eq(s, "silver") { return Some((0xc0, 0xc0, 0xc0)); }
    if crate::util::str_eq(s, "skyblue") { return Some((0x87, 0xce, 0xeb)); }
    if crate::util::str_eq(s, "slateblue") { return Some((0x6a, 0x5a, 0xcd)); }
    if crate::util::str_eq(s, "slategray") { return Some((0x70, 0x80, 0x90)); }
    if crate::util::str_eq(s, "slategrey") { return Some((0x70, 0x80, 0x90)); }
    if crate::util::str_eq(s, "snow") { return Some((0xff, 0xfa, 0xfa)); }
    if crate::util::str_eq(s, "springgreen") { return Some((0x00, 0xff, 0x7f)); }
    if crate::util::str_eq(s, "steelblue") { return Some((0x46, 0x82, 0xb4)); }
    if crate::util::str_eq(s, "tan") { return Some((0xd2, 0xb4, 0x8c)); }
    if crate::util::str_eq(s, "teal") { return Some((0x00, 0x80, 0x80)); }
    if crate::util::str_eq(s, "thistle") { return Some((0xd8, 0xbf, 0xd8)); }
    if crate::util::str_eq(s, "tomato") { return Some((0xff, 0x63, 0x47)); }
    if crate::util::str_eq(s, "turquoise") { return Some((0x40, 0xe0, 0xd0)); }
    if crate::util::str_eq(s, "violet") { return Some((0xee, 0x82, 0xee)); }
    if crate::util::str_eq(s, "wheat") { return Some((0xf5, 0xde, 0xb3)); }
    if crate::util::str_eq(s, "white") { return Some((0xff, 0xff, 0xff)); }
    if crate::util::str_eq(s, "whitesmoke") { return Some((0xf5, 0xf5, 0xf5)); }
    if crate::util::str_eq(s, "yellow") { return Some((0xff, 0xff, 0x00)); }
    if crate::util::str_eq(s, "yellowgreen") { return Some((0x9a, 0xcd, 0x32)); }
    None
}

impl AnsiColor {
    /// The SGR foreground code of this slot.
    pub fn code(self) -> (r: i32)
        ensures
            r == ansi_code(self),
    {
        match self {
            AnsiColor::Default => 39,
            AnsiColor::Black => 30,
            AnsiColor::Red => 31,
            AnsiColor::Green => 32,
            AnsiColor::Yellow => 33,
            AnsiColor::Blue => 34,
            AnsiColor::Magenta => 35,
            AnsiColor::Cyan => 36,
            AnsiColor::White => 37,
            AnsiColor::BrightBlack => 90,
            AnsiColor::BrightRed => 91,
            AnsiColor::BrightGreen => 92,
            AnsiColor::BrightYellow => 93,
            AnsiColor::BrightBlue => 94,
            AnsiColor::BrightMagenta => 95,
            AnsiColor::BrightCyan => 96,
            AnsiColor::BrightWhite => 97,
        }
    }

    /// The SGR background code of this slot.
    pub fn background_code(self) -> (r: i32)
        ensures
            r == ansi_background_code(self),
    {
        match self {
            AnsiColor::Default => 49,
            AnsiColor::Black => 40,
            AnsiColor::Red => 41,
            AnsiColor::Green => 42,
            AnsiColor::Yellow => 43,
            AnsiColor::Blue => 44,
            AnsiColor::Magenta => 45,
            AnsiColor::Cyan => 46,
            AnsiColor::White => 47,
            AnsiColor::BrightBlack => 100,
            AnsiColor::BrightRed => 101,
            AnsiColor::BrightGreen => 102,
            AnsiColor::BrightYellow => 103,
            AnsiColor::BrightBlue => 104,
            AnsiColor::BrightMagenta => 105,
            AnsiColor::BrightCyan => 106,
            AnsiColor::BrightWhite => 107,
        }
    }

    /// The display RGB approximation of this slot.
    pub fn rgb(self) -> (r: (u8, u8, u8))
        ensures
            r == ansi_rgb(self),
    {
        match self {
            AnsiColor::Default => (0, 0, 0),
            AnsiColor::Black => (0, 0, 0),
            AnsiColor::Red => (205, 0, 0),
            AnsiColor::Green => (0, 205, 0),
            AnsiColor::Yellow => (205, 205, 0),
            AnsiColor::Blue => (0, 0, 238),
            AnsiColor::Magenta => (205, 0, 205),
            AnsiColor::Cyan => (0, 205, 205),
            AnsiColor::White => (229, 229, 229),
            AnsiColor::BrightBlack => (127, 127, 127),
            AnsiColor::BrightRed => (255, 0, 0),
            AnsiColor::BrightGreen => (0, 255, 0),
            AnsiColor::BrightYellow => (255, 255, 0),
            AnsiColor::BrightBlue => (92, 92, 255),
            AnsiColor::BrightMagenta => (255, 0, 255),
            AnsiColor::BrightCyan => (0, 255, 255),
            AnsiColor::BrightWhite => (255, 255, 255),
        }
    }

    /// Recognizes the spelled-out ANSI color names and their aliases.
    pub fn try_from_str(s: &str) -> (r: Option<Self>)
        ensures
            r == ansi_from_name(s@),
    {
        if str_eq(s, "ansidefault") { return Some(AnsiColor::Default); }
        if str_eq(s, "ansiblack") { return Some(AnsiColor::Black); }
        if str_eq(s, "ansired") { return Some(AnsiColor::Red); }
        if str_eq(s, "ansidarkred") { return Some(AnsiColor::Red); }
        if str_eq(s, "ansigreen") { return Some(AnsiColor::Green); }
        if str_eq(s, "ansidarkgreen") { return Some(AnsiColor::Green); }
        if str_eq(s, "ansiyellow") { return Some(AnsiColor::Yellow); }
        if str_eq(s, "ansibrown") { return Some(AnsiColor::Yellow); }
        if str_eq(s, "ansiblue") { return Some(AnsiColor::Blue); }
        if str_eq(s, "ansidarkblue") { return Some(AnsiColor::Blue); }
        if str_eq(s, "ansimagenta") { return Some(AnsiColor::Magenta); }
        if str_eq(s, "ansipurple") { return Some(AnsiColor::Magenta); }
        if str_eq(s, "ansicyan") { return Some(AnsiColor::Cyan); }
        if str_eq(s, "ansiteal") { return Some(AnsiColor::Cyan); }
        if str_eq(s, "ansiwhite") { return Some(AnsiColor::White); }
        if str_eq(s, "ansilightgray") { return Some(AnsiColor::White); }
        if str_eq(s, "ansibrightblack") { return Some(AnsiColor::BrightBlack); }
        if str_eq(s, "ansidarkgray") { return Some(AnsiColor::BrightBlack); }
        if str_eq(s, "ansibrightred") { return Some(AnsiColor::BrightRed); }
        if str_eq(s, "ansibrightgreen") { return Some(AnsiColor::BrightGreen); }
        if str_eq(s, "ansibrightyellow") { return Some(AnsiColor::BrightYellow); }
        if str_eq(s, "ansibrightblue") { return Some(AnsiColor::BrightBlue); }
        if str_eq(s, "ansibrightmagenta") { return Some(AnsiColor::BrightMagenta); }
        if str_eq(s, "ansifuchsia") { return Some(AnsiColor::BrightMagenta); }
        if str_eq(s, "ansibrightcyan") { return Some(AnsiColor::BrightCyan); }
        if str_eq(s, "ansiturquoise") { return Some(AnsiColor::BrightCyan); }
        if str_eq(s, "ansibrightwhite") { return Some(AnsiColor::BrightWhite); }
        None
    }

    /// The nearest ANSI slot to an RGB triple under squared distance, with
    /// saturated colors excluding the gray-scale slots and callers able to
    /// exclude more.
    pub fn closest_from_rgb(r: u8, g: u8, b: u8, exclude: &[AnsiColor]) -> (res: AnsiColor)
        ensures
            res == closest_ansi_spec(r as int, g as int, b as int, exclude@),
    {
        let ri: i32 = r as i32;
        let gi: i32 = g as i32;
        let bi: i32 = b as i32;
        let sat_rg: i32 = if ri >= gi { ri - gi } else { gi - ri };
        let sat_gb: i32 = if gi >= bi { gi - bi } else { bi - gi };
        let sat_br: i32 = if bi >= ri { bi - ri } else { ri - bi };
        let saturation: i32 = sat_rg + sat_gb + sat_br;

        let mut exclusions: Vec<AnsiColor> = Vec::new();
        let mut i: usize = 0;
        while i < exclude.len()
            invariant
                i <= exclude.len(),
                exclusions@ == exclude@.take(i as int),
            decreases exclude.len() - i,
        {
            exclusions.push(exclude[i]);
            proof {
                assert(exclude@.take(i + 1) =~= exclude@.take(i as int).push(exclude@[i as int]));
            }
            i = i + 1;
        }
        proof {
            assert(exclude@.take(exclude@.len() as int) =~= exclude@);
        }
        if saturation > 30 {
            exclusions.push(AnsiColor::White);
            exclusions.push(AnsiColor::BrightBlack);
            exclusions.push(AnsiColor::Black);
        }
        proof {
            assert(exclusions@ =~= full_exclusions(
                exclude@,
                r as int,
                g as int,
                b as int,
            ));
        }

        let mut cands: Vec<AnsiColor> = Vec::new();
        cands.push(AnsiColor::Red);
        cands.push(AnsiColor::Green);
        cands.push(AnsiColor::Blue);
        cands.push(AnsiColor::Yellow);
        cands.push(AnsiColor::Magenta);
        cands.push(AnsiColor::Cyan);
        cands.push(AnsiColor::White);
        cands.push(AnsiColor::BrightRed);
        cands.push(AnsiColor::BrightGreen);
        cands.push(AnsiColor::BrightBlue);
        cands.push(AnsiColor::BrightYellow);
        cands.push(AnsiColor::BrightMagenta);
        cands.push(AnsiColor::BrightCyan);
        cands.push(AnsiColor::BrightWhite);
        cands.push(AnsiColor::Black);
        cands.push(AnsiColor::BrightBlack);
        proof {
            assert(cands@ =~= ansi_candidates());
        }

        let mut best = AnsiColor::Default;
        let mut bestd: i32 = 257 * 257 * 3;
        let mut j: usize = 0;
        proof {
            assert(ansi_candidates().skip(0) =~= ansi_candidates());
        }
        while j < cands.len()
            invariant
                j <= cands@.len(),
                cands@ == ansi_candidates(),
                ri == r as i32,
                gi == g as i32,
                bi == b as i32,
                exclusions@ == full_exclusions(exclude@, r as int, g as int, b as int),
                0 <= bestd <= (257 * 257 * 3) as int,
                closest_fold(
                    ansi_candidates().skip(j as int),
                    exclusions@,
                    r as int,
                    g as int,
                    b as int,
                    best,
                    bestd as int,
                ) == closest_fold(
                    ansi_candidates(),
                    exclusions@,
                    r as int,
                    g as int,
                    b as int,
                    AnsiColor::Default,
                    (257 * 257 * 3) as int,
                ),
            decreases cands@.len() - j,
        {
            let c = cands[j];
            let ghost pre = ansi_candidates().skip(j as int);
            proof {
                assert(pre[0] == c);
                assert(pre.drop_first() =~= ansi_candidates().skip(j + 1));
            }
            if !ansi_list_contains(&exclusions, c) {
                let (r2, g2, b2) = c.rgb();
                let dr: i32 = ri - r2 as i32;
                let dg: i32 = gi - g2 as i32;
                let db: i32 = bi - b2 as i32;
                proof {
                    assert(0 <= dr * dr <= 255 * 255) by (nonlinear_arith)
                        requires
                            -255 <= dr <= 255,
                    ;
                    assert(0 <= dg * dg <= 255 * 255) by (nonlinear_arith)
                        requires
                            -255 <= dg <= 255,
                    ;
                    assert(0 <= db * db <= 255 * 255) by (nonlinear_arith)
                        requires
                            -255 <= db <= 255,
                    ;
                }
                let score: i32 = dr * dr + dg * dg + db * db;
                proof {
                    assert(score == dist2(c, r as int, g as int, b as int));
                }
                if score < bestd {
                    best = c;
                    bestd = score;
                }
            }
            j = j + 1;
        }
        proof {
            assert(ansi_candidates().skip(cands@.len() as int) =~= Seq::<AnsiColor>::empty());
        }
        best
    }
}

/// Whether a list of ANSI slots holds the given one.
pub fn ansi_list_contains(v: &Vec<AnsiColor>, c: AnsiColor) -> (r: bool)
    ensures
        r == v@.contains(c),
{
    let mut i: usize = 0;
    while i < v.len()
        invariant
            i <= v@.len(),
            forall|k: int| 0 <= k < i ==> v@[k] != c,
        decreases v@.len() - i,
    {
        if v[i] == c {
            return true;
        }
        i = i + 1;
    }
    proof {
        assert(forall|k: int| 0 <= k < v@.len() ==> v@[k] != c);
    }
    false
}

/// The running minimum of the nearest-ANSI search over a candidate list:
/// a candidate replaces the best seen so far exactly when it is not excluded
/// and strictly closer.
pub open spec fn closest_fold(
    cands: Seq<AnsiColor>,
    excl: Seq<AnsiColor>,
    r: int,
    g: int,
    b: int,
    best: AnsiColor,
    bestd: int,
) -> (AnsiColor, int)
    decreases cands.len(),
{
    if cands.len() == 0 {
        (best, bestd)
    } else {
        let c = cands[0];
        if !excl.contains(c) && dist2(c, r, g, b) < bestd {
            closest_fold(cands.drop_first(), excl, r, g, b, c, dist2(c, r, g, b))
        } else {
            closest_fold(cands.drop_first(), excl, r, g, b, best, bestd)
        }
    }
}

/// The exclusion set actually searched: the caller's exclusions, with the
/// gray-scale slots added for saturated colors.
pub open spec fn full_exclusions(excl: Seq<AnsiColor>, r: int, g: int, b: int) -> Seq<AnsiColor> {
    let saturation = iabs(r - g) + iabs(g - b) + iabs(b - r);
    if saturation > 30 {
        excl + seq![AnsiColor::White, AnsiColor::BrightBlack, AnsiColor::Black]
    } else {
        excl
    }
}

pub open spec fn iabs(x: int) -> int {
    if x < 0 {
        -x
    } else {
        x
    }
}

/// What the nearest-ANSI search returns.
pub open spec fn closest_ansi_spec(r: int, g: int, b: int, excl: Seq<AnsiColor>) -> AnsiColor {
    closest_fold(
        ansi_candidates(),
        full_exclusions(excl, r, g, b),
        r,
        g,
        b,
        AnsiColor::Default,
        (257 * 257 * 3) as int,
    ).0
}

proof fn lemma_closest_fold_props(
    cands: Seq<AnsiColor>,
    excl: Seq<AnsiColor>,
    r: int,
    g: int,
    b: int,
    best: AnsiColor,
    bestd: int,
)
    ensures
        ({
            let (rc, rd) = closest_fold(cands, excl, r, g, b, best, bestd);
            &&& rd <= bestd
            &&& forall|i: int|
                0 <= i < cands.len() && !excl.contains(cands[i]) ==> rd <= dist2(
                    cands[i],
                    r,
                    g,
                    b,
                )
            &&& ((rc == best && rd == bestd) || (cands.contains(rc) && !excl.contains(rc) && rd
                == dist2(rc, r, g, b)))
        }),
    decreases cands.len(),
{
    if cands.len() == 0 {
    } else {
        let c = cands[0];
        let rest = cands.drop_first();
        assert(forall|i: int| 1 <= i < cands.len() ==> cands[i] == rest[i - 1]);
        if !excl.contains(c) && dist2(c, r, g, b) < bestd {
            lemma_closest_fold_props(rest, excl, r, g, b, c, dist2(c, r, g, b));
            let (rc, rd) = closest_fold(rest, excl, r, g, b, c, dist2(c, r, g, b));
            if rc == c && rd == dist2(c, r, g, b) {
                assert(cands.contains(rc)) by {
                    assert(cands[0] == rc);
                }
            } else {
                assert(rest.contains(rc));
                let w = choose|w: int| 0 <= w < rest.len() && rest[w] == rc;
                assert(cands[w + 1] == rc);
                assert(cands.contains(rc));
            }
        } else {
            lemma_closest_fold_props(rest, excl, r, g, b, best, bestd);
            let (rc, rd) = closest_fold(rest, excl, r, g, b, best, bestd);
            if !(rc == best && rd == bestd) {
                assert(rest.contains(rc));
                let w = choose|w: int| 0 <= w < rest.len() && rest[w] == rc;
                assert(cands[w + 1] == rc);
                assert(cands.contains(rc));
            }
        }
    }
}

/// Nearest-ANSI minimality: for any color and exclusion set that leaves at
/// least one candidate, the chosen slot is a non-excluded candidate whose
/// squared distance is no larger than that of any other non-excluded
/// candidate.  The choice is a function of the inputs alone, so repeated
/// calls are stable.
pub proof fn lemma_nearest_ansi_minimal(r: int, g: int, b: int, excl: Seq<AnsiColor>)
    requires
        0 <= r < 256,
        0 <= g < 256,
        0 <= b < 256,
        exists|i: int|
            0 <= i < ansi_candidates().len() && !full_exclusions(excl, r, g, b).contains(
                ansi_candidates()[i],
            ),
    ensures
        ({
            let w = closest_ansi_spec(r, g, b, excl);
            &&& ansi_candidates().contains(w)
            &&& !full_exclusions(excl, r, g, b).contains(w)
            &&& forall|i: int|
                0 <= i < ansi_candidates().len() && !full_exclusions(excl, r, g, b).contains(
                    ansi_candidates()[i],
                ) ==> dist2(w, r, g, b) <= dist2(ansi_candidates()[i], r, g, b)
        }),
{
    let fx = full_exclusions(excl, r, g, b);
    lemma_closest_fold_props(ansi_candidates(), fx, r, g, b, AnsiColor::Default, (257 * 257 * 3) as int);
    let (rc, rd) = closest_fold(ansi_candidates(), fx, r, g, b, AnsiColor::Default, (257 * 257 * 3) as int);
    let wi = choose|i: int|
        0 <= i < ansi_candidates().len() && !fx.contains(ansi_candidates()[i]);
    let wc = ansi_candidates()[wi];
    assert(dist2(wc, r, g, b) < 257 * 257 * 3) by {
        let (r2, g2, b2) = ansi_rgb(wc);
        assert((r - r2) * (r - r2) <= 255 * 255) by (nonlinear_arith)
            requires
                -255 <= r - r2 <= 255,
        ;
        assert((g - g2) * (g - g2) <= 255 * 255) by (nonlinear_arith)
            requires
                -255 <= g - g2 <= 255,
        ;
        assert((b - b2) * (b - b2) <= 255 * 255) by (nonlinear_arith)
            requires
                -255 <= b - b2 <= 255,
        ;
    };
    assert(rd <= dist2(wc, r, g, b));
    assert(!(rc == AnsiColor::Default && rd == 257 * 257 * 3));
}

/// A color as the style system knows it: the terminal default, one of the
/// ANSI slots, or a 24-bit RGB triple.
#[derive(Debug, Clone, Copy, PartialEq, Eq, Structural, Hash)]
pub enum Color {
    Default,
    Ansi(AnsiColor),
    Hex(u8, u8, u8),
}

impl Default for Color {
    fn default() -> (r: Self)
        ensures
            r == Color::Default,
    {
        Color::Default
    }
}

pub open spec fn is_hex_digit(c: char) -> bool {
    (48 <= c as int && c as int <= 57) || (97 <= c as int && c as int <= 102) || (65 <= c as int
        && c as int <= 70)
}

pub open spec fn hex_val(c: char) -> int {
    if 48 <= c as int && c as int <= 57 {
        c as int - 48
    } else if 97 <= c as int && c as int <= 102 {
        c as int - 87
    } else {
        c as int - 55
    }
}

/// What `Color` parsing accepts: ANSI names, the named-color table (after
/// ASCII lowercasing), `#RRGGBB`, `#RGB` with digits doubled, and the empty
/// or `default` spellings for the terminal default.
#[verifier::opaque]
pub open spec fn parse_color(s: Seq<char>) -> Option<Color> {
    match ansi_from_name(s) {
        Some(a) => Some(Color::Ansi(a)),
        None => match named_color(ascii_lower(s)) {
            Some(t) => Some(Color::Hex(t.0, t.1, t.2)),
            None => if s.len() == 7 && s[0] == '#' {
                if is_hex_digit(s[1]) && is_hex_digit(s[2]) && is_hex_digit(s[3]) && is_hex_digit(
                    s[4],
                ) && is_hex_digit(s[5]) && is_hex_digit(s[6]) {
                    Some(
                        Color::Hex(
                            (hex_val(s[1]) * 16 + hex_val(s[2])) as u8,
                            (hex_val(s[3]) * 16 + hex_val(s[4])) as u8,
                            (hex_val(s[5]) * 16 + hex_val(s[6])) as u8,
                        ),
                    )
                } else {
                    None
                }
            } else if s.len() == 4 && s[0] == '#' {
                if is_hex_digit(s[1]) && is_hex_digit(s[2]) && is_hex_digit(s[3]) {
                    Some(
                        Color::Hex(
                            (hex_val(s[1]) * 17) as u8,
                            (hex_val(s[2]) * 17) as u8,
                            (hex_val(s[3]) * 17) as u8,
                        ),
                    )
                } else {
                    None
                }
            } else if s == "default"@ || s.len() == 0 {
                Some(Color::Default)
            } else {
                None
            },
        },
    }
}

/// The display RGB of a color; the terminal default reports black only so
/// that distance math is total (it is emitted as SGR 39/49, never as RGB).
pub open spec fn color_rgb(c: Color) -> (u8, u8, u8) {
    match c {
        Color::Default => (0 as u8, 0 as u8, 0 as u8),
        Color::Ansi(a) => ansi_rgb(a),
        Color::Hex(r, g, b) => (r, g, b),
    }
}

/// The ANSI slot a color maps to at 4-bit depth, with no extra exclusions.
pub open spec fn color_closest_ansi(c: Color) -> AnsiColor {
    match c {
        Color::Default => AnsiColor::Default,
        Color::Ansi(a) => a,
        Color::Hex(r, g, b) => closest_ansi_spec(r as int, g as int, b as int, Seq::empty()),
    }
}

/// One hexadecimal digit's value, if the character is one.
pub fn hex_digit_val(c: char) -> (r: Option<u8>)
    ensures
        is_hex_digit(c) ==> r == Some(hex_val(c) as u8) && hex_val(c) <= 15,
        !is_hex_digit(c) ==> r is None,
{
    let v = c as u32;
    if v >= 48 && v <= 57 {
        Some((v - 48) as u8)
    } else if v >= 97 && v <= 102 {
        Some((v - 87) as u8)
    } else if v >= 65 && v <= 70 {
        Some((v - 55) as u8)
    } else {
        None
    }
}

impl Color {
    /// Parses a color spelling; `None` on anything the rules do not cover.
    #[verifier::rlimit(50)]
    pub fn parse(s: &str) -> (r: Option<Self>)
        ensures
            r == parse_color(s@),
    {
        proof {
            reveal(parse_color);
        }
        if let Some(a) = AnsiColor::try_from_str(s) {
            return Some(Color::Ansi(a));
        }
        let lower = ascii_lowercase_str(s);
        if let Some((nr, ng, nb)) = named_color_lookup(lower.as_str()) {
            return Some(Color::Hex(nr, ng, nb));
        }
        let cv = crate::util::str_chars(s);
        if cv.len() == 7 && cv[0] == '#' {
            let d1 = hex_digit_val(cv[1]);
            let d2 = hex_digit_val(cv[2]);
            let d3 = hex_digit_val(cv[3]);
            let d4 = hex_digit_val(cv[4]);
            let d5 = hex_digit_val(cv[5]);
            let d6 = hex_digit_val(cv[6]);
            if let (Some(h1), Some(h2), Some(h3), Some(h4), Some(h5), Some(h6)) = (
                d1,
                d2,
                d3,
                d4,
                d5,
                d6,
            ) {
                return Some(Color::Hex(h1 * 16 + h2, h3 * 16 + h4, h5 * 16 + h6));
            }
            return None;
        }
        if cv.len() == 4 && cv[0] == '#' {
            let d1 = hex_digit_val(cv[1]);
            let d2 = hex_digit_val(cv[2]);
            let d3 = hex_digit_val(cv[3]);
            if let (Some(h1), Some(h2), Some(h3)) = (d1, d2, d3) {
                return Some(Color::Hex(h1 * 17, h2 * 17, h3 * 17));
            }
            return None;
        }
        if str_eq(s, "default") || cv.len() == 0 {
            return Some(Color::Default);
        }
        None
    }

    /// The display RGB of this color.
    pub fn rgb(self) -> (r: (u8, u8, u8))
        ensures
            r == color_rgb(self),
    {
        match self {
            Color::Default => (0, 0, 0),
            Color::Ansi(a) => a.rgb(),
            Color::Hex(r, g, b) => (r, g, b),
        }
    }

    /// The ANSI slot this color maps to at 4-bit depth.
    pub fn closest_ansi(self) -> (r: AnsiColor)
        ensures
            r == color_closest_ansi(self),
    {
        match self {
            Color::Default => AnsiColor::Default,
            Color::Ansi(a) => a,
            Color::Hex(r, g, b) => {
                let empty: Vec<AnsiColor> = Vec::new();
                proof {
                    assert(empty@ =~= Seq::<AnsiColor>::empty());
                }
                AnsiColor::closest_from_rgb(r, g, b, empty.as_slice())
            },
        }
    }
}

/// The spelling that failed to parse as a color.
#[derive(Debug)]
pub struct ColorParseError(pub String);

impl core::str::FromStr for Color {
    type Err = ColorParseError;

    fn from_str(s: &str) -> Result<Self, ColorParseError> {
        match Color::parse(s) {
            Some(c) => Ok(c),
            None => Err(ColorParseError(s.to_owned())),
        }
    }
}

impl core::str::FromStr for AnsiColor {
    type Err = ColorParseError;

    fn from_str(s: &str) -> Result<Self, ColorParseError> {
        match AnsiColor::try_from_str(s) {
            Some(c) => Ok(c),
            None => Err(ColorParseError(s.to_owned())),
        }
    }
}

} // verus!
