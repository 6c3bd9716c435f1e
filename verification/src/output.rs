use vstd::prelude::*;

use crate::color::{
    ansi_background_code, ansi_code, closest_ansi_spec, color_closest_ansi, AnsiColor, Color,
};
use crate::style::{Attrs, AttrSetting};
use crate::util::{dec_str, usize_to_string};

verus! {

/// A terminal size in character cells.
#[derive(Debug, Clone, Copy, PartialEq, Eq, Structural)]
pub struct Size {
    pub rows: usize,
    pub columns: usize,
}

/// The cursor shapes a VT100-family terminal can be asked for.
#[derive(Debug, Clone, Copy, PartialEq, Eq, Structural)]
pub enum CursorShape {
    NeverChange,
    Block,
    Beam,
    Underline,
    BlinkingBlock,
    BlinkingBeam,
    BlinkingUnderline,
}

impl Default for CursorShape {
    fn default() -> (r: Self)
        ensures
            r == CursorShape::NeverChange,
    {
        CursorShape::NeverChange
    }
}

/// The four color depths the attribute serializer can target; `Default`
/// means 8-bit 256-color output.
#[derive(Debug, Clone, Copy, PartialEq, Eq, Structural)]
pub enum ColorDepth {
    Monochrome,
    Ansi,
    Default,
    True,
}

/// How many bits of color each depth carries.
pub open spec fn depth_bits(d: ColorDepth) -> int {
    match d {
        ColorDepth::Monochrome => 1,
        ColorDepth::Ansi => 4,
        ColorDepth::Default => 8,
        ColorDepth::True => 24,
    }
}

/// The 6x6x6 cube index of an RGB triple in the 256-color palette.
pub open spec fn cube_index(r: int, g: int, b: int) -> int {
    16 + (r * 6 / 256) * 36 + (g * 6 / 256) * 6 + (b * 6 / 256)
}

/// The SGR parameter strings one color contributes, at a given depth.
/// Background hex colors at 4-bit depth exclude the slot the foreground
/// resolved to when both spell the same color.
pub open spec fn color_part_list(depth: ColorDepth, color: Color, is_bg: bool, fg: Color) -> Seq<
    Seq<char>,
> {
    if depth is Monochrome || color is Default {
        seq![]
    } else {
        match color {
            Color::Ansi(a) => seq![
                dec_str(
                    if is_bg {
                        ansi_background_code(a)
                    } else {
                        ansi_code(a)
                    },
                ),
            ],
            Color::Hex(r, g, b) => {
                let first: Seq<char> = if is_bg {
                    "48"@
                } else {
                    "38"@
                };
                match depth {
                    ColorDepth::Monochrome => seq![],
                    ColorDepth::Ansi => {
                        let excl: Seq<AnsiColor> = if is_bg && color == fg {
                            seq![color_closest_ansi(fg)]
                        } else {
                            seq![]
                        };
                        seq![dec_str(ansi_code(closest_ansi_spec(r as int, g as int, b as int, excl)))]
                    },
                    ColorDepth::Default => seq![
                        first,
                        "5"@,
                        dec_str(cube_index(r as int, g as int, b as int)),
                    ],
                    ColorDepth::True => seq![first, "2"@, dec_str(r as int), dec_str(b as int), dec_str(g as int)],
                }
            },
            Color::Default => seq![],
        }
    }
}

/// All SGR parameter strings of an attribute record: foreground, then
/// background, then the enabled flags in the fixed order.
pub open spec fn sgr_parts(depth: ColorDepth, attrs: Attrs) -> Seq<Seq<char>> {
    let fg = match attrs.color {
        Some(c) => c,
        None => Color::Default,
    };
    let bg = match attrs.background_color {
        Some(c) => c,
        None => Color::Default,
    };
    color_part_list(depth, fg, false, fg) + color_part_list(depth, bg, true, fg) + (if attrs.bold
        == AttrSetting::Enabled {
        seq!["1"@]
    } else {
        seq![]
    }) + (if attrs.italic == AttrSetting::Enabled {
        seq!["3"@]
    } else {
        seq![]
    }) + (if attrs.blink == AttrSetting::Enabled {
        seq!["5"@]
    } else {
        seq![]
    }) + (if attrs.underline == AttrSetting::Enabled {
        seq!["4"@]
    } else {
        seq![]
    }) + (if attrs.reverse == AttrSetting::Enabled {
        seq!["7"@]
    } else {
        seq![]
    }) + (if attrs.hidden == AttrSetting::Enabled {
        seq!["8"@]
    } else {
        seq![]
    }) + (if attrs.strike == AttrSetting::Enabled {
        seq!["9"@]
    } else {
        seq![]
    })
}

/// Parameter strings joined with semicolons.
pub open spec fn join_semi(ps: Seq<Seq<char>>) -> Seq<char>
    decreases ps.len(),
{
    if ps.len() == 0 {
        Seq::empty()
    } else if ps.len() == 1 {
        ps[0]
    } else {
        join_semi(ps.drop_last()) + ";"@ + ps.last()
    }
}

/// The whole SGR escape sequence of an attribute record: a bare reset when
/// nothing is set, else a reset followed by the parameters.
pub open spec fn sgr_escape(depth: ColorDepth, attrs: Attrs) -> Seq<char> {
    let ps = sgr_parts(depth, attrs);
    if ps.len() == 0 {
        "\u{1b}[0m"@
    } else {
        "\u{1b}[0;"@ + join_semi(ps) + "m"@
    }
}

/// The character views of a list of parameter strings.
pub open spec fn str_views(ps: Seq<String>) -> Seq<Seq<char>> {
    ps.map_values(|p: String| p@)
}

proof fn lemma_join_semi_push(ps: Seq<Seq<char>>, p: Seq<char>)
    ensures
        join_semi(ps.push(p)) == if ps.len() == 0 {
            p
        } else {
            join_semi(ps) + ";"@ + p
        },
{
    let ext = ps.push(p);
    assert(ext.last() == p);
    assert(ext.drop_last() =~= ps);
    if ps.len() == 0 {
        assert(ext.len() == 1);
        assert(ext[0] == p);
    }
}

/// Appends one SGR parameter for a color, if it contributes any.
fn push_color_parts(
    parts: &mut Vec<String>,
    depth: ColorDepth,
    color: Color,
    is_bg: bool,
    fg: Color,
) -> (unit: ())
    ensures
        str_views(final(parts)@) == str_views(old(parts)@) + color_part_list(
            depth,
            color,
            is_bg,
            fg,
        ),
{
    let ghost before = parts@;
    match (depth, color) {
        (ColorDepth::Monochrome, _) | (_, Color::Default) => {
            proof {
                assert(str_views(parts@) =~= str_views(before) + color_part_list(
                    depth,
                    color,
                    is_bg,
                    fg,
                ));
            }
        },
        (_, Color::Ansi(a)) => {
            let code: i32 = if is_bg {
                a.background_code()
            } else {
                a.code()
            };
            proof {
                assert(code >= 0);
            }
            let s = usize_to_string(code as usize);
            parts.push(s);
            proof {
                assert(str_views(parts@) =~= str_views(before) + color_part_list(
                    depth,
                    color,
                    is_bg,
                    fg,
                ));
            }
        },
        (_, Color::Hex(r, g, b)) => {
            match depth {
                ColorDepth::Monochrome => {
                    proof {
                        assert(str_views(parts@) =~= str_views(before) + color_part_list(
                            depth,
                            color,
                            is_bg,
                            fg,
                        ));
                    }
                },
                ColorDepth::Ansi => {
                    let mut excl: Vec<AnsiColor> = Vec::new();
                    if is_bg && color == fg {
                        excl.push(fg.closest_ansi());
                    }
                    proof {
                        if is_bg && color == fg {
                            assert(excl@ =~= seq![color_closest_ansi(fg)]);
                        } else {
                            assert(excl@ =~= Seq::<AnsiColor>::empty());
                        }
                    }
                    let slot = AnsiColor::closest_from_rgb(r, g, b, excl.as_slice());
                    let code = slot.code();
                    proof {
                        assert(code >= 0);
                    }
                    let s = usize_to_string(code as usize);
                    parts.push(s);
                    proof {
                        assert(str_views(parts@) =~= str_views(before) + color_part_list(
                            depth,
                            color,
                            is_bg,
                            fg,
                        ));
                    }
                },
                ColorDepth::Default => {
                    if is_bg {
                        parts.push("48".to_owned());
                    } else {
                        parts.push("38".to_owned());
                    }
                    parts.push("5".to_owned());
                    let idx: u16 = 16 + ((r as u16) * 6 / 256) * 36 + ((g as u16) * 6 / 256) * 6 + (
                    (b as u16) * 6 / 256);
                    let s = usize_to_string(idx as usize);
                    parts.push(s);
                    proof {
                        assert(idx as int == cube_index(r as int, g as int, b as int));
                        assert(str_views(parts@) =~= str_views(before) + color_part_list(
                            depth,
                            color,
                            is_bg,
                            fg,
                        ));
                    }
                },
                ColorDepth::True => {
                    if is_bg {
                        parts.push("48".to_owned());
                    } else {
                        parts.push("38".to_owned());
                    }
                    parts.push("2".to_owned());
                    parts.push(usize_to_string(r as usize));
                    parts.push(usize_to_string(b as usize));
                    parts.push(usize_to_string(g as usize));
                    proof {
                        assert(str_views(parts@) =~= str_views(before) + color_part_list(
                            depth,
                            color,
                            is_bg,
                            fg,
                        ));
                    }
                },
            }
        },
    }
}

/// Appends one SGR flag parameter when the flag is enabled.
fn push_flag(parts: &mut Vec<String>, on: bool, lit: &str) -> (unit: ())
    ensures
        str_views(final(parts)@) == str_views(old(parts)@) + (if on {
            seq![lit@]
        } else {
            seq![]
        }),
{
    let ghost before = parts@;
    if on {
        parts.push(lit.to_owned());
        proof {
            assert(str_views(parts@) =~= str_views(before) + seq![lit@]);
        }
    } else {
        proof {
            assert(str_views(parts@) =~= str_views(before) + Seq::<Seq<char>>::empty());
        }
    }
}

impl ColorDepth {
    /// How many bits of color this depth carries.
    pub fn bit_depth(&self) -> (r: usize)
        ensures
            r == depth_bits(*self),
    {
        match self {
            ColorDepth::Monochrome => 1,
            ColorDepth::Ansi => 4,
            ColorDepth::Default => 8,
            ColorDepth::True => 24,
        }
    }

    /// The SGR escape sequence that realizes an attribute record at this
    /// depth.
    #[verifier::rlimit(100)]
    #[verifier::spinoff_prover]
    pub fn escape_code(self, attrs: Attrs) -> (r: String)
        ensures
            r@ == sgr_escape(self, attrs),
    {
        let fg = match attrs.color {
            Some(c) => c,
            None => Color::Default,
        };
        let bg = match attrs.background_color {
            Some(c) => c,
            None => Color::Default,
        };
        let mut parts: Vec<String> = Vec::new();
        proof {
            assert(str_views(parts@) =~= Seq::<Seq<char>>::empty());
        }
        push_color_parts(&mut parts, self, fg, false, fg);
        push_color_parts(&mut parts, self, bg, true, fg);
        push_flag(&mut parts, attrs.bold.is_on(), "1");
        push_flag(&mut parts, attrs.italic.is_on(), "3");
        push_flag(&mut parts, attrs.blink.is_on(), "5");
        push_flag(&mut parts, attrs.underline.is_on(), "4");
        push_flag(&mut parts, attrs.reverse.is_on(), "7");
        push_flag(&mut parts, attrs.hidden.is_on(), "8");
        push_flag(&mut parts, attrs.strike.is_on(), "9");
        proof {
            assert(str_views(parts@) == sgr_parts(self, attrs));
        }

        if parts.len() == 0 {
            return "\u{1b}[0m".to_owned();
        }
        let mut joined = String::new();
        let mut i: usize = 0;
        while i < parts.len()
            invariant
                i <= parts@.len(),
                str_views(parts@) == sgr_parts(self, attrs),
                joined@ == join_semi(str_views(parts@).take(i as int)),
            decreases parts@.len() - i,
        {
            if i > 0 {
                joined.append(";");
            }
            joined.append(parts[i].as_str());
            proof {
                let pv = str_views(parts@);
                assert(pv.take(i + 1) =~= pv.take(i as int).push(pv[i as int]));
                lemma_join_semi_push(pv.take(i as int), pv[i as int]);
                assert(pv[i as int] == parts@[i as int]@);
            }
            i = i + 1;
        }
        proof {
            assert(str_views(parts@).take(parts@.len() as int) =~= str_views(parts@));
        }
        let mut out = String::new();
        out.append("\u{1b}[0;");
        out.append(joined.as_str());
        out.append("m");
        out
    }
}

/// The polymorphic output seam: something that accepts write and control
/// requests shaped like a VT100 terminal.
pub trait Output {
    fn fileno(&self) -> i32;

    fn encoding(&self) -> &'static str;

    fn write(&mut self, data: &str);

    fn write_raw(&mut self, data: &str);

    fn set_title(&mut self, title: &str);

    fn clear_title(&mut self);

    fn flush(&mut self);

    fn erase_screen(&mut self);

    fn enter_alternate_screen(&mut self);

    fn quit_alternate_screen(&mut self);

    fn enable_mouse_support(&mut self);

    fn disable_mouse_support(&mut self);

    fn erase_end_of_line(&mut self);

    fn erase_down(&mut self);

    fn reset_attributes(&mut self);

    fn set_attributes(&mut self, attrs: Attrs, color_depth: ColorDepth);

    fn disable_autowrap(&mut self);

    fn enable_autowrap(&mut self);

    fn cursor_goto(&mut self, row: usize, column: usize);

    fn cursor_up(&mut self, amount: usize);

    fn cursor_down(&mut self, amount: usize);

    fn cursor_forward(&mut self, amount: usize);

    fn cursor_back(&mut self, amount: usize);

    fn hide_cursor(&mut self);

    fn show_cursor(&mut self);

    fn set_cursor_shape(&mut self, shape: CursorShape);

    fn reset_cursor_shape(&mut self);

    fn supports_cursor_position_requests(&self) -> bool;

    fn request_cursor_position(&mut self);

    fn get_size(&self) -> Size;
}

/// An output that accepts everything and does nothing.
pub struct DummyOutput;

impl Output for DummyOutput {
    fn fileno(&self) -> i32 {
        -1
    }

    fn encoding(&self) -> &'static str {
        "utf-8"
    }

    fn write(&mut self, data: &str) {
    }

    fn write_raw(&mut self, data: &str) {
    }

    fn set_title(&mut self, title: &str) {
    }

    fn clear_title(&mut self) {
    }

    fn flush(&mut self) {
    }

    fn erase_screen(&mut self) {
    }

    fn enter_alternate_screen(&mut self) {
    }

    fn quit_alternate_screen(&mut self) {
    }

    fn enable_mouse_support(&mut self) {
    }

    fn disable_mouse_support(&mut self) {
    }

    fn erase_end_of_line(&mut self) {
    }

    fn erase_down(&mut self) {
    }

    fn reset_attributes(&mut self) {
    }

    fn set_attributes(&mut self, attrs: Attrs, color_depth: ColorDepth) {
    }

    fn disable_autowrap(&mut self) {
    }

    fn enable_autowrap(&mut self) {
    }

    fn cursor_goto(&mut self, row: usize, column: usize) {
    }

    fn cursor_up(&mut self, amount: usize) {
    }

    fn cursor_down(&mut self, amount: usize) {
    }

    fn cursor_forward(&mut self, amount: usize) {
    }

    fn cursor_back(&mut self, amount: usize) {
    }

    fn hide_cursor(&mut self) {
    }

    fn show_cursor(&mut self) {
    }

    fn set_cursor_shape(&mut self, shape: CursorShape) {
    }

    fn reset_cursor_shape(&mut self) {
    }

    fn supports_cursor_position_requests(&self) -> bool {
        false
    }

    fn request_cursor_position(&mut self) {
    }

    fn get_size(&self) -> Size {
        Size { rows: 40, columns: 40 }
    }
}

} // verus!
