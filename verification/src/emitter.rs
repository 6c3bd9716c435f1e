use vstd::prelude::*;

use crate::output::{sgr_escape, ColorDepth, CursorShape};
use crate::style::Attrs;
use crate::util::{push_char, str_chars, usize_to_string};

verus! {

/// What `write` does to data before it reaches the stream: escape
/// introducers are defused to question marks.
pub open spec fn sanitized(s: Seq<char>) -> Seq<char> {
    s.map_values(
        |c: char|
            if c == '\u{1b}' {
                '?'
            } else {
                c
            },
    )
}

/// What a title is reduced to before being framed: escape and bell
/// characters are removed.
pub open spec fn title_stripped(s: Seq<char>) -> Seq<char>
    decreases s.len(),
{
    if s.len() == 0 {
        Seq::empty()
    } else if s[0] == '\u{1b}' || s[0] == '\u{07}' {
        title_stripped(s.drop_first())
    } else {
        seq![s[0]] + title_stripped(s.drop_first())
    }
}

/// The escape sequence that selects a cursor shape; `NeverChange` writes
/// nothing.
pub open spec fn cursor_shape_seq(shape: CursorShape) -> Seq<char> {
    match shape {
        CursorShape::NeverChange => Seq::empty(),
        CursorShape::Block => "\u{1b}[2 q"@,
        CursorShape::Beam => "\u{1b}[6 q"@,
        CursorShape::Underline => "\u{1b}[4 q"@,
        CursorShape::BlinkingBlock => "\u{1b}[1 q"@,
        CursorShape::BlinkingBeam => "\u{1b}[5 q"@,
        CursorShape::BlinkingUnderline => "\u{1b}[3 q"@,
    }
}

/// A buffered VT100 escape-sequence writer.  Every operation appends to the
/// held stream; the host empties the stream and hands it to the terminal.
pub struct VtWriter {
    buffer: String,
}

impl View for VtWriter {
    type V = Seq<char>;

    closed spec fn view(&self) -> Seq<char> {
        self.buffer@
    }
}

impl VtWriter {
    pub fn new() -> (r: Self)
        ensures
            r@ == Seq::<char>::empty(),
    {
        VtWriter { buffer: String::new() }
    }

    /// The stream accumulated so far.
    pub fn contents(&self) -> (r: &str)
        ensures
            r@ == self@,
    {
        self.buffer.as_str()
    }

    /// Hands the accumulated stream out and leaves the writer empty.
    pub fn take(&mut self) -> (r: String)
        ensures
            r@ == old(self)@,
            final(self)@ == Seq::<char>::empty(),
    {
        let out = self.buffer.clone();
        self.buffer = String::new();
        out
    }

    /// Appends data with escape introducers defused.
    pub fn write(&mut self, data: &str)
        ensures
            final(self)@ == old(self)@ + sanitized(data@),
    {
        let cv = str_chars(data);
        let mut i: usize = 0;
        proof {
            assert(self@ + sanitized(data@.take(0)) =~= self@);
        }
        while i < cv.len()
            invariant
                i <= cv@.len(),
                cv@ == data@,
                self@ == old(self)@ + sanitized(data@.take(i as int)),
            decreases cv@.len() - i,
        {
            let c = cv[i];
            let w = if c == '\u{1b}' {
                '?'
            } else {
                c
            };
            push_char(&mut self.buffer, w);
            proof {
                assert(sanitized(data@.take(i + 1)) =~= sanitized(data@.take(i as int)).push(
                    if data@[i as int] == '\u{1b}' {
                        '?'
                    } else {
                        data@[i as int]
                    },
                ));
            }
            i = i + 1;
        }
        proof {
            assert(data@.take(data@.len() as int) =~= data@);
        }
    }

    /// Appends data exactly as given.
    pub fn write_raw(&mut self, data: &str)
        ensures
            final(self)@ == old(self)@ + data@,
    {
        self.buffer.append(data);
    }

    /// Frames a title, with escape and bell characters stripped out.
    pub fn set_title(&mut self, title: &str)
        ensures
            final(self)@ == old(self)@ + "\u{1b}]2;"@ + title_stripped(title@) + "\u{07}"@,
    {
        self.buffer.append("\u{1b}]2;");
        let cv = str_chars(title);
        let ghost mid = self@;
        let mut i: usize = 0;
        proof {
            assert(title@.skip(0) =~= title@);
            assert(mid.skip(mid.len() as int) =~= Seq::<char>::empty());
            assert(mid.take(mid.len() as int) =~= mid);
        }
        while i < cv.len()
            invariant
                i <= cv@.len(),
                cv@ == title@,
                title_stripped(title@) == self@.skip(mid.len() as int) + title_stripped(
                    title@.skip(i as int),
                ),
                self@.len() >= mid.len(),
                self@.take(mid.len() as int) == mid,
            decreases cv@.len() - i,
        {
            let c = cv[i];
            let ghost rest = title@.skip(i as int);
            let ghost prev = self@;
            proof {
                assert(rest[0] == title@[i as int]);
                assert(rest.drop_first() =~= title@.skip(i + 1));
            }
            if c != '\u{1b}' && c != '\u{07}' {
                push_char(&mut self.buffer, c);
                proof {
                    assert(self@ == prev.push(c));
                    assert(self@.skip(mid.len() as int) =~= prev.skip(mid.len() as int) + seq![c]);
                    assert(self@.take(mid.len() as int) =~= mid);
                    assert(title_stripped(rest) == seq![c] + title_stripped(rest.drop_first()));
                    assert((prev.skip(mid.len() as int) + seq![c]) + title_stripped(
                        rest.drop_first(),
                    ) =~= prev.skip(mid.len() as int) + (seq![c] + title_stripped(
                        rest.drop_first(),
                    )));
                }
            } else {
                proof {
                    assert(title_stripped(rest) == title_stripped(rest.drop_first()));
                }
            }
            i = i + 1;
        }
        proof {
            assert(title@.skip(title@.len() as int) =~= Seq::<char>::empty());
            assert(title_stripped(title@.skip(cv@.len() as int)) + Seq::<char>::empty()
                =~= title_stripped(title@.skip(cv@.len() as int)));
            assert(self@.skip(mid.len() as int) + title_stripped(title@.skip(cv@.len() as int))
                == title_stripped(title@));
            assert(title_stripped(Seq::<char>::empty()) =~= Seq::<char>::empty());
            assert(self@.skip(mid.len() as int) + Seq::<char>::empty() =~= self@.skip(
                mid.len() as int,
            ));
            assert(mid + self@.skip(mid.len() as int) =~= self@);
        }
        self.buffer.append("\u{07}");
    }

    /// Frames an empty title.
    pub fn clear_title(&mut self)
        ensures
            final(self)@ == old(self)@ + "\u{1b}]2;"@ + "\u{07}"@,
    {
        self.set_title("");
        proof {
            reveal_strlit("");
            assert(title_stripped(""@) =~= Seq::<char>::empty());
            assert(old(self)@ + "\u{1b}]2;"@ + Seq::<char>::empty() + "\u{07}"@ =~= old(self)@
                + "\u{1b}]2;"@ + "\u{07}"@);
        }
    }

    pub fn erase_screen(&mut self)
        ensures
            final(self)@ == old(self)@ + "\u{1b}[2J"@,
    {
        self.buffer.append("\u{1b}[2J");
    }

    pub fn enter_alternate_screen(&mut self)
        ensures
            final(self)@ == old(self)@ + "\u{1b}[?1049h\u{1b}[H"@,
    {
        self.buffer.append("\u{1b}[?1049h\u{1b}[H");
    }

    pub fn quit_alternate_screen(&mut self)
        ensures
            final(self)@ == old(self)@ + "\u{1b}[?1049l"@,
    {
        self.buffer.append("\u{1b}[?1049l");
    }

    pub fn enable_mouse_support(&mut self)
        ensures
            final(self)@ == old(self)@ + "\u{1b}[?1000h\u{1b}[?1003h\u{1b}[?1015h\u{1b}[?1006h"@,
    {
        self.buffer.append("\u{1b}[?1000h\u{1b}[?1003h\u{1b}[?1015h\u{1b}[?1006h");
    }

    pub fn disable_mouse_support(&mut self)
        ensures
            final(self)@ == old(self)@ + "\u{1b}[?1000l\u{1b}[?1015l\u{1b}[?1006l\u{1b}[?1003l"@,
    {
        self.buffer.append("\u{1b}[?1000l\u{1b}[?1015l\u{1b}[?1006l\u{1b}[?1003l");
    }

    pub fn erase_end_of_line(&mut self)
        ensures
            final(self)@ == old(self)@ + "\u{1b}[K"@,
    {
        self.buffer.append("\u{1b}[K");
    }

    pub fn erase_down(&mut self)
        ensures
            final(self)@ == old(self)@ + "\u{1b}[J"@,
    {
        self.buffer.append("\u{1b}[J");
    }

    pub fn reset_attributes(&mut self)
        ensures
            final(self)@ == old(self)@ + "\u{1b}[0m"@,
    {
        self.buffer.append("\u{1b}[0m");
    }

    /// Appends the SGR sequence realizing an attribute record at a depth.
    pub fn set_attributes(&mut self, attrs: Attrs, color_depth: ColorDepth)
        ensures
            final(self)@ == old(self)@ + sgr_escape(color_depth, attrs),
    {
        let code = color_depth.escape_code(attrs);
        self.buffer.append(code.as_str());
    }

    pub fn disable_autowrap(&mut self)
        ensures
            final(self)@ == old(self)@ + "\u{1b}[?7l"@,
    {
        self.buffer.append("\u{1b}[?7l");
    }

    pub fn enable_autowrap(&mut self)
        ensures
            final(self)@ == old(self)@ + "\u{1b}[?7h"@,
    {
        self.buffer.append("\u{1b}[?7h");
    }

    pub fn cursor_goto(&mut self, row: usize, column: usize)
        ensures
            final(self)@ == old(self)@ + "\u{1b}["@ + crate::util::dec_str(row as int) + ";"@
                + crate::util::dec_str(column as int) + "H"@,
    {
        self.buffer.append("\u{1b}[");
        let r = usize_to_string(row);
        self.buffer.append(r.as_str());
        self.buffer.append(";");
        let c = usize_to_string(column);
        self.buffer.append(c.as_str());
        self.buffer.append("H");
    }

    pub fn cursor_up(&mut self, amount: usize)
        ensures
            final(self)@ == old(self)@ + "\u{1b}["@ + crate::util::dec_str(amount as int) + "A"@,
    {
        self.buffer.append("\u{1b}[");
        let a = usize_to_string(amount);
        self.buffer.append(a.as_str());
        self.buffer.append("A");
    }

    pub fn cursor_down(&mut self, amount: usize)
        ensures
            final(self)@ == old(self)@ + "\u{1b}["@ + crate::util::dec_str(amount as int) + "B"@,
    {
        self.buffer.append("\u{1b}[");
        let a = usize_to_string(amount);
        self.buffer.append(a.as_str());
        self.buffer.append("B");
    }

    pub fn cursor_forward(&mut self, amount: usize)
        ensures
            final(self)@ == old(self)@ + "\u{1b}["@ + crate::util::dec_str(amount as int) + "C"@,
    {
        self.buffer.append("\u{1b}[");
        let a = usize_to_string(amount);
        self.buffer.append(a.as_str());
        self.buffer.append("C");
    }

    pub fn cursor_back(&mut self, amount: usize)
        ensures
            final(self)@ == old(self)@ + "\u{1b}["@ + crate::util::dec_str(amount as int) + "D"@,
    {
        self.buffer.append("\u{1b}[");
        let a = usize_to_string(amount);
        self.buffer.append(a.as_str());
        self.buffer.append("D");
    }

    pub fn hide_cursor(&mut self)
        ensures
            final(self)@ == old(self)@ + "\u{1b}[?25l"@,
    {
        self.buffer.append("\u{1b}[?25l");
    }

    pub fn show_cursor(&mut self)
        ensures
            final(self)@ == old(self)@ + "\u{1b}[?25l\u{1b}[?25h"@,
    {
        self.buffer.append("\u{1b}[?25l\u{1b}[?25h");
    }

    pub fn set_cursor_shape(&mut self, shape: CursorShape)
        ensures
            final(self)@ == old(self)@ + cursor_shape_seq(shape),
    {
        match shape {
            CursorShape::NeverChange => {
                proof {
                    assert(old(self)@ + cursor_shape_seq(shape) =~= old(self)@);
                }
            },
            CursorShape::Block => self.buffer.append("\u{1b}[2 q"),
            CursorShape::Beam => self.buffer.append("\u{1b}[6 q"),
            CursorShape::Underline => self.buffer.append("\u{1b}[4 q"),
            CursorShape::BlinkingBlock => self.buffer.append("\u{1b}[1 q"),
            CursorShape::BlinkingBeam => self.buffer.append("\u{1b}[5 q"),
            CursorShape::BlinkingUnderline => self.buffer.append("\u{1b}[3 q"),
        }
    }

    pub fn reset_cursor_shape(&mut self)
        ensures
            final(self)@ == old(self)@ + "\u{1b}[0 q"@,
    {
        self.buffer.append("\u{1b}[0 q");
    }

    /// Asks the terminal for a cursor position report; the reply arrives on
    /// the input side and is decoded by the parser.
    pub fn request_cursor_position(&mut self)
        ensures
            final(self)@ == old(self)@ + "\u{1b}[6n"@,
    {
        self.buffer.append("\u{1b}[6n");
    }
}

} // verus!
