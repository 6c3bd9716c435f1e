use vstd::prelude::*;

use crate::emitter::{sanitized, VtWriter};
use crate::output::{sgr_escape, ColorDepth, Output, Size};
use crate::screen::{assoc_find, screen_rows, shown_cell, Char, Screen};
use crate::style::{style_string_attrs, Attrs, Style};
use crate::util::{chars_to_string, dec_str};
use crate::Point;

verus! {

/// What is known about the terminal's support for cursor-position reports.
#[derive(Debug, Clone, Copy, PartialEq, Eq, Structural)]
enum CprSupport {
    Unknown,
    Supported,
    Unsupported,
}

/// Drives an output from prepared screens; the enclosing loop owns it.
pub struct Renderer<O: Output> {
    style: Box<dyn Style>,
    output: O,
    bracketed_paste_enabled: bool,
    cursor_key_mode_reset: bool,
    cpr_support: CprSupport,
}

impl<O: Output> Renderer<O> {
    pub fn new(output: O, style: Box<dyn Style>) -> Self {
        let cpr = output.supports_cursor_position_requests();
        let mut renderer = Renderer {
            style,
            output,
            bracketed_paste_enabled: false,
            cursor_key_mode_reset: false,
            cpr_support: if cpr {
                CprSupport::Unknown
            } else {
                CprSupport::Unsupported
            },
        };
        renderer.reset();
        renderer
    }

    pub fn reset(&mut self) {
        self.output.flush();
    }

    /// Whether the terminal height is known; it never is here.
    pub fn height_is_known(&self) -> (r: bool)
        ensures
            r == false,
    {
        false
    }

    /// The rows visible above the layout; always an error, as the count is
    /// unknown.
    pub fn rows_above_layout(&self) -> (r: Result<usize, String>)
        ensures
            r is Err,
    {
        Err("unknown rows above layout".to_owned())
    }

    pub fn request_absolute_cursor_position(&self) {
    }

    /// One render step: a finished frame resets the output.
    pub fn render(&mut self, is_done: bool) {
        if is_done {
            self.reset();
        }
    }
}

/// The escape sequence that moves the cursor forward by an amount.
pub open spec fn fwd_seq(n: int) -> Seq<char> {
    "\u{1b}["@ + dec_str(n) + "C"@
}

/// The escape sequence that moves the cursor back by an amount.
pub open spec fn back_seq(n: int) -> Seq<char> {
    "\u{1b}["@ + dec_str(n) + "D"@
}

/// The escape sequence that moves the cursor up by an amount.
pub open spec fn up_seq(n: int) -> Seq<char> {
    "\u{1b}["@ + dec_str(n) + "A"@
}

/// A run of carriage-return/newline pairs.
pub open spec fn crlf_repeat(n: int) -> Seq<char>
    decreases n,
{
    if n <= 0 {
        Seq::empty()
    } else {
        crlf_repeat(n - 1) + "\r\n"@
    }
}

/// What moving the cursor from `cur` to `new` writes: going down resets
/// attributes and walks down line starts; otherwise the cursor moves up and
/// sideways by the cheaper of a return or a relative move.
pub open spec fn move_stream(size: Size, new: (int, int), cur: (int, int)) -> Seq<char> {
    if new.1 > cur.1 {
        "\u{1b}[0m"@ + crlf_repeat(new.1 - cur.1) + fwd_seq(new.0)
    } else {
        (if new.1 < cur.1 {
            up_seq(cur.1 - new.1)
        } else {
            Seq::empty()
        }) + (if cur.0 >= size.columns - 1 {
            "\r"@ + fwd_seq(new.0)
        } else if new.0 < cur.0 {
            back_seq(cur.0 - new.0)
        } else if new.0 > cur.0 {
            fwd_seq(new.0 - cur.0)
        } else {
            Seq::empty()
        })
    }
}

/// The columns the renderer steps over one cell: at least one.
pub open spec fn cell_step(w: nat) -> int {
    if w >= 1 {
        w as int
    } else {
        1
    }
}

/// The cursor column recorded after writing a cell, capped at the screen
/// width; at and beyond the last column the move rules behave alike.
pub open spec fn next_col(c: int, step: int, columns: int) -> int {
    if c + step >= columns {
        columns
    } else {
        c + step
    }
}

/// What one cell write emits: the cursor move, the SGR sequence of the
/// cell's style at truecolor depth, and the cell's character, defused.
pub open spec fn cell_stream(s: &Screen, size: Size, y: int, c: int, cur: (int, int)) -> Seq<
    char,
> {
    let cell = shown_cell(s, y, c);
    move_stream(size, (c, y), cur) + sgr_escape(
        ColorDepth::True,
        style_string_attrs(cell.style),
    ) + sanitized(seq![cell.char])
}

/// What one row emits from column `c` on, with the cursor position carried
/// through.
pub open spec fn row_stream(s: &Screen, size: Size, y: int, c: int, maxc: int, cur: (int, int)) -> (
    Seq<char>,
    (int, int),
)
    decreases maxc + 1 - c,
{
    if c > maxc {
        (Seq::empty(), cur)
    } else {
        let cell = shown_cell(s, y, c);
        let step = cell_step(cell.width);
        let here = cell_stream(s, size, y, c, cur);
        let after = (next_col(c, step, size.columns as int), y);
        let cnext = if c + step > maxc {
            maxc + 1
        } else {
            c + step
        };
        let (rest, endp) = row_stream(s, size, y, cnext, maxc, after);
        (here + rest, endp)
    }
}

/// The largest column key a stored row holds, or minus one when empty.
pub open spec fn row_max_key(row: Seq<(usize, Char)>) -> int
    decreases row.len(),
{
    if row.len() == 0 {
        -1
    } else {
        let m = row_max_key(row.drop_last());
        if row.last().0 > m {
            row.last().0 as int
        } else {
            m
        }
    }
}

/// The last column the renderer visits in a row: the row's largest stored
/// column, the last screen column for unstored rows, all clipped to the
/// width.
pub open spec fn effective_max(s: &Screen, size: Size, y: int) -> int {
    let gm = match assoc_find(screen_rows(s), y) {
        Some(row) => if row.len() > 0 {
            row_max_key(row)
        } else {
            size.columns - 1
        },
        None => size.columns - 1,
    };
    if size.columns - 1 <= gm {
        size.columns - 1
    } else {
        gm
    }
}

/// What the rows from `y` up to `rows` emit, with the cursor carried
/// through.
pub open spec fn rows_stream(s: &Screen, size: Size, y: int, rows: int, cur: (int, int)) -> (
    Seq<char>,
    (int, int),
)
    decreases rows - y,
{
    if y >= rows {
        (Seq::empty(), cur)
    } else {
        let (rs, cur1) = row_stream(s, size, y, 0, effective_max(s, size, y), cur);
        let (rest, endp) = rows_stream(s, size, y + 1, rows, cur1);
        (rs + rest, endp)
    }
}

/// How many rows a render pass walks.
pub open spec fn render_rows(s: &Screen, size: Size) -> int {
    if size.rows <= s.height {
        size.rows as int
    } else {
        s.height as int
    }
}

/// Everything one render pass emits: hide the cursor, disable autowrap,
/// walk the rows, reset attributes, and show the cursor if asked to.
pub open spec fn render_stream(s: &Screen, size: Size) -> Seq<char> {
    let (body, endp) = rows_stream(s, size, 0, render_rows(s, size), (0, 0));
    "\u{1b}[?25l"@ + "\u{1b}[?7l"@ + body + "\u{1b}[0m"@ + (if s.show_cursor {
        "\u{1b}[?25l\u{1b}[?25h"@
    } else {
        Seq::empty()
    })
}

/// Where the cursor logically stands after a render pass.
pub open spec fn render_end(s: &Screen, size: Size) -> (int, int) {
    rows_stream(s, size, 0, render_rows(s, size), (0, 0)).1
}

/// Renderer idempotence: what a render pass appends is a function of the
/// screen and the size alone, so two passes over the same screen and size
/// append byte-equal streams, wherever each writer already stood.
pub proof fn lemma_render_idempotent(
    w1_before: Seq<char>,
    w1_after: Seq<char>,
    w2_before: Seq<char>,
    w2_after: Seq<char>,
    s: &Screen,
    size: Size,
)
    requires
        w1_after == w1_before + render_stream(s, size),
        w2_after == w2_before + render_stream(s, size),
    ensures
        w1_after.skip(w1_before.len() as int) == w2_after.skip(w2_before.len() as int),
{
    assert(w1_after.skip(w1_before.len() as int) =~= render_stream(s, size));
    assert(w2_after.skip(w2_before.len() as int) =~= render_stream(s, size));
}

/// Moves the terminal cursor from `current_position` to `new`, writing the
/// cheapest escape sequence, and answers the new position.
#[verifier::rlimit(100)]
#[verifier::spinoff_prover]
pub fn move_cursor(out: &mut VtWriter, size: &Size, new: Point, current_position: Point) -> (r:
    Point)
    requires
        size.columns >= 1,
    ensures
        r == new,
        final(out)@ == old(out)@ + move_stream(
            *size,
            (new.x as int, new.y as int),
            (current_position.x as int, current_position.y as int),
        ),
{
    if new.y > current_position.y {
        out.reset_attributes();
        let mut k: usize = 0;
        let n = new.y - current_position.y;
        let ghost mid = out@;
        while k < n
            invariant
                k <= n,
                out@ == mid + crlf_repeat(k as int),
            decreases n - k,
        {
            out.write_raw("\r\n");
            k = k + 1;
        }
        out.cursor_forward(new.x);
        proof {
            assert(out@ =~= old(out)@ + ("\u{1b}[0m"@ + crlf_repeat(n as int) + fwd_seq(
                new.x as int,
            )));
        }
        return new;
    }
    if new.y < current_position.y {
        out.cursor_up(current_position.y - new.y);
    }
    let ghost mid2 = out@;
    if current_position.x >= size.columns - 1 {
        out.write_raw("\r");
        out.cursor_forward(new.x);
    } else if new.x < current_position.x {
        out.cursor_back(current_position.x - new.x);
    } else if new.x > current_position.x {
        out.cursor_forward(new.x - current_position.x);
    }
    proof {
        assert(out@ =~= old(out)@ + move_stream(
            *size,
            (new.x as int, new.y as int),
            (current_position.x as int, current_position.y as int),
        ));
    }
    new
}

/// The largest stored column of a screen row, or the last screen column
/// when nothing is stored there.
pub fn get_max_column_index(screen: &Screen, y: usize, size: &Size) -> (r: usize)
    requires
        size.columns >= 1,
    ensures
        ({
            let gm = match assoc_find(screen_rows(screen), y as int) {
                Some(row) => if row.len() > 0 {
                    row_max_key(row)
                } else {
                    size.columns - 1
                },
                None => size.columns - 1,
            };
            r == gm || (gm > usize::MAX && r == usize::MAX)
        }),
{
    let ri = crate::screen::assoc_index(&screen.data_buffer, y);
    proof {
        crate::screen::lemma_assoc_first_hit(
            crate::screen::rows_view(screen.data_buffer@),
            y as int,
            ri as int,
        );
    }
    if ri < screen.data_buffer.len() && screen.data_buffer[ri].1.len() > 0 {
        let row = &screen.data_buffer[ri].1;
        let ghost rv = row@;
        let mut m: usize = 0;
        let mut j: usize = 0;
        proof {
            assert(row_max_key(rv.take(0)) == -1);
        }
        let mut started = false;
        while j < row.len()
            invariant
                j <= rv.len(),
                row@ == rv,
                rv == screen.data_buffer@[ri as int].1@,
                ri < screen.data_buffer@.len(),
                started ==> m == row_max_key(rv.take(j as int)),
                !started ==> j == 0,
            decreases rv.len() - j,
        {
            let key = row[j].0;
            proof {
                assert(rv.take(j + 1).drop_last() =~= rv.take(j as int));
                assert(rv.take(j + 1).last() == rv[j as int]);
            }
            if !started || key > m {
                m = key;
            }
            proof {
                if j == 0 {
                    assert(rv.take(0) =~= Seq::<(usize, Char)>::empty());
                    assert(row_max_key(rv.take(0)) == -1);
                    assert(row_max_key(rv.take(1)) == rv[0].0);
                }
            }
            started = true;
            j = j + 1;
        }
        proof {
            assert(rv.take(rv.len() as int) =~= rv);
        }
        m
    } else {
        size.columns - 1
    }
}

/// Performs one render pass: walks the visible grid in row-major order,
/// moving the cursor and emitting each cell's style and character, then
/// restores attributes and cursor visibility.  What it appends depends on
/// the screen and size alone.
#[verifier::rlimit(100)]
pub fn output_screen(out: &mut VtWriter, screen: &Screen, size: &Size) -> (r: Point)
    requires
        size.rows > 0 && screen.height > 0 ==> size.columns >= 1,
    ensures
        final(out)@ == old(out)@ + render_stream(screen, *size),
        (r.x as int, r.y as int) == render_end(screen, *size),
{
    out.hide_cursor();
    out.disable_autowrap();

    let height = if size.rows <= screen.height {
        size.rows
    } else {
        screen.height
    };
    let mut current_position = Point { x: 0, y: 0 };
    let mut y: usize = 0;
    let ghost head = old(out)@ + "\u{1b}[?25l"@ + "\u{1b}[?7l"@;
    proof {
        assert(rows_stream(screen, *size, 0, render_rows(screen, *size), (0, 0)).0
            == rows_stream(screen, *size, 0, render_rows(screen, *size), (0, 0)).0);
    }
    while y < height
        invariant
            y <= height,
            height == render_rows(screen, *size),
            height > 0 ==> size.columns >= 1,
            out@ == head + rows_stream(screen, *size, 0, y as int, (0, 0)).0,
            (current_position.x as int, current_position.y as int) == rows_stream(
                screen,
                *size,
                0,
                y as int,
                (0, 0),
            ).1,
        decreases height - y,
    {
        let maxc = get_max_column_index(screen, y, size);
        let ghost emax = effective_max(screen, *size, y as int);
        let max_line_len: usize = if size.columns - 1 <= maxc {
            size.columns - 1
        } else {
            maxc
        };
        proof {
            assert(max_line_len == emax);
        }
        let mut c: usize = 0;
        let ghost row_cur = (current_position.x as int, current_position.y as int);
        let ghost row_head = out@;
        proof {
            assert(out@.skip(row_head.len() as int) =~= Seq::<char>::empty());
            assert(out@.take(row_head.len() as int) =~= row_head);
            assert(Seq::<char>::empty() + row_stream(
                screen,
                *size,
                y as int,
                0,
                max_line_len as int,
                row_cur,
            ).0 =~= row_stream(screen, *size, y as int, 0, max_line_len as int, row_cur).0);
        }
        while c <= max_line_len
            invariant
                size.columns >= 1,
                y < height,
                max_line_len == effective_max(screen, *size, y as int),
                max_line_len < size.columns,
                c <= max_line_len + 1,
                row_stream(screen, *size, y as int, 0, max_line_len as int, row_cur)
                    == ({
                    let (rest, endp) = row_stream(
                        screen,
                        *size,
                        y as int,
                        c as int,
                        max_line_len as int,
                        (current_position.x as int, current_position.y as int),
                    );
                    (out@.skip(row_head.len() as int) + rest, endp)
                }),
                out@.len() >= row_head.len(),
                out@.take(row_head.len() as int) == row_head,
            decreases max_line_len + 1 - c,
        {
            let ghost cpos = (current_position.x as int, current_position.y as int);
            let cell = match screen.lookup_cell(y, c) {
                Some(cl) => cl,
                None => screen.default_char(),
            };
            proof {
                assert(cell@ == shown_cell(screen, y as int, c as int));
            }
            let ghost pre = out@;
            current_position = move_cursor(out, size, Point { x: c, y }, current_position);
            let attrs = Attrs::from_style_string(cell.style.as_str());
            out.set_attributes(attrs, ColorDepth::True);
            let mut one: Vec<char> = Vec::new();
            one.push(cell.char);
            proof {
                assert(one@ =~= seq![cell@.char]);
            }
            let cs = chars_to_string(&one);
            out.write(cs.as_str());
            let step: usize = if cell.width >= 1 {
                cell.width
            } else {
                1
            };
            proof {
                assert(step == cell_step(cell@.width));
                assert(out@.skip(pre.len() as int) =~= move_stream(
                    *size,
                    (c as int, y as int),
                    cpos,
                ) + sgr_escape(ColorDepth::True, style_string_attrs(cell@.style)) + sanitized(
                    seq![cell@.char],
                ));
                assert(out@.skip(pre.len() as int) == cell_stream(
                    screen,
                    *size,
                    y as int,
                    c as int,
                    cpos,
                ));
            }
            let nx: usize = if step >= size.columns - c {
                size.columns
            } else {
                c + step
            };
            current_position = Point { x: nx, y };
            proof {
                assert(nx as int == next_col(c as int, step as int, size.columns as int));
                assert(out@.take(row_head.len() as int) =~= row_head);
                assert(out@.skip(row_head.len() as int) =~= pre.skip(row_head.len() as int)
                    + out@.skip(pre.len() as int));
            }
            let ghost cnext_spec: int = if c + step > max_line_len {
                max_line_len + 1
            } else {
                c + step
            };
            proof {
                assert(row_stream(screen, *size, y as int, c as int, max_line_len as int, cpos)
                    == ({
                    let (rest, endp) = row_stream(
                        screen,
                        *size,
                        y as int,
                        cnext_spec,
                        max_line_len as int,
                        (nx as int, y as int),
                    );
                    (
                        cell_stream(screen, *size, y as int, c as int, cpos) + rest,
                        endp,
                    )
                }));
                assert((pre.skip(row_head.len() as int) + out@.skip(pre.len() as int))
                    + row_stream(
                    screen,
                    *size,
                    y as int,
                    cnext_spec,
                    max_line_len as int,
                    (nx as int, y as int),
                ).0 =~= pre.skip(row_head.len() as int) + (out@.skip(pre.len() as int)
                    + row_stream(
                    screen,
                    *size,
                    y as int,
                    cnext_spec,
                    max_line_len as int,
                    (nx as int, y as int),
                ).0));
            }
            if step > max_line_len - c {
                c = max_line_len + 1;
            } else {
                c = c + step;
            }
        }
        proof {
            assert(row_stream(
                screen,
                *size,
                y as int,
                c as int,
                max_line_len as int,
                (current_position.x as int, current_position.y as int),
            ) == (
                Seq::<char>::empty(),
                (current_position.x as int, current_position.y as int),
            ));
            assert(out@.skip(row_head.len() as int) + Seq::<char>::empty() =~= out@.skip(
                row_head.len() as int,
            ));
            assert(rows_stream(screen, *size, 0, y + 1, (0, 0)).0 =~= rows_stream(
                screen,
                *size,
                0,
                y as int,
                (0, 0),
            ).0 + out@.skip(row_head.len() as int)) by {
                lemma_rows_stream_snoc(screen, *size, y as int, (0, 0));
            }
            assert(out@ =~= row_head + out@.skip(row_head.len() as int));
            assert(out@ =~= head + rows_stream(screen, *size, 0, y + 1, (0, 0)).0);
            assert((current_position.x as int, current_position.y as int) == rows_stream(
                screen,
                *size,
                0,
                y + 1,
                (0, 0),
            ).1) by {
                lemma_rows_stream_snoc(screen, *size, y as int, (0, 0));
            }
        }
        y = y + 1;
    }
    proof {
        assert(y as int == render_rows(screen, *size));
    }
    out.reset_attributes();
    if screen.show_cursor() {
        out.show_cursor();
        proof {
            assert(out@ =~= old(out)@ + render_stream(screen, *size));
        }
    } else {
        proof {
            assert(out@ =~= old(out)@ + render_stream(screen, *size));
        }
    }
    proof {
        assert((current_position.x as int, current_position.y as int) == render_end(
            screen,
            *size,
        ));
    }
    current_position
}

/// One more row of the walk extends the stream by that row's emission.
proof fn lemma_rows_stream_snoc(s: &Screen, size: Size, y: int, start: (int, int))
    requires
        y >= 0,
    ensures
        ({
            let (pre, cur) = rows_stream(s, size, 0, y, start);
            let (rs, cur1) = row_stream(s, size, y, 0, effective_max(s, size, y), cur);
            rows_stream(s, size, 0, y + 1, start) == (pre + rs, cur1)
        }),
    decreases y,
{
    lemma_rows_stream_concat(s, size, 0, y, y + 1, start);
    let (pre, cur) = rows_stream(s, size, 0, y, start);
    let (rs, cur1) = row_stream(s, size, y, 0, effective_max(s, size, y), cur);
    assert(rows_stream(s, size, y + 1, y + 1, cur1) == (Seq::<char>::empty(), cur1));
    assert(rs + Seq::<char>::empty() =~= rs);
    assert(rows_stream(s, size, y, y + 1, cur) == (rs, cur1));
}

/// Walking to `mid` and on to `rows` is walking to `rows`.
proof fn lemma_rows_stream_concat(s: &Screen, size: Size, y: int, mid: int, rows: int, start: (
    int,
    int,
))
    requires
        0 <= y <= mid <= rows,
    ensures
        ({
            let (a, cura) = rows_stream(s, size, y, mid, start);
            let (b, curb) = rows_stream(s, size, mid, rows, cura);
            rows_stream(s, size, y, rows, start) == (a + b, curb)
        }),
    decreases mid - y,
{
    let (a, cura) = rows_stream(s, size, y, mid, start);
    let (b, curb) = rows_stream(s, size, mid, rows, cura);
    if y == mid {
        assert(a =~= Seq::<char>::empty());
        assert(Seq::<char>::empty() + b =~= b);
    } else {
        let (rs, cur1) = row_stream(s, size, y, 0, effective_max(s, size, y), start);
        lemma_rows_stream_concat(s, size, y + 1, mid, rows, cur1);
        let (a2, cura2) = rows_stream(s, size, y + 1, mid, cur1);
        assert(rs + (a2 + b) =~= (rs + a2) + b);
    }
}

} // verus!
