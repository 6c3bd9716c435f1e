use vstd::prelude::*;

use crate::style::is_space;
use crate::util::{chars_to_string, str_chars};
use crate::Point;

verus! {

/// What `unicode_width` reports for one character: its displayed width in
/// columns, or nothing for a control character.
pub uninterp spec fn width_of(c: char) -> Option<usize>;

/// Relies on unicode_width's `UnicodeWidthChar::width`: the East-Asian-Width
/// based column width of one character, a function of the character alone.
/// Its source answers `None` exactly for the control ranges below U+0020 and
/// from U+007F up to (excluding) U+00A0, and `Some(1)` for printable ASCII.
#[verifier::external_body]
fn unicode_char_width(c: char) -> (r: Option<usize>)
    ensures
        r == width_of(c),
        ((c as int) < 0x20 || (0x7f <= c as int && (c as int) < 0xa0)) <==> r is None,
        (0x20 <= c as int && (c as int) < 0x7f) ==> r == Some(1usize),
{
    unicode_width::UnicodeWidthChar::width(c)
}

/// Whether a character renders as caret notation.
pub open spec fn is_caret_control(c: char) -> bool {
    (c as int) < 0x20 || c as int == 0x7f
}

/// The character a cell displays: caret controls show the caret itself.
pub open spec fn display_char(c: char) -> char {
    if is_caret_control(c) {
        '^'
    } else {
        c
    }
}

/// The display width a cell records for its character.
pub open spec fn display_width(c: char) -> nat {
    if is_caret_control(c) {
        1
    } else {
        match width_of(c) {
            Some(w) => w as nat,
            None => 0,
        }
    }
}

/// One screen cell: a character, the style string attached to it, and its
/// display width in columns.
#[derive(Debug, Clone)]
pub struct Char {
    pub char: char,
    pub style: String,
    pub width: usize,
}

/// The mathematical view of one cell.
pub struct CharView {
    pub char: char,
    pub style: Seq<char>,
    pub width: nat,
}

impl View for Char {
    type V = CharView;

    open spec fn view(&self) -> CharView {
        CharView { char: self.char, style: self.style@, width: self.width as nat }
    }
}

impl Char {
    /// Builds a cell for one input character; control bytes render as a
    /// caret, and the width comes from the East-Asian-Width tables.
    pub fn new(c: char, style: &str) -> (r: Self)
        ensures
            r@ == (CharView {
                char: display_char(c),
                style: style@,
                width: display_width(c),
            }),
    {
        let v = c as u32;
        if v < 0x20 || v == 0x7f {
            Char { char: '^', style: style.to_owned(), width: 1 }
        } else {
            let w = match unicode_char_width(c) {
                Some(w) => w,
                None => 0,
            };
            Char { char: c, style: style.to_owned(), width: w }
        }
    }
}

impl PartialEq for Char {
    fn eq(&self, other: &Self) -> (r: bool) {
        self.char == other.char && self.style == other.style
    }
}

impl vstd::std_specs::cmp::PartialEqSpecImpl for Char {
    open spec fn obeys_eq_spec() -> bool {
        true
    }

    open spec fn eq_spec(&self, other: &Self) -> bool {
        self.char == other.char && self.style@ == other.style@
    }
}

/// A window identity, used to key per-window cursor and menu positions.
#[derive(Debug, Clone)]
pub struct Window {
    pub content: String,
}

impl PartialEq for Window {
    fn eq(&self, other: &Self) -> (r: bool) {
        self.content == other.content
    }
}

impl vstd::std_specs::cmp::PartialEqSpecImpl for Window {
    open spec fn obeys_eq_spec() -> bool {
        true
    }

    open spec fn eq_spec(&self, other: &Self) -> bool {
        self.content@ == other.content@
    }
}

/// A deferred float draw, run by z-index order.
pub trait FloatDraw {
    fn draw(&self);
}

/// The rectangle every draw primitive is clipped to.
#[derive(Debug, Clone, Copy, PartialEq, Eq, Structural)]
pub struct WritePosition {
    pub xpos: usize,
    pub ypos: usize,
    pub width: usize,
    pub height: usize,
}

impl WritePosition {
    pub fn new(xpos: usize, ypos: usize, width: usize, height: usize) -> (r: Self)
        ensures
            r == (WritePosition { xpos, ypos, width, height }),
    {
        WritePosition { xpos, ypos, width, height }
    }
}

/// Whether a cell coordinate lies inside a write position.
pub open spec fn in_rect(wp: WritePosition, y: int, x: int) -> bool {
    &&& wp.xpos <= x < wp.xpos + wp.width
    &&& wp.ypos <= y < wp.ypos + wp.height
}

/// The first value an association list holds for a key.
pub open spec fn assoc_find<T>(s: Seq<(usize, T)>, k: int) -> Option<T>
    decreases s.len(),
{
    if s.len() == 0 {
        None
    } else if s[0].0 == k {
        Some(s[0].1)
    } else {
        assoc_find(s.drop_first(), k)
    }
}

/// An association list with the first entry for a key replaced, or the
/// entry appended when the key is new.
pub open spec fn assoc_set<T>(s: Seq<(usize, T)>, k: usize, v: T) -> Seq<(usize, T)>
    decreases s.len(),
{
    if s.len() == 0 {
        seq![(k, v)]
    } else if s[0].0 == k {
        seq![(k, v)] + s.drop_first()
    } else {
        seq![s[0]] + assoc_set(s.drop_first(), k, v)
    }
}

proof fn lemma_assoc_set_find<T>(s: Seq<(usize, T)>, k: usize, v: T, k2: int)
    ensures
        k2 == k ==> assoc_find(assoc_set(s, k, v), k2) == Some(v),
        k2 != k ==> assoc_find(assoc_set(s, k, v), k2) == assoc_find(s, k2),
    decreases s.len(),
{
    if s.len() == 0 {
        let t = assoc_set(s, k, v);
        assert(t =~= seq![(k, v)]);
        assert(t[0] == (k, v));
        if k2 != k {
            assert(t.drop_first() =~= Seq::<(usize, T)>::empty());
            assert(assoc_find(t, k2) == assoc_find(t.drop_first(), k2));
            assert(assoc_find(t.drop_first(), k2) is None);
            assert(assoc_find(s, k2) is None);
        } else {
            assert(t[0].0 == k2);
            assert(assoc_find(t, k2) == Some(v));
        }
    } else if s[0].0 == k {
        let t = assoc_set(s, k, v);
        assert(t == seq![(k, v)] + s.drop_first());
        assert(t[0] == (k, v));
        assert(t.drop_first() =~= s.drop_first());
        if k2 == k {
            assert(t[0].0 == k2);
            assert(assoc_find(t, k2) == Some(v));
        } else {
            assert(assoc_find(t, k2) == assoc_find(s.drop_first(), k2));
            assert(assoc_find(s, k2) == assoc_find(s.drop_first(), k2));
        }
    } else {
        let t = assoc_set(s, k, v);
        assert(t == seq![s[0]] + assoc_set(s.drop_first(), k, v));
        assert(t[0] == s[0]);
        assert(t.drop_first() =~= assoc_set(s.drop_first(), k, v));
        lemma_assoc_set_find(s.drop_first(), k, v, k2);
        if k2 == k {
            assert(t[0].0 != k2);
            assert(assoc_find(t, k2) == assoc_find(t.drop_first(), k2));
            assert(assoc_find(t, k2) == Some(v));
        }
        if k2 == s[0].0 {
            assert(assoc_find(t, k2) == Some(s[0].1));
            assert(assoc_find(s, k2) == Some(s[0].1));
        }
        if k2 != k && k2 != s[0].0 {
            assert(assoc_find(t, k2) == assoc_find(t.drop_first(), k2));
            assert(assoc_find(s, k2) == assoc_find(s.drop_first(), k2));
        }
    }
    assert(k2 == k ==> assoc_find(assoc_set(s, k, v), k2) == Some(v));
    assert(k2 != k ==> assoc_find(assoc_set(s, k, v), k2) == assoc_find(s, k2));
}

/// The buffer rows as mathematical association lists.
pub open spec fn rows_view(rows: Seq<(usize, Vec<(usize, Char)>)>) -> Seq<
    (usize, Seq<(usize, Char)>),
> {
    rows.map_values(|r: (usize, Vec<(usize, Char)>)| (r.0, r.1@))
}

/// A screen: a sparse cell grid with per-window positions, a default cell,
/// and deferred float draws.
pub struct Screen {
    pub data_buffer: Vec<(usize, Vec<(usize, Char)>)>,
    pub default_char: Char,
    pub cursor_positions: Vec<(Window, Point)>,
    pub show_cursor: bool,
    pub menu_positions: Vec<(Window, Point)>,
    pub width: usize,
    pub height: usize,
    pub draw_float_functions: Vec<(i32, Box<dyn FloatDraw>)>,
}

/// The rows of a screen as association lists.
pub open spec fn screen_rows(s: &Screen) -> Seq<(usize, Seq<(usize, Char)>)> {
    rows_view(s.data_buffer@)
}

/// Whether the buffer holds a cell at a coordinate.
pub open spec fn populated(s: &Screen, y: int, x: int) -> bool {
    match assoc_find(screen_rows(s), y) {
        Some(row) => assoc_find(row, x) is Some,
        None => false,
    }
}

/// The cell shown at a coordinate: the stored cell, or the default.
pub open spec fn cell_at(s: &Screen, y: int, x: int) -> Char {
    match assoc_find(screen_rows(s), y) {
        Some(row) => match assoc_find(row, x) {
            Some(c) => c,
            None => s.default_char,
        },
        None => s.default_char,
    }
}

/// All screen fields except the cell buffer, unchanged.
pub open spec fn same_frame(a: &Screen, b: &Screen) -> bool {
    &&& a.default_char == b.default_char
    &&& a.cursor_positions == b.cursor_positions
    &&& a.show_cursor == b.show_cursor
    &&& a.menu_positions == b.menu_positions
    &&& a.width == b.width
    &&& a.height == b.height
    &&& a.draw_float_functions == b.draw_float_functions
}

/// One cell write applied to the rows of a buffer.
pub open spec fn set_cell_spec(
    rows: Seq<(usize, Seq<(usize, Char)>)>,
    y: usize,
    x: usize,
    ch: Char,
) -> Seq<(usize, Seq<(usize, Char)>)> {
    let row = match assoc_find(rows, y as int) {
        Some(r) => r,
        None => Seq::empty(),
    };
    assoc_set(rows, y, assoc_set(row, x, ch))
}

/// Setting one cell changes that coordinate and nothing else.
proof fn lemma_set_cell_spec_points(
    rows: Seq<(usize, Seq<(usize, Char)>)>,
    y: usize,
    x: usize,
    ch: Char,
    y2: int,
    x2: int,
)
    ensures
        ({
            let after = set_cell_spec(rows, y, x, ch);
            if y2 == y && x2 == x {
                assoc_find(after, y2) is Some && assoc_find(assoc_find(after, y2).unwrap(), x2)
                    == Some(ch)
            } else {
                (match assoc_find(after, y2) {
                    Some(r) => assoc_find(r, x2),
                    None => None,
                }) == (match assoc_find(rows, y2) {
                    Some(r) => assoc_find(r, x2),
                    None => None,
                })
            }
        }),
{
    let row = match assoc_find(rows, y as int) {
        Some(r) => r,
        None => Seq::<(usize, Char)>::empty(),
    };
    lemma_assoc_set_find(rows, y, assoc_set(row, x, ch), y2);
    lemma_assoc_set_find(row, x, ch, x2);
    if assoc_find(rows, y as int) is None {
        assert(assoc_find(Seq::<(usize, Char)>::empty(), x2) is None);
    }
}

impl Screen {
    /// A fresh screen of the given dimensions; without a default cell, a
    /// transparent space is used.
    pub fn new(default_char: Option<Char>, initial_width: usize, initial_height: usize) -> (r:
        Self)
        ensures
            screen_rows(&r).len() == 0,
            match default_char {
                Some(c) => r.default_char == c,
                None => r.default_char.char == ' ' && r.default_char.style@
                    == default_char_style_string() && r.default_char.width == display_width(' '),
            },
            r.cursor_positions@.len() == 0,
            r.menu_positions@.len() == 0,
            r.show_cursor == true,
            r.width == initial_width,
            r.height == initial_height,
            r.draw_float_functions@.len() == 0,
    {
        let dc = match default_char {
            Some(c) => c,
            None => Char::new(' ', "[transparent]"),
        };
        Screen {
            data_buffer: Vec::new(),
            default_char: dc,
            cursor_positions: Vec::new(),
            show_cursor: true,
            menu_positions: Vec::new(),
            width: initial_width,
            height: initial_height,
            draw_float_functions: Vec::new(),
        }
    }

    /// The default cell, cloned.
    pub fn default_char(&self) -> (r: Char)
        ensures
            r.char == self.default_char.char,
            r.style@ == self.default_char.style@,
            r.width == self.default_char.width,
    {
        Char {
            char: self.default_char.char,
            style: self.default_char.style.clone(),
            width: self.default_char.width,
        }
    }

    /// Whether the cursor should be shown after a render pass.
    pub fn show_cursor(&self) -> (r: bool)
        ensures
            r == self.show_cursor,
    {
        self.show_cursor
    }

    /// Writes one cell of the buffer.
    fn set_cell(&mut self, y: usize, x: usize, ch: Char)
        ensures
            screen_rows(final(self)) == set_cell_spec(screen_rows(old(self)), y, x, ch),
            same_frame(final(self), old(self)),
    {
        let ghost rows0 = screen_rows(self);
        let ri = assoc_index(&self.data_buffer, y);
        proof {
            assert(forall|j: int|
                0 <= j < ri ==> #[trigger] rows_view(self.data_buffer@)[j].0 != y);
            if ri < self.data_buffer@.len() {
                assert(rows_view(self.data_buffer@)[ri as int].0 == y);
            }
            lemma_assoc_first_hit(rows_view(self.data_buffer@), y as int, ri as int);
        }
        if ri < self.data_buffer.len() {
            let ghost rowv = self.data_buffer@[ri as int].1@;
            let ci = assoc_index(&self.data_buffer[ri].1, x);
            proof {
                lemma_assoc_first_hit(rowv, x as int, ci as int);
            }
            if ci < self.data_buffer[ri].1.len() {
                self.data_buffer[ri].1[ci] = (x, ch);
                proof {
                    lemma_assoc_set_at(rowv, x, ch, ci as int);
                    lemma_assoc_set_at(
                        rows_view(old(self).data_buffer@),
                        y,
                        assoc_set(rowv, x, ch),
                        ri as int,
                    );
                    assert(rows_view(self.data_buffer@) =~= rows_view(
                        old(self).data_buffer@,
                    ).update(ri as int, (y, assoc_set(rowv, x, ch))));
                    assert(screen_rows(self) =~= set_cell_spec(rows0, y, x, ch));
                }
            } else {
                self.data_buffer[ri].1.push((x, ch));
                proof {
                    lemma_assoc_set_miss(rowv, x, ch);
                    lemma_assoc_set_at(
                        rows_view(old(self).data_buffer@),
                        y,
                        assoc_set(rowv, x, ch),
                        ri as int,
                    );
                    assert(rows_view(self.data_buffer@) =~= rows_view(
                        old(self).data_buffer@,
                    ).update(ri as int, (y, assoc_set(rowv, x, ch))));
                    assert(screen_rows(self) =~= set_cell_spec(rows0, y, x, ch));
                }
            }
        } else {
            let mut row: Vec<(usize, Char)> = Vec::new();
            row.push((x, ch));
            self.data_buffer.push((y, row));
            proof {
                lemma_assoc_set_miss(rows0, y, assoc_set(Seq::empty(), x, ch));
                assert(assoc_set(Seq::<(usize, Char)>::empty(), x, ch) =~= seq![(x, ch)]);
                assert(rows_view(self.data_buffer@) =~= rows_view(old(self).data_buffer@).push(
                    (y, seq![(x, ch)]),
                ));
                assert(screen_rows(self) =~= set_cell_spec(rows0, y, x, ch));
            }
        }
    }
}

/// The index of the first entry holding a key, or the length when none does.
pub fn assoc_index<T>(v: &Vec<(usize, T)>, k: usize) -> (r: usize)
    ensures
        r <= v@.len(),
        forall|j: int| 0 <= j < r ==> #[trigger] v@[j].0 != k,
        r < v@.len() ==> v@[r as int].0 == k,
{
    let mut i: usize = 0;
    while i < v.len() && v[i].0 != k
        invariant
            i <= v@.len(),
            forall|j: int| 0 <= j < i ==> #[trigger] v@[j].0 != k,
        decreases v@.len() - i,
    {
        i = i + 1;
    }
    i
}

/// When the first `i` entries miss the key and entry `i` (if present) hits
/// it, the association lookup answers entry `i`, or nothing at the end.
pub proof fn lemma_assoc_first_hit<T>(s: Seq<(usize, T)>, k: int, i: int)
    requires
        0 <= i <= s.len(),
        forall|j: int| 0 <= j < i ==> #[trigger] s[j].0 != k,
        i < s.len() ==> s[i].0 == k,
    ensures
        i < s.len() ==> assoc_find(s, k) == Some(s[i].1),
        i == s.len() ==> assoc_find(s, k) is None,
    decreases s.len(),
{
    if s.len() == 0 {
    } else if s[0].0 == k {
        assert(i == 0);
    } else {
        assert(forall|j: int| 0 <= j < i - 1 ==> #[trigger] s.drop_first()[j].0 != k);
        lemma_assoc_first_hit(s.drop_first(), k, i - 1);
    }
}

/// Replacing the first hit entry is an in-place update.
proof fn lemma_assoc_set_at<T>(s: Seq<(usize, T)>, k: usize, v: T, i: int)
    requires
        0 <= i < s.len(),
        forall|j: int| 0 <= j < i ==> #[trigger] s[j].0 != k,
        s[i].0 == k,
    ensures
        assoc_set(s, k, v) =~= s.update(i, (k, v)),
    decreases s.len(),
{
    if s[0].0 == k {
        assert(i == 0);
        assert(assoc_set(s, k, v) =~= seq![(k, v)] + s.drop_first());
        assert(seq![(k, v)] + s.drop_first() =~= s.update(0, (k, v)));
    } else {
        assert(forall|j: int| 0 <= j < i - 1 ==> #[trigger] s.drop_first()[j].0 != k);
        lemma_assoc_set_at(s.drop_first(), k, v, i - 1);
        assert(assoc_set(s, k, v) =~= seq![s[0]] + assoc_set(s.drop_first(), k, v));
        assert(seq![s[0]] + s.drop_first().update(i - 1, (k, v)) =~= s.update(i, (k, v)));
    }
}

/// Appending is what setting an absent key means.
proof fn lemma_assoc_set_miss<T>(s: Seq<(usize, T)>, k: usize, v: T)
    requires
        forall|j: int| 0 <= j < s.len() ==> #[trigger] s[j].0 != k,
    ensures
        assoc_set(s, k, v) =~= s.push((k, v)),
    decreases s.len(),
{
    if s.len() == 0 {
    } else {
        lemma_assoc_set_miss(s.drop_first(), k, v);
        assert(assoc_set(s, k, v) =~= seq![s[0]] + assoc_set(s.drop_first(), k, v));
        assert(seq![s[0]] + s.drop_first().push((k, v)) =~= s.push((k, v)));
    }
}

/// The style string of the transparent default cell.
pub open spec fn default_char_style_string() -> Seq<char> {
    "[transparent]"@
}

/// The stored cell view at a coordinate, if one is stored.
pub open spec fn grid_cell(s: &Screen, y: int, x: int) -> Option<CharView> {
    match assoc_find(screen_rows(s), y) {
        Some(row) => match assoc_find(row, x) {
            Some(c) => Some(c@),
            None => None,
        },
        None => None,
    }
}

/// The cell a coordinate shows: the stored cell, or the default.
pub open spec fn shown_cell(s: &Screen, y: int, x: int) -> CharView {
    match grid_cell(s, y, x) {
        Some(cv) => cv,
        None => s.default_char@,
    }
}

/// The cell a direct draw builds for one character.
pub open spec fn drawn_cell(c: char, style: Seq<char>) -> CharView {
    CharView { char: display_char(c), style: style, width: display_width(c) }
}

/// What a direct draw starting at `(x, y)` writes to the target coordinate
/// `(ty, tx)`, if anything; a later write to the same coordinate wins.
pub open spec fn drawn_at(
    wp: WritePosition,
    data: Seq<char>,
    style: Seq<char>,
    x: int,
    y: int,
    ty: int,
    tx: int,
) -> Option<CharView>
    decreases data.len(),
{
    if data.len() == 0 {
        None
    } else if y >= wp.ypos + wp.height {
        None
    } else if data[0] == '\n' {
        drawn_at(wp, data.drop_first(), style, wp.xpos as int, y + 1, ty, tx)
    } else if x >= wp.xpos + wp.width {
        None
    } else {
        match drawn_at(wp, data.drop_first(), style, x + 1, y, ty, tx) {
            Some(cv) => Some(cv),
            None => if ty == y && tx == x {
                Some(drawn_cell(data[0], style))
            } else {
                None
            },
        }
    }
}

/// A direct draw only ever writes inside its rectangle.
proof fn lemma_drawn_at_inside(
    wp: WritePosition,
    data: Seq<char>,
    style: Seq<char>,
    x: int,
    y: int,
    ty: int,
    tx: int,
)
    requires
        x >= wp.xpos,
        y >= wp.ypos,
        !in_rect(wp, ty, tx),
    ensures
        drawn_at(wp, data, style, x, y, ty, tx) is None,
    decreases data.len(),
{
    if data.len() == 0 {
    } else if y >= wp.ypos + wp.height {
    } else if data[0] == '\n' {
        lemma_drawn_at_inside(wp, data.drop_first(), style, wp.xpos as int, y + 1, ty, tx);
    } else if x >= wp.xpos + wp.width {
    } else {
        lemma_drawn_at_inside(wp, data.drop_first(), style, x + 1, y, ty, tx);
    }
}

impl Screen {
    /// The stored cell at a coordinate, cloned, when one is stored.
    pub fn lookup_cell(&self, y: usize, x: usize) -> (r: Option<Char>)
        ensures
            match r {
                Some(c) => grid_cell(self, y as int, x as int) == Some(c@),
                None => grid_cell(self, y as int, x as int) is None,
            },
    {
        let ri = assoc_index(&self.data_buffer, y);
        proof {
            lemma_assoc_first_hit(rows_view(self.data_buffer@), y as int, ri as int);
        }
        if ri < self.data_buffer.len() {
            let ci = assoc_index(&self.data_buffer[ri].1, x);
            proof {
                lemma_assoc_first_hit(self.data_buffer@[ri as int].1@, x as int, ci as int);
            }
            if ci < self.data_buffer[ri].1.len() {
                let c = &self.data_buffer[ri].1[ci].1;
                Some(Char { char: c.char, style: c.style.clone(), width: c.width })
            } else {
                None
            }
        } else {
            None
        }
    }

    /// Records where the cursor of a window stands.
    pub fn set_cursor_position(&mut self, window: Window, position: Point)
        ensures
            final(self).cursor_positions@ == old(self).cursor_positions@.insert(
                0,
                (window, position),
            ),
            final(self).menu_positions == old(self).menu_positions,
            final(self).data_buffer == old(self).data_buffer,
            final(self).default_char == old(self).default_char,
            final(self).show_cursor == old(self).show_cursor,
            final(self).width == old(self).width,
            final(self).height == old(self).height,
            final(self).draw_float_functions == old(self).draw_float_functions,
    {
        self.cursor_positions.insert(0, (window, position));
    }

    /// Records where the menu of a window opens.
    pub fn set_menu_position(&mut self, window: Window, position: Point)
        ensures
            final(self).menu_positions@ == old(self).menu_positions@.insert(
                0,
                (window, position),
            ),
            final(self).cursor_positions == old(self).cursor_positions,
            final(self).data_buffer == old(self).data_buffer,
            final(self).default_char == old(self).default_char,
            final(self).show_cursor == old(self).show_cursor,
            final(self).width == old(self).width,
            final(self).height == old(self).height,
            final(self).draw_float_functions == old(self).draw_float_functions,
    {
        self.menu_positions.insert(0, (window, position));
    }

    /// The recorded cursor position of a window, or the origin.
    pub fn get_cursor_position(&self, window: &Window) -> (r: Point)
        ensures
            r == (match pos_find(self.cursor_positions@, window.content@) {
                Some(p) => p,
                None => (Point { x: 0, y: 0 }),
            }),
    {
        match pos_lookup(&self.cursor_positions, window) {
            Some(p) => p,
            None => Point { x: 0, y: 0 },
        }
    }

    /// The recorded menu position of a window, falling back to its cursor
    /// position, or the origin.
    pub fn get_menu_position(&self, window: &Window) -> (r: Point)
        ensures
            r == (match pos_find(self.menu_positions@, window.content@) {
                Some(p) => p,
                None => match pos_find(self.cursor_positions@, window.content@) {
                    Some(p) => p,
                    None => (Point { x: 0, y: 0 }),
                },
            }),
    {
        match pos_lookup(&self.menu_positions, window) {
            Some(p) => p,
            None => match pos_lookup(&self.cursor_positions, window) {
                Some(p) => p,
                None => Point { x: 0, y: 0 },
            },
        }
    }

    /// Queues a float draw to run at the given z-index, after those
    /// already queued; nothing else changes.
    pub fn draw_with_z_index(&mut self, z_index: i32, draw_func: Box<dyn FloatDraw>)
        ensures
            final(self).draw_float_functions@ == old(self).draw_float_functions@.push(
                (z_index, draw_func),
            ),
            final(self).data_buffer == old(self).data_buffer,
            final(self).cursor_positions == old(self).cursor_positions,
            final(self).menu_positions == old(self).menu_positions,
            final(self).default_char == old(self).default_char,
            final(self).show_cursor == old(self).show_cursor,
            final(self).width == old(self).width,
            final(self).height == old(self).height,
    {
        self.draw_float_functions.push((z_index, draw_func));
    }

    /// Runs all queued float draws, lowest z-index first; draws with equal
    /// z-indexes run in the order they were queued.  The draws only read;
    /// every other field of the screen is untouched.
    pub fn draw_all_floats(&mut self)
        ensures
            final(self).draw_float_functions@.len() == 0,
            final(self).data_buffer == old(self).data_buffer,
            final(self).cursor_positions == old(self).cursor_positions,
            final(self).menu_positions == old(self).menu_positions,
            final(self).default_char == old(self).default_char,
            final(self).show_cursor == old(self).show_cursor,
            final(self).width == old(self).width,
            final(self).height == old(self).height,
    {
        while self.draw_float_functions.len() > 0
            invariant
                self.data_buffer == old(self).data_buffer,
                self.cursor_positions == old(self).cursor_positions,
                self.menu_positions == old(self).menu_positions,
                self.default_char == old(self).default_char,
                self.show_cursor == old(self).show_cursor,
                self.width == old(self).width,
                self.height == old(self).height,
            decreases self.draw_float_functions@.len(),
        {
            let mut best: usize = 0;
            let mut i: usize = 1;
            while i < self.draw_float_functions.len()
                invariant
                    best < i,
                    i <= self.draw_float_functions@.len(),
                    self.draw_float_functions@.len() > 0,
                    forall|j: int|
                        0 <= j < i ==> self.draw_float_functions@[best as int].0
                            <= #[trigger] self.draw_float_functions@[j].0,
                    forall|j: int|
                        0 <= j < best ==> self.draw_float_functions@[best as int].0
                            < #[trigger] self.draw_float_functions@[j].0,
                decreases self.draw_float_functions@.len() - i,
            {
                if self.draw_float_functions[i].0 < self.draw_float_functions[best].0 {
                    best = i;
                }
                i = i + 1;
            }
            let entry = self.draw_float_functions.remove(best);
            entry.1.draw();
        }
    }

    /// Appends one style fragment to every stored cell.
    pub fn append_style_to_content(&mut self, style: &str)
        ensures
            same_positions(final(self), old(self)),
            forall|ty: int, tx: int|
                #[trigger] grid_cell(final(self), ty, tx) == (match grid_cell(
                    old(self),
                    ty,
                    tx,
                ) {
                    Some(cv) => Some(
                        CharView { style: cv.style + " "@ + style@, char: cv.char, width: cv.width },
                    ),
                    None => None,
                }),
    {
        let ghost rows0 = self.data_buffer@;
        let mut ri: usize = 0;
        while ri < self.data_buffer.len()
            invariant
                ri <= self.data_buffer@.len(),
                self.data_buffer@.len() == rows0.len(),
                same_positions(self, old(self)),
                rows0 == old(self).data_buffer@,
                forall|j: int|
                    ri <= j < rows0.len() ==> #[trigger] self.data_buffer@[j] == rows0[j],
                forall|j: int|
                    0 <= j < ri ==> #[trigger] self.data_buffer@[j].0 == rows0[j].0 && row_views(
                        self.data_buffer@[j].1@,
                    ) == row_restyled(rows0[j].1@, style@),
            decreases self.data_buffer@.len() - ri,
        {
            let ghost row0 = self.data_buffer@[ri as int].1@;
            proof {
                assert(self.data_buffer@[ri as int] == rows0[ri as int]);
            }
            let ykey = self.data_buffer[ri].0;
            let m = self.data_buffer[ri].1.len();
            let mut new_row: Vec<(usize, Char)> = Vec::new();
            let mut ci: usize = 0;
            proof {
                assert(row_views(new_row@) =~= row_restyled(row0.take(0), style@));
            }
            while ci < m
                invariant
                    ci <= m,
                    ri < self.data_buffer@.len(),
                    m == row0.len(),
                    row0 == self.data_buffer@[ri as int].1@,
                    new_row@.len() == ci,
                    row_views(new_row@) == row_restyled(row0.take(ci as int), style@),
                decreases m - ci,
            {
                let xkey = self.data_buffer[ri].1[ci].0;
                let old_cell = &self.data_buffer[ri].1[ci].1;
                let mut ns = old_cell.style.clone();
                ns.append(" ");
                ns.append(style);
                let nc = Char { char: old_cell.char, style: ns, width: old_cell.width };
                new_row.push((xkey, nc));
                proof {
                    assert(row0.take(ci + 1) =~= row0.take(ci as int).push(row0[ci as int]));
                    assert(row_restyled(row0.take(ci + 1), style@) =~= row_restyled(
                        row0.take(ci as int),
                        style@,
                    ).push(
                        (
                            row0[ci as int].0,
                            CharView {
                                style: restyled(row0[ci as int].1@.style, style@),
                                char: row0[ci as int].1@.char,
                                width: row0[ci as int].1@.width,
                            },
                        ),
                    ));
                    assert(row_views(new_row@) =~= row_restyled(row0.take(ci + 1), style@));
                }
                ci = ci + 1;
            }
            let ghost dbprev = self.data_buffer@;
            self.data_buffer[ri] = (ykey, new_row);
            proof {
                assert(self.data_buffer@ == dbprev.update(ri as int, (ykey, new_row)));
                assert(row0.take(m as int) =~= row0);
                assert(row_views(self.data_buffer@[ri as int].1@) == row_restyled(
                    rows0[ri as int].1@,
                    style@,
                ));
                assert(forall|j: int|
                    ri + 1 <= j < rows0.len() ==> #[trigger] self.data_buffer@[j] == rows0[j]);
            }
            ri = ri + 1;
        }
        proof {
            assert forall|ty: int, tx: int|
                #[trigger] grid_cell(self, ty, tx) == (match grid_cell(old(self), ty, tx) {
                    Some(cv) => Some(
                        CharView { style: cv.style + " "@ + style@, char: cv.char, width: cv.width },
                    ),
                    None => None,
                }) by {
                lemma_restyled_rows(old(self).data_buffer@, self.data_buffer@, style@, ty, tx);
            }
        }
    }

    /// Writes a run of text starting at the top-left of the write position;
    /// newlines advance to the next row, and nothing outside the rectangle
    /// is touched.
    pub fn direct_draw(&mut self, write_position: &WritePosition, data: &str, style: &str)
        requires
            write_position.xpos + write_position.width <= usize::MAX,
            write_position.ypos + write_position.height <= usize::MAX,
        ensures
            same_positions(final(self), old(self)),
            forall|ty: int, tx: int|
                #[trigger] grid_cell(final(self), ty, tx) == (match drawn_at(
                    *write_position,
                    data@,
                    style@,
                    write_position.xpos as int,
                    write_position.ypos as int,
                    ty,
                    tx,
                ) {
                    Some(cv) => Some(cv),
                    None => grid_cell(old(self), ty, tx),
                }),
            forall|ty: int, tx: int|
                !in_rect(*write_position, ty, tx) ==> #[trigger] grid_cell(final(self), ty, tx)
                    == grid_cell(old(self), ty, tx),
    {
        let wp = *write_position;
        let cv = str_chars(data);
        let mut x: usize = wp.xpos;
        let mut y: usize = wp.ypos;
        let mut i: usize = 0;
        proof {
            assert(data@.skip(0) =~= data@);
        }
        while i < cv.len()
            invariant
                i <= cv@.len(),
                cv@ == data@,
                same_positions(self, old(self)),
                wp == *write_position,
                wp.xpos + wp.width <= usize::MAX,
                wp.ypos + wp.height <= usize::MAX,
                wp.xpos <= x <= wp.xpos + wp.width,
                wp.ypos <= y <= wp.ypos + wp.height,
                forall|ty: int, tx: int|
                    (match drawn_at(wp, data@.skip(i as int), style@, x as int, y as int, ty, tx) {
                        Some(cv2) => Some(cv2),
                        None => #[trigger] grid_cell(self, ty, tx),
                    }) == (match drawn_at(
                        wp,
                        data@,
                        style@,
                        wp.xpos as int,
                        wp.ypos as int,
                        ty,
                        tx,
                    ) {
                        Some(cv2) => Some(cv2),
                        None => grid_cell(old(self), ty, tx),
                    }),
            decreases cv@.len() - i,
        {
            let c = cv[i];
            let ghost rest = data@.skip(i as int);
            proof {
                assert(rest[0] == data@[i as int]);
                assert(rest.drop_first() =~= data@.skip(i + 1));
            }
            if y >= wp.ypos + wp.height {
                proof {
                    assert(forall|ty: int, tx: int|
                        drawn_at(wp, rest, style@, x as int, y as int, ty, tx) is None);
                }
                proof {
                    lemma_drawn_outside_unchanged(wp, data@, style@, self, old(self));
                }
                return ;
            }
            if c == '\n' {
                y = y + 1;
                x = wp.xpos;
            } else if x >= wp.xpos + wp.width {
                proof {
                    assert(forall|ty: int, tx: int|
                        drawn_at(wp, rest, style@, x as int, y as int, ty, tx) is None);
                }
                proof {
                    lemma_drawn_outside_unchanged(wp, data@, style@, self, old(self));
                }
                return ;
            } else {
                let ch = Char::new(c, style);
                let ghost prev = *self;
                self.set_cell(y, x, ch);
                proof {
                    assert forall|ty: int, tx: int|
                        #[trigger] grid_cell(self, ty, tx) == (if ty == y && tx == x {
                            Some(ch@)
                        } else {
                            grid_cell(&prev, ty, tx)
                        }) by {
                        lemma_set_cell_spec_points(screen_rows(&prev), y, x, ch, ty, tx);
                    }
                    assert(ch@ == drawn_cell(data@[i as int], style@));
                }
                x = x + 1;
            }
            i = i + 1;
        }
        proof {
            assert(data@.skip(data@.len() as int) =~= Seq::<char>::empty());
            lemma_drawn_outside_unchanged(wp, data@, style@, self, old(self));
        }
    }

    /// Composes a style fragment onto every cell of the write position,
    /// after or before what each cell already has; a blank fragment does
    /// nothing, and nothing outside the rectangle is touched.
    pub fn fill_area(&mut self, write_position: &WritePosition, style: &str, after: bool)
        requires
            write_position.xpos + write_position.width <= usize::MAX,
            write_position.ypos + write_position.height <= usize::MAX,
        ensures
            same_positions(final(self), old(self)),
            all_space(style@) ==> forall|ty: int, tx: int|
                #[trigger] grid_cell(final(self), ty, tx) == grid_cell(old(self), ty, tx),
            !all_space(style@) ==> forall|ty: int, tx: int|
                #[trigger] grid_cell(final(self), ty, tx) == (if in_rect(*write_position, ty, tx) {
                    Some(filled_cell(shown_cell(old(self), ty, tx), style@, after))
                } else {
                    grid_cell(old(self), ty, tx)
                }),
    {
        if is_blank(style) {
            return ;
        }
        let wp = *write_position;
        let mut y: usize = wp.ypos;
        while y < wp.ypos + wp.height
            invariant
                wp == *write_position,
                wp.xpos + wp.width <= usize::MAX,
                wp.ypos + wp.height <= usize::MAX,
                wp.ypos <= y <= wp.ypos + wp.height,
                same_positions(self, old(self)),
                !all_space(style@),
                forall|ty: int, tx: int|
                    #[trigger] grid_cell(self, ty, tx) == (if in_rect(wp, ty, tx) && ty < y {
                        Some(filled_cell(shown_cell(old(self), ty, tx), style@, after))
                    } else {
                        grid_cell(old(self), ty, tx)
                    }),
            decreases wp.ypos + wp.height - y,
        {
            let mut x: usize = wp.xpos;
            while x < wp.xpos + wp.width
                invariant
                    wp == *write_position,
                    wp.xpos + wp.width <= usize::MAX,
                    wp.ypos + wp.height <= usize::MAX,
                    wp.ypos <= y < wp.ypos + wp.height,
                    wp.xpos <= x <= wp.xpos + wp.width,
                    same_positions(self, old(self)),
                    !all_space(style@),
                    forall|ty: int, tx: int|
                        #[trigger] grid_cell(self, ty, tx) == (if in_rect(wp, ty, tx) && (ty < y
                            || (ty == y && tx < x)) {
                            Some(filled_cell(shown_cell(old(self), ty, tx), style@, after))
                        } else {
                            grid_cell(old(self), ty, tx)
                        }),
                decreases wp.xpos + wp.width - x,
            {
                let base = match self.lookup_cell(y, x) {
                    Some(c) => c,
                    None => self.default_char(),
                };
                proof {
                    assert(base@ == shown_cell(old(self), y as int, x as int));
                }
                let mut ns = String::new();
                if after {
                    ns.append(base.style.as_str());
                    ns.append(" ");
                    ns.append(style);
                } else {
                    ns.append(style);
                    ns.append(" ");
                    ns.append(base.style.as_str());
                }
                let nc = Char { char: base.char, style: ns, width: base.width };
                let ghost prev = *self;
                self.set_cell(y, x, nc);
                proof {
                    assert forall|ty: int, tx: int|
                        #[trigger] grid_cell(self, ty, tx) == (if ty == y && tx == x {
                            Some(nc@)
                        } else {
                            grid_cell(&prev, ty, tx)
                        }) by {
                        lemma_set_cell_spec_points(screen_rows(&prev), y, x, nc, ty, tx);
                    }
                    assert(nc@ == filled_cell(shown_cell(old(self), y as int, x as int), style@, after));
                }
                x = x + 1;
            }
            y = y + 1;
        }
    }

    /// A textual dump of the visible grid, one line per row, with trailing
    /// whitespace removed at the end.
    pub fn buffer_representation(&self) -> (r: String)
        ensures
            r@ == trim_trailing_space(grid_chars(self, self.height as int)),
    {
        let mut out: Vec<char> = Vec::new();
        let mut y: usize = 0;
        proof {
            assert(out@ =~= grid_chars(self, 0));
        }
        while y < self.height
            invariant
                y <= self.height,
                out@ == grid_chars(self, y as int),
            decreases self.height - y,
        {
            let mut x: usize = 0;
            proof {
                assert(row_chars(self, y as int, 0) =~= Seq::<char>::empty());
                assert(out@ + row_chars(self, y as int, 0) =~= out@);
            }
            let ghost line_start = out@;
            while x < self.width
                invariant
                    x <= self.width,
                    y < self.height,
                    line_start == grid_chars(self, y as int),
                    out@ == line_start + row_chars(self, y as int, x as int),
                decreases self.width - x,
            {
                let c = match self.lookup_cell(y, x) {
                    Some(cell) => cell.char,
                    None => self.default_char.char,
                };
                proof {
                    assert(c == shown_cell(self, y as int, x as int).char);
                }
                out.push(c);
                proof {
                    assert(line_start + row_chars(self, y as int, x + 1) =~= (line_start
                        + row_chars(self, y as int, x as int)).push(
                        shown_cell(self, y as int, x as int).char,
                    ));
                }
                x = x + 1;
            }
            out.push('\n');
            proof {
                assert(grid_chars(self, y + 1) =~= (line_start + row_chars(
                    self,
                    y as int,
                    self.width as int,
                )).push('\n'));
            }
            y = y + 1;
        }
        while out.len() > 0 && is_space_char_at_end(&out)
            invariant
                trim_trailing_space(out@) == trim_trailing_space(
                    grid_chars(self, self.height as int),
                ),
            decreases out@.len(),
        {
            out.pop();
        }
        proof {
            if out@.len() > 0 {
                assert(!is_space(out@.last()));
            }
            assert(trim_trailing_space(out@) == out@);
        }
        chars_to_string(&out)
    }
}

/// Whether the last character of a non-empty buffer is whitespace.
fn is_space_char_at_end(v: &Vec<char>) -> (r: bool)
    requires
        v@.len() > 0,
    ensures
        r == is_space(v@.last()),
{
    crate::style::is_space_char(v[v.len() - 1])
}

/// Whether a style string is nothing but whitespace.
pub open spec fn all_space(s: Seq<char>) -> bool {
    forall|i: int| 0 <= i < s.len() ==> is_space(#[trigger] s[i])
}

/// Scans a style string for a non-whitespace character.
fn is_blank(s: &str) -> (r: bool)
    ensures
        r == all_space(s@),
{
    let cv = str_chars(s);
    let mut i: usize = 0;
    while i < cv.len()
        invariant
            i <= cv@.len(),
            cv@ == s@,
            forall|j: int| 0 <= j < i ==> is_space(#[trigger] s@[j]),
        decreases cv@.len() - i,
    {
        if !crate::style::is_space_char(cv[i]) {
            return false;
        }
        i = i + 1;
    }
    true
}

/// The cell a fill pass leaves behind: the same character and width, with
/// the fragment composed after or before the existing style.
pub open spec fn filled_cell(base: CharView, style: Seq<char>, after: bool) -> CharView {
    CharView {
        char: base.char,
        width: base.width,
        style: if after {
            base.style + " "@ + style
        } else {
            style + " "@ + base.style
        },
    }
}

/// One row of the visible grid, as text.
pub open spec fn row_chars(s: &Screen, y: int, n: int) -> Seq<char>
    decreases n,
{
    if n <= 0 {
        Seq::empty()
    } else {
        row_chars(s, y, n - 1).push(shown_cell(s, y, n - 1).char)
    }
}

/// The visible grid as text, one newline-terminated line per row.
pub open spec fn grid_chars(s: &Screen, rows: int) -> Seq<char>
    decreases rows,
{
    if rows <= 0 {
        Seq::empty()
    } else {
        grid_chars(s, rows - 1) + row_chars(s, rows - 1, s.width as int).push('\n')
    }
}

/// Text with its trailing whitespace removed.
pub open spec fn trim_trailing_space(t: Seq<char>) -> Seq<char>
    decreases t.len(),
{
    if t.len() == 0 {
        t
    } else if is_space(t.last()) {
        trim_trailing_space(t.drop_last())
    } else {
        t
    }
}

/// A draw whose pen never left the rectangle leaves the outside unchanged.
proof fn lemma_drawn_outside_unchanged(
    wp: WritePosition,
    data: Seq<char>,
    style: Seq<char>,
    now: &Screen,
    before: &Screen,
)
    requires
        forall|ty: int, tx: int|
            (match drawn_at(wp, data, style, wp.xpos as int, wp.ypos as int, ty, tx) {
                Some(cv2) => Some(cv2),
                None => #[trigger] grid_cell(now, ty, tx),
            }) == (match drawn_at(wp, data, style, wp.xpos as int, wp.ypos as int, ty, tx) {
                Some(cv2) => Some(cv2),
                None => grid_cell(before, ty, tx),
            }),
    ensures
        forall|ty: int, tx: int|
            !in_rect(wp, ty, tx) ==> #[trigger] grid_cell(now, ty, tx) == grid_cell(
                before,
                ty,
                tx,
            ),
{
    assert forall|ty: int, tx: int| !in_rect(wp, ty, tx) implies #[trigger] grid_cell(
        now,
        ty,
        tx,
    ) == grid_cell(before, ty, tx) by {
        lemma_drawn_at_inside(wp, data, style, wp.xpos as int, wp.ypos as int, ty, tx);
        assert((match drawn_at(wp, data, style, wp.xpos as int, wp.ypos as int, ty, tx) {
            Some(cv2) => Some(cv2),
            None => grid_cell(now, ty, tx),
        }) == (match drawn_at(wp, data, style, wp.xpos as int, wp.ypos as int, ty, tx) {
            Some(cv2) => Some(cv2),
            None => grid_cell(before, ty, tx),
        }));
    }
}

/// One cell with a style fragment appended.
pub open spec fn restyled(old_style: Seq<char>, style: Seq<char>) -> Seq<char> {
    old_style + " "@ + style
}

/// One row with a style fragment appended to every cell.
pub open spec fn row_restyled(row: Seq<(usize, Char)>, style: Seq<char>) -> Seq<(usize, CharView)> {
    row.map_values(|e: (usize, Char)| (e.0, CharView { style: restyled(e.1@.style, style), char: e.1@.char, width: e.1@.width }))
}

/// The cells of one row as views.
pub open spec fn row_views(row: Seq<(usize, Char)>) -> Seq<(usize, CharView)> {
    row.map_values(|e: (usize, Char)| (e.0, e.1@))
}

/// Association lookup commutes with taking cell views.
proof fn lemma_assoc_find_views(row: Seq<(usize, Char)>, tx: int)
    ensures
        assoc_find(row_views(row), tx) == (match assoc_find(row, tx) {
            Some(c) => Some(c@),
            None => None::<CharView>,
        }),
    decreases row.len(),
{
    if row.len() == 0 {
    } else {
        let r = row_views(row);
        assert(r[0] == (row[0].0, row[0].1@));
        if row[0].0 == tx {
        } else {
            lemma_assoc_find_views(row.drop_first(), tx);
            assert(row_views(row.drop_first()) =~= r.drop_first());
        }
    }
}

/// The per-window positions and screen frame fields, unchanged.
pub open spec fn same_positions(a: &Screen, b: &Screen) -> bool {
    &&& a.default_char == b.default_char
    &&& a.cursor_positions == b.cursor_positions
    &&& a.show_cursor == b.show_cursor
    &&& a.menu_positions == b.menu_positions
    &&& a.width == b.width
    &&& a.height == b.height
    &&& a.draw_float_functions == b.draw_float_functions
}

/// Restyling every entry of every row restyles exactly the stored cells.
proof fn lemma_restyled_rows(
    rows0: Seq<(usize, Vec<(usize, Char)>)>,
    rows1: Seq<(usize, Vec<(usize, Char)>)>,
    style: Seq<char>,
    ty: int,
    tx: int,
)
    requires
        rows1.len() == rows0.len(),
        forall|j: int|
            0 <= j < rows0.len() ==> #[trigger] rows1[j].0 == rows0[j].0 && row_views(
                rows1[j].1@,
            ) == row_restyled(rows0[j].1@, style),
    ensures
        ({
            let f0 = match assoc_find(rows_view(rows0), ty) {
                Some(row) => assoc_find(row, tx),
                None => None,
            };
            let f1 = match assoc_find(rows_view(rows1), ty) {
                Some(row) => assoc_find(row, tx),
                None => None,
            };
            (match f1 {
                Some(c) => Some(c@),
                None => None,
            }) == (match f0 {
                Some(c) => Some(
                    CharView { style: restyled(c@.style, style), char: c@.char, width: c@.width },
                ),
                None => None,
            })
        }),
    decreases rows0.len(),
{
    if rows0.len() == 0 {
    } else {
        let v0 = rows_view(rows0);
        let v1 = rows_view(rows1);
        assert(v0[0] == (rows0[0].0, rows0[0].1@));
        assert(v1[0] == (rows1[0].0, rows1[0].1@));
        if rows0[0].0 == ty {
            lemma_restyled_row(rows0[0].1@, style, tx);
            lemma_assoc_find_views(rows1[0].1@, tx);
            assert(row_views(rows1[0].1@) == row_restyled(rows0[0].1@, style));
        } else {
            assert(forall|j: int|
                0 <= j < rows0.drop_first().len() ==> #[trigger] rows1.drop_first()[j].0
                    == rows0.drop_first()[j].0 && row_views(rows1.drop_first()[j].1@)
                    == row_restyled(rows0.drop_first()[j].1@, style));
            lemma_restyled_rows(rows0.drop_first(), rows1.drop_first(), style, ty, tx);
            assert(rows_view(rows0.drop_first()) =~= v0.drop_first());
            assert(rows_view(rows1.drop_first()) =~= v1.drop_first());
        }
    }
}

/// Looking a column up in a restyled row restyles the found cell.
proof fn lemma_restyled_row(row: Seq<(usize, Char)>, style: Seq<char>, tx: int)
    ensures
        ({
            let r = row_restyled(row, style);
            (match assoc_find(r, tx) {
                Some(cv) => Some(cv),
                None => None,
            }) == (match assoc_find(row, tx) {
                Some(c) => Some(
                    CharView { style: restyled(c@.style, style), char: c@.char, width: c@.width },
                ),
                None => None,
            })
        }),
    decreases row.len(),
{
    if row.len() == 0 {
    } else {
        let r = row_restyled(row, style);
        assert(r[0] == (row[0].0, CharView {
            style: restyled(row[0].1@.style, style),
            char: row[0].1@.char,
            width: row[0].1@.width,
        }));
        if row[0].0 == tx {
        } else {
            lemma_restyled_row(row.drop_first(), style, tx);
            assert(row_restyled(row.drop_first(), style) =~= r.drop_first());
        }
    }
}

/// The first position an association of windows holds for a window name.
pub open spec fn pos_find(s: Seq<(Window, Point)>, w: Seq<char>) -> Option<Point>
    decreases s.len(),
{
    if s.len() == 0 {
        None
    } else if s[0].0.content@ == w {
        Some(s[0].1)
    } else {
        pos_find(s.drop_first(), w)
    }
}

/// Scans a window-position association for the first match.
fn pos_lookup(v: &Vec<(Window, Point)>, w: &Window) -> (r: Option<Point>)
    ensures
        r == pos_find(v@, w.content@),
{
    let mut i: usize = 0;
    while i < v.len() && !v[i].0.content.eq(&w.content)
        invariant
            i <= v@.len(),
            forall|j: int| 0 <= j < i ==> #[trigger] v@[j].0.content@ != w.content@,
        decreases v@.len() - i,
    {
        i = i + 1;
    }
    proof {
        lemma_pos_first_hit(v@, w.content@, i as int);
    }
    if i < v.len() {
        Some(v[i].1)
    } else {
        None
    }
}

proof fn lemma_pos_first_hit(s: Seq<(Window, Point)>, w: Seq<char>, i: int)
    requires
        0 <= i <= s.len(),
        forall|j: int| 0 <= j < i ==> #[trigger] s[j].0.content@ != w,
        i < s.len() ==> s[i].0.content@ == w,
    ensures
        i < s.len() ==> pos_find(s, w) == Some(s[i].1),
        i == s.len() ==> pos_find(s, w) is None,
    decreases s.len(),
{
    if s.len() == 0 {
    } else if s[0].0.content@ == w {
        assert(i == 0);
    } else {
        assert(forall|j: int| 0 <= j < i - 1 ==> #[trigger] s.drop_first()[j].0.content@ != w);
        lemma_pos_first_hit(s.drop_first(), w, i - 1);
    }
}

} // verus!
