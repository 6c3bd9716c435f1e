use prompt_toolkit::color::Color;
use prompt_toolkit::emitter::VtWriter;
use prompt_toolkit::output::{ColorDepth, CursorShape, DummyOutput, Output, Size};
use prompt_toolkit::render::{output_screen, Renderer};
use prompt_toolkit::screen::{Char, Screen, Window, WritePosition};
use prompt_toolkit::style::{Attrs, AttrSetting, DummyStyle};
use prompt_toolkit::Point;

#[test]
fn test_cursor_shapes() {
    let mut out = DummyOutput;

    out.set_cursor_shape(CursorShape::NeverChange);

    out.set_cursor_shape(CursorShape::Block);
    out.set_cursor_shape(CursorShape::Beam);
    out.set_cursor_shape(CursorShape::Underline);
    out.set_cursor_shape(CursorShape::BlinkingBlock);
    out.set_cursor_shape(CursorShape::BlinkingBeam);
    out.set_cursor_shape(CursorShape::BlinkingUnderline);

    out.reset_cursor_shape();
}

#[test]
fn test_bit_depths() {
    assert_eq!(ColorDepth::Monochrome.bit_depth(), 1);
    assert_eq!(ColorDepth::Ansi.bit_depth(), 4);
    assert_eq!(ColorDepth::Default.bit_depth(), 8);
    assert_eq!(ColorDepth::True.bit_depth(), 24);
}

fn bold_red() -> Attrs {
    Attrs {
        color: Some(Color::Hex(0xff, 0, 0)),
        background_color: None,
        bold: AttrSetting::Enabled,
        underline: AttrSetting::Automatic,
        strike: AttrSetting::Automatic,
        italic: AttrSetting::Automatic,
        blink: AttrSetting::Automatic,
        reverse: AttrSetting::Automatic,
        hidden: AttrSetting::Automatic,
    }
}

#[test]
fn test_escape_code_truecolor() {
    let code = ColorDepth::True.escape_code(bold_red());
    assert_eq!(code, "\x1b[0;38;2;255;0;0;1m");
}

#[test]
fn test_escape_code_empty_resets() {
    let code = ColorDepth::True.escape_code(Attrs::empty());
    assert_eq!(code, "\x1b[0m");
    let code = ColorDepth::Monochrome.escape_code(bold_red());
    assert_eq!(code, "\x1b[0;1m");
}

#[test]
fn test_escape_code_palette_depths() {
    let code = ColorDepth::Default.escape_code(bold_red());
    assert_eq!(code, "\x1b[0;38;5;196;1m");
    let code = ColorDepth::Ansi.escape_code(bold_red());
    assert_eq!(code, "\x1b[0;91;1m");
}

#[test]
fn test_writer_set_title_strips_escapes() {
    let mut w = VtWriter::new();
    w.set_title("he\x1bllo\x07!");
    assert_eq!(w.contents(), "\x1b]2;hello!\x07");
}

#[test]
fn test_writer_write_defuses_escape() {
    let mut w = VtWriter::new();
    w.write("a\x1bb");
    assert_eq!(w.contents(), "a?b");
    w.write_raw("\x1b[K");
    assert_eq!(w.contents(), "a?b\x1b[K");
}

#[test]
fn test_writer_cursor_and_modes() {
    let mut w = VtWriter::new();
    w.cursor_goto(3, 7);
    w.cursor_up(2);
    w.cursor_forward(4);
    w.enable_mouse_support();
    w.disable_mouse_support();
    w.erase_screen();
    assert_eq!(
        w.contents(),
        "\x1b[3;7H\x1b[2A\x1b[4C\x1b[?1000h\x1b[?1003h\x1b[?1015h\x1b[?1006h\x1b[?1000l\x1b[?1015l\x1b[?1006l\x1b[?1003l\x1b[2J"
    );
}

#[test]
fn test_char_widths() {
    let c = Char::new('a', "bold");
    assert_eq!(c.char, 'a');
    assert_eq!(c.width, 1);
    let wide = Char::new('\u{3042}', "");
    assert_eq!(wide.width, 2);
    let combining = Char::new('\u{0301}', "");
    assert_eq!(combining.width, 0);
    let control = Char::new('\x03', "x");
    assert_eq!(control.char, '^');
    assert_eq!(control.width, 1);
}

#[test]
fn test_screen_positions() {
    let mut screen = Screen::new(None, 10, 4);
    let win = Window { content: "main".to_string() };
    assert_eq!(screen.get_cursor_position(&win), Point { x: 0, y: 0 });
    screen.set_cursor_position(win.clone(), Point { x: 2, y: 1 });
    assert_eq!(screen.get_cursor_position(&win), Point { x: 2, y: 1 });
    assert_eq!(screen.get_menu_position(&win), Point { x: 2, y: 1 });
    screen.set_menu_position(win.clone(), Point { x: 5, y: 3 });
    assert_eq!(screen.get_menu_position(&win), Point { x: 5, y: 3 });
}

#[test]
fn test_direct_draw_and_representation() {
    let mut screen = Screen::new(None, 6, 3);
    let wp = WritePosition::new(0, 0, 6, 3);
    screen.direct_draw(&wp, "ab\ncd", "bold");
    assert_eq!(screen.buffer_representation(), "ab    \ncd");
}

#[test]
fn test_direct_draw_clips_to_rectangle() {
    let mut screen = Screen::new(None, 6, 3);
    let wp = WritePosition::new(1, 1, 2, 1);
    screen.direct_draw(&wp, "wxyz", "");
    assert_eq!(screen.buffer_representation(), "      \n wx");
    assert!(screen.lookup_cell(1, 3).is_none());
    assert!(screen.lookup_cell(0, 1).is_none());
    assert!(screen.lookup_cell(2, 1).is_none());
}

#[test]
fn test_fill_area_composes_styles() {
    let mut screen = Screen::new(None, 4, 2);
    let wp = WritePosition::new(0, 0, 2, 1);
    screen.direct_draw(&wp, "h", "bold");
    screen.fill_area(&wp, "underline", true);
    let cell = screen.lookup_cell(0, 0).expect("filled");
    assert_eq!(cell.style, "bold underline");
    let fresh = screen.lookup_cell(0, 1).expect("materialized by fill");
    assert_eq!(fresh.style, "[transparent] underline");
    screen.fill_area(&wp, "  ", true);
    let cell = screen.lookup_cell(0, 0).expect("unchanged");
    assert_eq!(cell.style, "bold underline");
}

#[test]
fn test_append_style_to_content() {
    let mut screen = Screen::new(None, 4, 2);
    let wp = WritePosition::new(0, 0, 4, 1);
    screen.direct_draw(&wp, "hi", "base");
    screen.append_style_to_content("extra");
    assert_eq!(screen.lookup_cell(0, 0).expect("cell").style, "base extra");
    assert_eq!(screen.lookup_cell(0, 1).expect("cell").style, "base extra");
    assert!(screen.lookup_cell(0, 2).is_none());
}

#[test]
fn test_output_screen_emits_styled_cell() {
    let mut screen = Screen::new(None, 1, 1);
    let wp = WritePosition::new(0, 0, 1, 1);
    screen.direct_draw(&wp, "H", "bold fg:#ff0000");
    let size = Size { rows: 1, columns: 2 };
    let mut w = VtWriter::new();
    output_screen(&mut w, &screen, &size);
    let emitted = w.contents().to_string();
    assert!(emitted.contains("\x1b[0;38;2;255;0;0;1mH"));
}

#[test]
fn test_output_screen_idempotent_on_same_grid() {
    let mut screen = Screen::new(None, 4, 2);
    let wp = WritePosition::new(0, 0, 4, 2);
    screen.direct_draw(&wp, "ab\ncd", "bold");
    let size = Size { rows: 2, columns: 5 };
    let mut w1 = VtWriter::new();
    let p1 = output_screen(&mut w1, &screen, &size);
    let mut w2 = VtWriter::new();
    let p2 = output_screen(&mut w2, &screen, &size);
    assert_eq!(w1.contents(), w2.contents());
    assert_eq!(p1, p2);
}

#[test]
fn test_output_screen_empty_size() {
    let screen = Screen::new(None, 0, 10);
    let size = Size { rows: 0, columns: 0 };
    let mut w = VtWriter::new();
    output_screen(&mut w, &screen, &size);
    assert_eq!(w.contents(), "\x1b[?25l\x1b[?7l\x1b[0m\x1b[?25l\x1b[?25h");
}

#[test]
fn test_renderer_surface() {
    let mut renderer = Renderer::new(DummyOutput, Box::new(DummyStyle));
    assert!(!renderer.height_is_known());
    assert!(renderer.rows_above_layout().is_err());
    renderer.request_absolute_cursor_position();
    renderer.render(true);
    renderer.reset();
}

#[test]
fn test_writer_take_empties() {
    let mut w = VtWriter::new();
    w.write_raw("abc");
    let taken = w.take();
    assert_eq!(taken, "abc");
    assert_eq!(w.contents(), "");
}
