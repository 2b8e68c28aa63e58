use cwinui::backend::console::{
    add_text_style, hide_cursor, move_cursor, reset, set_bg_color, set_fg_color, set_text_style,
    show_cursor, subtract_text_style, write_char, write_str, TermOp,
};
use cwinui::backend::frame::{flush_buf, restore_terminal, write_line};
use cwinui::backend::{TermionDyn, TermionFixed};
use cwinui::buffer::Buffer;
use cwinui::layout::Pos;
use cwinui::render::{Cursor, Render};
use cwinui::style::{Color, Style, TextStyle, WithStyle};

fn printed(ops: &[TermOp]) -> String {
    ops.iter()
        .filter_map(|op| match op {
            TermOp::Print(c) => Some(*c),
            _ => None,
        })
        .collect()
}

fn clean_buffer(width: u16, height: u16) -> Buffer {
    let n = width as usize * height as usize;
    Buffer::new(width, height, vec![' '; n], vec![Style::default().clean(); n], Cursor { x: 0, y: 0, hidden: true })
}

#[test]
fn console_basic_commands() {
    let mut out = Vec::new();
    write_char(&mut out, 'a');
    write_str(&mut out, "bc");
    show_cursor(&mut out);
    hide_cursor(&mut out);
    reset(&mut out);
    set_fg_color(&mut out, Color::Red);
    set_bg_color(&mut out, Color::Ansi(3));
    assert_eq!(
        out,
        vec![
            TermOp::Print('a'),
            TermOp::Print('b'),
            TermOp::Print('c'),
            TermOp::ShowCursor,
            TermOp::HideCursor,
            TermOp::Reset,
            TermOp::Fg(Color::Red),
            TermOp::Bg(Color::Ansi(3)),
        ]
    );
}

#[test]
fn move_cursor_skips_zero_moves() {
    let mut out = Vec::new();
    move_cursor(&mut out, 0, 0);
    assert!(out.is_empty());
    move_cursor(&mut out, -2, 3);
    move_cursor(&mut out, 4, -1);
    move_cursor(&mut out, 0, 5);
    assert_eq!(out, vec![TermOp::Up(2), TermOp::Right(3), TermOp::Down(4), TermOp::Left(1), TermOp::Right(5)]);
}

#[test]
fn text_style_commands() {
    let ts = TextStyle::bold().union(TextStyle::underline());
    let mut out = Vec::new();
    set_text_style(&mut out, ts);
    assert_eq!(out, vec![TermOp::Bold, TermOp::NoBlink, TermOp::NoInvert, TermOp::NoItalic, TermOp::Underline]);
    let mut out = Vec::new();
    add_text_style(&mut out, ts);
    assert_eq!(out, vec![TermOp::Bold, TermOp::Underline]);
    let mut out = Vec::new();
    subtract_text_style(&mut out, ts);
    assert_eq!(out, vec![TermOp::NoBold, TermOp::NoUnderline]);
}

#[test]
fn write_line_sets_attributes_only_on_change() {
    let mut b = clean_buffer(3, 1);
    b.print_abs(Pos { x: 0, y: 0 }, "ab");
    b.set_char(Pos { x: 2, y: 0 }, 'c'.with_style(|s| s.fg(Color::Green)));
    let mut out = Vec::new();
    write_line(&mut out, &b, 0);
    assert_eq!(
        out,
        vec![
            TermOp::Reset,
            TermOp::NoBold,
            TermOp::NoBlink,
            TermOp::NoInvert,
            TermOp::NoItalic,
            TermOp::NoUnderline,
            TermOp::Fg(Color::Normal),
            TermOp::Bg(Color::Normal),
            TermOp::Print('a'),
            TermOp::Print('b'),
            TermOp::Fg(Color::Green),
            TermOp::Print('c'),
        ]
    );
}

#[test]
fn write_line_resets_on_text_style_change() {
    let mut b = clean_buffer(2, 1);
    b.set_char(Pos { x: 1, y: 0 }, 'x'.with_style(|s| s.text_style(TextStyle::italic())));
    let mut out = Vec::new();
    write_line(&mut out, &b, 0);
    assert_eq!(&out[9..], &[TermOp::Reset, TermOp::Italic, TermOp::Fg(Color::Normal), TermOp::Bg(Color::Normal), TermOp::Print('x')]);
}

#[test]
fn flush_prints_every_row() {
    let mut b = clean_buffer(3, 2);
    b.print_abs(Pos { x: 0, y: 0 }, "abc");
    b.print_abs(Pos { x: 0, y: 1 }, "de");
    let mut out = Vec::new();
    flush_buf(&mut out, &b);
    assert_eq!(printed(&out), "abc\r\nde \r");
    assert_eq!(out.last(), Some(&TermOp::Up(1)));
}

#[test]
fn flush_draws_a_shown_cursor_inverted() {
    let mut b = clean_buffer(3, 2);
    b.print_abs(Pos { x: 0, y: 1 }, "xyz");
    b.move_cursor(Pos { x: 1, y: 1 });
    b.show_cursor();
    let mut out = Vec::new();
    flush_buf(&mut out, &b);
    assert_eq!(printed(&out), "   \r\nxyz\ry");
    let tail = &out[out.len() - 8..];
    assert_eq!(
        tail,
        &[
            TermOp::Down(1),
            TermOp::Right(1),
            TermOp::Invert,
            TermOp::Print('y'),
            TermOp::NoInvert,
            TermOp::Left(1),
            TermOp::Up(1),
            TermOp::Left(1),
        ][..]
    );
}

#[test]
fn restore_terminal_commands() {
    let mut out = Vec::new();
    restore_terminal(&mut out, 2);
    assert_eq!(
        out,
        vec![
            TermOp::Fg(Color::Normal),
            TermOp::Bg(Color::Normal),
            TermOp::NoBold,
            TermOp::NoBlink,
            TermOp::NoInvert,
            TermOp::NoItalic,
            TermOp::NoUnderline,
            TermOp::Print('\n'),
            TermOp::Print('\n'),
            TermOp::ShowCursor,
        ]
    );
}

#[test]
fn fixed_backend_frame_cycle() {
    let mut out = Vec::new();
    let mut term: TermionFixed<4, 2> = TermionFixed::init(&mut out);
    assert_eq!(out, vec![TermOp::HideCursor]);
    {
        let buf = term.render();
        assert_eq!(buf.width(), 4);
        buf.print_abs(Pos { x: 0, y: 0 }, "hi");
    }
    let mut out = Vec::new();
    term.flush(&mut out);
    assert_eq!(printed(&out), "hi  \r\n    \r");
    {
        let buf = term.render();
        assert_eq!(buf.get(0, 0).content, ' ');
    }
    let mut out = Vec::new();
    term.restore(&mut out);
    assert_eq!(printed(&out), "\n\n");
}

#[test]
fn dyn_backend_follows_terminal_size() {
    let mut out = Vec::new();
    let mut term = TermionDyn::init(3, 1, &mut out);
    assert_eq!(out, vec![TermOp::HideCursor]);
    {
        let buf = term.render(Some((5, 2)));
        assert_eq!((buf.width(), buf.height()), (5, 2));
        buf.print_abs(Pos { x: 1, y: 1 }, "ok");
    }
    let mut out = Vec::new();
    term.flush(&mut out);
    assert_eq!(printed(&out), "     \r\n ok  \r");
    {
        let buf = term.render(None);
        assert_eq!((buf.width(), buf.height()), (5, 2));
        assert_eq!(buf.get(1, 1).content, ' ');
    }
    let mut out = Vec::new();
    term.restore(&mut out);
    assert_eq!(printed(&out), "\n\n");
}

#[test]
fn buffer_takes_any_cursor() {
    let b = Buffer::new(2, 2, vec![' '; 4], vec![Style::default(); 4], Cursor { x: 9, y: 7, hidden: false });
    assert_eq!(b.cursor(), Cursor { x: 9, y: 7, hidden: false });
    assert_eq!((b.width(), b.height()), (2, 2));
    let (chars, styles, cursor) = b.into_parts();
    assert_eq!(chars.len(), 4);
    assert_eq!(styles.len(), 4);
    assert_eq!(cursor, Cursor { x: 9, y: 7, hidden: false });
}

#[test]
fn backends_tell_whether_the_cursor_is_in_the_frame() {
    let mut out = Vec::new();
    let mut fixed: TermionFixed<3, 2> = TermionFixed::init(&mut out);
    assert!(fixed.cursor_in_frame());
    {
        let buf = fixed.render();
        buf.move_cursor(Pos { x: 2, y: 1 });
        buf.show_cursor();
    }
    assert!(fixed.cursor_in_frame());
    let mut term = TermionDyn::init(2, 2, &mut out);
    {
        let buf = term.render(Some((2, 1)));
        buf.show_cursor();
    }
    assert!(term.cursor_in_frame());
}

#[test]
fn dyn_backend_grows_and_keeps_its_storage() {
    let mut out = Vec::new();
    let mut term = TermionDyn::init(2, 2, &mut out);
    {
        let buf = term.render(Some((4, 3)));
        assert_eq!((buf.width(), buf.height()), (4, 3));
        buf.print_abs(Pos { x: 3, y: 2 }, "z");
        assert_eq!(buf.get(3, 2).content, 'z');
    }
    {
        let buf = term.render(Some((1, 1)));
        assert_eq!((buf.width(), buf.height()), (1, 1));
        assert_eq!(buf.get(0, 0).content, ' ');
    }
    {
        let buf = term.render(Some((4, 3)));
        assert_eq!(buf.get(3, 2).content, ' ');
    }
}
