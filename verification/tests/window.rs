use cwinui::layout::{Area, Justify};
use cwinui::style::{Color, Style, StyledChar, WithStyle};
use cwinui::widget::inner::InnerWidgetBody;
use cwinui::widget::window::Window;

fn body_row(b: &InnerWidgetBody, y: u16) -> String {
    (0..b.width).map(|x| b.buffer[y as usize * b.width as usize + x as usize]).collect()
}

fn window_rows(w: &Window) -> Vec<String> {
    let b = w.inner();
    (0..b.height).map(|y| body_row(b, y).replace('\0', ".")).collect()
}

#[test]
fn body_starts_empty_and_hidden() {
    let b = InnerWidgetBody::new(Area { x: 2, y: 3, width: 4, height: 2 });
    assert_eq!((b.start_x, b.start_y, b.width, b.height), (2, 3, 4, 2));
    assert_eq!(b.buffer.len(), 8);
    assert!(b.buffer.iter().all(|c| *c == '\0'));
    assert!(b.hidden);
    assert_eq!(b.z_index, 1);
    assert!(b.cursor.hidden);
}

#[test]
fn body_print_replaces_style_and_cuts() {
    let mut b = InnerWidgetBody::new(Area { x: 0, y: 0, width: 4, height: 2 });
    b.print(1, 1, "abcdef".with_style(|s| s.fg(Color::Red)));
    assert_eq!(body_row(&b, 1), "\0abc");
    let c = b.peekc(2, 1);
    assert_eq!(c.content, 'b');
    assert_eq!(c.style, Style::default().fg(Color::Red));
    b.print(4, 0, "zz");
    assert_eq!(body_row(&b, 0), "\0\0\0\0");
}

#[test]
fn body_print_reaches_rows_below_the_width() {
    let mut b = InnerWidgetBody::new(Area { x: 0, y: 0, width: 2, height: 4 });
    b.print(0, 3, "x");
    assert_eq!(body_row(&b, 3), "x\0");
    b.print(0, 4, "y");
    b.hfill(0, 2, StyledChar::from('='), 9);
    assert_eq!(body_row(&b, 2), "==");
    b.print(0, 1, "xyz");
    assert_eq!(body_row(&b, 1), "xy");
}

#[test]
fn body_fills_putc_and_clear() {
    let mut b = InnerWidgetBody::new(Area { x: 0, y: 0, width: 3, height: 3 });
    b.hfill(1, 0, StyledChar::from('-'), 5);
    b.vfill(0, 1, StyledChar::from('|'), 5);
    b.putc(2, 2, StyledChar::from('*'));
    b.putc(3, 2, StyledChar::from('!'));
    assert_eq!(body_row(&b, 0), "\0--");
    assert_eq!(body_row(&b, 1), "|\0\0");
    assert_eq!(body_row(&b, 2), "|\0*");
    b.clear();
    assert!(b.buffer.iter().all(|c| *c == '\0'));
    assert!(b.style_buffer.iter().all(|s| *s == Style::default()));
}

#[test]
fn body_cursor_moves() {
    let mut b = InnerWidgetBody::new(Area { x: 0, y: 0, width: 4, height: 2 });
    b.move_cursor(3, 1);
    assert_eq!((b.cursor.x, b.cursor.y), (3, 1));
    b.move_cursor(4, 0);
    assert_eq!((b.cursor.x, b.cursor.y), (3, 1));
    b.advance_cursor(-2);
    assert_eq!(b.cursor.x, 1);
    b.advance_cursor(3);
    assert_eq!(b.cursor.x, 1);
    b.advance_cursor(2);
    assert_eq!(b.cursor.x, 3);
    b.show_cursor();
    assert!(!b.cursor.hidden);
    b.hide_cursor();
    assert!(b.cursor.hidden);
}

#[test]
fn body_resize_keeps_prefix() {
    let mut b = InnerWidgetBody::new(Area { x: 0, y: 0, width: 2, height: 1 });
    b.print(0, 0, "ab");
    b.resize(3, 2);
    assert_eq!(b.buffer.len(), 6);
    assert_eq!(b.buffer[0], 'a');
    assert_eq!(b.buffer[1], 'b');
    assert_eq!(b.buffer[5], '\0');
    b.resize(1, 1);
    assert_eq!(b.buffer, vec!['a']);
}

fn bordered_theme(w: &mut Window) {
    let c = |ch: char| StyledChar::from(ch);
    w.set_theme(c('-'), c('|'), c('_'), c('!'), c('1'), c('2'), c('3'), c('4'));
}

#[test]
fn window_border_toggles() {
    let mut w = Window::new(Area { x: 0, y: 0, width: 4, height: 3 });
    bordered_theme(&mut w);
    w.print(0, 0, "ab");
    assert_eq!(w.toggle_border(), Ok(()));
    assert_eq!(window_rows(&w), vec!["1--2", "!ab|", "4__3"]);
    assert_eq!(w.content_area(), Area { x: 1, y: 1, width: 2, height: 1 });
    w.print(0, 0, "xyz");
    assert_eq!(window_rows(&w)[1], "!xy|");
    assert_eq!(w.toggle_border(), Ok(()));
    assert_eq!(window_rows(&w), vec!["xy..", "....", "...."]);
}

#[test]
fn window_too_small_for_border() {
    let mut w = Window::new(Area { x: 0, y: 0, width: 1, height: 5 });
    assert_eq!(w.toggle_border(), Err(()));
    assert_eq!(w.content_area(), Area { x: 0, y: 0, width: 1, height: 5 });
}

#[test]
fn window_printj_and_clearln() {
    let mut w = Window::new(Area { x: 0, y: 0, width: 6, height: 3 });
    bordered_theme(&mut w);
    w.toggle_border().unwrap();
    w.printj("ab", Justify::Center);
    assert_eq!(window_rows(&w)[1], "!.ab.|");
    w.printj("toolong", Justify::Right(0));
    assert_eq!(window_rows(&w)[1], "!tool|");
    w.clearln(0);
    assert_eq!(window_rows(&w)[1], "!....|");
    w.putc(3, 0, StyledChar::from('p'));
    assert_eq!(window_rows(&w)[1], "!...p|");
    w.clear();
    assert_eq!(window_rows(&w), vec!["1----2", "!....|", "4____3"]);
}

#[test]
fn tall_window_gets_its_bottom_border_and_clears_low_rows() {
    let mut w = Window::new(Area { x: 0, y: 0, width: 3, height: 5 });
    bordered_theme(&mut w);
    w.toggle_border().unwrap();
    assert_eq!(window_rows(&w), vec!["1-2", "!.|", "!.|", "!.|", "4_3"]);
    w.print(0, 2, "z");
    assert_eq!(window_rows(&w)[3], "!z|");
    w.clearln(2);
    assert_eq!(window_rows(&w)[3], "!.|");
}
