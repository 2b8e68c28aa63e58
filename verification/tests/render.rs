use cwinui::buffer::Buffer;
use cwinui::layout::{Area, Justify, Pos};
use cwinui::render::{Cursor, Render};
use cwinui::style::{Color, Style, StyledChar, WithStyle};

fn buffer(width: u16, height: u16) -> Buffer {
    let n = width as usize * height as usize;
    Buffer::new(width, height, vec![' '; n], vec![Style::default(); n], Cursor { x: 0, y: 0, hidden: true })
}

fn row(b: &Buffer, y: u16) -> String {
    (0..b.width()).map(|x| b.get(x, y).content).collect()
}

#[test]
fn buffer_new_reports_its_size() {
    let b = buffer(7, 3);
    assert_eq!(b.width(), 7);
    assert_eq!(b.height(), 3);
    assert_eq!(b.area(), Area { x: 0, y: 0, width: 7, height: 3 });
    assert_eq!(b.cursor(), Cursor { x: 0, y: 0, hidden: true });
    assert_eq!(row(&b, 0), "       ");
    let (chars, styles, cursor) = b.into_parts();
    assert_eq!(chars.len(), 21);
    assert_eq!(styles.len(), 21);
    assert!(cursor.hidden);
}

#[test]
fn set_char_merges_style_and_reads_back() {
    let mut b = buffer(4, 2);
    b.set_char(Pos { x: 1, y: 1 }, 'a'.with_style(|s| s.fg(Color::Red)));
    b.set_char(Pos { x: 1, y: 1 }, 'b'.with_style(|s| s.bg(Color::Blue)));
    let c = b.get(1, 1);
    assert_eq!(c.content, 'b');
    assert_eq!(c.style, Style::default().fg(Color::Red).bg(Color::Blue));
    assert_eq!(b.get(0, 1).content, ' ');
}

#[test]
fn print_abs_cuts_at_right_edge() {
    let mut b = buffer(5, 2);
    b.print_abs(Pos { x: 3, y: 0 }, "hello");
    assert_eq!(row(&b, 0), "   he");
    b.print_abs(Pos { x: 5, y: 1 }, "zz");
    assert_eq!(row(&b, 1), "     ");
}

#[test]
fn print_relative_to_area_is_clipped() {
    let mut b = buffer(6, 3);
    b.print(Pos { x: 1, y: 0 }, "abcdef", Area { x: 1, y: 1, width: 3, height: 1 });
    assert_eq!(row(&b, 1), "  ab  ");
    b.print(Pos { x: 0, y: 0 }, "xyz", Area { x: 10, y: 10, width: 3, height: 3 });
    assert_eq!(row(&b, 0), "      ");
    b.print(Pos { x: 3, y: 0 }, "q", Area { x: 1, y: 2, width: 3, height: 1 });
    assert_eq!(row(&b, 2), "      ");
}

#[test]
fn putc_variants() {
    let mut b = buffer(4, 3);
    b.putc_abs(Pos { x: 3, y: 2 }, StyledChar::from('x'));
    b.putc_abs(Pos { x: 4, y: 2 }, StyledChar::from('y'));
    assert_eq!(row(&b, 2), "   x");
    b.putc(Pos { x: 1, y: 1 }, StyledChar::from('p'), Area { x: 1, y: 0, width: 2, height: 2 });
    assert_eq!(row(&b, 1), "  p ");
    b.putc(Pos { x: 2, y: 0 }, StyledChar::from('q'), Area { x: 1, y: 0, width: 2, height: 2 });
    assert_eq!(row(&b, 0), "    ");
}

#[test]
fn fills_are_cut_at_edges() {
    let mut b = buffer(5, 4);
    b.hfill(Pos { x: 2, y: 0 }, StyledChar::from('-'), 10);
    assert_eq!(row(&b, 0), "  ---");
    b.vfill(Pos { x: 0, y: 1 }, StyledChar::from('|'), 10);
    assert_eq!(b.get(0, 1).content, '|');
    assert_eq!(b.get(0, 3).content, '|');
    b.fill(StyledChar::from('#'), Area { x: 3, y: 2, width: 10, height: 10 });
    assert_eq!(row(&b, 2), "|  ##");
    assert_eq!(row(&b, 3), "|  ##");
    assert_eq!(row(&b, 1), "|    ");
}

#[test]
fn clear_blanks_everything_and_hides_cursor() {
    let mut b = buffer(3, 2);
    b.print_abs(Pos { x: 0, y: 0 }, "abc".with_style(|s| s.fg(Color::Red)));
    b.show_cursor();
    b.move_cursor(Pos { x: 2, y: 1 });
    b.clear();
    assert_eq!(row(&b, 0), "   ");
    assert_eq!(b.get(1, 0).style, Style::default());
    assert_eq!(b.cursor(), Cursor { x: 0, y: 0, hidden: true });
}

#[test]
fn cursor_moves_inside_only() {
    let mut b = buffer(3, 2);
    b.show_cursor();
    b.move_cursor(Pos { x: 2, y: 1 });
    assert_eq!(b.cursor(), Cursor { x: 2, y: 1, hidden: false });
    b.move_cursor(Pos { x: 3, y: 0 });
    assert_eq!(b.cursor(), Cursor { x: 2, y: 1, hidden: false });
    b.hide_cursor();
    assert!(b.cursor().hidden);
    assert_eq!(b.dimensions().width, 3);
}

#[test]
fn jprint_positions() {
    let mut b = buffer(10, 3);
    let all = b.area();
    b.jprint("abcd", Justify::Center, all);
    assert_eq!(row(&b, 1), "   abcd   ");
    b.jprint("xy", Justify::Right(0), all);
    assert_eq!(row(&b, 0), "        xy");
    b.jprint("L", Justify::BottomLeft, all);
    assert_eq!(row(&b, 2), "L         ");
    b.jprint("T", Justify::Top(4), all);
    assert_eq!(b.get(4, 0).content, 'T');
}

#[test]
fn jprint_truncates_long_text() {
    let mut b = buffer(4, 1);
    let all = b.area();
    b.jprint("abcdefgh", Justify::HCenter(0), all);
    assert_eq!(row(&b, 0), "abcd");
}

#[test]
fn jputc_bottom_right() {
    let mut b = buffer(4, 3);
    let all = b.area();
    b.jputc(StyledChar::from('*'), Justify::BottomRight, all);
    assert_eq!(row(&b, 2), "   *");
    b.jputc(StyledChar::from('c'), Justify::Center, all);
    assert_eq!(row(&b, 1), " c  ");
}

#[test]
fn printa_within_area() {
    let mut b = buffer(8, 2);
    b.printa(2, 1, "abcdef", Area { x: 1, y: 0, width: 4, height: 2 });
    assert_eq!(row(&b, 1), "  abc   ");
    b.printa(0, 0, "zz", Area { x: 1, y: 0, width: 4, height: 2 });
    assert_eq!(row(&b, 0), "        ");
    b.print_at(6, 0, "xyz");
    assert_eq!(row(&b, 0), "      xy");
}

#[test]
fn printj_places_text() {
    let mut b = buffer(9, 3);
    b.printj("abc", Justify::Center, Area { x: 0, y: 0, width: 9, height: 3 });
    assert_eq!(row(&b, 1), "   abc   ");
    b.printj("r", Justify::BottomRight, Area { x: 0, y: 0, width: 5, height: 3 });
    assert_eq!(row(&b, 2), "    r    ");
}

#[test]
fn advance_cursor_stays_in_row() {
    let mut b = buffer(5, 1);
    b.move_cursor(Pos { x: 2, y: 0 });
    b.advance_cursor(2);
    assert_eq!(b.cursor().x, 4);
    b.advance_cursor(1);
    assert_eq!(b.cursor().x, 4);
    b.advance_cursor(-4);
    assert_eq!(b.cursor().x, 0);
    b.advance_cursor(-1);
    assert_eq!(b.cursor().x, 0);
}
