use cwinui::buffer::Buffer;
use cwinui::layout::{Area, Dim, Pos, Proportional, Proportions, Range};
use cwinui::misc::SliceByChars;
use cwinui::render::{Cursor, Draw, Render};
use cwinui::style::{Style, StyledChar, StyledStr};
use cwinui::widget::backdrop::Backdrop;
use cwinui::widget::bar::{self, HorizBar, VertBar};
use cwinui::widget::border::Border;
use cwinui::widget::canvas::Canvas;
use cwinui::widget::debug::Wireframe;
use cwinui::widget::filler::Filler;
use cwinui::widget::flex::{calc_grow, FlexCol, FlexItem, FlexRow};
use cwinui::widget::frame::Frame;
use cwinui::widget::inputline::InputLine;
use cwinui::widget::layout::{Align, BottomRight, Center, Container, Fallback, Min, Pad, TopLeft};
use cwinui::owned::string::StyledString;
use cwinui::widget::menu::{print_lines, Location, Menu};
use cwinui::widget::prompt::Prompt;
use cwinui::widget::split::{Col, Row};
use cwinui::widget::text::{Chain, Line, WrapChain, WrapLine};
use cwinui::widget::{Event, InteractiveWidget, Key, Void};

fn buffer(width: u16, height: u16) -> Buffer {
    let n = width as usize * height as usize;
    Buffer::new(width, height, vec![' '; n], vec![Style::default(); n], Cursor { x: 0, y: 0, hidden: true })
}

fn draw_all<D: Draw<Buffer>>(d: &D, b: &mut Buffer) {
    let a = b.area();
    d.draw(b, a);
}

fn row(b: &Buffer, y: u16) -> String {
    (0..b.width()).map(|x| b.get(x, y).content).collect()
}

fn rows(b: &Buffer) -> Vec<String> {
    (0..b.height()).map(|y| row(b, y)).collect()
}

fn sized(c: char, width: Range, height: Range) -> Container<Filler> {
    Container::new(Filler(StyledChar::from(c))).size(Proportions { width, height })
}

#[test]
fn bars_draw_ends_and_body() {
    let theme = bar::Theme { beg: StyledChar::from('<'), end: StyledChar::from('>'), body: StyledChar::from('=') };
    let mut b = buffer(7, 3);
    HorizBar::new().theme(theme).draw(&mut b, Area { x: 1, y: 0, width: 5, height: 2 });
    VertBar::new().theme(theme).draw(&mut b, Area { x: 0, y: 0, width: 1, height: 3 });
    assert_eq!(rows(&b), vec!["<<===> ", "=      ", ">      "]);
    assert_eq!(HorizBar::new().proportions().height, Range::fixed(1));
    assert_eq!(VertBar::new().proportions().width, Range::fixed(1));
}

#[test]
fn border_and_frame_surround_inner() {
    let mut b = buffer(4, 3);
    draw_all(&Border::new(Filler(StyledChar::from('.'))), &mut b);
    assert_eq!(rows(&b), vec!["####", "#..#", "####"]);
    let mut f = buffer(3, 3);
    draw_all(&Frame::new(Filler(StyledChar::from('o'))), &mut f);
    assert_eq!(rows(&f), vec!["###", "#o#", "###"]);
    let p = Border::new(sized('x', Range::new(1, 3), Range::fixed(2))).proportions();
    assert_eq!(p.width, Range::new(3, 5));
    assert_eq!(p.height, Range::fixed(4));
}

#[test]
fn frame_of_a_tiny_area_has_no_inside() {
    let mut b = buffer(3, 1);
    Frame::new(Void).draw(&mut b, Area { x: 0, y: 0, width: 1, height: 1 });
    assert_eq!(rows(&b), vec!["#  "]);
}

#[test]
fn backdrop_draws_front_over_back() {
    let mut b = buffer(4, 1);
    let w = Backdrop { fg: Line("ab"), bg: Filler(StyledChar::from('.')) };
    draw_all(&w, &mut b);
    assert_eq!(row(&b, 0), "ab..");
}

#[test]
fn min_uses_the_smallest_area() {
    let mut b = buffer(4, 3);
    draw_all(&Min(sized('m', Range::new(2, 5), Range::new(1, 3))), &mut b);
    assert_eq!(rows(&b), vec!["mm  ", "    ", "    "]);
}

#[test]
fn aligned_widgets_are_placed() {
    let mut b = buffer(6, 3);
    draw_all(&Align::center(sized('c', Range::fixed(2), Range::fixed(1))), &mut b);
    draw_all(&BottomRight(sized('r', Range::fixed(1), Range::fixed(1))), &mut b);
    draw_all(&TopLeft(sized('l', Range::fixed(1), Range::fixed(1))), &mut b);
    Center(sized('z', Range::fixed(1), Range::fixed(1))).draw(&mut b, Area { x: 0, y: 0, width: 3, height: 1 });
    assert_eq!(rows(&b), vec!["lz    ", "  cc  ", "     r"]);
    let p = Align::center(sized('c', Range::fixed(2), Range::fixed(1))).proportions();
    assert_eq!(p.width, Range::from(2));
}

#[test]
fn pad_shrinks_the_area() {
    let mut b = buffer(4, 3);
    draw_all(&Pad::new(Filler(StyledChar::from('p'))).left(1).top(1), &mut b);
    assert_eq!(rows(&b), vec!["    ", " ppp", " ppp"]);
    let mut c = buffer(2, 2);
    draw_all(&Pad::new(Filler(StyledChar::from('q'))).left(1).right(1), &mut c);
    assert_eq!(rows(&c), vec!["  ", "  "]);
    let p = Pad::new(sized('x', Range::fixed(1), Range::fixed(1))).top(2).bottom(1).left(3).proportions();
    assert_eq!(p.width, Range::fixed(4));
    assert_eq!(p.height, Range::fixed(4));
}

#[test]
fn fallback_when_too_small() {
    let mut b = buffer(3, 1);
    let w = Fallback { inner: sized('a', Range::from(10), Range::from(1)), fallback: Filler(StyledChar::from('b')) };
    draw_all(&w, &mut b);
    assert_eq!(row(&b, 0), "bbb");
    let w = Fallback { inner: sized('a', Range::from(2), Range::from(1)), fallback: Filler(StyledChar::from('b')) };
    draw_all(&w, &mut b);
    assert_eq!(row(&b, 0), "aaa");
    assert_eq!(Container::empty().proportions(), Proportions::flexible());
}

#[test]
fn line_and_chain() {
    let mut b = buffer(5, 2);
    Line("hello").draw(&mut b, Area { x: 0, y: 0, width: 3, height: 1 });
    Chain(&["ab", "cd", "ef"]).draw(&mut b, Area { x: 0, y: 1, width: 5, height: 1 });
    assert_eq!(rows(&b), vec!["hel  ", "abcde"]);
    assert_eq!(Line("hello").proportions().width, Range::fixed(5));
    assert_eq!(Chain(&["ab", "cd"]).proportions().width, Range::fixed(4));
}

#[test]
fn wrapping_text() {
    let mut b = buffer(3, 3);
    draw_all(&WrapLine("abcdefg"), &mut b);
    assert_eq!(rows(&b), vec!["abc", "def", "g  "]);
    let mut c = buffer(3, 2);
    draw_all(&WrapChain(&["ab", "cde", "fgh"]), &mut c);
    assert_eq!(rows(&c), vec!["abc", "def"]);
    assert_eq!(WrapLine("x").proportions().width, Range::from(1));
}

#[test]
fn split_cells() {
    let a = Filler(StyledChar::from('a'));
    let bb = Filler(StyledChar::from('b'));
    let mut b = buffer(2, 3);
    let items: [&dyn Draw<Buffer>; 2] = [&a, &bb];
    draw_all(&Col(&items), &mut b);
    assert_eq!(rows(&b), vec!["aa", "bb", "bb"]);
    let mut c = buffer(5, 1);
    draw_all(&Row(&items), &mut c);
    assert_eq!(row(&c, 0), "aabbb");
}

#[test]
fn flex_items_keep_their_minimums() {
    let x = sized('x', Range::from(1), Range::from(1));
    let y = sized('y', Range::from(3), Range::from(3));
    let items: [&dyn FlexItem<Buffer>; 2] = [&x, &y];
    let col = FlexCol(&items);
    assert_eq!(col.totals(5), Some((4, 6)));
    let mut b = buffer(1, 5);
    let a = b.area();
    col.draw_grown(&mut b, a, &vec![1, 0]);
    assert_eq!(rows(&b), vec!["x", "x", "y", "y", "y"]);
    let rowf = FlexRow(&items);
    assert_eq!(rowf.totals(5), Some((4, 6)));
    let mut c = buffer(5, 1);
    let a = c.area();
    rowf.draw_grown(&mut c, a, &vec![0, 0]);
    assert_eq!(row(&c, 0), "xyyyy");
}

#[test]
fn flex_growth_and_proportions() {
    let x = sized('x', Range::new(1, 3), Range::new(1, 4));
    let y = sized('y', Range::fixed(2), Range::from(1));
    let items: [&dyn FlexItem<Buffer>; 2] = [&x, &y];
    let col = FlexCol(&items);
    assert_eq!(col.totals(6), Some((2, 8)));
    let mut b = buffer(1, 6);
    let a = b.area();
    col.draw_grown(&mut b, a, &vec![2, 0]);
    assert_eq!(rows(&b), vec!["x", "x", "x", "y", "y", "y"]);
    let p = col.proportions();
    assert_eq!(p.width, Range::new(3, 5));
    assert_eq!(p.height, Range::from(1));
    let rowf = FlexRow(&items);
    let mut c = buffer(5, 1);
    let a = c.area();
    rowf.draw_grown(&mut c, a, &vec![1, 0]);
    assert_eq!(row(&c, 0), "xxyyy");
    let q = rowf.proportions();
    assert_eq!(q.width, Range::new(2, 3));
    assert_eq!(q.height, Range::from(2));
    assert_eq!(calc_grow(Range::new(2, 9), 5), 3);
    assert_eq!(calc_grow(Range::from(7), 5), 0);
}

#[test]
fn wireframe_size_label() {
    let mut b = buffer(8, 3);
    draw_all(&Wireframe::new().outline(false).midpoints(false).corners(false).center(false), &mut b);
    assert_eq!(row(&b, 0), " [8x3]  ");
}

#[test]
fn wireframe_everything() {
    let mut b = buffer(5, 3);
    draw_all(&Wireframe::new(), &mut b);
    assert_eq!(rows(&b), vec!["+[5x+", "> x <", "+-^-+"]);
    assert_eq!(Wireframe::new().proportions(), Proportions::flexible());
}

#[test]
fn input_line_edits() {
    let mut line = InputLine::new();
    line.process_event(Event::Key(Key::Char('a')));
    line.process_event(Event::Key(Key::Char('b')));
    line.process_event(Event::Key(Key::Char('\n')));
    assert_eq!(line.content(), "ab");
    line.process_event(Event::Key(Key::Backspace));
    assert_eq!(line.content(), "a");
    line.process_event(Event::Key(Key::Backspace));
    line.process_event(Event::Key(Key::Backspace));
    assert_eq!(line.content(), "");
    let mut b = buffer(4, 1);
    let mut l2 = InputLine::with_capacity(8);
    for c in "hello".chars() {
        l2.process_event(Event::Key(Key::Char(c)));
    }
    draw_all(&l2, &mut b);
    assert_eq!(row(&b, 0), "llo ");
}

#[test]
fn prompt_shows_label_separator_and_input() {
    let mut p = Prompt::new(StyledStr::from("name"));
    p.process_event(Event::Key(Key::Char('x')));
    assert_eq!(p.content(), "x");
    let mut b = buffer(10, 1);
    draw_all(&p, &mut b);
    assert_eq!(row(&b, 0), "name: x   ");
    assert_eq!(p.proportions().width, Range::from(7));
}

#[test]
fn canvas_round_trip() {
    let mut canvas = Canvas::new(Dim { width: 3, height: 2 });
    canvas.painter().print_abs(Pos { x: 0, y: 1 }, "abc");
    let mut b = buffer(4, 3);
    canvas.draw(&mut b, Area { x: 1, y: 0, width: 3, height: 3 });
    assert_eq!(rows(&b), vec!["    ", " abc", "    "]);
    assert_eq!(canvas.proportions(), Proportions::fixed(Dim { width: 3, height: 2 }));
    assert_eq!(canvas.renderer().width(), 3);
}

#[test]
fn menu_selection_moves() {
    let mut m = Menu::new(&["one", "two", "three"]);
    assert_eq!(m.selected(), "one");
    m.process_event(Event::Key(Key::Up));
    assert_eq!(m.selected_idx(), 0);
    m.process_event(Event::Key(Key::Down));
    m.process_event(Event::Key(Key::Down));
    m.process_event(Event::Key(Key::Down));
    assert_eq!(m.selected_idx(), 2);
    assert_eq!(m.selected(), "three");
    m.process_event(Event::Key(Key::Up));
    assert_eq!(m.selected(), "two");
    assert_eq!(m.items().len(), 3);
    assert_eq!(m.visible_count(2), 2);
    assert_eq!(m.visible_count(9), 3);
}

#[test]
fn menu_scrolling_follows_selection() {
    let mut m = Menu::new(&["a", "b", "c", "d", "e", "f"]);
    for _ in 0..5 {
        m.process_event(Event::Key(Key::Down));
    }
    assert_eq!(m.active_item_location(0, 3), Location::Below);
    assert_eq!(m.follow_selection(0, 3), 1);
    assert_eq!(m.active_item_location(5, 3), Location::InView);
    assert_eq!(m.follow_selection(4, 3), 4);
    for _ in 0..4 {
        m.process_event(Event::Key(Key::Up));
    }
    assert_eq!(m.active_item_location(3, 3), Location::Above);
    assert_eq!(m.follow_selection(3, 3), 1);
}

#[test]
fn slice_by_chars_counts_characters() {
    assert_eq!("héllo".slice_by_chars(1..3), "él");
    assert_eq!("abc".slice_by_chars(0..0), "");
    assert_eq!("héllo".slice_by_chars(1..), "éllo");
    assert_eq!("héllo".slice_by_chars(5..), "");
    assert_eq!("héllo".slice_by_chars(..2), "hé");
    assert_eq!("héllo".slice_by_chars(..0), "");
}

#[test]
fn void_draws_nothing() {
    let mut b = buffer(2, 1);
    b.print_abs(Pos { x: 0, y: 0 }, "vv");
    draw_all(&Void, &mut b);
    assert_eq!(row(&b, 0), "vv");
    let mut v = Void;
    v.process_event(Event::Mouse);
    assert_eq!(Void.proportions(), Proportions::flexible());
}

#[test]
fn menu_lines_are_printed_one_per_row_and_cut() {
    let mut b = buffer(6, 3);
    let lines = vec![
        StyledString::from(StyledStr::from("  first")),
        StyledString::from(StyledStr::from("* sel")),
    ];
    print_lines(&mut b, Area { x: 1, y: 1, width: 4, height: 2 }, &lines);
    assert_eq!(rows(&b), vec!["      ", "   fi ", " * se "]);
    let mut c = buffer(3, 1);
    print_lines(&mut c, Area { x: 0, y: 0, width: 8, height: 1 }, &lines[1..]);
    assert_eq!(rows(&c), vec!["* s"]);
}
