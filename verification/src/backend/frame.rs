//! Flushing a frame: the command stream that shows a [`Buffer`] on a
//! terminal, line by line, with the cursor drawn as an inverted cell.

use vstd::prelude::*;
use crate::backend::console::{
    TermOp, chars_ops, write_char, write_str, move_cursor, reset, set_fg_color, set_bg_color,
    set_text_style, add_text_style, subtract_text_style, show_cursor, set_text_style_ops,
    add_text_style_ops, subtract_text_style_ops, move_cursor_ops, lemma_invert_ops, has_flag, flag_switch,
    flag_only,
};
use crate::buffer::Buffer;
use crate::render::{Render, Screen, cell};
use crate::style::{Color, StyledChar, TextStyle};

verus! {

/// The attributes a cell is shown with: unset parts are normal.
pub open spec fn attrs(c: StyledChar) -> (TextStyle, Color, Color) {
    (
        if c.style.text_style is Some { c.style.text_style.unwrap() } else { TextStyle::normal_spec() },
        if c.style.fg_color is Some { c.style.fg_color.unwrap() } else { Color::Normal },
        if c.style.bg_color is Some { c.style.bg_color.unwrap() } else { Color::Normal },
    )
}

/// The commands that print the cell `[x, y]` after its left neighbour: the
/// text style is reset and re-applied when it differs, each color is set
/// when it differs or after such a reset, then the character is printed.
pub open spec fn step_ops(s: Screen, x: int, y: int) -> Seq<TermOp> {
    let prev = attrs(cell(s, x - 1, y));
    let cur = attrs(cell(s, x, y));
    let ts_changed = prev.0 != cur.0;
    (if ts_changed { seq![TermOp::Reset] + add_text_style_ops(cur.0) } else { seq![] })
        + (if prev.1 != cur.1 || ts_changed { seq![TermOp::Fg(cur.1)] } else { seq![] })
        + (if prev.2 != cur.2 || ts_changed { seq![TermOp::Bg(cur.2)] } else { seq![] })
        + seq![TermOp::Print(cell(s, x, y).content)]
}

/// The commands for the cells `1..n` of row `y`.
pub open spec fn line_body(s: Screen, y: int, n: int) -> Seq<TermOp>
    decreases n,
{
    if n <= 1 {
        seq![]
    } else {
        line_body(s, y, n - 1) + step_ops(s, n - 1, y)
    }
}

/// The commands that show row `y`: the first cell is always printed after a
/// full reset with all of its attributes, the others by [`step_ops`].
pub open spec fn line_ops(s: Screen, y: int) -> Seq<TermOp> {
    let first = attrs(cell(s, 0, y));
    seq![TermOp::Reset] + set_text_style_ops(first.0) + seq![TermOp::Fg(first.1), TermOp::Bg(first.2)]
        + seq![TermOp::Print(cell(s, 0, y).content)] + line_body(s, y, s.area.width as int)
}

/// The shown attributes of a cell.
fn cell_attrs(c: StyledChar) -> (r: (TextStyle, Color, Color))
    ensures
        r == attrs(c),
{
    let ts = match c.style.text_style {
        Some(t) => t,
        None => {
            let t = TextStyle::default();
            proof {
                TextStyle::lemma_normal(t);
            }
            t
        },
    };
    let fg = match c.style.fg_color {
        Some(f) => f,
        None => Color::Normal,
    };
    let bg = match c.style.bg_color {
        Some(b) => b,
        None => Color::Normal,
    };
    (ts, fg, bg)
}

/// Emits the commands that show row `y` of `buffer`.
pub fn write_line(out: &mut Vec<TermOp>, buffer: &Buffer, y: u16)
    requires
        buffer.valid(),
        buffer.screen().area.width > 0,
        y < buffer.screen().area.height,
    ensures
        final(out)@ == old(out)@ + line_ops(buffer.screen(), y as int),
{
    let ghost s = buffer.screen();
    let width = buffer.width();
    let first = buffer.get(0, y);
    let (mut saved_ts, mut saved_fg, mut saved_bg) = cell_attrs(first);
    let ghost o = out@;
    reset(out);
    set_text_style(out, saved_ts);
    set_fg_color(out, saved_fg);
    set_bg_color(out, saved_bg);
    write_char(out, first.content);
    proof {
        assert(out@ =~= o + seq![TermOp::Reset] + set_text_style_ops(saved_ts)
            + seq![TermOp::Fg(saved_fg), TermOp::Bg(saved_bg)] + seq![TermOp::Print(first.content)]
            + line_body(s, y as int, 1));
    }
    let ghost head = o + seq![TermOp::Reset] + set_text_style_ops(saved_ts)
        + seq![TermOp::Fg(saved_fg), TermOp::Bg(saved_bg)] + seq![TermOp::Print(first.content)];
    let mut x: u16 = 1;
    while x < width
        invariant
            buffer.valid(),
            s == buffer.screen(),
            width == s.area.width,
            y < s.area.height,
            1 <= x <= width,
            (saved_ts, saved_fg, saved_bg) == attrs(cell(s, x - 1, y as int)),
            out@ == head + line_body(s, y as int, x as int),
        decreases width - x,
    {
        let cur = buffer.get(x, y);
        let (text_style, fg_color, bg_color) = cell_attrs(cur);
        let ghost before = out@;
        let ts_changed = saved_ts != text_style;
        if ts_changed {
            reset(out);
            add_text_style(out, text_style);
            saved_ts = text_style;
        }
        let ghost after_ts = out@;
        if saved_fg != fg_color || ts_changed {
            set_fg_color(out, fg_color);
            saved_fg = fg_color;
        }
        let ghost after_fg = out@;
        if saved_bg != bg_color || ts_changed {
            set_bg_color(out, bg_color);
            saved_bg = bg_color;
        }
        write_char(out, cur.content);
        proof {
            assert(out@ =~= before + step_ops(s, x as int, y as int));
            assert(line_body(s, y as int, x + 1) == line_body(s, y as int, x as int) + step_ops(s, x as int, y as int));
            assert(out@ =~= head + line_body(s, y as int, x + 1));
        }
        x += 1;
    }
}

/// The commands that put the cursor on screen: its cell is printed inverted
/// and the terminal cursor is brought back to the top-left corner.
pub open spec fn cursor_ops(s: Screen) -> Seq<TermOp> {
    if s.cursor.hidden {
        seq![]
    } else {
        let cx = s.cursor.x as int;
        let cy = s.cursor.y as int;
        move_cursor_ops(cy, cx) + add_text_style_ops(TextStyle::invert_spec())
            + seq![TermOp::Print(cell(s, cx, cy).content)] + subtract_text_style_ops(TextStyle::invert_spec())
            + move_cursor_ops(0, -1) + move_cursor_ops(-cy, -cx)
    }
}

/// The commands for the rows `0..n`, each followed by a line break.
pub open spec fn rows_ops(s: Screen, n: int) -> Seq<TermOp>
    decreases n,
{
    if n <= 0 {
        seq![]
    } else {
        rows_ops(s, n - 1) + line_ops(s, n - 1) + chars_ops(seq!['\r', '\n'])
    }
}

/// The commands that show a whole frame: every row, the cursor back at the
/// top-left corner, then the cursor cell.
pub open spec fn flush_ops(s: Screen) -> Seq<TermOp> {
    let h = s.area.height as int;
    rows_ops(s, h - 1) + line_ops(s, h - 1) + seq![TermOp::Print('\r')] + move_cursor_ops(-(h - 1), 0)
        + cursor_ops(s)
}

/// The cursor is hidden or on a cell of the screen.
pub open spec fn cursor_on_screen(s: Screen) -> bool {
    s.cursor.hidden || (s.cursor.x < s.area.width && s.cursor.y < s.area.height)
}

/// Emits the commands that show `buffer` on the terminal.
pub fn flush_buf(out: &mut Vec<TermOp>, buffer: &Buffer)
    requires
        buffer.valid(),
        cursor_on_screen(buffer.screen()),
        buffer.screen().area.width > 0,
        buffer.screen().area.height > 0,
    ensures
        final(out)@ == old(out)@ + flush_ops(buffer.screen()),
{
    let ghost s = buffer.screen();
    let ghost o = out@;
    let height = buffer.height();
    let mut y: u16 = 0;
    while y < height - 1
        invariant
            buffer.valid(),
            s == buffer.screen(),
            height == s.area.height,
            s.area.width > 0,
            height > 0,
            y <= height - 1,
            out@ == o + rows_ops(s, y as int),
        decreases height - 1 - y,
    {
        write_line(out, buffer, y);
        let nl = "\r\n";
        proof {
            reveal_strlit("\r\n");
            assert(nl@ =~= seq!['\r', '\n']);
        }
        write_str(out, nl);
        proof {
            assert(out@ =~= o + rows_ops(s, y + 1));
        }
        y += 1;
    }
    write_line(out, buffer, height - 1);
    write_char(out, '\r');
    move_cursor(out, -(height as isize - 1), 0);
    let ghost before_cursor = out@;
    write_cursor(out, buffer);
    proof {
        assert(out@ =~= o + flush_ops(s));
    }
}

/// Emits the commands that put the cursor of `buffer` on screen.
fn write_cursor(out: &mut Vec<TermOp>, buffer: &Buffer)
    requires
        buffer.valid(),
        cursor_on_screen(buffer.screen()),
        buffer.screen().area.width > 0,
        buffer.screen().area.height > 0,
    ensures
        final(out)@ == old(out)@ + cursor_ops(buffer.screen()),
{
    let ghost o = out@;
    let ghost s = buffer.screen();
    let cursor = buffer.cursor();
    if !cursor.hidden {
        let ghost cx = cursor.x as int;
        let ghost cy = cursor.y as int;
        move_cursor(out, cursor.y as isize, cursor.x as isize);
        let inv = TextStyle::invert();
        proof {
            TextStyle::lemma_invert();
            lemma_invert_ops();
        }
        add_text_style(out, inv);
        let c = buffer.get(cursor.x, cursor.y);
        write_char(out, c.content);
        subtract_text_style(out, inv);
        let ghost mid = out@;
        proof {
            assert(mid =~= o + move_cursor_ops(cy, cx) + seq![TermOp::Invert] + seq![TermOp::Print(c.content)]
                + seq![TermOp::NoInvert]);
        }
        move_cursor(out, 0, -1);
        move_cursor(out, -(cursor.y as isize), -(cursor.x as isize));
        proof {
            assert(out@ =~= mid + move_cursor_ops(0, -1) + move_cursor_ops(-cy, -cx));
        }
    } else {
        proof {
            assert(out@ =~= o + cursor_ops(s));
        }
    }
}

/// The commands that leave the terminal as it was: normal colors and
/// attributes, the cursor below the last `last_height` rows drawn, shown.
pub open spec fn restore_ops(last_height: u16) -> Seq<TermOp> {
    seq![TermOp::Fg(Color::Normal), TermOp::Bg(Color::Normal)] + set_text_style_ops(TextStyle::normal_spec())
        + chars_ops(Seq::new(last_height as nat, |i: int| '\n')) + seq![TermOp::ShowCursor]
}

/// Emits the commands that leave the terminal as it was: normal colors and
/// attributes, the cursor below the last `last_height` rows drawn, shown.
pub fn restore_terminal(out: &mut Vec<TermOp>, last_height: u16)
    ensures
        final(out)@ == old(out)@ + restore_ops(last_height),
{
    let ghost o = out@;
    set_fg_color(out, Color::Normal);
    set_bg_color(out, Color::Normal);
    let n = TextStyle::normal();
    proof {
        TextStyle::lemma_normal(n);
    }
    set_text_style(out, n);
    let ghost head = out@;
    let mut row: u16 = 0;
    proof {
        assert(Seq::new(0nat, |i: int| '\n') =~= Seq::<char>::empty());
        assert(out@ =~= head + chars_ops(Seq::new(0nat, |i: int| '\n')));
    }
    while row < last_height
        invariant
            row <= last_height,
            out@ == head + chars_ops(Seq::new(row as nat, |i: int| '\n')),
        decreases last_height - row,
    {
        write_char(out, '\n');
        proof {
            assert(Seq::new((row + 1) as nat, |i: int| '\n').drop_last() =~= Seq::new(row as nat, |i: int| '\n'));
        }
        row += 1;
    }
    show_cursor(out);
    proof {
        assert(out@ =~= o + seq![TermOp::Fg(Color::Normal), TermOp::Bg(Color::Normal)]
            + set_text_style_ops(TextStyle::normal_spec()) + chars_ops(Seq::new(last_height as nat, |i: int| '\n'))
            + seq![TermOp::ShowCursor]);
    }
}

/// The characters that a command stream prints, in order.
#[verifier::opaque]
pub open spec fn printed(ops: Seq<TermOp>) -> Seq<char>
    decreases ops.len(),
{
    if ops.len() == 0 {
        seq![]
    } else {
        match ops.last() {
            TermOp::Print(c) => printed(ops.drop_last()).push(c),
            _ => printed(ops.drop_last()),
        }
    }
}

/// The characters of row `y` of `s`, from column 0 to `n - 1`.
pub open spec fn row_text(s: Screen, y: int, n: int) -> Seq<char> {
    Seq::new(n as nat, |x: int| cell(s, x, y).content)
}

/// The text that the first `n` rows of a frame print: each row followed by
/// a line break.
pub open spec fn rows_text(s: Screen, n: int) -> Seq<char>
    decreases n,
{
    if n <= 0 {
        seq![]
    } else {
        rows_text(s, n - 1) + row_text(s, n - 1, s.area.width as int) + seq!['\r', '\n']
    }
}

/// What printing a stream in two parts prints is what each part prints.
proof fn lemma_printed_concat(a: Seq<TermOp>, b: Seq<TermOp>)
    ensures
        printed(a + b) == printed(a) + printed(b),
    decreases b.len(),
{
    reveal_with_fuel(printed, 1);
    if b.len() == 0 {
        assert(a + b =~= a);
        assert(printed(a) + printed(b) =~= printed(a));
    } else {
        assert((a + b).drop_last() =~= a + b.drop_last());
        assert((a + b).last() == b.last());
        lemma_printed_concat(a, b.drop_last());
        match b.last() {
            TermOp::Print(c) => {
                assert(printed(a) + printed(b.drop_last()).push(c) =~= (printed(a) + printed(b.drop_last())).push(c));
            },
            _ => {},
        }
    }
}

/// A sequence built element by element gains its next element at the end.
proof fn lemma_new_push<A>(n: nat, f: spec_fn(int) -> A)
    ensures
        Seq::new(n + 1, f) == Seq::new(n, f).push(f(n as int)),
        n >= 1 ==> Seq::new(n + 1, f).drop_first() == Seq::new(n, f).drop_first().push(f(n as int)),
{
    assert(Seq::new(n + 1, f) =~= Seq::new(n, f).push(f(n as int)));
    if n >= 1 {
        assert(Seq::new(n + 1, f).drop_first() =~= Seq::new(n, f).drop_first().push(f(n as int)));
    }
}

/// Appending a one-element sequence pushes its element.
proof fn lemma_add_one<A>(s: Seq<A>, x: A)
    ensures
        s + seq![x] == s.push(x),
        Seq::<A>::empty() + seq![x] == seq![x],
{
    assert(s + seq![x] =~= s.push(x));
    assert(Seq::<A>::empty() + seq![x] =~= seq![x]);
}

/// A sequence is its first element followed by the rest.
proof fn lemma_first_rest<A>(s: Seq<A>)
    requires
        s.len() >= 1,
    ensures
        seq![s[0]] + s.drop_first() == s,
{
    assert(seq![s[0]] + s.drop_first() =~= s);
}

/// A single print command prints its character.
proof fn lemma_printed_one(c: char)
    ensures
        printed(seq![TermOp::Print(c)]) == seq![c],
{
    reveal_with_fuel(printed, 2);
    let o = seq![TermOp::Print(c)];
    assert(o.drop_last() =~= Seq::<TermOp>::empty());
    assert(o.last() == TermOp::Print(c));
    assert(printed(Seq::<TermOp>::empty()) == Seq::<char>::empty());
    assert(Seq::<char>::empty().push(c) =~= seq![c]);
}

/// A stream without print commands prints nothing.
proof fn lemma_printed_none(ops: Seq<TermOp>)
    requires
        forall|i: int| 0 <= i < ops.len() ==> !(#[trigger] ops[i] is Print),
    ensures
        printed(ops) == Seq::<char>::empty(),
    decreases ops.len(),
{
    reveal_with_fuel(printed, 1);
    if ops.len() > 0 {
        assert(!(ops[ops.len() - 1] is Print));
        lemma_printed_none(ops.drop_last());
    }
}

/// The line break commands print a carriage return and a line feed.
proof fn lemma_printed_crlf()
    ensures
        printed(chars_ops(seq!['\r', '\n'])) == seq!['\r', '\n'],
{
    reveal_with_fuel(chars_ops, 3);
    let t = seq!['\r', '\n'];
    let r = seq![TermOp::Print('\r')];
    let n = seq![TermOp::Print('\n')];
    assert(t.drop_last() =~= seq!['\r']);
    assert(t.drop_last().drop_last() =~= Seq::<char>::empty());
    assert(chars_ops(t) =~= r + n);
    lemma_printed_one('\r');
    lemma_printed_one('\n');
    lemma_printed_concat(r, n);
    assert(seq!['\r'] + seq!['\n'] =~= t);
}

/// Cursor movements print nothing.
proof fn lemma_printed_moves(y: int, x: int)
    ensures
        printed(move_cursor_ops(y, x)) == Seq::<char>::empty(),
{
    lemma_printed_none(move_cursor_ops(y, x));
}

/// The commands for one cell after its neighbour print that cell's
/// character only.
proof fn lemma_printed_step(s: Screen, x: int, y: int)
    ensures
        printed(step_ops(s, x, y)) == seq![cell(s, x, y).content],
{
    let prev = attrs(cell(s, x - 1, y));
    let cur = attrs(cell(s, x, y));
    let ts_changed = prev.0 != cur.0;
    let a = if ts_changed { seq![TermOp::Reset] + add_text_style_ops(cur.0) } else { seq![] };
    let b = if prev.1 != cur.1 || ts_changed { seq![TermOp::Fg(cur.1)] } else { seq![] };
    let c = if prev.2 != cur.2 || ts_changed { seq![TermOp::Bg(cur.2)] } else { seq![] };
    lemma_printed_none(a + b + c);
    lemma_printed_concat(a + b + c, seq![TermOp::Print(cell(s, x, y).content)]);
    lemma_printed_one(cell(s, x, y).content);
    assert(step_ops(s, x, y) == a + b + c + seq![TermOp::Print(cell(s, x, y).content)]);
    assert(Seq::<char>::empty() + seq![cell(s, x, y).content] =~= seq![cell(s, x, y).content]);
}

/// A row's text grows by the next cell's character.
proof fn lemma_row_push(s: Screen, y: int, n: int)
    requires
        n >= 1,
    ensures
        row_text(s, y, n + 1).drop_first() == row_text(s, y, n).drop_first().push(cell(s, n, y).content),
{
    let f = |x: int| cell(s, x, y).content;
    lemma_new_push(n as nat, f);
    assert(row_text(s, y, n + 1) =~= Seq::new((n + 1) as nat, f));
    assert(row_text(s, y, n) =~= Seq::new(n as nat, f));
}

/// The commands for the cells `1..n` of a row print their characters.
proof fn lemma_printed_body(s: Screen, y: int, n: int)
    requires
        n >= 1,
    ensures
        printed(line_body(s, y, n)) == row_text(s, y, n).drop_first(),
    decreases n,
{
    if n == 1 {
        reveal_with_fuel(printed, 1);
        assert(line_body(s, y, 1) == Seq::<TermOp>::empty());
        assert(row_text(s, y, 1).drop_first() =~= Seq::<char>::empty());
    } else {
        lemma_printed_body(s, y, n - 1);
        assert(line_body(s, y, n) == line_body(s, y, n - 1) + step_ops(s, n - 1, y));
        lemma_printed_concat(line_body(s, y, n - 1), step_ops(s, n - 1, y));
        lemma_printed_step(s, n - 1, y);
        lemma_row_push(s, y, n - 1);
        lemma_add_one(row_text(s, y, n - 1).drop_first(), cell(s, n - 1, y).content);
    }
}

/// Showing a row prints exactly the characters of that row, left to right.
pub proof fn law_line_prints_row(s: Screen, y: int)
    requires
        s.area.width >= 1,
    ensures
        printed(line_ops(s, y)) == row_text(s, y, s.area.width as int),
{
    let w = s.area.width as int;
    let first = attrs(cell(s, 0, y));
    let head = seq![TermOp::Reset] + set_text_style_ops(first.0) + seq![TermOp::Fg(first.1), TermOp::Bg(first.2)];
    let pc = seq![TermOp::Print(cell(s, 0, y).content)];
    let row = row_text(s, y, w);
    lemma_printed_none(head);
    lemma_printed_concat(head, pc);
    lemma_printed_concat(head + pc, line_body(s, y, w));
    lemma_printed_body(s, y, w);
    lemma_printed_one(cell(s, 0, y).content);
    assert(line_ops(s, y) == head + pc + line_body(s, y, w));
    lemma_add_one(Seq::<char>::empty(), cell(s, 0, y).content);
    assert(row[0] == cell(s, 0, y).content);
    lemma_first_rest(row);
}

/// Showing the first `n` rows prints each of them followed by a line
/// break.
proof fn lemma_printed_rows(s: Screen, n: int)
    requires
        s.area.width >= 1,
    ensures
        printed(rows_ops(s, n)) == rows_text(s, n),
    decreases n,
{
    if n <= 0 {
        reveal_with_fuel(printed, 1);
    } else {
        lemma_printed_rows(s, n - 1);
        law_line_prints_row(s, n - 1);
        lemma_printed_crlf();
        assert(rows_ops(s, n) == rows_ops(s, n - 1) + line_ops(s, n - 1) + chars_ops(seq!['\r', '\n']));
        assert(rows_text(s, n) == rows_text(s, n - 1) + row_text(s, n - 1, s.area.width as int) + seq!['\r', '\n']);
        lemma_printed_concat(rows_ops(s, n - 1), line_ops(s, n - 1));
        lemma_printed_concat(rows_ops(s, n - 1) + line_ops(s, n - 1), chars_ops(seq!['\r', '\n']));
    }
}

/// Putting the cursor on screen prints its cell's character once more
/// when the cursor is shown, and nothing otherwise.
proof fn lemma_printed_cursor(s: Screen)
    ensures
        printed(cursor_ops(s)) == (if s.cursor.hidden {
            Seq::<char>::empty()
        } else {
            seq![cell(s, s.cursor.x as int, s.cursor.y as int).content]
        }),
{
    if s.cursor.hidden {
        reveal_with_fuel(printed, 1);
    } else {
        let cx = s.cursor.x as int;
        let cy = s.cursor.y as int;
        let p = seq![TermOp::Print(cell(s, cx, cy).content)];
        let m1 = move_cursor_ops(cy, cx) + add_text_style_ops(TextStyle::invert_spec());
        let m2 = subtract_text_style_ops(TextStyle::invert_spec()) + move_cursor_ops(0, -1) + move_cursor_ops(-cy, -cx);
        lemma_printed_none(m1);
        lemma_printed_none(m2);
        lemma_printed_one(cell(s, cx, cy).content);
        assert(cursor_ops(s) =~= m1 + p + m2);
        lemma_printed_concat(m1, p);
        lemma_printed_concat(m1 + p, m2);
        assert(printed(cursor_ops(s)) =~= seq![cell(s, cx, cy).content]);
    }
}

/// Flushing a frame prints every row of the buffer top to bottom, each but
/// the last followed by a line break, then a carriage return, then the
/// character under the cursor once more when the cursor is shown.
pub proof fn law_flush_prints_frame(s: Screen)
    requires
        s.area.width >= 1,
        s.area.height >= 1,
    ensures
        printed(flush_ops(s)) == rows_text(s, s.area.height - 1) + row_text(s, s.area.height - 1, s.area.width as int)
            + seq!['\r'] + (if s.cursor.hidden {
            Seq::<char>::empty()
        } else {
            seq![cell(s, s.cursor.x as int, s.cursor.y as int).content]
        }),
{
    let h = s.area.height as int;
    let a = rows_ops(s, h - 1);
    let b = line_ops(s, h - 1);
    let c = seq![TermOp::Print('\r')];
    let d = move_cursor_ops(-(h - 1), 0);
    let e = cursor_ops(s);
    lemma_printed_rows(s, h - 1);
    law_line_prints_row(s, h - 1);
    lemma_printed_moves(-(h - 1), 0);
    lemma_printed_one('\r');
    lemma_printed_cursor(s);
    lemma_printed_concat(a, b);
    lemma_printed_concat(a + b, c);
    lemma_printed_concat(a + b + c, d);
    lemma_printed_concat(a + b + c + d, e);
    assert(flush_ops(s) == a + b + c + d + e);
    assert(printed(d) + printed(e) =~= printed(e));
}


/// The attributes a terminal prints characters with.
pub ghost struct TermState {
    pub bold: bool,
    pub blink: bool,
    pub invert: bool,
    pub italic: bool,
    pub underline: bool,
    pub fg: Color,
    pub bg: Color,
}

/// The terminal attributes that show a cell with the attributes `a`.
pub open spec fn state_of(a: (TextStyle, Color, Color)) -> TermState {
    TermState {
        bold: has_flag(a.0, 1),
        blink: has_flag(a.0, 2),
        invert: has_flag(a.0, 4),
        italic: has_flag(a.0, 8),
        underline: has_flag(a.0, 16),
        fg: a.1,
        bg: a.2,
    }
}

/// The terminal attributes after a reset: no text attribute, normal colors.
pub open spec fn reset_state() -> TermState {
    TermState {
        bold: false,
        blink: false,
        invert: false,
        italic: false,
        underline: false,
        fg: Color::Normal,
        bg: Color::Normal,
    }
}

/// What a command does to the terminal's attributes.
pub open spec fn apply_op(st: TermState, op: TermOp) -> TermState {
    match op {
        TermOp::Reset => reset_state(),
        TermOp::Fg(c) => TermState { fg: c, ..st },
        TermOp::Bg(c) => TermState { bg: c, ..st },
        TermOp::Bold => TermState { bold: true, ..st },
        TermOp::NoBold => TermState { bold: false, ..st },
        TermOp::Blink => TermState { blink: true, ..st },
        TermOp::NoBlink => TermState { blink: false, ..st },
        TermOp::Invert => TermState { invert: true, ..st },
        TermOp::NoInvert => TermState { invert: false, ..st },
        TermOp::Italic => TermState { italic: true, ..st },
        TermOp::NoItalic => TermState { italic: false, ..st },
        TermOp::Underline => TermState { underline: true, ..st },
        TermOp::NoUnderline => TermState { underline: false, ..st },
        _ => st,
    }
}

/// The terminal's attributes after the commands `ops`, starting from `st`.
pub open spec fn replay(st: TermState, ops: Seq<TermOp>) -> TermState
    decreases ops.len(),
{
    if ops.len() == 0 {
        st
    } else {
        apply_op(replay(st, ops.drop_last()), ops.last())
    }
}

/// How many characters the commands `ops` print.
pub open spec fn print_count(ops: Seq<TermOp>) -> int
    decreases ops.len(),
{
    if ops.len() == 0 {
        0
    } else {
        print_count(ops.drop_last()) + if ops.last() is Print { 1int } else { 0int }
    }
}

/// None of the commands prints.
pub open spec fn no_print(ops: Seq<TermOp>) -> bool {
    forall|i: int| 0 <= i < ops.len() ==> !((#[trigger] ops[i]) is Print)
}

/// Replaying two command streams one after the other.
proof fn lemma_replay_append(st: TermState, a: Seq<TermOp>, b: Seq<TermOp>)
    ensures
        replay(st, a + b) == replay(replay(st, a), b),
        print_count(a + b) == print_count(a) + print_count(b),
    decreases b.len(),
{
    if b.len() == 0 {
        assert(a + b =~= a);
    } else {
        assert((a + b).drop_last() =~= a + b.drop_last());
        lemma_replay_append(st, a, b.drop_last());
    }
}

/// Concatenated command streams that print nothing print nothing.
proof fn lemma_no_print_append(a: Seq<TermOp>, b: Seq<TermOp>)
    requires
        no_print(a),
        no_print(b),
    ensures
        no_print(a + b),
{
    assert forall|i: int| 0 <= i < (a + b).len() implies !((#[trigger] (a + b)[i]) is Print) by {
        if i < a.len() {
            assert((a + b)[i] == a[i]);
        } else {
            assert((a + b)[i] == b[i - a.len()]);
        }
    }
}

/// A stream that prints nothing counts no characters.
proof fn lemma_no_print_count(ops: Seq<TermOp>)
    requires
        no_print(ops),
    ensures
        print_count(ops) == 0,
    decreases ops.len(),
{
    if ops.len() > 0 {
        assert(no_print(ops.drop_last()));
        lemma_no_print_count(ops.drop_last());
        assert(ops[ops.len() - 1] == ops.last());
    }
}

/// Replaying a single command.
proof fn lemma_replay_one(st: TermState, op: TermOp)
    ensures
        replay(st, seq![op]) == apply_op(st, op),
        print_count(seq![op]) == (if op is Print { 1int } else { 0int }),
{
    let one = seq![op];
    assert(one.drop_last() =~= Seq::<TermOp>::empty());
    assert(one.len() == 1 && one.last() == op);
    assert(replay(st, one.drop_last()) == st);
    assert(print_count(one.drop_last()) == 0);
}

/// Turning on the attributes of `ts` after a reset gives exactly them.
proof fn lemma_add_after_reset(ts: TextStyle)
    ensures
        replay(reset_state(), add_text_style_ops(ts)) == (TermState {
            bold: has_flag(ts, 1),
            blink: has_flag(ts, 2),
            invert: has_flag(ts, 4),
            italic: has_flag(ts, 8),
            underline: has_flag(ts, 16),
            fg: Color::Normal,
            bg: Color::Normal,
        }),
        no_print(add_text_style_ops(ts)),
{
    let f1 = flag_only(ts, 1, TermOp::Bold);
    let f2 = flag_only(ts, 2, TermOp::Blink);
    let f3 = flag_only(ts, 4, TermOp::Invert);
    let f4 = flag_only(ts, 8, TermOp::Italic);
    let f5 = flag_only(ts, 16, TermOp::Underline);
    let st0 = reset_state();
    lemma_replay_append(st0, f1, f2);
    lemma_replay_append(st0, f1 + f2, f3);
    lemma_replay_append(st0, f1 + f2 + f3, f4);
    lemma_replay_append(st0, f1 + f2 + f3 + f4, f5);
    assert(replay(st0, Seq::<TermOp>::empty()) == st0);
    lemma_replay_one(st0, TermOp::Bold);
    let s1 = replay(st0, f1);
    lemma_replay_one(s1, TermOp::Blink);
    assert(replay(s1, Seq::<TermOp>::empty()) == s1);
    let s2 = replay(s1, f2);
    lemma_replay_one(s2, TermOp::Invert);
    assert(replay(s2, Seq::<TermOp>::empty()) == s2);
    let s3 = replay(s2, f3);
    lemma_replay_one(s3, TermOp::Italic);
    assert(replay(s3, Seq::<TermOp>::empty()) == s3);
    let s4 = replay(s3, f4);
    lemma_replay_one(s4, TermOp::Underline);
    assert(replay(s4, Seq::<TermOp>::empty()) == s4);
    lemma_no_print_append(f1, f2);
    lemma_no_print_append(f1 + f2, f3);
    lemma_no_print_append(f1 + f2 + f3, f4);
    lemma_no_print_append(f1 + f2 + f3 + f4, f5);
}

/// Setting exactly the attributes of `ts` gives them, whatever was set.
proof fn lemma_set_text_style(st: TermState, ts: TextStyle)
    ensures
        replay(st, set_text_style_ops(ts)) == (TermState {
            bold: has_flag(ts, 1),
            blink: has_flag(ts, 2),
            invert: has_flag(ts, 4),
            italic: has_flag(ts, 8),
            underline: has_flag(ts, 16),
            ..st
        }),
        no_print(set_text_style_ops(ts)),
{
    let ops = set_text_style_ops(ts);
    reveal_with_fuel(replay, 6);
    assert(ops.drop_last().drop_last().drop_last().drop_last().drop_last() =~= Seq::<TermOp>::empty());
}

/// The commands that show the first cell of row `y`.
pub open spec fn line_head(s: Screen, y: int) -> Seq<TermOp> {
    let first = attrs(cell(s, 0, y));
    seq![TermOp::Reset] + set_text_style_ops(first.0) + seq![TermOp::Fg(first.1), TermOp::Bg(first.2)]
        + seq![TermOp::Print(cell(s, 0, y).content)]
}

/// The commands before the character of a cell after its left neighbour
/// take the terminal from the neighbour's attributes to the cell's.
proof fn lemma_step_attrs(s: Screen, x: int, y: int)
    ensures
        step_ops(s, x, y) == step_ops(s, x, y).drop_last().push(TermOp::Print(cell(s, x, y).content)),
        no_print(step_ops(s, x, y).drop_last()),
        replay(state_of(attrs(cell(s, x - 1, y))), step_ops(s, x, y).drop_last()) == state_of(attrs(cell(s, x, y))),
{
    let prev = attrs(cell(s, x - 1, y));
    let cur = attrs(cell(s, x, y));
    let ts_changed = prev.0 != cur.0;
    let a = if ts_changed { seq![TermOp::Reset] + add_text_style_ops(cur.0) } else { seq![] };
    let b = if prev.1 != cur.1 || ts_changed { seq![TermOp::Fg(cur.1)] } else { seq![] };
    let c = if prev.2 != cur.2 || ts_changed { seq![TermOp::Bg(cur.2)] } else { seq![] };
    let pr = seq![TermOp::Print(cell(s, x, y).content)];
    assert(step_ops(s, x, y) == a + b + c + pr);
    assert((a + b + c + pr).drop_last() =~= a + b + c);
    assert(a + b + c + pr =~= (a + b + c).push(TermOp::Print(cell(s, x, y).content)));
    let st0 = state_of(prev);
    lemma_replay_append(st0, a, b);
    lemma_replay_append(st0, a + b, c);
    assert(replay(st0, Seq::<TermOp>::empty()) == st0);
    let sa = replay(st0, a);
    if ts_changed {
        lemma_add_after_reset(cur.0);
        lemma_replay_append(st0, seq![TermOp::Reset], add_text_style_ops(cur.0));
        lemma_replay_one(st0, TermOp::Reset);
        lemma_no_print_append(seq![TermOp::Reset], add_text_style_ops(cur.0));
    } else {
        assert(no_print(a));
    }
    let sb = replay(sa, b);
    lemma_replay_one(sa, TermOp::Fg(cur.1));
    assert(replay(sa, Seq::<TermOp>::empty()) == sa);
    lemma_replay_one(sb, TermOp::Bg(cur.2));
    assert(replay(sb, Seq::<TermOp>::empty()) == sb);
    assert(no_print(b));
    assert(no_print(c));
    lemma_no_print_append(a, b);
    lemma_no_print_append(a + b, c);
}

/// Every character that the commands of the first `n` cells of row `y`
/// print is printed with its own cell's attributes.
proof fn lemma_line_prefix(s: Screen, y: int, st: TermState, n: int)
    requires
        1 <= n,
    ensures
        ({
            let ops = line_head(s, y) + line_body(s, y, n);
            &&& print_count(ops) == n
            &&& replay(st, ops) == state_of(attrs(cell(s, n - 1, y)))
            &&& forall|k: int| 0 <= k < ops.len() && (#[trigger] ops[k]) is Print ==> {
                let x = print_count(ops.take(k));
                &&& 0 <= x < n
                &&& replay(st, ops.take(k)) == state_of(attrs(cell(s, x, y)))
                &&& ops[k] == TermOp::Print(cell(s, x, y).content)
            }
        }),
    decreases n,
{
    let head = line_head(s, y);
    if n == 1 {
        let first = attrs(cell(s, 0, y));
        let r = seq![TermOp::Reset];
        let ts = set_text_style_ops(first.0);
        let fb = seq![TermOp::Fg(first.1), TermOp::Bg(first.2)];
        let pr = seq![TermOp::Print(cell(s, 0, y).content)];
        let pre = r + ts + fb;
        assert(line_body(s, y, 1) =~= Seq::<TermOp>::empty());
        assert(head + line_body(s, y, 1) =~= pre + pr);
        lemma_replay_one(st, TermOp::Reset);
        lemma_replay_append(st, r, ts);
        lemma_set_text_style(reset_state(), first.0);
        lemma_replay_append(st, r + ts, fb);
        let s2 = replay(st, r + ts);
        assert(fb.drop_last() =~= seq![TermOp::Fg(first.1)]);
        lemma_replay_one(s2, TermOp::Fg(first.1));
        lemma_replay_append(st, pre, pr);
        lemma_replay_one(replay(st, pre), TermOp::Print(cell(s, 0, y).content));
        assert(no_print(r));
        assert(no_print(fb));
        lemma_no_print_append(r, ts);
        lemma_no_print_append(r + ts, fb);
        lemma_no_print_count(pre);
        let ops = pre + pr;
        assert forall|k: int| 0 <= k < ops.len() && (#[trigger] ops[k]) is Print implies {
            let x = print_count(ops.take(k));
            &&& 0 <= x < n
            &&& replay(st, ops.take(k)) == state_of(attrs(cell(s, x, y)))
            &&& ops[k] == TermOp::Print(cell(s, x, y).content)
        } by {
            if k < pre.len() {
                assert(ops[k] == pre[k]);
            } else {
                assert(ops.take(k) =~= pre);
            }
        }
    } else {
        lemma_line_prefix(s, y, st, n - 1);
        let prev_ops = head + line_body(s, y, n - 1);
        let step = step_ops(s, n - 1, y);
        let pre = step.drop_last();
        let pr = seq![TermOp::Print(cell(s, n - 1, y).content)];
        lemma_step_attrs(s, n - 1, y);
        assert(step =~= pre + pr);
        let ops = head + line_body(s, y, n);
        assert(ops =~= prev_ops + pre + pr);
        lemma_replay_append(st, prev_ops, pre);
        lemma_replay_append(st, prev_ops + pre, pr);
        lemma_replay_one(replay(st, prev_ops + pre), TermOp::Print(cell(s, n - 1, y).content));
        lemma_no_print_count(pre);
        assert forall|k: int| 0 <= k < ops.len() && (#[trigger] ops[k]) is Print implies {
            let x = print_count(ops.take(k));
            &&& 0 <= x < n
            &&& replay(st, ops.take(k)) == state_of(attrs(cell(s, x, y)))
            &&& ops[k] == TermOp::Print(cell(s, x, y).content)
        } by {
            if k < prev_ops.len() {
                assert(ops[k] == prev_ops[k]);
                assert(ops.take(k) =~= prev_ops.take(k));
            } else if k < prev_ops.len() + pre.len() {
                assert(ops[k] == pre[k - prev_ops.len()]);
            } else {
                assert(ops.take(k) =~= prev_ops + pre);
            }
        }
    }
}

/// Showing row `y` prints each of its cells once, left to right, and every
/// character goes out while the terminal has exactly that cell's text
/// attributes, foreground and background, whatever attributes the terminal
/// had before.
pub proof fn law_line_shows_cell_attrs(s: Screen, y: int, st: TermState, k: int)
    requires
        s.area.width >= 1,
    ensures
        print_count(line_ops(s, y)) == s.area.width,
        0 <= k < line_ops(s, y).len() && line_ops(s, y)[k] is Print ==> {
            let x = print_count(line_ops(s, y).take(k));
            &&& 0 <= x < s.area.width
            &&& replay(st, line_ops(s, y).take(k)) == state_of(attrs(cell(s, x, y)))
            &&& line_ops(s, y)[k] == TermOp::Print(cell(s, x, y).content)
        },
{
    lemma_line_prefix(s, y, st, s.area.width as int);
    assert(line_ops(s, y) =~= line_head(s, y) + line_body(s, y, s.area.width as int));
}

} // verus!
