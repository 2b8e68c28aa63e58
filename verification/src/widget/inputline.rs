//! A primitive for drawing input fields.

use vstd::prelude::*;
use crate::layout::{Area, Pos, Proportional, Proportions, Range};
use crate::render::{Draw, Render, Screen, spec_hfill, spec_print, spec_move_cursor, spec_cursor_hidden};
use crate::style::{Style, StyledChar, StyledStr, ascii_prefix, spec_default_style};
use crate::util::{min, min_usize, spec_min};
use crate::widget::{Event, InteractiveWidget, Key};
use crate::widget::text::is_ascii_text;

verus! {

/// Calls `String::with_capacity`. Claimed: the new string holds no
/// characters. How much it allocates is left unsaid.
#[verifier::external_body]
fn string_with_capacity(capacity: usize) -> (r: String)
    ensures
        r@ == Seq::<char>::empty(),
{
    String::with_capacity(capacity)
}

/// Calls `String::insert`, which inserts `c` at byte position `idx`.
/// Claimed: the text becomes its first `idx` characters, then `c`, then the
/// rest. The text is ASCII up to `idx`, so byte and character positions
/// agree there and `idx` is a character boundary, as `insert` demands.
#[verifier::external_body]
fn string_insert(s: &mut String, idx: usize, c: char)
    requires
        idx <= old(s)@.len(),
        ascii_prefix(old(s)@, idx as int),
    ensures
        final(s)@ == old(s)@.take(idx as int) + seq![c] + old(s)@.skip(idx as int),
{
    s.insert(idx, c)
}

/// Calls `String::remove`, which removes and returns the character at byte
/// position `idx`. Claimed: the character at position `idx` is returned and
/// the text loses it. The text is ASCII up to `idx`, so byte and character
/// positions agree there and `idx` is a character boundary, as `remove`
/// demands.
#[verifier::external_body]
fn string_remove(s: &mut String, idx: usize) -> (r: char)
    requires
        idx < old(s)@.len(),
        ascii_prefix(old(s)@, idx as int),
    ensures
        r == old(s)@[idx as int],
        final(s)@ == old(s)@.take(idx as int) + old(s)@.skip(idx as int + 1),
{
    s.remove(idx)
}

/// Configuration options for theming [`InputLine`].
#[derive(Debug, Clone, Copy)]
pub struct Theme {
    pub blank_c: StyledChar,
    pub input_style: Style,
}

/// The default theme: blank cells are spaces, the input has the default
/// style.
pub open spec fn default_theme() -> Theme {
    Theme { blank_c: StyledChar { content: ' ', style: spec_default_style() }, input_style: spec_default_style() }
}

impl Theme {
    /// The default theme.
    pub fn default() -> (r: Self)
        ensures
            r == default_theme(),
    {
        Theme { blank_c: StyledChar { content: ' ', style: Style::default() }, input_style: Style::default() }
    }
}

impl Default for Theme {
    fn default() -> (r: Self)
        ensures
            r == default_theme(),
    {
        Theme::default()
    }
}

/// Primitive for drawing input fields.
#[derive(Debug, Clone)]
pub struct InputLine {
    pub theme: Theme,
    pub active: bool,
    content: String,
    cursor_pos: u16,
}

/// The characters an input line accepts: ASCII letters, digits,
/// punctuation and the space.
pub open spec fn is_input_char(c: char) -> bool {
    ||| ('0' <= c <= '9')
    ||| ('a' <= c <= 'z')
    ||| ('A' <= c <= 'Z')
    ||| ('!' <= c <= '/')
    ||| (':' <= c <= '@')
    ||| ('[' <= c <= '`')
    ||| ('{' <= c <= '~')
    ||| c == ' '
}

/// Whether the input line accepts `c`.
pub fn accepts_char(c: char) -> (r: bool)
    ensures
        r == is_input_char(c),
{
    ('0' <= c && c <= '9') || ('a' <= c && c <= 'z') || ('A' <= c && c <= 'Z') || ('!' <= c && c <= '/')
        || (':' <= c && c <= '@') || ('[' <= c && c <= '`') || ('{' <= c && c <= '~') || c == ' '
}

/// What drawing an input line with `theme` into `area` does: the row is
/// blanked, the end of the input that fits in all but the last cell is
/// printed, and when active the cursor is shown after the input.
pub open spec fn spec_input_line(s: Screen, theme: Theme, active: bool, text: Seq<char>, area: Area) -> Screen {
    if area.width == 0 || area.height == 0 {
        s
    } else {
        let w = area.width as int;
        let len = text.len() as int;
        let start = if len - (w - 1) > 0 { len - (w - 1) } else { 0 };
        let s1 = spec_hfill(s, Pos { x: area.x, y: area.y }, theme.blank_c, w);
        let s2 = spec_print(s1, Pos { x: 0, y: 0 }, text.subrange(start, len), theme.input_style, area);
        if active {
            let cx = spec_min(area.x + len, area.x + w - 1);
            spec_cursor_hidden(spec_move_cursor(s2, Pos { x: cx as u16, y: area.y }), false)
        } else {
            s2
        }
    }
}

impl InputLine {
    /// The input text.
    pub closed spec fn text(&self) -> Seq<char> {
        self.content@
    }

    /// The theme.
    pub closed spec fn theme_of(&self) -> Theme {
        self.theme
    }

    /// The line is active: the cursor is shown.
    pub closed spec fn is_active(&self) -> bool {
        self.active
    }

    /// The cursor position, in characters.
    pub closed spec fn cursor(&self) -> u16 {
        self.cursor_pos
    }

    /// The cursor is after the input, which is ASCII.
    pub open spec fn wf(&self) -> bool {
        self.cursor() == self.text().len() && is_ascii_text(self.text())
    }

    /// Creates a new, empty `InputLine`; `capacity` is a hint for the
    /// storage to reserve.
    pub fn with_capacity(capacity: usize) -> (r: Self)
        ensures
            r.wf(),
            r.text() == Seq::<char>::empty(),
            r.theme_of() == default_theme(),
            !r.is_active(),
    {
        InputLine { content: string_with_capacity(capacity), cursor_pos: 0, theme: Theme::default(), active: false }
    }

    /// Creates a new, empty `InputLine`.
    pub fn new() -> (r: Self)
        ensures
            r.wf(),
            r.text() == Seq::<char>::empty(),
            r.theme_of() == default_theme(),
            !r.is_active(),
    {
        InputLine { content: String::new(), cursor_pos: 0, theme: Theme::default(), active: false }
    }

    /// Accesses the contents of the input.
    pub fn content(&self) -> (r: &str)
        ensures
            r@ == self.text(),
    {
        self.content.as_str()
    }

    /// Replaces the theme.
    pub(crate) fn replace_theme(&mut self, theme: Theme)
        ensures
            final(self).theme_of() == theme,
            final(self).is_active() == old(self).is_active(),
            final(self).text() == old(self).text(),
            final(self).cursor() == old(self).cursor(),
    {
        self.theme = theme;
    }

    /// Turns the line active or inactive.
    pub(crate) fn set_active(&mut self, active: bool)
        ensures
            final(self).theme_of() == old(self).theme_of(),
            final(self).is_active() == active,
            final(self).text() == old(self).text(),
            final(self).cursor() == old(self).cursor(),
    {
        self.active = active;
    }

    /// Adjusts the theme of the `InputLine`.
    pub fn theme(self, theme: Theme) -> (r: Self)
        ensures
            r.theme_of() == theme,
            r.is_active() == self.is_active(),
            r.text() == self.text(),
            r.cursor() == self.cursor(),
    {
        InputLine { theme, ..self }
    }
}

impl<R: Render> Draw<R> for InputLine {
    open spec fn can_draw(&self, view: Area, area: Area) -> bool {
        &&& self.wf()
        &&& area.fits()
        &&& (self.is_active() ==> area.x + self.cursor() <= u16::MAX)
    }

    open spec fn drawn(&self, before: Screen, after: Screen, area: Area) -> bool {
        after == spec_input_line(before, self.theme_of(), self.is_active(), self.text(), area)
    }

    fn draw(&self, buf: &mut R, area: Area) {
        if area.is_collapsed() {
            return;
        }
        let width = area.width as usize;
        let input_len = self.content.unicode_len();
        buf.hfill(area.top_left(), self.theme.blank_c, width);

        let capped_input_len = min_usize(input_len, width - 1);
        let end = if (self.cursor_pos as usize) <= capped_input_len { capped_input_len } else { self.cursor_pos as usize };
        let start = end.saturating_sub(width - 1);
        let visible = StyledStr { content: self.content.as_str().substring_char(start, end), style: self.theme.input_style };
        proof {
            assert(ascii_prefix(visible.content@, visible.content@.len() as int));
        }
        buf.print(Pos { x: 0, y: 0 }, visible, area);

        let cursor_moved = (self.cursor_pos as usize) < input_len;
        if cursor_moved && input_len >= width {
            let c = self.content.as_str().get_char(self.cursor_pos as usize + 1);
            buf.putc_abs(area.top_right().sub_x(1), StyledChar { content: c, style: self.theme.input_style });
        }

        if self.active {
            buf.move_cursor(Pos { x: min(area.x + self.cursor_pos, area.x + area.width - 1), y: area.y });
            buf.show_cursor();
        }
    }
}

impl Proportional for InputLine {
    open spec fn props(&self) -> Proportions {
        Proportions { height: Range::flexible_spec(), width: Range::fixed_spec(1) }
    }

    open spec fn has_props(&self) -> bool {
        true
    }

    fn proportions(&self) -> (r: Proportions) {
        Proportions { height: Range::flexible(), width: Range::fixed(1) }
    }
}

/// The text of an input line after the event `e`: a character that the
/// line accepts is appended, backspace removes the last character, anything
/// else leaves the text as it was.
pub open spec fn spec_edit(text: Seq<char>, e: Event) -> Seq<char> {
    match e {
        Event::Key(Key::Char(c)) => if is_input_char(c) { text.push(c) } else { text },
        Event::Key(Key::Backspace) => if text.len() > 0 { text.drop_last() } else { text },
        _ => text,
    }
}

/// Typing a character that the line accepts and then pressing backspace
/// gives back the text as it was.
pub proof fn law_type_then_backspace(text: Seq<char>, c: char)
    requires
        is_input_char(c),
    ensures
        spec_edit(spec_edit(text, Event::Key(Key::Char(c))), Event::Key(Key::Backspace)) == text,
{
    assert(text.push(c).drop_last() =~= text);
}

/// Backspace on an empty line leaves it empty.
pub proof fn law_backspace_empty()
    ensures
        spec_edit(Seq::<char>::empty(), Event::Key(Key::Backspace)) == Seq::<char>::empty(),
{
}

impl InteractiveWidget for InputLine {
    open spec fn can_process(&self, e: Event) -> bool {
        &&& self.wf()
        &&& (e matches Event::Key(Key::Char(c)) && is_input_char(c) ==> self.cursor() < u16::MAX)
    }

    /// A typed character that the line accepts is inserted at the cursor;
    /// backspace removes the character before the cursor; other events are
    /// ignored.
    fn process_event(&mut self, e: Event)
        ensures
            final(self).wf(),
            final(self).theme_of() == old(self).theme_of(),
            final(self).is_active() == old(self).is_active(),
            final(self).text() == spec_edit(old(self).text(), e),
    {
        match e {
            Event::Key(Key::Char(c)) => {
                if accepts_char(c) {
                    string_insert(&mut self.content, self.cursor_pos as usize, c);
                    self.cursor_pos = self.cursor_pos + 1;
                    proof {
                        assert(self.content@ =~= old(self).content@.push(c));
                        assert(ascii_prefix(self.content@, self.content@.len() as int));
                    }
                }
            },
            Event::Key(Key::Backspace) => {
                if self.cursor_pos > 0 {
                    string_remove(&mut self.content, self.cursor_pos as usize - 1);
                    self.cursor_pos = self.cursor_pos - 1;
                    proof {
                        assert(self.content@ =~= old(self).content@.drop_last());
                        assert(ascii_prefix(self.content@, self.content@.len() as int));
                    }
                }
            },
            _ => {},
        }
    }
}

} // verus!
