//! A prompt: a label, a separator and an input line.

use vstd::prelude::*;
use crate::layout::{Area, Pos, Proportional, Proportions, Range};
use crate::owned::string::StyledString;
use crate::render::{Draw, Render, Screen, spec_print, print_target};
use crate::style::{AsStyledStr, Style, StyledChar, StyledStr, ascii_prefix, spec_default_style};
use crate::util::{min_usize, spec_min};
use crate::widget::{Event, InteractiveWidget};
use crate::widget::inputline::{self, InputLine};
use crate::widget::text::byte_len;

verus! {

/// Configuration options for theming [`Prompt`].
#[derive(Debug, Clone)]
pub struct Theme {
    pub sep: StyledString,
    pub input_style: Style,
    pub blank_c: StyledChar,
}

impl Theme {
    /// The default theme: a space as the separator, the default input
    /// style, `'c'` for blank input cells.
    pub fn default() -> (r: Self)
        ensures
            r.sep.content@ == seq![' '],
            r.sep.style == spec_default_style(),
            r.input_style == spec_default_style(),
            r.blank_c == (StyledChar { content: 'c', style: spec_default_style() }),
    {
        let sp = " ";
        proof {
            reveal_strlit(" ");
            assert(sp@ =~= seq![' ']);
        }
        Theme {
            sep: StyledString { content: String::from_str(sp), style: Style::default() },
            input_style: Style::default(),
            blank_c: StyledChar { content: 'c', style: Style::default() },
        }
    }
}

impl Default for Theme {
    fn default() -> (r: Self)
        ensures
            r.sep.content@ == seq![' '],
            r.sep.style == spec_default_style(),
            r.input_style == spec_default_style(),
            r.blank_c == (StyledChar { content: 'c', style: spec_default_style() }),
    {
        Theme::default()
    }
}

/// Prompt-like wrapper for [`InputLine`].
#[derive(Debug, Clone)]
pub struct Prompt {
    pub label: StyledString,
    sep: StyledString,
    inputline: InputLine,
}

/// The label area of a prompt in `area`: as wide as the label's bytes, at
/// most the whole area.
pub open spec fn label_area(area: Area, label_len: int) -> Area {
    Area { width: spec_min(label_len, area.width as int) as u16, ..area }
}

/// The area after the label.
pub open spec fn after_label(area: Area, label_len: int) -> Area {
    let lw = spec_min(label_len, area.width as int);
    Area { x: (area.x + lw) as u16, width: (area.width - lw) as u16, ..area }
}

impl Prompt {
    /// The label.
    pub closed spec fn label_of(&self) -> StyledString {
        self.label
    }

    /// The separator.
    pub closed spec fn sep_of(&self) -> StyledString {
        self.sep
    }

    /// The input line.
    pub closed spec fn input_of(&self) -> InputLine {
        self.inputline
    }

    /// Creates a new `Prompt` with the separator `": "` and an empty,
    /// inactive input.
    pub fn new(label: StyledStr) -> (r: Self)
        ensures
            r.label_of().content@ == label.content@,
            r.label_of().style == label.style,
            r.sep_of().content@ == seq![':', ' '],
            r.sep_of().style == spec_default_style(),
            r.input_of().wf(),
            r.input_of().text() == Seq::<char>::empty(),
            r.input_of().theme_of() == inputline::default_theme(),
            !r.input_of().is_active(),
    {
        let sep = ": ";
        proof {
            reveal_strlit(": ");
            assert(sep@ =~= seq![':', ' ']);
        }
        Prompt {
            label: label.to_owned(),
            inputline: InputLine::new(),
            sep: StyledString { content: String::from_str(sep), style: Style::default() },
        }
    }

    /// Gets a reference to the contents of the input.
    pub fn content(&self) -> (r: &str)
        ensures
            r@ == self.input_of().text(),
    {
        self.inputline.content()
    }

    /// Adjusts the theme.
    pub fn theme(self, theme: Theme) -> (r: Self)
        ensures
            r.label_of() == self.label_of(),
            r.sep_of() == theme.sep,
            r.input_of().theme_of() == (inputline::Theme { input_style: theme.input_style, blank_c: theme.blank_c }),
            r.input_of().text() == self.input_of().text(),
            r.input_of().cursor() == self.input_of().cursor(),
            r.input_of().is_active() == self.input_of().is_active(),
    {
        let mut r = self;
        r.set_theme(theme);
        r
    }

    /// Sets the theme.
    pub fn set_theme(&mut self, theme: Theme)
        ensures
            final(self).label_of() == old(self).label_of(),
            final(self).sep_of() == theme.sep,
            final(self).input_of().theme_of() == (inputline::Theme { input_style: theme.input_style, blank_c: theme.blank_c }),
            final(self).input_of().text() == old(self).input_of().text(),
            final(self).input_of().cursor() == old(self).input_of().cursor(),
            final(self).input_of().is_active() == old(self).input_of().is_active(),
    {
        let Theme { sep, input_style, blank_c } = theme;
        self.sep = sep;
        self.inputline.replace_theme(inputline::Theme { input_style, blank_c });
    }

    /// Sets the prompt to its *active* state.
    pub fn set_active(&mut self)
        ensures
            final(self).label_of() == old(self).label_of(),
            final(self).sep_of() == old(self).sep_of(),
            final(self).input_of().theme_of() == old(self).input_of().theme_of(),
            final(self).input_of().text() == old(self).input_of().text(),
            final(self).input_of().cursor() == old(self).input_of().cursor(),
            final(self).input_of().is_active(),
    {
        self.inputline.set_active(true);
    }

    /// Sets the prompt to its *inactive* state.
    pub fn set_inactive(&mut self)
        ensures
            final(self).label_of() == old(self).label_of(),
            final(self).sep_of() == old(self).sep_of(),
            final(self).input_of().theme_of() == old(self).input_of().theme_of(),
            final(self).input_of().text() == old(self).input_of().text(),
            final(self).input_of().cursor() == old(self).input_of().cursor(),
            !final(self).input_of().is_active(),
    {
        self.inputline.set_active(false);
    }
}

impl<R: Render> Draw<R> for Prompt {
    open spec fn can_draw(&self, view: Area, area: Area) -> bool {
        let ll = byte_len(self.label_of().content@);
        let sl = byte_len(self.sep_of().content@);
        let rest = after_label(area, ll);
        area.width == 0 || area.height == 0 || {
            &&& area.fits()
            &&& print_target(view, Pos { x: 0, y: 0 }, label_area(area, ll)) matches Some((x0, y0, avail))
                ==> ascii_prefix(self.label_of().content@, avail)
            &&& print_target(view, Pos { x: 0, y: 0 }, label_area(rest, sl)) matches Some((x0, y0, avail))
                ==> ascii_prefix(self.sep_of().content@, avail)
            &&& <InputLine as Draw<R>>::can_draw(&self.input_of(), view, after_label(rest, sl))
        }
    }

    open spec fn drawn(&self, before: Screen, after: Screen, area: Area) -> bool {
        let ll = byte_len(self.label_of().content@);
        let sl = byte_len(self.sep_of().content@);
        let rest = after_label(area, ll);
        if area.width == 0 || area.height == 0 {
            after == before
        } else {
            let s1 = spec_print(before, Pos { x: 0, y: 0 }, self.label_of().content@, self.label_of().style, label_area(area, ll));
            let s2 = spec_print(s1, Pos { x: 0, y: 0 }, self.sep_of().content@, self.sep_of().style, label_area(rest, sl));
            <InputLine as Draw<R>>::drawn(&self.input_of(), s2, after, after_label(rest, sl))
        }
    }

    fn draw(&self, buf: &mut R, area: Area) {
        if area.is_collapsed() {
            return;
        }
        let label_len = self.label.content.as_str().len();
        let sep_len = self.sep.content.as_str().len();
        let (label_area, sep_and_input_area) = area.split_vert_at(min_usize(label_len, area.width as usize) as u16);
        let (sep_area, input_area) =
            sep_and_input_area.split_vert_at(min_usize(sep_len, sep_and_input_area.width as usize) as u16);
        buf.print(Pos { x: 0, y: 0 }, self.label.as_styled_str(), label_area);
        buf.print(Pos { x: 0, y: 0 }, self.sep.as_styled_str(), sep_area);
        self.inputline.draw(buf, input_area);
    }
}

impl Proportional for Prompt {
    open spec fn props(&self) -> Proportions {
        Proportions {
            width: Range::from_spec((byte_len(self.label_of().content@) + byte_len(self.sep_of().content@) + 1) as u16),
            height: Range::fixed_spec(1),
        }
    }

    open spec fn has_props(&self) -> bool {
        byte_len(self.label_of().content@) + byte_len(self.sep_of().content@) + 1 <= usize::MAX
    }

    /// The width is at least the length of the label plus that of the
    /// separator plus one cell for the input.
    fn proportions(&self) -> (r: Proportions) {
        let n = self.label.content.as_str().len() + self.sep.content.as_str().len() + 1;
        let w: u16 = #[verifier::truncate] (n as u16);
        Proportions { width: Range::from(w), height: Range::fixed(1) }
    }
}

impl InteractiveWidget for Prompt {
    open spec fn can_process(&self, e: Event) -> bool {
        self.input_of().can_process(e)
    }

    /// The event goes to the input line; the label and the separator stay.
    fn process_event(&mut self, e: Event)
        ensures
            final(self).input_of().text() == inputline::spec_edit(old(self).input_of().text(), e),
            final(self).input_of().wf(),
            final(self).input_of().theme_of() == old(self).input_of().theme_of(),
            final(self).input_of().is_active() == old(self).input_of().is_active(),
            final(self).label_of() == old(self).label_of(),
            final(self).sep_of() == old(self).sep_of(),
    {
        self.inputline.process_event(e);
    }
}

} // verus!
