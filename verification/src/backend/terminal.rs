//! Terminal backends: the frame buffers they render into and the command
//! streams with which they set up, show and restore the terminal. Writing the
//! commands to the terminal is left to the caller.

use vstd::prelude::*;
use crate::backend::console::{TermOp, hide_cursor};
use crate::backend::frame::{flush_buf, flush_ops, restore_terminal, restore_ops, cursor_on_screen};
use crate::buffer::Buffer;
use crate::layout::Area;
use crate::render::{Cursor, Render, cell, spec_clear};
use crate::style::{Style, Color, TextStyle, clean_blank};
use crate::util::{cell_count, spec_max};

verus! {

/// The style that every cell of a new frame buffer has: normal text on
/// normal colors.
fn clean_style() -> (r: Style)
    ensures
        r.text_style == Some(TextStyle::normal_spec()),
        r.fg_color == Some(Color::Normal),
        r.bg_color == Some(Color::Normal),
{
    Style::default().clean()
}

/// Whether the cursor of `buffer` is hidden or on one of its cells.
fn frame_cursor_ok(buffer: &Buffer) -> (r: bool)
    ensures
        r == cursor_on_screen(buffer.screen()),
{
    let c = buffer.cursor();
    c.hidden || (c.x < buffer.width() && c.y < buffer.height())
}

/// Fixed-size terminal backend of `W` x `H` cells.
#[derive(Debug)]
pub struct TermionFixed<const W: u16, const H: u16> {
    buffer: Buffer,
}

impl<const W: u16, const H: u16> TermionFixed<W, H> {
    /// The frame buffer.
    pub closed spec fn buffer_of(&self) -> Buffer {
        self.buffer
    }

    /// The frame buffer is consistent and `W` x `H` cells large.
    pub open spec fn wf(&self) -> bool {
        &&& self.buffer_of().valid()
        &&& self.buffer_of().screen().area == (Area { x: 0, y: 0, width: W, height: H })
    }

    /// Creates the backend with a blank frame; `out` gets the command that
    /// prepares the terminal (the cursor is hidden).
    pub fn init(out: &mut Vec<TermOp>) -> (r: Self)
        ensures
            r.wf(),
            r.buffer_of().screen().cursor == (Cursor { x: 0, y: 0, hidden: true }),
            forall|i: int, j: int|
                r.buffer_of().screen().area.has(i, j) ==> #[trigger] cell(r.buffer_of().screen(), i, j) == clean_blank(),
            final(out)@ == old(out)@.push(TermOp::HideCursor),
    {
        hide_cursor(out);
        let buf_size = cell_count(W, H);
        let chars = vec![' '; buf_size];
        let styles = vec![clean_style(); buf_size];
        let buffer = Buffer::new(W, H, chars, styles, Cursor { x: 0, y: 0, hidden: true });
        proof {
            assert forall|i: int, j: int| buffer.screen().area.has(i, j) implies
                #[trigger] cell(buffer.screen(), i, j) == clean_blank() by {
                crate::util::lemma_offset_bounds(i, j, W as int, H as int);
                buffer.lemma_stored(i, j);
            }
        }
        TermionFixed { buffer }
    }

    /// Starts a frame: the buffer is cleared and handed out to be drawn
    /// into. What is drawn stays in the backend until the next frame.
    pub fn render(&mut self) -> (r: &mut Buffer)
        requires
            old(self).wf(),
        ensures
            r.valid(),
            r.screen() == spec_clear(old(self).buffer_of().screen()),
            r.screen().area == (Area { x: 0, y: 0, width: W, height: H }),
            final(self).buffer_of() == *final(r),
    {
        self.buffer.clear();
        &mut self.buffer
    }

    /// Whether the cursor of the frame is hidden or on one of its cells, as
    /// showing the frame needs.
    pub fn cursor_in_frame(&self) -> (r: bool)
        ensures
            r == cursor_on_screen(self.buffer_of().screen()),
    {
        frame_cursor_ok(&self.buffer)
    }

    /// Shows the frame: `out` gets the commands that display the buffer.
    pub fn flush(&mut self, out: &mut Vec<TermOp>)
        requires
            old(self).wf(),
            W > 0,
            H > 0,
            cursor_on_screen(old(self).buffer_of().screen()),
        ensures
            *final(self) == *old(self),
            final(out)@ == old(out)@ + flush_ops(old(self).buffer_of().screen()),
    {
        flush_buf(out, &self.buffer);
    }

    /// Leaves the terminal: `out` gets the commands that restore it below
    /// the `H` rows of the frame.
    pub fn restore(&self, out: &mut Vec<TermOp>)
        ensures
            final(out)@ == old(out)@ + restore_ops(H),
    {
        restore_terminal(out, H);
    }
}

/// Terminal backend that follows the size of the terminal.
#[derive(Debug)]
pub struct TermionDyn {
    last_flush_height: u16,
    buffer: Buffer,
}

impl TermionDyn {
    /// The frame buffer, as large as the terminal was at the last frame.
    pub closed spec fn buffer_of(&self) -> Buffer {
        self.buffer
    }

    /// The height of the last frame shown.
    pub closed spec fn flushed_height(&self) -> u16 {
        self.last_flush_height
    }

    /// The frame buffer is consistent, and its character and style stores
    /// are equally long.
    pub open spec fn wf(&self) -> bool {
        &&& self.buffer_of().valid()
        &&& self.buffer_of().chars_view().len() == self.buffer_of().styles_view().len()
    }

    /// The width and height of the last frame.
    pub fn frame_size(&self) -> (r: (u16, u16))
        ensures
            r.0 == self.buffer_of().screen().area.width,
            r.1 == self.buffer_of().screen().area.height,
    {
        (self.buffer.width(), self.buffer.height())
    }

    /// Creates the backend for a terminal of `width` x `height` cells,
    /// before any frame; `out` gets the command that prepares the terminal
    /// (the cursor is hidden).
    pub fn init(width: u16, height: u16, out: &mut Vec<TermOp>) -> (r: Self)
        ensures
            r.wf(),
            r.buffer_of().screen().area == (Area { x: 0, y: 0, width: 0, height: 0 }),
            r.buffer_of().chars_view().len() == width * height,
            r.buffer_of().styles_view().len() == width * height,
            r.flushed_height() == 0,
            final(out)@ == old(out)@.push(TermOp::HideCursor),
    {
        hide_cursor(out);
        let buf_size = cell_count(width, height);
        let chars = vec![' '; buf_size];
        let styles = vec![clean_style(); buf_size];
        TermionDyn {
            last_flush_height: 0,
            buffer: Buffer::new(0, 0, chars, styles, Cursor { x: 0, y: 0, hidden: true }),
        }
    }

    /// Starts a frame of the terminal's size, `size`, or of the size of the
    /// last frame when the terminal could not tell it (`None`). The storage
    /// grows when the frame needs more cells; the buffer is cleared and
    /// handed out to be drawn into.
    pub fn render(&mut self, size: Option<(u16, u16)>) -> (r: &mut Buffer)
        requires
            old(self).wf(),
        ensures
            r.valid(),
            r.screen().area == (match size {
                Some((w, h)) => Area { x: 0, y: 0, width: w, height: h },
                None => old(self).buffer_of().screen().area,
            }),
            forall|i: int, j: int|
                r.screen().area.has(i, j) ==> #[trigger] crate::render::cell(r.screen(), i, j) == crate::render::blank(),
            r.screen().cursor == (Cursor { x: 0, y: 0, hidden: true }),
            r.chars_view().len() == spec_max(old(self).buffer_of().chars_view().len() as int,
                r.screen().area.width * r.screen().area.height),
            r.styles_view().len() == spec_max(old(self).buffer_of().styles_view().len() as int,
                r.screen().area.width * r.screen().area.height),
            r.chars_view().len() == r.styles_view().len(),
            r.chars_view().len() >= r.screen().area.width * r.screen().area.height,
            final(self).buffer_of() == *final(r),
            final(self).flushed_height() == old(self).flushed_height(),
    {
        proof {
            self.buffer.lemma_origin();
        }
        let (width, height) = match size {
            Some(s) => s,
            None => (self.buffer.width(), self.buffer.height()),
        };
        let new_buf_size = cell_count(width, height);
        let mut old_buffer = Buffer::new(0, 0, Vec::new(), Vec::new(), Cursor { x: 0, y: 0, hidden: true });
        std::mem::swap(&mut old_buffer, &mut self.buffer);
        let (mut chars, mut styles, _cursor) = old_buffer.into_parts();
        if new_buf_size > chars.len() {
            chars.resize(new_buf_size, ' ');
        }
        if new_buf_size > styles.len() {
            styles.resize(new_buf_size, clean_style());
        }
        let mut buffer = Buffer::new(width, height, chars, styles, Cursor { x: 0, y: 0, hidden: true });
        buffer.clear();
        self.buffer = buffer;
        &mut self.buffer
    }

    /// Whether the cursor of the frame is hidden or on one of its cells, as
    /// showing the frame needs.
    pub fn cursor_in_frame(&self) -> (r: bool)
        ensures
            r == cursor_on_screen(self.buffer_of().screen()),
    {
        frame_cursor_ok(&self.buffer)
    }

    /// Shows the frame: `out` gets the commands that display the buffer.
    pub fn flush(&mut self, out: &mut Vec<TermOp>)
        requires
            old(self).wf(),
            old(self).buffer_of().screen().area.width > 0,
            old(self).buffer_of().screen().area.height > 0,
            cursor_on_screen(old(self).buffer_of().screen()),
        ensures
            final(self).buffer_of() == old(self).buffer_of(),
            final(self).flushed_height() == old(self).buffer_of().screen().area.height,
            final(out)@ == old(out)@ + flush_ops(old(self).buffer_of().screen()),
    {
        flush_buf(out, &self.buffer);
        self.last_flush_height = self.buffer.height();
    }

    /// Leaves the terminal: `out` gets the commands that restore it below
    /// the rows of the last frame shown.
    pub fn restore(&self, out: &mut Vec<TermOp>)
        ensures
            final(out)@ == old(out)@ + restore_ops(self.flushed_height()),
    {
        restore_terminal(out, self.last_flush_height);
    }
}

} // verus!
