//! Widgets: drawable, proportional building blocks of a user interface.

use vstd::prelude::*;
use crate::layout::{Area, Proportional, Proportions};
use crate::render::{Draw, Render, Screen};

pub mod bar;
pub mod border;
pub mod filler;
pub mod backdrop;
pub mod layout;
pub mod text;
pub mod split;
pub mod debug;
pub mod inputline;
pub mod prompt;
pub mod canvas;
pub mod flex;
pub mod frame;
pub mod menu;
pub mod inner;
pub mod window;

verus! {

/// A key press, as far as widgets tell keys apart.
#[derive(Debug, Clone, Copy, PartialEq, Eq, Structural)]
pub enum Key {
    Backspace,
    Left,
    Right,
    Up,
    Down,
    Char(char),
    /// Any other key.
    Other,
}

/// An input event.
#[derive(Debug, Clone, Copy, PartialEq, Eq, Structural)]
pub enum Event {
    Key(Key),
    /// A mouse event.
    Mouse,
    /// An event the terminal could not decode.
    Unsupported,
}

/// Interactive widgets that can process events.
pub trait InteractiveWidget {
    /// Processing `e` cannot fail.
    spec fn can_process(&self, e: Event) -> bool;

    /// Processes an event.
    fn process_event(&mut self, e: Event)
        requires
            old(self).can_process(e),
    ;
}

/// A widget that does nothing.
#[derive(Debug, Clone, Copy)]
pub struct Void;

impl<R: Render> Draw<R> for Void {
    open spec fn can_draw(&self, view: Area, area: Area) -> bool {
        true
    }

    open spec fn drawn(&self, before: Screen, after: Screen, area: Area) -> bool {
        after == before
    }

    fn draw(&self, buf: &mut R, area: Area) {
    }
}

impl InteractiveWidget for Void {
    open spec fn can_process(&self, e: Event) -> bool {
        true
    }

    fn process_event(&mut self, e: Event)
        ensures
            *final(self) == *old(self),
    {
    }
}

impl Proportional for Void {
    open spec fn props(&self) -> Proportions {
        Proportions { width: crate::layout::Range::flexible_spec(), height: crate::layout::Range::flexible_spec() }
    }

    open spec fn has_props(&self) -> bool {
        true
    }

    fn proportions(&self) -> (r: Proportions) {
        Proportions::flexible()
    }
}

} // verus!
