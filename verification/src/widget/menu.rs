//! A menu: a list of items, one of them selected, shown through a window of
//! rows that scrolls to follow the selection.

use vstd::prelude::*;
use crate::buffer::{Buffer, spec_printa};
use crate::layout::Area;
use crate::owned::string::StyledString;
use crate::render::{Render, Screen};
use crate::style::{AsStyledStr, ascii_prefix};
use crate::util::spec_min;
use crate::widget::{Event, InteractiveWidget, Key};

verus! {

/// Where the selected item lies relative to the visible rows.
#[derive(Debug, Clone, Copy, PartialEq, Eq, Structural)]
pub enum Location {
    Above,
    InView,
    Below,
}

/// A list of items, one of which is selected.
#[derive(Debug, Clone)]
pub struct Menu {
    items: Vec<String>,
    active_idx: usize,
}

/// Where item `active` lies relative to the `height` rows shown from item
/// `scroll` on.
pub open spec fn spec_location(active: int, scroll: int, height: int) -> Location {
    if active < scroll {
        Location::Above
    } else if active < scroll + height {
        Location::InView
    } else {
        Location::Below
    }
}

/// The first item shown after the view has followed the selection: the
/// selection itself when it is above the view, the old first item when it
/// is in view, and `height + 1` items before the selection (or the first
/// item) when it is below.
pub open spec fn spec_scroll(active: int, scroll: int, height: int) -> int {
    match spec_location(active, scroll, height) {
        Location::Above => active,
        Location::InView => scroll,
        Location::Below => if active >= height + 1 { active - (height + 1) } else { 0 },
    }
}

/// The selection after the event `e` in a menu of `len` items: up moves to
/// the previous item and down to the next one, where there is one.
pub open spec fn spec_select(active: int, len: int, e: Event) -> int {
    match e {
        Event::Key(Key::Up) => if active > 0 { active - 1 } else { active },
        Event::Key(Key::Down) => if active + 1 < len { active + 1 } else { active },
        _ => active,
    }
}

/// Moving down to a next item and back up returns to the same selection.
pub proof fn law_down_then_up(active: int, len: int)
    requires
        0 <= active,
        active + 1 < len,
    ensures
        spec_select(spec_select(active, len, Event::Key(Key::Down)), len, Event::Key(Key::Up)) == active,
{
}

/// The selection never leaves the items.
pub proof fn law_select_in_range(active: int, len: int, e: Event)
    requires
        0 <= active < len,
    ensures
        0 <= spec_select(active, len, e) < len,
{
}

/// When the selection is above the view or in it, the view that follows
/// the selection shows it.
pub proof fn law_follow_shows_selection(active: int, scroll: int, height: int)
    requires
        0 <= active,
        0 <= scroll,
        height >= 1,
        spec_location(active, scroll, height) != Location::Below,
    ensures
        spec_scroll(active, scroll, height) <= active < spec_scroll(active, scroll, height) + height,
{
}

impl Menu {
    /// The items.
    pub closed spec fn items_view(&self) -> Seq<Seq<char>> {
        self.items@.map_values(|s: String| s@)
    }

    /// The index of the selected item.
    pub closed spec fn active(&self) -> usize {
        self.active_idx
    }

    /// The selection is one of the items, or the menu is empty.
    pub open spec fn wf(&self) -> bool {
        self.active() < self.items_view().len() || (self.items_view().len() == 0 && self.active() == 0)
    }

    /// Creates a menu of `items`, the first one selected.
    pub fn new(items: &[&str]) -> (r: Self)
        ensures
            r.wf(),
            r.active() == 0,
            r.items_view() == items@.map_values(|s: &str| s@),
    {
        let mut v: Vec<String> = Vec::new();
        let mut i: usize = 0;
        while i < items.len()
            invariant
                i <= items@.len(),
                v@.len() == i,
                forall|k: int| 0 <= k < i ==> (#[trigger] v@[k])@ == items@[k]@,
            decreases items@.len() - i,
        {
            v.push(String::from_str(items[i]));
            i += 1;
        }
        let r = Menu { items: v, active_idx: 0 };
        proof {
            assert(r.items_view() =~= items@.map_values(|s: &str| s@));
        }
        r
    }

    /// The selected item.
    pub fn selected(&self) -> (r: &str)
        requires
            self.wf(),
            self.items_view().len() > 0,
        ensures
            r@ == self.items_view()[self.active() as int],
    {
        self.items[self.active_idx].as_str()
    }

    /// The index of the selected item.
    pub fn selected_idx(&self) -> (r: usize)
        ensures
            r == self.active(),
    {
        self.active_idx
    }

    /// The items.
    pub fn items(&self) -> (r: &[String])
        ensures
            r@.map_values(|s: String| s@) == self.items_view(),
    {
        self.items.as_slice()
    }

    /// The number of items shown in `height` rows.
    pub fn visible_count(&self, height: u16) -> (r: u16)
        ensures
            r == spec_min(height as int, self.items_view().len() as int),
    {
        if (height as usize) < self.items.len() { height } else { self.items.len() as u16 }
    }

    /// Where the selected item lies relative to the `height` rows shown
    /// from item `scroll` on.
    pub fn active_item_location(&self, scroll: usize, height: u16) -> (r: Location)
        ensures
            r == spec_location(self.active() as int, scroll as int, height as int),
    {
        if self.active_idx < scroll {
            Location::Above
        } else if self.active_idx - scroll < height as usize {
            Location::InView
        } else {
            Location::Below
        }
    }

    /// The first item to show in `height` rows, when item `scroll` was
    /// shown first before: the view follows the selection.
    pub fn follow_selection(&self, scroll: usize, height: u16) -> (r: usize)
        ensures
            r == spec_scroll(self.active() as int, scroll as int, height as int),
    {
        match self.active_item_location(scroll, height) {
            Location::Above => self.active_idx,
            Location::InView => scroll,
            Location::Below => self.active_idx.saturating_sub(height as usize + 1),
        }
    }
}

/// `s` with the first `n` lines printed one per row from the top-left
/// corner of `area`, each cut to the area's width and at the right edge of
/// the paint area.
pub open spec fn lines_printed(s: Screen, area: Area, lines: Seq<StyledString>, n: int) -> Screen
    decreases n,
{
    if n <= 0 || n > lines.len() {
        s
    } else {
        let prev = lines_printed(s, area, lines, n - 1);
        let text = lines[n - 1].content@;
        spec_printa(
            prev,
            area.x as int,
            area.y + n - 1,
            text.take(spec_min(text.len() as int, area.width as int)),
            lines[n - 1].style,
            prev.area,
        )
    }
}

/// Prints the (themed) menu lines one per row from the top-left corner of
/// `area`, each cut to the area's width. The lines are ASCII as far as they
/// are shown.
pub fn print_lines(buf: &mut Buffer, area: Area, lines: &[StyledString])
    requires
        old(buf).valid(),
        area.y + lines@.len() <= u16::MAX + 1,
        forall|i: int| 0 <= i < lines@.len() ==> ascii_prefix(#[trigger] lines@[i].content@, area.width as int),
    ensures
        final(buf).valid(),
        final(buf).screen().area == old(buf).screen().area,
        final(buf).screen() == lines_printed(old(buf).screen(), area, lines@, lines@.len() as int),
{
    let ghost s0 = buf.screen();
    let mut i: usize = 0;
    while i < lines.len()
        invariant
            i <= lines@.len(),
            area.y + lines@.len() <= u16::MAX + 1,
            forall|k: int| 0 <= k < lines@.len() ==> ascii_prefix(#[trigger] lines@[k].content@, area.width as int),
            buf.valid(),
            buf.screen().area == s0.area,
            buf.screen() == lines_printed(s0, area, lines@, i as int),
        decreases lines@.len() - i,
    {
        let text = lines[i].as_styled_str();
        let n = text.content.unicode_len();
        let cut = if n < area.width as usize { n } else { area.width as usize };
        proof {
            assert(ascii_prefix(lines@[i as int].content@, area.width as int));
        }
        let part = text.slice_chars(0, cut);
        proof {
            assert(ascii_prefix(part.content@, part.content@.len() as int));
        }
        buf.print_at(area.x, area.y + i as u16, part);
        i += 1;
    }
}

impl InteractiveWidget for Menu {
    open spec fn can_process(&self, e: Event) -> bool {
        true
    }

    /// Up selects the previous item and down the next one, where there is
    /// one; other events are ignored.
    fn process_event(&mut self, e: Event)
        ensures
            final(self).items_view() == old(self).items_view(),
            final(self).active() == spec_select(old(self).active() as int, old(self).items_view().len() as int, e),
            old(self).wf() ==> final(self).wf(),
    {
        match e {
            Event::Key(Key::Up) => {
                if self.active_idx > 0 {
                    self.active_idx -= 1;
                }
            },
            Event::Key(Key::Down) => {
                if self.active_idx < self.items.len() && self.active_idx + 1 < self.items.len() {
                    self.active_idx += 1;
                }
            },
            _ => {},
        }
    }
}

} // verus!
