//! A wireframe widget showing the outline, midpoints, corners, center and
//! size of its area.

use vstd::prelude::*;
use crate::layout::{Area, Justify, Pos, Proportional, Proportions, Range};
use crate::render::{Draw, Render, Screen, spec_jprint, spec_jputc, spec_putc};
use crate::style::{Style, StyledChar, spec_default_style, ascii_prefix};
use crate::widget::Void;
use crate::widget::border::{Border, Theme, spec_border_frame};
use crate::util::{decimal, push_decimal};

verus! {

/// Option flags for [`Wireframe`].
#[derive(Debug, Clone, Copy)]
pub struct Flags {
    pub outline: bool,
    pub corners: bool,
    pub size: bool,
    pub midpoints: bool,
    pub center: bool,
    pub diagonals: bool,
}

/// Every option on.
pub open spec fn all_flags() -> Flags {
    Flags { outline: true, size: true, center: true, corners: true, diagonals: true, midpoints: true }
}

impl Flags {
    /// Every option on.
    pub fn default() -> (r: Self)
        ensures
            r == all_flags(),
    {
        Flags { outline: true, size: true, center: true, corners: true, diagonals: true, midpoints: true }
    }
}

impl Default for Flags {
    fn default() -> (r: Self)
        ensures
            r == all_flags(),
    {
        Flags::default()
    }
}

/// Wireframe of the render area: can show debugging information such as
/// the outline and the size of the render area.
#[derive(Debug, Clone)]
pub struct Wireframe {
    pub flags: Flags,
}

impl Wireframe {
    /// Creates a new `Wireframe` with every option on.
    pub fn new() -> (r: Self)
        ensures
            r.flags == all_flags(),
    {
        Wireframe { flags: Flags::default() }
    }

    /// Adjusts the option to show the outline.
    pub fn outline(self, flag: bool) -> (r: Self)
        ensures
            r.flags == (Flags { outline: flag, ..self.flags }),
    {
        Wireframe { flags: Flags { outline: flag, ..self.flags } }
    }

    /// Adjusts the option to show the size.
    pub fn size(self, flag: bool) -> (r: Self)
        ensures
            r.flags == (Flags { size: flag, ..self.flags }),
    {
        Wireframe { flags: Flags { size: flag, ..self.flags } }
    }

    /// Adjusts the option to show the center.
    pub fn center(self, flag: bool) -> (r: Self)
        ensures
            r.flags == (Flags { center: flag, ..self.flags }),
    {
        Wireframe { flags: Flags { center: flag, ..self.flags } }
    }

    /// Adjusts the option to show the corners.
    pub fn corners(self, flag: bool) -> (r: Self)
        ensures
            r.flags == (Flags { corners: flag, ..self.flags }),
    {
        Wireframe { flags: Flags { corners: flag, ..self.flags } }
    }

    /// Adjusts the option to show the diagonal lines.
    pub fn diagonals(self, flag: bool) -> (r: Self)
        ensures
            r.flags == (Flags { diagonals: flag, ..self.flags }),
    {
        Wireframe { flags: Flags { diagonals: flag, ..self.flags } }
    }

    /// Adjusts the option to show the midpoints.
    pub fn midpoints(self, flag: bool) -> (r: Self)
        ensures
            r.flags == (Flags { midpoints: flag, ..self.flags }),
    {
        Wireframe { flags: Flags { midpoints: flag, ..self.flags } }
    }
}

/// `c` with the default style.
pub open spec fn plain(c: char) -> StyledChar {
    StyledChar { content: c, style: spec_default_style() }
}

/// The outline theme: `+` corners, `-` top and bottom, `|` sides.
pub open spec fn outline_theme() -> Theme {
    Theme {
        top_left: plain('+'),
        top_right: plain('+'),
        bottom_right: plain('+'),
        bottom_left: plain('+'),
        top: plain('-'),
        right: plain('|'),
        bottom: plain('-'),
        left: plain('|'),
    }
}

/// The size label of an area: `[{width}x{height}]`.
pub open spec fn size_text(width: u16, height: u16) -> Seq<char> {
    seq!['['] + decimal(width as nat) + seq!['x'] + decimal(height as nat) + seq![']']
}

/// The size label `[{width}x{height}]`.
fn size_label(width: u16, height: u16) -> (r: String)
    ensures
        r@ == size_text(width, height),
{
    let open = "[";
    let times = "x";
    let close = "]";
    proof {
        reveal_strlit("[");
        reveal_strlit("x");
        reveal_strlit("]");
    }
    let mut s = String::from_str(open);
    push_decimal(&mut s, width);
    s.append(times);
    push_decimal(&mut s, height);
    s.append(close);
    proof {
        assert(s@ =~= size_text(width, height));
    }
    s
}

/// Decimal representations are ASCII.
proof fn lemma_decimal_ascii(n: nat)
    ensures
        ascii_prefix(decimal(n), decimal(n).len() as int),
    decreases n,
{
    if n >= 10 {
        lemma_decimal_ascii(n / 10);
        assert(n % 10 < 10);
    }
}

/// What the midpoint marks do to `s`: arrows at the middle of each side.
#[verifier::opaque]
pub open spec fn spec_midpoints(s: Screen, area: Area) -> Screen {
    let st = spec_default_style();
    let w_mid = ((area.width - 1) / 2) as u16;
    let h_mid = ((area.height - 1) / 2) as u16;
    let s1 = if area.width % 2 == 0 {
        spec_jprint(spec_jprint(s, seq!['\\', '/'], st, Justify::Top(w_mid), area), seq!['/', '\\'], st, Justify::Bottom(w_mid), area)
    } else {
        spec_jputc(spec_jputc(s, plain('v'), Justify::Top(w_mid), area), plain('^'), Justify::Bottom(w_mid), area)
    };
    if area.height % 2 == 0 {
        let s2 = spec_jputc(s1, plain('\\'), Justify::Left(h_mid), area);
        let s3 = spec_jputc(s2, plain('/'), Justify::Left((h_mid + 1) as u16), area);
        let s4 = spec_jputc(s3, plain('/'), Justify::Right(h_mid), area);
        spec_jputc(s4, plain('\\'), Justify::Right((h_mid + 1) as u16), area)
    } else {
        spec_jputc(spec_jputc(s1, plain('>'), Justify::Left(h_mid), area), plain('<'), Justify::Right(h_mid), area)
    }
}

/// What the corner marks do to `s`: a `+` in each corner.
#[verifier::opaque]
pub open spec fn spec_corners(s: Screen, area: Area) -> Screen {
    let s1 = spec_jputc(s, plain('+'), Justify::TopLeft, area);
    let s2 = spec_jputc(s1, plain('+'), Justify::TopRight, area);
    let s3 = spec_jputc(s2, plain('+'), Justify::BottomLeft, area);
    spec_jputc(s3, plain('+'), Justify::BottomRight, area)
}

/// What the center mark does to `s`.
#[verifier::opaque]
pub open spec fn spec_center(s: Screen, area: Area) -> Screen {
    let w_even = area.width % 2 == 0;
    let h_even = area.height % 2 == 0;
    if w_even && h_even {
        let px = (area.width - 1) / 2;
        let py = (area.height - 1) / 2;
        let s1 = spec_putc(s, Pos { x: px as u16, y: py as u16 }, plain('\\'), area);
        let s2 = spec_putc(s1, Pos { x: (px + 1) as u16, y: (py + 1) as u16 }, plain('\\'), area);
        let s3 = spec_putc(s2, Pos { x: (px + 1) as u16, y: py as u16 }, plain('/'), area);
        spec_putc(s3, Pos { x: px as u16, y: (py + 1) as u16 }, plain('/'), area)
    } else if w_even {
        spec_jprint(s, seq!['>', '<'], spec_default_style(), Justify::Center, area)
    } else if h_even {
        let s1 = spec_jputc(s, plain('v'), Justify::HCenter(((area.height - 1) / 2) as u16), area);
        spec_jputc(s1, plain('^'), Justify::HCenter((area.height / 2) as u16), area)
    } else {
        spec_jputc(s, plain('x'), Justify::Center, area)
    }
}

/// The area the size label is printed in: the top row without the corners.
pub open spec fn size_area(area: Area) -> Area {
    Area {
        x: (area.x + 1) as u16,
        y: area.y,
        width: (if area.width >= 2 { area.width - 2 } else { 0 }) as u16,
        height: area.height,
    }
}

/// What drawing a wireframe with `flags` into `area` does.
#[verifier::opaque]
pub open spec fn spec_wireframe(s: Screen, flags: Flags, area: Area) -> Screen {
    if area.width == 0 || area.height == 0 {
        s
    } else {
        let s1 = if flags.outline { spec_border_frame(s, outline_theme(), area) } else { s };
        let s2 = if flags.midpoints { spec_midpoints(s1, area) } else { s1 };
        let s3 = if flags.corners { spec_corners(s2, area) } else { s2 };
        let s4 = if flags.center { spec_center(s3, area) } else { s3 };
        if flags.size {
            spec_jprint(s4, size_text(area.width, area.height), spec_default_style(), Justify::TopLeft, size_area(area))
        } else {
            s4
        }
    }
}

/// Draws the outline.
fn draw_outline<R: Render>(buf: &mut R, area: Area)
    requires
        old(buf).valid(),
        area.fits(),
        area.width > 0,
        area.height > 0,
    ensures
        final(buf).valid(),
        final(buf).screen().area == old(buf).screen().area,
        final(buf).screen() == spec_border_frame(old(buf).screen(), outline_theme(), area),
{
    let corner = StyledChar::from('+');
    let vbar = StyledChar::from('|');
    let hbar = StyledChar::from('-');
    let border = Border::new(Void).theme(Theme {
        top_left: corner,
        top_right: corner,
        bottom_right: corner,
        bottom_left: corner,
        top: hbar,
        right: vbar,
        bottom: hbar,
        left: vbar,
    });
    assert(border.theme == outline_theme());
    border.draw(buf, area);
}

/// Draws the midpoint marks.
fn draw_midpoints<R: Render>(buf: &mut R, area: Area)
    requires
        old(buf).valid(),
        area.fits(),
        area.width > 0,
        area.height > 0,
    ensures
        final(buf).valid(),
        final(buf).screen().area == old(buf).screen().area,
        final(buf).screen() == spec_midpoints(old(buf).screen(), area),
{
    reveal(spec_midpoints);
    proof {
        buf.lemma_origin();
    }
    let width_is_even = area.width % 2 == 0;
    let height_is_even = area.height % 2 == 0;
    let w_mid = (area.width - 1) / 2;
    let h_mid = (area.height - 1) / 2;
    if width_is_even {
        let a = "\\/";
        let b = "/\\";
        proof {
            reveal_strlit("\\/");
            reveal_strlit("/\\");
            assert(a@ =~= seq!['\\', '/']);
            assert(b@ =~= seq!['/', '\\']);
        }
        buf.jprint(a, Justify::Top(w_mid), area);
        buf.jprint(b, Justify::Bottom(w_mid), area);
    } else {
        buf.jputc(StyledChar::from('v'), Justify::Top(w_mid), area);
        buf.jputc(StyledChar::from('^'), Justify::Bottom(w_mid), area);
    }
    if height_is_even {
        buf.jputc(StyledChar::from('\\'), Justify::Left(h_mid), area);
        buf.jputc(StyledChar::from('/'), Justify::Left(h_mid + 1), area);
        buf.jputc(StyledChar::from('/'), Justify::Right(h_mid), area);
        buf.jputc(StyledChar::from('\\'), Justify::Right(h_mid + 1), area);
    } else {
        buf.jputc(StyledChar::from('>'), Justify::Left(h_mid), area);
        buf.jputc(StyledChar::from('<'), Justify::Right(h_mid), area);
    }
}

/// Draws the corner marks.
fn draw_corners<R: Render>(buf: &mut R, area: Area)
    requires
        old(buf).valid(),
        area.fits(),
    ensures
        final(buf).valid(),
        final(buf).screen().area == old(buf).screen().area,
        final(buf).screen() == spec_corners(old(buf).screen(), area),
{
    reveal(spec_corners);
    let corner = StyledChar::from('+');
    buf.jputc(corner, Justify::TopLeft, area);
    buf.jputc(corner, Justify::TopRight, area);
    buf.jputc(corner, Justify::BottomLeft, area);
    buf.jputc(corner, Justify::BottomRight, area);
}

/// Draws the center mark.
fn draw_center<R: Render>(buf: &mut R, area: Area)
    requires
        old(buf).valid(),
        area.fits(),
        area.width > 0,
        area.height > 0,
    ensures
        final(buf).valid(),
        final(buf).screen().area == old(buf).screen().area,
        final(buf).screen() == spec_center(old(buf).screen(), area),
{
    reveal(spec_center);
    proof {
        buf.lemma_origin();
    }
    let width_is_even = area.width % 2 == 0;
    let height_is_even = area.height % 2 == 0;
    if width_is_even && height_is_even {
        let pos = Pos { x: (area.width - 1) / 2, y: (area.height - 1) / 2 };
        buf.putc(pos, StyledChar::from('\\'), area);
        buf.putc(pos.add(Pos { x: 1, y: 1 }), StyledChar::from('\\'), area);
        buf.putc(pos.add_x(1), StyledChar::from('/'), area);
        buf.putc(pos.add_y(1), StyledChar::from('/'), area);
    } else if width_is_even {
        let a = "><";
        proof {
            reveal_strlit("><");
            assert(a@ =~= seq!['>', '<']);
        }
        buf.jprint(a, Justify::Center, area);
    } else if height_is_even {
        buf.jputc(StyledChar::from('v'), Justify::HCenter((area.height - 1) / 2), area);
        buf.jputc(StyledChar::from('^'), Justify::HCenter(area.height / 2), area);
    } else {
        buf.jputc(StyledChar::from('x'), Justify::Center, area);
    }
}

/// Draws the size label.
fn draw_size<R: Render>(buf: &mut R, area: Area)
    requires
        old(buf).valid(),
        area.fits(),
        area.width > 0,
        area.height > 0,
    ensures
        final(buf).valid(),
        final(buf).screen().area == old(buf).screen().area,
        final(buf).screen() == spec_jprint(
            old(buf).screen(),
            size_text(area.width, area.height),
            spec_default_style(),
            Justify::TopLeft,
            size_area(area),
        ),
{
    proof {
        buf.lemma_origin();
        lemma_decimal_ascii(area.width as nat);
        lemma_decimal_ascii(area.height as nat);
        assert(ascii_prefix(size_text(area.width, area.height), size_text(area.width, area.height).len() as int));
    }
    let size = size_label(area.width, area.height);
    let label_area = Area { x: area.x + 1, y: area.y, width: area.width.saturating_sub(2), height: area.height };
    buf.jprint(size.as_str(), Justify::TopLeft, label_area);
}

impl<R: Render> Draw<R> for Wireframe {
    open spec fn can_draw(&self, view: Area, area: Area) -> bool {
        area.fits()
    }

    open spec fn drawn(&self, before: Screen, after: Screen, area: Area) -> bool {
        after == spec_wireframe(before, self.flags, area)
    }

    fn draw(&self, buf: &mut R, area: Area) {
        if area.is_collapsed() {
            proof {
                reveal(spec_wireframe);
            }
            return;
        }
        let ghost s0 = buf.screen();
        if self.flags.outline {
            draw_outline(buf, area);
        }
        let ghost s1 = buf.screen();
        assert(s1 == (if self.flags.outline { spec_border_frame(s0, outline_theme(), area) } else { s0 }));
        if self.flags.midpoints {
            draw_midpoints(buf, area);
        }
        let ghost s2 = buf.screen();
        assert(s2 == (if self.flags.midpoints { spec_midpoints(s1, area) } else { s1 }));
        if self.flags.corners {
            draw_corners(buf, area);
        }
        let ghost s3 = buf.screen();
        assert(s3 == (if self.flags.corners { spec_corners(s2, area) } else { s2 }));
        if self.flags.diagonals {
        }
        if self.flags.center {
            draw_center(buf, area);
        }
        let ghost s4 = buf.screen();
        assert(s4 == (if self.flags.center { spec_center(s3, area) } else { s3 }));
        if self.flags.size {
            draw_size(buf, area);
        }
        proof {
            reveal(spec_wireframe);
        }
    }
}

impl Proportional for Wireframe {
    open spec fn props(&self) -> Proportions {
        Proportions { width: Range::flexible_spec(), height: Range::flexible_spec() }
    }

    open spec fn has_props(&self) -> bool {
        true
    }

    fn proportions(&self) -> (r: Proportions) {
        Proportions::flexible()
    }
}

} // verus!
