//! Text styling: colors, text attributes, styles and styled text.

use vstd::prelude::*;
use vstd::std_specs::convert::FromSpecImpl;
use vstd::string::StringSliceAdditionalSpecFns;
use vstd::utf8::{
    encode_utf8_valid_utf8, is_char_boundary, is_char_boundary_iff_not_is_continuation_byte,
    is_char_boundary_start_end_of_seq,
};

verus! {

/// Special text styling in consoles (bold, underlined, blinking, ...): a set
/// of attribute flags stored as bits.
#[derive(Debug, Clone, Copy, PartialEq, Eq, Structural, Hash)]
pub struct TextStyle {
    bits: u8,
}

impl TextStyle {
    /// The raw flag bits.
    pub closed spec fn view_bits(self) -> u8 {
        self.bits
    }

    /// No attributes.
    pub fn normal() -> (r: Self)
        ensures
            r.view_bits() == 0,
    {
        TextStyle { bits: 0b00000000 }
    }

    /// Bold text.
    pub fn bold() -> (r: Self)
        ensures
            r.view_bits() == 1,
    {
        TextStyle { bits: 0b00000001 }
    }

    /// Blinking text.
    pub fn blink() -> (r: Self)
        ensures
            r.view_bits() == 2,
    {
        TextStyle { bits: 0b00000010 }
    }

    /// Inverted colors.
    pub fn invert() -> (r: Self)
        ensures
            r.view_bits() == 4,
    {
        TextStyle { bits: 0b00000100 }
    }

    /// Italic text.
    pub fn italic() -> (r: Self)
        ensures
            r.view_bits() == 8,
    {
        TextStyle { bits: 0b00001000 }
    }

    /// Underlined text.
    pub fn underline() -> (r: Self)
        ensures
            r.view_bits() == 16,
    {
        TextStyle { bits: 0b00010000 }
    }

    /// The raw flag bits.
    pub fn bits(&self) -> (r: u8)
        ensures
            r == self.view_bits(),
    {
        self.bits
    }

    /// Keeps the known flags of `bits` and drops the others.
    pub fn from_bits_truncate(bits: u8) -> (r: Self)
        ensures
            r.view_bits() == bits & 0x1f,
    {
        TextStyle { bits: bits & 0x1f }
    }

    /// All flags of `other` are set in `self`.
    pub fn contains(&self, other: Self) -> (r: bool)
        ensures
            r == (self.view_bits() & other.view_bits() == other.view_bits()),
    {
        self.bits & other.bits == other.bits
    }

    /// The flags set in either style.
    pub fn union(self, other: Self) -> (r: Self)
        ensures
            r.view_bits() == self.view_bits() | other.view_bits(),
    {
        TextStyle { bits: self.bits | other.bits }
    }
}

impl Default for TextStyle {
    fn default() -> (r: Self)
        ensures
            r.view_bits() == 0,
    {
        TextStyle { bits: 0 }
    }
}

/// Colors, supporting the standard 16 terminal colors, ANSI 256 colors and
/// true colors (24-bit RGB).
#[derive(Debug, Clone, Copy, PartialEq, Eq, Structural, Hash)]
pub enum Color {
    Normal,
    Black,
    Red,
    Green,
    Yellow,
    Blue,
    Magenta,
    Cyan,
    White,
    LightBlack,
    LightRed,
    LightGreen,
    LightYellow,
    LightBlue,
    LightMagenta,
    LightCyan,
    LightWhite,
    Ansi(u8),
    Rgb(u8, u8, u8),
}

impl Default for Color {
    fn default() -> (r: Self)
        ensures
            r == Color::Normal,
    {
        Color::Normal
    }
}

/// Styling data used to style text. A `None` field leaves that part of the
/// style as it was when the style is merged onto a cell.
#[derive(Debug, Clone, Copy, PartialEq, Eq, Structural, Hash)]
pub struct Style {
    pub text_style: Option<TextStyle>,
    pub fg_color: Option<Color>,
    pub bg_color: Option<Color>,
}

/// The style with no field set.
pub open spec fn spec_default_style() -> Style {
    Style { text_style: None, fg_color: None, bg_color: None }
}

/// `s` overridden by the fields of `other` that are set.
pub open spec fn spec_merge(s: Style, other: Style) -> Style {
    Style {
        text_style: if other.text_style is Some { other.text_style } else { s.text_style },
        fg_color: if other.fg_color is Some { other.fg_color } else { s.fg_color },
        bg_color: if other.bg_color is Some { other.bg_color } else { s.bg_color },
    }
}

impl Style {
    /// The style with no field set.
    pub fn default() -> (r: Self)
        ensures
            r == spec_default_style(),
    {
        Style { text_style: None, fg_color: None, bg_color: None }
    }

    /// Resets the style: normal text, normal colors.
    pub fn clean(self) -> (r: Self)
        ensures
            r.text_style == Some(TextStyle::normal_spec()),
            r.fg_color == Some(Color::Normal),
            r.bg_color == Some(Color::Normal),
    {
        Style { text_style: Some(TextStyle::normal()), fg_color: Some(Color::Normal), bg_color: Some(Color::Normal) }
    }

    /// Adjusts the text style.
    pub fn text_style(self, new_ts: TextStyle) -> (r: Self)
        ensures
            r == (Style { text_style: Some(new_ts), ..self }),
    {
        Style { text_style: Some(new_ts), ..self }
    }

    /// Adjusts the foreground color.
    pub fn fg(self, color: Color) -> (r: Self)
        ensures
            r == (Style { fg_color: Some(color), ..self }),
    {
        Style { fg_color: Some(color), ..self }
    }

    /// Adjusts the background color.
    pub fn bg(self, color: Color) -> (r: Self)
        ensures
            r == (Style { bg_color: Some(color), ..self }),
    {
        Style { bg_color: Some(color), ..self }
    }

    /// Overrides with values from `other` that aren't `None`.
    pub fn merge(&self, other: Self) -> (r: Self)
        ensures
            r == spec_merge(*self, other),
    {
        let mut ret = *self;
        if other.text_style.is_some() {
            ret.text_style = other.text_style;
        }
        if other.fg_color.is_some() {
            ret.fg_color = other.fg_color;
        }
        if other.bg_color.is_some() {
            ret.bg_color = other.bg_color;
        }
        ret
    }
}

impl TextStyle {
    /// The style without attributes.
    pub closed spec fn normal_spec() -> TextStyle {
        TextStyle { bits: 0 }
    }

    /// The style with only the inverted-colors flag.
    pub closed spec fn invert_spec() -> TextStyle {
        TextStyle { bits: 4 }
    }

    /// [`TextStyle::invert`] yields `invert_spec`.
    pub proof fn lemma_invert()
        ensures
            Self::invert_spec().view_bits() == 4,
            forall|t: TextStyle| t.view_bits() == 4 ==> t == Self::invert_spec(),
    {
    }

    /// [`TextStyle::normal`] yields `normal_spec`.
    pub proof fn lemma_normal(t: TextStyle)
        requires
            t.view_bits() == 0,
        ensures
            t == Self::normal_spec(),
    {
    }
}

/// Char with attached style.
#[derive(Debug, Clone, Copy, PartialEq, Eq, Structural, Hash)]
pub struct StyledChar {
    pub content: char,
    pub style: Style,
}

impl From<char> for StyledChar {
    fn from(c: char) -> (r: Self)
        ensures
            r == (StyledChar { content: c, style: spec_default_style() }),
    {
        StyledChar { content: c, style: Style::default() }
    }
}

impl FromSpecImpl<char> for StyledChar {
    open spec fn obeys_from_spec() -> bool {
        true
    }

    open spec fn from_spec(v: char) -> StyledChar {
        StyledChar { content: v, style: spec_default_style() }
    }
}

/// A blank cell of a fresh frame: a space, with normal text and colors.
pub open spec fn clean_blank() -> StyledChar {
    StyledChar {
        content: ' ',
        style: Style {
            text_style: Some(TextStyle::normal_spec()),
            fg_color: Some(Color::Normal),
            bg_color: Some(Color::Normal),
        },
    }
}

/// `&str` with attached `Style`.
///
/// For the owned version, see [`StyledString`](crate::owned::string::StyledString).
#[derive(Debug, Clone, Copy)]
pub struct StyledStr<'s> {
    pub content: &'s str,
    pub style: Style,
}

/// The first `n` characters of `s` (those that exist) are ASCII.
pub open spec fn ascii_prefix(s: Seq<char>, n: int) -> bool {
    forall|i: int| 0 <= i < n && i < s.len() ==> #[trigger] s[i] <= '\u{7f}'
}

impl<'s> StyledStr<'s> {
    /// Slices the contained text to the bytes `start..end`, both of which lie
    /// on character boundaries, keeping the style.
    pub fn slice(&self, start: usize, end: usize) -> (r: Self)
        requires
            start <= end <= self.content.spec_bytes().len(),
            is_char_boundary(self.content.spec_bytes(), start as int),
            is_char_boundary(self.content.spec_bytes(), end as int),
        ensures
            r.content.spec_bytes() == self.content.spec_bytes().subrange(start as int, end as int),
            r.style == self.style,
    {
        let (head, _) = self.content.split_at(end);
        proof {
            let bytes = self.content.spec_bytes();
            let hb = head.spec_bytes();
            encode_utf8_valid_utf8(self.content@);
            encode_utf8_valid_utf8(head@);
            is_char_boundary_start_end_of_seq(hb);
            if start < end {
                is_char_boundary_iff_not_is_continuation_byte(bytes, start as int);
                is_char_boundary_iff_not_is_continuation_byte(hb, start as int);
                assert(hb[start as int] == bytes[start as int]);
            }
            assert(is_char_boundary(hb, start as int));
        }
        let (_, mid) = head.split_at(start);
        StyledStr { content: mid, style: self.style }
    }

    /// Slices the contained text to the characters `start..end`, keeping the
    /// style. The text up to `end` is ASCII, so character and byte positions
    /// agree.
    pub(crate) fn slice_chars(&self, start: usize, end: usize) -> (r: Self)
        requires
            start <= end <= self.content@.len(),
            ascii_prefix(self.content@, end as int),
        ensures
            r.content@ == self.content@.subrange(start as int, end as int),
            r.style == self.style,
    {
        StyledStr { content: self.content.substring_char(start, end), style: self.style }
    }
}

impl<'s> From<&'s str> for StyledStr<'s> {
    fn from(s: &'s str) -> (r: Self)
        ensures
            r.content@ == s@,
            r.style == spec_default_style(),
    {
        StyledStr { content: s, style: Style::default() }
    }
}

impl<'s> FromSpecImpl<&'s str> for StyledStr<'s> {
    open spec fn obeys_from_spec() -> bool {
        true
    }

    open spec fn from_spec(v: &'s str) -> StyledStr<'s> {
        StyledStr { content: v, style: spec_default_style() }
    }
}

/// Style-enhanced `AsRef<str>`.
pub trait AsStyledStr {
    /// The characters of the text.
    spec fn text_view(&self) -> Seq<char>;

    /// The style of the text.
    spec fn style_view(&self) -> Style;

    /// Borrows the text with its style.
    fn as_styled_str(&self) -> (r: StyledStr<'_>)
        ensures
            r.content@ == self.text_view(),
            r.style == self.style_view(),
    ;
}

impl<'a> AsStyledStr for &'a str {
    open spec fn text_view(&self) -> Seq<char> {
        (*self)@
    }

    open spec fn style_view(&self) -> Style {
        spec_default_style()
    }

    fn as_styled_str(&self) -> (r: StyledStr<'_>) {
        StyledStr { content: *self, style: Style::default() }
    }
}

impl<'a> AsStyledStr for StyledStr<'a> {
    open spec fn text_view(&self) -> Seq<char> {
        self.content@
    }

    open spec fn style_view(&self) -> Style {
        self.style
    }

    fn as_styled_str(&self) -> (r: StyledStr<'_>) {
        *self
    }
}

/// Structures that can be wrapped with [`Style`].
pub trait WithStyle<T>: Sized {
    /// Converts `self` into `T` (styled type) and lets `f` pick the style
    /// from the default one.
    fn with_style<F: FnOnce(Style) -> Style>(self, f: F) -> T
        requires
            f.requires((spec_default_style(),)),
    ;

    /// Converts `self` into `T` (styled type).
    fn styled(self) -> T;
}

impl WithStyle<StyledChar> for char {
    fn with_style<F: FnOnce(Style) -> Style>(self, f: F) -> (r: StyledChar)
        ensures
            r.content == self,
            f.ensures((spec_default_style(),), r.style),
    {
        let mut new = StyledChar { content: self, style: Style::default() };
        new.style = f(new.style);
        new
    }

    fn styled(self) -> (r: StyledChar)
        ensures
            r == (StyledChar { content: self, style: spec_default_style() }),
    {
        StyledChar { content: self, style: Style::default() }
    }
}

impl<'s> WithStyle<StyledStr<'s>> for &'s str {
    fn with_style<F: FnOnce(Style) -> Style>(self, f: F) -> (r: StyledStr<'s>)
        ensures
            r.content@ == self@,
            f.ensures((spec_default_style(),), r.style),
    {
        let mut new = StyledStr { content: self, style: Style::default() };
        new.style = f(new.style);
        new
    }

    fn styled(self) -> (r: StyledStr<'s>)
        ensures
            r.content@ == self@,
            r.style == spec_default_style(),
    {
        StyledStr { content: self, style: Style::default() }
    }
}

/// Merging the empty style onto a style changes nothing.
pub proof fn law_merge_default_right(s: Style)
    ensures
        spec_merge(s, spec_default_style()) == s,
{
}

/// Merging a style onto the empty style gives the style itself.
pub proof fn law_merge_default_left(s: Style)
    ensures
        spec_merge(spec_default_style(), s) == s,
{
}

/// Merging styles one after the other equals merging their merge.
pub proof fn law_merge_associative(a: Style, b: Style, c: Style)
    ensures
        spec_merge(spec_merge(a, b), c) == spec_merge(a, spec_merge(b, c)),
{
}

/// Merging a style onto itself changes nothing.
pub proof fn law_merge_idempotent(s: Style)
    ensures
        spec_merge(s, s) == s,
{
}

/// The union of two text styles contains both, and does not depend on
/// their order.
pub proof fn law_union_contains(a: TextStyle, b: TextStyle)
    ensures
        (a.view_bits() | b.view_bits()) & a.view_bits() == a.view_bits(),
        (a.view_bits() | b.view_bits()) & b.view_bits() == b.view_bits(),
        a.view_bits() | b.view_bits() == b.view_bits() | a.view_bits(),
{
    let x = a.view_bits();
    let y = b.view_bits();
    assert((x | y) & x == x) by (bit_vector);
    assert((x | y) & y == y) by (bit_vector);
    assert(x | y == y | x) by (bit_vector);
}

} // verus!
