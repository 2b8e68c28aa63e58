use cwinui::owned::string::StyledString;
use cwinui::style::{AsStyledStr, Color, Style, StyledChar, StyledStr, TextStyle, WithStyle};
use cwinui::text::StyledText;

#[test]
fn text_style_flags() {
    assert_eq!(TextStyle::normal().bits(), 0);
    assert_eq!(TextStyle::bold().bits(), 1);
    assert_eq!(TextStyle::blink().bits(), 2);
    assert_eq!(TextStyle::invert().bits(), 4);
    assert_eq!(TextStyle::italic().bits(), 8);
    assert_eq!(TextStyle::underline().bits(), 16);
    let d: TextStyle = Default::default();
    assert_eq!(d, TextStyle::normal());
}

#[test]
fn text_style_union_contains() {
    let bi = TextStyle::bold().union(TextStyle::italic());
    assert_eq!(bi.bits(), 9);
    assert!(bi.contains(TextStyle::bold()));
    assert!(bi.contains(TextStyle::italic()));
    assert!(!bi.contains(TextStyle::blink()));
    assert!(bi.contains(TextStyle::normal()));
    assert_eq!(TextStyle::italic().union(TextStyle::bold()), bi);
}

#[test]
fn text_style_from_bits_truncate_drops_unknown() {
    assert_eq!(TextStyle::from_bits_truncate(0xff).bits(), 0x1f);
    assert_eq!(TextStyle::from_bits_truncate(0x24).bits(), 0x04);
}

#[test]
fn style_builders() {
    let s = Style::default();
    assert_eq!(s, Style { text_style: None, fg_color: None, bg_color: None });
    let c = s.clean();
    assert_eq!(c, Style { text_style: Some(TextStyle::normal()), fg_color: Some(Color::Normal), bg_color: Some(Color::Normal) });
    let t = s.text_style(TextStyle::bold()).fg(Color::Red).bg(Color::Rgb(1, 2, 3));
    assert_eq!(t, Style { text_style: Some(TextStyle::bold()), fg_color: Some(Color::Red), bg_color: Some(Color::Rgb(1, 2, 3)) });
    let d: Color = Default::default();
    assert_eq!(d, Color::Normal);
}

#[test]
fn style_merge_overrides_set_fields() {
    let base = Style::default().fg(Color::Red).bg(Color::Blue);
    let over = Style::default().fg(Color::Green).text_style(TextStyle::underline());
    let m = base.merge(over);
    assert_eq!(m, Style { text_style: Some(TextStyle::underline()), fg_color: Some(Color::Green), bg_color: Some(Color::Blue) });
    assert_eq!(base.merge(Style::default()), base);
    assert_eq!(Style::default().merge(base), base);
    assert_eq!(base.merge(base), base);
    let third = Style::default().bg(Color::Ansi(7));
    assert_eq!(base.merge(over).merge(third), base.merge(over.merge(third)));
}

#[test]
fn styled_char_from_char() {
    let c: StyledChar = StyledChar::from('x');
    assert_eq!(c, StyledChar { content: 'x', style: Style::default() });
    assert_eq!('y'.styled(), StyledChar { content: 'y', style: Style::default() });
    let red = 'z'.with_style(|s| s.fg(Color::Red));
    assert_eq!(red, StyledChar { content: 'z', style: Style::default().fg(Color::Red) });
}

#[test]
fn styled_str_conversions() {
    let s: StyledStr = StyledStr::from("hello");
    assert_eq!(s.content, "hello");
    assert_eq!(s.style, Style::default());
    let b = "bold".with_style(|st| st.text_style(TextStyle::bold()));
    assert_eq!(b.content, "bold");
    assert_eq!(b.style, Style::default().text_style(TextStyle::bold()));
    let p = "plain".styled();
    assert_eq!(p.content, "plain");
    assert_eq!(p.style, Style::default());
}

#[test]
fn styled_str_slice_keeps_style() {
    let s = "abcdef".with_style(|st| st.fg(Color::Cyan));
    let part = s.slice(1, 4);
    assert_eq!(part.content, "bcd");
    assert_eq!(part.style, s.style);
    assert_eq!(s.slice(2, 2).content, "");
    let u = "añb€c".with_style(|st| st.fg(Color::Red));
    let mid = u.slice(1, 7);
    assert_eq!(mid.content, "ñb€");
    assert_eq!(mid.style, u.style);
    assert_eq!(u.slice(3, 4).content, "b");
    assert_eq!(u.slice(7, 8).content, "c");
}

#[test]
fn styled_string_round_trip() {
    let s = "owned".with_style(|st| st.bg(Color::Yellow));
    let o: StyledString = s.to_owned();
    assert_eq!(o.content, "owned");
    assert_eq!(o.style, s.style);
    let o2 = StyledString::from(s);
    assert_eq!(o2, o);
    let back: StyledStr = StyledStr::from(&o);
    assert_eq!(back.content, "owned");
    assert_eq!(back.style, s.style);
    let view = o.as_styled_str();
    assert_eq!(view.content, "owned");
    assert_eq!("x".as_styled_str().style, Style::default());
}

#[test]
fn styled_text_from_str() {
    let t: StyledText = StyledText::from("text");
    assert!(t == StyledText { content: "text", style: Style::default() });
}
