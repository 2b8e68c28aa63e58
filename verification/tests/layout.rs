use cwinui::layout::{Alignment, Area, Dim, Pos, Proportions, Range};

#[test]
fn pos_saturating_add_example() {
    let a = Pos { x: 4, y: 3 };
    let b = Pos { x: 1, y: 9 };
    assert_eq!(a.saturating_add(b), Pos { x: 5, y: 12 });
    let big = Pos { x: u16::MAX, y: 1 };
    assert_eq!(big.saturating_add(b), Pos { x: u16::MAX, y: 10 });
}

#[test]
fn pos_saturating_sub_example() {
    let a = Pos { x: 4, y: 3 };
    let b = Pos { x: 1, y: 9 };
    assert_eq!(a.saturating_sub(b), Pos { x: 3, y: 0 });
}

#[test]
fn pos_arithmetic() {
    let p = Pos { x: 10, y: 20 };
    assert_eq!(p.add_x(5), Pos { x: 15, y: 20 });
    assert_eq!(p.add_y(5), Pos { x: 10, y: 25 });
    assert_eq!(p.sub_x(5), Pos { x: 5, y: 20 });
    assert_eq!(p.sub_y(5), Pos { x: 10, y: 15 });
    assert_eq!(p.add(Pos { x: 1, y: 2 }), Pos { x: 11, y: 22 });
    assert_eq!(p.sub(Pos { x: 1, y: 2 }), Pos { x: 9, y: 18 });
}

#[test]
fn range_named_constructors() {
    let r = Range::fixed(4);
    assert_eq!(r.min(), 4);
    assert_eq!(r.max(), Some(4));
    let r = Range::from(4);
    assert_eq!(r.min(), 4);
    assert_eq!(r.max(), None);
    let r = Range::to(4);
    assert_eq!(r.min(), 0);
    assert_eq!(r.max(), Some(4));
    let r = Range::flexible();
    assert_eq!(r.min(), 0);
    assert_eq!(r.max(), None);
    let d: Range = Default::default();
    assert_eq!(d, Range::flexible());
}

#[test]
fn range_new_ignores_smaller_max() {
    let r = Range::new(5, 2);
    assert_eq!(r.min(), 5);
    assert_eq!(r.max(), Some(5));
    let r = Range::new(2, 5);
    assert_eq!(r.min(), 2);
    assert_eq!(r.max(), Some(5));
    let r = Range::new_unchecked(1, 3);
    assert_eq!((r.min(), r.max()), (1, Some(3)));
    let r = Range::from_raw_parts(2, None);
    assert_eq!((r.min(), r.max()), (2, None));
}

#[test]
fn range_add_example() {
    let a = Range::from(3);
    let b = Range::new(7, 7);
    let c = Range::new(2, 33);
    assert_eq!(a.add(b), Range::from(10));
    assert_eq!(b.add(c), Range::new(9, 40));
}

#[test]
fn range_add_commutes() {
    let a = Range::new(3, 8);
    let b = Range::new(1, 40);
    assert_eq!(a.add(b), b.add(a));
    let c = Range::from(2);
    assert_eq!(a.add(b).add(c), a.add(b.add(c)));
}

#[test]
fn range_join_example() {
    let a = Range::from(7);
    let b = Range::new(2, 7);
    let c = Range::new(3, 33);
    assert_eq!(a.join(b), Range::from(7));
    assert_eq!(b.join(c), Range::new(3, 33));
}

#[test]
fn range_join_laws() {
    let a = Range::new(2, 9);
    let b = Range::new(4, 6);
    let c = Range::from(1);
    assert_eq!(a.join(b), b.join(a));
    assert_eq!(a.join(a), a);
    assert_eq!(a.join(b).join(c), a.join(b.join(c)));
    assert_eq!(a.join(b), Range::new(4, 9));
}

#[test]
fn range_collapse_expand() {
    let r = Range::new(3, 8);
    assert_eq!(r.collapse(), Range::fixed(3));
    assert_eq!(r.expand(), Range::from(3));
}

#[test]
fn proportions_constructors() {
    let z = Proportions::zero();
    assert_eq!(z.width, Range::fixed(0));
    assert_eq!(z.height, Range::fixed(0));
    let f = Proportions::fixed(Dim { width: 3, height: 4 });
    assert_eq!(f.width, Range::fixed(3));
    assert_eq!(f.height, Range::fixed(4));
    let from: Proportions = Proportions::from(Dim { width: 3, height: 4 });
    assert_eq!(from, f);
    let fl = Proportions::flexible();
    assert_eq!(fl.width, Range::flexible());
    assert_eq!(fl.height, Range::flexible());
}

#[test]
fn proportions_combine() {
    let a = Proportions { width: Range::new(1, 4), height: Range::from(2) };
    let b = Proportions { width: Range::new(2, 3), height: Range::new(5, 6) };
    let s = a.add(b);
    assert_eq!(s.width, Range::new(3, 7));
    assert_eq!(s.height, Range::from(7));
    let j = a.join(b);
    assert_eq!(j.width, Range::new(2, 4));
    assert_eq!(j.height, Range::from(5));
    let c = a.collapse();
    assert_eq!(c.width, Range::fixed(1));
    assert_eq!(c.height, Range::fixed(2));
    let e = b.expand();
    assert_eq!(e.width, Range::from(2));
    assert_eq!(e.height, Range::from(5));
}

#[test]
fn dim_satisfies_and_collapsed() {
    let p = Proportions { width: Range::new(2, 5), height: Range::from(3) };
    assert!(Dim { width: 2, height: 3 }.satisfies(p));
    assert!(!Dim { width: 1, height: 3 }.satisfies(p));
    assert!(!Dim { width: 2, height: 2 }.satisfies(p));
    assert!(Dim { width: 0, height: 3 }.is_collapsed());
    assert!(!Dim { width: 1, height: 3 }.is_collapsed());
}

#[test]
fn dim_fit_into_largest() {
    let p = Proportions { width: Range::new(2, 5), height: Range::from(3) };
    assert_eq!(Dim { width: 10, height: 10 }.fit_into(p), Ok(Dim { width: 5, height: 10 }));
    assert_eq!(Dim { width: 4, height: 3 }.fit_into(p), Ok(Dim { width: 4, height: 3 }));
}

#[test]
fn dim_fit_into_errors() {
    let p = Proportions { width: Range::new(2, 5), height: Range::from(3) };
    assert_eq!(Dim { width: 1, height: 10 }.fit_into(p), Err(Dim { width: 1, height: 10 }));
    assert_eq!(Dim { width: 9, height: 2 }.fit_into(p), Err(Dim { width: 5, height: 2 }));
    assert_eq!(Dim { width: 1, height: 1 }.fit_into(p), Err(Dim { width: 1, height: 1 }));
}

#[test]
fn area_parts_round_trip() {
    let a = Area::from_parts(Pos { x: 1, y: 2 }, Dim { width: 3, height: 4 });
    assert_eq!(a, Area { x: 1, y: 2, width: 3, height: 4 });
    assert_eq!(a.parts(), (Pos { x: 1, y: 2 }, Dim { width: 3, height: 4 }));
    assert_eq!(a.dimensions(), Dim { width: 3, height: 4 });
}

#[test]
fn area_overlaps_and_intersection() {
    let a = Area { x: 0, y: 0, width: 10, height: 10 };
    let b = Area { x: 5, y: 7, width: 10, height: 10 };
    let c = Area { x: 10, y: 0, width: 3, height: 3 };
    assert!(a.overlaps(b));
    assert!(b.overlaps(a));
    assert!(!a.overlaps(c));
    assert!(!c.overlaps(a));
    assert_eq!(a.intersection(b), Area { x: 5, y: 7, width: 5, height: 3 });
    assert_eq!(b.intersection(a), a.intersection(b));
}

#[test]
fn area_contains_pos() {
    let a = Area { x: 2, y: 3, width: 4, height: 5 };
    assert!(a.contains_pos(Pos { x: 2, y: 3 }));
    assert!(a.contains_pos(Pos { x: 5, y: 7 }));
    assert!(!a.contains_pos(Pos { x: 6, y: 7 }));
    assert!(!a.contains_pos(Pos { x: 5, y: 8 }));
    assert!(!a.contains_pos(Pos { x: 1, y: 3 }));
    let i = a.intersection(Area { x: 0, y: 0, width: 4, height: 4 });
    assert!(i.contains_pos(Pos { x: 3, y: 3 }));
    assert!(!i.contains_pos(Pos { x: 4, y: 3 }));
}

#[test]
fn area_inset_and_collapse() {
    let a = Area { x: 2, y: 3, width: 10, height: 6 };
    assert_eq!(a.inset(2), Area { x: 4, y: 5, width: 6, height: 2 });
    assert!(!a.is_collapsed());
    assert!(Area { x: 0, y: 0, width: 3, height: 0 }.is_collapsed());
}

#[test]
fn area_splits() {
    let a = Area { x: 1, y: 2, width: 10, height: 6 };
    assert_eq!(
        a.split_horiz_at(2),
        (Area { x: 1, y: 2, width: 10, height: 2 }, Area { x: 1, y: 4, width: 10, height: 4 })
    );
    assert_eq!(
        a.split_vert_at(3),
        (Area { x: 1, y: 2, width: 3, height: 6 }, Area { x: 4, y: 2, width: 7, height: 6 })
    );
    assert_eq!(a.split_horiz_at_abs(4), a.split_horiz_at(2));
    assert_eq!(a.split_vert_at_abs(4), a.split_vert_at(3));
    assert_eq!(a.split_horiz_at(6).1.height, 0);
    assert_eq!(a.split_vert_at(0).0.width, 0);
}

#[test]
fn area_reference_points() {
    let a = Area { x: 2, y: 4, width: 10, height: 6 };
    assert_eq!(a.top_left(), Pos { x: 2, y: 4 });
    assert_eq!(a.top_center(), Pos { x: 7, y: 4 });
    assert_eq!(a.top_right(), Pos { x: 12, y: 4 });
    assert_eq!(a.center_left(), Pos { x: 2, y: 7 });
    assert_eq!(a.center(), Pos { x: 7, y: 7 });
    assert_eq!(a.center_right(), Pos { x: 12, y: 7 });
    assert_eq!(a.bottom_left(), Pos { x: 2, y: 10 });
    assert_eq!(a.bottom_center(), Pos { x: 7, y: 10 });
    assert_eq!(a.bottom_right(), Pos { x: 12, y: 10 });
}

#[test]
fn area_align_to_every_alignment() {
    let anchor = Area { x: 10, y: 20, width: 10, height: 6 };
    let item = Area { x: 0, y: 0, width: 4, height: 2 };
    let at = |al: Alignment| {
        let r = item.align_to(anchor, al);
        assert_eq!((r.width, r.height), (4, 2));
        (r.x, r.y)
    };
    assert_eq!(at(Alignment::TopLeft), (10, 20));
    assert_eq!(at(Alignment::TopCenter), (13, 20));
    assert_eq!(at(Alignment::TopRight), (16, 20));
    assert_eq!(at(Alignment::CenterLeft), (10, 22));
    assert_eq!(at(Alignment::Center), (13, 22));
    assert_eq!(at(Alignment::CenterRight), (16, 22));
    assert_eq!(at(Alignment::BottomLeft), (10, 24));
    assert_eq!(at(Alignment::BottomCenter), (13, 24));
    assert_eq!(at(Alignment::BottomRight), (16, 24));
    let d: Alignment = Default::default();
    assert_eq!(d, Alignment::TopLeft);
}

#[test]
fn area_align_to_clamps_at_zero() {
    let anchor = Area { x: 0, y: 0, width: 2, height: 2 };
    let big = Area { x: 0, y: 0, width: 10, height: 10 };
    let r = big.align_to(anchor, Alignment::BottomRight);
    assert_eq!((r.x, r.y, r.width, r.height), (0, 0, 10, 10));
}

#[test]
fn range_debug_text() {
    assert_eq!(Range::new(3, 5).debug_string(), "3..=5");
    assert_eq!(Range::from(12).debug_string(), "12..");
    assert_eq!(Range::fixed(0).debug_string(), "0..=0");
    assert_eq!(Range::new(100, u16::MAX).debug_string(), "100..=65535");
}
