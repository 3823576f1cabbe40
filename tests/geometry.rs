use term_box::geometry::TermBox;

#[test]
fn centred_box_in_large_terminal() {
    let b = TermBox::new((50, 20), 16, 6);
    assert_eq!(b.width(100), 33);
    assert_eq!(b.height(), 13);
    assert_eq!(b.top_left(), (33, 13));
    assert_eq!(b.top_right(), (67, 13));
    assert_eq!(b.bottom_left(), (33, 27));
}

#[test]
fn box_near_origin_clamps_top_left() {
    let b = TermBox::new((5, 2), 16, 6);
    assert_eq!(b.top_left(), (0, 0));
    assert_eq!(b.top_right(), (22, 0));
    assert_eq!(b.bottom_left(), (0, 9));
    assert_eq!(b.width(100), 21);
    assert_eq!(b.height(), 8);
}

#[test]
fn width_clamped_by_right_edge() {
    let b = TermBox::new((95, 20), 16, 6);
    // min(33, 111, 5 + 15)
    assert_eq!(b.width(100), 20);
    let (left, _) = b.top_left();
    assert!(left + b.width(100) + 1 <= 99);
}

#[test]
fn width_never_exceeds_padded_box() {
    for &(x, h, cols) in &[(0u16, 0u16, 1u16), (10, 3, 80), (79, 16, 80), (300, 16, 80), (40, 40, 80)] {
        let b = TermBox::new((x, 0), h, 0);
        assert!(b.width(cols) <= 2 * h as u32 + 1);
    }
}

#[test]
fn top_bar_ends_inside_terminal() {
    for cols in [20u16, 40, 100] {
        for x in 2..=cols {
            let b = TermBox::new((x, 7), 1, 1);
            let (left, _) = b.top_left();
            assert!(left + b.width(cols) + 1 <= cols as u32 - 1);
        }
    }
}

#[test]
fn top_clamps_to_zero_when_centre_is_high() {
    for y in 0..=6u16 {
        let b = TermBox::new((50, y), 16, 6);
        assert_eq!(b.top_left().1, 0);
        assert_eq!(b.top_right().1, 0);
    }
    let b = TermBox::new((50, 7), 16, 6);
    assert_eq!(b.top_left().1, 0);
    let b = TermBox::new((50, 8), 16, 6);
    assert_eq!(b.top_left().1, 1);
}

#[test]
fn geometry_is_repeatable() {
    let b = TermBox::new((41, 17), 16, 6);
    assert_eq!(b.width(90), b.width(90));
    assert_eq!(b.height(), b.height());
    assert_eq!(b.top_left(), b.top_left());
    assert_eq!(b.bottom_left(), b.bottom_left());
    assert_eq!(b.top_right(), b.top_right());
}

#[test]
fn largest_coordinates_do_not_overflow() {
    let b = TermBox::new((u16::MAX, u16::MAX), u16::MAX, u16::MAX);
    assert_eq!(b.width(u16::MAX), u16::MAX as u32 - 1);
    assert_eq!(b.height(), 2 * u16::MAX as u32);
    assert_eq!(b.top_right(), (2 * u16::MAX as u32 + 1, 0));
    assert_eq!(b.bottom_left(), (0, 2 * u16::MAX as u32 + 1));
}

#[test]
fn centre_beyond_terminal_gives_saturated_width() {
    let b = TermBox::new((120, 20), 16, 6);
    // min(33, 136, 0 + 15)
    assert_eq!(b.width(100), 15);
}
