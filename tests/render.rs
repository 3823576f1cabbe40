use term_box::geometry::TermBox;

#[test]
fn frame_of_small_box() {
    let b = TermBox::new((3, 2), 1, 1);
    let expected = String::new()
        + "\x1b[1;2H┌───┐"
        + "\x1b[2;2H│\x1b[2;6H│"
        + "\x1b[3;2H│\x1b[3;6H│"
        + "\x1b[4;2H│\x1b[4;6H│"
        + "\x1b[5;2H└───┘";
    assert_eq!(b.frame(10), Some(expected));
}

#[test]
fn frame_uses_multi_digit_positions() {
    let b = TermBox::new((50, 20), 16, 6);
    let f = b.frame(100).unwrap();
    assert!(f.starts_with("\x1b[14;34H┌"));
    assert!(f.ends_with("┘"));
    assert!(f.contains("\x1b[27;68H│"));
    assert!(f.contains("\x1b[28;34H└"));
    assert_eq!(f.matches('─').count(), 2 * 33);
    assert_eq!(f.matches('│').count(), 2 * 13);
}

#[test]
fn frame_with_zero_width() {
    let b = TermBox::new((0, 0), 0, 0);
    assert_eq!(b.frame(80), Some(String::from("\x1b[1;1H┌┐\x1b[2;1H└┘")));
}

#[test]
fn frame_out_of_cursor_range() {
    let b = TermBox::new((65530, 10), 16, 6);
    assert_eq!(b.frame(100), None);
    let b = TermBox::new((10, 65530), 16, 6);
    assert_eq!(b.frame(100), None);
    let b = TermBox::new((65517, 65527), 16, 6);
    assert!(b.frame(100).is_some());
}
