use music_types::div_remainder;

fn div_test(x: i16, y: i16) {
    let (a, b) = div_remainder(x, y);
    assert!(0 <= b && b < y, "remainder was out of range");
    assert_eq!(a * y + b, x, "result was incorrect");
}

#[test]
fn lib_div() {
    div_test(1, 1);
    div_test(-12, 5);
    div_test(12, 5);
    div_test(5, 5);
    div_test(13, 8);
    div_test(13, 32);
    div_test(0, 32);
    div_test(32 + 13, 32);
}

#[test]
fn pitch_div() {
    assert_eq!((0_i16, 1), div_remainder(1, 3));
    assert_eq!((-1_i16, 2), div_remainder(-1, 3));
    assert_eq!((-2_i16, 1), div_remainder(-5, 3));
}

#[test]
fn division_rounds_down() {
    assert_eq!(div_remainder(-12, 5), (-3, 3));
    assert_eq!(div_remainder(12, 5), (2, 2));
    assert_eq!(div_remainder(-7, 7), (-1, 0));
    assert_eq!(div_remainder(-1, 7), (-1, 6));
    assert_eq!(div_remainder(i16::MIN, 7), (-4682, 6));
    assert_eq!(div_remainder(i16::MAX, 12), (2730, 7));
    assert_eq!(div_remainder(i16::MIN, 1), (i16::MIN, 0));
}
