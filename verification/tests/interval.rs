use music_types::harmony::{Interval, IntervalClass, ParseIntervalError, Pitch};

fn interval(s: &str) -> Interval {
    Interval::from_str(s).unwrap()
}

fn pitch(s: &str) -> Pitch {
    Pitch::from_str(s).unwrap()
}

fn check_neg(s: &str) {
    assert_eq!(interval(s) + (-interval(s)), interval("1"));
}

#[test]
fn interval_neg() {
    check_neg("1");
    check_neg("m2");
    check_neg("5");
    check_neg("m13");
}

fn check_add(i1: &str, i2: &str, res: &str) {
    assert_eq!(interval(i1) + interval(i2), interval(res));
}

#[test]
fn interval_interval_add() {
    check_add("1", "j3", "j3");
    check_add("1", "5", "5");
    check_add("1", "a5", "a5");
    check_add("j3", "m3", "5");
    check_add("m3", "j3", "5");
    check_add("m3", "m3", "d5");
    check_add("j3", "j3", "a5");
    check_add("j2", "j3", "a4");
    check_add("8", "j2", "j9");
    check_add("5", "5", "j9");
    check_add("5", "-5", "1");
    check_add("5", "-m3", "j3");
    check_add("j9", "-m3", "j7");
}

fn check_transpose(p: &str, i: &str, res: &str) {
    let sum = interval(i) + pitch(p);
    assert_eq!(sum, pitch(res), "{} + {} evaluated to {}", p, i, sum.to_string());
}

#[test]
fn interval_transpose() {
    check_transpose("C4", "j3", "E4");
    check_transpose("C4", "m3", "Eb4");
    check_transpose("C4", "j13", "A5");
    check_transpose("C4", "m13", "Ab5");
    check_transpose("Bb4", "m3", "Db5");
    check_transpose("Bb4", "j3", "D5");
    check_transpose("Bb4", "-j3", "Gb4");
}

fn check_difference(p1: &str, p2: &str, i: &str) {
    let res = pitch(p2) - pitch(p1);
    assert_eq!(res, interval(i), "{} - {} evaluated to {}", p2, p1, res.to_string());
}

#[test]
fn interval_to_interval() {
    check_difference("C4", "E4", "j3");
    check_difference("C4", "G4", "5");
    check_difference("G4", "C4", "-5");
}

fn check_display(input: &str, output: &str) {
    assert_eq!(&interval(input).to_string(), output);
}

#[test]
fn display_interval() {
    check_display("1", "1");
    check_display("4", "4");
    check_display("5", "5");
    check_display("8", "8");

    check_display("j3", "j3");
    check_display("-j3", "-j3");

    check_display("a1", "a1");
    check_display("a4", "a4");
    check_display("a5", "a5");
    check_display("a8", "a8");

    check_display("d1", "d1");
    check_display("d4", "d4");
    check_display("d5", "d5");
    check_display("d8", "d8");
}

fn check_parse(s: &str, d: i16, c: i16) {
    let i = interval(s);
    assert_eq!(i.diatonic, d, "{} parsed to {} diatonic steps", s, i.diatonic);
    assert_eq!(i.chromatic, c, "{} parsed to {} chromatic steps", s, i.chromatic);
}

#[test]
fn parse_parse_interval() {
    check_parse("1", 0, 0);
    check_parse("m2", 1, 1);
    check_parse("j2", 1, 2);
    check_parse("m3", 2, 3);
    check_parse("j3", 2, 4);
    check_parse("4", 3, 5);
    check_parse("a4", 3, 6);
    check_parse("d5", 4, 6);
    check_parse("5", 4, 7);
    check_parse("m6", 5, 8);
    check_parse("j6", 5, 9);
    check_parse("m7", 6, 10);
    check_parse("j7", 6, 11);
    check_parse("8", 7, 12);

    check_parse("d3", 2, 2);
    check_parse("a3", 2, 5);
    check_parse("-j2", -1, -2);
    check_parse("-15", -14, -24);
    check_parse("a11", 10, 18);

    check_parse("(3)1", 0, 2);
    check_parse("(2)1", 0, 1);
    check_parse("(0)1", 0, 0);
    check_parse("(-2)1", 0, -1);
    check_parse("(-3)1", 0, -2);

    check_parse("(+3)3", 2, 6);
    check_parse("(3)3", 2, 6);
    check_parse("(+2)3", 2, 5);
    check_parse("(2)3", 2, 5);
    check_parse("(+1)3", 2, 4);
    check_parse("(1)3", 2, 4);
    check_parse("(-1)3", 2, 3);
    check_parse("(-2)3", 2, 2);
    check_parse("(-3)3", 2, 1);
    check_parse("(-4)3", 2, 0);
    check_parse("(-5)3", 2, -1);
}

#[test]
fn parse_parse_interval_fail() {
    assert!(Interval::from_str("m1").is_err());
    assert!(Interval::from_str("3").is_err());
    assert!(Interval::from_str("16").is_err());
    assert!(Interval::from_str("m11").is_err());
    assert!(Interval::from_str("m15").is_err());
    assert!(Interval::from_str("(0)3").is_err());
    assert!(Interval::from_str("(-1)1").is_err());
    assert!(Interval::from_str("(+1)1").is_err());
    assert!(Interval::from_str("(1)1").is_err());
}

#[test]
fn pitch_neg() {
    check_neg("1");
    check_neg("m2");
    check_neg("5");
    check_neg("m13");
}

#[test]
fn pitch_interval_add() {
    check_add("1", "j3", "j3");
    check_add("1", "5", "5");
    check_add("1", "a5", "a5");
    check_add("j3", "m3", "5");
    check_add("m3", "j3", "5");
    check_add("m3", "m3", "d5");
    check_add("j3", "j3", "a5");
    check_add("j2", "j3", "a4");
    check_add("8", "j2", "j9");
    check_add("5", "5", "j9");
    check_add("5", "-5", "1");
    check_add("5", "-m3", "j3");
    check_add("j9", "-m3", "j7");
}

#[test]
fn pitch_transpose() {
    check_transpose("C4", "j3", "E4");
    check_transpose("C4", "m3", "Eb4");
    check_transpose("C4", "j13", "A5");
    check_transpose("C4", "m13", "Ab5");
    check_transpose("C4", "m13", "Ab5");
}

#[test]
fn pitch_to_interval() {
    check_difference("C4", "E4", "j3");
    check_difference("C4", "G4", "5");
    check_difference("G4", "C4", "-5");
}

#[test]
fn interval_classes() {
    let class = |s: &str| IntervalClass::from_str(s).unwrap();
    assert_eq!(class("1"), IntervalClass(interval("1")));
    assert_eq!(class("j10"), IntervalClass(interval("j3")));
    assert_eq!(class("-m3"), IntervalClass(interval("j6")));
    assert_eq!(class("8"), IntervalClass(interval("1")));
    // half steps below zero are moved an octave up
    assert_eq!(class("d1"), IntervalClass(interval("d8")));
    assert_eq!(IntervalClass::new(2, 4), class("j3"));
    assert_eq!(IntervalClass::new(9, 16), class("j3"));
    assert_eq!(IntervalClass::new(-2, -3), class("j6"));
    assert_eq!(IntervalClass::new(0, -1), IntervalClass(Interval::new(11, 7)));
    assert_eq!(IntervalClass(interval("j10")).reduce(), class("j3"));
    assert_eq!(class("j3").reduce(), class("j3"));

    assert_eq!(class("1").place_in_octave(0), interval("1"));
    assert_eq!(class("j3").place_in_octave(1), interval("j10"));
    assert_eq!(class("j6").place_in_octave(-1), interval("-m3"));

    assert_eq!(class("5") + class("5"), class("j2"));
    assert_eq!(class("5") - class("j3"), class("m3"));
    assert_eq!(class("j3") - class("5"), class("j6"));
    assert_eq!(-class("j3"), class("m6"));
    assert_eq!(-class("1"), class("1"));
    assert!(class("m3") < class("j3"));

    assert_eq!(class("j10").to_string(), "j3");
    assert_eq!(class("-m3").to_string(), "j6");
    assert_eq!(class("d1").to_string(), "d8");
    assert_eq!(
        IntervalClass::from_str("x3"),
        Err(ParseIntervalError::InvalidQuality("x".to_string()))
    );
    assert_eq!(
        IntervalClass::from_str("m4"),
        Err(ParseIntervalError::Impossible { number: 4, quality: Some("m".to_string()) })
    );
    // an interval that is read, but whose class leaves sixteen bits
    assert_eq!(Interval::from_str("-(-32768)2"), Ok(Interval::new(32766, -1)));
    assert_eq!(
        IntervalClass::from_str("-(-32768)2"),
        Err(ParseIntervalError::InvalidNumber("2".to_string()))
    );
}
