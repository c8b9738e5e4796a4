use music_types::harmony::scale::Scale;
use music_types::harmony::{Interval, IntervalClass, Pitch, PitchClass};

fn read_pitch(s: &str) -> Pitch {
    Pitch::from_str(s).unwrap()
}

fn read_interval(s: &str) -> Interval {
    Interval::from_str(s).unwrap()
}

fn display_pitch_as(input: &str, output: &str) {
    assert_eq!(&read_pitch(input).to_string(), output);
}

#[test]
fn pitch() {
    display_pitch_as("Eb4", "Eb4");
    display_pitch_as("Ebb4", "E&4");
    display_pitch_as("E4", "E4");
    display_pitch_as("F5", "F5");
}

fn display_interval_as(input: &str, output: &str) {
    assert_eq!(&read_interval(input).to_string(), output);
}

#[test]
fn interval() {
    display_interval_as("1", "1");
    display_interval_as("4", "4");
    display_interval_as("5", "5");
    display_interval_as("8", "8");

    display_interval_as("j3", "j3");
    display_interval_as("-j3", "-j3");

    display_interval_as("a1", "a1");
    display_interval_as("a4", "a4");
    display_interval_as("a5", "a5");
    display_interval_as("a8", "a8");

    display_interval_as("d1", "d1");
    display_interval_as("d4", "d4");
    display_interval_as("d5", "d5");
    display_interval_as("d8", "d8");
}

fn parse_p(s: &str, d: i16, c: i16) {
    let p = read_pitch(s);
    assert_eq!(p.diatonic, d, "{} parsed to {} diatonic steps", s, p.diatonic);
    assert_eq!(p.chromatic, c, "{} parsed to {} chromatic steps", s, p.chromatic);
    // a pitch is its class placed in its octave
    let octave = p.octave();
    let class = PitchClass::from_str(&s[..s.len() - octave.to_string().len()]).unwrap();
    assert_eq!(class.place_in_octave(octave as i8), p);
    assert_eq!(p.to_class(), class);
}

#[test]
fn parse_pitch() {
    parse_p("Cb4", 0, -1);
    parse_p("C4", 0, 0);
    parse_p("C#4", 0, 1);
    parse_p("Db4", 1, 1);
    parse_p("D4", 1, 2);
    parse_p("D#4", 1, 3);
    parse_p("Eb4", 2, 3);
    parse_p("E4", 2, 4);
    parse_p("E#4", 2, 5);
    parse_p("Fb4", 3, 4);
    parse_p("F4", 3, 5);
    parse_p("F#4", 3, 6);
    parse_p("Gb4", 4, 6);
    parse_p("G4", 4, 7);
    parse_p("G#4", 4, 8);
    parse_p("Ab4", 5, 8);
    parse_p("A4", 5, 9);
    parse_p("A#4", 5, 10);
    parse_p("Bb4", 6, 10);
    parse_p("B4", 6, 11);
    parse_p("B#4", 6, 12);

    parse_p("C5", 7, 12);
    parse_p("D5", 8, 14);
    parse_p("C3", -7, -12);
    parse_p("Bb2", -8, -14);

    parse_p("C+4", 0, 2);
    parse_p("C##4", 0, 2);
    parse_p("C&4", 0, -2);
    parse_p("Cbb4", 0, -2);

    parse_p("C###4", 0, 3);
    parse_p("C(3#)4", 0, 3);
    parse_p("Cbbb4", 0, -3);
    parse_p("C(3b)4", 0, -3);
}

#[test]
fn parse_pitch_fail() {
    assert!(Pitch::from_str("C").is_err());
    assert!(Pitch::from_str("Ch").is_err());
    assert!(Pitch::from_str("c18").is_err());
}

fn parse_i(s: &str, d: i16, c: i16) {
    let i = read_interval(s);
    assert_eq!(i.diatonic, d, "{} parsed to {} diatonic steps", s, i.diatonic);
    assert_eq!(i.chromatic, c, "{} parsed to {} chromatic steps", s, i.chromatic);
    // the class of an interval is read from the same text
    assert_eq!(
        IntervalClass::from_str(s).unwrap(),
        IntervalClass(i).reduce()
    );
}

#[test]
fn parse_interval() {
    parse_i("1", 0, 0);
    parse_i("m2", 1, 1);
    parse_i("j2", 1, 2);
    parse_i("m3", 2, 3);
    parse_i("j3", 2, 4);
    parse_i("4", 3, 5);
    parse_i("a4", 3, 6);
    parse_i("d5", 4, 6);
    parse_i("5", 4, 7);
    parse_i("m6", 5, 8);
    parse_i("j6", 5, 9);
    parse_i("m7", 6, 10);
    parse_i("j7", 6, 11);
    parse_i("8", 7, 12);

    parse_i("d3", 2, 2);
    parse_i("a3", 2, 5);
    parse_i("-j2", -1, -2);
    parse_i("-15", -14, -24);
    parse_i("a11", 10, 18);

    parse_i("(2)1", 0, 1);
    parse_i("(0)1", 0, 0);
    parse_i("(-2)1", 0, -1);

    parse_i("(+3)3", 2, 6);
    parse_i("(3)3", 2, 6);
    parse_i("(+2)3", 2, 5);
    parse_i("(2)3", 2, 5);
    parse_i("(+1)3", 2, 4);
    parse_i("(1)3", 2, 4);
    parse_i("(-1)3", 2, 3);
    parse_i("(-2)3", 2, 2);
    parse_i("(-3)3", 2, 1);
    parse_i("(-4)3", 2, 0);
    parse_i("(-5)3", 2, -1);
}

#[test]
fn parse_interval_fail() {
    assert!(Interval::from_str("m1").is_err());
    assert!(Interval::from_str("3").is_err());
    assert!(Interval::from_str("16").is_err());
    assert!(Interval::from_str("m11").is_err());
    assert!(Interval::from_str("m15").is_err());
    assert!(Interval::from_str("(0)3").is_err());
    assert!(Interval::from_str("(-1)1").is_err());
    assert!(Interval::from_str("(+1)1").is_err());
    assert!(Interval::from_str("(1)1").is_err());
}

#[test]
fn parse() {
    assert_eq!(
        Scale::from_str("1 2 3 4 5 6 7").unwrap(),
        Scale::mixolydian()
    );
    assert_eq!(
        Scale::from_str("1 j2 j3 4 5 j6 m7").unwrap(),
        Scale::mixolydian()
    );
    assert_eq!(Scale::from_str("1 2 3 4 5 6 j7").unwrap(), Scale::major());
}

#[test]
fn diatonic_modes() {
    let major = Scale::major();
    assert_eq!(major.nth_mode(1), Scale::dorian());
    assert_eq!(major.nth_mode(2), Scale::phrygian());
    assert_eq!(major.nth_mode(3), Scale::lydian());
    assert_eq!(major.nth_mode(4), Scale::mixolydian());
    assert_eq!(major.nth_mode(5), Scale::aeolian());
    assert_eq!(major.nth_mode(6), Scale::locrian());
}
