use music_types::harmony::scale::{
    AccidentalCalulator, ConcreteAccidental, KeyAccidental, KeySignature, Scale,
};
use music_types::harmony::{
    Accidental, Interval, ParseError, ParseIntervalError, Pitch, PitchClass,
};

fn pitch(s: &str) -> Pitch {
    Pitch::from_str(s).unwrap()
}

fn interval(s: &str) -> Interval {
    Interval::from_str(s).unwrap()
}

fn check_next(iter: &mut music_types::harmony::scale::ScaleIter<'_, Pitch>, expected: &str) {
    assert_eq!(iter.next().unwrap(), pitch(expected));
}

#[test]
fn major_scale_test() {
    let major = Scale::major();
    let mut iter = major.iter_from_root(pitch("C4"));
    check_next(&mut iter, "C4");
    check_next(&mut iter, "D4");
    check_next(&mut iter, "E4");
    check_next(&mut iter, "F4");
    check_next(&mut iter, "G4");
    check_next(&mut iter, "A4");
    check_next(&mut iter, "B4");
    check_next(&mut iter, "C5");
    check_next(&mut iter, "D5");
}

#[test]
fn parse_parse() {
    assert_eq!(
        Scale::from_str("1 2 3 4 5 6 7").unwrap(),
        Scale::mixolydian()
    );
    assert_eq!(
        Scale::from_str("1 j2 j3 4 5 j6 m7").unwrap(),
        Scale::mixolydian()
    );
    assert_eq!(Scale::from_str("1 2 3 4 5 6 j7").unwrap(), Scale::major());
}

#[test]
fn standard_scales_diatonic_modes() {
    let major = Scale::major();
    assert_eq!(major.nth_mode(1), Scale::dorian());
    assert_eq!(major.nth_mode(2), Scale::phrygian());
    assert_eq!(major.nth_mode(3), Scale::lydian());
    assert_eq!(major.nth_mode(4), Scale::mixolydian());
    assert_eq!(major.nth_mode(5), Scale::aeolian());
    assert_eq!(major.nth_mode(6), Scale::locrian());
}

#[test]
fn modes_wrap_around() {
    let major = Scale::major();
    assert_eq!(major.nth_mode(0), Scale::ionian());
    assert_eq!(major.nth_mode(7), Scale::ionian());
    assert_eq!(major.nth_mode(8), Scale::dorian());
    assert_eq!(major.next_mode(), Scale::dorian());
    assert_eq!(Scale::ionian(), Scale::major());
    assert_eq!(Scale::aeolian(), Scale::minor());
    assert_eq!(Scale::minor().nth_mode(2), Scale::major());
}

#[test]
fn a_scale_of_one_note_is_its_own_mode() {
    let single = Scale::new(vec![]);
    assert_eq!(single, Scale(vec![Interval::unison()]));
    assert!(single.is_normal());
    assert_eq!(single.nth_mode(0), single);
    assert_eq!(single.nth_mode(5), single);
    assert_eq!(single.next_mode(), single);
}

#[test]
fn named_scales() {
    let spelled = [
        (Scale::major(), "1 j2 j3 4 5 j6 j7"),
        (Scale::minor(), "1 j2 m3 4 5 m6 m7"),
        (Scale::harmonic_minor(), "1 j2 m3 4 5 m6 j7"),
        (Scale::melodic_minor(), "1 j2 m3 4 5 j6 j7"),
        (Scale::lydian(), "1 j2 j3 a4 5 j6 j7"),
        (Scale::ionian(), "1 j2 j3 4 5 j6 j7"),
        (Scale::mixolydian(), "1 j2 j3 4 5 j6 m7"),
        (Scale::dorian(), "1 j2 m3 4 5 j6 m7"),
        (Scale::aeolian(), "1 j2 m3 4 5 m6 m7"),
        (Scale::phrygian(), "1 m2 m3 4 5 m6 m7"),
        (Scale::locrian(), "1 m2 m3 4 d5 m6 m7"),
    ];
    for (scale, text) in spelled {
        assert_eq!(scale, Scale::from_str(text).unwrap(), "{}", text);
        assert!(scale.is_normal());
        assert_eq!(scale.0.len(), 7);
    }
}

#[test]
fn new_scales_are_placed_sorted_and_rooted() {
    let scale = Scale::new(vec![
        interval("5"),
        interval("j10"),
        interval("-m3"),
        interval("j2"),
    ]);
    assert_eq!(
        scale,
        Scale(vec![
            interval("1"),
            interval("j2"),
            interval("j3"),
            interval("5"),
            interval("j6"),
        ])
    );
    assert!(scale.is_normal());

    // a unison that is there is not added again, and no interval stays twice
    let scale = Scale::new(vec![
        interval("8"),
        interval("5"),
        interval("j3"),
        interval("5"),
        interval("j10"),
        interval("12"),
    ]);
    assert_eq!(
        scale,
        Scale(vec![interval("1"), interval("j3"), interval("5")])
    );

    // the order is by half steps first
    let scale = Scale::new(vec![interval("d5"), interval("a4"), interval("1")]);
    assert_eq!(
        scale,
        Scale(vec![interval("1"), interval("a4"), interval("d5")])
    );

    // an interval below the unison after its reduction leaves the scale
    // rooted, but not sorted
    let scale = Scale::new(vec![interval("d1"), interval("5")]);
    assert_eq!(
        scale,
        Scale(vec![interval("1"), interval("d1"), interval("5")])
    );
    assert!(!scale.is_normal());
}

#[test]
fn is_normal_wants_root_and_order() {
    assert!(!Scale(vec![]).is_normal());
    assert!(!Scale(vec![interval("j2")]).is_normal());
    assert!(!Scale(vec![interval("1"), interval("5"), interval("j3")]).is_normal());
    assert!(Scale(vec![interval("1"), interval("j3"), interval("5")]).is_normal());
    assert!(Scale(vec![interval("1"), interval("1")]).is_normal());
}

#[test]
fn scale_text() {
    assert_eq!(Scale::from_str("").unwrap(), Scale(vec![]));
    assert_eq!(Scale::from_str("  \t\n ").unwrap(), Scale(vec![]));
    assert_eq!(
        Scale::from_str("\u{a0}5\u{3000}\u{2003}1 ").unwrap(),
        Scale(vec![interval("5"), interval("1")])
    );
    assert_eq!(
        Scale::from_str("7 6 3 2").unwrap(),
        Scale(vec![
            interval("m7"),
            interval("j6"),
            interval("j3"),
            interval("j2")
        ])
    );
    assert_eq!(
        Scale::from_str("1 x3 q5"),
        Err(ParseError::Interval(ParseIntervalError::InvalidQuality(
            "x".to_string()
        )))
    );
    assert_eq!(
        Scale::from_str("1 9 m5"),
        Err(ParseError::Interval(ParseIntervalError::Impossible {
            number: 9,
            quality: None
        }))
    );
    assert_eq!(
        Scale::from_str("1 m5 9"),
        Err(ParseError::Interval(ParseIntervalError::Impossible {
            number: 5,
            quality: Some("m".to_string())
        }))
    );
}

#[test]
fn walks_from_the_unison() {
    let minor = Scale::minor();
    let mut iter = minor.iter();
    let first = iter.take(9);
    let expected: Vec<Interval> = ["1", "j2", "m3", "4", "5", "m6", "m7", "8", "j9"]
        .iter()
        .map(|s| interval(s))
        .collect();
    assert_eq!(first, expected);
    assert_eq!(iter.next(), Some(interval("m10")));
}

#[test]
fn walks_stop_where_sixteen_bits_end() {
    let major = Scale::major();
    let mut iter = major.iter_from_root(Pitch::new(32760, 0));
    // 32760, 32761, ... 32766 fit, and so does 32767
    let high = iter.take(20);
    assert_eq!(high.len(), 8);
    assert_eq!(high[7], Pitch::new(32767, 12));
    assert_eq!(iter.next(), None);
    assert_eq!(iter.next(), None);

    let empty = Scale(vec![]);
    assert_eq!(empty.iter().next(), None);
    assert_eq!(empty.iter_from_root(pitch("C4")).take(3), vec![]);
}

#[test]
fn key_signatures() {
    let flat = |position: i16| KeyAccidental::new(position, Accidental::flat());
    let natural = |position: i16| KeyAccidental::new(position, Accidental::natural());
    let sharp = |position: i16| KeyAccidental::new(position, Accidental::sharp());

    assert_eq!(
        KeySignature::major(pitch("Bb4")).0,
        vec![flat(6), natural(0), natural(1), flat(2), natural(3), natural(4), natural(5)]
    );
    assert_eq!(
        KeySignature::major(pitch("D2")).0,
        vec![natural(1), natural(2), sharp(3), natural(4), natural(5), natural(6), sharp(0)]
    );
    assert_eq!(
        KeySignature::minor(pitch("E4")).0,
        KeySignature::major(pitch("G4")).0
    );
    assert_eq!(
        KeySignature::minor(pitch("E4")).0,
        vec![natural(4), natural(5), natural(6), natural(0), natural(1), natural(2), sharp(3)]
    );
    assert_eq!(KeyAccidental::new(-1, Accidental::flat()).staffposition, 6);
    assert_eq!(KeyAccidental::new(15, Accidental::flat()).staffposition, 1);
    assert_eq!(ConcreteAccidental::new(-1, Accidental::flat()).staffposition, -1);
    assert_eq!(
        ConcreteAccidental::new(15, Accidental::sharp()).accidental,
        Accidental::sharp()
    );
}

#[test]
fn accidentals_in_b_flat_major() {
    let key = KeySignature::major(pitch("Bb4"));
    let mut calculator = AccidentalCalulator::from_key_signature(key);

    // Eb is in the key of Bb
    assert_eq!(calculator.get_and_update(pitch("Eb4")), None);
    // Ab is not
    assert_eq!(
        calculator.get_and_update(pitch("Ab4")),
        Some(Accidental::flat())
    );
    // the flat has been written
    assert_eq!(calculator.get_and_update(pitch("Ab4")), None);
    // but not in the next octave
    assert_eq!(
        calculator.get_and_update(pitch("Ab5")),
        Some(Accidental::flat())
    );

    calculator.clear();

    // the key signature stays
    assert_eq!(calculator.get_and_update(pitch("Eb3")), None);
    // the Ab needs its flat again
    assert_eq!(
        calculator.get_and_update(pitch("Ab4")),
        Some(Accidental::flat())
    );
    // the key says Eb, the note is E
    assert_eq!(
        calculator.get_and_update(pitch("E4")),
        Some(Accidental::natural())
    );
    // the natural now stands on that line
    assert_eq!(
        calculator.get_and_update(pitch("Eb4")),
        Some(Accidental::flat())
    );

    // E minor has F#
    calculator.change_key_signature(KeySignature::minor(pitch("E4")));
    assert_eq!(calculator.get_and_update(pitch("F#2")), None);
    assert_eq!(
        calculator.get_and_update(pitch("F2")),
        Some(Accidental::natural())
    );
    assert_eq!(
        calculator.get_and_update(pitch("Eb4")),
        Some(Accidental::flat())
    );
}

#[test]
fn looking_does_not_write() {
    let mut calculator: AccidentalCalulator = KeySignature::major(pitch("C4")).into();
    assert_eq!(
        calculator.get_display_accidental(pitch("F#4")),
        Some(Accidental::sharp())
    );
    assert_eq!(
        calculator.get_display_accidental(pitch("F#4")),
        Some(Accidental::sharp())
    );
    calculator.push(ConcreteAccidental::new(3, Accidental::sharp()));
    assert_eq!(calculator.get_display_accidental(pitch("F#4")), None);
    assert_eq!(
        calculator.get_display_accidental(pitch("F4")),
        Some(Accidental::natural())
    );
    // the most recent accidental on a line decides
    calculator.push(ConcreteAccidental::new(3, Accidental::natural()));
    assert_eq!(
        calculator.get_display_accidental(pitch("F#4")),
        Some(Accidental::sharp())
    );
    assert_eq!(calculator.get_display_accidental(pitch("F4")), None);

    // without a key and without history only the natural needs no mark
    let plain = AccidentalCalulator::default();
    assert_eq!(plain.get_display_accidental(pitch("C4")), None);
    assert_eq!(
        plain.get_display_accidental(pitch("Cb4")),
        Some(Accidental::flat())
    );
}

#[test]
fn common_key_accidentals() {
    let flats = [
        (KeyAccidental::b_flat(), "Bb4"),
        (KeyAccidental::e_flat(), "Eb4"),
        (KeyAccidental::a_flat(), "Ab1"),
        (KeyAccidental::d_flat(), "Db4"),
        (KeyAccidental::g_flat(), "Gb7"),
        (KeyAccidental::c_flat(), "Cb4"),
        (KeyAccidental::f_sharp(), "F#4"),
        (KeyAccidental::c_sharp(), "C#3"),
        (KeyAccidental::g_sharp(), "G#4"),
        (KeyAccidental::d_sharp(), "D#4"),
        (KeyAccidental::a_sharp(), "A#-2"),
        (KeyAccidental::e_sharp(), "E#4"),
    ];
    for (accidental, name) in flats {
        let p = pitch(name);
        assert_eq!(
            accidental,
            KeyAccidental::new(p.staff_position(), p.accidental()),
            "{}",
            name
        );
    }
    assert_eq!(
        KeySignature::major(pitch("Bb4")).0[0],
        KeyAccidental::b_flat()
    );
    assert_eq!(
        KeySignature::major(pitch("Bb4")).0[3],
        KeyAccidental::e_flat()
    );
}

#[test]
fn rooted_scales() {
    let b_flat = PitchClass::from_str("Bb").unwrap();
    let rooted = Scale::major().add_root(b_flat);
    assert_eq!(rooted, Scale::major().to_rooted(b_flat));
    assert_eq!(rooted.root, b_flat);
    assert_eq!(rooted.intervals, Scale::major().0);
    let mut walk = rooted.iter_from_octave(3);
    let pitches = walk.take(9);
    let expected: Vec<Pitch> = ["Bb3", "C4", "D4", "Eb4", "F4", "G4", "A4", "Bb4", "C5"]
        .iter()
        .map(|s| pitch(s))
        .collect();
    assert_eq!(pitches, expected);
    assert_eq!(
        rooted.iter_from_octave(-1).next(),
        Some(pitch("Bb-1"))
    );
    let raw = Scale::new_unchecked(vec![interval("5"), interval("j3")]);
    assert_eq!(raw.0, vec![interval("5"), interval("j3")]);
    assert!(!raw.is_normal());
}
