use music_types::harmony::pitch::glyph::AccidentalGlyph;
use music_types::harmony::{
    Accidental, ChromaticPitch, ChromaticPitchClass, ParsePitchError, Pitch, PitchClass,
    PitchName,
};

fn pitch(s: &str) -> Pitch {
    Pitch::from_str(s).unwrap()
}

#[test]
fn convert() {
    let chromatic = ChromaticPitch::new(0);
    assert_eq!(pitch("C4"), chromatic.to_pitch());
    assert_eq!(pitch("C4"), chromatic.to_pitch_named(PitchName::C));
    assert_eq!(pitch("D&4"), chromatic.to_pitch_named(PitchName::D));

    let chromatic = ChromaticPitch::new(1);
    assert_eq!(pitch("C#4"), chromatic.to_pitch());
    assert_eq!(pitch("Db4"), chromatic.to_pitch_named(PitchName::D));

    let chromatic = ChromaticPitch::new(-1);
    assert_eq!(pitch("B3"), chromatic.to_pitch());
    assert_eq!(pitch("Cb4"), chromatic.to_pitch_named(PitchName::C));
}

fn check_display(input: &str, output: &str) {
    assert_eq!(&pitch(input).to_string(), output);
}

#[test]
fn display_pitch() {
    check_display("Eb4", "Eb4");
    check_display("Ebb4", "E&4");
    check_display("E4", "E4");
    check_display("F5", "F5");
}

fn check_parse(s: &str, d: i16, c: i16) {
    let p = pitch(s);
    assert_eq!(p.diatonic, d, "{} parsed to {} diatonic steps", s, p.diatonic);
    assert_eq!(p.chromatic, c, "{} parsed to {} chromatic steps", s, p.chromatic);
}

#[test]
fn parse_parse_pitch() {
    check_parse("Cb4", 0, -1);
    check_parse("C4", 0, 0);
    check_parse("C#4", 0, 1);
    check_parse("Db4", 1, 1);
    check_parse("D4", 1, 2);
    check_parse("D#4", 1, 3);
    check_parse("Eb4", 2, 3);
    check_parse("E4", 2, 4);
    check_parse("E#4", 2, 5);
    check_parse("Fb4", 3, 4);
    check_parse("F4", 3, 5);
    check_parse("F#4", 3, 6);
    check_parse("Gb4", 4, 6);
    check_parse("G4", 4, 7);
    check_parse("G#4", 4, 8);
    check_parse("Ab4", 5, 8);
    check_parse("A4", 5, 9);
    check_parse("A#4", 5, 10);
    check_parse("Bb4", 6, 10);
    check_parse("B4", 6, 11);
    check_parse("B#4", 6, 12);

    check_parse("C5", 7, 12);
    check_parse("D5", 8, 14);
    check_parse("C3", -7, -12);
    check_parse("Bb2", -8, -14);

    check_parse("C+4", 0, 2);
    check_parse("C##4", 0, 2);
    check_parse("C&4", 0, -2);
    check_parse("Cbb4", 0, -2);

    check_parse("C###4", 0, 3);
    check_parse("C(3#)4", 0, 3);
    check_parse("Cbbb4", 0, -3);
    check_parse("C(3b)4", 0, -3);
}

#[test]
fn parse_parse_pitch_fail() {
    assert!(Pitch::from_str("C").is_err());
    assert!(Pitch::from_str("Ch").is_err());
    assert!(Pitch::from_str("c18").is_err());
}

#[test]
fn pitch_errors_name_their_cause() {
    assert_eq!(Pitch::from_str("C"), Err(ParsePitchError::NoOctaveFound));
    assert_eq!(Pitch::from_str(""), Err(ParsePitchError::NoOctaveFound));
    assert_eq!(Pitch::from_str("C-"), Err(ParsePitchError::NoOctaveFound));
    assert_eq!(
        Pitch::from_str("c18"),
        Err(ParsePitchError::InvalidPitchName("c".to_string()))
    );
    assert_eq!(
        Pitch::from_str("18"),
        Err(ParsePitchError::InvalidPitchName(String::new()))
    );
    assert_eq!(
        Pitch::from_str("Hb4"),
        Err(ParsePitchError::InvalidPitchName("Hb".to_string()))
    );
    assert_eq!(
        Pitch::from_str("Ch4"),
        Err(ParsePitchError::InvalidAccidental("h".to_string()))
    );
    assert_eq!(
        Pitch::from_str("C#b4"),
        Err(ParsePitchError::InvalidAccidental("#b".to_string()))
    );
    assert_eq!(
        Pitch::from_str("C(3x)4"),
        Err(ParsePitchError::InvalidAccidental("3x".to_string()))
    );
    assert_eq!(Pitch::from_str("C(300#)4"), Ok(Pitch::new(0, 300)));
    assert_eq!(
        Pitch::from_str("C(+3#)4"),
        Err(ParsePitchError::InvalidAccidental("+3#".to_string()))
    );
    // the accidental may be of any size where the pitch fits
    assert_eq!(Pitch::from_str("C(40000#)-3000"), Ok(Pitch::new(-21028, 3952)));
    assert_eq!(
        Pitch::from_str("C(99999999999999999999#)4"),
        Err(ParsePitchError::InvalidOctave("4".to_string()))
    );
    assert_eq!(
        Pitch::from_str("C(40000b)4"),
        Err(ParsePitchError::InvalidOctave("4".to_string()))
    );
    assert_eq!(
        Pitch::from_str("C()4"),
        Err(ParsePitchError::InvalidAccidental(String::new()))
    );
    assert_eq!(
        Pitch::from_str("C(3#4"),
        Err(ParsePitchError::InvalidAccidental("3#".to_string()))
    );
    assert_eq!(
        Pitch::from_str("C99999"),
        Err(ParsePitchError::InvalidOctave("99999".to_string()))
    );
    assert_eq!(
        Pitch::from_str("C-99999"),
        Err(ParsePitchError::InvalidOctave("-99999".to_string()))
    );
    // an octave that a number of sixteen bits holds, but no pitch
    assert_eq!(
        Pitch::from_str("C9000"),
        Err(ParsePitchError::InvalidOctave("9000".to_string()))
    );
}

#[test]
fn pitch_error_messages() {
    assert_eq!(
        ParsePitchError::InvalidPitchName("c".to_string()).to_string(),
        "pitch name `c` is invalid"
    );
    assert_eq!(
        ParsePitchError::InvalidAccidental("h".to_string()).to_string(),
        "accidental `h` is invalid"
    );
    assert_eq!(ParsePitchError::NoOctaveFound.to_string(), "no octave in string");
    assert_eq!(
        ParsePitchError::InvalidOctave("x".to_string()).to_string(),
        "could not parse octave `x`"
    );
}

#[test]
fn negative_octaves() {
    let p = pitch("Bb-1");
    assert_eq!((p.diatonic, p.chromatic), (-29, -50));
    assert_eq!(p.to_string(), "Bb-1");
    assert_eq!(p.octave(), -1);
    assert_eq!(pitch("C0").to_string(), "C0");
}

#[test]
fn unicode_accidentals() {
    assert_eq!(Accidental::from_str("\u{266f}"), Ok(Accidental::new(1)));
    assert_eq!(Accidental::from_str("\u{266d}"), Ok(Accidental::new(-1)));
    assert_eq!(Accidental::from_str("\u{266e}"), Ok(Accidental::new(0)));
    assert_eq!(Accidental::from_str("\u{1d12a}"), Ok(Accidental::new(2)));
    assert_eq!(Accidental::from_str("\u{1d12b}"), Ok(Accidental::new(-2)));
    assert_eq!(pitch("C\u{266f}4"), pitch("C#4"));
    assert_eq!(pitch("E\u{266d}3"), pitch("Eb3"));
    for shift in -2..=2 {
        let a = Accidental::new(shift);
        let symbol = a.to_utf8().unwrap().to_string();
        assert_eq!(Accidental::from_str(&symbol), Ok(a));
    }
    assert_eq!(Accidental::new(3).to_utf8(), None);
    assert_eq!(Accidental::new(-3).to_utf8(), None);
}

#[test]
fn accidental_text() {
    assert_eq!(Accidental::from_str(""), Ok(Accidental::new(0)));
    assert_eq!(Accidental::from_str("n"), Ok(Accidental::new(0)));
    assert_eq!(Accidental::from_str("#"), Ok(Accidental::new(1)));
    assert_eq!(Accidental::from_str("b"), Ok(Accidental::new(-1)));
    assert_eq!(Accidental::from_str("##"), Ok(Accidental::new(2)));
    assert_eq!(Accidental::from_str("+"), Ok(Accidental::new(2)));
    assert_eq!(Accidental::from_str("bb"), Ok(Accidental::new(-2)));
    assert_eq!(Accidental::from_str("&"), Ok(Accidental::new(-2)));
    assert_eq!(Accidental::from_str("#####"), Ok(Accidental::new(5)));
    assert_eq!(Accidental::from_str("(12b)"), Ok(Accidental::new(-12)));
    assert_eq!(Accidental::from_str("(255#)"), Ok(Accidental::new(255)));
    assert_eq!(Accidental::from_str("(256#)"), Ok(Accidental::new(256)));
    assert_eq!(Accidental::from_str("(007b)"), Ok(Accidental::new(-7)));
    assert_eq!(Accidental::from_str("(32767#)"), Ok(Accidental::new(32767)));
    assert_eq!(Accidental::from_str("(32768b)"), Ok(Accidental::new(i16::MIN)));
    assert_eq!(
        Accidental::from_str(&"#".repeat(300)),
        Ok(Accidental::new(300))
    );
    // the count is digits only
    assert_eq!(
        Accidental::from_str("(+7#)"),
        Err(ParsePitchError::InvalidAccidental("+7#".to_string()))
    );
    // more half steps than sixteen bits hold
    assert_eq!(
        Accidental::from_str("(32768#)"),
        Err(ParsePitchError::InvalidAccidental("(32768#)".to_string()))
    );
    assert_eq!(
        Accidental::from_str("(32769b)"),
        Err(ParsePitchError::InvalidAccidental("(32769b)".to_string()))
    );
    assert_eq!(
        Accidental::from_str("(99999999999999999999#)"),
        Err(ParsePitchError::InvalidAccidental(
            "(99999999999999999999#)".to_string()
        ))
    );
    assert_eq!(
        Accidental::from_str(&"b".repeat(40000)),
        Err(ParsePitchError::InvalidAccidental("b".repeat(40000)))
    );
    for text in ["#b", "x", "nn", "(3)", "(#)", "(3#", "()", "(3#))", "3#", "(3 #)"] {
        assert!(
            matches!(
                Accidental::from_str(text),
                Err(ParsePitchError::InvalidAccidental(_))
            ),
            "{}",
            text
        );
    }
    for shift in [i16::MIN, -300, -3, 0, 3, 256, i16::MAX] {
        let a = Accidental::new(shift);
        assert_eq!(Accidental::from_str(&a.to_string()), Ok(a));
    }
    assert_eq!(
        Accidental::from_str("(-1#)"),
        Err(ParsePitchError::InvalidAccidental("-1#".to_string()))
    );
    assert_eq!(
        Accidental::from_str("nn"),
        Err(ParsePitchError::InvalidAccidental("nn".to_string()))
    );
    assert_eq!(
        Accidental::from_str("("),
        Err(ParsePitchError::InvalidAccidental(String::new()))
    );

    assert_eq!(Accidental::new(0).to_string(), "");
    assert_eq!(Accidental::new(1).to_string(), "#");
    assert_eq!(Accidental::new(-1).to_string(), "b");
    assert_eq!(Accidental::new(2).to_string(), "+");
    assert_eq!(Accidental::new(-2).to_string(), "&");
    assert_eq!(Accidental::new(3).to_string(), "(3#)");
    assert_eq!(Accidental::new(-3).to_string(), "(3b)");
    assert_eq!(Accidental::new(i16::MIN).to_string(), "(32768b)");
    assert_eq!(Accidental::natural(), Accidental::new(0));
    assert_eq!(Accidental::sharp(), Accidental::new(1));
    assert_eq!(Accidental::flat(), Accidental::new(-1));
    assert_eq!(Accidental::default(), Accidental::new(0));
}

#[test]
fn pitch_names() {
    let names = [
        (PitchName::C, 'C', 0, 0),
        (PitchName::D, 'D', 1, 2),
        (PitchName::E, 'E', 2, 4),
        (PitchName::F, 'F', 3, 5),
        (PitchName::G, 'G', 4, 7),
        (PitchName::A, 'A', 5, 9),
        (PitchName::B, 'B', 6, 11),
    ];
    for (name, letter, diatonic, chromatic) in names {
        assert_eq!(PitchName::new(letter), Some(name));
        assert_eq!(PitchName::from_byte(letter as u8), Some(name));
        assert_eq!(name.as_char(), letter);
        assert_eq!(name.as_ascii_byte(), letter as u8);
        assert_eq!(name.to_diatonic_steps(), diatonic);
        assert_eq!(name.to_chromatic_steps(), chromatic);
        assert_eq!(PitchName::from_diatonic_steps(diatonic), name);
        assert_eq!(PitchName::from_diatonic_steps(diatonic - 14), name);
        assert_eq!(PitchName::from_diatonic_steps(diatonic + 7), name);
        assert_eq!(PitchName::from_str(&letter.to_string()), Ok(name));
        assert_eq!(name.to_string(), letter.to_string());
    }
    assert_eq!(PitchName::new('H'), None);
    assert_eq!(PitchName::new('c'), None);
    assert_eq!(PitchName::from_byte(b'@'), None);
    assert_eq!(PitchName::default(), PitchName::C);
    assert!(PitchName::C < PitchName::D);
    assert!(PitchName::G < PitchName::A);
    assert!(PitchName::A < PitchName::B);
    assert_eq!(
        PitchName::from_str("CC"),
        Err(ParsePitchError::InvalidPitchName("CC".to_string()))
    );
    assert_eq!(
        PitchName::from_str(""),
        Err(ParsePitchError::InvalidPitchName(String::new()))
    );
}

#[test]
fn compose_and_decompose() {
    assert_eq!(Pitch::new(0, 0), pitch("C4"));
    assert_eq!(Pitch::new(1, 2), pitch("D4"));
    assert_eq!(Pitch::new(-2, -3), pitch("A3"));
    assert_eq!(Pitch::new(7, 12), pitch("C5"));

    let p = pitch("Bb2");
    assert_eq!(p.decompose(), (PitchName::B, Accidental::new(-1), 2));
    assert_eq!(p.pitch_name(), PitchName::B);
    assert_eq!(p.accidental(), Accidental::new(-1));
    assert_eq!(p.octave(), 2);
    assert_eq!(p.staff_position(), -8);
    assert_eq!(Pitch::compose(PitchName::B, Accidental::new(-1), 2), p);
    assert_eq!(
        Pitch::from_pitch_class(PitchName::F, Accidental::new(1)),
        pitch("F#4")
    );
    assert_eq!(pitch("B3").decompose(), (PitchName::B, Accidental::new(0), 3));
    assert_eq!(pitch("Cb4").decompose(), (PitchName::C, Accidental::new(-1), 4));
}

#[test]
fn pitch_order() {
    assert!(pitch("E4") < pitch("F4"));
    assert!(pitch("E#4") < pitch("Fb4"));
    assert!(pitch("Fb4").to_chromatic() < pitch("E#4").to_chromatic());
    assert_eq!(
        pitch("Fb4").cmp_chromatic(&pitch("E#4")),
        std::cmp::Ordering::Less
    );
    assert_eq!(
        pitch("E4").cmp_chromatic(&pitch("Fb4")),
        std::cmp::Ordering::Less
    );
    assert_eq!(
        pitch("Fb4").cmp_chromatic(&pitch("E4")),
        std::cmp::Ordering::Greater
    );
    assert_eq!(
        pitch("E4").cmp_chromatic(&pitch("E4")),
        std::cmp::Ordering::Equal
    );
    assert_eq!(pitch("E4").cmp(&pitch("Fb4")), std::cmp::Ordering::Less);
    assert_eq!(
        pitch("E#4").partial_cmp(&pitch("E4")),
        Some(std::cmp::Ordering::Greater)
    );
}

#[test]
fn chromatic_pitches() {
    assert_eq!(ChromaticPitch::new(9).to_num(), 9);
    assert_eq!(pitch("A4").to_chromatic(), ChromaticPitch::new(9));
    assert_eq!(ChromaticPitch::from(pitch("A4")), ChromaticPitch::new(9));
    assert_eq!(ChromaticPitch::new(0).to_midi_pitch(), Some(60));
    assert_eq!(ChromaticPitch::new(-60).to_midi_pitch(), Some(0));
    assert_eq!(ChromaticPitch::new(67).to_midi_pitch(), Some(127));
    assert_eq!(ChromaticPitch::new(68).to_midi_pitch(), None);
    assert_eq!(ChromaticPitch::new(-61).to_midi_pitch(), None);
    assert_eq!(ChromaticPitch::new(i16::MAX).to_midi_pitch(), None);
    assert_eq!(ChromaticPitch::from_midi_pitch(60), ChromaticPitch::new(0));
    assert_eq!(ChromaticPitch::from_midi_pitch(0), ChromaticPitch::new(-60));
    assert_eq!(ChromaticPitch::from_midi_pitch(255), ChromaticPitch::new(195));

    let spelled = [
        "C4", "C#4", "D4", "Eb4", "E4", "F4", "F#4", "G4", "Ab4", "A4", "Bb4", "B4",
    ];
    for (steps, name) in spelled.iter().enumerate() {
        assert_eq!(ChromaticPitch::new(steps as i16).to_pitch(), pitch(name));
        assert_eq!(
            ChromaticPitch::new(steps as i16 - 24).to_pitch() + music_types::harmony::Interval::octave()
                + music_types::harmony::Interval::octave(),
            pitch(name)
        );
    }
    // the nearest spelling lies below as well as above
    assert_eq!(
        ChromaticPitch::new(0).to_pitch_named(PitchName::B),
        pitch("B#3")
    );
    assert_eq!(
        ChromaticPitch::new(11).to_pitch_named(PitchName::C),
        pitch("Cb5")
    );
    assert_eq!(
        ChromaticPitch::new(6).to_pitch_named(PitchName::C),
        Pitch::new(0, 6)
    );
    assert_eq!(
        ChromaticPitch::new(5).to_pitch_named(PitchName::B),
        Pitch::new(6, 5)
    );
}

#[test]
fn smufl_glyphs() {
    let glyphs = [
        (-3, AccidentalGlyph::TripleFlat, smufl::Glyph::AccidentalTripleFlat, '\u{e266}'),
        (-2, AccidentalGlyph::DoubleFlat, smufl::Glyph::AccidentalDoubleFlat, '\u{e264}'),
        (-1, AccidentalGlyph::Flat, smufl::Glyph::AccidentalFlat, '\u{e260}'),
        (0, AccidentalGlyph::Natural, smufl::Glyph::AccidentalNatural, '\u{e261}'),
        (1, AccidentalGlyph::Sharp, smufl::Glyph::AccidentalSharp, '\u{e262}'),
        (2, AccidentalGlyph::DoubleSharp, smufl::Glyph::AccidentalDoubleSharp, '\u{e263}'),
        (3, AccidentalGlyph::TripleSharp, smufl::Glyph::AccidentalTripleSharp, '\u{e265}'),
    ];
    for (shift, kind, glyph, codepoint) in glyphs {
        let accidental = Accidental::new(shift);
        assert_eq!(accidental.glyph(), Some(kind));
        assert_eq!(accidental.to_smufl(), Some(glyph));
        assert_eq!(accidental.to_smufl().unwrap().codepoint(), codepoint);
        // where Unicode has the sign, the font's alternate is that sign
        assert_eq!(
            accidental.to_smufl().unwrap().alternate_codepoint(),
            accidental.to_utf8()
        );
    }
    assert_eq!(Accidental::new(4).glyph(), None);
    assert_eq!(Accidental::new(4).to_smufl(), None);
    assert_eq!(Accidental::new(-4).to_smufl(), None);
}

fn check_class_display(input: &str) {
    assert_eq!(&PitchClass::from_str(input).unwrap().to_string(), input);
}

#[test]
fn pitch_class() {
    check_class_display("Cb");
    check_class_display("C");
    check_class_display("C#");
    check_class_display("Db");
    check_class_display("D");
    check_class_display("D#");
    check_class_display("Eb");
    check_class_display("E");
    check_class_display("E#");
    check_class_display("Fb");
    check_class_display("F");
    check_class_display("F#");
    check_class_display("Gb");
    check_class_display("G");
    check_class_display("G#");
    check_class_display("Ab");
    check_class_display("A");
    check_class_display("A#");
    check_class_display("Bb");
    check_class_display("B");
    check_class_display("B#");
}

#[test]
fn pitch_classes() {
    let b_flat = PitchClass::from_str("Bb").unwrap();
    assert_eq!(b_flat, PitchClass { diatonic: 6, chromatic: 10 });
    assert_eq!(b_flat.decompose(), (PitchName::B, Accidental::flat()));
    assert_eq!(PitchClass::compose(PitchName::B, Accidental::flat()), b_flat);
    assert_eq!(b_flat.place_in_octave(4), pitch("Bb4"));
    assert_eq!(b_flat.place_in_octave(2), pitch("Bb2"));
    assert_eq!(b_flat.place_in_octave(-1), pitch("Bb-1"));
    assert_eq!(b_flat.place_in_octave(i8::MIN), Pitch::new(-918, -1574));
    assert_eq!(b_flat.to_chromatic(), ChromaticPitchClass(10));
    assert_eq!(ChromaticPitchClass::from(b_flat), ChromaticPitchClass(10));
    assert_eq!(pitch("Bb2").to_class(), b_flat);
    assert_eq!(pitch("Bb-1").to_class(), b_flat);
    assert_eq!(pitch("Bb2").to_chromatic_class(), ChromaticPitchClass(10));
    assert_eq!(pitch("Cb4").to_chromatic_class(), ChromaticPitchClass(11));
    assert_eq!(
        PitchClass::from_str("Cb").unwrap().to_chromatic(),
        ChromaticPitchClass(11)
    );
    assert_eq!(ChromaticPitchClass::new(25), ChromaticPitchClass(1));
    assert_eq!(ChromaticPitchClass::new(11), ChromaticPitchClass(11));
    assert_eq!(
        ChromaticPitchClass(10).place_in_octave(2),
        ChromaticPitch::new(-14)
    );
    assert_eq!(
        ChromaticPitchClass(0).place_in_octave(4),
        ChromaticPitch::new(0)
    );
    assert_eq!(PitchClass::default(), PitchClass::from_str("C").unwrap());
    assert_eq!(PitchClass::from_str("C(3#)").unwrap().to_string(), "C(3#)");

    assert_eq!(
        PitchClass::from_str(""),
        Err(ParsePitchError::InvalidPitchName(String::new()))
    );
    assert_eq!(
        PitchClass::from_str("h#"),
        Err(ParsePitchError::InvalidPitchName("h#".to_string()))
    );
    assert_eq!(
        PitchClass::from_str("Cx"),
        Err(ParsePitchError::InvalidAccidental("x".to_string()))
    );
    assert_eq!(
        PitchClass::from_str("C4"),
        Err(ParsePitchError::InvalidAccidental("4".to_string()))
    );
    assert_eq!(
        PitchClass::from_str("B(200#)"),
        Err(ParsePitchError::InvalidAccidental("(200#)".to_string()))
    );
}
