use std::cmp::Ordering;

use music_types::harmony::{
    ChromaticInterval, ChromaticOctave, ChromaticPitch, Interval, Octave, ParseError,
    ParseIntervalError, ParsePitchError, Pitch,
};

fn interval(s: &str) -> Interval {
    Interval::from_str(s).unwrap()
}

fn pitch(s: &str) -> Pitch {
    Pitch::from_str(s).unwrap()
}

fn impossible(number: i32, quality: Option<&str>) -> Result<Interval, ParseIntervalError> {
    Err(ParseIntervalError::Impossible {
        number,
        quality: quality.map(|q| q.to_string()),
    })
}

#[test]
fn impossible_intervals() {
    assert_eq!(Interval::from_str("m1"), impossible(1, Some("m")));
    assert_eq!(Interval::from_str("3"), impossible(3, None));
    assert_eq!(Interval::from_str("16"), impossible(16, None));
    assert_eq!(Interval::from_str("m11"), impossible(11, Some("m")));
    assert_eq!(Interval::from_str("m15"), impossible(15, Some("m")));
    assert_eq!(Interval::from_str("(0)3"), impossible(3, Some("0")));
    assert_eq!(Interval::from_str("(-1)1"), impossible(1, Some("-1")));
    assert_eq!(Interval::from_str("(+1)1"), impossible(1, Some("1")));
    assert_eq!(Interval::from_str("(1)1"), impossible(1, Some("1")));
    assert_eq!(Interval::from_str("j4"), impossible(4, Some("j")));
    assert_eq!(Interval::from_str("M5"), impossible(5, Some("M")));
    assert_eq!(Interval::from_str("p3"), impossible(3, Some("p")));
    assert_eq!(Interval::from_str("P10"), impossible(10, Some("P")));
    assert_eq!(Interval::from_str("m8"), impossible(8, Some("m")));
    assert_eq!(Interval::from_str("-m8"), impossible(8, Some("m")));
    assert_eq!(Interval::from_str("0"), impossible(0, None));
}

#[test]
fn invalid_numbers_and_qualities() {
    let number = |s: &str| Err(ParseIntervalError::InvalidNumber(s.to_string()));
    let quality = |s: &str| Err(ParseIntervalError::InvalidQuality(s.to_string()));
    assert_eq!(Interval::from_str(""), number(""));
    assert_eq!(Interval::from_str("-"), number(""));
    assert_eq!(Interval::from_str("m"), number(""));
    assert_eq!(Interval::from_str("3m"), number(""));
    assert_eq!(Interval::from_str("32768"), number("32768"));
    assert_eq!(Interval::from_str("32770"), number("32770"));
    assert_eq!(Interval::from_str("x32770"), number("32770"));
    // diatonic steps that fit only downwards
    assert_eq!(Interval::from_str("(-60000)32769"), number("32769"));
    assert_eq!(
        Interval::from_str("-(-60000)32769"),
        Ok(Interval::new(3826, i16::MIN))
    );
    assert_eq!(Interval::from_str("32769"), impossible(32769, None));
    assert_eq!(Interval::from_str("m32768"), impossible(32768, Some("m")));
    assert_eq!(Interval::from_str("m99999999999999999999"), number("99999999999999999999"));
    // a number that is read, but whose half steps leave sixteen bits
    assert_eq!(Interval::from_str("a30003"), number("30003"));
    assert_eq!(Interval::from_str("m19116"), number("19116"));
    assert_eq!(Interval::from_str("m19112"), Ok(Interval::new(32761, 19111)));

    assert_eq!(Interval::from_str("x3"), quality("x"));
    assert_eq!(Interval::from_str("x1"), quality("x"));
    assert_eq!(Interval::from_str("D5"), quality("D"));
    assert_eq!(Interval::from_str("mm3"), quality("mm3"));
    assert_eq!(Interval::from_str("-mm3"), quality("mm3"));
    assert_eq!(Interval::from_str("(2 3"), quality("(2 3"));
    assert_eq!(Interval::from_str("(a)3"), quality("a"));
    assert_eq!(Interval::from_str("()3"), quality(""));
    assert_eq!(Interval::from_str("(+)3"), quality(""));
    // a quality that is read, but with which the half steps leave sixteen bits
    assert_eq!(Interval::from_str("(40000)1"), quality("40000"));
    assert_eq!(Interval::from_str("(-40000)8"), quality("-40000"));
    assert_eq!(Interval::from_str("-(32767)8"), quality("32767"));
    assert_eq!(Interval::from_str("--(+32770)1"), quality("32770"));
    assert_eq!(
        Interval::from_str("(99999999999999999999)5"),
        quality("99999999999999999999")
    );
    // one sign at most
    assert_eq!(Interval::from_str("(++2)3"), quality("+2"));
    assert_eq!(Interval::from_str("(+-2)3"), quality("-2"));
    assert_eq!(Interval::from_str("(--2)3"), quality("--2"));
    assert_eq!(Interval::from_str("(-+2)3"), quality("-+2"));
    assert_eq!(Interval::from_str("(-)3"), quality("-"));
    // the minus sign of the typesetter is no minus sign
    assert_eq!(Interval::from_str("(\u{2212}1)1"), quality("\u{2212}1"));
    assert_eq!(Interval::from_str("(\u{2212}2)5"), quality("\u{2212}2"));
}

#[test]
fn readings_of_the_same_interval() {
    assert_eq!(interval("1"), Interval::unison());
    assert_eq!(interval("p1"), Interval::unison());
    assert_eq!(interval("P15"), interval("15"));
    assert_eq!(interval("m2"), Interval::min_second());
    assert_eq!(interval("j2"), Interval::maj_second());
    assert_eq!(interval("m3"), Interval::min_third());
    assert_eq!(interval("j3"), Interval::maj_third());
    assert_eq!(interval("M3"), Interval::maj_third());
    assert_eq!(interval("4"), Interval::fourth());
    assert_eq!(interval("A4"), Interval::aug_fourth());
    assert_eq!(interval("d5"), Interval::dim_fifth());
    assert_eq!(interval("5"), Interval::fifth());
    assert_eq!(interval("m6"), Interval::min_sixth());
    assert_eq!(interval("j6"), Interval::maj_sixth());
    assert_eq!(interval("m7"), Interval::min_seventh());
    assert_eq!(interval("j7"), Interval::maj_seventh());
    assert_eq!(interval("8"), Interval::octave());
    assert_eq!(interval("-j3"), -Interval::maj_third());
    assert_eq!(interval("--j3"), Interval::maj_third());
    assert_eq!(interval("m3"), interval("(-1)3"));
    assert_eq!(interval("j3"), interval("(+1)3"));
    assert_eq!(interval("4"), interval("(0)4"));
    assert_eq!(interval("a4"), interval("(+2)4"));
    assert_eq!(interval("d4"), interval("(-2)4"));
    assert_eq!(interval("d3"), interval("(-2)3"));
    assert_eq!(interval("a3"), interval("(2)3"));
    assert_eq!(interval("(+002)3"), interval("a3"));
    // a quality beyond sixteen bits, where the half steps fit
    assert_eq!(interval("(-32770)8"), Interval::new(-32757, 7));
    assert_eq!(interval("(32768)1"), Interval::new(32767, 0));
    assert_eq!(interval("(-40000)19111"), Interval::new(-7239, 19110));
    assert_eq!(interval("005"), interval("5"));
    assert_eq!(interval("m0"), Interval::new(-1, -1));
    assert_eq!(interval("19111"), Interval::new(32760, 19110));
    assert_eq!(Interval::default(), Interval::unison());
}

#[test]
fn interval_text_is_canonical() {
    assert_eq!(interval("m3").to_string(), "m3");
    assert_eq!(interval("j3").to_string(), "j3");
    assert_eq!(interval("d5").to_string(), "d5");
    assert_eq!(interval("M3").to_string(), "j3");
    assert_eq!(interval("p5").to_string(), "5");
    assert_eq!(interval("(-1)3").to_string(), "m3");
    assert_eq!(interval("(2)4").to_string(), "a4");
    assert_eq!(interval("(3)4").to_string(), "(3)4");
    assert_eq!(interval("(-3)4").to_string(), "(-3)4");
    assert_eq!(interval("(3)3").to_string(), "(3)3");
    assert_eq!(interval("(-3)3").to_string(), "(-3)3");
    assert_eq!(interval("-(+3)10").to_string(), "-(3)10");
    assert_eq!(Interval::new(2, 0).to_string(), "(3)1");
    assert_eq!(Interval::new(-2, 0).to_string(), "(-3)1");
    assert_eq!(Interval::new(6, 2).to_string(), "(3)3");
    assert_eq!(Interval::new(1, 2).to_string(), "(-3)3");
    assert_eq!(Interval::new(-24, -14).to_string(), "-15");
    assert_eq!(Interval::new(0, -1).to_string(), "-d2");
    assert_eq!(Interval::new(1, -1).to_string(), "-(-3)2");
    assert_eq!(Interval::new(i16::MIN, i16::MIN).to_string(), "-(-23406)32769");
    assert_eq!(Interval::new(i16::MAX, i16::MAX).to_string(), "(-23406)32768");
}

#[test]
fn intervals_read_back_from_their_text() {
    for diatonic in -40..=40 {
        for chromatic in -80..=80 {
            let x = Interval::new(chromatic, diatonic);
            assert_eq!(Interval::from_str(&x.to_string()), Ok(x), "{}", x.to_string());
        }
    }
    for x in [
        Interval::new(i16::MAX, 32766),
        Interval::new(i16::MIN, -32766),
        Interval::new(23404, 32766),
        Interval::new(-32760, -19110),
    ] {
        assert_eq!(Interval::from_str(&x.to_string()), Ok(x), "{}", x.to_string());
    }
    // the largest numbers are read back too
    let x = Interval::new(0, i16::MAX);
    assert_eq!(x.to_string(), "(-56173)32768");
    assert_eq!(Interval::from_str(&x.to_string()), Ok(x));
    let x = Interval::new(0, i16::MIN);
    assert_eq!(x.to_string(), "-(-56174)32769");
    assert_eq!(Interval::from_str(&x.to_string()), Ok(x));
    // a quality beyond sixteen bits is read back too
    let x = Interval::new(i16::MIN, 10000);
    assert_eq!(x.to_string(), "(-49912)10001");
    assert_eq!(Interval::from_str(&x.to_string()), Ok(x));
    let x = Interval::new(i16::MAX, 0);
    assert_eq!(x.to_string(), "(32768)1");
    assert_eq!(Interval::from_str(&x.to_string()), Ok(x));
    for diatonic in [i16::MIN, -32767, -32766, -20000, -1, 0, 1, 20000, 32766, i16::MAX] {
        for chromatic in [i16::MIN, -1, 0, 1, i16::MAX] {
            let x = Interval::new(chromatic, diatonic);
            assert_eq!(Interval::from_str(&x.to_string()), Ok(x), "{}", x.to_string());
        }
    }
}

#[test]
fn pitches_read_back_from_their_text() {
    for diatonic in -40..=40 {
        for chromatic in -80..=80 {
            let p = Pitch::new(diatonic, chromatic);
            assert_eq!(Pitch::from_str(&p.to_string()), Ok(p), "{}", p.to_string());
        }
    }
    for p in [
        Pitch::new(19110, 32760),
        Pitch::new(-19110, -32760),
        Pitch::new(19116, 32516),
        Pitch::new(0, 255),
        Pitch::new(0, -255),
    ] {
        assert_eq!(Pitch::from_str(&p.to_string()), Ok(p), "{}", p.to_string());
    }
    let p = Pitch::new(0, 256);
    assert_eq!(p.to_string(), "C(256#)4");
    assert_eq!(Pitch::from_str(&p.to_string()), Ok(p));
    let p = Pitch::new(i16::MAX, i16::MIN);
    assert_eq!(p.to_string(), "C(88940b)4685");
    assert_eq!(Pitch::from_str(&p.to_string()), Ok(p));
    for diatonic in [i16::MIN, -5000, -1, 0, 1, 5000, i16::MAX] {
        for chromatic in [i16::MIN, -10000, -300, 0, 300, 10000, i16::MAX] {
            let p = Pitch::new(diatonic, chromatic);
            assert_eq!(Pitch::from_str(&p.to_string()), Ok(p), "{}", p.to_string());
        }
    }
}

#[test]
fn interval_error_messages() {
    assert_eq!(
        ParseIntervalError::InvalidNumber(String::new()).to_string(),
        "could not parse interval number ``"
    );
    assert_eq!(
        ParseIntervalError::InvalidQuality("x".to_string()).to_string(),
        "could not parse interval quality `x`"
    );
    assert_eq!(
        Interval::from_str("m8").unwrap_err().to_string(),
        "interval of number 8 (octave equivalent to 1) cannot have quality `m`"
    );
    assert_eq!(
        Interval::from_str("-m11").unwrap_err().to_string(),
        "interval of number 11 (octave equivalent to 4) cannot have quality `m`"
    );
    assert_eq!(
        Interval::from_str("14").unwrap_err().to_string(),
        "interval of number 14 (octave equivalent to 7) cannot be perfect"
    );
    assert_eq!(
        Interval::from_str("0").unwrap_err().to_string(),
        "interval of number 0 (octave equivalent to 0) cannot be perfect"
    );
    assert_eq!(
        ParseIntervalError::Impossible { number: -9, quality: None }.to_string(),
        "interval of number -9 (octave equivalent to 2) cannot be perfect"
    );
    assert_eq!(
        ParseError::from(ParseIntervalError::InvalidQuality("x".to_string())).to_string(),
        "could not parse interval quality `x`"
    );
    assert_eq!(
        ParseError::from(ParsePitchError::NoOctaveFound),
        ParseError::Pitch(ParsePitchError::NoOctaveFound)
    );
    assert_eq!(
        ParseError::from(ParsePitchError::NoOctaveFound).to_string(),
        "no octave in string"
    );
}

#[test]
fn transposition() {
    assert_eq!(pitch("C4") + interval("j3"), pitch("E4"));
    assert_eq!(pitch("C4") + interval("m3"), pitch("Eb4"));
    assert_eq!(pitch("E4") - pitch("C4"), interval("j3"));
    assert_eq!(pitch("G4") - pitch("C4"), interval("5"));
    assert_eq!(pitch("E4") - interval("j3"), pitch("C4"));
    assert_eq!(interval("j3") - interval("m3"), interval("a1"));
    assert_eq!(interval("5") - interval("8"), interval("-4"));
}

#[test]
fn reduction() {
    assert_eq!(pitch("F6") % Octave, pitch("F4"));
    assert_eq!(pitch("Bb-1") % Octave, pitch("Bb4"));
    assert_eq!(interval("m13") % Octave, interval("m6"));
    assert_eq!(interval("-m3") % Octave, interval("j6"));
    assert_eq!(interval("8") % Octave, interval("1"));
    assert_eq!(interval("d1") % Octave, interval("d1"));
    assert_eq!(interval("d1") % ChromaticOctave, Interval::new(11, 7));
    assert_eq!(interval("j10") % ChromaticOctave, interval("j3"));
    assert_eq!(pitch("Cb4") % ChromaticOctave, Pitch::new(7, 11));
    assert_eq!(pitch("B#4") % ChromaticOctave, Pitch::new(-1, 0));
    assert_eq!(ChromaticPitch::new(-1) % ChromaticOctave, ChromaticPitch::new(11));
    assert_eq!(ChromaticPitch::new(25) % ChromaticOctave, ChromaticPitch::new(1));
    assert_eq!((ChromaticInterval(-13) % ChromaticOctave).0, 11);

    for diatonic in -30..=30 {
        for chromatic in -50..=50 {
            let p = Pitch::new(diatonic, chromatic);
            let once = p % Octave;
            assert!((0..7).contains(&once.diatonic));
            assert_eq!(once % Octave, once);
            assert_eq!((once - p) % Octave, Interval::unison());
            let i = Interval::new(chromatic, diatonic);
            let once = i % ChromaticOctave;
            assert!((0..12).contains(&once.chromatic));
            assert_eq!(once % ChromaticOctave, once);
        }
    }
}

#[test]
fn laws_of_addition() {
    let values = [-9, -1, 0, 2, 7];
    let mut intervals = Vec::new();
    for d in values {
        for c in values {
            intervals.push(Interval::new(c * 2 + 1, d));
        }
    }
    let zero = Interval::unison();
    for &a in &intervals {
        assert_eq!(a + (-a), zero);
        assert_eq!(a + zero, a);
        assert_eq!(a - a, zero);
        for &b in &intervals {
            assert_eq!(a + b, b + a);
            assert_eq!(a - b, a + (-b));
            let p1 = Pitch::new(a.diatonic, a.chromatic);
            let p2 = Pitch::new(b.diatonic, b.chromatic);
            assert_eq!((p2 - p1) + p1, p2);
            assert_eq!(b + p1, p1 + b);
            for &c in &intervals[..5] {
                assert_eq!(a + (b + c), (a + b) + c);
                assert_eq!((p1 + b) + c, p1 + (b + c));
            }
        }
    }
}

#[test]
fn chromatic_arithmetic() {
    let a = ChromaticInterval(7);
    let b = ChromaticInterval(-3);
    assert_eq!((a + b).0, 4);
    assert_eq!((a - b).0, 10);
    assert_eq!((-a).0, -7);
    assert_eq!(ChromaticPitch::new(9) + a, ChromaticPitch::new(16));
    assert_eq!(a + ChromaticPitch::new(9), ChromaticPitch::new(16));
    assert_eq!(ChromaticPitch::new(9) - a, ChromaticPitch::new(2));
    assert_eq!((ChromaticPitch::new(9) - ChromaticPitch::new(-3)).0, 12);
}

#[test]
fn quality_families() {
    for (diatonic, perfect) in [
        (0, true),
        (1, false),
        (2, false),
        (3, true),
        (4, true),
        (5, false),
        (6, false),
        (7, true),
        (10, true),
        (-1, false),
        (-3, true),
        (-4, true),
        (-7, true),
        (-9, false),
    ] {
        assert_eq!(Interval::has_perfect(diatonic), perfect, "{}", diatonic);
        assert_eq!(Interval::has_perfect(-diatonic), perfect, "{}", -diatonic);
    }
    assert_eq!(Interval::to_chromatic_steps_perfect(0), 0);
    assert_eq!(Interval::to_chromatic_steps_perfect(3), 5);
    assert_eq!(Interval::to_chromatic_steps_perfect(4), 7);
    assert_eq!(Interval::to_chromatic_steps_perfect(7), 12);
    assert_eq!(Interval::to_chromatic_steps_perfect(11), 19);
    assert_eq!(Interval::to_chromatic_steps_perfect(-4), -7);
    assert_eq!(Interval::to_chromatic_steps_perfect(-10), -17);
    assert_eq!(Interval::to_chromatic_steps_perfect(32767), 56172);
    assert_eq!(Interval::to_chromatic_steps_minor(1), 1);
    assert_eq!(Interval::to_chromatic_steps_minor(2), 3);
    assert_eq!(Interval::to_chromatic_steps_minor(5), 8);
    assert_eq!(Interval::to_chromatic_steps_minor(6), 10);
    assert_eq!(Interval::to_chromatic_steps_minor(8), 13);
    assert_eq!(Interval::to_chromatic_steps_minor(-2), -3);
    assert_eq!(Interval::to_chromatic_steps_minor(-13), -22);
    assert_eq!(Interval::to_chromatic_steps_minor(i16::MIN), -56173);
}

#[test]
fn interval_order() {
    assert!(interval("m3") < interval("j3"));
    assert!(interval("a4") < interval("d5"));
    assert!(interval("d5") > interval("a4"));
    assert!(interval("j7") < interval("d8"));
    assert_eq!(interval("a4").cmp_chromatic(&interval("d5")), Ordering::Less);
    assert_eq!(interval("d5").cmp_chromatic(&interval("a4")), Ordering::Greater);
    assert_eq!(interval("5").cmp_chromatic(&interval("d6")), Ordering::Less);
    assert_eq!(interval("5").cmp_chromatic(&interval("5")), Ordering::Equal);
    assert_eq!(interval("a4").cmp(&interval("d5")), Ordering::Less);
    assert_eq!(
        interval("j3").partial_cmp(&interval("m3")),
        Some(Ordering::Greater)
    );
}

#[test]
fn assigning_operators() {
    let mut i = interval("j3");
    i += interval("m3");
    assert_eq!(i, interval("5"));
    i -= interval("j3");
    assert_eq!(i, interval("m3"));
    i += interval("8");
    i %= Octave;
    assert_eq!(i, interval("m3"));
    i -= interval("8");
    i %= ChromaticOctave;
    assert_eq!(i, interval("m3"));

    let mut p = pitch("Bb4");
    p += interval("m3");
    assert_eq!(p, pitch("Db5"));
    p -= interval("m3");
    assert_eq!(p, pitch("Bb4"));
    p += interval("8");
    p %= Octave;
    assert_eq!(p, pitch("Bb4"));
    p %= ChromaticOctave;
    assert_eq!(p, pitch("Bb4"));

    let mut c = ChromaticInterval(5);
    c += ChromaticInterval(9);
    assert_eq!(c.0, 14);
    c %= ChromaticOctave;
    assert_eq!(c.0, 2);
    c -= ChromaticInterval(3);
    assert_eq!(c.0, -1);

    let mut q = ChromaticPitch::new(-1);
    q %= ChromaticOctave;
    assert_eq!(q, ChromaticPitch::new(11));
    q += ChromaticInterval(2);
    assert_eq!(q, ChromaticPitch::new(13));
    q -= ChromaticInterval(14);
    assert_eq!(q, ChromaticPitch::new(-1));
}

#[test]
fn parse_reads_as_from_str() {
    assert_eq!("m3".parse::<Interval>(), Ok(interval("m3")));
    assert_eq!("-(3)10".parse::<Interval>(), Interval::from_str("-(3)10"));
    assert_eq!("x3".parse::<Interval>(), Interval::from_str("x3"));
    assert_eq!("Eb4".parse::<Pitch>(), Ok(pitch("Eb4")));
    assert_eq!("E".parse::<Pitch>(), Pitch::from_str("E"));
    assert_eq!(
        "(3#)".parse::<music_types::harmony::Accidental>(),
        Ok(music_types::harmony::Accidental::new(3))
    );
    assert_eq!(
        "G".parse::<music_types::harmony::PitchName>(),
        Ok(music_types::harmony::PitchName::G)
    );
    assert_eq!(
        "F#".parse::<music_types::harmony::PitchClass>(),
        music_types::harmony::PitchClass::from_str("F#")
    );
    assert_eq!(
        "1 2 3 4 5 6 j7".parse::<music_types::harmony::scale::Scale>(),
        Ok(music_types::harmony::scale::Scale::major())
    );
    assert_eq!(
        "1 2 q".parse::<music_types::harmony::scale::Scale>(),
        Err(ParseError::Interval(ParseIntervalError::InvalidNumber(
            String::new()
        )))
    );
}

#[test]
fn operators_on_references() {
    let a = interval("j3");
    let b = interval("m3");
    assert_eq!(&a + b, interval("5"));
    assert_eq!(a + &b, interval("5"));
    assert_eq!(&a + &b, interval("5"));
    assert_eq!(&a - b, interval("a1"));
    assert_eq!(a - &b, interval("a1"));
    assert_eq!(&a - &b, interval("a1"));
    assert_eq!(-&a, interval("-j3"));
    let mut i = a;
    i += &b;
    assert_eq!(i, interval("5"));
    i -= &a;
    assert_eq!(i, b);
    i += &interval("8");
    i %= &Octave;
    assert_eq!(i, b);
    i %= &ChromaticOctave;
    assert_eq!(i, b);

    let p = pitch("Bb4");
    let q = pitch("Db5");
    assert_eq!(&p + b, q);
    assert_eq!(p + &b, q);
    assert_eq!(&p + &b, q);
    assert_eq!(&b + p, q);
    assert_eq!(b + &p, q);
    assert_eq!(&b + &p, q);
    assert_eq!(&q - b, p);
    assert_eq!(q - &b, p);
    assert_eq!(&q - &b, p);
    assert_eq!(&q - p, b);
    assert_eq!(q - &p, b);
    assert_eq!(&q - &p, b);
    let mut r = p;
    r += &b;
    assert_eq!(r, q);
    r -= &b;
    assert_eq!(r, p);
    r += &interval("8");
    r %= &Octave;
    assert_eq!(r, p);
    r %= &ChromaticOctave;
    assert_eq!(r, p);

    let c = ChromaticInterval(7);
    let d = ChromaticInterval(-3);
    assert_eq!((&c + d).0, 4);
    assert_eq!((c + &d).0, 4);
    assert_eq!((&c + &d).0, 4);
    assert_eq!((&c - d).0, 10);
    assert_eq!((c - &d).0, 10);
    assert_eq!((&c - &d).0, 10);
    assert_eq!((-&c).0, -7);
    let mut e = c;
    e += &d;
    assert_eq!(e.0, 4);
    e -= &c;
    assert_eq!(e.0, -3);
    e %= &ChromaticOctave;
    assert_eq!(e.0, 9);

    let x = ChromaticPitch::new(9);
    let y = ChromaticPitch::new(16);
    assert_eq!(&x + c, y);
    assert_eq!(x + &c, y);
    assert_eq!(&x + &c, y);
    assert_eq!(&c + x, y);
    assert_eq!(c + &x, y);
    assert_eq!(&c + &x, y);
    assert_eq!(&y - c, x);
    assert_eq!(y - &c, x);
    assert_eq!(&y - &c, x);
    assert_eq!((&y - x).0, 7);
    assert_eq!((y - &x).0, 7);
    assert_eq!((&y - &x).0, 7);
    let mut z = x;
    z += &c;
    assert_eq!(z, y);
    z -= &c;
    assert_eq!(z, x);
    z %= &ChromaticOctave;
    assert_eq!(z, x);
}
