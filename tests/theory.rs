use music::theory::error::{ErrorKind, ParseError};
use music::theory::interval::Interval;
use music::theory::key::Key;
use music::theory::note::{Accidental, Letter, Note};
use music::theory::piano_key::PianoKey;
use music::theory::scale::{Length, Mode, Scale};
use music::theory::semitone::Semitones;
use std::str::FromStr;
use Accidental::{Flat, Sharp};
use Interval::{
    Maj2, Maj3, Maj6, Maj7, Min2, Min3, Min6, Min7, Octave, Perfect4, Perfect5, Tritone, Unison,
};
use Letter::{A, B, C, D, E, F, G};
use Mode::Aeolian;
use Scale::Diatonic;

fn err(kind: ErrorKind, input: &str) -> ParseError {
    ParseError { kind, input: input.to_string() }
}

const ALL_INTERVALS: [Interval; 13] = [
    Interval::Unison,
    Interval::Min2,
    Interval::Maj2,
    Interval::Min3,
    Interval::Maj3,
    Interval::Perfect4,
    Interval::Tritone,
    Interval::Perfect5,
    Interval::Min6,
    Interval::Maj6,
    Interval::Min7,
    Interval::Maj7,
    Interval::Octave,
];

const ALL_LETTERS: [Letter; 7] = [
    Letter::C,
    Letter::D,
    Letter::E,
    Letter::F,
    Letter::G,
    Letter::A,
    Letter::B,
];

#[test]
fn test_new_piano_key() {
    assert_eq!(
        PianoKey::default(),
        PianoKey {
            note: Note {
                letter: C,
                accidental: None
            },
            octave: 0
        }
    );
    assert_eq!(
        PianoKey::new("A4").unwrap(),
        PianoKey {
            note: Note {
                letter: A,
                accidental: None
            },
            octave: 4
        }
    );
    assert_eq!(
        PianoKey::new("G♭2").unwrap(),
        PianoKey {
            note: Note {
                letter: G,
                accidental: Some(Flat)
            },
            octave: 2
        }
    );
    assert_eq!(
        PianoKey::new("Gb2").unwrap(),
        PianoKey {
            note: Note {
                letter: G,
                accidental: Some(Flat)
            },
            octave: 2
        }
    );
    assert_eq!(
        PianoKey::new("F#8").unwrap(),
        PianoKey {
            note: Note {
                letter: F,
                accidental: Some(Sharp)
            },
            octave: 8
        }
    );
}

#[test]
fn test_add_interval() {
    assert_eq!(Unison + Unison, Unison);
    assert_eq!(Unison + Maj3, Maj3);
    assert_eq!(Maj2 + Min3, Perfect4);
    assert_eq!(Octave + Octave, Unison);
    assert_eq!(Tritone + Tritone, Unison);
    assert_eq!(Maj7 + Min3, Maj2);
}

#[test]
fn test_sub_interval() {
    assert_eq!(Unison - Unison, Unison);
    assert_eq!(Unison - Maj3, Min6);
    assert_eq!(Maj2 - Min3, Maj7);
    assert_eq!(Octave - Octave, Unison);
    assert_eq!(Tritone - Tritone, Unison);
    assert_eq!(Maj7 - Min3, Min6);
}

#[test]
fn test_note_letter_to_interval() {
    assert_eq!(C.interval_from_c(), Unison);
    assert_eq!(D.interval_from_c(), Maj2);
    assert_eq!(E.interval_from_c(), Maj3);
    assert_eq!(F.interval_from_c(), Perfect4);
    assert_eq!(G.interval_from_c(), Perfect5);
    assert_eq!(A.interval_from_c(), Maj6);
    assert_eq!(B.interval_from_c(), Maj7);
}

#[test]
fn test_get_note_interval_from_c() {
    assert_eq!(Note::from_str("A").unwrap().interval_from_c(), Maj6);
    assert_eq!(Note::from_str("A#").unwrap().interval_from_c(), Min7);
    assert_eq!(Note::from_str("Bb").unwrap().interval_from_c(), Min7);
    assert_eq!(Note::from_str("B").unwrap().interval_from_c(), Maj7);
    assert_eq!(Note::from_str("C").unwrap().interval_from_c(), Unison);
    assert_eq!(Note::from_str("C#").unwrap().interval_from_c(), Min2);
    assert_eq!(Note::from_str("D").unwrap().interval_from_c(), Maj2);
    assert_eq!(Note::from_str("D#").unwrap().interval_from_c(), Min3);
    assert_eq!(Note::from_str("E").unwrap().interval_from_c(), Maj3);
    assert_eq!(Note::from_str("F").unwrap().interval_from_c(), Perfect4);
    assert_eq!(Note::from_str("F#").unwrap().interval_from_c(), Tritone);
    assert_eq!(Note::from_str("G").unwrap().interval_from_c(), Perfect5);
    assert_eq!(Note::from_str("G#").unwrap().interval_from_c(), Min6);
}

#[test]
fn test_get_note_offset() {
    let a = Note::from_str("A").unwrap();
    assert_eq!(Note::from_str("A").unwrap().get_offset(a), Unison);
    assert_eq!(Note::from_str("A#").unwrap().get_offset(a), Min2);
    assert_eq!(Note::from_str("B").unwrap().get_offset(a), Maj2);
    assert_eq!(Note::from_str("C").unwrap().get_offset(a), Min3);
    assert_eq!(Note::from_str("C#").unwrap().get_offset(a), Maj3);
    assert_eq!(Note::from_str("D").unwrap().get_offset(a), Perfect4);
    assert_eq!(Note::from_str("D#").unwrap().get_offset(a), Tritone);
    assert_eq!(Note::from_str("E").unwrap().get_offset(a), Perfect5);
    assert_eq!(Note::from_str("F").unwrap().get_offset(a), Min6);
    assert_eq!(Note::from_str("F#").unwrap().get_offset(a), Maj6);
    assert_eq!(Note::from_str("G").unwrap().get_offset(a), Min7);
    assert_eq!(Note::from_str("G#").unwrap().get_offset(a), Maj7);
}

#[test]
fn test_add_interval_to_note() {
    let a = Note::from_str("A").unwrap();
    assert_eq!(a + Unison, a);
    assert_eq!(a + Min2, Note::from_str("A#").unwrap());
    assert_eq!(a + Maj2, Note::from_str("B").unwrap());
    assert_eq!(a + Min3, Note::from_str("C").unwrap());
    assert_eq!(a + Maj3, Note::from_str("C#").unwrap());
    assert_eq!(a + Perfect4, Note::from_str("D").unwrap());
    assert_eq!(a + Tritone, Note::from_str("D#").unwrap());
    assert_eq!(a + Perfect5, Note::from_str("E").unwrap());
    assert_eq!(a + Min6, Note::from_str("F").unwrap());
    assert_eq!(a + Maj6, Note::from_str("F#").unwrap());
    assert_eq!(a + Min7, Note::from_str("G").unwrap());
    assert_eq!(a + Maj7, Note::from_str("G#").unwrap());
}

#[test]
fn test_c_major() {
    assert_eq!(
        &Key::new(Scale::default(), PianoKey::default(), 1).to_string(),
        "[ C D E F G A B C ]"
    )
}

#[test]
fn test_a_major() {
    assert_eq!(
        &Key::new(Scale::default(), PianoKey::from_str("A4").unwrap(), 1).to_string(),
        "[ A B C# D E F# G# A ]"
    )
}

#[test]
fn test_g_major() {
    assert_eq!(
        &Key::new(Scale::default(), PianoKey::from_str("G4").unwrap(), 1).to_string(),
        "[ G A B C D E F# G ]"
    )
}

#[test]
fn test_a_minor() {
    assert_eq!(
        &Key::new(Diatonic(Aeolian), PianoKey::from_str("A4").unwrap(), 1).to_string(),
        "[ A B C D E F G A ]"
    )
}

#[test]
fn test_semitones_to_cents() {
    assert_eq!(Semitones::from(1).cents(), 100);
    assert_eq!(Semitones::from(12).cents(), 1200);
}

#[test]
fn test_interval_to_cents() {
    assert_eq!(Semitones::from(Unison).cents(), 0);
    assert_eq!(Semitones::from(Min2).cents(), 100);
    assert_eq!(Semitones::from(Octave).cents(), 1200);
}

#[test]
fn semitones_round_trip_through_intervals() {
    for s in 0..=11i8 {
        assert_eq!(i8::from(Interval::from(Semitones::from(s))), s);
    }
}

#[test]
fn semitones_outside_one_octave_reduce() {
    assert_eq!(Interval::from(Semitones::from(12)), Interval::Unison);
    assert_eq!(Interval::from(Semitones::from(19)), Interval::Perfect5);
    assert_eq!(Interval::from(Semitones::from(127)), Interval::Perfect5);
    assert_eq!(Interval::from(Semitones::from(-1)), Interval::Maj7);
    assert_eq!(Interval::from(Semitones::from(-12)), Interval::Unison);
    assert_eq!(Interval::from(Semitones::from(-128)), Interval::Maj3);
    assert_eq!(i8::from(Interval::Octave), 12);
    assert_eq!(Semitones::from(-3).cents(), -300);
}

#[test]
fn interval_add_then_sub_cancels() {
    for a in ALL_INTERVALS.iter().take(12) {
        assert_eq!(*a + Interval::Unison, *a);
        for b in ALL_INTERVALS.iter() {
            assert_eq!((*a + *b) - *b, *a);
        }
    }
    // The octave reduces to unison.
    assert_eq!(Interval::Octave + Interval::Unison, Interval::Unison);
}

#[test]
fn flats_and_wrapping_accidentals() {
    assert_eq!(Note::from_str("Cb").unwrap().interval_from_c(), Maj7);
    assert_eq!(Note::from_str("Fb").unwrap().interval_from_c(), Maj3);
    assert_eq!(Note::from_str("B#").unwrap().interval_from_c(), Unison);
    assert_eq!(Note::from_str("E#").unwrap().interval_from_c(), Perfect4);
    let c = Note::from_str("C").unwrap();
    assert_eq!(Note::from_str("Cb").unwrap().get_offset(c), Maj7);
}

#[test]
fn adding_to_flats_and_edge_letters() {
    let b_flat = Note::from_str("Bb").unwrap();
    assert_eq!(b_flat + Min2, Note::from_str("B").unwrap());
    assert_eq!(b_flat + Maj2, Note::from_str("C").unwrap());
    let e = Note::from_str("E").unwrap();
    assert_eq!(e + Min2, Note::from_str("F").unwrap());
    let e_sharp = Note::from_str("E#").unwrap();
    assert_eq!(e_sharp + Min2, Note::from_str("F").unwrap());
    assert_eq!(Note::from_str("G").unwrap() + Octave, Note::from_str("G").unwrap());
}

#[test]
fn notes_from_intervals_above_c() {
    assert_eq!(Note::from(Interval::Unison), Note::from_str("C").unwrap());
    assert_eq!(Note::from(Interval::Tritone), Note::from_str("F#").unwrap());
    assert_eq!(Note::from(Interval::Maj7), Note::from_str("B").unwrap());
    assert_eq!(Note::from(Interval::Octave), Note::from_str("C").unwrap());
}

#[test]
fn printed_notes_read_back() {
    for letter in ALL_LETTERS.iter() {
        for accidental in [None, Some(Accidental::Flat), Some(Accidental::Sharp)] {
            let note = Note { accidental, letter: *letter };
            let text = note.to_string();
            assert_eq!(Note::from_str(&text).unwrap(), note);
        }
    }
    assert_eq!(Note { accidental: Some(Accidental::Flat), letter: Letter::B }.to_string(), "B♭");
    assert_eq!(Accidental::Sharp.to_string(), "#");
}

#[test]
fn note_parse_errors() {
    assert_eq!(Note::from_str(""), Err(err(ErrorKind::InvalidNote, "")));
    assert_eq!(Note::from_str("H"), Err(err(ErrorKind::InvalidNote, "H")));
    assert_eq!(Note::from_str("Cx"), Err(err(ErrorKind::InvalidAccidental, "x")));
    assert_eq!(Note::from_str("C#x"), Err(err(ErrorKind::InvalidNote, "C#x")));
    assert_eq!(Note::from_str("f#"), Ok(Note { accidental: Some(Accidental::Sharp), letter: Letter::F }));
    assert_eq!(Letter::from_str("g"), Ok(Letter::G));
    assert_eq!(Letter::from_upper("G"), Some(Letter::G));
    assert_eq!(Letter::from_upper("g"), None);
    assert_eq!(Accidental::from_str("♭"), Ok(Accidental::Flat));
    assert_eq!(Accidental::from_str("B"), Err(err(ErrorKind::InvalidAccidental, "B")));
}

#[test]
fn piano_key_parse_errors() {
    assert_eq!(PianoKey::new("A9"), Err(err(ErrorKind::InvalidOctave, "9")));
    assert_eq!(PianoKey::new("Q7"), Err(err(ErrorKind::InvalidNote, "Q")));
    assert_eq!(PianoKey::new(""), Err(err(ErrorKind::InvalidNote, "")));
    assert_eq!(PianoKey::new("C"), Err(err(ErrorKind::InvalidOctave, "C")));
    assert_eq!(PianoKey::new("4"), Err(err(ErrorKind::InvalidNote, "")));
    assert_eq!(PianoKey::new("Cx4"), Err(err(ErrorKind::InvalidAccidental, "x")));
    assert_eq!(PianoKey::new("C10"), Err(err(ErrorKind::InvalidAccidental, "1")));
    assert!(PianoKey::new("F#8").is_ok());
    assert_eq!(PianoKey::new("a0").unwrap().note.letter, Letter::A);
    assert_eq!(PianoKey::max_octave(), 8);
}

#[test]
fn piano_keys_print() {
    assert_eq!(PianoKey::new("C#4").unwrap().to_string(), "C#4");
    assert_eq!(PianoKey::new("Gb2").unwrap().to_string(), "G♭2");
    let high = PianoKey { note: Note::default(), octave: 200 };
    assert_eq!(high.to_string(), "C200");
    let mid = PianoKey { note: Note::default(), octave: 42 };
    assert_eq!(mid.to_string(), "C42");
}

#[test]
fn piano_key_positions_ignore_accidentals() {
    assert_eq!(PianoKey::new("A4").unwrap().semitones_above_c0(), Semitones::from(57));
    assert_eq!(PianoKey::default().semitones_above_c0(), Semitones::from(0));
    assert_eq!(PianoKey::new("B8").unwrap().semitones_above_c0(), Semitones::from(107));
    assert_eq!(
        PianoKey::new("F#4").unwrap().semitones_above_c0(),
        PianoKey::new("F4").unwrap().semitones_above_c0()
    );
}

#[test]
fn scale_intervals() {
    assert_eq!(Scale::Chromatic.get_intervals(), vec![Min2; 12]);
    assert_eq!(
        Scale::default().get_intervals(),
        vec![Maj2, Maj2, Min2, Maj2, Maj2, Maj2, Min2]
    );
    assert_eq!(
        Scale::Diatonic(Mode::Dorian).get_intervals(),
        vec![Maj2, Min2, Maj2, Maj2, Maj2, Min2, Maj2]
    );
    assert_eq!(
        Scale::Diatonic(Mode::Locrian).get_intervals(),
        vec![Min2, Maj2, Maj2, Min2, Maj2, Maj2, Maj2]
    );
    assert_eq!(Scale::Tetratonic.get_intervals(), vec![Maj3, Min3, Perfect4]);
    assert_eq!(Length::Tetratonic.count(), 4);
    assert_eq!(Length::Heptatonic.count(), 7);
    assert_eq!(Length::Dodecatonic.count(), 12);
}

#[test]
fn scale_names() {
    assert_eq!(Scale::from_str("minor"), Ok(Scale::Diatonic(Mode::Aeolian)));
    assert_eq!(Scale::from_str("MAJOR"), Ok(Scale::Diatonic(Mode::Ionian)));
    assert_eq!(Scale::from_str("Dorian"), Ok(Scale::Diatonic(Mode::Dorian)));
    assert_eq!(Scale::from_str("mixolydian"), Ok(Scale::Diatonic(Mode::Mixolydian)));
    assert_eq!(Scale::from_str("chromatic"), Ok(Scale::Chromatic));
    assert_eq!(Scale::from_str("Tetratonic"), Ok(Scale::Tetratonic));
    assert_eq!(Scale::from_str("bogus"), Err(err(ErrorKind::UnknownScale, "bogus")));
    assert_eq!(Scale::from_upper("LOCRIAN"), Some(Scale::Diatonic(Mode::Locrian)));
    assert_eq!(Scale::from_upper("locrian"), None);
    assert_eq!(Scale::default().to_string(), "major scale");
    assert_eq!(Scale::Diatonic(Mode::Aeolian).to_string(), "minor scale");
    assert_eq!(Scale::Diatonic(Mode::Dorian).to_string(), "dorian mode");
    assert_eq!(Scale::Chromatic.to_string(), "chromatic scale");
}

#[test]
fn circle_of_fifths_keys() {
    let keys = Scale::circle_of_fifths(Mode::Ionian);
    let bases: Vec<String> = keys.iter().map(|k| k.base_note.to_string()).collect();
    assert_eq!(
        bases,
        vec!["C4", "G4", "D4", "A4", "E4", "B4", "F#4", "C#4", "G#4", "D#4", "A#4", "F4"]
    );
    for k in keys.iter() {
        assert_eq!(k.octaves, 1);
        assert_eq!(k.scale, Scale::Diatonic(Mode::Ionian));
    }
    assert_eq!(keys[1].to_string(), "[ G A B C D E F# G ]");
}

#[test]
fn key_octaves_are_clamped() {
    let top = PianoKey::new("C8").unwrap();
    assert_eq!(Key::new(Scale::default(), top, 1).octaves, 0);
    let seven = PianoKey::new("C7").unwrap();
    assert_eq!(Key::new(Scale::default(), seven, 5).octaves, 1);
    let zero = PianoKey::new("C0").unwrap();
    assert_eq!(Key::new(Scale::default(), zero, 255).octaves, 8);
    assert_eq!(Key::new(Scale::default(), zero, 3).octaves, 3);
    assert_eq!(Key::default().octaves, 0);
}

#[test]
fn key_notes_and_all_keys() {
    let c4 = PianoKey::new("C4").unwrap();
    let key = Key::new(Scale::Tetratonic, c4, 1);
    assert_eq!(key.to_string(), "[ C E G C ]");
    let two = Key::new(Scale::default(), c4, 2);
    let keys = two.all_keys();
    assert_eq!(keys.len(), 16);
    assert_eq!(keys[0], c4);
    assert_eq!(keys[7], c4);
    assert_eq!(keys[8], PianoKey::new("C5").unwrap());
    assert_eq!(keys[15], PianoKey::new("C5").unwrap());
    assert_eq!(keys[9], PianoKey::new("D5").unwrap());
    assert!(Key::new(Scale::default(), c4, 0).all_keys().is_empty());
    let past_top = Key { base_note: PianoKey::new("A7").unwrap(), octaves: 3, scale: Scale::default() };
    let keys = past_top.all_keys();
    assert_eq!(keys.len(), 24);
    assert_eq!(keys[8], PianoKey::new("A8").unwrap());
    assert_eq!(keys[16], PianoKey::new("A8").unwrap());
    assert_eq!(Key::new(Scale::Chromatic, c4, 1).get_notes().len(), 13);
}

#[test]
fn printed_piano_keys_read_back() {
    for letter in ALL_LETTERS.iter() {
        for accidental in [None, Some(Flat), Some(Sharp)] {
            for octave in 0..=8u8 {
                let key = PianoKey { note: Note { accidental, letter: *letter }, octave };
                assert_eq!(PianoKey::from_str(&key.to_string()), Ok(key));
            }
        }
    }
}

#[test]
fn every_scale_ends_on_its_base_note() {
    let scales = [
        Scale::Chromatic,
        Scale::Tetratonic,
        Diatonic(Mode::Ionian),
        Diatonic(Mode::Dorian),
        Diatonic(Mode::Phrygian),
        Diatonic(Mode::Lydian),
        Diatonic(Mode::Mixolydian),
        Diatonic(Aeolian),
        Diatonic(Mode::Locrian),
    ];
    for scale in scales {
        let total: i32 = scale.get_intervals().iter().map(|i| i32::from(i8::from(*i))).sum();
        assert_eq!(total, 12);
        for base in ["C4", "Bb3", "E#2", "F#5"] {
            let base = PianoKey::new(base).unwrap();
            let notes = Key::new(scale, base, 1).get_notes();
            assert_eq!(notes[0], base.note);
            assert_eq!(*notes.last().unwrap(), base.note);
        }
    }
    let d = PianoKey::new("D3").unwrap();
    assert_eq!(Key::new(Scale::Tetratonic, d, 1).to_string(), "[ D F# A D ]");
}
