use termtab::tab::{power_of_two, Direction, Duration, Measure, Note, Rest, RhythmValue, Tab, TimeSignature};

#[test]
fn time_signature_accepts_power_of_two_denominators() {
    for d in [1u8, 2, 4, 8, 16, 32, 64, 128] {
        let t = TimeSignature::new(3, d).unwrap();
        assert_eq!(t.numerator(), 3);
        assert_eq!(t.denominator(), d);
    }
}

#[test]
fn time_signature_rejects_zero_numerator() {
    assert_eq!(TimeSignature::new(0, 4).unwrap_err(), "Numerator cannot be zero");
    assert_eq!(TimeSignature::new(0, 0).unwrap_err(), "Numerator cannot be zero");
}

#[test]
fn time_signature_rejects_zero_denominator() {
    assert_eq!(TimeSignature::new(4, 0).unwrap_err(), "Denominator cannot be zero");
}

#[test]
fn time_signature_rejects_other_denominators() {
    for d in [3u8, 6, 12, 255] {
        assert_eq!(TimeSignature::new(4, d).unwrap_err(), "Denominator must be a power of two");
    }
}

#[test]
fn time_signature_success_matches_rule_on_all_bytes() {
    for n in 0..=255u8 {
        for d in 0..=255u8 {
            let expected = n > 0 && d > 0 && d.is_power_of_two();
            assert_eq!(TimeSignature::new(n, d).is_ok(), expected);
        }
    }
}

#[test]
fn power_of_two_on_bytes() {
    for n in 0..=255u8 {
        assert_eq!(power_of_two(n), n.is_power_of_two());
    }
}

#[test]
fn duration_accepts_any_positive_fraction() {
    let d = Duration::new(3, 7).unwrap();
    assert_eq!(d.numerator(), 3);
    assert_eq!(d.denominator(), 7);
}

#[test]
fn duration_errors() {
    assert_eq!(Duration::new(0, 4).unwrap_err(), "Numerator cannot be zero");
    assert_eq!(Duration::new(1, 0).unwrap_err(), "Denominator cannot be zero");
}

#[test]
fn duration_success_matches_rule_on_all_bytes() {
    for n in 0..=255u8 {
        for d in 0..=255u8 {
            assert_eq!(Duration::new(n, d).is_ok(), n > 0 && d > 0);
        }
    }
}

#[test]
fn note_defaults_and_setters() {
    let quarter = Duration::new(1, 4).unwrap();
    let n = Note::new(2, quarter);
    assert_eq!(n.string, 2);
    assert_eq!(n.duration, quarter);
    assert_eq!(n.fret, 0);
    assert_eq!(n.slide_in, None);
    assert_eq!(n.slide_out, None);
    assert!(!n.tap);
    assert!(!n.tie);
    let m = n.fret(7).slide_in(Direction::Up).slide_out(Direction::Down).tap(true).tie(true);
    assert_eq!(m.string, 2);
    assert_eq!(m.fret, 7);
    assert_eq!(m.slide_in, Some(Direction::Up));
    assert_eq!(m.slide_out, Some(Direction::Down));
    assert!(m.tap);
    assert!(m.tie);
}

#[test]
fn note_setter_order_does_not_matter() {
    let d = Duration::new(1, 8).unwrap();
    let a = Note::new(1, d).fret(3).tie(true).slide_in(Direction::Down);
    let b = Note::new(1, d).slide_in(Direction::Down).tie(true).fret(3);
    assert_eq!(a, b);
}

#[test]
fn add_note_replaces_rest_and_drops_its_duration() {
    let quarter = Duration::new(1, 4).unwrap();
    let half = Duration::new(1, 2).unwrap();
    let mut v = RhythmValue::Rest(Rest::new(half));
    let note = Note::new(0, quarter);
    v.add_note(note);
    match v {
        RhythmValue::Notes(notes) => {
            assert_eq!(notes, vec![note]);
            assert_eq!(notes[0].duration, quarter);
        }
        RhythmValue::Rest(_) => panic!("a rest is left"),
    }
}

#[test]
fn add_note_on_quarter_rest_gives_one_note_chord() {
    let quarter = Duration::new(1, 4).unwrap();
    let mut v = RhythmValue::Rest(Rest::new(quarter));
    v.add_note(Note::new(0, quarter));
    match v {
        RhythmValue::Notes(notes) => {
            assert_eq!(notes.len(), 1);
            assert_eq!(notes[0].string, 0);
        }
        RhythmValue::Rest(_) => panic!("a rest is left"),
    }
}

#[test]
fn add_note_appends_to_chord_in_order() {
    let d = Duration::new(1, 4).unwrap();
    let mut v = RhythmValue::Notes(vec![Note::new(0, d)]);
    v.add_note(Note::new(3, d));
    v.add_note(Note::new(5, d));
    match v {
        RhythmValue::Notes(notes) => {
            let strings: Vec<u8> = notes.iter().map(|n| n.string).collect();
            assert_eq!(strings, vec![0, 3, 5]);
        }
        RhythmValue::Rest(_) => panic!("a rest appeared"),
    }
}

#[test]
fn measure_lifecycle() {
    let four_four = TimeSignature::new(4, 4).unwrap();
    let three_eight = TimeSignature::new(3, 8).unwrap();
    let mut m = Measure::new(four_four);
    assert_eq!(m.time_signature, four_four);
    assert!(m.contents.is_empty());
    m.contents.push(RhythmValue::Rest(Rest::new(Duration::new(1, 4).unwrap())));
    m.set_time_signature(three_eight);
    assert_eq!(m.time_signature, three_eight);
    assert_eq!(m.contents.len(), 1);
    m.clear_content();
    assert!(m.contents.is_empty());
    assert_eq!(m.time_signature, three_eight);
}

#[test]
fn tab_starts_empty_and_grows() {
    let mut t = Tab::new();
    assert!(t.measures.is_empty());
    t.add_measure(Measure::new(TimeSignature::new(4, 4).unwrap()));
    t.add_measure(Measure::new(TimeSignature::new(6, 8).unwrap()));
    assert_eq!(t.measures.len(), 2);
    assert_eq!(t.measures[1].time_signature.numerator(), 6);
}
