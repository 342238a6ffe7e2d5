//! The tablature document: measures of rhythmic values built from notes and rests,
//! with validated time signatures and durations.

use vstd::prelude::*;

verus! {

/// `n` is a power of two: 1, 2, 4, 8, ...
pub open spec fn is_power_of_two(n: nat) -> bool
    decreases n,
{
    if n == 0 {
        false
    } else if n == 1 {
        true
    } else {
        n % 2 == 0 && is_power_of_two(n / 2)
    }
}

/// Decides `is_power_of_two` on a byte by halving it while it is even.
pub fn power_of_two(n: u8) -> (r: bool)
    ensures
        r == is_power_of_two(n as nat),
{
    if n == 0 {
        return false;
    }
    let mut m: u8 = n;
    while m > 1 && m % 2 == 0
        invariant
            m > 0,
            is_power_of_two(m as nat) == is_power_of_two(n as nat),
        decreases m,
    {
        m = m / 2;
    }
    m == 1
}

/// A measure's beat structure: a positive numerator over a power-of-two denominator.
#[derive(Debug, Clone, Copy, PartialEq, Eq)]
pub struct TimeSignature {
    numerator: u8,
    denominator: u8,
}

impl TimeSignature {
    pub closed spec fn spec_numerator(&self) -> u8 {
        self.numerator
    }

    pub closed spec fn spec_denominator(&self) -> u8 {
        self.denominator
    }

    /// Holds of every time signature that `new` hands out.
    pub open spec fn valid(&self) -> bool {
        self.spec_numerator() > 0 && is_power_of_two(self.spec_denominator() as nat)
    }

    #[verifier::type_invariant]
    closed spec fn inv(&self) -> bool {
        self.numerator > 0 && is_power_of_two(self.denominator as nat)
    }

    /// Fails on a zero numerator, then on a zero denominator, then on a
    /// denominator that is not a power of two.
    pub fn new(numerator: u8, denominator: u8) -> (r: Result<Self, &'static str>)
        ensures
            r is Ok <==> (numerator > 0 && denominator > 0 && is_power_of_two(denominator as nat)),
            r is Ok ==> r->Ok_0.spec_numerator() == numerator && r->Ok_0.spec_denominator()
                == denominator && r->Ok_0.valid(),
            numerator == 0 ==> r is Err && r->Err_0@ == "Numerator cannot be zero"@,
            numerator > 0 && denominator == 0 ==> r is Err && r->Err_0@
                == "Denominator cannot be zero"@,
            numerator > 0 && denominator > 0 && !is_power_of_two(denominator as nat) ==> r is Err
                && r->Err_0@ == "Denominator must be a power of two"@,
    {
        if numerator == 0 {
            return Err("Numerator cannot be zero");
        }
        if denominator == 0 {
            return Err("Denominator cannot be zero");
        }
        if !power_of_two(denominator) {
            return Err("Denominator must be a power of two");
        }
        Ok(Self { numerator, denominator })
    }

    pub fn numerator(&self) -> (r: u8)
        ensures
            r == self.spec_numerator(),
    {
        self.numerator
    }

    pub fn denominator(&self) -> (r: u8)
        ensures
            r == self.spec_denominator(),
    {
        self.denominator
    }
}

/// A rhythmic length as a fraction with a positive numerator and denominator.
#[derive(Debug, Clone, Copy, PartialEq, Eq)]
pub struct Duration {
    numerator: u8,
    denominator: u8,
}

impl Duration {
    pub closed spec fn spec_numerator(&self) -> u8 {
        self.numerator
    }

    pub closed spec fn spec_denominator(&self) -> u8 {
        self.denominator
    }

    /// Holds of every duration that `new` hands out.
    pub open spec fn valid(&self) -> bool {
        self.spec_numerator() > 0 && self.spec_denominator() > 0
    }

    #[verifier::type_invariant]
    closed spec fn inv(&self) -> bool {
        self.numerator > 0 && self.denominator > 0
    }

    /// Fails on a zero numerator, then on a zero denominator.
    pub fn new(numerator: u8, denominator: u8) -> (r: Result<Self, &'static str>)
        ensures
            r is Ok <==> (numerator > 0 && denominator > 0),
            r is Ok ==> r->Ok_0.spec_numerator() == numerator && r->Ok_0.spec_denominator()
                == denominator && r->Ok_0.valid(),
            numerator == 0 ==> r is Err && r->Err_0@ == "Numerator cannot be zero"@,
            numerator > 0 && denominator == 0 ==> r is Err && r->Err_0@
                == "Denominator cannot be zero"@,
    {
        if numerator == 0 {
            return Err("Numerator cannot be zero");
        }
        if denominator == 0 {
            return Err("Denominator cannot be zero");
        }
        Ok(Self { numerator, denominator })
    }

    pub fn numerator(&self) -> (r: u8)
        ensures
            r == self.spec_numerator(),
    {
        self.numerator
    }

    pub fn denominator(&self) -> (r: u8)
        ensures
            r == self.spec_denominator(),
    {
        self.denominator
    }
}

/// Which way a slide moves along the neck.
#[derive(Debug, Clone, Copy, PartialEq, Eq)]
pub enum Direction {
    Up,
    Down,
}

/// One fretted note of a chord. Built with `new` and refined by the setters,
/// each of which changes one field and leaves the others.
#[derive(Debug, Clone, Copy, PartialEq, Eq)]
pub struct Note {
    pub string: u8,
    pub duration: Duration,
    pub fret: u8,
    pub slide_in: Option<Direction>,
    pub slide_out: Option<Direction>,
    pub tap: bool,
    pub tie: bool,
}

impl Note {
    /// A note on `string`, fret 0, with no slides, no tap and no tie.
    pub fn new(string: u8, duration: Duration) -> (r: Self)
        ensures
            r == (Note {
                string,
                duration,
                fret: 0,
                slide_in: None,
                slide_out: None,
                tap: false,
                tie: false,
            }),
    {
        Self {
            string,
            duration,
            fret: 0,
            slide_in: None,
            slide_out: None,
            tap: false,
            tie: false,
        }
    }

    pub fn fret(self, fret: u8) -> (r: Self)
        ensures
            r == (Note { fret, ..self }),
    {
        let mut n = self;
        n.fret = fret;
        n
    }

    pub fn slide_in(self, direction: Direction) -> (r: Self)
        ensures
            r == (Note { slide_in: Some(direction), ..self }),
    {
        let mut n = self;
        n.slide_in = Some(direction);
        n
    }

    pub fn slide_out(self, direction: Direction) -> (r: Self)
        ensures
            r == (Note { slide_out: Some(direction), ..self }),
    {
        let mut n = self;
        n.slide_out = Some(direction);
        n
    }

    pub fn tap(self, tap: bool) -> (r: Self)
        ensures
            r == (Note { tap, ..self }),
    {
        let mut n = self;
        n.tap = tap;
        n
    }

    pub fn tie(self, tie: bool) -> (r: Self)
        ensures
            r == (Note { tie, ..self }),
    {
        let mut n = self;
        n.tie = tie;
        n
    }
}

/// A silent slot of the given length.
#[derive(Debug, Clone, Copy, PartialEq, Eq)]
pub struct Rest {
    pub duration: Duration,
}

impl Rest {
    pub fn new(duration: Duration) -> (r: Self)
        ensures
            r == (Rest { duration }),
    {
        Self { duration }
    }
}

/// One time slot of a measure: a chord of notes, or a rest; never both.
#[derive(Debug)]
pub enum RhythmValue {
    Notes(Vec<Note>),
    Rest(Rest),
}

/// The notes of a slot, in insertion order; a rest has none.
pub open spec fn notes_of(v: RhythmValue) -> Seq<Note> {
    match v {
        RhythmValue::Notes(notes) => notes@,
        RhythmValue::Rest(_) => Seq::empty(),
    }
}

impl RhythmValue {
    /// Appends `note` to a chord. A rest is replaced by a chord of `note` alone:
    /// the rest's duration is dropped, not merged.
    pub fn add_note(&mut self, note: Note)
        ensures
            *final(self) is Notes,
            notes_of(*final(self)) == notes_of(*old(self)).push(note),
            *old(self) is Rest ==> notes_of(*final(self)) == seq![note],
    {
        match self {
            RhythmValue::Notes(notes) => notes.push(note),
            RhythmValue::Rest(_) => {
                let mut notes: Vec<Note> = Vec::new();
                notes.push(note);
                *self = RhythmValue::Notes(notes);
            },
        }
        proof {
            if *old(self) is Rest {
                assert(Seq::<Note>::empty().push(note) =~= seq![note]);
            }
        }
    }
}

/// One metrical unit: a time signature and an ordered list of slots.
#[derive(Debug)]
pub struct Measure {
    pub time_signature: TimeSignature,
    pub contents: Vec<RhythmValue>,
}

impl Measure {
    /// An empty measure under `time_signature`.
    pub fn new(time_signature: TimeSignature) -> (r: Self)
        ensures
            r.time_signature == time_signature,
            r.contents@ == Seq::<RhythmValue>::empty(),
    {
        Self { time_signature, contents: Vec::new() }
    }

    /// Replaces the time signature; the contents are kept as they are.
    pub fn set_time_signature(&mut self, time_signature: TimeSignature)
        ensures
            final(self).time_signature == time_signature,
            final(self).contents@ == old(self).contents@,
    {
        self.time_signature = time_signature;
    }

    /// Removes every slot; the time signature is kept.
    pub fn clear_content(&mut self)
        ensures
            final(self).time_signature == old(self).time_signature,
            final(self).contents@ == Seq::<RhythmValue>::empty(),
    {
        self.contents.clear();
    }
}

/// The document: an ordered list of measures.
#[derive(Debug)]
pub struct Tab {
    pub measures: Vec<Measure>,
}

impl Tab {
    /// A document with no measures.
    pub fn new() -> (r: Self)
        ensures
            r.measures@ == Seq::<Measure>::empty(),
    {
        Self { measures: Vec::new() }
    }

    /// Appends `measure` after the last one.
    pub fn add_measure(&mut self, measure: Measure)
        ensures
            final(self).measures@ == old(self).measures@.push(measure),
    {
        self.measures.push(measure);
    }
}

/// What a renderer of a `Tab` keeps between frames: the string under selection.
#[derive(Debug, Clone, Copy, PartialEq, Eq)]
pub struct TabState {
    pub selected_string: u8,
}

} // verus!
