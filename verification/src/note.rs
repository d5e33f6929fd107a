//! Notes, their nominal lengths and the patterns made of them.
//!
//! A note is sized when it is made: its duration is its nominal length at
//! the tempo of that moment, in whole microseconds, and stays what it was
//! whatever the tempo does afterwards.

use crate::tempo::Tempo;
use vstd::arithmetic::div_mod::lemma_div_denominator;
use vstd::arithmetic::div_mod::lemma_div_is_ordered_by_denominator;
use vstd::prelude::*;

verus! {

/// How long a sixteenth note lasts at a tempo of one thousandth of a beat per
/// minute, in microseconds. A beat, which is a quarter note, lasts a minute
/// at one beat per minute and a thousand minutes at a thousandth of that; a
/// sixteenth note is a quarter of a beat.
pub const SIXTEENTH_MICROS_AT_UNIT_TEMPO: u64 = 15_000_000_000;

/// The largest pitch and the largest velocity.
pub const MAX_DATA_BYTE: u8 = 127;

/// The nominal length of a note.
#[derive(Clone, Copy, Debug, PartialEq, Eq)]
pub enum NoteDuration {
    Whole,
    Half,
    Quarter,
    Eighth,
    Sixteenth,
}

impl NoteDuration {
    /// The length in sixteenth notes.
    pub open spec fn spec_sixteenths(&self) -> u64 {
        match self {
            NoteDuration::Whole => 16,
            NoteDuration::Half => 8,
            NoteDuration::Quarter => 4,
            NoteDuration::Eighth => 2,
            NoteDuration::Sixteenth => 1,
        }
    }

    /// The length in sixteenth notes.
    #[verifier::when_used_as_spec(spec_sixteenths)]
    pub fn sixteenths(&self) -> (count: u64)
        ensures
            count == self.spec_sixteenths(),
    {
        match self {
            NoteDuration::Whole => 16,
            NoteDuration::Half => 8,
            NoteDuration::Quarter => 4,
            NoteDuration::Eighth => 2,
            NoteDuration::Sixteenth => 1,
        }
    }

    /// The time this length takes at `bpm`, in whole microseconds.
    pub fn micros_at(&self, bpm: Tempo) -> (micros: u64)
        ensures
            micros == note_micros(*self, bpm@),
    {
        let at_unit_tempo: u64 = SIXTEENTH_MICROS_AT_UNIT_TEMPO * self.sixteenths();
        at_unit_tempo / (bpm.milli_bpm() as u64)
    }
}

/// The time that a note of the given length takes at a tempo of `milli_bpm`
/// thousandths of a beat per minute, in whole microseconds: sixty seconds
/// over the tempo in beats per minute for each beat of its length, rounded
/// down.
pub open spec fn note_micros(length: NoteDuration, milli_bpm: nat) -> nat {
    ((SIXTEENTH_MICROS_AT_UNIT_TEMPO * length.sixteenths()) / (milli_bpm as int)) as nat
}

/// Duration is inversely proportional to tempo: at `factor` times the tempo a
/// note takes one `factor`-th of the time, rounded down. At twice the tempo
/// it takes half.
pub proof fn lemma_duration_inverse_to_tempo(length: NoteDuration, milli_bpm: nat, factor: nat)
    requires
        milli_bpm > 0,
        factor > 0,
    ensures
        note_micros(length, factor * milli_bpm) == note_micros(length, milli_bpm) / factor,
        note_micros(length, 2 * milli_bpm) == note_micros(length, milli_bpm) / 2,
{
    let at_unit_tempo = (SIXTEENTH_MICROS_AT_UNIT_TEMPO * length.sixteenths()) as int;
    lemma_div_denominator(at_unit_tempo, milli_bpm as int, factor as int);
    lemma_div_denominator(at_unit_tempo, milli_bpm as int, 2);
    assert(milli_bpm * factor == factor * milli_bpm) by (nonlinear_arith);
}

/// No note takes longer than a whole note at the slowest tempo, which is
/// 240 000 seconds.
pub proof fn lemma_note_micros_bound(length: NoteDuration, milli_bpm: nat)
    requires
        milli_bpm > 0,
    ensures
        note_micros(length, milli_bpm) <= note_micros(NoteDuration::Whole, 1) == 240_000_000_000,
{
    let at_unit_tempo = (SIXTEENTH_MICROS_AT_UNIT_TEMPO * length.sixteenths()) as int;
    lemma_div_is_ordered_by_denominator(at_unit_tempo, 1, milli_bpm as int);
}

/// One step of a pattern: what to sound, how loud and for how long.
///
/// Pitch and velocity are at most 127. A note cannot be changed once made.
#[derive(Clone, Copy, Debug, PartialEq, Eq)]
pub struct Note {
    pitch: u8,
    velocity: u8,
    micros: u64,
    bpm: Tempo,
}

impl Note {
    /// What holds of every note that executable code can hold: pitch and
    /// velocity are at most 127, and the tempo it was sized at is a tempo.
    #[verifier::type_invariant]
    pub closed spec fn wf(self) -> bool {
        &&& self.pitch <= MAX_DATA_BYTE
        &&& self.velocity <= MAX_DATA_BYTE
        &&& self.bpm.wf()
    }

    /// The pitch.
    pub closed spec fn spec_pitch(&self) -> u8 {
        self.pitch
    }

    /// The velocity.
    pub closed spec fn spec_velocity(&self) -> u8 {
        self.velocity
    }

    /// How long the note is held, in microseconds.
    pub closed spec fn spec_duration_micros(&self) -> u64 {
        self.micros
    }

    /// The tempo at which the note was sized.
    pub closed spec fn spec_bpm(&self) -> Tempo {
        self.bpm
    }

    /// Whether the note is heard: its velocity is not zero.
    pub open spec fn spec_is_audible(&self) -> bool {
        self.velocity() > 0
    }

    /// Whether the note is a rest: pitch and velocity are both zero.
    pub open spec fn spec_is_rest(&self) -> bool {
        self.pitch() == 0 && self.velocity() == 0
    }

    /// The note of the given pitch, velocity and nominal length, sized at the
    /// tempo `bpm`.
    pub closed spec fn of(pitch: u8, velocity: u8, length: NoteDuration, bpm: Tempo) -> Note {
        Note { pitch, velocity, micros: note_micros(length, bpm@) as u64, bpm }
    }

    /// `of` makes the note that it is asked for: it has the pitch, the
    /// velocity and the tempo given, and lasts as long as the nominal length
    /// takes at that tempo.
    pub proof fn lemma_of(pitch: u8, velocity: u8, length: NoteDuration, bpm: Tempo)
        requires
            bpm.wf(),
        ensures
            Note::of(pitch, velocity, length, bpm).pitch() == pitch,
            Note::of(pitch, velocity, length, bpm).velocity() == velocity,
            Note::of(pitch, velocity, length, bpm).duration_micros() == note_micros(length, bpm@),
            Note::of(pitch, velocity, length, bpm).bpm() == bpm,
            pitch <= MAX_DATA_BYTE && velocity <= MAX_DATA_BYTE ==> Note::of(
                pitch,
                velocity,
                length,
                bpm,
            ).wf(),
    {
        bpm.lemma_view_in_range();
        lemma_note_micros_bound(length, bpm@);
    }

    /// A note of the given pitch, velocity and nominal length, sized at the
    /// tempo `bpm`.
    pub fn new(pitch: u8, velocity: u8, length: NoteDuration, bpm: Tempo) -> (note: Note)
        requires
            pitch <= MAX_DATA_BYTE,
            velocity <= MAX_DATA_BYTE,
        ensures
            note == Note::of(pitch, velocity, length, bpm),
            note.pitch() == pitch,
            note.velocity() == velocity,
            note.duration_micros() == note_micros(length, bpm@),
            note.bpm() == bpm,
    {
        proof {
            use_type_invariant(&bpm);
        }
        Note { pitch, velocity, micros: length.micros_at(bpm), bpm }
    }

    /// A silent note of the given nominal length, sized at the tempo `bpm`.
    pub fn rest(length: NoteDuration, bpm: Tempo) -> (note: Note)
        ensures
            note == Note::of(0, 0, length, bpm),
            note.is_rest(),
            note.duration_micros() == note_micros(length, bpm@),
            note.bpm() == bpm,
    {
        proof {
            use_type_invariant(&bpm);
        }
        Note { pitch: 0, velocity: 0, micros: length.micros_at(bpm), bpm }
    }

    /// The pitch, from 0 to 127.
    #[verifier::when_used_as_spec(spec_pitch)]
    pub fn pitch(&self) -> (pitch: u8)
        ensures
            pitch == self.spec_pitch(),
            pitch <= MAX_DATA_BYTE,
    {
        proof {
            use_type_invariant(self);
        }
        self.pitch
    }

    /// The velocity, from 0 to 127.
    #[verifier::when_used_as_spec(spec_velocity)]
    pub fn velocity(&self) -> (velocity: u8)
        ensures
            velocity == self.spec_velocity(),
            velocity <= MAX_DATA_BYTE,
    {
        proof {
            use_type_invariant(self);
        }
        self.velocity
    }

    /// How long the note is held, in microseconds.
    #[verifier::when_used_as_spec(spec_duration_micros)]
    pub fn duration_micros(&self) -> (micros: u64)
        ensures
            micros == self.spec_duration_micros(),
    {
        self.micros
    }

    /// The tempo at which the note was sized.
    #[verifier::when_used_as_spec(spec_bpm)]
    pub fn bpm(&self) -> (bpm: Tempo)
        ensures
            bpm == self.spec_bpm(),
            bpm.wf(),
    {
        proof {
            use_type_invariant(self);
        }
        self.bpm
    }

    /// Whether the note is heard: its velocity is not zero.
    #[verifier::when_used_as_spec(spec_is_audible)]
    pub fn is_audible(&self) -> (audible: bool)
        ensures
            audible == self.spec_is_audible(),
    {
        self.velocity > 0
    }

    /// Whether the note is a rest: pitch and velocity are both zero.
    #[verifier::when_used_as_spec(spec_is_rest)]
    pub fn is_rest(&self) -> (rest: bool)
        ensures
            rest == self.spec_is_rest(),
    {
        self.pitch == 0 && self.velocity == 0
    }
}

/// A note's duration is inversely proportional to the tempo it is made at:
/// the same note made at `factor` times the tempo lasts one `factor`-th of
/// the time, rounded down, and made at twice the tempo it lasts half.
pub proof fn lemma_note_duration_inverse_to_tempo(
    pitch: u8,
    velocity: u8,
    length: NoteDuration,
    slow: Tempo,
    fast: Tempo,
    factor: nat,
)
    requires
        slow.wf(),
        fast.wf(),
        fast@ == factor * slow@,
    ensures
        Note::of(pitch, velocity, length, fast).duration_micros() as int == (Note::of(
            pitch,
            velocity,
            length,
            slow,
        ).duration_micros() as int) / (factor as int),
{
    slow.lemma_view_in_range();
    fast.lemma_view_in_range();
    assert(factor > 0) by (nonlinear_arith)
        requires
            fast@ == factor * slow@,
            fast@ > 0,
    ;
    Note::lemma_of(pitch, velocity, length, slow);
    Note::lemma_of(pitch, velocity, length, fast);
    lemma_duration_inverse_to_tempo(length, slow@, factor);
}

/// A pattern: notes in the order in which they are played.
///
/// The view of a pattern is the sequence of its notes.
#[derive(Clone, Debug, PartialEq, Eq)]
pub struct Sequence {
    pub notes: Vec<Note>,
}

impl View for Sequence {
    type V = Seq<Note>;

    open spec fn view(&self) -> Seq<Note> {
        self.notes@
    }
}

impl Sequence {
    /// The pattern without notes.
    pub fn empty() -> (sequence: Sequence)
        ensures
            sequence@ == Seq::<Note>::empty(),
    {
        Sequence { notes: Vec::new() }
    }

    /// The number of notes.
    pub fn len(&self) -> (count: usize)
        ensures
            count == self@.len(),
    {
        self.notes.len()
    }
}

} // verus!
