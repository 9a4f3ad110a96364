use vstd::prelude::*;

use crate::hardware_interface::Frequency;
use crate::hardware_interface::A4;
use crate::hardware_interface::A_SHARP_4;
use crate::hardware_interface::B4;
use crate::hardware_interface::C4;
use crate::hardware_interface::C5;
use crate::hardware_interface::C_SHARP_4;
use crate::hardware_interface::D4;
use crate::hardware_interface::D_SHARP_4;
use crate::hardware_interface::E4;
use crate::hardware_interface::F4;
use crate::hardware_interface::F_SHARP_4;
use crate::hardware_interface::G4;
use crate::hardware_interface::G_SHARP_4;
use crate::Duration;

verus! {

/// Milliseconds in one eighth of a beat at one beat per minute.
pub const MS_PER_EIGHTH_BEAT_AT_ONE_BPM: u32 = 7500;

/// The silence after each note, in eighths of a beat (a quarter of a beat).
pub const BREAK_AFTER_EACH_NOTE_IN_EIGHTHS: u32 = 2;

/// Longest note value, in eighths of a beat.
pub const LONGEST_NOTE_IN_EIGHTHS: u32 = 16;

/// Most notes a tune of this machine holds.
pub const MAX_TUNE_NOTES: usize = 16;

/// Longest sounding part of a note at any tempo, in milliseconds.
pub const MAX_NOTE_MS: u32 = 120000;

/// Longest silence after a note at any tempo, in milliseconds.
pub const MAX_BREAK_MS: u32 = 15000;

#[derive(Debug, Clone, Copy, PartialEq, Eq, Structural)]
pub enum Length {
    Half,
    Quarter,
    DottedEighth,
    Eighth,
    DottedSixteenth,
    Sixteenth,
}

impl Length {
    /// The note value in eighths of a beat.
    pub open spec fn eighths(self) -> nat {
        match self {
            Length::Half => 16,
            Length::Quarter => 8,
            Length::DottedEighth => 6,
            Length::Eighth => 4,
            Length::DottedSixteenth => 3,
            Length::Sixteenth => 2,
        }
    }

    /// The note value written as its denominator: 2, 4, 8 and 16 for half to sixteenth
    /// notes, 6 and 12 for dotted eighth and dotted sixteenth.
    pub open spec fn denominator(self) -> nat {
        match self {
            Length::Half => 2,
            Length::Quarter => 4,
            Length::DottedEighth => 6,
            Length::Eighth => 8,
            Length::DottedSixteenth => 12,
            Length::Sixteenth => 16,
        }
    }

    pub open spec fn spec_as_ms(self, bpm: nat) -> nat
        recommends
            bpm > 0,
    {
        eighths_to_ms(self.eighths(), bpm)
    }

    pub fn as_ms(&self, bpm: u32) -> (r: Duration)
        requires
            bpm > 0,
        ensures
            r == self.spec_as_ms(bpm as nat),
            r <= MAX_NOTE_MS,
    {
        let eighths: u32 = match self {
            Length::Half => 16,
            Length::Quarter => 8,
            Length::DottedEighth => 6,
            Length::Eighth => 4,
            Length::DottedSixteenth => 3,
            Length::Sixteenth => 2,
        };
        factor_to_ms(eighths, bpm)
    }

    pub fn from_num(num: usize) -> (r: Self)
        requires
            num == 2 || num == 4 || num == 6 || num == 8 || num == 12 || num == 16,
        ensures
            r.denominator() == num,
    {
        match num {
            2 => Length::Half,
            4 => Length::Quarter,
            6 => Length::DottedEighth,
            8 => Length::Eighth,
            12 => Length::DottedSixteenth,
            _ => Length::Sixteenth,
        }
    }
}

/// Milliseconds that `eighths` eighths of a beat last at `bpm` beats per minute, rounded down.
pub open spec fn eighths_to_ms(eighths: nat, bpm: nat) -> nat
    recommends
        bpm > 0,
{
    ((MS_PER_EIGHTH_BEAT_AT_ONE_BPM * eighths) as int / bpm as int) as nat
}

pub fn factor_to_ms(eighths: u32, bpm: u32) -> (r: Duration)
    requires
        bpm > 0,
        eighths <= LONGEST_NOTE_IN_EIGHTHS,
    ensures
        r == eighths_to_ms(eighths as nat, bpm as nat),
        r <= MAX_NOTE_MS,
{
    assert(MS_PER_EIGHTH_BEAT_AT_ONE_BPM * eighths <= MAX_NOTE_MS);
    assert((MS_PER_EIGHTH_BEAT_AT_ONE_BPM * eighths) / (bpm as int) <= MS_PER_EIGHTH_BEAT_AT_ONE_BPM
        * eighths) by (nonlinear_arith)
        requires
            bpm > 0,
            MS_PER_EIGHTH_BEAT_AT_ONE_BPM * eighths >= 0,
    ;
    MS_PER_EIGHTH_BEAT_AT_ONE_BPM * eighths / bpm
}

pub fn delay_after_note_ms(bpm: u32) -> (r: Duration)
    requires
        bpm > 0,
    ensures
        r == eighths_to_ms(BREAK_AFTER_EACH_NOTE_IN_EIGHTHS as nat, bpm as nat),
        r <= MAX_BREAK_MS,
{
    factor_to_ms(BREAK_AFTER_EACH_NOTE_IN_EIGHTHS, bpm)
}

/// One note of a melody: what sounds, for how long, and the silence after it.
#[derive(Debug, Clone, Copy, PartialEq, Eq, Structural)]
pub struct Note {
    pub freq: Frequency,
    pub note_length: Duration,
    pub delay_after: Duration,
}

impl Note {
    pub open spec fn spec_total_length(self) -> nat {
        (self.note_length + self.delay_after) as nat
    }

    pub fn total_length(&self) -> (r: Duration)
        requires
            self.note_length + self.delay_after <= u32::MAX,
        ensures
            r == self.spec_total_length(),
    {
        self.note_length + self.delay_after
    }
}

/// A melody is a sequence of notes, played one after the other.
pub type Melody = [Note];

/// A note written in a score: a pitch (or a rest) and a note value.
pub type ScoreNote = (Frequency, Length);

/// The note that `s` becomes at `bpm` beats per minute.
pub open spec fn compile_note(s: ScoreNote, bpm: nat) -> Note {
    Note {
        freq: s.0,
        note_length: s.1.spec_as_ms(bpm) as u32,
        delay_after: eighths_to_ms(BREAK_AFTER_EACH_NOTE_IN_EIGHTHS as nat, bpm) as u32,
    }
}

/// A whole score at `bpm` beats per minute.
pub open spec fn compile_spec(score: Seq<ScoreNote>, bpm: nat) -> Seq<Note> {
    Seq::new(score.len(), |i: int| compile_note(score[i], bpm))
}

/// Notes whose whole length fits a `Duration`.
pub open spec fn playable(notes: Seq<Note>) -> bool {
    total_duration(notes) <= u32::MAX
}

/// Every note and every break within the longest that any tempo gives.
pub open spec fn notes_bounded(notes: Seq<Note>) -> bool {
    forall|i: int|
        0 <= i < notes.len() ==> #[trigger] notes[i].note_length <= MAX_NOTE_MS
            && notes[i].delay_after <= MAX_BREAK_MS
}

/// Sum of the total lengths of all notes.
pub open spec fn total_duration(notes: Seq<Note>) -> nat
    decreases notes.len(),
{
    if notes.len() == 0 {
        0
    } else {
        total_duration(notes.drop_last()) + notes.last().spec_total_length()
    }
}

pub proof fn lemma_total_duration_bound(notes: Seq<Note>)
    requires
        forall|i: int|
            0 <= i < notes.len() ==> #[trigger] notes[i].note_length <= MAX_NOTE_MS
                && notes[i].delay_after <= MAX_BREAK_MS,
    ensures
        total_duration(notes) <= notes.len() * (MAX_NOTE_MS + MAX_BREAK_MS),
    decreases notes.len(),
{
    if notes.len() > 0 {
        let init = notes.drop_last();
        assert forall|i: int| 0 <= i < init.len() implies #[trigger] init[i].note_length
            <= MAX_NOTE_MS && init[i].delay_after <= MAX_BREAK_MS by {
            assert(init[i] == notes[i]);
        }
        lemma_total_duration_bound(init);
        assert(notes[notes.len() - 1].note_length <= MAX_NOTE_MS);
        assert(init.len() * (MAX_NOTE_MS + MAX_BREAK_MS) + (MAX_NOTE_MS + MAX_BREAK_MS)
            == notes.len() * (MAX_NOTE_MS + MAX_BREAK_MS)) by (nonlinear_arith)
            requires
                init.len() + 1 == notes.len(),
        ;
    }
}

/// The first `k` notes last no longer than all of them.
pub proof fn lemma_total_duration_prefix(notes: Seq<Note>, k: int)
    requires
        0 <= k <= notes.len(),
    ensures
        total_duration(notes.take(k)) <= total_duration(notes),
    decreases notes.len(),
{
    if k == notes.len() {
        assert(notes.take(k) =~= notes);
    } else {
        let init = notes.drop_last();
        assert(notes.take(k) =~= init.take(k));
        lemma_total_duration_prefix(init, k);
    }
}

/// Any first part of a playable melody is playable.
pub proof fn lemma_playable_fits(notes: Seq<Note>, k: int)
    requires
        playable(notes),
        0 <= k <= notes.len(),
    ensures
        total_duration(notes.take(k)) <= u32::MAX,
        playable(notes.take(k)),
{
    lemma_total_duration_prefix(notes, k);
}

/// Turns a score into a melody at `bpm` beats per minute: each note sounds for its value
/// and is followed by a quarter of a beat of silence, both rounded down to milliseconds.
pub fn compile(score: &[ScoreNote], bpm: u32) -> (r: Vec<Note>)
    requires
        bpm > 0,
    ensures
        r@ == compile_spec(score@, bpm as nat),
        notes_bounded(r@),
{
    let mut r: Vec<Note> = Vec::new();
    let gap = delay_after_note_ms(bpm);
    let mut i: usize = 0;
    while i < score.len()
        invariant
            i <= score@.len(),
            bpm > 0,
            gap == eighths_to_ms(BREAK_AFTER_EACH_NOTE_IN_EIGHTHS as nat, bpm as nat),
            gap <= MAX_BREAK_MS,
            r@ == compile_spec(score@.take(i as int), bpm as nat),
            notes_bounded(r@),
        decreases score@.len() - i,
    {
        let (freq, length) = score[i];
        let note = Note { freq, note_length: length.as_ms(bpm), delay_after: gap };
        r.push(note);
        i = i + 1;
        assert(r@ =~= compile_spec(score@.take(i as int), bpm as nat));
    }
    assert(score@.take(score@.len() as int) =~= score@);
    r
}

/// The melodies the machine plays.
#[derive(Debug, Clone, Copy, PartialEq, Eq, Structural)]
pub enum Tune {
    Beethoven9,
    Beethoven5,
    ReactionTesterWaitForReaction,
    ReactionTesterTeamWon,
    ReactionTesterEarlyStart,
    ReactionTesterGameBegins,
    ReactionTesterPlayer0Identification,
    ReactionTesterPlayer1Identification,
    ReactionTesterPlayer2Identification,
    InParis,
    BarbieGirl,
    Jingle,
    ProgramSwitching,
    ConfirmSelection,
    Error,
    RussianRoulettePlayerSelected,
    RussianRoulettePlayerNotSelected,
    ChromaticScale,
}

impl Tune {
    /// The score of the tune.
    pub open spec fn score_spec(self) -> Seq<ScoreNote> {
        match self {
            Tune::Beethoven9 => seq![
                (Frequency::Tone(E4), Length::Eighth),
                (Frequency::Tone(E4), Length::Eighth),
                (Frequency::Tone(F4), Length::Eighth),
                (Frequency::Tone(G4), Length::Eighth),
                (Frequency::Tone(G4), Length::Eighth),
                (Frequency::Tone(F4), Length::Eighth),
                (Frequency::Tone(E4), Length::Eighth),
                (Frequency::Tone(D4), Length::Eighth),
                (Frequency::Tone(C4), Length::Eighth),
                (Frequency::Tone(C4), Length::Eighth),
                (Frequency::Tone(D4), Length::Eighth),
                (Frequency::Tone(E4), Length::Eighth),
                (Frequency::Tone(E4), Length::Quarter),
                (Frequency::Tone(D4), Length::Sixteenth),
                (Frequency::Tone(D4), Length::Quarter),
            ],
            Tune::Beethoven5 => seq![
                (Frequency::Tone(F4), Length::Sixteenth),
                (Frequency::Tone(F4), Length::Sixteenth),
                (Frequency::Tone(F4), Length::Sixteenth),
                (Frequency::Tone(C_SHARP_4), Length::Half),
                (Frequency::Tone(D_SHARP_4), Length::Sixteenth),
                (Frequency::Tone(D_SHARP_4), Length::Sixteenth),
                (Frequency::Tone(D_SHARP_4), Length::Sixteenth),
                (Frequency::Tone(C4), Length::Half),
            ],
            Tune::ReactionTesterWaitForReaction => seq![
                (Frequency::Tone(F4), Length::Quarter),
            ],
            Tune::ReactionTesterTeamWon => seq![
                (Frequency::Tone(C4), Length::Eighth),
                (Frequency::Tone(D4), Length::Eighth),
                (Frequency::Tone(E4), Length::Eighth),
                (Frequency::Tone(F4), Length::Eighth),
                (Frequency::Tone(G4), Length::Quarter),
                (Frequency::Tone(G4), Length::Quarter),
            ],
            Tune::ReactionTesterEarlyStart => seq![
                (Frequency::Tone(C_SHARP_4), Length::Eighth),
                (Frequency::Tone(G4), Length::Eighth),
                (Frequency::Tone(C_SHARP_4), Length::Eighth),
                (Frequency::Tone(G4), Length::Eighth),
                (Frequency::Tone(C_SHARP_4), Length::Eighth),
                (Frequency::Tone(G4), Length::Eighth),
                (Frequency::Tone(C_SHARP_4), Length::Eighth),
                (Frequency::Tone(G4), Length::Eighth),
                (Frequency::Tone(C_SHARP_4), Length::Eighth),
                (Frequency::Tone(G4), Length::Eighth),
            ],
            Tune::ReactionTesterGameBegins => seq![
                (Frequency::Tone(C4), Length::Quarter),
                (Frequency::Tone(C4), Length::Quarter),
                (Frequency::Tone(C4), Length::Quarter),
                (Frequency::Tone(C4), Length::Quarter),
            ],
            Tune::ReactionTesterPlayer0Identification => seq![
                (Frequency::Tone(D4), Length::Sixteenth),
                (Frequency::Silence, Length::Half),
            ],
            Tune::ReactionTesterPlayer1Identification => seq![
                (Frequency::Tone(D4), Length::Sixteenth),
                (Frequency::Tone(D4), Length::Sixteenth),
                (Frequency::Silence, Length::Half),
            ],
            Tune::ReactionTesterPlayer2Identification => seq![
                (Frequency::Tone(D4), Length::Sixteenth),
                (Frequency::Tone(D4), Length::Sixteenth),
                (Frequency::Tone(D4), Length::Sixteenth),
                (Frequency::Silence, Length::Half),
            ],
            Tune::InParis => seq![
                (Frequency::Tone(F4), Length::Sixteenth),
                (Frequency::Tone(C4), Length::Sixteenth),
                (Frequency::Silence, Length::Eighth),
                (Frequency::Tone(G_SHARP_4), Length::Sixteenth),
                (Frequency::Tone(C4), Length::Sixteenth),
                (Frequency::Silence, Length::Eighth),
                (Frequency::Tone(G4), Length::Sixteenth),
                (Frequency::Tone(C4), Length::Sixteenth),
                (Frequency::Silence, Length::Eighth),
                (Frequency::Tone(F4), Length::Sixteenth),
                (Frequency::Tone(C4), Length::Sixteenth),
                (Frequency::Tone(C5), Length::Sixteenth),
            ],
            Tune::BarbieGirl => seq![
                (Frequency::Tone(G4), Length::Eighth),
                (Frequency::Tone(E4), Length::Eighth),
                (Frequency::Tone(G4), Length::Eighth),
                (Frequency::Tone(C5), Length::Eighth),
                (Frequency::Tone(A4), Length::Half),
                (Frequency::Tone(F4), Length::Eighth),
                (Frequency::Tone(D4), Length::Eighth),
                (Frequency::Tone(F4), Length::Eighth),
                (Frequency::Tone(B4), Length::Eighth),
                (Frequency::Tone(G4), Length::Quarter),
                (Frequency::Tone(F4), Length::Eighth),
                (Frequency::Tone(E4), Length::Eighth),
            ],
            Tune::Jingle => seq![
                (Frequency::Tone(C4), Length::Sixteenth),
                (Frequency::Tone(C4), Length::Sixteenth),
                (Frequency::Tone(C4), Length::Eighth),
                (Frequency::Silence, Length::Eighth),
                (Frequency::Tone(C4), Length::Sixteenth),
                (Frequency::Tone(C4), Length::Sixteenth),
                (Frequency::Tone(C4), Length::Eighth),
                (Frequency::Silence, Length::Eighth),
            ],
            Tune::ProgramSwitching => seq![
                (Frequency::Tone(C4), Length::Sixteenth),
                (Frequency::Tone(E4), Length::Sixteenth),
                (Frequency::Tone(G4), Length::Sixteenth),
                (Frequency::Tone(C4), Length::Sixteenth),
                (Frequency::Tone(E4), Length::Sixteenth),
                (Frequency::Tone(G4), Length::Sixteenth),
                (Frequency::Tone(C4), Length::Sixteenth),
                (Frequency::Tone(E4), Length::Sixteenth),
                (Frequency::Tone(G4), Length::Sixteenth),
            ],
            Tune::ConfirmSelection => seq![
                (Frequency::Tone(C4), Length::Sixteenth),
                (Frequency::Tone(G4), Length::Quarter),
                (Frequency::Tone(C4), Length::Sixteenth),
                (Frequency::Tone(G4), Length::Quarter),
            ],
            Tune::Error => seq![
                (Frequency::Tone(F_SHARP_4), Length::Sixteenth),
                (Frequency::Tone(C4), Length::Sixteenth),
            ],
            Tune::RussianRoulettePlayerSelected => seq![
                (Frequency::Tone(C4), Length::Eighth),
                (Frequency::Tone(F_SHARP_4), Length::Eighth),
                (Frequency::Tone(C4), Length::Eighth),
                (Frequency::Tone(F_SHARP_4), Length::Eighth),
                (Frequency::Tone(C4), Length::Eighth),
                (Frequency::Tone(F_SHARP_4), Length::Eighth),
            ],
            Tune::RussianRoulettePlayerNotSelected => seq![
                (Frequency::Tone(C4), Length::Quarter),
            ],
            Tune::ChromaticScale => seq![
                (Frequency::Tone(C4), Length::Eighth),
                (Frequency::Tone(C_SHARP_4), Length::Eighth),
                (Frequency::Tone(D4), Length::Eighth),
                (Frequency::Tone(D_SHARP_4), Length::Eighth),
                (Frequency::Tone(E4), Length::Eighth),
                (Frequency::Tone(F4), Length::Eighth),
                (Frequency::Tone(F_SHARP_4), Length::Eighth),
                (Frequency::Tone(G4), Length::Eighth),
                (Frequency::Tone(G_SHARP_4), Length::Eighth),
                (Frequency::Tone(A4), Length::Eighth),
                (Frequency::Tone(A_SHARP_4), Length::Eighth),
                (Frequency::Tone(B4), Length::Eighth),
            ],
        }
    }

    /// The tempo of the tune, in beats per minute.
    pub open spec fn spec_tempo(self) -> nat {
        match self {
            Tune::Beethoven9 => 250,
            Tune::Beethoven5 => 200,
            Tune::ReactionTesterWaitForReaction => 140,
            Tune::ReactionTesterTeamWon => 200,
            Tune::ReactionTesterEarlyStart => 300,
            Tune::ReactionTesterGameBegins => 200,
            Tune::ReactionTesterPlayer0Identification => 300,
            Tune::ReactionTesterPlayer1Identification => 300,
            Tune::ReactionTesterPlayer2Identification => 300,
            Tune::InParis => 180,
            Tune::BarbieGirl => 240,
            Tune::Jingle => 200,
            Tune::ProgramSwitching => 300,
            Tune::ConfirmSelection => 200,
            Tune::Error => 200,
            Tune::RussianRoulettePlayerSelected => 200,
            Tune::RussianRoulettePlayerNotSelected => 200,
            Tune::ChromaticScale => 100,
        }
    }

    /// The notes the tune compiles to.
    pub open spec fn notes(self) -> Seq<Note> {
        compile_spec(self.score_spec(), self.spec_tempo())
    }

    pub fn tempo(&self) -> (r: u32)
        ensures
            r == self.spec_tempo(),
            r > 0,
    {
        match self {
            Tune::Beethoven9 => 250,
            Tune::Beethoven5 => 200,
            Tune::ReactionTesterWaitForReaction => 140,
            Tune::ReactionTesterTeamWon => 200,
            Tune::ReactionTesterEarlyStart => 300,
            Tune::ReactionTesterGameBegins => 200,
            Tune::ReactionTesterPlayer0Identification => 300,
            Tune::ReactionTesterPlayer1Identification => 300,
            Tune::ReactionTesterPlayer2Identification => 300,
            Tune::InParis => 180,
            Tune::BarbieGirl => 240,
            Tune::Jingle => 200,
            Tune::ProgramSwitching => 300,
            Tune::ConfirmSelection => 200,
            Tune::Error => 200,
            Tune::RussianRoulettePlayerSelected => 200,
            Tune::RussianRoulettePlayerNotSelected => 200,
            Tune::ChromaticScale => 100,
        }
    }

    pub fn score(&self) -> (r: Vec<ScoreNote>)
        ensures
            r@ == self.score_spec(),
            r@.len() <= MAX_TUNE_NOTES,
    {
        match self {
            Tune::Beethoven9 => vec![
                (Frequency::Tone(E4), Length::Eighth),
                (Frequency::Tone(E4), Length::Eighth),
                (Frequency::Tone(F4), Length::Eighth),
                (Frequency::Tone(G4), Length::Eighth),
                (Frequency::Tone(G4), Length::Eighth),
                (Frequency::Tone(F4), Length::Eighth),
                (Frequency::Tone(E4), Length::Eighth),
                (Frequency::Tone(D4), Length::Eighth),
                (Frequency::Tone(C4), Length::Eighth),
                (Frequency::Tone(C4), Length::Eighth),
                (Frequency::Tone(D4), Length::Eighth),
                (Frequency::Tone(E4), Length::Eighth),
                (Frequency::Tone(E4), Length::Quarter),
                (Frequency::Tone(D4), Length::Sixteenth),
                (Frequency::Tone(D4), Length::Quarter),
            ],
            Tune::Beethoven5 => vec![
                (Frequency::Tone(F4), Length::Sixteenth),
                (Frequency::Tone(F4), Length::Sixteenth),
                (Frequency::Tone(F4), Length::Sixteenth),
                (Frequency::Tone(C_SHARP_4), Length::Half),
                (Frequency::Tone(D_SHARP_4), Length::Sixteenth),
                (Frequency::Tone(D_SHARP_4), Length::Sixteenth),
                (Frequency::Tone(D_SHARP_4), Length::Sixteenth),
                (Frequency::Tone(C4), Length::Half),
            ],
            Tune::ReactionTesterWaitForReaction => vec![
                (Frequency::Tone(F4), Length::Quarter),
            ],
            Tune::ReactionTesterTeamWon => vec![
                (Frequency::Tone(C4), Length::Eighth),
                (Frequency::Tone(D4), Length::Eighth),
                (Frequency::Tone(E4), Length::Eighth),
                (Frequency::Tone(F4), Length::Eighth),
                (Frequency::Tone(G4), Length::Quarter),
                (Frequency::Tone(G4), Length::Quarter),
            ],
            Tune::ReactionTesterEarlyStart => vec![
                (Frequency::Tone(C_SHARP_4), Length::Eighth),
                (Frequency::Tone(G4), Length::Eighth),
                (Frequency::Tone(C_SHARP_4), Length::Eighth),
                (Frequency::Tone(G4), Length::Eighth),
                (Frequency::Tone(C_SHARP_4), Length::Eighth),
                (Frequency::Tone(G4), Length::Eighth),
                (Frequency::Tone(C_SHARP_4), Length::Eighth),
                (Frequency::Tone(G4), Length::Eighth),
                (Frequency::Tone(C_SHARP_4), Length::Eighth),
                (Frequency::Tone(G4), Length::Eighth),
            ],
            Tune::ReactionTesterGameBegins => vec![
                (Frequency::Tone(C4), Length::Quarter),
                (Frequency::Tone(C4), Length::Quarter),
                (Frequency::Tone(C4), Length::Quarter),
                (Frequency::Tone(C4), Length::Quarter),
            ],
            Tune::ReactionTesterPlayer0Identification => vec![
                (Frequency::Tone(D4), Length::Sixteenth),
                (Frequency::Silence, Length::Half),
            ],
            Tune::ReactionTesterPlayer1Identification => vec![
                (Frequency::Tone(D4), Length::Sixteenth),
                (Frequency::Tone(D4), Length::Sixteenth),
                (Frequency::Silence, Length::Half),
            ],
            Tune::ReactionTesterPlayer2Identification => vec![
                (Frequency::Tone(D4), Length::Sixteenth),
                (Frequency::Tone(D4), Length::Sixteenth),
                (Frequency::Tone(D4), Length::Sixteenth),
                (Frequency::Silence, Length::Half),
            ],
            Tune::InParis => vec![
                (Frequency::Tone(F4), Length::Sixteenth),
                (Frequency::Tone(C4), Length::Sixteenth),
                (Frequency::Silence, Length::Eighth),
                (Frequency::Tone(G_SHARP_4), Length::Sixteenth),
                (Frequency::Tone(C4), Length::Sixteenth),
                (Frequency::Silence, Length::Eighth),
                (Frequency::Tone(G4), Length::Sixteenth),
                (Frequency::Tone(C4), Length::Sixteenth),
                (Frequency::Silence, Length::Eighth),
                (Frequency::Tone(F4), Length::Sixteenth),
                (Frequency::Tone(C4), Length::Sixteenth),
                (Frequency::Tone(C5), Length::Sixteenth),
            ],
            Tune::BarbieGirl => vec![
                (Frequency::Tone(G4), Length::Eighth),
                (Frequency::Tone(E4), Length::Eighth),
                (Frequency::Tone(G4), Length::Eighth),
                (Frequency::Tone(C5), Length::Eighth),
                (Frequency::Tone(A4), Length::Half),
                (Frequency::Tone(F4), Length::Eighth),
                (Frequency::Tone(D4), Length::Eighth),
                (Frequency::Tone(F4), Length::Eighth),
                (Frequency::Tone(B4), Length::Eighth),
                (Frequency::Tone(G4), Length::Quarter),
                (Frequency::Tone(F4), Length::Eighth),
                (Frequency::Tone(E4), Length::Eighth),
            ],
            Tune::Jingle => vec![
                (Frequency::Tone(C4), Length::Sixteenth),
                (Frequency::Tone(C4), Length::Sixteenth),
                (Frequency::Tone(C4), Length::Eighth),
                (Frequency::Silence, Length::Eighth),
                (Frequency::Tone(C4), Length::Sixteenth),
                (Frequency::Tone(C4), Length::Sixteenth),
                (Frequency::Tone(C4), Length::Eighth),
                (Frequency::Silence, Length::Eighth),
            ],
            Tune::ProgramSwitching => vec![
                (Frequency::Tone(C4), Length::Sixteenth),
                (Frequency::Tone(E4), Length::Sixteenth),
                (Frequency::Tone(G4), Length::Sixteenth),
                (Frequency::Tone(C4), Length::Sixteenth),
                (Frequency::Tone(E4), Length::Sixteenth),
                (Frequency::Tone(G4), Length::Sixteenth),
                (Frequency::Tone(C4), Length::Sixteenth),
                (Frequency::Tone(E4), Length::Sixteenth),
                (Frequency::Tone(G4), Length::Sixteenth),
            ],
            Tune::ConfirmSelection => vec![
                (Frequency::Tone(C4), Length::Sixteenth),
                (Frequency::Tone(G4), Length::Quarter),
                (Frequency::Tone(C4), Length::Sixteenth),
                (Frequency::Tone(G4), Length::Quarter),
            ],
            Tune::Error => vec![
                (Frequency::Tone(F_SHARP_4), Length::Sixteenth),
                (Frequency::Tone(C4), Length::Sixteenth),
            ],
            Tune::RussianRoulettePlayerSelected => vec![
                (Frequency::Tone(C4), Length::Eighth),
                (Frequency::Tone(F_SHARP_4), Length::Eighth),
                (Frequency::Tone(C4), Length::Eighth),
                (Frequency::Tone(F_SHARP_4), Length::Eighth),
                (Frequency::Tone(C4), Length::Eighth),
                (Frequency::Tone(F_SHARP_4), Length::Eighth),
            ],
            Tune::RussianRoulettePlayerNotSelected => vec![
                (Frequency::Tone(C4), Length::Quarter),
            ],
            Tune::ChromaticScale => vec![
                (Frequency::Tone(C4), Length::Eighth),
                (Frequency::Tone(C_SHARP_4), Length::Eighth),
                (Frequency::Tone(D4), Length::Eighth),
                (Frequency::Tone(D_SHARP_4), Length::Eighth),
                (Frequency::Tone(E4), Length::Eighth),
                (Frequency::Tone(F4), Length::Eighth),
                (Frequency::Tone(F_SHARP_4), Length::Eighth),
                (Frequency::Tone(G4), Length::Eighth),
                (Frequency::Tone(G_SHARP_4), Length::Eighth),
                (Frequency::Tone(A4), Length::Eighth),
                (Frequency::Tone(A_SHARP_4), Length::Eighth),
                (Frequency::Tone(B4), Length::Eighth),
            ],
        }
    }

    /// The melody of the tune, compiled at its tempo.
    pub fn melody(&self) -> (r: Vec<Note>)
        ensures
            r@ == self.notes(),
            playable(r@),
    {
        let score = self.score();
        let r = compile(score.as_slice(), self.tempo());
        proof {
            lemma_total_duration_bound(r@);
            assert(r@.len() * (MAX_NOTE_MS + MAX_BREAK_MS) <= MAX_TUNE_NOTES * (MAX_NOTE_MS
                + MAX_BREAK_MS)) by (nonlinear_arith)
                requires
                    r@.len() <= MAX_TUNE_NOTES,
            ;
        }
        r
    }
}


} // verus!
