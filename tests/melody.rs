use dwight::hardware_interface::Frequency;
use dwight::hardware_interface::C4;
use dwight::hardware_interface::C_SHARP_4;
use dwight::hardware_interface::D4;
use dwight::machine::Command;
use dwight::machine::Machine;
use dwight::machine::TimedAction;
use dwight::melody::compile;
use dwight::melody::delay_after_note_ms;
use dwight::melody::factor_to_ms;
use dwight::melody::Length;
use dwight::melody::Note;
use dwight::melody::Tune;

#[test]
fn length_from_num_reads_note_denominators() {
    assert_eq!(Length::from_num(2), Length::Half);
    assert_eq!(Length::from_num(4), Length::Quarter);
    assert_eq!(Length::from_num(6), Length::DottedEighth);
    assert_eq!(Length::from_num(8), Length::Eighth);
    assert_eq!(Length::from_num(12), Length::DottedSixteenth);
    assert_eq!(Length::from_num(16), Length::Sixteenth);
}

#[test]
fn note_lengths_follow_the_tempo() {
    assert_eq!(Length::Quarter.as_ms(120), 500);
    assert_eq!(Length::Half.as_ms(120), 1000);
    assert_eq!(Length::DottedEighth.as_ms(120), 375);
    assert_eq!(Length::Eighth.as_ms(120), 250);
    assert_eq!(Length::DottedSixteenth.as_ms(120), 187);
    assert_eq!(Length::Sixteenth.as_ms(120), 125);
    assert_eq!(Length::Quarter.as_ms(140), 428);
    assert_eq!(factor_to_ms(2, 180), 83);
    assert_eq!(delay_after_note_ms(120), 125);
    assert_eq!(delay_after_note_ms(200), 75);
}

#[test]
fn note_total_length_adds_the_break() {
    let n = Note { freq: Frequency::Tone(C4), note_length: 300, delay_after: 150 };
    assert_eq!(n.total_length(), 450);
}

#[test]
fn compile_turns_a_score_into_timed_notes() {
    let score = vec![(Frequency::Tone(C4), Length::Quarter), (Frequency::Silence, Length::Eighth)];
    let notes = compile(&score, 120);
    assert_eq!(
        notes,
        vec![
            Note { freq: Frequency::Tone(C4), note_length: 500, delay_after: 125 },
            Note { freq: Frequency::Silence, note_length: 250, delay_after: 125 },
        ]
    );
    assert!(compile(&[], 60).is_empty());
}

#[test]
fn tunes_compile_at_their_tempo() {
    let scale = Tune::ChromaticScale.melody();
    assert_eq!(scale.len(), 12);
    assert_eq!(Tune::ChromaticScale.tempo(), 100);
    for n in &scale {
        assert_eq!(n.note_length, 300);
        assert_eq!(n.delay_after, 150);
    }
    assert_eq!(scale[1].freq, Frequency::Tone(C_SHARP_4));
    let confirm = Tune::ConfirmSelection.melody();
    assert_eq!(confirm.len(), 4);
    assert_eq!(confirm[0], Note { freq: Frequency::Tone(C4), note_length: 75, delay_after: 75 });
    assert_eq!(confirm[1].note_length, 300);
    assert_eq!(Tune::Beethoven9.melody().len(), 15);
    assert_eq!(Tune::ReactionTesterPlayer2Identification.melody()[3].freq, Frequency::Silence);
    assert_eq!(Tune::ReactionTesterWaitForReaction.melody()[0].note_length, 428);
}

#[test]
fn play_melody_schedules_each_note_and_its_silence() {
    let mut m = Machine::new();
    m.advance(1000);
    let scale = Tune::ChromaticScale.melody();
    m.play_melody(&scale[..2]);
    assert_eq!(
        m.pending_actions().to_vec(),
        vec![
            TimedAction { timing_ms: 1000, action: Command::SetSpeakerFrequency(Frequency::Tone(C4)) },
            TimedAction { timing_ms: 1300, action: Command::SetSpeakerFrequency(Frequency::Silence) },
            TimedAction {
                timing_ms: 1450,
                action: Command::SetSpeakerFrequency(Frequency::Tone(C_SHARP_4)),
            },
            TimedAction { timing_ms: 1750, action: Command::SetSpeakerFrequency(Frequency::Silence) },
        ]
    );
}

#[test]
fn final_silence_comes_a_break_before_the_melody_ends() {
    for tune in [Tune::Beethoven5, Tune::InParis, Tune::ChromaticScale, Tune::Error] {
        let notes = tune.melody();
        let mut m = Machine::new();
        m.play_melody(&notes);
        let total: u64 = notes.iter().map(|n| n.total_length() as u64).sum();
        let last = *m.pending_actions().last().unwrap();
        assert_eq!(last.action, Command::SetSpeakerFrequency(Frequency::Silence));
        assert_eq!(last.timing_ms + notes.last().unwrap().delay_after as u64, total);
    }
}

#[test]
fn melody_without_final_break_ends_with_its_final_silence() {
    let notes = vec![
        Note { freq: Frequency::Tone(C4), note_length: 200, delay_after: 50 },
        Note { freq: Frequency::Tone(D4), note_length: 300, delay_after: 0 },
    ];
    let mut m = Machine::new();
    m.play_melody(&notes);
    let total: u64 = notes.iter().map(|n| n.total_length() as u64).sum();
    let last = *m.pending_actions().last().unwrap();
    assert_eq!(total, 550);
    assert_eq!(last.timing_ms, total);
}
