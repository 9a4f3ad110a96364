use dwight::configuration::Configuration;
use dwight::configuration::ConfigurationProgram;
use dwight::configuration::Variable;
use dwight::hardware_interface::Frequency;
use dwight::hardware_interface::State;
use dwight::hardware_interface::Switch;
use dwight::hardware_interface::SwitchState;
use dwight::hardware_interface::C4;
use dwight::hardware_interface::F_SHARP_4;
use dwight::machine::Command;
use dwight::machine::Machine;
use dwight::machine::TimedAction;

fn levels(pressed: &[Switch]) -> [SwitchState; 12] {
    let mut l = [SwitchState::Released; 12];
    for s in pressed {
        l[s.position()] = SwitchState::Pressed;
    }
    l
}

/// Presses `switch` and releases it again, running the menu on both ticks.
fn tap(program: &mut ConfigurationProgram, machine: &mut Machine, state: State, switch: Switch) -> State {
    let pressed = state.update(levels(&[switch]));
    program.update(machine, &pressed);
    let released = pressed.update(levels(&[]));
    program.update(machine, &released);
    released
}

#[test]
fn default_configuration() {
    let c = Configuration::default();
    assert_eq!(c.num_players, 2);
    assert_eq!(c.shot_duration, 700);
    assert_eq!(c.russian_roulette_loss_percent, 10);
    assert_eq!(c.russian_roulette_min_num_shots, 4);
    assert_eq!(c.russian_roulette_max_num_shots, 10);
    assert_eq!(c.reaction_num_shots_loser, 5);
    assert_eq!(c.reaction_num_shots_early_start, 10);
}

#[test]
fn acceptable_ranges() {
    assert_eq!(Variable::ReactionNumberOfPlayers.acceptable_range(), 1..=9);
    assert_eq!(Variable::DelayPerShot.acceptable_range(), 100..=2000);
    assert_eq!(Variable::RussianRouletteLossProbability.acceptable_range(), 0..=100);
    assert_eq!(Variable::RussianRouletteMinNumberOfShots.acceptable_range(), 1..=80);
    assert_eq!(Variable::ReactionNumShotsEarlyStart.acceptable_range(), 1..=80);
    assert!(Variable::DelayPerShot.accepts_value(2000));
    assert!(!Variable::DelayPerShot.accepts_value(2001));
    assert_eq!(Variable::selected_by(1), Some(Variable::DelayPerShot));
    assert_eq!(Variable::selected_by(5), Some(Variable::ReactionNumberOfPlayers));
    assert_eq!(Variable::selected_by(8), None);
    assert_eq!(Variable::selected_by(0), None);
}

#[test]
fn menu_sets_delay_per_shot() {
    let mut m = Machine::new();
    let mut p = ConfigurationProgram::default();
    let mut s = State::new();
    m.advance(100);
    s = tap(&mut p, &mut m, s, Switch::Number1);
    assert_eq!(p.selected_variable(), Some(Variable::DelayPerShot));
    assert_eq!(m.pending_actions().len(), 8);
    m.advance(5000);
    m.perform_pending_actions();
    for d in [Switch::Number5, Switch::Number0, Switch::Number0] {
        s = tap(&mut p, &mut m, s, d);
    }
    assert_eq!(p.get_typed_num(), 500);
    let before = m.pending_actions().len();
    tap(&mut p, &mut m, s, Switch::Right);
    assert_eq!(m.config().shot_duration, 500);
    assert_eq!(p.selected_variable(), None);
    assert_eq!(p.get_typed_num(), 0);
    assert_eq!(
        m.pending_actions()[before],
        TimedAction { timing_ms: 5000, action: Command::SetSpeakerFrequency(Frequency::Tone(C4)) }
    );
    assert_eq!(m.pending_actions().len(), before + 8);
    assert!(m.is_waiting_for_all_actions());
}

#[test]
fn menu_rejects_out_of_range_value() {
    let mut m = Machine::new();
    let mut p = ConfigurationProgram::default();
    let mut s = State::new();
    s = tap(&mut p, &mut m, s, Switch::Number1);
    for _ in 0..4 {
        s = tap(&mut p, &mut m, s, Switch::Number9);
    }
    assert_eq!(p.get_typed_num(), 9999);
    m.advance(300);
    m.perform_pending_actions();
    let before = m.pending_actions().len();
    tap(&mut p, &mut m, s, Switch::Right);
    assert_eq!(m.config().shot_duration, 700);
    assert_eq!(p.selected_variable(), Some(Variable::DelayPerShot));
    assert_eq!(p.get_typed_num(), 0);
    assert_eq!(
        m.pending_actions()[before..].to_vec(),
        vec![
            TimedAction {
                timing_ms: 300,
                action: Command::SetSpeakerFrequency(Frequency::Tone(F_SHARP_4)),
            },
            TimedAction { timing_ms: 375, action: Command::SetSpeakerFrequency(Frequency::Silence) },
            TimedAction { timing_ms: 450, action: Command::SetSpeakerFrequency(Frequency::Tone(C4)) },
            TimedAction { timing_ms: 525, action: Command::SetSpeakerFrequency(Frequency::Silence) },
        ]
    );
}

#[test]
fn left_cancels_and_unmapped_digits_are_ignored() {
    let mut m = Machine::new();
    let mut p = ConfigurationProgram::default();
    let mut s = State::new();
    s = tap(&mut p, &mut m, s, Switch::Number8);
    assert_eq!(p.selected_variable(), None);
    assert!(m.pending_actions().is_empty());
    s = tap(&mut p, &mut m, s, Switch::Left);
    assert_eq!(p.selected_variable(), None);
    s = tap(&mut p, &mut m, s, Switch::Number2);
    assert_eq!(p.selected_variable(), Some(Variable::RussianRouletteLossProbability));
    s = tap(&mut p, &mut m, s, Switch::Number4);
    tap(&mut p, &mut m, s, Switch::Left);
    assert_eq!(p.selected_variable(), None);
    assert_eq!(p.get_typed_num(), 0);
    assert_eq!(m.config().russian_roulette_loss_percent, 10);
}

#[test]
fn menu_sets_loss_probability_and_player_count() {
    let mut m = Machine::new();
    let mut p = ConfigurationProgram::default();
    let mut s = State::new();
    s = tap(&mut p, &mut m, s, Switch::Number2);
    s = tap(&mut p, &mut m, s, Switch::Number0);
    s = tap(&mut p, &mut m, s, Switch::Number3);
    s = tap(&mut p, &mut m, s, Switch::Number5);
    s = tap(&mut p, &mut m, s, Switch::Right);
    assert_eq!(m.config().russian_roulette_loss_percent, 35);
    s = tap(&mut p, &mut m, s, Switch::Number5);
    s = tap(&mut p, &mut m, s, Switch::Number4);
    tap(&mut p, &mut m, s, Switch::Right);
    assert_eq!(m.config().num_players, 4);
}

#[test]
fn typed_number_saturates() {
    let mut m = Machine::new();
    let mut p = ConfigurationProgram::default();
    let mut s = State::new();
    s = tap(&mut p, &mut m, s, Switch::Number3);
    for _ in 0..25 {
        s = tap(&mut p, &mut m, s, Switch::Number7);
    }
    assert_eq!(p.get_typed_num(), usize::MAX);
    tap(&mut p, &mut m, s, Switch::Right);
    assert_eq!(m.config().russian_roulette_min_num_shots, 4);
    p.reset();
    assert_eq!(p.selected_variable(), None);
}

#[test]
fn configure_applies_an_accepted_value() {
    let mut m = Machine::new();
    let p = ConfigurationProgram::default();
    p.configure(&mut m, &Variable::ReactionNumShotsLoser, 12);
    assert_eq!(m.config().reaction_num_shots_loser, 12);
    let mut c = Configuration::default();
    c.set(Variable::RussianRouletteMaxNumberOfShots, 33);
    assert_eq!(c.russian_roulette_max_num_shots, 33);
}
