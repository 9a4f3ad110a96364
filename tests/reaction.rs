use dwight::configuration::Variable;
use dwight::hardware_interface::Frequency;
use dwight::hardware_interface::RelayState;
use dwight::hardware_interface::State;
use dwight::hardware_interface::Switch;
use dwight::hardware_interface::SwitchState;
use dwight::hardware_interface::C_SHARP_4;
use dwight::hardware_interface::F4;
use dwight::machine::Command;
use dwight::machine::Machine;
use dwight::machine::TimedAction;
use dwight::reaction_tester::players_left_side;
use dwight::reaction_tester::players_right_side;
use dwight::reaction_tester::GameState;
use dwight::reaction_tester::Player;
use dwight::reaction_tester::ReactionTester;
use dwight::reaction_tester::Reason;
use dwight::reaction_tester::Team;
use dwight::reaction_tester::TeamState;

fn levels(pressed: &[Switch]) -> [SwitchState; 12] {
    let mut l = [SwitchState::Released; 12];
    for s in pressed {
        l[s.position()] = SwitchState::Pressed;
    }
    l
}

fn fire_time(rt: &ReactionTester) -> u64 {
    match rt.game_state() {
        GameState::WaitForTiming(t) => *t,
        _ => panic!("the round has not started"),
    }
}

/// Starts a round at time 1000 with every player of a two-player game holding a switch.
fn started_round(m: &mut Machine) -> (ReactionTester, State) {
    m.advance(1000);
    let mut rt = ReactionTester::new(m);
    let ready = State::new().update(levels(&[Switch::Number1, Switch::Number3]));
    rt.update(m, &ready);
    (rt, ready)
}

#[test]
fn team_state_starts_unpressed() {
    let t = TeamState::new(3);
    assert!(!t.won());
    assert!(TeamState::new(0).won());
}

#[test]
fn teams_are_split_by_player_count() {
    let mut m = Machine::new();
    let rt = ReactionTester::new(&m);
    assert_eq!(rt.num_players(), 2);
    assert_eq!(rt.num_players_left(), 1);
    assert_eq!(rt.num_players_right(), 1);
    m.configure_num_players(5);
    let rt5 = ReactionTester::new(&m);
    assert_eq!(rt5.num_players_left(), 2);
    assert_eq!(rt5.num_players_right(), 3);
    assert_eq!(
        rt5.iter_active_players(),
        vec![
            (Player { button_num: 1, index: 0 }, Team::Left),
            (Player { button_num: 4, index: 1 }, Team::Left),
            (Player { button_num: 3, index: 0 }, Team::Right),
            (Player { button_num: 6, index: 1 }, Team::Right),
            (Player { button_num: 9, index: 2 }, Team::Right),
        ]
    );
    m.configure_num_players(9);
    assert_eq!(ReactionTester::new(&m).num_players(), 6);
    assert_eq!(players_left_side().len(), 3);
    assert_eq!(players_right_side()[2], Player { button_num: 9, index: 2 });
}

#[test]
fn round_waits_until_every_player_holds() {
    let mut m = Machine::new();
    let mut rt = ReactionTester::new(&m);
    let one = State::new().update(levels(&[Switch::Number1]));
    rt.update(&mut m, &one);
    assert!(matches!(rt.game_state(), GameState::WaitForStart));
    assert!(m.pending_actions().is_empty());
}

#[test]
fn round_starts_with_a_random_signal_time() {
    let mut m = Machine::new();
    let (rt, _) = started_round(&mut m);
    let t = fire_time(&rt);
    assert!(t >= 1000 + 5000 && t < 1000 + 15000);
    assert_eq!(m.pending_actions().len(), 8);
    assert!(m.is_waiting_for_all_actions());
}

#[test]
fn early_press_ends_the_round_for_the_opposing_team() {
    let mut m = Machine::new();
    let (mut rt, ready) = started_round(&mut m);
    let released = ready.update(levels(&[]));
    m.advance(1100);
    rt.update(&mut m, &released);
    assert!(matches!(rt.game_state(), GameState::WaitForTiming(_)));
    m.advance(1300);
    let before = m.pending_actions().len();
    let early = released.update(levels(&[Switch::Number1]));
    rt.update(&mut m, &early);
    assert!(matches!(
        rt.game_state(),
        GameState::WaitForGlass { reason: Reason::EarlyStart(0), team: Team::Right }
    ));
    assert_eq!(
        m.pending_actions()[before],
        TimedAction { timing_ms: 1300, action: Command::SetSpeakerFrequency(Frequency::Tone(C_SHARP_4)) }
    );
}

#[test]
fn early_press_on_the_right_sends_the_left_team_to_the_glass() {
    let mut m = Machine::new();
    let (mut rt, ready) = started_round(&mut m);
    m.advance(1001);
    let still_holding = ready.update(levels(&[Switch::Number3]));
    rt.update(&mut m, &still_holding);
    assert!(matches!(
        rt.game_state(),
        GameState::WaitForGlass { reason: Reason::EarlyStart(0), team: Team::Left }
    ));
}

#[test]
fn race_begins_after_the_signal_and_the_faster_team_wins() {
    let mut m = Machine::new();
    let (mut rt, ready) = started_round(&mut m);
    let t = fire_time(&rt);
    let released = ready.update(levels(&[]));
    m.advance(t as u32);
    rt.update(&mut m, &released);
    assert!(matches!(rt.game_state(), GameState::WaitForTiming(_)));
    m.advance(t as u32 + 1);
    let before = m.pending_actions().len();
    rt.update(&mut m, &released);
    assert!(matches!(rt.game_state(), GameState::WaitForAllButtonPresses(_, _)));
    assert_eq!(
        m.pending_actions()[before],
        TimedAction {
            timing_ms: t + 1,
            action: Command::SetSpeakerFrequency(Frequency::Tone(F4)),
        }
    );
    rt.update(&mut m, &released);
    assert!(matches!(rt.game_state(), GameState::WaitForAllButtonPresses(_, _)));
    let right_presses = released.update(levels(&[Switch::Number3]));
    rt.update(&mut m, &right_presses);
    assert!(matches!(
        rt.game_state(),
        GameState::WaitForGlass { reason: Reason::SlowReaction, team: Team::Left }
    ));
}

#[test]
fn glass_pours_the_penalty_and_restarts() {
    let mut m = Machine::new();
    let (mut rt, ready) = started_round(&mut m);
    m.advance(1001);
    rt.update(&mut m, &ready.update(levels(&[Switch::Number1])));
    m.advance(50000);
    m.perform_pending_actions();
    let idle = State::new().update(levels(&[]));
    rt.update(&mut m, &idle);
    // The right lamp flashes and the tune names the first player of the left team.
    assert_eq!(m.pending_actions().len(), 2 + 4);
    m.perform_pending_actions();
    m.advance(60000);
    m.perform_pending_actions();
    let press = idle.update(levels(&[Switch::Number8]));
    let before = m.pending_actions().len();
    rt.update(&mut m, &press);
    assert!(matches!(rt.game_state(), GameState::WaitForStart));
    let pending = m.pending_actions();
    let relay: Vec<TimedAction> = pending[before..]
        .iter()
        .copied()
        .filter(|a| matches!(a.action, Command::SetRelayState(_)))
        .collect();
    assert_eq!(
        relay,
        vec![
            TimedAction { timing_ms: 60000, action: Command::SetRelayState(RelayState::On) },
            TimedAction { timing_ms: 60000 + 10 * 700, action: Command::SetRelayState(RelayState::Off) },
        ]
    );
    assert!(m.is_waiting_for_all_actions());
}

#[test]
fn slow_team_pours_the_loser_shots() {
    let mut m = Machine::new();
    m.configure(Variable::ReactionNumShotsLoser, 2);
    let (mut rt, ready) = started_round(&mut m);
    let t = fire_time(&rt);
    let released = ready.update(levels(&[]));
    m.advance(t as u32 + 1);
    rt.update(&mut m, &released);
    let left = released.update(levels(&[Switch::Number1]));
    rt.update(&mut m, &left);
    assert!(matches!(
        rt.game_state(),
        GameState::WaitForGlass { reason: Reason::SlowReaction, team: Team::Right }
    ));
    let tap = left.update(levels(&[])).update(levels(&[Switch::Number2]));
    let before = m.pending_actions().len();
    rt.update(&mut m, &tap);
    let off = m.pending_actions()[before..]
        .iter()
        .find(|a| a.action == Command::SetRelayState(RelayState::Off))
        .copied()
        .unwrap();
    assert_eq!(off.timing_ms, t + 1 + 2 * 700);
}
