use dwight::hardware_interface::Action;
use dwight::hardware_interface::Frequency;
use dwight::hardware_interface::Led;
use dwight::hardware_interface::LedState;
use dwight::hardware_interface::RelayState;
use dwight::hardware_interface::State;
use dwight::hardware_interface::Switch;
use dwight::hardware_interface::SwitchState;
use dwight::hardware_interface::C4;
use dwight::hardware_interface::E4;
use dwight::machine::get_relay_timing_ms;
use dwight::machine::Command;
use dwight::machine::Machine;
use dwight::machine::StartedTransition;
use dwight::machine::TimedAction;
use dwight::machine::Transition;
use dwight::programs::ProgramSwitching;

fn levels(pressed: &[Switch]) -> [SwitchState; 12] {
    let mut l = [SwitchState::Released; 12];
    for s in pressed {
        l[s.position()] = SwitchState::Pressed;
    }
    l
}

fn relay_commands(out: &[Action]) -> Vec<RelayState> {
    out.iter()
        .filter_map(|a| match a {
            Action::SetRelayState(s) => Some(*s),
            _ => None,
        })
        .collect()
}

#[test]
fn new_machine_is_idle() {
    let m = Machine::new();
    assert_eq!(m.time_ms(), 0);
    assert!(m.pending_actions().is_empty());
    assert!(!m.is_waiting_for_all_actions());
    assert_eq!(m.config().shot_duration, 700);
    assert_eq!(m.config().num_players, 2);
}

#[test]
fn command_is_dispatched_at_first_tick_at_or_after_its_due_time() {
    let mut m = Machine::new();
    m.advance(100);
    m.queue_action(50, Command::SetRelayState(RelayState::On));
    assert_eq!(m.pending_actions()[0].timing_ms, 150);
    for now in [101u32, 120, 149] {
        m.advance(now);
        assert!(m.perform_pending_actions().is_empty());
        assert_eq!(m.pending_actions().len(), 1);
    }
    m.advance(151);
    assert_eq!(m.perform_pending_actions(), vec![Action::SetRelayState(RelayState::On)]);
    assert!(m.pending_actions().is_empty());
    m.advance(400);
    assert!(m.perform_pending_actions().is_empty());
}

#[test]
fn command_due_exactly_now_is_dispatched() {
    let mut m = Machine::new();
    m.advance(10);
    m.queue_action(0, Command::SetSpeakerFrequency(Frequency::Silence));
    assert_eq!(
        m.perform_pending_actions(),
        vec![Action::SetSpeakerFrequency(Frequency::Silence)]
    );
}

#[test]
fn flush_keeps_queue_order_and_holds_later_commands() {
    let mut m = Machine::new();
    m.queue_action(5, Command::SetSpeakerFrequency(Frequency::Tone(C4)));
    m.queue_action(20, Command::SetRelayState(RelayState::Off));
    m.queue_action(8, Command::SetSpeakerFrequency(Frequency::Silence));
    m.advance(10);
    assert_eq!(
        m.perform_pending_actions(),
        vec![
            Action::SetSpeakerFrequency(Frequency::Tone(C4)),
            Action::SetSpeakerFrequency(Frequency::Silence),
        ]
    );
    assert_eq!(
        m.pending_actions().to_vec(),
        vec![TimedAction { timing_ms: 20, action: Command::SetRelayState(RelayState::Off) }]
    );
}

#[test]
fn relay_timing_is_shots_times_shot_duration() {
    assert_eq!(get_relay_timing_ms(3, 700), 2100);
    assert_eq!(get_relay_timing_ms(0, 700), 0);
    assert_eq!(get_relay_timing_ms(80, 2000), 160000);
}

#[test]
fn pour_turns_relay_on_now_and_off_after_the_shots() {
    let mut m = Machine::new();
    m.advance(1000);
    m.pour(2);
    assert_eq!(
        m.pending_actions().to_vec(),
        vec![
            TimedAction { timing_ms: 1000, action: Command::SetRelayState(RelayState::On) },
            TimedAction { timing_ms: 2400, action: Command::SetRelayState(RelayState::Off) },
        ]
    );
}

#[test]
fn flash_led_ramps_up_then_down() {
    let mut m = Machine::new();
    m.advance(50);
    m.flash_led(Led::Right, 300, 200);
    assert_eq!(
        m.pending_actions().to_vec(),
        vec![
            TimedAction {
                timing_ms: 50,
                action: Command::SetLedTransition(Led::Right, Transition::on_within(300)),
            },
            TimedAction {
                timing_ms: 550,
                action: Command::SetLedTransition(Led::Right, Transition::off_within(300)),
            },
        ]
    );
    assert!(m.perform_pending_actions().is_empty());
    assert_eq!(
        m.led_transition(Led::Right),
        StartedTransition { start_time_ms: 50, transition: Transition::on_within(300) }
    );
}

#[test]
fn ramp_is_linear_and_clamped() {
    let up = Transition::on_within(1000);
    assert_eq!(up.get_current_val(0).brightness, 0);
    assert_eq!(up.get_current_val(250).brightness, 250);
    assert_eq!(up.get_current_val(999).brightness, 999);
    assert_eq!(up.get_current_val(1000).brightness, 1000);
    assert_eq!(up.get_current_val(5000).brightness, 1000);
    let down = Transition::off_within(400);
    assert_eq!(down.get_current_val(100).brightness, 750);
    assert_eq!(down.get_current_val(399).brightness, 3);
    assert_eq!(down.get_current_val(400).brightness, 0);
    let odd = Transition { start_val: 10, end_val: 20, duration: 3 };
    assert_eq!(odd.get_current_val(1).brightness, 13);
    let odd_down = Transition { start_val: 20, end_val: 10, duration: 3 };
    assert_eq!(odd_down.get_current_val(1).brightness, 17);
    let started = StartedTransition { start_time_ms: 100, transition: up };
    assert_eq!(started.get_current_val(50).brightness, 0);
    assert_eq!(started.get_current_val(600).brightness, 500);
    assert_eq!(started.end_time(), 1100);
}

#[test]
fn led_states_follow_the_ramps() {
    let mut m = Machine::new();
    m.flash_led(Led::Left, 100, 0);
    m.perform_pending_actions();
    m.advance(40);
    assert_eq!(
        m.update_leds(),
        vec![
            Action::SetLedState(Led::Left, LedState { brightness: 400 }),
            Action::SetLedState(Led::Right, LedState { brightness: 0 }),
        ]
    );
    assert_eq!(LedState::on().brightness, 1000);
    assert_eq!(LedState::off().brightness, 0);
}

#[test]
fn no_ongoing_transition_only_after_both_ramps_end() {
    let mut m = Machine::new();
    assert!(!m.no_ongoing_led_transition());
    m.advance(10);
    assert!(m.no_ongoing_led_transition());
    m.flash_led(Led::Left, 100, 100);
    m.perform_pending_actions();
    for now in [10u32, 50, 109, 110] {
        m.advance(now);
        assert!(!m.no_ongoing_led_transition());
    }
    m.advance(111);
    assert!(m.no_ongoing_led_transition());
    m.advance(210);
    m.perform_pending_actions();
    for now in [210u32, 250, 310] {
        m.advance(now);
        assert!(!m.no_ongoing_led_transition());
    }
    m.advance(311);
    assert!(m.no_ongoing_led_transition());
}

#[test]
fn no_sound_queued_sees_only_speaker_commands() {
    let mut m = Machine::new();
    assert!(m.no_sound_queued());
    m.set_relay_state(RelayState::On);
    assert!(m.no_sound_queued());
    m.set_speaker_frequency(Frequency::Tone(E4));
    assert!(!m.no_sound_queued());
}

#[test]
fn barrier_holds_program_until_queue_is_empty() {
    let mut m = Machine::new();
    let mut program = ProgramSwitching::default();
    let mut state = State::new();
    state = state.update(levels(&[]));
    let out = m.tick(0, &state, &mut program);
    assert_eq!(out.len(), 2);
    // Digit 2 selects simple pouring, announced by a tune; the programs then wait.
    state = state.update(levels(&[Switch::Number2]));
    let out = m.tick(10, &state, &mut program);
    assert!(!program.is_in_selection_mode());
    assert!(m.is_waiting_for_all_actions());
    assert_eq!(out[0], Action::SetSpeakerFrequency(Frequency::Tone(E4)));
    state = state.update(levels(&[]));
    state = state.update(levels(&[Switch::Number3]));
    let out = m.tick(100000, &state, &mut program);
    assert!(relay_commands(&out).is_empty());
    assert!(m.pending_actions().is_empty());
    assert!(m.is_waiting_for_all_actions());
    state = state.update(levels(&[]));
    let out = m.tick(100001, &state, &mut program);
    assert!(!m.is_waiting_for_all_actions());
    assert!(relay_commands(&out).is_empty());
    state = state.update(levels(&[Switch::Number3]));
    let out = m.tick(100002, &state, &mut program);
    assert_eq!(relay_commands(&out), vec![RelayState::On]);
    assert!(m.is_waiting_for_all_actions());
}

#[test]
fn configure_checks_the_range() {
    let mut m = Machine::new();
    assert!(m.configure(dwight::configuration::Variable::DelayPerShot, 150));
    assert_eq!(m.config().shot_duration, 150);
    assert!(!m.configure(dwight::configuration::Variable::DelayPerShot, 99));
    assert_eq!(m.config().shot_duration, 150);
    m.configure_num_players(5);
    assert_eq!(m.config().num_players, 5);
    m.configure_num_players(10);
    assert_eq!(m.config().num_players, 5);
}

#[test]
fn queue_drops_requests_beyond_its_bound() {
    let mut m = Machine::new();
    for _ in 0..dwight::machine::MAX_PENDING_ACTIONS - 1 {
        m.queue_action(10, Command::SetRelayState(RelayState::On));
    }
    m.pour(1);
    assert_eq!(m.pending_actions().len(), dwight::machine::MAX_PENDING_ACTIONS - 1);
    m.flash_led(Led::Left, 10, 10);
    assert_eq!(m.pending_actions().len(), dwight::machine::MAX_PENDING_ACTIONS - 1);
    m.set_relay_state(RelayState::Off);
    assert_eq!(m.pending_actions().len(), dwight::machine::MAX_PENDING_ACTIONS);
    m.set_relay_state(RelayState::Off);
    assert_eq!(m.pending_actions().len(), dwight::machine::MAX_PENDING_ACTIONS);
    m.advance(10);
    assert_eq!(m.perform_pending_actions().len(), dwight::machine::MAX_PENDING_ACTIONS);
    m.pour(1);
    assert_eq!(m.pending_actions().len(), 2);
}

#[test]
fn late_ramp_starts_when_it_is_carried_out() {
    let mut m = Machine::new();
    m.flash_led(Led::Left, 100, 50);
    m.advance(5);
    m.perform_pending_actions();
    assert_eq!(
        m.led_transition(Led::Left),
        StartedTransition { start_time_ms: 5, transition: Transition::on_within(100) }
    );
    assert_eq!(m.update_leds()[0], Action::SetLedState(Led::Left, LedState { brightness: 0 }));
    m.advance(55);
    assert_eq!(m.update_leds()[0], Action::SetLedState(Led::Left, LedState { brightness: 500 }));
    m.advance(160);
    m.perform_pending_actions();
    assert_eq!(
        m.led_transition(Led::Left),
        StartedTransition { start_time_ms: 160, transition: Transition::off_within(100) }
    );
}
