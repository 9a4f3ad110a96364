use dwight::hardware_interface::Action;
use dwight::hardware_interface::Frequency;
use dwight::hardware_interface::HardwareInterface;
use dwight::hardware_interface::Led;
use dwight::hardware_interface::LedState;
use dwight::hardware_interface::RelayState;
use dwight::hardware_interface::State;
use dwight::hardware_interface::Switch;
use dwight::hardware_interface::SwitchState;
use dwight::hardware_interface::G4;
use dwight::Duration;
use dwight::Time;

struct Recorder {
    held: Vec<Switch>,
    log: Vec<String>,
}

impl HardwareInterface for Recorder {
    fn get_switch_state(&mut self, switch: Switch) -> SwitchState {
        if self.held.contains(&switch) {
            SwitchState::Pressed
        } else {
            SwitchState::Released
        }
    }

    fn set_led_state(&mut self, led: Led, led_state: LedState) {
        self.log.push(format!("led {:?} {}", led, led_state.brightness));
    }

    fn set_relay_state(&mut self, relay_state: RelayState) {
        self.log.push(format!("relay {:?}", relay_state));
    }

    fn set_speaker_frequency(&mut self, frequency: &Frequency) {
        self.log.push(format!("speaker {:?}", frequency));
    }

    fn wait_ms(&mut self, _delay_ms: Duration) {}

    fn get_elapsed_time_ms(&mut self) -> Time {
        0
    }
}

#[test]
fn update_state_samples_every_switch() {
    let mut hw = Recorder { held: vec![Switch::Number2, Switch::Right], log: vec![] };
    let s1 = hw.update_state(State::new());
    assert_eq!(s1.iter_pressed(), vec![Switch::Number2, Switch::Right]);
    assert_eq!(s1.iter_just_pressed(), vec![Switch::Number2, Switch::Right]);
    hw.held = vec![Switch::Number2];
    let s2 = hw.update_state(s1);
    assert_eq!(s2.iter_pressed(), vec![Switch::Number2]);
    assert!(s2.iter_just_pressed().is_empty());
}

#[test]
fn perform_action_routes_each_command() {
    let mut hw = Recorder { held: vec![], log: vec![] };
    hw.perform_action(Action::SetRelayState(RelayState::On));
    hw.perform_action(Action::SetSpeakerFrequency(Frequency::Tone(G4)));
    hw.perform_action(Action::SetLedState(Led::Left, LedState::on()));
    assert_eq!(
        hw.log,
        vec![
            "relay On".to_string(),
            "speaker Tone(39200)".to_string(),
            "led Left 1000".to_string(),
        ]
    );
}
