use vstd::prelude::*;

use crate::Duration;
use crate::Time;

verus! {

/// Full brightness of a lamp; brightness runs from 0 (dark) to this value.
pub const FULL_BRIGHTNESS: u32 = 1000;

/// Brightness of one lamp, in thousandths of full brightness.
#[derive(Debug, Clone, Copy, PartialEq, Eq, Structural)]
pub struct LedState {
    pub brightness: u32,
}

impl LedState {
    pub fn on() -> (r: LedState)
        ensures
            r.brightness == FULL_BRIGHTNESS,
    {
        LedState { brightness: FULL_BRIGHTNESS }
    }

    pub fn off() -> (r: LedState)
        ensures
            r.brightness == 0,
    {
        LedState { brightness: 0 }
    }
}

#[derive(Debug, Clone, Copy, PartialEq, Eq, Structural)]
pub enum Led {
    Left,
    Right,
}

#[derive(Debug, Clone, Copy, PartialEq, Eq, Structural)]
pub enum RelayState {
    On,
    Off,
}

/// A speaker setting: a tone, in hundredths of a hertz, or silence.
#[derive(Debug, Clone, Copy, PartialEq, Eq, Structural)]
pub enum Frequency {
    Tone(u32),
    Silence,
}

// Pitches of the fourth octave (and C5), in hundredths of a hertz.
pub const C4: u32 = 26163;
pub const C_SHARP_4: u32 = 27718;
pub const D4: u32 = 29366;
pub const D_SHARP_4: u32 = 31113;
pub const E4: u32 = 32963;
pub const F4: u32 = 34923;
pub const F_SHARP_4: u32 = 36999;
pub const G4: u32 = 39200;
pub const G_SHARP_4: u32 = 41530;
pub const A4: u32 = 44000;
pub const A_SHARP_4: u32 = 46616;
pub const B4: u32 = 49388;
pub const C5: u32 = 52326;

/// Number of switches on the machine.
pub const NUM_SWITCHES: usize = 12;

#[derive(Debug, Clone, Copy, PartialEq, Eq, Structural)]
pub enum Switch {
    Number0,
    Number1,
    Number2,
    Number3,
    Number4,
    Number5,
    Number6,
    Number7,
    Number8,
    Number9,
    Left,
    Right,
}

/// The digit switch for `n` (0 through 9).
pub open spec fn digit_switch(n: int) -> Switch {
    if n == 0 {
        Switch::Number0
    } else if n == 1 {
        Switch::Number1
    } else if n == 2 {
        Switch::Number2
    } else if n == 3 {
        Switch::Number3
    } else if n == 4 {
        Switch::Number4
    } else if n == 5 {
        Switch::Number5
    } else if n == 6 {
        Switch::Number6
    } else if n == 7 {
        Switch::Number7
    } else if n == 8 {
        Switch::Number8
    } else {
        Switch::Number9
    }
}

/// The switch at position `i` of the fixed switch order: the digits, then Left, then Right.
pub open spec fn switch_at(i: int) -> Switch {
    if i < 10 {
        digit_switch(i)
    } else if i == 10 {
        Switch::Left
    } else {
        Switch::Right
    }
}

impl Switch {
    /// Position of the switch in the fixed switch order.
    pub open spec fn index(self) -> int {
        match self {
            Switch::Number0 => 0,
            Switch::Number1 => 1,
            Switch::Number2 => 2,
            Switch::Number3 => 3,
            Switch::Number4 => 4,
            Switch::Number5 => 5,
            Switch::Number6 => 6,
            Switch::Number7 => 7,
            Switch::Number8 => 8,
            Switch::Number9 => 9,
            Switch::Left => 10,
            Switch::Right => 11,
        }
    }

    /// The digit a switch carries, if it is a digit switch.
    pub open spec fn digit(self) -> Option<nat> {
        if self.index() < 10 {
            Some(self.index() as nat)
        } else {
            None
        }
    }

    pub fn position(&self) -> (r: usize)
        ensures
            r == self.index(),
            r < NUM_SWITCHES,
    {
        match self {
            Switch::Number0 => 0,
            Switch::Number1 => 1,
            Switch::Number2 => 2,
            Switch::Number3 => 3,
            Switch::Number4 => 4,
            Switch::Number5 => 5,
            Switch::Number6 => 6,
            Switch::Number7 => 7,
            Switch::Number8 => 8,
            Switch::Number9 => 9,
            Switch::Left => 10,
            Switch::Right => 11,
        }
    }

    /// The switch at position `i` of the fixed switch order.
    pub fn from_position(i: usize) -> (r: Switch)
        requires
            i < NUM_SWITCHES,
        ensures
            r == switch_at(i as int),
            r.index() == i,
    {
        if i < 10 {
            Switch::number(i)
        } else if i == 10 {
            Switch::Left
        } else {
            Switch::Right
        }
    }

    /// The digit switch for `num`; there is none above 9.
    pub fn number(num: usize) -> (r: Self)
        requires
            num < 10,
        ensures
            r == digit_switch(num as int),
            r.index() == num,
            r.digit() == Some(num as nat),
    {
        match num {
            0 => Switch::Number0,
            1 => Switch::Number1,
            2 => Switch::Number2,
            3 => Switch::Number3,
            4 => Switch::Number4,
            5 => Switch::Number5,
            6 => Switch::Number6,
            7 => Switch::Number7,
            8 => Switch::Number8,
            _ => Switch::Number9,
        }
    }

    pub fn get_num(&self) -> (r: Option<usize>)
        ensures
            r matches Some(n) ==> self.digit() == Some(n as nat) && n < 10,
            r is None <==> self.digit() is None,
            r is None <==> (*self == Switch::Left || *self == Switch::Right),
    {
        match self {
            Switch::Number0 => Some(0),
            Switch::Number1 => Some(1),
            Switch::Number2 => Some(2),
            Switch::Number3 => Some(3),
            Switch::Number4 => Some(4),
            Switch::Number5 => Some(5),
            Switch::Number6 => Some(6),
            Switch::Number7 => Some(7),
            Switch::Number8 => Some(8),
            Switch::Number9 => Some(9),
            Switch::Left => None,
            Switch::Right => None,
        }
    }
}

#[derive(Debug, Clone, Copy, PartialEq, Eq, Structural)]
pub enum SwitchState {
    Pressed,
    Released,
}

impl SwitchState {
    pub fn is_pressed(&self) -> (r: bool)
        ensures
            r <==> *self == SwitchState::Pressed,
    {
        match self {
            SwitchState::Pressed => true,
            SwitchState::Released => false,
        }
    }
}

/// Levels of all switches, one per position of the fixed switch order.
pub type Levels = [SwitchState; 12];

/// What the input tracker knows at one tick: the levels now and one tick before.
pub struct InputSnapshot {
    pub current: Seq<bool>,
    pub previous: Seq<bool>,
}

/// The switches among the first `n` of the fixed order that satisfy `pred`, in that order.
pub open spec fn switches_where(pred: spec_fn(Switch) -> bool, n: nat) -> Seq<Switch>
    decreases n,
{
    if n == 0 {
        Seq::empty()
    } else {
        let rest = switches_where(pred, (n - 1) as nat);
        if pred(switch_at(n - 1)) {
            rest.push(switch_at(n - 1))
        } else {
            rest
        }
    }
}

impl InputSnapshot {
    pub open spec fn pressed(self, s: Switch) -> bool {
        self.current[s.index()]
    }

    pub open spec fn was_pressed(self, s: Switch) -> bool {
        self.previous[s.index()]
    }

    pub open spec fn just_pressed(self, s: Switch) -> bool {
        self.pressed(s) && !self.was_pressed(s)
    }

    /// All just-pressed switches, in the fixed switch order.
    pub open spec fn just_pressed_list(self) -> Seq<Switch> {
        switches_where(|s: Switch| self.just_pressed(s), 12)
    }

    /// All pressed switches, in the fixed switch order.
    pub open spec fn pressed_list(self) -> Seq<Switch> {
        switches_where(|s: Switch| self.pressed(s), 12)
    }

    pub open spec fn anything_pressed(self) -> bool {
        exists|i: int| 0 <= i < 12 && self.pressed(#[trigger] switch_at(i))
    }

    pub open spec fn anything_just_pressed(self) -> bool {
        exists|i: int| 0 <= i < 12 && self.just_pressed(#[trigger] switch_at(i))
    }

    /// The lowest digit, from `k` on, whose switch was just pressed.
    pub open spec fn lowest_digit_from(self, k: nat) -> Option<nat>
        decreases 10 - k,
    {
        if k >= 10 {
            None
        } else if self.just_pressed(digit_switch(k as int)) {
            Some(k)
        } else {
            self.lowest_digit_from(k + 1)
        }
    }

    /// The lowest digit whose switch was just pressed.
    pub open spec fn lowest_just_pressed_digit(self) -> Option<nat> {
        self.lowest_digit_from(0)
    }
}

pub open spec fn levels_view(levels: Levels) -> Seq<bool> {
    Seq::new(12, |i: int| levels@[i] == SwitchState::Pressed)
}

/// The input tracker: the levels of all switches now and one tick before.
pub struct State {
    current: Levels,
    previous: Levels,
}

impl View for State {
    type V = InputSnapshot;

    closed spec fn view(&self) -> InputSnapshot {
        InputSnapshot { current: levels_view(self.current), previous: levels_view(self.previous) }
    }
}

fn all_released() -> (r: Levels)
    ensures
        forall|i: int| 0 <= i < 12 ==> r@[i] == SwitchState::Released,
{
    [SwitchState::Released; 12]
}

impl State {
    pub fn new() -> (r: Self)
        ensures
            r@.current.len() == 12,
            r@.previous.len() == 12,
            forall|s: Switch| !r@.pressed(s) && !r@.was_pressed(s),
    {
        State { current: all_released(), previous: all_released() }
    }

    /// The tracker one tick later: `new` becomes the current levels, the current ones the previous.
    pub fn update(self, new: Levels) -> (r: Self)
        ensures
            r@.current == levels_view(new),
            r@.previous == self@.current,
    {
        State { current: new, previous: self.current }
    }

    pub fn just_pressed(&self, switch: Switch) -> (r: bool)
        ensures
            r == self@.just_pressed(switch),
    {
        let i = switch.position();
        self.current[i].is_pressed() && !self.previous[i].is_pressed()
    }

    pub fn pressed(&self, switch: Switch) -> (r: bool)
        ensures
            r == self@.pressed(switch),
    {
        let i = switch.position();
        self.current[i].is_pressed()
    }

    pub fn iter_just_pressed(&self) -> (r: Vec<Switch>)
        ensures
            r@ == self@.just_pressed_list(),
    {
        let ghost pred = |s: Switch| self@.just_pressed(s);
        let mut r: Vec<Switch> = Vec::new();
        let mut i: usize = 0;
        while i < NUM_SWITCHES
            invariant
                i <= NUM_SWITCHES,
                r@ == switches_where(pred, i as nat),
                pred == (|s: Switch| self@.just_pressed(s)),
            decreases NUM_SWITCHES - i,
        {
            let s = Switch::from_position(i);
            if self.just_pressed(s) {
                r.push(s);
            }
            i = i + 1;
        }
        r
    }

    pub fn iter_pressed(&self) -> (r: Vec<Switch>)
        ensures
            r@ == self@.pressed_list(),
    {
        let ghost pred = |s: Switch| self@.pressed(s);
        let mut r: Vec<Switch> = Vec::new();
        let mut i: usize = 0;
        while i < NUM_SWITCHES
            invariant
                i <= NUM_SWITCHES,
                r@ == switches_where(pred, i as nat),
                pred == (|s: Switch| self@.pressed(s)),
            decreases NUM_SWITCHES - i,
        {
            let s = Switch::from_position(i);
            if self.pressed(s) {
                r.push(s);
            }
            i = i + 1;
        }
        r
    }

    pub fn anything_just_pressed(&self) -> (r: bool)
        ensures
            r == self@.anything_just_pressed(),
    {
        let mut i: usize = 0;
        while i < NUM_SWITCHES
            invariant
                i <= NUM_SWITCHES,
                forall|j: int| 0 <= j < i ==> !self@.just_pressed(#[trigger] switch_at(j)),
            decreases NUM_SWITCHES - i,
        {
            if self.just_pressed(Switch::from_position(i)) {
                return true;
            }
            i = i + 1;
        }
        false
    }

    pub fn anything_pressed(&self) -> (r: bool)
        ensures
            r == self@.anything_pressed(),
    {
        let mut i: usize = 0;
        while i < NUM_SWITCHES
            invariant
                i <= NUM_SWITCHES,
                forall|j: int| 0 <= j < i ==> !self@.pressed(#[trigger] switch_at(j)),
            decreases NUM_SWITCHES - i,
        {
            if self.pressed(Switch::from_position(i)) {
                return true;
            }
            i = i + 1;
        }
        false
    }

    /// The lowest digit whose switch was just pressed, if any.
    pub fn lowest_pressed_number_key(&self) -> (r: Option<usize>)
        ensures
            r matches Some(n) ==> self@.lowest_just_pressed_digit() == Some(n as nat) && n < 10,
            r is None ==> self@.lowest_just_pressed_digit() is None,
    {
        let mut k: usize = 0;
        while k < 10
            invariant
                k <= 10,
                self@.lowest_just_pressed_digit() == self@.lowest_digit_from(k as nat),
            decreases 10 - k,
        {
            if self.just_pressed(Switch::number(k)) {
                return Some(k);
            }
            k = k + 1;
        }
        None
    }
}

/// A switch just pressed at a tick is pressed at that tick and was not pressed at the tick
/// before: `after` is the tracker one tick after `before`.
pub proof fn lemma_just_pressed_is_an_edge(before: InputSnapshot, after: InputSnapshot, s: Switch)
    requires
        after.previous == before.current,
    ensures
        after.just_pressed(s) ==> after.pressed(s) && !before.pressed(s),
{
}

/// A command to the hardware.
#[derive(Debug, Clone, Copy, PartialEq, Eq, Structural)]
pub enum Action {
    SetLedState(Led, LedState),
    SetRelayState(RelayState),
    SetSpeakerFrequency(Frequency),
}

/// The hardware the machine runs on: switches, lamps, relay, speaker and a clock.
pub trait HardwareInterface {
    fn get_switch_state(&mut self, switch: Switch) -> SwitchState;

    fn set_led_state(&mut self, led: Led, led_state: LedState);

    fn set_relay_state(&mut self, relay_state: RelayState);

    fn set_speaker_frequency(&mut self, frequency: &Frequency);

    fn wait_ms(&mut self, delay_ms: Duration);

    fn get_elapsed_time_ms(&mut self) -> Time;

    fn perform_action(&mut self, action: Action) {
        match action {
            Action::SetLedState(led, state) => self.set_led_state(led, state),
            Action::SetRelayState(state) => self.set_relay_state(state),
            Action::SetSpeakerFrequency(freq) => self.set_speaker_frequency(&freq),
        }
    }

    /// Samples every switch and moves the tracker on by one tick.
    fn update_state(&mut self, previous: State) -> (r: State)
        ensures
            r@.previous == previous@.current,
            r@.current.len() == NUM_SWITCHES,
    {
        let mut levels = all_released();
        let mut i: usize = 0;
        while i < NUM_SWITCHES
            invariant
                i <= NUM_SWITCHES,
            decreases NUM_SWITCHES - i,
        {
            levels[i] = self.get_switch_state(Switch::from_position(i));
            i = i + 1;
        }
        previous.update(levels)
    }
}

} // verus!
