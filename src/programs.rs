use vstd::prelude::*;

use rand::rngs::SmallRng;

use crate::configuration::ConfigurationProgram;
use crate::configuration::MenuModel;
use crate::hardware_interface::Action;
use crate::hardware_interface::Frequency;
use crate::hardware_interface::Switch;
use crate::hardware_interface::InputSnapshot;
use crate::hardware_interface::Led;
use crate::hardware_interface::RelayState;
use crate::hardware_interface::State;
use crate::machine::Command;
use crate::machine::Machine;
use crate::machine::MachineModel;
use crate::machine::TimedAction;
use crate::machine::due_at;
use crate::machine::lemma_keep_contains;
use crate::reaction_tester::ReactionModel;
use crate::reaction_tester::ReactionTester;
use crate::melody::Tune;
use crate::random::draw_between;
use crate::random::draw_ratio;
use crate::random::seeded_rng;
use crate::Duration;
use crate::Time;

verus! {

/// Tone that plays while the continuous pour runs, in hundredths of a hertz.
pub const CONTINUOUS_POURING_TONE: u32 = 40000;

pub const RUSSIAN_ROULETTE_LED_TRANSITION_MS: Duration = 1000;

pub const RUSSIAN_ROULETTE_LED_ON_MS: Duration = 1000;

pub const PROGRAM_SWITCH_LED_ON_DURATION_MS: Duration = 500;

pub const PROGRAM_SWITCH_LED_TRANSITION_DURATION_MS: Duration = 500;

/// Pours as many shots as the digit just pressed (the lowest, if several), then waits until
/// the pour and its tune are done.
pub struct SimplePouring;

impl SimplePouring {
    pub open spec fn update_spec(m0: MachineModel, m1: MachineModel, input: InputSnapshot) -> bool {
        match input.lowest_just_pressed_digit() {
            Some(n) => m1 == m0.pour_with_melody(n).raise_barrier(),
            None => m1 == m0,
        }
    }

    pub fn update(&mut self, machine: &mut Machine, state: &State)
        requires
            old(machine)@.wf(),
        ensures
            final(machine)@.wf(),
            old(machine)@.extends(final(machine)@),
            SimplePouring::update_spec(old(machine)@, final(machine)@, state@),
    {
        if let Some(num) = state.lowest_pressed_number_key() {
            assert(num * machine@.config.shot_duration <= 9 * 2000) by (nonlinear_arith)
                requires
                    num <= 9,
                    machine@.config.shot_duration <= 2000,
            ;
            machine.pour_with_melody(num);
            machine.wait_for_all_actions();
        }
    }
}

/// Runs the pump, with a tone, for as long as any switch is held.
pub struct ContinuousPouring;

impl ContinuousPouring {
    /// The machine with the relay set to `relay` and the speaker to `freq`, both now.
    pub open spec fn outputs(m: MachineModel, relay: RelayState, freq: Frequency) -> MachineModel {
        m.enqueue(
            seq![
                m.after(0, Command::SetRelayState(relay)),
                m.after(0, Command::SetSpeakerFrequency(freq)),
            ],
        )
    }

    /// The machine after the relay and the tone are turned off.
    pub open spec fn cleaned_up(m: MachineModel) -> MachineModel {
        ContinuousPouring::outputs(m, RelayState::Off, Frequency::Silence)
    }

    pub open spec fn update_spec(m0: MachineModel, m1: MachineModel, input: InputSnapshot) -> bool {
        if input.anything_pressed() {
            m1 == ContinuousPouring::outputs(
                m0,
                RelayState::On,
                Frequency::Tone(CONTINUOUS_POURING_TONE),
            )
        } else {
            m1 == ContinuousPouring::cleaned_up(m0)
        }
    }

    pub fn update(&mut self, machine: &mut Machine, state: &State)
        requires
            old(machine)@.wf(),
        ensures
            final(machine)@.wf(),
            old(machine)@.extends(final(machine)@),
            ContinuousPouring::update_spec(old(machine)@, final(machine)@, state@),
    {
        if state.anything_pressed() {
            machine.set_relay_and_speaker(RelayState::On, Frequency::Tone(CONTINUOUS_POURING_TONE));
        } else {
            machine.set_relay_and_speaker(RelayState::Off, Frequency::Silence);
        }
    }

    /// Turns the relay and the tone off, which a held switch may have left on.
    pub fn cleanup_before_switch(&mut self, machine: &mut Machine)
        requires
            old(machine)@.wf(),
        ensures
            final(machine)@.wf(),
            old(machine)@.extends(final(machine)@),
            final(machine)@ == ContinuousPouring::cleaned_up(old(machine)@),
    {
        machine.set_relay_and_speaker(RelayState::Off, Frequency::Silence);
    }
}

#[derive(Debug, Clone, Copy, PartialEq, Eq, Structural)]
pub enum RussianRouletteGameState {
    PlayerSelection,
    AwaitingGlass,
}

/// What a game of Russian roulette holds, its generator aside.
pub struct RouletteModel {
    pub min_num_shots: usize,
    pub max_num_shots: usize,
    pub loss_percent: u32,
    pub state: RussianRouletteGameState,
}

impl RouletteModel {
    pub open spec fn wf(self) -> bool {
        &&& 1 <= self.min_num_shots <= 80
        &&& 1 <= self.max_num_shots <= 80
        &&& self.loss_percent <= 100
    }

    /// The largest shot count drawn: the maximum, or the minimum when the maximum lies below it.
    pub open spec fn top_num_shots(self) -> nat {
        if self.min_num_shots >= self.max_num_shots {
            self.min_num_shots as nat
        } else {
            self.max_num_shots as nat
        }
    }

    pub open spec fn in_state(self, state: RussianRouletteGameState) -> RouletteModel {
        RouletteModel { state, ..self }
    }

    /// The machine after the waiting animation: both lamps flash when no ramp is running.
    pub open spec fn waiting_animation(m: MachineModel) -> MachineModel {
        if m.no_ongoing_led_transition() {
            flash_both(m, RUSSIAN_ROULETTE_LED_TRANSITION_MS as nat, RUSSIAN_ROULETTE_LED_ON_MS as nat)
        } else {
            m
        }
    }

    /// The outcome of one selection draw that came out `selected`.
    pub open spec fn selection(
        r0: RouletteModel,
        r1: RouletteModel,
        m0: MachineModel,
        m1: MachineModel,
        selected: bool,
    ) -> bool {
        if selected {
            &&& r1 == r0.in_state(RussianRouletteGameState::AwaitingGlass)
            &&& m1 == m0.enqueue(
                m0.play_actions(Tune::RussianRoulettePlayerSelected.notes()),
            ).raise_barrier()
        } else {
            &&& r1 == r0
            &&& m1 == m0.enqueue(
                m0.play_actions(Tune::RussianRoulettePlayerNotSelected.notes()),
            ).raise_barrier()
        }
    }

    /// The outcome of pouring `num_shots` for the selected player.
    pub open spec fn glass(
        r0: RouletteModel,
        r1: RouletteModel,
        m0: MachineModel,
        m1: MachineModel,
        num_shots: nat,
    ) -> bool {
        &&& r1 == r0.in_state(RussianRouletteGameState::PlayerSelection)
        &&& m1 == m0.pour_with_melody(num_shots).raise_barrier()
    }

    pub open spec fn update_spec(
        r0: RouletteModel,
        r1: RouletteModel,
        m0: MachineModel,
        m1: MachineModel,
        input: InputSnapshot,
    ) -> bool {
        match r0.state {
            RussianRouletteGameState::PlayerSelection => if input.anything_just_pressed() {
                exists|selected: bool|
                    {
                        &&& RouletteModel::selection(r0, r1, m0, m1, selected)
                        &&& r0.loss_percent == 0 ==> !selected
                        &&& r0.loss_percent == 100 ==> selected
                    }
            } else {
                r1 == r0 && m1 == m0
            },
            RussianRouletteGameState::AwaitingGlass => {
                let ma = RouletteModel::waiting_animation(m0);
                if input.anything_just_pressed() {
                    exists|n: nat|
                        r0.min_num_shots <= n <= r0.top_num_shots() && RouletteModel::glass(
                            r0,
                            r1,
                            ma,
                            m1,
                            n,
                        )
                } else {
                    r1 == r0 && m1 == ma
                }
            },
        }
    }
}

/// A drinking game: each press may select the player, with the configured chance; the
/// selected player then gets a random number of shots.
pub struct RussianRoulette {
    min_num_shots: usize,
    max_num_shots: usize,
    loss_percent: u32,
    state: RussianRouletteGameState,
    rng: SmallRng,
}

impl View for RussianRoulette {
    type V = RouletteModel;

    closed spec fn view(&self) -> RouletteModel {
        RouletteModel {
            min_num_shots: self.min_num_shots,
            max_num_shots: self.max_num_shots,
            loss_percent: self.loss_percent,
            state: self.state,
        }
    }
}

impl RussianRoulette {
    /// A fresh game with the machine's configuration.
    pub open spec fn fresh_model(m: MachineModel) -> RouletteModel {
        RouletteModel {
            min_num_shots: m.config.russian_roulette_min_num_shots,
            max_num_shots: m.config.russian_roulette_max_num_shots,
            loss_percent: m.config.russian_roulette_loss_percent,
            state: RussianRouletteGameState::PlayerSelection,
        }
    }

    /// A fresh game, its generator seeded from the machine's clock.
    pub fn new(machine: &Machine) -> (r: Self)
        requires
            machine@.wf(),
        ensures
            r@ == RussianRoulette::fresh_model(machine@),
            r@.wf(),
    {
        let config = machine.config();
        RussianRoulette {
            min_num_shots: config.russian_roulette_min_num_shots,
            max_num_shots: config.russian_roulette_max_num_shots,
            loss_percent: config.russian_roulette_loss_percent,
            rng: seeded_rng(machine.time_ms() as u64),
            state: RussianRouletteGameState::PlayerSelection,
        }
    }

    pub fn game_state(&self) -> (r: RussianRouletteGameState)
        ensures
            r == self@.state,
    {
        self.state
    }

    /// One draw: true with the configured chance.
    pub fn randomly_select_player(&mut self) -> (r: bool)
        requires
            old(self)@.wf(),
        ensures
            final(self)@ == old(self)@,
            old(self)@.loss_percent == 0 ==> !r,
            old(self)@.loss_percent == 100 ==> r,
    {
        draw_ratio(&mut self.rng, self.loss_percent, 100)
    }

    /// A shot count drawn between the configured minimum and maximum (the minimum alone when
    /// the maximum lies below it).
    pub fn get_random_num_shots(&mut self) -> (r: usize)
        requires
            old(self)@.wf(),
        ensures
            final(self)@ == old(self)@,
            old(self)@.min_num_shots <= r <= old(self)@.top_num_shots(),
    {
        let max_num_shots = if self.min_num_shots >= self.max_num_shots {
            self.min_num_shots
        } else {
            self.max_num_shots
        };
        draw_between(&mut self.rng, self.min_num_shots, max_num_shots)
    }

    /// Plays the cue for the outcome of a selection draw; a selected player moves the game on
    /// to pouring.
    pub fn apply_selection(&mut self, machine: &mut Machine, selected: bool)
        requires
            old(machine)@.wf(),
            old(self)@.wf(),
        ensures
            final(machine)@.wf(),
            old(machine)@.extends(final(machine)@),
            final(self)@.wf(),
            RouletteModel::selection(old(self)@, final(self)@, old(machine)@, final(machine)@, selected),
    {
        if selected {
            let melody = Tune::RussianRoulettePlayerSelected.melody();
            machine.play_melody(melody.as_slice());
            machine.wait_for_all_actions();
            self.state = RussianRouletteGameState::AwaitingGlass;
        } else {
            let melody = Tune::RussianRoulettePlayerNotSelected.melody();
            machine.play_melody(melody.as_slice());
            machine.wait_for_all_actions();
        }
    }

    /// Pours `num_shots` for the selected player and starts the next round.
    pub fn apply_glass(&mut self, machine: &mut Machine, num_shots: usize)
        requires
            old(machine)@.wf(),
            old(self)@.wf(),
            num_shots <= 80,
        ensures
            final(machine)@.wf(),
            old(machine)@.extends(final(machine)@),
            final(self)@.wf(),
            RouletteModel::glass(old(self)@, final(self)@, old(machine)@, final(machine)@, num_shots as nat),
    {
        assert(num_shots * machine@.config.shot_duration <= 80 * 2000) by (nonlinear_arith)
            requires
                num_shots <= 80,
                machine@.config.shot_duration <= 2000,
        ;
        machine.pour_with_melody(num_shots);
        machine.wait_for_all_actions();
        self.state = RussianRouletteGameState::PlayerSelection;
    }

    fn test_player_selection(&mut self, machine: &mut Machine, state: &State)
        requires
            old(machine)@.wf(),
            old(self)@.wf(),
            old(self)@.state == RussianRouletteGameState::PlayerSelection,
        ensures
            final(machine)@.wf(),
            old(machine)@.extends(final(machine)@),
            final(self)@.wf(),
            RouletteModel::update_spec(old(self)@, final(self)@, old(machine)@, final(machine)@, state@),
    {
        if state.anything_just_pressed() {
            let selected = self.randomly_select_player();
            self.apply_selection(machine, selected);
        }
    }

    /// The machine after the waiting animation.
    fn animate_waiting(&self, machine: &mut Machine)
        requires
            old(machine)@.wf(),
        ensures
            final(machine)@.wf(),
            old(machine)@.extends(final(machine)@),
            final(machine)@ == RouletteModel::waiting_animation(old(machine)@),
    {
        if machine.no_ongoing_led_transition() {
            machine.flash_led(Led::Left, RUSSIAN_ROULETTE_LED_TRANSITION_MS, RUSSIAN_ROULETTE_LED_ON_MS);
            machine.flash_led(Led::Right, RUSSIAN_ROULETTE_LED_TRANSITION_MS, RUSSIAN_ROULETTE_LED_ON_MS);
        }
    }

    fn wait_for_glass(&mut self, machine: &mut Machine, state: &State)
        requires
            old(machine)@.wf(),
            old(self)@.wf(),
            old(self)@.state == RussianRouletteGameState::AwaitingGlass,
        ensures
            final(machine)@.wf(),
            old(machine)@.extends(final(machine)@),
            final(self)@.wf(),
            RouletteModel::update_spec(old(self)@, final(self)@, old(machine)@, final(machine)@, state@),
    {
        self.animate_waiting(machine);
        if state.anything_just_pressed() {
            let num_shots = self.get_random_num_shots();
            self.apply_glass(machine, num_shots);
            assert(RouletteModel::glass(old(self)@, self@, RouletteModel::waiting_animation(old(machine)@), machine@, num_shots as nat));
        }
    }

    pub fn update(&mut self, machine: &mut Machine, state: &State)
        requires
            old(machine)@.wf(),
            old(self)@.wf(),
        ensures
            final(machine)@.wf(),
            old(machine)@.extends(final(machine)@),
            final(self)@.wf(),
            RouletteModel::update_spec(old(self)@, final(self)@, old(machine)@, final(machine)@, state@),
    {
        match self.state {
            RussianRouletteGameState::PlayerSelection => self.test_player_selection(machine, state),
            RussianRouletteGameState::AwaitingGlass => self.wait_for_glass(machine, state),
        }
    }
}


/// The program that runs when the machine is not in selection mode.
pub enum ActiveProgram {
    SimplePouring(SimplePouring),
    ContinuousPouring(ContinuousPouring),
    RussianRoulette(RussianRoulette),
    ReactionTester(ReactionTester),
    Configuration(ConfigurationProgram),
}

impl ActiveProgram {
    pub open spec fn wf(self) -> bool {
        match self {
            ActiveProgram::RussianRoulette(r) => r@.wf(),
            ActiveProgram::ReactionTester(t) => t@.wf(),
            ActiveProgram::Configuration(c) => c@.wf(),
            _ => true,
        }
    }

    /// One tick of the program: each program as its own update describes it.
    pub open spec fn update_spec(
        from: ActiveProgram,
        to: ActiveProgram,
        m0: MachineModel,
        m1: MachineModel,
        input: InputSnapshot,
    ) -> bool {
        match from {
            ActiveProgram::SimplePouring(_) => to is SimplePouring && SimplePouring::update_spec(
                m0,
                m1,
                input,
            ),
            ActiveProgram::ContinuousPouring(_) => to is ContinuousPouring
                && ContinuousPouring::update_spec(m0, m1, input),
            ActiveProgram::RussianRoulette(r0) => to matches ActiveProgram::RussianRoulette(r1)
                && RouletteModel::update_spec(r0@, r1@, m0, m1, input),
            ActiveProgram::ReactionTester(t0) => to matches ActiveProgram::ReactionTester(t1)
                && ReactionModel::update_spec(t0@, t1@, m0, m1, input),
            ActiveProgram::Configuration(c0) => to matches ActiveProgram::Configuration(c1)
                && MenuModel::update_spec(c0@, c1@, m0, m1, input),
        }
    }

    /// The machine after the program's cleanup: only the continuous pour has outputs to
    /// turn off.
    pub open spec fn cleaned_up(p: ActiveProgram, m: MachineModel) -> MachineModel {
        match p {
            ActiveProgram::ContinuousPouring(_) => ContinuousPouring::cleaned_up(m),
            _ => m,
        }
    }

    pub fn update(&mut self, machine: &mut Machine, state: &State)
        requires
            old(machine)@.wf(),
            old(self).wf(),
        ensures
            final(machine)@.wf(),
            old(machine)@.extends(final(machine)@),
            final(self).wf(),
            ActiveProgram::update_spec(*old(self), *final(self), old(machine)@, final(machine)@, state@),
    {
        match self {
            ActiveProgram::SimplePouring(p) => p.update(machine, state),
            ActiveProgram::ContinuousPouring(p) => p.update(machine, state),
            ActiveProgram::RussianRoulette(p) => p.update(machine, state),
            ActiveProgram::ReactionTester(p) => p.update(machine, state),
            ActiveProgram::Configuration(p) => p.update(machine, state),
        }
    }

    pub fn cleanup_before_switch(&mut self, machine: &mut Machine)
        requires
            old(machine)@.wf(),
        ensures
            final(machine)@.wf(),
            old(machine)@.extends(final(machine)@),
            *final(self) == *old(self),
            final(machine)@ == ActiveProgram::cleaned_up(*old(self), old(machine)@),
    {
        match self {
            ActiveProgram::ContinuousPouring(p) => p.cleanup_before_switch(machine),
            _ => {},
        }
    }
}

/// The tune that announces the program a digit selects, if it selects one.
pub open spec fn program_tune(switch: Switch) -> Option<Tune> {
    match switch {
        Switch::Number1 => Some(Tune::Beethoven5),
        Switch::Number2 => Some(Tune::Beethoven9),
        Switch::Number3 => Some(Tune::InParis),
        Switch::Number4 => Some(Tune::BarbieGirl),
        Switch::Number9 => Some(Tune::Jingle),
        _ => None,
    }
}

/// `p` is the fresh program that `switch` selects on machine `m`.
pub open spec fn is_fresh_program(p: ActiveProgram, switch: Switch, m: MachineModel) -> bool {
    match switch {
        Switch::Number1 => p is ContinuousPouring,
        Switch::Number2 => p is SimplePouring,
        Switch::Number3 => p matches ActiveProgram::RussianRoulette(r) && r@
            == RussianRoulette::fresh_model(m),
        Switch::Number4 => p matches ActiveProgram::ReactionTester(t) && t@
            == ReactionTester::fresh_model(m),
        Switch::Number9 => p matches ActiveProgram::Configuration(c) && c@ == MenuModel::cleared(),
        _ => false,
    }
}

/// The tune and the fresh program that a switch selects, if it selects one.
pub fn program_num(switch: Switch, machine: &Machine) -> (r: Option<(Tune, ActiveProgram)>)
    requires
        machine@.wf(),
    ensures
        r is None <==> program_tune(switch) is None,
        r matches Some((t, p)) ==> program_tune(switch) == Some(t) && is_fresh_program(
            p,
            switch,
            machine@,
        ) && p.wf(),
{
    match switch {
        Switch::Number1 => Some((Tune::Beethoven5, ActiveProgram::ContinuousPouring(ContinuousPouring))),
        Switch::Number2 => Some((Tune::Beethoven9, ActiveProgram::SimplePouring(SimplePouring))),
        Switch::Number3 => Some(
            (Tune::InParis, ActiveProgram::RussianRoulette(RussianRoulette::new(machine))),
        ),
        Switch::Number4 => Some(
            (Tune::BarbieGirl, ActiveProgram::ReactionTester(ReactionTester::new(machine))),
        ),
        Switch::Number9 => Some(
            (Tune::Jingle, ActiveProgram::Configuration(ConfigurationProgram::default())),
        ),
        _ => None,
    }
}

/// The machine after the program switches among `switches` have each announced, from now
/// on, the program they select.
pub open spec fn announced(switches: Seq<Switch>, m: MachineModel) -> MachineModel
    decreases switches.len(),
{
    if switches.len() == 0 {
        m
    } else {
        let before = announced(switches.drop_last(), m);
        match program_tune(switches.last()) {
            Some(t) => before.enqueue(before.play_actions(t.notes())).raise_barrier(),
            None => before,
        }
    }
}

/// Both lamps flash: up over `transition`, lit for `on`, down over `transition`.
pub open spec fn flash_both(m: MachineModel, transition: nat, on: nat) -> MachineModel {
    let left = m.enqueue(m.flash_actions(Led::Left, transition, on));
    left.enqueue(left.flash_actions(Led::Right, transition, on))
}

/// The last of `switches` that selects a program.
pub open spec fn last_program_key(switches: Seq<Switch>) -> Option<Switch>
    decreases switches.len(),
{
    if switches.len() == 0 {
        None
    } else if program_tune(switches.last()) is Some {
        Some(switches.last())
    } else {
        last_program_key(switches.drop_last())
    }
}

/// The top-level program: holding Left and Right together leaves the running program for
/// selection mode, where a digit picks the next program.
pub struct ProgramSwitching {
    in_selection_mode: bool,
    program: ActiveProgram,
}

impl ProgramSwitching {
    pub closed spec fn selecting(&self) -> bool {
        self.in_selection_mode
    }

    pub closed spec fn active(&self) -> ActiveProgram {
        self.program
    }

    pub open spec fn wf(&self) -> bool {
        self.active().wf()
    }

    /// The machine with the "you may switch now" animation: both lamps flash when no ramp runs.
    pub open spec fn selection_animation(m: MachineModel) -> MachineModel {
        if m.no_ongoing_led_transition() {
            flash_both(
                m,
                PROGRAM_SWITCH_LED_TRANSITION_DURATION_MS as nat,
                PROGRAM_SWITCH_LED_ON_DURATION_MS as nat,
            )
        } else {
            m
        }
    }

    pub open spec fn update_spec(
        s0: ProgramSwitching,
        s1: ProgramSwitching,
        m0: MachineModel,
        m1: MachineModel,
        input: InputSnapshot,
    ) -> bool {
        if s0.selecting() {
            let ma = ProgramSwitching::selection_animation(m0);
            let switches = input.just_pressed_list();
            match last_program_key(switches) {
                Some(k) => {
                    &&& !s1.selecting()
                    &&& is_fresh_program(s1.active(), k, m0)
                    &&& m1 == announced(switches, ma)
                },
                None => s1.selecting() && s1.active() == s0.active() && m1 == ma,
            }
        } else if input.pressed(Switch::Left) && input.pressed(Switch::Right) {
            let mc = ActiveProgram::cleaned_up(s0.active(), m0);
            &&& s1.selecting()
            &&& s1.active() == s0.active()
            &&& m1 == mc.enqueue(mc.play_actions(Tune::ProgramSwitching.notes()))
        } else {
            &&& !s1.selecting()
            &&& ActiveProgram::update_spec(s0.active(), s1.active(), m0, m1, input)
        }
    }

    pub fn is_in_selection_mode(&self) -> (r: bool)
        ensures
            r == self.selecting(),
    {
        self.in_selection_mode
    }

    pub fn program(&self) -> (r: &ActiveProgram)
        ensures
            *r == self.active(),
    {
        &self.program
    }

    fn select_program(&mut self, machine: &mut Machine, state: &State)
        requires
            old(machine)@.wf(),
            old(self).wf(),
            old(self).selecting(),
        ensures
            final(machine)@.wf(),
            old(machine)@.extends(final(machine)@),
            final(self).wf(),
            ProgramSwitching::update_spec(*old(self), *final(self), old(machine)@, final(machine)@, state@),
    {
        if machine.no_ongoing_led_transition() {
            machine.flash_led(
                Led::Left,
                PROGRAM_SWITCH_LED_TRANSITION_DURATION_MS,
                PROGRAM_SWITCH_LED_ON_DURATION_MS,
            );
            machine.flash_led(
                Led::Right,
                PROGRAM_SWITCH_LED_TRANSITION_DURATION_MS,
                PROGRAM_SWITCH_LED_ON_DURATION_MS,
            );
        }
        let ghost ma = machine@;
        let switches = state.iter_just_pressed();
        let ghost sws = switches@;
        let mut i: usize = 0;
        while i < switches.len()
            invariant
                i <= sws.len(),
                switches@ == sws,
                sws == state@.just_pressed_list(),
                ma.wf(),
                ma == ProgramSwitching::selection_animation(old(machine)@),
                machine@.wf(),
                old(machine)@.extends(machine@),
                machine@.time_ms == ma.time_ms,
                machine@.config == ma.config,
                machine@ == announced(sws.take(i as int), ma),
                self.wf(),
                match last_program_key(sws.take(i as int)) {
                    Some(k) => {
                        &&& !self.selecting()
                        &&& is_fresh_program(self.active(), k, old(machine)@)
                    },
                    None => {
                        &&& self.selecting()
                        &&& self.active() == old(self).active()
                    },
                },
            decreases sws.len() - i,
        {
            let ghost pre = sws.take(i as int);
            let ghost next = sws.take(i + 1);
            assert(next.drop_last() =~= pre);
            assert(next.last() == sws[i as int]);
            if let Some((tune, program)) = program_num(switches[i], machine) {
                self.program = program;
                self.in_selection_mode = false;
                let notes = tune.melody();
                machine.play_melody(notes.as_slice());
                machine.wait_for_all_actions();
            }
            i = i + 1;
        }
        assert(sws.take(sws.len() as int) =~= sws);
        proof {
            if last_program_key(sws) is None {
                lemma_no_key_no_announcement(sws, ma);
            }
        }
    }

    pub fn update(&mut self, machine: &mut Machine, state: &State)
        requires
            old(machine)@.wf(),
            old(self).wf(),
        ensures
            final(machine)@.wf(),
            old(machine)@.extends(final(machine)@),
            final(self).wf(),
            ProgramSwitching::update_spec(*old(self), *final(self), old(machine)@, final(machine)@, state@),
    {
        if self.in_selection_mode {
            self.select_program(machine, state);
        } else {
            if state.pressed(Switch::Left) && state.pressed(Switch::Right) {
                self.program.cleanup_before_switch(machine);
                let notes = Tune::ProgramSwitching.melody();
                machine.play_melody(notes.as_slice());
                self.in_selection_mode = true;
            } else {
                self.program.update(machine, state);
            }
        }
    }
}

proof fn lemma_no_key_no_announcement(switches: Seq<Switch>, m: MachineModel)
    requires
        last_program_key(switches) is None,
    ensures
        announced(switches, m) == m,
    decreases switches.len(),
{
    if switches.len() > 0 {
        lemma_no_key_no_announcement(switches.drop_last(), m);
    }
}

impl Default for ProgramSwitching {
    fn default() -> (r: Self)
        ensures
            r.selecting(),
            r.active() is ContinuousPouring,
            r.wf(),
    {
        ProgramSwitching {
            in_selection_mode: true,
            program: ActiveProgram::ContinuousPouring(ContinuousPouring),
        }
    }
}

/// The machine at the start of a tick whose clock reads `now`.
pub open spec fn at_time(m: MachineModel, now: Time) -> MachineModel {
    MachineModel { time_ms: now, ..m }
}

/// One tick after the program step left the machine as `mid`: the due commands are carried
/// out and the lamps' brightness follows.
pub open spec fn tick_outputs(mid: MachineModel) -> Seq<Action> {
    mid.flush_outputs() + mid.flushed().led_outputs()
}

impl Machine {
    /// One tick of the control loop, once the clock reads `now` and the switches have been
    /// sampled into `state`: unless the barrier holds the programs back, the program
    /// decides; then the due commands are carried out. Returns what the hardware is to do:
    /// the relay and speaker commands in queue order, then both lamps' brightness.
    pub fn tick(&mut self, now: Time, state: &State, program: &mut ProgramSwitching) -> (r: Vec<Action>)
        requires
            old(self)@.wf(),
            old(program).wf(),
        ensures
            final(self)@.wf(),
            final(program).wf(),
            old(self)@.barrier ==> {
                let mid = MachineModel {
                    barrier: old(self)@.pending.len() > 0,
                    ..at_time(old(self)@, now)
                };
                &&& *final(program) == *old(program)
                &&& final(self)@ == mid.flushed()
                &&& r@ == tick_outputs(mid)
            },
            !old(self)@.barrier ==> exists|mid: MachineModel|
                {
                    &&& ProgramSwitching::update_spec(
                        *old(program),
                        *final(program),
                        at_time(old(self)@, now),
                        mid,
                        state@,
                    )
                    &&& at_time(old(self)@, now).extends(mid)
                    &&& final(self)@ == mid.flushed()
                    &&& r@ == tick_outputs(mid)
                },
    {
        self.advance(now);
        if self.is_waiting_for_all_actions() {
            self.settle_barrier();
        } else {
            program.update(self, state);
        }
        let ghost mid = self@;
        let mut out = self.perform_pending_actions();
        let mut leds = self.update_leds();
        out.append(&mut leds);
        assert(out@ =~= tick_outputs(mid));
        out
    }
}


/// Within one tick, a command that was pending when the tick began, or that the program
/// queued during it, is carried out exactly when the clock has reached its due time, and
/// otherwise stays pending. `mid` is the machine after the program's step, which keeps every
/// command that was pending before.
pub proof fn lemma_tick_carries_out_due_commands(
    before: MachineModel,
    mid: MachineModel,
    now: Time,
    x: TimedAction,
)
    requires
        at_time(before, now).extends(mid),
        before.pending.contains(x) || mid.pending.contains(x),
    ensures
        mid.pending.contains(x),
        x.timing_ms <= now ==> due_at(mid.pending, now as int).contains(x)
            && !mid.flushed().pending.contains(x),
        x.timing_ms > now ==> mid.flushed().pending.contains(x) && !due_at(
            mid.pending,
            now as int,
        ).contains(x),
{
    if before.pending.contains(x) {
        let i = choose|i: int| 0 <= i < before.pending.len() && before.pending[i] == x;
        assert(mid.pending[i] == x);
    }
    lemma_keep_contains(mid.pending, |a: TimedAction| a.timing_ms <= now as int, x);
    lemma_keep_contains(mid.pending, |a: TimedAction| a.timing_ms > now as int, x);
}
} // verus!
