use vstd::prelude::*;

use core::ops::RangeInclusive;

use crate::hardware_interface::InputSnapshot;
use crate::hardware_interface::State;
use crate::hardware_interface::Switch;
use crate::machine::Machine;
use crate::machine::MachineModel;
use crate::melody::Tune;
use crate::Duration;

verus! {

pub const DEFAULT_NUM_PLAYERS: usize = 2;

pub const DURATION_MS_PER_SHOT: Duration = 700;

pub const RUSSIAN_ROULETTE_DEFAULT_LOSS_PERCENT: u32 = 10;

pub const RUSSIAN_ROULETTE_DEFAULT_MIN_NUM_SHOTS: usize = 4;

pub const RUSSIAN_ROULETTE_DEFAULT_MAX_NUM_SHOTS: usize = 10;

pub const REACTION_DEFAULT_NUM_SHOTS_LOSER: usize = 5;

pub const REACTION_DEFAULT_NUM_SHOTS_EARLY_START: usize = 10;

/// The tunable parameters of the programs.
#[derive(Debug, Clone, Copy, PartialEq, Eq, Structural)]
pub struct Configuration {
    pub num_players: usize,
    pub shot_duration: Duration,
    /// Chance, in percent, that a round of Russian roulette selects the player.
    pub russian_roulette_loss_percent: u32,
    pub russian_roulette_min_num_shots: usize,
    pub russian_roulette_max_num_shots: usize,
    pub reaction_num_shots_loser: usize,
    pub reaction_num_shots_early_start: usize,
}

/// A parameter of the configuration that can be set from the keypad.
#[derive(Debug, Clone, Copy, PartialEq, Eq, Structural)]
pub enum Variable {
    ReactionNumberOfPlayers,
    DelayPerShot,
    RussianRouletteLossProbability,
    RussianRouletteMinNumberOfShots,
    RussianRouletteMaxNumberOfShots,
    ReactionNumShotsLoser,
    ReactionNumShotsEarlyStart,
}

impl Variable {
    /// Smallest accepted value.
    pub open spec fn low(self) -> nat {
        match self {
            Variable::ReactionNumberOfPlayers => 1,
            Variable::DelayPerShot => 100,
            Variable::RussianRouletteLossProbability => 0,
            _ => 1,
        }
    }

    /// Largest accepted value.
    pub open spec fn high(self) -> nat {
        match self {
            Variable::ReactionNumberOfPlayers => 9,
            Variable::DelayPerShot => 2000,
            Variable::RussianRouletteLossProbability => 100,
            _ => 80,
        }
    }

    pub open spec fn accepts(self, value: int) -> bool {
        self.low() <= value <= self.high()
    }

    pub fn acceptable_range(&self) -> (r: RangeInclusive<usize>)
        ensures
            r@.start == self.low(),
            r@.end == self.high(),
            !r@.exhausted,
    {
        match self {
            Variable::ReactionNumberOfPlayers => 1..=9,
            Variable::DelayPerShot => 100..=2000,
            Variable::RussianRouletteLossProbability => 0..=100,
            Variable::RussianRouletteMinNumberOfShots => 1..=80,
            Variable::RussianRouletteMaxNumberOfShots => 1..=80,
            Variable::ReactionNumShotsLoser => 1..=80,
            Variable::ReactionNumShotsEarlyStart => 1..=80,
        }
    }

    /// Whether `value` lies in the accepted range.
    pub fn accepts_value(&self, value: usize) -> (r: bool)
        ensures
            r == self.accepts(value as int),
    {
        self.acceptable_range().contains(&value)
    }

    /// The variable that keypad digit `num` selects in the configuration menu.
    pub open spec fn spec_selected_by(num: nat) -> Option<Variable> {
        if num == 1 {
            Some(Variable::DelayPerShot)
        } else if num == 2 {
            Some(Variable::RussianRouletteLossProbability)
        } else if num == 3 {
            Some(Variable::RussianRouletteMinNumberOfShots)
        } else if num == 4 {
            Some(Variable::RussianRouletteMaxNumberOfShots)
        } else if num == 5 {
            Some(Variable::ReactionNumberOfPlayers)
        } else if num == 6 {
            Some(Variable::ReactionNumShotsLoser)
        } else if num == 7 {
            Some(Variable::ReactionNumShotsEarlyStart)
        } else {
            None
        }
    }

    pub fn selected_by(num: usize) -> (r: Option<Variable>)
        ensures
            r == Variable::spec_selected_by(num as nat),
    {
        match num {
            1 => Some(Variable::DelayPerShot),
            2 => Some(Variable::RussianRouletteLossProbability),
            3 => Some(Variable::RussianRouletteMinNumberOfShots),
            4 => Some(Variable::RussianRouletteMaxNumberOfShots),
            5 => Some(Variable::ReactionNumberOfPlayers),
            6 => Some(Variable::ReactionNumShotsLoser),
            7 => Some(Variable::ReactionNumShotsEarlyStart),
            _ => None,
        }
    }
}

impl Configuration {
    /// Every parameter lies in the range its variable accepts.
    pub open spec fn wf(self) -> bool {
        &&& Variable::ReactionNumberOfPlayers.accepts(self.num_players as int)
        &&& Variable::DelayPerShot.accepts(self.shot_duration as int)
        &&& Variable::RussianRouletteLossProbability.accepts(
            self.russian_roulette_loss_percent as int,
        )
        &&& Variable::RussianRouletteMinNumberOfShots.accepts(
            self.russian_roulette_min_num_shots as int,
        )
        &&& Variable::RussianRouletteMaxNumberOfShots.accepts(
            self.russian_roulette_max_num_shots as int,
        )
        &&& Variable::ReactionNumShotsLoser.accepts(self.reaction_num_shots_loser as int)
        &&& Variable::ReactionNumShotsEarlyStart.accepts(self.reaction_num_shots_early_start as int)
    }

    pub open spec fn spec_default() -> Configuration {
        Configuration {
            num_players: DEFAULT_NUM_PLAYERS,
            shot_duration: DURATION_MS_PER_SHOT,
            russian_roulette_loss_percent: RUSSIAN_ROULETTE_DEFAULT_LOSS_PERCENT,
            russian_roulette_min_num_shots: RUSSIAN_ROULETTE_DEFAULT_MIN_NUM_SHOTS,
            russian_roulette_max_num_shots: RUSSIAN_ROULETTE_DEFAULT_MAX_NUM_SHOTS,
            reaction_num_shots_loser: REACTION_DEFAULT_NUM_SHOTS_LOSER,
            reaction_num_shots_early_start: REACTION_DEFAULT_NUM_SHOTS_EARLY_START,
        }
    }

    /// The configuration with `variable` set to `value`.
    pub open spec fn with(self, variable: Variable, value: usize) -> Configuration {
        match variable {
            Variable::ReactionNumberOfPlayers => Configuration { num_players: value, ..self },
            Variable::DelayPerShot => Configuration { shot_duration: value as u32, ..self },
            Variable::RussianRouletteLossProbability => Configuration {
                russian_roulette_loss_percent: value as u32,
                ..self
            },
            Variable::RussianRouletteMinNumberOfShots => Configuration {
                russian_roulette_min_num_shots: value,
                ..self
            },
            Variable::RussianRouletteMaxNumberOfShots => Configuration {
                russian_roulette_max_num_shots: value,
                ..self
            },
            Variable::ReactionNumShotsLoser => Configuration {
                reaction_num_shots_loser: value,
                ..self
            },
            Variable::ReactionNumShotsEarlyStart => Configuration {
                reaction_num_shots_early_start: value,
                ..self
            },
        }
    }

    /// Sets `variable` to `value`, which its range must accept.
    pub fn set(&mut self, variable: Variable, value: usize)
        requires
            old(self).wf(),
            variable.accepts(value as int),
        ensures
            *final(self) == old(self).with(variable, value),
            final(self).wf(),
    {
        match variable {
            Variable::ReactionNumberOfPlayers => {
                self.num_players = value;
            },
            Variable::DelayPerShot => {
                self.shot_duration = value as u32;
            },
            Variable::RussianRouletteLossProbability => {
                self.russian_roulette_loss_percent = value as u32;
            },
            Variable::RussianRouletteMinNumberOfShots => {
                self.russian_roulette_min_num_shots = value;
            },
            Variable::RussianRouletteMaxNumberOfShots => {
                self.russian_roulette_max_num_shots = value;
            },
            Variable::ReactionNumShotsLoser => {
                self.reaction_num_shots_loser = value;
            },
            Variable::ReactionNumShotsEarlyStart => {
                self.reaction_num_shots_early_start = value;
            },
        }
    }
}

impl Default for Configuration {
    fn default() -> (r: Self)
        ensures
            r == Configuration::spec_default(),
            r.wf(),
    {
        Configuration {
            num_players: DEFAULT_NUM_PLAYERS,
            shot_duration: DURATION_MS_PER_SHOT,
            russian_roulette_loss_percent: RUSSIAN_ROULETTE_DEFAULT_LOSS_PERCENT,
            russian_roulette_min_num_shots: RUSSIAN_ROULETTE_DEFAULT_MIN_NUM_SHOTS,
            russian_roulette_max_num_shots: RUSSIAN_ROULETTE_DEFAULT_MAX_NUM_SHOTS,
            reaction_num_shots_loser: REACTION_DEFAULT_NUM_SHOTS_LOSER,
            reaction_num_shots_early_start: REACTION_DEFAULT_NUM_SHOTS_EARLY_START,
        }
    }
}


/// The value of `digits`, most significant first.
pub open spec fn digits_value(digits: Seq<usize>) -> nat
    decreases digits.len(),
{
    if digits.len() == 0 {
        0
    } else {
        digits_value(digits.drop_last()) * 10 + digits.last() as nat
    }
}

/// The digits of the digit switches among `switches`, in order.
pub open spec fn digits_of(switches: Seq<Switch>) -> Seq<usize>
    decreases switches.len(),
{
    if switches.len() == 0 {
        Seq::empty()
    } else {
        let rest = digits_of(switches.drop_last());
        match switches.last().digit() {
            Some(d) => rest.push(d as usize),
            None => rest,
        }
    }
}

/// What the configuration menu holds: the variable being set, if any, and the digits typed.
pub struct MenuModel {
    pub selected_variable: Option<Variable>,
    pub typed_digits: Seq<usize>,
}

impl MenuModel {
    pub open spec fn wf(self) -> bool {
        forall|i: int| 0 <= i < self.typed_digits.len() ==> #[trigger] self.typed_digits[i] < 10
    }

    pub open spec fn cleared() -> MenuModel {
        MenuModel { selected_variable: None, typed_digits: Seq::empty() }
    }

    /// The typed number, or `usize::MAX` when it is larger.
    pub open spec fn typed_num(self) -> nat {
        let v = digits_value(self.typed_digits);
        if v <= usize::MAX {
            v
        } else {
            usize::MAX as nat
        }
    }

    /// The menu while no variable is selected: the lowest digit just pressed selects the
    /// variable it maps to, with a cue; other digits, and the side switches, do nothing.
    pub open spec fn selection_spec(
        c0: MenuModel,
        c1: MenuModel,
        m0: MachineModel,
        m1: MachineModel,
        input: InputSnapshot,
    ) -> bool {
        match input.lowest_just_pressed_digit() {
            Some(n) => match Variable::spec_selected_by(n) {
                Some(v) => {
                    &&& c1 == MenuModel { selected_variable: Some(v), ..c0 }
                    &&& m1 == m0.enqueue(
                        m0.play_actions(Tune::ConfirmSelection.notes()),
                    ).raise_barrier()
                },
                None => c1 == c0 && m1 == m0,
            },
            None => c1 == c0 && m1 == m0,
        }
    }

    /// The menu while `v` is selected: just-pressed digits are appended; Right commits the
    /// typed number if `v` accepts it (confirm cue, menu cleared) or discards the digits
    /// (error cue); Left then clears the menu.
    pub open spec fn setting_spec(
        c0: MenuModel,
        c1: MenuModel,
        m0: MachineModel,
        m1: MachineModel,
        input: InputSnapshot,
        v: Variable,
    ) -> bool {
        let typed = MenuModel {
            typed_digits: c0.typed_digits + digits_of(input.just_pressed_list()),
            ..c0
        };
        let num = typed.typed_num();
        let (c_right, m_right) = if input.just_pressed(Switch::Right) {
            if v.accepts(num as int) {
                (
                    MenuModel::cleared(),
                    MachineModel {
                        config: m0.config.with(v, num as usize),
                        ..m0.enqueue(m0.play_actions(Tune::ConfirmSelection.notes()))
                    }.raise_barrier(),
                )
            } else {
                (
                    MenuModel { typed_digits: Seq::empty(), ..typed },
                    m0.enqueue(m0.play_actions(Tune::Error.notes())).raise_barrier(),
                )
            }
        } else {
            (typed, m0)
        };
        &&& m1 == m_right
        &&& c1 == if input.just_pressed(Switch::Left) {
            MenuModel::cleared()
        } else {
            c_right
        }
    }

    pub open spec fn update_spec(
        c0: MenuModel,
        c1: MenuModel,
        m0: MachineModel,
        m1: MachineModel,
        input: InputSnapshot,
    ) -> bool {
        match c0.selected_variable {
            Some(v) => MenuModel::setting_spec(c0, c1, m0, m1, input, v),
            None => MenuModel::selection_spec(c0, c1, m0, m1, input),
        }
    }
}

/// The configuration menu: a digit picks a variable, further digits type its new value,
/// Right commits it and Left cancels.
pub struct ConfigurationProgram {
    selected_variable: Option<Variable>,
    typed_digits: Vec<usize>,
}

impl View for ConfigurationProgram {
    type V = MenuModel;

    closed spec fn view(&self) -> MenuModel {
        MenuModel { selected_variable: self.selected_variable, typed_digits: self.typed_digits@ }
    }
}

impl Default for ConfigurationProgram {
    fn default() -> (r: Self)
        ensures
            r@ == MenuModel::cleared(),
    {
        let r = ConfigurationProgram { selected_variable: None, typed_digits: Vec::new() };
        assert(r@.typed_digits =~= Seq::<usize>::empty());
        r
    }
}

impl ConfigurationProgram {
    pub fn selected_variable(&self) -> (r: Option<Variable>)
        ensures
            r == self@.selected_variable,
    {
        self.selected_variable
    }

    /// Sets `selected_variable` to `num`, which its range accepts.
    pub fn configure(&self, machine: &mut Machine, selected_variable: &Variable, num: usize)
        requires
            old(machine)@.wf(),
            selected_variable.accepts(num as int),
        ensures
            final(machine)@.wf(),
            old(machine)@.extends(final(machine)@),
            final(machine)@ == (MachineModel {
                config: old(machine)@.config.with(*selected_variable, num),
                ..old(machine)@
            }),
    {
        machine.configure(*selected_variable, num);
    }

    fn type_digits(&mut self, state: &State)
        requires
            old(self)@.wf(),
        ensures
            final(self)@.wf(),
            final(self)@ == (MenuModel {
                typed_digits: old(self)@.typed_digits + digits_of(state@.just_pressed_list()),
                ..old(self)@
            }),
    {
        let ghost t0 = self.typed_digits@;
        let pressed = state.iter_just_pressed();
        let mut i: usize = 0;
        while i < pressed.len()
            invariant
                i <= pressed@.len(),
                pressed@ == state@.just_pressed_list(),
                self.selected_variable == old(self).selected_variable,
                self.typed_digits@ == t0 + digits_of(pressed@.take(i as int)),
                t0 == old(self)@.typed_digits,
                old(self)@.wf(),
                self@.wf(),
            decreases pressed@.len() - i,
        {
            let ghost before = pressed@.take(i as int);
            assert(pressed@.take(i + 1).drop_last() =~= before);
            assert(pressed@.take(i + 1).last() == pressed@[i as int]);
            if let Some(num) = pressed[i].get_num() {
                let ghost before = self.typed_digits@;
                assert(self@.typed_digits == before);
                assert(self@.wf());
                self.typed_digits.push(num);
                assert forall|j: int| 0 <= j < self.typed_digits@.len() implies #[trigger] self.typed_digits@[j] < 10 by {
                    if j < before.len() {
                        assert(before[j] < 10);
                    }
                }
            }
            i = i + 1;
            assert(self.typed_digits@ =~= t0 + digits_of(pressed@.take(i as int)));
        }
        assert(pressed@.take(pressed@.len() as int) =~= pressed@);
    }

    fn wait_for_setting(&mut self, machine: &mut Machine, state: &State)
        requires
            old(machine)@.wf(),
            old(self)@.wf(),
            old(self)@.selected_variable is Some,
        ensures
            final(machine)@.wf(),
            old(machine)@.extends(final(machine)@),
            final(self)@.wf(),
            MenuModel::update_spec(old(self)@, final(self)@, old(machine)@, final(machine)@, state@),
    {
        let selected_variable = self.selected_variable.unwrap();
        self.type_digits(state);
        if state.just_pressed(Switch::Right) {
            let num = self.get_typed_num();
            if selected_variable.accepts_value(num) {
                let melody = Tune::ConfirmSelection.melody();
                machine.play_melody(melody.as_slice());
                self.configure(machine, &selected_variable, num);
                self.reset();
            } else {
                let melody = Tune::Error.melody();
                machine.play_melody(melody.as_slice());
                self.typed_digits = Vec::new();
                assert(self@.typed_digits =~= Seq::<usize>::empty());
            }
            machine.wait_for_all_actions();
        }
        if state.just_pressed(Switch::Left) {
            self.reset();
        }
    }

    /// Clears the selection and the typed digits.
    pub fn reset(&mut self)
        ensures
            final(self)@ == MenuModel::cleared(),
    {
        self.typed_digits = Vec::new();
        self.selected_variable = None;
        assert(self@.typed_digits =~= Seq::<usize>::empty());
    }

    /// The number typed so far, or `usize::MAX` when it is larger.
    pub fn get_typed_num(&self) -> (r: usize)
        ensures
            r == self@.typed_num(),
    {
        let mut sum: usize = 0;
        let mut i: usize = 0;
        while i < self.typed_digits.len()
            invariant
                i <= self.typed_digits@.len(),
                sum == (MenuModel { typed_digits: self.typed_digits@.take(i as int), ..self@ }).typed_num(),
            decreases self.typed_digits@.len() - i,
        {
            let ghost pre = self.typed_digits@.take(i as int);
            let ghost next = self.typed_digits@.take(i + 1);
            assert(next.drop_last() =~= pre);
            assert(next.last() == self.typed_digits@[i as int]);
            let d = self.typed_digits[i];
            sum = match sum.checked_mul(10) {
                Some(x) => match x.checked_add(d) {
                    Some(y) => y,
                    None => usize::MAX,
                },
                None => usize::MAX,
            };
            i = i + 1;
        }
        assert(self.typed_digits@.take(self.typed_digits@.len() as int) =~= self.typed_digits@);
        sum
    }

    fn wait_for_variable_selection(&mut self, machine: &mut Machine, state: &State)
        requires
            old(machine)@.wf(),
            old(self)@.wf(),
            old(self)@.selected_variable is None,
        ensures
            final(machine)@.wf(),
            old(machine)@.extends(final(machine)@),
            final(self)@.wf(),
            MenuModel::update_spec(old(self)@, final(self)@, old(machine)@, final(machine)@, state@),
    {
        let ghost typed = self.typed_digits@;
        assert(self@.typed_digits == typed);
        assert(forall|j: int| 0 <= j < typed.len() ==> #[trigger] typed[j] < 10);
        if let Some(num) = state.lowest_pressed_number_key() {
            self.selected_variable = Variable::selected_by(num);
            assert forall|j: int| 0 <= j < self.typed_digits@.len() implies #[trigger] self.typed_digits@[j] < 10 by {
                assert(typed[j] < 10);
            }
            if self.selected_variable.is_some() {
                let melody = Tune::ConfirmSelection.melody();
                machine.play_melody(melody.as_slice());
                machine.wait_for_all_actions();
            }
        }
    }

    pub fn update(&mut self, machine: &mut Machine, state: &State)
        requires
            old(machine)@.wf(),
            old(self)@.wf(),
        ensures
            final(machine)@.wf(),
            old(machine)@.extends(final(machine)@),
            final(self)@.wf(),
            MenuModel::update_spec(old(self)@, final(self)@, old(machine)@, final(machine)@, state@),
    {
        if self.selected_variable.is_some() {
            self.wait_for_setting(machine, state);
        } else {
            self.wait_for_variable_selection(machine, state);
        }
    }
}

} // verus!
