use vstd::prelude::*;

use rand::rngs::SmallRng;

use crate::hardware_interface::digit_switch;
use crate::hardware_interface::InputSnapshot;
use crate::hardware_interface::Led;
use crate::hardware_interface::State;
use crate::hardware_interface::Switch;
use crate::machine::Machine;
use crate::machine::MachineModel;
use crate::melody::Tune;
use crate::random::draw_below;
use crate::random::seeded_rng;
use crate::Duration;

verus! {

pub const MIN_REACTION_DURATION_MS: u32 = 5000;

pub const MAX_REACTION_DURATION_MS: u32 = 15000;

pub const LED_ON_DURATION: Duration = 200;

pub const LED_FLASH_DURATION: Duration = 500;

pub const MAX_NUM_PLAYERS: usize = 6;

/// Which members of a team have pressed their switch since the race began.
pub struct TeamState {
    players_pressed: Vec<bool>,
}

impl View for TeamState {
    type V = Seq<bool>;

    closed spec fn view(&self) -> Seq<bool> {
        self.players_pressed@
    }
}

/// True when every member has pressed.
pub open spec fn team_won(pressed: Seq<bool>) -> bool {
    forall|i: int| 0 <= i < pressed.len() ==> #[trigger] pressed[i]
}

impl TeamState {
    /// A team of `num_players` members, none of whom has pressed.
    pub fn new(num_players: usize) -> (r: TeamState)
        ensures
            r@ == Seq::new(num_players as nat, |i: int| false),
    {
        let mut players_pressed: Vec<bool> = Vec::new();
        let mut i: usize = 0;
        while i < num_players
            invariant
                i <= num_players,
                players_pressed@ == Seq::new(i as nat, |j: int| false),
            decreases num_players - i,
        {
            players_pressed.push(false);
            i = i + 1;
            assert(players_pressed@ =~= Seq::new(i as nat, |j: int| false));
        }
        TeamState { players_pressed }
    }

    pub fn won(&self) -> (r: bool)
        ensures
            r == team_won(self@),
    {
        let mut i: usize = 0;
        while i < self.players_pressed.len()
            invariant
                i <= self@.len(),
                forall|j: int| 0 <= j < i ==> #[trigger] self@[j],
            decreases self@.len() - i,
        {
            if !self.players_pressed[i] {
                return false;
            }
            i = i + 1;
        }
        true
    }
}

/// Why a team has to drink.
#[derive(Debug, Clone, Copy, PartialEq, Eq, Structural)]
pub enum Reason {
    SlowReaction,
    /// The player of this index on the opposing team pressed before the signal.
    EarlyStart(usize),
}

#[derive(Debug, Clone, Copy, PartialEq, Eq, Structural)]
pub enum Team {
    Left,
    Right,
}

/// A seat at the machine: its digit switch and its index within the team.
#[derive(Debug, Clone, Copy, PartialEq, Eq, Structural)]
pub struct Player {
    pub button_num: usize,
    pub index: usize,
}

pub enum GameState {
    WaitForStart,
    WaitForTiming(u64),
    WaitForAllButtonPresses(TeamState, TeamState),
    WaitForGlass { reason: Reason, team: Team },
}

/// The phase of the game, with each team's presses as a sequence.
pub enum Phase {
    WaitForStart,
    WaitForTiming(u64),
    WaitForAllButtonPresses(Seq<bool>, Seq<bool>),
    WaitForGlass { reason: Reason, team: Team },
}

impl View for GameState {
    type V = Phase;

    closed spec fn view(&self) -> Phase {
        match self {
            GameState::WaitForStart => Phase::WaitForStart,
            GameState::WaitForTiming(t) => Phase::WaitForTiming(*t),
            GameState::WaitForAllButtonPresses(l, r) => Phase::WaitForAllButtonPresses(l@, r@),
            GameState::WaitForGlass { reason, team } => Phase::WaitForGlass {
                reason: *reason,
                team: *team,
            },
        }
    }
}

pub open spec fn left_players() -> Seq<Player> {
    seq![
        Player { button_num: 1, index: 0 },
        Player { button_num: 4, index: 1 },
        Player { button_num: 7, index: 2 },
    ]
}

pub open spec fn right_players() -> Seq<Player> {
    seq![
        Player { button_num: 3, index: 0 },
        Player { button_num: 6, index: 1 },
        Player { button_num: 9, index: 2 },
    ]
}

pub fn players_left_side() -> (r: Vec<Player>)
    ensures
        r@ == left_players(),
{
    vec![
        Player { button_num: 1, index: 0 },
        Player { button_num: 4, index: 1 },
        Player { button_num: 7, index: 2 },
    ]
}

pub fn players_right_side() -> (r: Vec<Player>)
    ensures
        r@ == right_players(),
{
    vec![
        Player { button_num: 3, index: 0 },
        Player { button_num: 6, index: 1 },
        Player { button_num: 9, index: 2 },
    ]
}

pub open spec fn num_left(num_players: nat) -> nat {
    num_players / 2
}

pub open spec fn num_right(num_players: nat) -> nat {
    (num_players - num_players / 2) as nat
}

/// The players in the game, the left team first, each with its team.
pub open spec fn active_players(num_players: nat) -> Seq<(Player, Team)> {
    left_players().take(num_left(num_players) as int).map_values(|p: Player| (p, Team::Left))
        + right_players().take(num_right(num_players) as int).map_values(
        |p: Player| (p, Team::Right),
    )
}

pub proof fn lemma_active_players(num_players: nat)
    requires
        num_players <= MAX_NUM_PLAYERS,
    ensures
        active_players(num_players).len() == num_players,
        forall|k: int|
            0 <= k < active_players(num_players).len() ==> #[trigger] active_players(
                num_players,
            )[k].0.button_num < 10 && active_players(num_players)[k].0.index < 3,
{
    let nl = num_left(num_players) as int;
    let nr = num_right(num_players) as int;
    let a = left_players().take(nl).map_values(|p: Player| (p, Team::Left));
    let b = right_players().take(nr).map_values(|p: Player| (p, Team::Right));
    assert forall|k: int| 0 <= k < a.len() implies #[trigger] a[k].0.button_num < 10 && a[k].0.index
        < 3 by {
        assert(a[k].0 == left_players()[k]);
    }
    assert forall|k: int| 0 <= k < b.len() implies #[trigger] b[k].0.button_num < 10 && b[k].0.index
        < 3 by {
        assert(b[k].0 == right_players()[k]);
    }
    assert forall|k: int| 0 <= k < (a + b).len() implies #[trigger] (a + b)[k].0.button_num < 10
        && (a + b)[k].0.index < 3 by {
        if k < a.len() {
            assert((a + b)[k] == a[k]);
        } else {
            assert((a + b)[k] == b[k - a.len()]);
        }
    }
}

pub open spec fn holds(input: InputSnapshot, p: Player) -> bool {
    input.pressed(digit_switch(p.button_num as int))
}

/// The first of `players`, from index `k` on, who holds a switch.
pub open spec fn first_holding(input: InputSnapshot, players: Seq<(Player, Team)>, k: int) -> Option<
    (Player, Team),
>
    decreases players.len() - k,
{
    if k >= players.len() || k < 0 {
        None
    } else if holds(input, players[k].0) {
        Some(players[k])
    } else {
        first_holding(input, players, k + 1)
    }
}

/// A team's presses after this tick: a member pressed before, or holds the switch now.
pub open spec fn updated_team(pressed: Seq<bool>, input: InputSnapshot, side: Seq<Player>) -> Seq<bool> {
    Seq::new(
        pressed.len(),
        |i: int| pressed[i] || (i < side.len() && holds(input, side[i])),
    )
}

/// The team playing against `team`.
pub open spec fn opponent(team: Team) -> Team {
    match team {
        Team::Left => Team::Right,
        Team::Right => Team::Left,
    }
}

/// The team playing against `team`.
pub fn other_team(team: Team) -> (r: Team)
    ensures
        r == opponent(team),
{
    match team {
        Team::Left => Team::Right,
        Team::Right => Team::Left,
    }
}

pub open spec fn team_led(team: Team) -> Led {
    match team {
        Team::Left => Led::Left,
        Team::Right => Led::Right,
    }
}

/// The tune that names the player of index `p` who started early.
pub open spec fn identification_tune(p: nat) -> Tune {
    if p == 0 {
        Tune::ReactionTesterPlayer0Identification
    } else if p == 1 {
        Tune::ReactionTesterPlayer1Identification
    } else {
        Tune::ReactionTesterPlayer2Identification
    }
}

/// What a reaction game holds, its generator aside.
pub struct ReactionModel {
    pub num_players: usize,
    pub phase: Phase,
}

impl ReactionModel {
    pub open spec fn wf(self) -> bool {
        &&& self.num_players <= MAX_NUM_PLAYERS
        &&& self.phase matches Phase::WaitForGlass { reason: Reason::EarlyStart(p), .. } ==> p < 3
    }

    pub open spec fn in_phase(self, phase: Phase) -> ReactionModel {
        ReactionModel { phase, ..self }
    }

    pub open spec fn shots_for(reason: Reason, m: MachineModel) -> nat {
        match reason {
            Reason::SlowReaction => m.config.reaction_num_shots_loser as nat,
            Reason::EarlyStart(_) => m.config.reaction_num_shots_early_start as nat,
        }
    }

    /// Starting a round: the signal falls `delay` milliseconds from now.
    pub open spec fn round_start(
        r0: ReactionModel,
        r1: ReactionModel,
        m0: MachineModel,
        m1: MachineModel,
        delay: nat,
    ) -> bool {
        &&& r1 == r0.in_phase(Phase::WaitForTiming((m0.time_ms + delay) as u64))
        &&& m1 == m0.enqueue(m0.play_actions(Tune::ReactionTesterGameBegins.notes())).raise_barrier()
    }

    /// While waiting for the signal at `timing`: a player who holds a switch starts early,
    /// which ends the round and sends the opposing team to the glass, the early player's
    /// index kept for the tune that names them; otherwise, once the time has passed, the
    /// race begins.
    pub open spec fn timing_spec(
        r0: ReactionModel,
        r1: ReactionModel,
        m0: MachineModel,
        m1: MachineModel,
        input: InputSnapshot,
        timing: u64,
    ) -> bool {
        let n = r0.num_players as nat;
        match first_holding(input, active_players(n), 0) {
            Some((p, team)) => {
                &&& r1 == r0.in_phase(
                    Phase::WaitForGlass { reason: Reason::EarlyStart(p.index), team: opponent(team) },
                )
                &&& m1 == m0.enqueue(
                    m0.play_actions(Tune::ReactionTesterEarlyStart.notes()),
                ).raise_barrier()
            },
            None => if m0.time_ms > timing {
                &&& r1 == r0.in_phase(
                    Phase::WaitForAllButtonPresses(
                        Seq::new(num_left(n), |i: int| false),
                        Seq::new(num_right(n), |i: int| false),
                    ),
                )
                &&& m1 == m0.enqueue(
                    m0.play_actions(Tune::ReactionTesterWaitForReaction.notes()),
                ).raise_barrier()
            } else {
                r1 == r0 && m1 == m0
            },
        }
    }

    /// During the race: the first team all of whose members have pressed wins, the left team
    /// first; the other team drinks.
    pub open spec fn race_spec(
        r0: ReactionModel,
        r1: ReactionModel,
        m0: MachineModel,
        m1: MachineModel,
        input: InputSnapshot,
        left: Seq<bool>,
        right: Seq<bool>,
    ) -> bool {
        let l = updated_team(left, input, left_players());
        let r = updated_team(right, input, right_players());
        let won = m0.enqueue(m0.play_actions(Tune::ReactionTesterTeamWon.notes())).raise_barrier();
        if team_won(l) {
            r1 == r0.in_phase(
                Phase::WaitForGlass { reason: Reason::SlowReaction, team: Team::Right },
            ) && m1 == won
        } else if team_won(r) {
            r1 == r0.in_phase(
                Phase::WaitForGlass { reason: Reason::SlowReaction, team: Team::Left },
            ) && m1 == won
        } else {
            r1 == r0.in_phase(Phase::WaitForAllButtonPresses(l, r)) && m1 == m0
        }
    }

    /// The machine after the losing team's lamp flashes (when no ramp runs) and, after an
    /// early start, the tune that names the player (when no sound is pending).
    pub open spec fn glass_signals(m0: MachineModel, reason: Reason, team: Team) -> MachineModel {
        let ma = if m0.no_ongoing_led_transition() {
            m0.enqueue(
                m0.flash_actions(team_led(team), LED_FLASH_DURATION as nat, LED_ON_DURATION as nat),
            )
        } else {
            m0
        };
        match reason {
            Reason::EarlyStart(p) => if ma.no_sound_queued() {
                ma.enqueue(ma.play_actions(identification_tune(p as nat).notes()))
            } else {
                ma
            },
            Reason::SlowReaction => ma,
        }
    }

    /// Waiting for the losing team's glass: the next press pours its shots.
    pub open spec fn glass_spec(
        r0: ReactionModel,
        r1: ReactionModel,
        m0: MachineModel,
        m1: MachineModel,
        input: InputSnapshot,
        reason: Reason,
        team: Team,
    ) -> bool {
        let mb = ReactionModel::glass_signals(m0, reason, team);
        if input.anything_just_pressed() {
            &&& r1 == r0.in_phase(Phase::WaitForStart)
            &&& m1 == mb.pour_with_melody(ReactionModel::shots_for(reason, m0)).raise_barrier()
        } else {
            r1 == r0 && m1 == mb
        }
    }

    pub open spec fn update_spec(
        r0: ReactionModel,
        r1: ReactionModel,
        m0: MachineModel,
        m1: MachineModel,
        input: InputSnapshot,
    ) -> bool {
        match r0.phase {
            Phase::WaitForStart => {
                let players = active_players(r0.num_players as nat);
                if forall|k: int| 0 <= k < players.len() ==> holds(input, #[trigger] players[k].0) {
                    exists|delay: nat|
                        MIN_REACTION_DURATION_MS <= delay < MAX_REACTION_DURATION_MS
                            && ReactionModel::round_start(r0, r1, m0, m1, delay)
                } else {
                    r1 == r0 && m1 == m0
                }
            },
            Phase::WaitForTiming(t) => ReactionModel::timing_spec(r0, r1, m0, m1, input, t),
            Phase::WaitForAllButtonPresses(l, r) => ReactionModel::race_spec(
                r0,
                r1,
                m0,
                m1,
                input,
                l,
                r,
            ),
            Phase::WaitForGlass { reason, team } => ReactionModel::glass_spec(
                r0,
                r1,
                m0,
                m1,
                input,
                reason,
                team,
            ),
        }
    }
}

/// A team game: when every player holds a switch a round starts; at a random moment a tune
/// gives the signal, and the first team whose members have all pressed wins. Pressing early
/// makes one's team lose at once.
pub struct ReactionTester {
    num_players: usize,
    state: GameState,
    rng: SmallRng,
}

impl View for ReactionTester {
    type V = ReactionModel;

    closed spec fn view(&self) -> ReactionModel {
        ReactionModel { num_players: self.num_players, phase: self.state@ }
    }
}

fn get_wait_for_start_state_with_random_timing(machine: &Machine, rng: &mut SmallRng) -> (r: (GameState, u32))
    ensures
        MIN_REACTION_DURATION_MS <= r.1 < MAX_REACTION_DURATION_MS,
        r.0@ == Phase::WaitForTiming((machine@.time_ms + r.1) as u64),
{
    let time = machine.time_ms();
    let duration = draw_below(rng, MIN_REACTION_DURATION_MS, MAX_REACTION_DURATION_MS);
    (GameState::WaitForTiming(time as u64 + duration as u64), duration)
}

impl ReactionTester {
    /// A fresh game for the configured number of players (at most six).
    pub open spec fn fresh_model(m: MachineModel) -> ReactionModel {
        ReactionModel {
            num_players: if m.config.num_players <= MAX_NUM_PLAYERS {
                m.config.num_players
            } else {
                MAX_NUM_PLAYERS
            },
            phase: Phase::WaitForStart,
        }
    }

    /// A fresh game, its generator seeded from the machine's clock.
    pub fn new(machine: &Machine) -> (r: Self)
        ensures
            r@ == ReactionTester::fresh_model(machine@),
            r@.wf(),
    {
        let configured = machine.config().num_players;
        let num_players = if configured <= MAX_NUM_PLAYERS {
            configured
        } else {
            MAX_NUM_PLAYERS
        };
        ReactionTester {
            num_players,
            rng: seeded_rng(machine.time_ms() as u64),
            state: GameState::WaitForStart,
        }
    }

    pub fn game_state(&self) -> (r: &GameState)
        ensures
            r@ == self@.phase,
    {
        &self.state
    }

    pub fn num_players(&self) -> (r: usize)
        ensures
            r == self@.num_players,
    {
        self.num_players
    }

    pub fn num_players_left(&self) -> (r: usize)
        ensures
            r == num_left(self@.num_players as nat),
    {
        self.num_players / 2
    }

    pub fn num_players_right(&self) -> (r: usize)
        ensures
            r == num_right(self@.num_players as nat),
    {
        let num_players_left = self.num_players_left();
        self.num_players - num_players_left
    }

    /// The players in the game, the left team first.
    pub fn iter_active_players(&self) -> (r: Vec<(Player, Team)>)
        requires
            self@.wf(),
        ensures
            r@ == active_players(self@.num_players as nat),
    {
        let left = players_left_side();
        let right = players_right_side();
        let nl = self.num_players_left();
        let nr = self.num_players_right();
        let ghost spec_left = left_players().take(nl as int).map_values(|p: Player| (p, Team::Left));
        let ghost spec_right = right_players().take(nr as int).map_values(
            |p: Player| (p, Team::Right),
        );
        let mut r: Vec<(Player, Team)> = Vec::new();
        let mut i: usize = 0;
        while i < nl
            invariant
                nl <= 3,
                i <= nl,
                left@ == left_players(),
                spec_left == left_players().take(nl as int).map_values(|p: Player| (p, Team::Left)),
                r@ == spec_left.take(i as int),
            decreases nl - i,
        {
            r.push((left[i], Team::Left));
            i = i + 1;
            assert(r@ =~= spec_left.take(i as int));
        }
        assert(spec_left.take(nl as int) =~= spec_left);
        let mut j: usize = 0;
        while j < nr
            invariant
                nr <= 3,
                j <= nr,
                right@ == right_players(),
                spec_right == right_players().take(nr as int).map_values(
                    |p: Player| (p, Team::Right),
                ),
                r@ == spec_left + spec_right.take(j as int),
            decreases nr - j,
        {
            r.push((right[j], Team::Right));
            j = j + 1;
            assert(r@ =~= spec_left + spec_right.take(j as int));
        }
        assert(spec_right.take(nr as int) =~= spec_right);
        r
    }

    /// Starts a round whose signal falls `delay` milliseconds from now.
    pub fn start_round(&mut self, machine: &mut Machine, delay: u32)
        requires
            old(machine)@.wf(),
            old(self)@.wf(),
        ensures
            final(machine)@.wf(),
            old(machine)@.extends(final(machine)@),
            final(self)@.wf(),
            ReactionModel::round_start(old(self)@, final(self)@, old(machine)@, final(machine)@, delay as nat),
    {
        self.state = GameState::WaitForTiming(machine.time_ms() as u64 + delay as u64);
        let melody = Tune::ReactionTesterGameBegins.melody();
        machine.play_melody(melody.as_slice());
        machine.wait_for_all_actions();
    }

    fn wait_for_start(&mut self, machine: &mut Machine, state: &State, timing: u64) -> (r: Option<GameState>)
        requires
            old(machine)@.wf(),
            old(self)@.wf(),
        ensures
            final(self)@ == old(self)@,
            final(machine)@.wf(),
            old(machine)@.extends(final(machine)@),
            r is None ==> final(machine)@ == old(machine)@,
            ReactionModel::timing_spec(
                old(self)@,
                match r {
                    Some(s) => old(self)@.in_phase(s@),
                    None => old(self)@,
                },
                old(machine)@,
                match r {
                    Some(_) => final(machine)@.raise_barrier(),
                    None => final(machine)@,
                },
                state@,
                timing,
            ),
            r matches Some(s) ==> old(self)@.in_phase(s@).wf(),
    {
        let ghost m0 = machine@;
        let current_time = machine.time_ms();
        let players = self.iter_active_players();
        let ghost ps = players@;
        proof {
            lemma_active_players(self@.num_players as nat);
        }
        let mut i: usize = 0;
        while i < players.len()
            invariant
                i <= ps.len(),
                players@ == ps,
                ps == active_players(self@.num_players as nat),
                ps.len() <= 6,
                machine@ == m0,
                m0.wf(),
                m0 == old(machine)@,
                self@ == old(self)@,
                old(self)@.wf(),
                forall|k: int|
                    0 <= k < ps.len() ==> #[trigger] ps[k].0.button_num < 10 && ps[k].0.index < 3,
                first_holding(state@, ps, 0) == first_holding(state@, ps, i as int),
            decreases ps.len() - i,
        {
            let (player, team) = players[i];
            assert(ps[i as int].0 == player);
            if state.pressed(Switch::number(player.button_num)) {
                let melody = Tune::ReactionTesterEarlyStart.melody();
                machine.play_melody(melody.as_slice());
                let r = GameState::WaitForGlass {
                    team: other_team(team),
                    reason: Reason::EarlyStart(player.index),
                };
                assert(first_holding(state@, ps, i as int) == Some(ps[i as int]));
                return Some(r);
            }
            i = i + 1;
        }
        if current_time as u64 > timing {
            let melody = Tune::ReactionTesterWaitForReaction.melody();
            machine.play_melody(melody.as_slice());
            Some(
                GameState::WaitForAllButtonPresses(
                    TeamState::new(self.num_players_left()),
                    TeamState::new(self.num_players_right()),
                ),
            )
        } else {
            None
        }
    }

    fn animate_glass(&self, machine: &mut Machine, reason: Reason, team: Team)
        requires
            old(machine)@.wf(),
            reason matches Reason::EarlyStart(p) ==> p < 3,
        ensures
            final(machine)@.wf(),
            old(machine)@.extends(final(machine)@),
            final(machine)@ == ReactionModel::glass_signals(old(machine)@, reason, team),
    {
        let led = match team {
            Team::Left => Led::Left,
            Team::Right => Led::Right,
        };
        if machine.no_ongoing_led_transition() {
            machine.flash_led(led, LED_FLASH_DURATION, LED_ON_DURATION);
        }
        if machine.no_sound_queued() {
            if let Reason::EarlyStart(player) = reason {
                let tune = if player == 0 {
                    Tune::ReactionTesterPlayer0Identification
                } else if player == 1 {
                    Tune::ReactionTesterPlayer1Identification
                } else {
                    Tune::ReactionTesterPlayer2Identification
                };
                let melody = tune.melody();
                machine.play_melody(melody.as_slice());
            }
        }
    }

    fn wait_for_glass(&mut self, machine: &mut Machine, state: &State, reason: Reason, team: Team)
        requires
            old(machine)@.wf(),
            old(self)@.wf(),
            old(self)@.phase == (Phase::WaitForGlass { reason, team }),
        ensures
            final(machine)@.wf(),
            old(machine)@.extends(final(machine)@),
            final(self)@.wf(),
            ReactionModel::glass_spec(old(self)@, final(self)@, old(machine)@, final(machine)@, state@, reason, team),
    {
        let num_shots = match reason {
            Reason::SlowReaction => machine.config().reaction_num_shots_loser,
            Reason::EarlyStart(_) => machine.config().reaction_num_shots_early_start,
        };
        self.animate_glass(machine, reason, team);
        if state.anything_just_pressed() {
            assert(num_shots * machine@.config.shot_duration <= 80 * 2000) by (nonlinear_arith)
                requires
                    num_shots <= 80,
                    machine@.config.shot_duration <= 2000,
            ;
            machine.pour_with_melody(num_shots);
            machine.wait_for_all_actions();
            self.state = GameState::WaitForStart;
        }
    }

    pub fn update(&mut self, machine: &mut Machine, state: &State)
        requires
            old(machine)@.wf(),
            old(self)@.wf(),
        ensures
            final(machine)@.wf(),
            old(machine)@.extends(final(machine)@),
            final(self)@.wf(),
            ReactionModel::update_spec(old(self)@, final(self)@, old(machine)@, final(machine)@, state@),
    {
        match self.state {
            GameState::WaitForStart => {
                let players = self.iter_active_players();
                proof {
                    lemma_active_players(self@.num_players as nat);
                }
                let mut all_pressed = true;
                let mut i: usize = 0;
                while i < players.len()
                    invariant
                        i <= players@.len(),
                        players@ == active_players(self@.num_players as nat),
                        forall|k: int|
                            0 <= k < players@.len() ==> #[trigger] players@[k].0.button_num < 10,
                        all_pressed == forall|k: int| 0 <= k < i ==> holds(state@, #[trigger] players@[k].0),
                    decreases players@.len() - i,
                {
                    let (player, _) = players[i];
                    assert(players@[i as int].0 == player);
                    if !state.pressed(Switch::number(player.button_num)) {
                        all_pressed = false;
                    }
                    i = i + 1;
                }
                if all_pressed {
                    let (_, delay) = get_wait_for_start_state_with_random_timing(machine, &mut self.rng);
                    self.start_round(machine, delay);
                }
            },
            GameState::WaitForTiming(time) => {
                if let Some(new_state) = self.wait_for_start(machine, state, time) {
                    self.state = new_state;
                    machine.wait_for_all_actions();
                }
            },
            GameState::WaitForAllButtonPresses(..) => {
                let mut taken = GameState::WaitForStart;
                core::mem::swap(&mut self.state, &mut taken);
                if let GameState::WaitForAllButtonPresses(mut left, mut right) = taken {
                    if let Some(new_state) = wait_for_button_presses(machine, state, &mut left, &mut right) {
                        self.state = new_state;
                        machine.wait_for_all_actions();
                    } else {
                        self.state = GameState::WaitForAllButtonPresses(left, right);
                    }
                }
            },
            GameState::WaitForGlass { reason, team } => self.wait_for_glass(machine, state, reason, team),
        }
    }
}

fn wait_for_button_presses(
    machine: &mut Machine,
    state: &State,
    left: &mut TeamState,
    right: &mut TeamState,
) -> (r: Option<GameState>)
    requires
        old(machine)@.wf(),
    ensures
        final(machine)@.wf(),
        final(left)@ == updated_team(old(left)@, state@, left_players()),
        final(right)@ == updated_team(old(right)@, state@, right_players()),
        ({
            let won = old(machine)@.enqueue(
                old(machine)@.play_actions(Tune::ReactionTesterTeamWon.notes()),
            );
            if team_won(final(left)@) {
                &&& r matches Some(s) && s@ == (Phase::WaitForGlass {
                    reason: Reason::SlowReaction,
                    team: Team::Right,
                })
                &&& final(machine)@ == won
            } else if team_won(final(right)@) {
                &&& r matches Some(s) && s@ == (Phase::WaitForGlass {
                    reason: Reason::SlowReaction,
                    team: Team::Left,
                })
                &&& final(machine)@ == won
            } else {
                r is None && final(machine)@ == old(machine)@
            }
        }),
{
    let left_players = players_left_side();
    let right_players = players_right_side();
    let left_won = update_and_get_victory_state(state, left_players.as_slice(), left);
    let right_won = update_and_get_victory_state(state, right_players.as_slice(), right);
    if left_won {
        let melody = Tune::ReactionTesterTeamWon.melody();
        machine.play_melody(melody.as_slice());
        Some(GameState::WaitForGlass { team: Team::Right, reason: Reason::SlowReaction })
    } else if right_won {
        let melody = Tune::ReactionTesterTeamWon.melody();
        machine.play_melody(melody.as_slice());
        Some(GameState::WaitForGlass { team: Team::Left, reason: Reason::SlowReaction })
    } else {
        None
    }
}

/// Marks the members of a team who hold their switch; reports whether all have pressed.
fn update_and_get_victory_state(state: &State, players: &[Player], team_state: &mut TeamState) -> (r: bool)
    requires
        forall|i: int| 0 <= i < players@.len() ==> #[trigger] players@[i].button_num < 10,
    ensures
        final(team_state)@ == updated_team(old(team_state)@, state@, players@),
        r == team_won(final(team_state)@),
{
    let ghost t0 = team_state@;
    let mut i: usize = 0;
    while i < players.len()
        invariant
            i <= players@.len(),
            forall|k: int| 0 <= k < players@.len() ==> #[trigger] players@[k].button_num < 10,
            team_state@.len() == t0.len(),
            forall|k: int|
                0 <= k < t0.len() ==> #[trigger] team_state@[k] == (t0[k] || (k < i && k
                    < players@.len() && holds(state@, players@[k]))),
        decreases players@.len() - i,
    {
        if state.pressed(Switch::number(players[i].button_num)) {
            if i < team_state.players_pressed.len() {
                team_state.players_pressed.set(i, true);
            }
        }
        i = i + 1;
    }
    assert(team_state@ =~= updated_team(t0, state@, players@));
    team_state.won()
}

} // verus!
