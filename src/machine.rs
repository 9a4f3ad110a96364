use vstd::prelude::*;

use crate::configuration::Configuration;
use crate::configuration::Variable;
use crate::hardware_interface::Action;
use crate::hardware_interface::Frequency;
use crate::hardware_interface::Led;
use crate::hardware_interface::LedState;
use crate::hardware_interface::RelayState;
use crate::hardware_interface::FULL_BRIGHTNESS;
use crate::melody::playable;
use crate::melody::total_duration;
use crate::melody::lemma_playable_fits;
use crate::melody::Melody;
use crate::melody::Note;
use crate::melody::Tune;
use crate::Duration;
use crate::Time;

verus! {

/// Most commands the queue holds. A scheduling request that would pass this bound is
/// dropped whole, so the queue of this long-running loop stays bounded.
pub const MAX_PENDING_ACTIONS: usize = 1024;

/// Number of notes of the chromatic scale.
pub const CHROMATIC_SCALE_LEN: usize = 12;

/// A command the scheduler carries out when it falls due.
#[derive(Debug, Clone, Copy, PartialEq, Eq, Structural)]
pub enum Command {
    SetLedTransition(Led, Transition),
    SetRelayState(RelayState),
    SetSpeakerFrequency(Frequency),
}

/// A command with the absolute time, in milliseconds, at which it falls due.
#[derive(Debug, Clone, Copy, PartialEq, Eq, Structural)]
pub struct TimedAction {
    pub timing_ms: u64,
    pub action: Command,
}

/// A linear brightness ramp from `start_val` to `end_val` over `duration` milliseconds.
#[derive(Debug, Clone, Copy, PartialEq, Eq, Structural)]
pub struct Transition {
    pub start_val: u32,
    pub end_val: u32,
    pub duration: Duration,
}

/// Brightness of a ramp `elapsed` milliseconds after it started: the start value until it
/// starts, the end value once it is over, and on the straight line between them in between
/// (rounded towards the start value).
pub open spec fn ramp_value(t: Transition, elapsed: int) -> int {
    if elapsed <= 0 {
        t.start_val as int
    } else if elapsed >= t.duration {
        t.end_val as int
    } else if t.end_val >= t.start_val {
        t.start_val + (t.end_val - t.start_val) * elapsed / (t.duration as int)
    } else {
        t.start_val - (t.start_val - t.end_val) * elapsed / (t.duration as int)
    }
}

impl Transition {
    pub fn get_current_val(&self, time_elapsed: u64) -> (r: LedState)
        ensures
            r.brightness == ramp_value(*self, time_elapsed as int),
    {
        if time_elapsed == 0 {
            LedState { brightness: self.start_val }
        } else if time_elapsed >= self.duration as u64 {
            LedState { brightness: self.end_val }
        } else if self.end_val >= self.start_val {
            let diff = (self.end_val - self.start_val) as u64;
            assert(diff * time_elapsed <= diff * (self.duration as u64)) by (nonlinear_arith)
                requires
                    time_elapsed < self.duration,
            ;
            assert(diff * (self.duration as u64) <= u32::MAX * u32::MAX) by (nonlinear_arith)
                requires
                    diff <= u32::MAX,
                    self.duration <= u32::MAX,
            ;
            let step = diff * time_elapsed / self.duration as u64;
            assert(step <= diff) by (nonlinear_arith)
                requires
                    step == diff * time_elapsed / self.duration as int,
                    time_elapsed < self.duration,
                    diff >= 0,
            ;
            LedState { brightness: self.start_val + step as u32 }
        } else {
            let diff = (self.start_val - self.end_val) as u64;
            assert(diff * time_elapsed <= diff * (self.duration as u64)) by (nonlinear_arith)
                requires
                    time_elapsed < self.duration,
            ;
            assert(diff * (self.duration as u64) <= u32::MAX * u32::MAX) by (nonlinear_arith)
                requires
                    diff <= u32::MAX,
                    self.duration <= u32::MAX,
            ;
            let step = diff * time_elapsed / self.duration as u64;
            assert(step <= diff) by (nonlinear_arith)
                requires
                    step == diff * time_elapsed / self.duration as int,
                    time_elapsed < self.duration,
                    diff >= 0,
            ;
            LedState { brightness: self.start_val - step as u32 }
        }
    }

    /// A ramp from dark to full brightness.
    pub fn on_within(duration: Duration) -> (r: Self)
        ensures
            r == (Transition { start_val: 0, end_val: FULL_BRIGHTNESS, duration }),
    {
        Transition { start_val: 0, end_val: FULL_BRIGHTNESS, duration }
    }

    /// A ramp from full brightness to dark.
    pub fn off_within(duration: Duration) -> (r: Self)
        ensures
            r == (Transition { start_val: FULL_BRIGHTNESS, end_val: 0, duration }),
    {
        Transition { start_val: FULL_BRIGHTNESS, end_val: 0, duration }
    }
}

/// A ramp anchored at the time it started.
#[derive(Debug, Clone, Copy, PartialEq, Eq, Structural)]
pub struct StartedTransition {
    pub start_time_ms: u64,
    pub transition: Transition,
}

/// Latest time at which anything is scheduled: a delay of at most a `Duration` after a `Time`.
pub open spec fn latest_due() -> int {
    2 * (u32::MAX as int)
}

impl StartedTransition {
    pub open spec fn spec_end_time(self) -> int {
        self.start_time_ms + self.transition.duration
    }

    /// Brightness of the ramp at absolute time `time_ms`.
    pub open spec fn value_at(self, time_ms: int) -> int {
        ramp_value(self.transition, time_ms - self.start_time_ms)
    }

    pub fn get_current_val(&self, time_ms: u64) -> (r: LedState)
        ensures
            r.brightness == self.value_at(time_ms as int),
    {
        let elapsed = if time_ms >= self.start_time_ms {
            time_ms - self.start_time_ms
        } else {
            0
        };
        self.transition.get_current_val(elapsed)
    }

    pub fn end_time(&self) -> (r: u64)
        requires
            self.start_time_ms <= latest_due(),
        ensures
            r == self.spec_end_time(),
    {
        self.start_time_ms + self.transition.duration as u64
    }
}

/// A command due at time `t`.
pub open spec fn timed(t: int, c: Command) -> TimedAction {
    TimedAction { timing_ms: t as u64, action: c }
}

/// The commands that play `notes` from time `start` on: each note's frequency at the running
/// offset, silence once it has sounded, and the offset moved on by the note's total length.
pub open spec fn melody_actions(notes: Seq<Note>, start: int) -> Seq<TimedAction>
    decreases notes.len(),
{
    if notes.len() == 0 {
        Seq::empty()
    } else {
        let init = notes.drop_last();
        let n = notes.last();
        let offset = start + total_duration(init);
        melody_actions(init, start) + seq![
            timed(offset, Command::SetSpeakerFrequency(n.freq)),
            timed(offset + n.note_length, Command::SetSpeakerFrequency(Frequency::Silence)),
        ]
    }
}

/// The commands of `q` that satisfy `pred`, in queue order.
pub open spec fn keep(q: Seq<TimedAction>, pred: spec_fn(TimedAction) -> bool) -> Seq<
    TimedAction,
>
    decreases q.len(),
{
    if q.len() == 0 {
        Seq::empty()
    } else if pred(q.last()) {
        keep(q.drop_last(), pred).push(q.last())
    } else {
        keep(q.drop_last(), pred)
    }
}

/// The commands of `q` due at time `now`.
pub open spec fn due_at(q: Seq<TimedAction>, now: int) -> Seq<TimedAction> {
    keep(q, |a: TimedAction| a.timing_ms <= now)
}

/// The commands of `q` not yet due at time `now`.
pub open spec fn not_due_at(q: Seq<TimedAction>, now: int) -> Seq<TimedAction> {
    keep(q, |a: TimedAction| a.timing_ms > now)
}

/// The hardware actions of the relay and speaker commands in `q`, in order.
pub open spec fn hardware_actions(q: Seq<TimedAction>) -> Seq<Action>
    decreases q.len(),
{
    if q.len() == 0 {
        Seq::empty()
    } else {
        let rest = hardware_actions(q.drop_last());
        match q.last().action {
            Command::SetRelayState(s) => rest.push(Action::SetRelayState(s)),
            Command::SetSpeakerFrequency(f) => rest.push(Action::SetSpeakerFrequency(f)),
            Command::SetLedTransition(_, _) => rest,
        }
    }
}

/// The ramp of `led` after the ramp commands of `q` have been carried out in order at time
/// `now`: the last of them wins, anchored at `now`.
pub open spec fn ramp_after(
    current: StartedTransition,
    q: Seq<TimedAction>,
    led: Led,
    now: int,
) -> StartedTransition
    decreases q.len(),
{
    if q.len() == 0 {
        current
    } else {
        match q.last().action {
            Command::SetLedTransition(l, t) => if l == led {
                StartedTransition { start_time_ms: now as u64, transition: t }
            } else {
                ramp_after(current, q.drop_last(), led, now)
            },
            _ => ramp_after(current, q.drop_last(), led, now),
        }
    }
}

/// What the scheduler holds.
pub struct MachineModel {
    pub pending: Seq<TimedAction>,
    pub time_ms: Time,
    pub barrier: bool,
    pub left_led_transition: StartedTransition,
    pub right_led_transition: StartedTransition,
    pub config: Configuration,
}

impl MachineModel {
    pub open spec fn wf(self) -> bool {
        &&& self.config.wf()
        &&& self.pending.len() <= MAX_PENDING_ACTIONS
        &&& forall|i: int|
            0 <= i < self.pending.len() ==> #[trigger] self.pending[i].timing_ms <= latest_due()
        &&& self.left_led_transition.start_time_ms <= latest_due()
        &&& self.right_led_transition.start_time_ms <= latest_due()
    }

    /// The scheduler with `acts` appended to its queue, if they all fit; else unchanged.
    pub open spec fn enqueue(self, acts: Seq<TimedAction>) -> MachineModel {
        if self.pending.len() + acts.len() <= MAX_PENDING_ACTIONS {
            MachineModel { pending: self.pending + acts, ..self }
        } else {
            self
        }
    }

    /// `later` reads the same clock and still holds every pending command of `self`, in the
    /// same places.
    pub open spec fn extends(self, later: MachineModel) -> bool {
        &&& self.time_ms == later.time_ms
        &&& self.pending.len() <= later.pending.len()
        &&& forall|i: int| 0 <= i < self.pending.len() ==> #[trigger] later.pending[i] == self.pending[i]
    }

    pub open spec fn raise_barrier(self) -> MachineModel {
        MachineModel { barrier: true, ..self }
    }

    /// A command due `delay` milliseconds from now.
    pub open spec fn after(self, delay: int, c: Command) -> TimedAction {
        timed(self.time_ms + delay, c)
    }

    pub open spec fn pour_actions(self, num: nat) -> Seq<TimedAction> {
        seq![
            self.after(0, Command::SetRelayState(RelayState::On)),
            self.after((num * self.config.shot_duration) as int, Command::SetRelayState(RelayState::Off)),
        ]
    }

    pub open spec fn play_actions(self, notes: Seq<Note>) -> Seq<TimedAction> {
        melody_actions(notes, self.time_ms as int)
    }

    /// The first `num` notes of the chromatic scale (all twelve for larger `num`).
    pub open spec fn scale_for(num: nat) -> Seq<Note> {
        Tune::ChromaticScale.notes().take(if num <= 12 { num as int } else { 12 })
    }

    /// The scheduler after a pour of `num` shots and then the scale that goes with it.
    pub open spec fn pour_with_melody(self, num: nat) -> MachineModel {
        let poured = self.enqueue(self.pour_actions(num));
        poured.enqueue(poured.play_actions(MachineModel::scale_for(num)))
    }

    pub open spec fn flash_actions(self, led: Led, transition_duration: nat, on_duration: nat) -> Seq<
        TimedAction,
    > {
        seq![
            self.after(
                0,
                Command::SetLedTransition(
                    led,
                    Transition {
                        start_val: 0,
                        end_val: FULL_BRIGHTNESS,
                        duration: transition_duration as u32,
                    },
                ),
            ),
            self.after(
                (transition_duration + on_duration) as int,
                Command::SetLedTransition(
                    led,
                    Transition {
                        start_val: FULL_BRIGHTNESS,
                        end_val: 0,
                        duration: transition_duration as u32,
                    },
                ),
            ),
        ]
    }

    /// True when both lamps' ramps have ended.
    pub open spec fn no_ongoing_led_transition(self) -> bool {
        &&& self.time_ms > self.left_led_transition.spec_end_time()
        &&& self.time_ms > self.right_led_transition.spec_end_time()
    }

    /// True when no speaker command is pending.
    pub open spec fn no_sound_queued(self) -> bool {
        forall|i: int|
            0 <= i < self.pending.len() ==> !(#[trigger] self.pending[i].action is SetSpeakerFrequency)
    }

    /// The scheduler after carrying out every command due now.
    pub open spec fn flushed(self) -> MachineModel {
        let due = due_at(self.pending, self.time_ms as int);
        MachineModel {
            pending: not_due_at(self.pending, self.time_ms as int),
            left_led_transition: ramp_after(
                self.left_led_transition,
                due,
                Led::Left,
                self.time_ms as int,
            ),
            right_led_transition: ramp_after(
                self.right_led_transition,
                due,
                Led::Right,
                self.time_ms as int,
            ),
            ..self
        }
    }

    /// The hardware actions that carrying out the due commands sends.
    pub open spec fn flush_outputs(self) -> Seq<Action> {
        hardware_actions(due_at(self.pending, self.time_ms as int))
    }

    /// The brightness of both lamps now.
    pub open spec fn led_outputs(self) -> Seq<Action> {
        seq![
            Action::SetLedState(
                Led::Left,
                LedState { brightness: self.left_led_transition.value_at(self.time_ms as int) as u32 },
            ),
            Action::SetLedState(
                Led::Right,
                LedState {
                    brightness: self.right_led_transition.value_at(self.time_ms as int) as u32,
                },
            ),
        ]
    }
}

/// The action scheduler: the clock, the queue of pending commands, the barrier, the lamps'
/// ramps and the configuration.
pub struct Machine {
    actions: Vec<TimedAction>,
    time_ms: Time,
    wait_for_all_actions: bool,
    left_led_transition: StartedTransition,
    right_led_transition: StartedTransition,
    config: Configuration,
}

impl View for Machine {
    type V = MachineModel;

    closed spec fn view(&self) -> MachineModel {
        MachineModel {
            pending: self.actions@,
            time_ms: self.time_ms,
            barrier: self.wait_for_all_actions,
            left_led_transition: self.left_led_transition,
            right_led_transition: self.right_led_transition,
            config: self.config,
        }
    }
}

pub fn get_relay_timing_ms(num: usize, shot_duration: Duration) -> (r: Duration)
    requires
        num * shot_duration <= u32::MAX,
    ensures
        r == num * shot_duration,
{
    if shot_duration == 0 {
        0
    } else {
        assert(num <= num * shot_duration) by (nonlinear_arith)
            requires
                shot_duration >= 1,
        ;
        (num as u32) * shot_duration
    }
}

/// A lamp that has been dark since the start.
pub open spec fn spec_dark() -> StartedTransition {
    StartedTransition {
        start_time_ms: 0,
        transition: Transition { start_val: 0, end_val: 0, duration: 0 },
    }
}

fn dark() -> (r: StartedTransition)
    ensures
        r == spec_dark(),
{
    StartedTransition {
        start_time_ms: 0,
        transition: Transition { start_val: 0, end_val: 0, duration: 0 },
    }
}

impl Machine {
    pub fn new() -> (r: Self)
        ensures
            r@.wf(),
            r@.pending.len() == 0,
            r@.time_ms == 0,
            !r@.barrier,
            r@.left_led_transition == spec_dark(),
            r@.right_led_transition == spec_dark(),
            r@.config == Configuration::spec_default(),
    {
        Machine {
            actions: Vec::new(),
            time_ms: 0,
            wait_for_all_actions: false,
            left_led_transition: dark(),
            right_led_transition: dark(),
            config: Configuration::default(),
        }
    }

    pub fn config(&self) -> (r: &Configuration)
        ensures
            *r == self@.config,
    {
        &self.config
    }

    pub fn time_ms(&self) -> (r: Time)
        ensures
            r == self@.time_ms,
    {
        self.time_ms
    }

    /// Sets the clock to the time the hardware reports.
    pub fn advance(&mut self, now: Time)
        ensures
            final(self)@ == (MachineModel { time_ms: now, ..old(self)@ }),
    {
        self.time_ms = now;
    }

    /// The pending commands, in queue order.
    pub fn pending_actions(&self) -> (r: &[TimedAction])
        ensures
            r@ == self@.pending,
    {
        self.actions.as_slice()
    }

    /// The ramp a lamp currently follows.
    pub fn led_transition(&self, led: Led) -> (r: StartedTransition)
        ensures
            r == match led {
                Led::Left => self@.left_led_transition,
                Led::Right => self@.right_led_transition,
            },
    {
        match led {
            Led::Left => self.left_led_transition,
            Led::Right => self.right_led_transition,
        }
    }

    /// Whether the programs are held back until the queue drains.
    pub fn is_waiting_for_all_actions(&self) -> (r: bool)
        ensures
            r == self@.barrier,
    {
        self.wait_for_all_actions
    }

    /// Keeps holding the programs back while commands are pending; lifts the barrier once
    /// the queue is empty.
    pub fn settle_barrier(&mut self)
        ensures
            final(self)@ == (MachineModel { barrier: old(self)@.pending.len() > 0, ..old(self)@ }),
    {
        self.wait_for_all_actions = !self.actions.is_empty();
    }

    /// Whether any command is pending.
    pub fn has_pending_actions(&self) -> (r: bool)
        ensures
            r == (self@.pending.len() > 0),
    {
        self.actions.len() > 0
    }

    /// Schedules `action` to fall due `ms` milliseconds from now.
    pub fn queue_action(&mut self, ms: Duration, action: Command)
        requires
            old(self)@.wf(),
        ensures
            final(self)@ == old(self)@.enqueue(seq![old(self)@.after(ms as int, action)]),
            final(self)@.wf(),
            old(self)@.extends(final(self)@),
    {
        let ghost m0 = self@;
        if self.actions.len() < MAX_PENDING_ACTIONS {
            self.actions.push(TimedAction { timing_ms: self.time_ms as u64 + ms as u64, action });
            assert(self@.pending =~= m0.pending + seq![m0.after(ms as int, action)]);
        }
    }

    /// Carries out every command that is due: ramps replace the lamps' ramps, starting now;
    /// relay and speaker commands are handed back in queue order; the rest stays queued.
    pub fn perform_pending_actions(&mut self) -> (r: Vec<Action>)
        requires
            old(self)@.wf(),
        ensures
            final(self)@ == old(self)@.flushed(),
            r@ == old(self)@.flush_outputs(),
            final(self)@.wf(),
    {
        let ghost q = self.actions@;
        let ghost now = self.time_ms as int;
        let ghost left0 = self.left_led_transition;
        let ghost right0 = self.right_led_transition;
        let ghost m0 = self@;
        let mut remaining: Vec<TimedAction> = Vec::new();
        let mut out: Vec<Action> = Vec::new();
        let mut i: usize = 0;
        while i < self.actions.len()
            invariant
                self.actions@ == q,
                self.time_ms == now,
                m0 == old(self)@,
                m0.wf(),
                self.config == m0.config,
                self.wait_for_all_actions == m0.barrier,
                i <= q.len(),
                forall|j: int| 0 <= j < q.len() ==> #[trigger] q[j].timing_ms <= latest_due(),
                left0.start_time_ms <= latest_due(),
                right0.start_time_ms <= latest_due(),
                remaining@ == not_due_at(q.take(i as int), now),
                out@ == hardware_actions(due_at(q.take(i as int), now)),
                self.left_led_transition == ramp_after(
                    left0,
                    due_at(q.take(i as int), now),
                    Led::Left,
                    now,
                ),
                self.right_led_transition == ramp_after(
                    right0,
                    due_at(q.take(i as int), now),
                    Led::Right,
                    now,
                ),
                self.left_led_transition.start_time_ms <= latest_due(),
                self.right_led_transition.start_time_ms <= latest_due(),
                forall|j: int|
                    0 <= j < remaining@.len() ==> #[trigger] remaining@[j].timing_ms
                        <= latest_due(),
                remaining@.len() <= i,
            decreases q.len() - i,
        {
            let a = self.actions[i];
            let ghost due_pred = |x: TimedAction| x.timing_ms <= now;
            let ghost wait_pred = |x: TimedAction| x.timing_ms > now;
            let ghost due_before = due_at(q.take(i as int), now);
            assert(q.take(i + 1).drop_last() =~= q.take(i as int));
            assert(q.take(i + 1).last() == a);
            assert(due_before == keep(q.take(i as int), due_pred));
            proof {
                if a.timing_ms <= now {
                    assert(due_at(q.take(i + 1), now) == due_before.push(a));
                    assert(due_before.push(a).drop_last() =~= due_before);
                    assert(not_due_at(q.take(i + 1), now) == not_due_at(q.take(i as int), now));
                } else {
                    assert(due_at(q.take(i + 1), now) == due_before);
                    assert(not_due_at(q.take(i + 1), now) == not_due_at(q.take(i as int), now).push(a));
                }
            }
            if a.timing_ms <= self.time_ms as u64 {
                match a.action {
                    Command::SetLedTransition(Led::Left, transition) => {
                        self.left_led_transition = StartedTransition {
                            transition,
                            start_time_ms: self.time_ms as u64,
                        };
                    },
                    Command::SetLedTransition(Led::Right, transition) => {
                        self.right_led_transition = StartedTransition {
                            transition,
                            start_time_ms: self.time_ms as u64,
                        };
                    },
                    Command::SetRelayState(state) => {
                        out.push(Action::SetRelayState(state));
                    },
                    Command::SetSpeakerFrequency(freq) => {
                        out.push(Action::SetSpeakerFrequency(freq));
                    },
                }
            } else {
                remaining.push(a);
            }
            i = i + 1;
        }
        assert(q.take(q.len() as int) =~= q);
        self.actions = remaining;
        out
    }

    /// The brightness both lamps have now.
    pub fn update_leds(&self) -> (r: Vec<Action>)
        ensures
            r@ == self@.led_outputs(),
    {
        let now = self.time_ms as u64;
        let left = self.left_led_transition.get_current_val(now);
        let right = self.right_led_transition.get_current_val(now);
        let mut r: Vec<Action> = Vec::new();
        r.push(Action::SetLedState(Led::Left, left));
        r.push(Action::SetLedState(Led::Right, right));
        assert(r@ =~= self@.led_outputs());
        r
    }

    /// Turns the relay on now and off after `num` shots.
    pub fn pour(&mut self, num: usize)
        requires
            old(self)@.wf(),
            num * old(self)@.config.shot_duration <= u32::MAX,
        ensures
            final(self)@ == old(self)@.enqueue(old(self)@.pour_actions(num as nat)),
            final(self)@.wf(),
            old(self)@.extends(final(self)@),
    {
        let ghost m0 = self@;
        if self.actions.len() <= MAX_PENDING_ACTIONS - 2 {
            self.queue_action(0, Command::SetRelayState(RelayState::On));
            let ms = get_relay_timing_ms(num, self.config.shot_duration);
            self.queue_action(ms, Command::SetRelayState(RelayState::Off));
            assert(self@.pending =~= m0.pending + m0.pour_actions(num as nat));
        }
    }

    /// Pours `num` shots while playing as many notes of the chromatic scale (at most twelve).
    pub fn pour_with_melody(&mut self, num: usize)
        requires
            old(self)@.wf(),
            num * old(self)@.config.shot_duration <= u32::MAX,
        ensures
            final(self)@ == old(self)@.pour_with_melody(num as nat),
            final(self)@.wf(),
            old(self)@.extends(final(self)@),
    {
        self.pour(num);
        let num_notes_to_play = if num < CHROMATIC_SCALE_LEN {
            num
        } else {
            CHROMATIC_SCALE_LEN
        };
        let scale = Tune::ChromaticScale.melody();
        assert(scale@.len() == 12);
        proof {
            lemma_playable_fits(scale@, num_notes_to_play as int);
        }
        self.play_melody(vstd::slice::slice_subrange(scale.as_slice(), 0, num_notes_to_play));
        assert(scale@.subrange(0, num_notes_to_play as int) =~= MachineModel::scale_for(
            num as nat,
        ));
    }

    /// Ramps `led` up over `transition_duration`, keeps it lit for `on_duration`, then ramps
    /// it down again.
    pub fn flash_led(&mut self, led: Led, transition_duration: Duration, on_duration: Duration)
        requires
            old(self)@.wf(),
            transition_duration + on_duration <= u32::MAX,
        ensures
            final(self)@ == old(self)@.enqueue(
                old(self)@.flash_actions(led, transition_duration as nat, on_duration as nat),
            ),
            final(self)@.wf(),
            old(self)@.extends(final(self)@),
    {
        let ghost m0 = self@;
        if self.actions.len() <= MAX_PENDING_ACTIONS - 2 {
            self.queue_action(
                0,
                Command::SetLedTransition(led, Transition::on_within(transition_duration)),
            );
            self.queue_action(
                transition_duration + on_duration,
                Command::SetLedTransition(led, Transition::off_within(transition_duration)),
            );
            assert(self@.pending =~= m0.pending + m0.flash_actions(
                led,
                transition_duration as nat,
                on_duration as nat,
            ));
        }
    }

    /// Schedules every note of `melody`: its frequency at the running offset, silence once it
    /// has sounded, the offset moving on by the note's total length.
    pub fn play_melody(&mut self, melody: &Melody)
        requires
            old(self)@.wf(),
            playable(melody@),
        ensures
            final(self)@ == old(self)@.enqueue(old(self)@.play_actions(melody@)),
            final(self)@.wf(),
            old(self)@.extends(final(self)@),
    {
        let ghost m0 = self@;
        proof {
            lemma_melody_actions_len(melody@, m0.time_ms as int);
        }
        if melody.len() > MAX_PENDING_ACTIONS / 2 || self.actions.len() > MAX_PENDING_ACTIONS - 2
            * melody.len() {
            return;
        }
        let mut offset: Duration = 0;
        let mut i: usize = 0;
        while i < melody.len()
            invariant
                i <= melody@.len(),
                playable(melody@),
                m0.wf(),
                m0.pending.len() + 2 * melody@.len() <= MAX_PENDING_ACTIONS,
                offset == total_duration(melody@.take(i as int)),
                self@ == (MachineModel {
                    pending: m0.pending + melody_actions(melody@.take(i as int), m0.time_ms as int),
                    ..m0
                }),
                self@.wf(),
            decreases melody@.len() - i,
        {
            proof {
                lemma_melody_actions_len(melody@.take(i as int), m0.time_ms as int);
            }
            proof {
                lemma_playable_fits(melody@, i + 1);
            }
            let note = melody[i];
            let ghost pre = melody@.take(i as int);
            let ghost next = melody@.take(i + 1);
            assert(next.drop_last() =~= pre);
            assert(next.last() == note);
            assert(offset + note.note_length + note.delay_after <= u32::MAX);
            self.queue_action(offset, Command::SetSpeakerFrequency(note.freq));
            self.queue_action(
                offset + note.note_length,
                Command::SetSpeakerFrequency(Frequency::Silence),
            );
            offset = offset + note.total_length();
            i = i + 1;
            assert(self@.pending =~= m0.pending + melody_actions(next, m0.time_ms as int));
        }
        assert(melody@.take(melody@.len() as int) =~= melody@);
    }

    /// Holds back the programs until every pending command has been carried out.
    pub fn wait_for_all_actions(&mut self)
        ensures
            final(self)@ == old(self)@.raise_barrier(),
            old(self)@.extends(final(self)@),
    {
        self.wait_for_all_actions = true;
    }

    pub fn set_relay_state(&mut self, state: RelayState)
        requires
            old(self)@.wf(),
        ensures
            final(self)@ == old(self)@.enqueue(
                seq![old(self)@.after(0, Command::SetRelayState(state))],
            ),
            final(self)@.wf(),
            old(self)@.extends(final(self)@),
    {
        self.queue_action(0, Command::SetRelayState(state));
    }

    pub fn set_speaker_frequency(&mut self, freq: Frequency)
        requires
            old(self)@.wf(),
        ensures
            final(self)@ == old(self)@.enqueue(
                seq![old(self)@.after(0, Command::SetSpeakerFrequency(freq))],
            ),
            final(self)@.wf(),
            old(self)@.extends(final(self)@),
    {
        self.queue_action(0, Command::SetSpeakerFrequency(freq));
    }

    /// Sets the relay and the speaker now, as one request: both are queued or, when the queue
    /// has no room for two, neither.
    pub fn set_relay_and_speaker(&mut self, state: RelayState, freq: Frequency)
        requires
            old(self)@.wf(),
        ensures
            final(self)@ == old(self)@.enqueue(
                seq![
                    old(self)@.after(0, Command::SetRelayState(state)),
                    old(self)@.after(0, Command::SetSpeakerFrequency(freq)),
                ],
            ),
            final(self)@.wf(),
            old(self)@.extends(final(self)@),
    {
        let ghost m0 = self@;
        if self.actions.len() <= MAX_PENDING_ACTIONS - 2 {
            self.queue_action(0, Command::SetRelayState(state));
            self.queue_action(0, Command::SetSpeakerFrequency(freq));
            assert(self@.pending =~= m0.pending + seq![
                m0.after(0, Command::SetRelayState(state)),
                m0.after(0, Command::SetSpeakerFrequency(freq)),
            ]);
        }
    }

    /// True when both lamps' ramps have ended.
    pub fn no_ongoing_led_transition(&self) -> (r: bool)
        requires
            self@.wf(),
        ensures
            r == self@.no_ongoing_led_transition(),
    {
        self.time_ms as u64 > self.left_led_transition.end_time() && self.time_ms as u64
            > self.right_led_transition.end_time()
    }

    /// True when no speaker command is pending.
    pub fn no_sound_queued(&self) -> (r: bool)
        ensures
            r == self@.no_sound_queued(),
    {
        let mut i: usize = 0;
        while i < self.actions.len()
            invariant
                i <= self.actions@.len(),
                forall|j: int|
                    0 <= j < i ==> !(#[trigger] self.actions@[j].action is SetSpeakerFrequency),
            decreases self.actions@.len() - i,
        {
            if let Command::SetSpeakerFrequency(_) = self.actions[i].action {
                return false;
            }
            i = i + 1;
        }
        true
    }

    /// Sets a configuration variable if its range accepts `value`; reports whether it did.
    pub fn configure(&mut self, variable: Variable, value: usize) -> (r: bool)
        requires
            old(self)@.wf(),
        ensures
            r == variable.accepts(value as int),
            r ==> final(self)@ == (MachineModel {
                config: old(self)@.config.with(variable, value),
                ..old(self)@
            }),
            !r ==> final(self)@ == old(self)@,
            final(self)@.wf(),
            old(self)@.extends(final(self)@),
    {
        if variable.accepts_value(value) {
            self.config.set(variable, value);
            true
        } else {
            false
        }
    }

    /// Sets the number of players of the reaction game if it lies in 1 to 9.
    pub fn configure_num_players(&mut self, num: usize)
        requires
            old(self)@.wf(),
        ensures
            Variable::ReactionNumberOfPlayers.accepts(num as int) ==> final(self)@ == (
            MachineModel { config: Configuration { num_players: num, ..old(self)@.config }, ..old(
                self,
            )@ }),
            !Variable::ReactionNumberOfPlayers.accepts(num as int) ==> final(self)@ == old(
                self,
            )@,
            final(self)@.wf(),
            old(self)@.extends(final(self)@),
    {
        self.configure(Variable::ReactionNumberOfPlayers, num);
    }
}


pub proof fn lemma_keep_contains(q: Seq<TimedAction>, pred: spec_fn(TimedAction) -> bool, x: TimedAction)
    ensures
        keep(q, pred).contains(x) <==> q.contains(x) && pred(x),
    decreases q.len(),
{
    if q.len() > 0 {
        let init = q.drop_last();
        let last = q.last();
        let ki = keep(init, pred);
        lemma_keep_contains(init, pred, x);
        if keep(q, pred).contains(x) {
            let i = choose|i: int| 0 <= i < keep(q, pred).len() && keep(q, pred)[i] == x;
            if pred(last) && i == ki.len() {
                assert(q[q.len() - 1] == x);
            } else {
                assert(ki[i] == x);
                assert(ki.contains(x));
                let j = choose|j: int| 0 <= j < init.len() && init[j] == x;
                assert(q[j] == x);
            }
        }
        if q.contains(x) && pred(x) {
            let i = choose|i: int| 0 <= i < q.len() && q[i] == x;
            if i == q.len() - 1 {
                assert(keep(q, pred)[ki.len() as int] == x);
            } else {
                assert(init[i] == x);
                assert(init.contains(x));
                let j = choose|j: int| 0 <= j < ki.len() && ki[j] == x;
                assert(keep(q, pred)[j] == x);
            }
        }
    }
}

/// The commands still pending after flushing at each of `ticks` in turn.
pub open spec fn pending_after(q: Seq<TimedAction>, ticks: Seq<int>) -> Seq<TimedAction>
    decreases ticks.len(),
{
    if ticks.len() == 0 {
        q
    } else {
        not_due_at(pending_after(q, ticks.drop_last()), ticks.last())
    }
}

/// The commands carried out at the tick of index `k`, the clock reading `ticks[k]`.
pub open spec fn dispatched_at(q: Seq<TimedAction>, ticks: Seq<int>, k: int) -> Seq<TimedAction> {
    due_at(pending_after(q, ticks.take(k)), ticks[k])
}

proof fn lemma_still_pending(q: Seq<TimedAction>, x: TimedAction, ticks: Seq<int>, k: int)
    requires
        q.contains(x),
        0 <= k <= ticks.len(),
    ensures
        pending_after(q, ticks.take(k)).contains(x) <==> forall|j: int|
            0 <= j < k ==> ticks[j] < x.timing_ms,
    decreases k,
{
    if k > 0 {
        lemma_still_pending(q, x, ticks, k - 1);
        assert(ticks.take(k).drop_last() =~= ticks.take(k - 1));
        let before = pending_after(q, ticks.take(k - 1));
        lemma_keep_contains(before, |a: TimedAction| a.timing_ms > ticks[k - 1], x);
        if forall|j: int| 0 <= j < k - 1 ==> ticks[j] < x.timing_ms {
            if ticks[k - 1] < x.timing_ms {
                assert forall|j: int| 0 <= j < k implies ticks[j] < x.timing_ms by {
                    if j < k - 1 {
                    }
                }
            }
        }
    }
}

/// A command scheduled `d` milliseconds after time `t` is carried out at the first tick
/// whose clock reading is at least `t + d`, and at no tick before.
pub proof fn lemma_dispatched_at_first_due_tick(
    q: Seq<TimedAction>,
    t: int,
    d: int,
    action: Command,
    ticks: Seq<int>,
    k: int,
)
    requires
        0 <= t,
        0 <= d,
        t + d <= u64::MAX,
        0 <= k < ticks.len(),
    ensures
        dispatched_at(q.push(timed(t + d, action)), ticks, k).contains(timed(t + d, action)) <==> (
        ticks[k] >= t + d && forall|j: int| 0 <= j < k ==> ticks[j] < t + d),
{
    let x = timed(t + d, action);
    let q2 = q.push(x);
    assert(q2[q.len() as int] == x);
    lemma_still_pending(q2, x, ticks, k);
    lemma_keep_contains(
        pending_after(q2, ticks.take(k)),
        |a: TimedAction| a.timing_ms <= ticks[k],
        x,
    );
}

/// No lamp is ramping once both ramps have ended, and a lamp inside its ramp keeps the
/// machine from reporting that none is.
pub proof fn lemma_no_ongoing_transition(m: MachineModel)
    ensures
        m.time_ms > m.left_led_transition.spec_end_time() && m.time_ms
            > m.right_led_transition.spec_end_time() ==> m.no_ongoing_led_transition(),
        m.left_led_transition.start_time_ms <= m.time_ms
            <= m.left_led_transition.spec_end_time() ==> !m.no_ongoing_led_transition(),
        m.right_led_transition.start_time_ms <= m.time_ms
            <= m.right_led_transition.spec_end_time() ==> !m.no_ongoing_led_transition(),
{
}

/// The last command that plays a melody is the silence after its last note, due the
/// melody's whole length minus the break after that note from the start.
pub proof fn lemma_final_silence_offset(notes: Seq<Note>, start: int)
    requires
        notes.len() > 0,
    ensures
        melody_actions(notes, start).len() == 2 * notes.len(),
        melody_actions(notes, start).last().action == Command::SetSpeakerFrequency(
            Frequency::Silence,
        ),
        melody_actions(notes, start).last() == timed(
            start + total_duration(notes) - notes.last().delay_after,
            Command::SetSpeakerFrequency(Frequency::Silence),
        ),
{
    lemma_melody_actions_len(notes, start);
}

pub proof fn lemma_melody_actions_len(notes: Seq<Note>, start: int)
    ensures
        melody_actions(notes, start).len() == 2 * notes.len(),
    decreases notes.len(),
{
    if notes.len() > 0 {
        lemma_melody_actions_len(notes.drop_last(), start);
    }
}

/// When the last note has no break after it, the sum of all notes' total lengths is the
/// offset of the final silence.
pub proof fn lemma_melody_length_is_final_silence(notes: Seq<Note>)
    requires
        notes.len() > 0,
        notes.last().delay_after == 0,
        total_duration(notes) <= u64::MAX,
    ensures
        melody_actions(notes, 0).last().timing_ms == total_duration(notes),
        melody_actions(notes, 0).last().action == Command::SetSpeakerFrequency(Frequency::Silence),
{
    lemma_final_silence_offset(notes, 0);
}

} // verus!
