//! The fade controller, as a state machine. Whoever runs it performs each
//! action it returns (wait, send the lights' states, read the activation
//! flag, start a cycle) and reports back the matching event.
use vstd::prelude::*;
use crate::light::{level_after, lemma_level_after_step, Light, LightRange, LightState};
use crate::schedule::{
    chunk_delta, chunk_of, compute_window, schedule_error, window_delta, Alarm, LocalTime,
    ScheduleError, FADE_STEPS,
};

verus! {

/// Brightness gained by each light at each step.
pub const BRIGHTNESS_STEP: u16 = 1;

/// Color temperature lost by each light at each step.
pub const COLOR_TEMPERATURE_STEP: u16 = 1;

/// Why a run of the controller ended.
#[derive(Clone, Copy, Debug, PartialEq, Eq, Structural)]
pub enum RunEnd {
    /// The activation flag was found false before a step.
    Deactivated,
    /// The schedule could not be turned into a window.
    Schedule(ScheduleError),
}

/// Where the controller stands.
#[derive(Clone, Copy, Debug, PartialEq, Eq, Structural)]
pub enum Phase {
    /// A cycle is to begin: the schedule, the clock and the lights are read.
    ComputingWindow,
    /// Waiting until the fade starts.
    WaitingForStart,
    /// The lights' starting states are being sent.
    RampingToBaseline,
    /// The activation flag is read before step `i`.
    Checking(u64),
    /// Waiting for one chunk before step `i`.
    Stepping(u64),
    /// The lights' states of step `i` are being sent.
    Sending(u64),
    /// All steps are done; the activation flag is read before the next cycle.
    CycleComplete,
    /// The run is over.
    Exited(RunEnd),
}

/// What the runner reports back.
#[derive(Clone, Copy, Debug, PartialEq, Eq, Structural)]
pub enum Event {
    /// A wait has ended.
    Slept,
    /// The states were sent; `failed` lights reported an error.
    Sent { failed: u64 },
    /// The activation flag was read.
    Flag(bool),
}

/// What the runner does next.
#[derive(Clone, Copy, Debug, PartialEq, Eq, Structural)]
pub enum Action {
    /// Read the schedule, the clock and the lights, and call `begin_cycle`.
    BeginCycle,
    /// Wait this many microseconds, then report `Slept`.
    Sleep(u64),
    /// Send each light the state that `states` gives it, whatever became of
    /// the others, then report `Sent`.
    SendStates,
    /// Read the activation flag and report `Flag`.
    ReadFlag,
    /// Stop the run.
    Exit(RunEnd),
}

/// The controller's state as a mathematical value.
pub ghost struct ControllerView {
    pub phase: Phase,
    pub delta: u64,
    pub chunk: u64,
    pub lights: Seq<Light>,
}

impl ControllerView {
    /// Every light is within its bounds, and every step index is below the
    /// number of steps.
    pub open spec fn wf(self) -> bool {
        &&& forall|i: int| 0 <= i < self.lights.len() ==> (#[trigger] self.lights[i]).wf()
        &&& match self.phase {
            Phase::Checking(i) => i < FADE_STEPS,
            Phase::Stepping(i) => i < FADE_STEPS,
            Phase::Sending(i) => i < FADE_STEPS,
            _ => true,
        }
    }

    /// The same state in another phase.
    pub open spec fn in_phase(self, phase: Phase) -> ControllerView {
        ControllerView { phase, ..self }
    }
}

/// How many steps the lights have taken in the fade under way, if one is.
pub open spec fn steps_taken(phase: Phase) -> Option<nat> {
    match phase {
        Phase::WaitingForStart => Some(0),
        Phase::RampingToBaseline => Some(0),
        Phase::Checking(i) => Some(i as nat),
        Phase::Stepping(i) => Some(i as nat),
        Phase::Sending(i) => Some((i + 1) as nat),
        Phase::CycleComplete => Some(FADE_STEPS as nat),
        _ => None,
    }
}

/// During a fade, every light stands at the level of its range after the
/// steps taken so far.
pub open spec fn on_track(v: ControllerView) -> bool {
    match steps_taken(v.phase) {
        Some(k) => forall|j: int|
            0 <= j < v.lights.len() ==> #[trigger] v.lights[j] == level_after(
                v.lights[j].range,
                BRIGHTNESS_STEP,
                COLOR_TEMPERATURE_STEP,
                k,
            ),
        None => true,
    }
}

/// The action that a state waits to have performed.
pub open spec fn pending(v: ControllerView) -> Action {
    match v.phase {
        Phase::ComputingWindow => Action::BeginCycle,
        Phase::WaitingForStart => Action::Sleep(v.delta),
        Phase::RampingToBaseline => Action::SendStates,
        Phase::Checking(_) => Action::ReadFlag,
        Phase::Stepping(_) => Action::Sleep(v.chunk),
        Phase::Sending(_) => Action::SendStates,
        Phase::CycleComplete => Action::ReadFlag,
        Phase::Exited(e) => Action::Exit(e),
    }
}

/// Every light moved one step along the fade.
pub open spec fn advanced_all(lights: Seq<Light>) -> Seq<Light> {
    lights.map_values(|l: Light| l.advanced(BRIGHTNESS_STEP, COLOR_TEMPERATURE_STEP))
}

/// Every light of `ranges` at the start of a fade.
pub open spec fn baselines(ranges: Seq<LightRange>) -> Seq<Light> {
    ranges.map_values(|r: LightRange| Light::baseline_of(r))
}

/// The state and the action after an event. An event that the state does not
/// wait for changes nothing.
pub open spec fn after(v: ControllerView, ev: Event) -> (ControllerView, Action) {
    match (v.phase, ev) {
        (Phase::WaitingForStart, Event::Slept) => (
            v.in_phase(Phase::RampingToBaseline),
            Action::SendStates,
        ),
        (Phase::RampingToBaseline, Event::Sent { .. }) => (
            v.in_phase(Phase::Checking(0)),
            Action::ReadFlag,
        ),
        (Phase::Checking(i), Event::Flag(activated)) => if activated {
            (v.in_phase(Phase::Stepping(i)), Action::Sleep(v.chunk))
        } else {
            (v.in_phase(Phase::Exited(RunEnd::Deactivated)), Action::Exit(RunEnd::Deactivated))
        },
        (Phase::CycleComplete, Event::Flag(activated)) => if activated {
            (v.in_phase(Phase::ComputingWindow), Action::BeginCycle)
        } else {
            (v.in_phase(Phase::Exited(RunEnd::Deactivated)), Action::Exit(RunEnd::Deactivated))
        },
        (Phase::Stepping(i), Event::Slept) => (
            ControllerView { phase: Phase::Sending(i), lights: advanced_all(v.lights), ..v },
            Action::SendStates,
        ),
        (Phase::Sending(i), Event::Sent { .. }) => if i + 1 < FADE_STEPS {
            (v.in_phase(Phase::Checking((i + 1) as u64)), Action::ReadFlag)
        } else {
            (v.in_phase(Phase::CycleComplete), Action::ReadFlag)
        },
        _ => (v, pending(v)),
    }
}

/// The state and the action once a cycle begins with `alarm`, the clock at
/// `now` and the lights of `ranges`. Outside `ComputingWindow` nothing changes.
pub open spec fn begun(
    v: ControllerView,
    alarm: Alarm,
    now: LocalTime,
    ranges: Seq<LightRange>,
) -> (ControllerView, Action) {
    if v.phase != Phase::ComputingWindow {
        (v, pending(v))
    } else {
        match schedule_error(alarm) {
            Some(e) => (
                v.in_phase(Phase::Exited(RunEnd::Schedule(e))),
                Action::Exit(RunEnd::Schedule(e)),
            ),
            None => (
                ControllerView {
                    phase: Phase::WaitingForStart,
                    delta: window_delta(alarm, now) as u64,
                    chunk: chunk_of(alarm.fade_duration) as u64,
                    lights: baselines(ranges),
                },
                Action::Sleep(window_delta(alarm, now) as u64),
            ),
        }
    }
}

/// Over every event, each light's brightness never falls, its color
/// temperature never rises, and both stay within the light's bounds.
pub proof fn lemma_levels_monotonic(v: ControllerView, ev: Event)
    requires
        v.wf(),
    ensures
        after(v, ev).0.wf(),
        after(v, ev).0.lights.len() == v.lights.len(),
        forall|j: int|
            0 <= j < v.lights.len() ==> {
                let l = #[trigger] after(v, ev).0.lights[j];
                &&& l.range == v.lights[j].range
                &&& v.lights[j].state.brightness <= l.state.brightness
                &&& l.state.color_temperature <= v.lights[j].state.color_temperature
            },
{
    assert forall|j: int| 0 <= j < v.lights.len() implies (#[trigger] advanced_all(v.lights)[
        j
    ]).wf() by {
        crate::light::lemma_step_monotonic_bounded(
            v.lights[j],
            BRIGHTNESS_STEP,
            COLOR_TEMPERATURE_STEP,
        );
    }
}

/// A cycle starts every light at its baseline, the level after no step, and
/// every event keeps every light at the level after the steps taken: the
/// states sent at step `i` are brightness `min(bri_max, bri_min + i + 1)` and
/// color temperature `max(ct_min, ct_max - i - 1)`.
pub proof fn lemma_levels_follow_closed_form(
    v: ControllerView,
    ev: Event,
    alarm: Alarm,
    now: LocalTime,
    ranges: Seq<LightRange>,
)
    requires
        v.wf(),
        forall|i: int| 0 <= i < ranges.len() ==> (#[trigger] ranges[i]).wf(),
    ensures
        on_track(v) ==> on_track(after(v, ev).0),
        v.phase == Phase::ComputingWindow ==> on_track(begun(v, alarm, now, ranges).0),
{
    assert forall|j: int| 0 <= j < ranges.len() implies #[trigger] baselines(ranges)[j]
        == level_after(baselines(ranges)[j].range, BRIGHTNESS_STEP, COLOR_TEMPERATURE_STEP, 0) by {
        lemma_level_after_step(ranges[j], BRIGHTNESS_STEP, COLOR_TEMPERATURE_STEP, 0);
    }
    if on_track(v) {
        if let Phase::Stepping(i) = v.phase {
            assert forall|j: int| 0 <= j < v.lights.len() implies #[trigger] advanced_all(
                v.lights,
            )[j] == level_after(
                advanced_all(v.lights)[j].range,
                BRIGHTNESS_STEP,
                COLOR_TEMPERATURE_STEP,
                (i + 1) as nat,
            ) by {
                assert(v.lights[j].wf());
                lemma_level_after_step(
                    v.lights[j].range,
                    BRIGHTNESS_STEP,
                    COLOR_TEMPERATURE_STEP,
                    i as nat,
                );
            }
        }
    }
}

/// A false activation flag read before a step, or before the next cycle,
/// ends the run with a normal exit, and once exited the controller neither sends nor waits again, and
/// does not begin another cycle.
pub proof fn lemma_deactivation_exits(v: ControllerView)
    requires
        v.phase is Checking || v.phase == Phase::CycleComplete,
    ensures
        after(v, Event::Flag(false)) == (
            v.in_phase(Phase::Exited(RunEnd::Deactivated)),
            Action::Exit(RunEnd::Deactivated),
        ),
        forall|ev: Event|
            #[trigger] after(v.in_phase(Phase::Exited(RunEnd::Deactivated)), ev) == (
                v.in_phase(Phase::Exited(RunEnd::Deactivated)),
                Action::Exit(RunEnd::Deactivated),
            ),
        forall|a: Alarm, now: LocalTime, rs: Seq<LightRange>|
            #[trigger] begun(v.in_phase(Phase::Exited(RunEnd::Deactivated)), a, now, rs) == (
                v.in_phase(Phase::Exited(RunEnd::Deactivated)),
                Action::Exit(RunEnd::Deactivated),
            ),
{
}

/// The flag is read before every step and before every new cycle: after a
/// step's states are sent, the next action reads the flag, and after the
/// last step that reading decides between the next cycle and the end of the
/// run.
pub proof fn lemma_flag_read_before_each_step(v: ControllerView, i: u64, failed: u64)
    requires
        v.phase == Phase::Sending(i),
        i < FADE_STEPS,
    ensures
        i + 1 < FADE_STEPS ==> after(v, Event::Sent { failed }) == (
            v.in_phase(Phase::Checking((i + 1) as u64)),
            Action::ReadFlag,
        ),
        i + 1 == FADE_STEPS ==> after(v, Event::Sent { failed }) == (
            v.in_phase(Phase::CycleComplete),
            Action::ReadFlag,
        ),
        after(v.in_phase(Phase::CycleComplete), Event::Flag(true)) == (
            v.in_phase(Phase::ComputingWindow),
            Action::BeginCycle,
        ),
        after(v.in_phase(Phase::CycleComplete), Event::Flag(false)) == (
            v.in_phase(Phase::Exited(RunEnd::Deactivated)),
            Action::Exit(RunEnd::Deactivated),
        ),
{
}

/// How many lights failed to take their state does not change what the
/// controller does next: the remaining steps are attempted all the same.
pub proof fn lemma_failures_ignored(v: ControllerView, a: u64, b: u64)
    ensures
        after(v, Event::Sent { failed: a }) == after(v, Event::Sent { failed: b }),
{
}

/// The schedule is read only when a cycle begins: at any other point a new
/// schedule, identical or not, changes nothing.
pub proof fn lemma_schedule_read_at_cycle_start(
    v: ControllerView,
    a1: Alarm,
    a2: Alarm,
    now: LocalTime,
    rs: Seq<LightRange>,
)
    requires
        v.phase != Phase::ComputingWindow,
    ensures
        begun(v, a1, now, rs) == begun(v, a2, now, rs),
        begun(v, a1, now, rs) == (v, pending(v)),
{
}

/// The fade controller.
pub struct FadeController {
    phase: Phase,
    delta: u64,
    chunk: u64,
    lights: Vec<Light>,
}

impl View for FadeController {
    type V = ControllerView;

    closed spec fn view(&self) -> ControllerView {
        ControllerView {
            phase: self.phase,
            delta: self.delta,
            chunk: self.chunk,
            lights: self.lights@,
        }
    }
}

impl FadeController {
    /// A controller about to begin its first cycle, with no lights.
    pub fn new() -> (r: FadeController)
        ensures
            r@.phase == Phase::ComputingWindow,
            r@.lights.len() == 0,
            r@.delta == 0,
            r@.chunk == 0,
            r@.wf(),
    {
        FadeController { phase: Phase::ComputingWindow, delta: 0, chunk: 0, lights: Vec::new() }
    }

    /// Where the controller stands.
    pub fn phase(&self) -> (r: Phase)
        ensures
            r == self@.phase,
    {
        self.phase
    }

    /// The action that the controller waits to have performed.
    pub fn pending_action(&self) -> (r: Action)
        ensures
            r == pending(self@),
    {
        match self.phase {
            Phase::ComputingWindow => Action::BeginCycle,
            Phase::WaitingForStart => Action::Sleep(self.delta),
            Phase::RampingToBaseline => Action::SendStates,
            Phase::Checking(_) => Action::ReadFlag,
            Phase::Stepping(_) => Action::Sleep(self.chunk),
            Phase::Sending(_) => Action::SendStates,
            Phase::CycleComplete => Action::ReadFlag,
            Phase::Exited(e) => Action::Exit(e),
        }
    }

    /// The states to send, one for each light, in the order in which the
    /// lights were given to `begin_cycle`.
    pub fn states(&self) -> (r: Vec<LightState>)
        ensures
            r@ == self@.lights.map_values(|l: Light| l.state),
    {
        let mut out: Vec<LightState> = Vec::new();
        let n = self.lights.len();
        let mut i: usize = 0;
        while i < n
            invariant
                n == self.lights@.len(),
                i <= n,
                out@ == self.lights@.take(i as int).map_values(|l: Light| l.state),
            decreases n - i,
        {
            out.push(self.lights[i].state);
            i += 1;
            proof {
                assert(self.lights@.take(i as int) =~= self.lights@.take((i - 1) as int).push(
                    self.lights@[i - 1],
                ));
                assert(out@ =~= self.lights@.take(i as int).map_values(|l: Light| l.state));
            }
        }
        proof {
            assert(self.lights@.take(n as int) =~= self.lights@);
        }
        out
    }

    /// Begins a cycle: computes the window of `alarm` as seen at `now`, and
    /// takes the lights of `ranges` at their starting state.
    pub fn begin_cycle(&mut self, alarm: &Alarm, now: &LocalTime, ranges: &Vec<LightRange>) -> (r:
        Action)
        requires
            old(self)@.wf(),
            now.wf(),
            forall|i: int| 0 <= i < ranges@.len() ==> (#[trigger] ranges@[i]).wf(),
        ensures
            (final(self)@, r) == begun(old(self)@, *alarm, *now, ranges@),
            final(self)@.wf(),
    {
        if self.phase != Phase::ComputingWindow {
            return self.pending_action();
        }
        match compute_window(alarm, now) {
            Err(e) => {
                self.phase = Phase::Exited(RunEnd::Schedule(e));
                Action::Exit(RunEnd::Schedule(e))
            },
            Ok(w) => {
                let mut lights: Vec<Light> = Vec::new();
                let n = ranges.len();
                let mut i: usize = 0;
                while i < n
                    invariant
                        n == ranges@.len(),
                        i <= n,
                        forall|j: int| 0 <= j < ranges@.len() ==> (#[trigger] ranges@[j]).wf(),
                        lights@ == baselines(ranges@.take(i as int)),
                    decreases n - i,
                {
                    lights.push(Light::baseline(ranges[i]));
                    i += 1;
                    proof {
                        assert(ranges@.take(i as int) =~= ranges@.take((i - 1) as int).push(
                            ranges@[i - 1],
                        ));
                        assert(lights@ =~= baselines(ranges@.take(i as int)));
                    }
                }
                proof {
                    assert(ranges@.take(n as int) =~= ranges@);
                }
                self.phase = Phase::WaitingForStart;
                self.delta = w.delta;
                self.chunk = chunk_delta(alarm.fade_duration);
                self.lights = lights;
                proof {
                    assert(self@.lights =~= baselines(ranges@));
                }
                Action::Sleep(w.delta)
            },
        }
    }

    /// Takes the event that the runner reports and returns the next action.
    pub fn handle(&mut self, ev: Event) -> (r: Action)
        requires
            old(self)@.wf(),
        ensures
            (final(self)@, r) == after(old(self)@, ev),
            final(self)@.wf(),
    {
        match (self.phase, ev) {
            (Phase::WaitingForStart, Event::Slept) => {
                self.phase = Phase::RampingToBaseline;
                Action::SendStates
            },
            (Phase::RampingToBaseline, Event::Sent { .. }) => {
                self.phase = Phase::Checking(0);
                Action::ReadFlag
            },
            (Phase::Checking(i), Event::Flag(activated)) => {
                if activated {
                    self.phase = Phase::Stepping(i);
                    Action::Sleep(self.chunk)
                } else {
                    self.phase = Phase::Exited(RunEnd::Deactivated);
                    Action::Exit(RunEnd::Deactivated)
                }
            },
            (Phase::CycleComplete, Event::Flag(activated)) => {
                if activated {
                    self.phase = Phase::ComputingWindow;
                    Action::BeginCycle
                } else {
                    self.phase = Phase::Exited(RunEnd::Deactivated);
                    Action::Exit(RunEnd::Deactivated)
                }
            },
            (Phase::Stepping(i), Event::Slept) => {
                self.advance_all();
                self.phase = Phase::Sending(i);
                Action::SendStates
            },
            (Phase::Sending(i), Event::Sent { .. }) => {
                if i + 1 < FADE_STEPS {
                    self.phase = Phase::Checking(i + 1);
                    Action::ReadFlag
                } else {
                    self.phase = Phase::CycleComplete;
                    Action::ReadFlag
                }
            },
            _ => self.pending_action(),
        }
    }

    /// Moves every light one step along the fade.
    fn advance_all(&mut self)
        requires
            old(self)@.wf(),
        ensures
            final(self)@ == (ControllerView { lights: advanced_all(old(self)@.lights), ..old(self)@ }),
            final(self)@.wf(),
    {
        let n = self.lights.len();
        let mut i: usize = 0;
        while i < n
            invariant
                n == self.lights@.len(),
                i <= n,
                self.phase == old(self).phase,
                self.delta == old(self).delta,
                self.chunk == old(self).chunk,
                forall|j: int| 0 <= j < n ==> (#[trigger] old(self).lights@[j]).wf(),
                forall|j: int|
                    0 <= j < i ==> #[trigger] self.lights@[j] == old(self).lights@[j].advanced(
                        BRIGHTNESS_STEP,
                        COLOR_TEMPERATURE_STEP,
                    ),
                forall|j: int| i <= j < n ==> #[trigger] self.lights@[j] == old(self).lights@[j],
            decreases n - i,
        {
            let mut l = self.lights[i];
            l.advance(BRIGHTNESS_STEP, COLOR_TEMPERATURE_STEP);
            self.lights.set(i, l);
            i += 1;
        }
        proof {
            assert(self.lights@ =~= advanced_all(old(self).lights@));
            assert forall|j: int| 0 <= j < self.lights@.len() implies (#[trigger] self.lights@[
                j
            ]).wf() by {
                crate::light::lemma_step_monotonic_bounded(
                    old(self).lights@[j],
                    BRIGHTNESS_STEP,
                    COLOR_TEMPERATURE_STEP,
                );
            }
        }
    }
}

} // verus!
