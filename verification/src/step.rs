//! One step of the control loop at a time.
//!
//! The host's worker does nothing but this: it hands the loop what it just
//! observed, carries out the pointer actions that come back, does what the
//! loop requests next, and returns with the observation that the request asks
//! for. The order of a tick is therefore decided here: presence check, queued
//! events, analog stages, sleep.

use crate::analog::{
    boost_tick, boosted_amount, move_action, scroll_action, MAX_ROUNDED_STRENGTH,
};
use crate::connection::{DISCONNECTED_SLEEP_MS, TICK_SLEEP_MS};
use crate::controller::{ControllerView, GamepadController};
use crate::device::DeviceEvent;
use crate::pointer::PointerAction;
use vstd::prelude::*;

verus! {

/// What the host's worker reports to the loop.
#[derive(Debug, PartialEq, Eq)]
pub enum Observation {
    /// The worker starts, or has slept as requested: a new tick begins.
    Wake,
    /// The presence check found the bound controller present or not.
    Presence(bool),
    /// The events that the queue held, in the order of their arrival.
    Events(Vec<DeviceEvent>),
    /// What the analog stages computed: the pixel deltas of the motion stage,
    /// the tick that the scroll stage emitted (zero for none), and whether the
    /// scroll stick is pushed nearly all the way.
    Analog { dx: i32, dy: i32, tick: i32, strong_deflection: bool },
}

/// What the loop asks the host's worker to do next.
#[derive(Clone, Copy, Debug, PartialEq, Eq, Structural)]
pub enum Request {
    /// Ask the device source whether the bound controller is present, and
    /// report it as `Presence`.
    CheckPresence,
    /// Take every pending event from the queue, and report them as `Events`.
    DrainEvents,
    /// Read the sticks and the mode buttons, run the analog stages, and report
    /// the result as `Analog`.
    RunAnalog,
    /// Sleep for the given number of milliseconds, and report `Wake`.
    Sleep(u64),
    /// Leave the loop: it was asked to stop.
    Exit,
}

/// What the loop hands back from one step.
#[derive(Debug)]
pub struct StepPlan {
    /// The pointer actions to carry out, in order, before anything else.
    pub actions: Vec<PointerAction>,
    /// What to do after that.
    pub request: Request,
}

impl Observation {
    /// Whether the observation is one that the analog stages can produce: an
    /// emitted tick is never larger than the largest rounded strength.
    pub open spec fn plausible(self) -> bool {
        self matches Observation::Analog { tick, .. } ==> -MAX_ROUNDED_STRENGTH <= tick
            <= MAX_ROUNDED_STRENGTH
    }
}

/// `action` alone if there is one, and nothing otherwise.
pub open spec fn maybe(action: Option<PointerAction>) -> Seq<PointerAction> {
    match action {
        Some(wanted) => seq![wanted],
        None => Seq::empty(),
    }
}

/// The pointer calls for what the analog stages computed: a relative move if a
/// delta is not zero, and then a scroll by the negated, boosted tick if a tick
/// was emitted.
pub open spec fn analog_actions(dx: i32, dy: i32, tick: i32, strong_deflection: bool) -> Seq<
    PointerAction,
> {
    maybe(
        if dx != 0 || dy != 0 {
            Some(PointerAction::MoveRelative { dx, dy })
        } else {
            None
        },
    ) + maybe(
        if tick != 0 {
            Some(
                PointerAction::ScrollVertical(
                    (-boosted_amount(tick as int, strong_deflection)) as i32,
                ),
            )
        } else {
            None
        },
    )
}

impl ControllerView {
    /// The state after the step for `observation`, taken at `now`.
    pub open spec fn after_step(self, observation: Observation, now: u64) -> ControllerView {
        match observation {
            Observation::Wake => if self.running && !self.check_due(now) {
                ControllerView { connection: self.connection.touched(now), ..self }
            } else {
                self
            },
            Observation::Presence(present) => {
                let checked = self.after_check(present, now);
                if present {
                    ControllerView { connection: checked.connection.touched(now), ..checked }
                } else {
                    checked
                }
            },
            Observation::Events(events) => self.after_events(events@, now),
            Observation::Analog { .. } => self,
        }
    }

    /// The pointer actions of the step for `observation`.
    pub open spec fn step_actions(self, observation: Observation, now: u64) -> Seq<
        PointerAction,
    > {
        match observation {
            Observation::Wake => Seq::empty(),
            Observation::Presence(present) => self.check_actions(present),
            Observation::Events(events) => self.events_actions(events@, now),
            Observation::Analog { dx, dy, tick, strong_deflection } => analog_actions(
                dx,
                dy,
                tick,
                strong_deflection,
            ),
        }
    }

    /// What the loop requests after the step for `observation`.
    ///
    /// A tick begins with the stop flag: a stopped loop exits. It goes on with
    /// a presence check if one is due and with the event queue if not. A
    /// controller that is found gone ends the tick with the long sleep and
    /// without a look at the queue. After the events the analog stages run
    /// only if the controller still counts as connected; otherwise the tick
    /// ends with the long sleep. The analog stages end the tick with the short
    /// sleep.
    pub open spec fn step_request(self, observation: Observation, now: u64) -> Request {
        match observation {
            Observation::Wake => if !self.running {
                Request::Exit
            } else if self.check_due(now) {
                Request::CheckPresence
            } else {
                Request::DrainEvents
            },
            Observation::Presence(present) => if present {
                Request::DrainEvents
            } else {
                Request::Sleep(DISCONNECTED_SLEEP_MS)
            },
            Observation::Events(events) => if self.after_events(
                events@,
                now,
            ).connection.connected {
                Request::RunAnalog
            } else {
                Request::Sleep(DISCONNECTED_SLEEP_MS)
            },
            Observation::Analog { .. } => Request::Sleep(TICK_SLEEP_MS),
        }
    }
}

impl GamepadController {
    /// Takes one step of the loop: takes in what the worker observed at `now`,
    /// and returns the pointer actions to carry out and what to do next.
    pub fn step(&mut self, observation: Observation, now: u64) -> (plan: StepPlan)
        requires
            observation.plausible(),
        ensures
            final(self)@ == old(self)@.after_step(observation, now),
            plan.actions@ == old(self)@.step_actions(observation, now),
            plan.request == old(self)@.step_request(observation, now),
            final(self)@.wf(),
    {
        let running = self.is_running();
        match observation {
            Observation::Wake => {
                let request = if !running {
                    Request::Exit
                } else if self.connection_check_due(now) {
                    Request::CheckPresence
                } else {
                    self.record_activity(now);
                    Request::DrainEvents
                };
                StepPlan { actions: Vec::new(), request }
            },
            Observation::Presence(present) => {
                let check = self.check_connection(present, now);
                let request = if check.proceed {
                    self.record_activity(now);
                    Request::DrainEvents
                } else {
                    Request::Sleep(DISCONNECTED_SLEEP_MS)
                };
                StepPlan { actions: check.actions, request }
            },
            Observation::Events(events) => {
                let actions = self.handle_events(&events, now);
                let request = if self.analog_enabled() {
                    Request::RunAnalog
                } else {
                    Request::Sleep(DISCONNECTED_SLEEP_MS)
                };
                StepPlan { actions, request }
            },
            Observation::Analog { dx, dy, tick, strong_deflection } => {
                let mut actions: Vec<PointerAction> = Vec::new();
                if let Some(motion) = move_action(dx, dy) {
                    actions.push(motion);
                }
                if let Some(scroll) = scroll_action(boost_tick(tick, strong_deflection)) {
                    actions.push(scroll);
                }
                assert(actions@ =~= analog_actions(dx, dy, tick, strong_deflection));
                StepPlan { actions, request: Request::Sleep(TICK_SLEEP_MS) }
            },
        }
    }
}

/// The analog stages are requested only for a controller that counts as
/// connected, and only after the event queue was handled.
pub proof fn lemma_no_analog_while_disconnected(
    state: ControllerView,
    observation: Observation,
    now: u64,
)
    requires
        state.step_request(observation, now) == Request::RunAnalog,
    ensures
        observation is Events,
        state.after_step(observation, now).connection.connected,
{
}

/// A presence check that finds the controller gone ends the tick: the loop
/// sleeps for the disconnected interval, the controller counts as gone, and no
/// pointer button is held unless the controller was counted as gone before.
pub proof fn lemma_lost_presence_ends_the_tick(state: ControllerView, now: u64)
    ensures
        state.step_request(Observation::Presence(false), now) == Request::Sleep(
            DISCONNECTED_SLEEP_MS,
        ),
        !state.after_step(Observation::Presence(false), now).connection.connected,
        state.connection.connected ==> state.after_step(
            Observation::Presence(false),
            now,
        ).buttons == crate::pointer::ButtonDownState::all_up(),
{
}

/// A stopped loop exits at the beginning of its next tick, without a pointer
/// action and without a change of state.
pub proof fn lemma_stopped_loop_exits(state: ControllerView, now: u64)
    requires
        !state.running,
    ensures
        state.step_request(Observation::Wake, now) == Request::Exit,
        state.step_actions(Observation::Wake, now).len() == 0,
        state.after_step(Observation::Wake, now) == state,
{
}

/// No step breaks the rule that a loss time is recorded exactly while the
/// controller is gone.
pub proof fn lemma_step_keeps_wf(state: ControllerView, observation: Observation, now: u64)
    requires
        state.wf(),
    ensures
        state.after_step(observation, now).wf(),
{
    if let Observation::Events(events) = observation {
        lemma_events_keep_wf(state, events@, now);
    }
}

/// Handling any run of events keeps the rule that a loss time is recorded
/// exactly while the controller is gone.
pub proof fn lemma_events_keep_wf(state: ControllerView, events: Seq<DeviceEvent>, now: u64)
    requires
        state.wf(),
    ensures
        state.after_events(events, now).wf(),
    decreases events.len(),
{
    if events.len() > 0 {
        lemma_events_keep_wf(state, events.drop_last(), now);
    }
}

} // verus!
