//! The control loop of one bound controller, as a state machine.
//!
//! The host owns the devices and the clock. Once per step it hands what it
//! observed to the controller (the result of a presence check, the events of
//! the queue, the time) and carries out the pointer actions that come back, in
//! order. Everything that the loop decides is decided here.

use crate::analog::ScrollState;
use crate::button::{button_to_string, Button};
use crate::config::{Config, ConfigView};
use crate::connection::{elapsed_between, elapsed_ms, ConnectionState, CONNECTION_CHECK_INTERVAL_MS};
use crate::device::{DeviceEvent, DeviceScan, EventKind};
use crate::pointer::{ButtonDownState, MouseButton, PointerAction};
use vstd::prelude::*;

verus! {

/// The pause between the two clicks of a double click.
pub const DOUBLE_CLICK_DELAY_MS: u64 = 50;

/// Two full clicks of the left pointer button with a short pause between them.
pub open spec fn double_click() -> Seq<PointerAction> {
    seq![
        PointerAction::ButtonDown(MouseButton::Left),
        PointerAction::ButtonUp(MouseButton::Left),
        PointerAction::Pause(DOUBLE_CLICK_DELAY_MS),
        PointerAction::ButtonDown(MouseButton::Left),
        PointerAction::ButtonUp(MouseButton::Left),
    ]
}

/// `actions` if `wanted`, and nothing otherwise.
pub open spec fn when(wanted: bool, actions: Seq<PointerAction>) -> Seq<PointerAction> {
    if wanted {
        actions
    } else {
        Seq::empty()
    }
}

/// The actions for a press of the controller button called `name`: a press of
/// each pointer button that is bound to it, left before right before middle,
/// and then a double click if that is bound to it. One controller button may
/// drive several of them.
pub open spec fn actions_on_press(config: ConfigView, name: Seq<char>) -> Seq<PointerAction> {
    when(name == config.left_click_button, seq![PointerAction::ButtonDown(MouseButton::Left)])
        + when(
        name == config.right_click_button,
        seq![PointerAction::ButtonDown(MouseButton::Right)],
    ) + when(
        name == config.middle_click_button,
        seq![PointerAction::ButtonDown(MouseButton::Middle)],
    ) + when(name == config.double_click_button, double_click())
}

/// The held pointer buttons after a press of the controller button called
/// `name`: every pointer button bound to it is held, and the others are as
/// before. A double click changes nothing in the record.
pub open spec fn buttons_on_press(
    config: ConfigView,
    name: Seq<char>,
    buttons: ButtonDownState,
) -> ButtonDownState {
    ButtonDownState {
        left: buttons.left || name == config.left_click_button,
        right: buttons.right || name == config.right_click_button,
        middle: buttons.middle || name == config.middle_click_button,
    }
}

/// The actions for a release of the controller button called `name`: a release
/// of each pointer button that is bound to it and recorded as held.
pub open spec fn actions_on_release(
    config: ConfigView,
    name: Seq<char>,
    buttons: ButtonDownState,
) -> Seq<PointerAction> {
    when(
        name == config.left_click_button && buttons.left,
        seq![PointerAction::ButtonUp(MouseButton::Left)],
    ) + when(
        name == config.right_click_button && buttons.right,
        seq![PointerAction::ButtonUp(MouseButton::Right)],
    ) + when(
        name == config.middle_click_button && buttons.middle,
        seq![PointerAction::ButtonUp(MouseButton::Middle)],
    )
}

/// The held pointer buttons after a release of the controller button called
/// `name`: no pointer button bound to it is held, and the others are as before.
pub open spec fn buttons_on_release(
    config: ConfigView,
    name: Seq<char>,
    buttons: ButtonDownState,
) -> ButtonDownState {
    ButtonDownState {
        left: buttons.left && name != config.left_click_button,
        right: buttons.right && name != config.right_click_button,
        middle: buttons.middle && name != config.middle_click_button,
    }
}

/// The state of a control loop.
pub struct ControllerView {
    /// The controller that the loop is bound to.
    pub gamepad_id: u64,
    /// Whether the loop has not been asked to stop.
    pub running: bool,
    /// Connection status of the bound controller.
    pub connection: ConnectionState,
    /// The pointer buttons that the loop holds down.
    pub buttons: ButtonDownState,
    /// The settings in force.
    pub config: ConfigView,
    /// Smoothing state of the scroll stage.
    pub scroll: ScrollState,
    /// When the presence of the controller was last checked.
    pub last_connection_check: u64,
}

impl ControllerView {
    /// A loss time is recorded exactly while the controller is gone.
    pub open spec fn wf(self) -> bool {
        self.connection.wf()
    }

    /// The state of a loop that was just started for `gamepad_id` at `now`.
    pub open spec fn started(gamepad_id: u64, config: ConfigView, now: u64) -> ControllerView {
        ControllerView {
            gamepad_id,
            running: true,
            connection: ConnectionState::fresh(now),
            buttons: ButtonDownState::all_up(),
            config,
            scroll: ScrollState::zero(),
            last_connection_check: now,
        }
    }

    /// The state after the controller was found gone at `now`: the loss is
    /// recorded and no pointer button is held any more.
    pub open spec fn disconnected(self, now: u64) -> ControllerView {
        ControllerView {
            connection: self.connection.lost(now),
            buttons: ButtonDownState::all_up(),
            ..self
        }
    }

    /// The state after the settings were replaced by `config`: the scroll stage
    /// starts from rest, and nothing else changes.
    pub open spec fn with_config(self, config: ConfigView) -> ControllerView {
        ControllerView { config, scroll: ScrollState::zero(), ..self }
    }

    /// Whether a presence check is due at `now`.
    pub open spec fn check_due(self, now: u64) -> bool {
        elapsed_between(self.last_connection_check, now) >= CONNECTION_CHECK_INTERVAL_MS
    }

    /// The state after a presence check at `now` found the controller present
    /// or not.
    pub open spec fn after_check(self, present: bool, now: u64) -> ControllerView {
        let checked = ControllerView { last_connection_check: now, ..self };
        if !present {
            if self.connection.connected {
                checked.disconnected(now)
            } else {
                checked
            }
        } else if !self.connection.connected {
            ControllerView { connection: self.connection.restored(now), ..checked }
        } else {
            checked
        }
    }

    /// The actions of a presence check: the release of every held pointer
    /// button when a connected controller is found gone, and nothing otherwise.
    pub open spec fn check_actions(self, present: bool) -> Seq<PointerAction> {
        if !present && self.connection.connected {
            self.buttons.release_actions()
        } else {
            Seq::empty()
        }
    }

    /// The state after one event of the queue, taken at `now`. An event of
    /// another controller changes nothing.
    pub open spec fn after_event(self, event: DeviceEvent, now: u64) -> ControllerView {
        if event.id != self.gamepad_id {
            self
        } else {
            match event.kind {
                EventKind::ButtonPressed(button) => ControllerView {
                    buttons: buttons_on_press(self.config, button.name(), self.buttons),
                    ..self
                },
                EventKind::ButtonReleased(button) => ControllerView {
                    buttons: buttons_on_release(self.config, button.name(), self.buttons),
                    ..self
                },
                EventKind::Disconnected => self.disconnected(now),
                EventKind::Other => self,
            }
        }
    }

    /// The actions for one event of the queue. An event of another controller
    /// causes none.
    pub open spec fn event_actions(self, event: DeviceEvent) -> Seq<PointerAction> {
        if event.id != self.gamepad_id {
            Seq::empty()
        } else {
            match event.kind {
                EventKind::ButtonPressed(button) => actions_on_press(self.config, button.name()),
                EventKind::ButtonReleased(button) => actions_on_release(
                    self.config,
                    button.name(),
                    self.buttons,
                ),
                EventKind::Disconnected => self.buttons.release_actions(),
                EventKind::Other => Seq::empty(),
            }
        }
    }

    /// The state after the events of `events`, taken one after the other in
    /// the order of their arrival.
    pub open spec fn after_events(self, events: Seq<DeviceEvent>, now: u64) -> ControllerView
        decreases events.len(),
    {
        if events.len() == 0 {
            self
        } else {
            self.after_events(events.drop_last(), now).after_event(events.last(), now)
        }
    }

    /// The actions for the events of `events`, in the order of their arrival.
    pub open spec fn events_actions(self, events: Seq<DeviceEvent>, now: u64) -> Seq<
        PointerAction,
    >
        decreases events.len(),
    {
        if events.len() == 0 {
            Seq::empty()
        } else {
            self.events_actions(events.drop_last(), now) + self.after_events(
                events.drop_last(),
                now,
            ).event_actions(events.last())
        }
    }

    /// The state after a reconnection probe at `now`, where `confirmed` says
    /// whether the probe found the bound controller connected. A loop that is
    /// connected is left as it is; one that is not is reconnected only on a
    /// confirmation.
    pub open spec fn after_reconnect(self, confirmed: bool, now: u64) -> ControllerView {
        if !self.connection.connected && confirmed {
            ControllerView { connection: self.connection.restored(now), ..self }
        } else {
            self
        }
    }
}

/// Presses every pointer button that is bound to the controller button called
/// `name`, and plays a double click if that is bound to it.
fn press(config: &Config, name: &String, buttons: &mut ButtonDownState) -> (actions: Vec<
    PointerAction,
>)
    ensures
        actions@ == actions_on_press(config@, name@),
        *final(buttons) == buttons_on_press(config@, name@, *old(buttons)),
{
    let mut actions: Vec<PointerAction> = Vec::new();
    if *name == config.left_click_button {
        actions.push(PointerAction::ButtonDown(MouseButton::Left));
        buttons.left = true;
    }
    if *name == config.right_click_button {
        actions.push(PointerAction::ButtonDown(MouseButton::Right));
        buttons.right = true;
    }
    if *name == config.middle_click_button {
        actions.push(PointerAction::ButtonDown(MouseButton::Middle));
        buttons.middle = true;
    }
    if *name == config.double_click_button {
        actions.push(PointerAction::ButtonDown(MouseButton::Left));
        actions.push(PointerAction::ButtonUp(MouseButton::Left));
        actions.push(PointerAction::Pause(DOUBLE_CLICK_DELAY_MS));
        actions.push(PointerAction::ButtonDown(MouseButton::Left));
        actions.push(PointerAction::ButtonUp(MouseButton::Left));
    }
    assert(actions@ =~= actions_on_press(config@, name@));
    actions
}

/// Lets go of every pointer button that is bound to the controller button
/// called `name` and recorded as held.
fn release(config: &Config, name: &String, buttons: &mut ButtonDownState) -> (actions: Vec<
    PointerAction,
>)
    ensures
        actions@ == actions_on_release(config@, name@, *old(buttons)),
        *final(buttons) == buttons_on_release(config@, name@, *old(buttons)),
{
    let mut actions: Vec<PointerAction> = Vec::new();
    if *name == config.left_click_button && buttons.left {
        actions.push(PointerAction::ButtonUp(MouseButton::Left));
        buttons.left = false;
    }
    if *name == config.right_click_button && buttons.right {
        actions.push(PointerAction::ButtonUp(MouseButton::Right));
        buttons.right = false;
    }
    if *name == config.middle_click_button && buttons.middle {
        actions.push(PointerAction::ButtonUp(MouseButton::Middle));
        buttons.middle = false;
    }
    assert(actions@ =~= actions_on_release(config@, name@, *old(buttons)));
    actions
}

/// What a presence check asks of the host.
#[derive(Debug)]
pub struct ConnectionCheck {
    /// The pointer actions to carry out, in order.
    pub actions: Vec<PointerAction>,
    /// Whether the step goes on. Where it does not, the host sleeps for the
    /// disconnected interval and starts the next step.
    pub proceed: bool,
}

/// The control loop of one bound controller.
#[derive(Debug)]
pub struct GamepadController {
    gamepad_id: u64,
    running: bool,
    connection: ConnectionState,
    buttons: ButtonDownState,
    config: Config,
    scroll: ScrollState,
    last_connection_check: u64,
}

impl View for GamepadController {
    type V = ControllerView;

    closed spec fn view(&self) -> ControllerView {
        ControllerView {
            gamepad_id: self.gamepad_id,
            running: self.running,
            connection: self.connection,
            buttons: self.buttons,
            config: self.config@,
            scroll: self.scroll,
            last_connection_check: self.last_connection_check,
        }
    }
}

impl GamepadController {
    /// A loss time is recorded exactly while the controller is gone.
    #[verifier::type_invariant]
    spec fn loss_is_recorded(self) -> bool {
        self.connection.wf()
    }

    /// Starts a loop for the controller `gamepad_id` with the settings
    /// `config` at `now`: running, connected, no pointer button held and the
    /// scroll stage at rest.
    pub fn new(gamepad_id: u64, config: Config, now: u64) -> (controller: Self)
        ensures
            controller@ == ControllerView::started(gamepad_id, config@, now),
            controller@.wf(),
    {
        GamepadController {
            gamepad_id,
            running: true,
            connection: ConnectionState::new(now),
            buttons: ButtonDownState::new(),
            config,
            scroll: ScrollState::new(),
            last_connection_check: now,
        }
    }

    /// Asks the loop to stop. The host's worker sees it at its next step.
    pub fn stop(&mut self)
        ensures
            final(self)@ == (ControllerView { running: false, ..old(self)@ }),
            final(self)@.wf(),
    {
        proof {
            use_type_invariant(&*self);
        }
        self.running = false;
    }

    /// Replaces the settings as a whole and puts the scroll stage back to rest,
    /// so that no momentum gathered under the old settings is left.
    pub fn update_config(&mut self, config: Config)
        ensures
            final(self)@ == old(self)@.with_config(config@),
            final(self)@.wf(),
    {
        proof {
            use_type_invariant(&*self);
        }
        self.config = config;
        self.scroll = ScrollState::new();
    }

    /// Probes for the bound controller with the enumeration `scan`, made at
    /// `now`. A loop that is connected stays as it is. One that is not becomes
    /// connected, with the loss time cleared and `now` as its last activity, if
    /// and only if the enumeration lists the bound controller as connected;
    /// other controllers in the enumeration never count.
    pub fn try_reconnect(&mut self, scan: &DeviceScan, now: u64) -> (connected: bool)
        ensures
            final(self)@ == old(self)@.after_reconnect(scan.confirms(old(self)@.gamepad_id), now),
            connected == final(self)@.connection.connected,
            connected == (old(self)@.connection.connected || scan.confirms(
                old(self)@.gamepad_id,
            )),
            final(self)@.wf(),
    {
        proof {
            use_type_invariant(&*self);
        }
        if self.connection.connected {
            return true;
        }
        if scan.confirms_device(self.gamepad_id) {
            let mut connection = self.connection;
            connection.mark_restored(now);
            self.connection = connection;
            true
        } else {
            false
        }
    }

    /// Whether the loop has not been asked to stop.
    pub fn is_running(&self) -> (running: bool)
        ensures
            running == self@.running,
            self@.wf(),
    {
        proof {
            use_type_invariant(self);
        }
        self.running
    }

    /// Whether the bound controller is taken to be present.
    pub fn is_connected(&self) -> (connected: bool)
        ensures
            connected == self@.connection.connected,
            self@.wf(),
    {
        proof {
            use_type_invariant(self);
        }
        self.connection.connected
    }

    /// When the loop last ran with the controller, or reconnected to it.
    pub fn get_last_activity(&self) -> (at: Option<u64>)
        ensures
            at == Some(self@.connection.last_activity),
    {
        Some(self.connection.last_activity)
    }

    /// When the loss of the controller was noticed, while it is gone.
    pub fn get_connection_lost_time(&self) -> (at: Option<u64>)
        ensures
            at == self@.connection.connection_lost_at,
            at is Some <==> !self@.connection.connected,
    {
        proof {
            use_type_invariant(self);
        }
        self.connection.connection_lost_at
    }

    /// The controller that the loop is bound to.
    pub fn gamepad_id(&self) -> (id: u64)
        ensures
            id == self@.gamepad_id,
    {
        self.gamepad_id
    }

    /// The settings in force.
    pub fn config(&self) -> (config: &Config)
        ensures
            config@ == self@.config,
    {
        &self.config
    }

    /// The pointer buttons that the loop holds down.
    pub fn buttons(&self) -> (buttons: ButtonDownState)
        ensures
            buttons == self@.buttons,
    {
        self.buttons
    }

    /// Smoothing state of the scroll stage.
    pub fn scroll_state(&self) -> (scroll: ScrollState)
        ensures
            scroll == self@.scroll,
    {
        self.scroll
    }

    /// Stores what the scroll stage left of its smoothing state.
    pub fn set_scroll_state(&mut self, scroll: ScrollState)
        ensures
            final(self)@ == (ControllerView { scroll, ..old(self)@ }),
            final(self)@.wf(),
    {
        proof {
            use_type_invariant(&*self);
        }
        self.scroll = scroll;
    }

    /// Records the loss of the controller at `now` and lets go of every held
    /// pointer button.
    fn disconnect(&mut self, now: u64) -> (actions: Vec<PointerAction>)
        ensures
            final(self)@ == old(self)@.disconnected(now),
            actions@ == old(self)@.buttons.release_actions(),
    {
        let mut connection = self.connection;
        connection.mark_lost(now);
        let mut buttons = self.buttons;
        let actions = buttons.release_all();
        self.connection = connection;
        self.buttons = buttons;
        actions
    }

    /// Whether a presence check is due at `now`: a full check interval has
    /// passed since the last one.
    pub fn connection_check_due(&self, now: u64) -> (due: bool)
        ensures
            due == self@.check_due(now),
    {
        elapsed_ms(self.last_connection_check, now) >= CONNECTION_CHECK_INTERVAL_MS
    }

    /// Takes in the result of a presence check made at `now`. A connected
    /// controller that is gone is recorded as lost and every held pointer
    /// button is released; a lost controller that is back is recorded as
    /// connected. The step goes on exactly when the controller is present.
    pub fn check_connection(&mut self, present: bool, now: u64) -> (check: ConnectionCheck)
        ensures
            final(self)@ == old(self)@.after_check(present, now),
            check.actions@ == old(self)@.check_actions(present),
            check.proceed == present,
            final(self)@.wf(),
    {
        proof {
            use_type_invariant(&*self);
        }
        self.last_connection_check = now;
        let mut actions: Vec<PointerAction> = Vec::new();
        if !present {
            if self.connection.connected {
                actions = self.disconnect(now);
            }
        } else if !self.connection.connected {
            let mut connection = self.connection;
            connection.mark_restored(now);
            self.connection = connection;
        }
        ConnectionCheck { actions, proceed: present }
    }

    /// Records that the loop ran at `now`.
    pub fn record_activity(&mut self, now: u64)
        ensures
            final(self)@ == (ControllerView {
                connection: old(self)@.connection.touched(now),
                ..old(self)@
            }),
            final(self)@.wf(),
    {
        proof {
            use_type_invariant(&*self);
        }
        let mut connection = self.connection;
        connection.touch(now);
        self.connection = connection;
    }

    /// Whether the analog stages run in this step: only while the controller
    /// is connected.
    pub fn analog_enabled(&self) -> (enabled: bool)
        ensures
            enabled == self@.connection.connected,
    {
        self.connection.connected
    }
}

impl GamepadController {
    /// Takes in one event of the queue at `now` and returns the pointer actions
    /// that it causes, in order.
    ///
    /// A press presses every pointer button bound to the controller button and
    /// plays a double click if that is bound to it. A release lets go of every
    /// pointer button that is bound to the controller button and recorded as
    /// held. A disconnect records the loss and lets go of every held pointer
    /// button. An event of another controller is discarded.
    pub fn handle_event(&mut self, event: DeviceEvent, now: u64) -> (actions: Vec<PointerAction>)
        ensures
            final(self)@ == old(self)@.after_event(event, now),
            actions@ == old(self)@.event_actions(event),
            final(self)@.wf(),
    {
        proof {
            use_type_invariant(&*self);
        }
        let mut actions: Vec<PointerAction> = Vec::new();
        if event.id != self.gamepad_id {
            return actions;
        }
        match event.kind {
            EventKind::ButtonPressed(button) => {
                let name = button_to_string(button);
                let mut buttons = self.buttons;
                actions = press(&self.config, &name, &mut buttons);
                self.buttons = buttons;
            },
            EventKind::ButtonReleased(button) => {
                let name = button_to_string(button);
                let mut buttons = self.buttons;
                actions = release(&self.config, &name, &mut buttons);
                self.buttons = buttons;
            },
            EventKind::Disconnected => {
                actions = self.disconnect(now);
            },
            EventKind::Other => {},
        }
        actions
    }

    /// Takes in the events that the queue held at `now`, strictly in the order
    /// of their arrival, and returns the pointer actions that they cause, in
    /// order.
    pub fn handle_events(&mut self, events: &Vec<DeviceEvent>, now: u64) -> (actions: Vec<
        PointerAction,
    >)
        ensures
            final(self)@ == old(self)@.after_events(events@, now),
            actions@ == old(self)@.events_actions(events@, now),
            final(self)@.wf(),
    {
        proof {
            use_type_invariant(&*self);
        }
        let mut actions: Vec<PointerAction> = Vec::new();
        let mut i: usize = 0;
        while i < events.len()
            invariant
                i <= events.len(),
                self@ == old(self)@.after_events(events@.take(i as int), now),
                actions@ == old(self)@.events_actions(events@.take(i as int), now),
                self@.wf(),
            decreases events.len() - i,
        {
            proof {
                assert(events@.take(i + 1).drop_last() == events@.take(i as int));
            }
            let mut caused = self.handle_event(events[i], now);
            actions.append(&mut caused);
            i += 1;
        }
        proof {
            assert(events@.take(i as int) == events@);
        }
        actions
    }
}

/// A disconnect that arrives in the event queue lets go of exactly the pointer
/// buttons that were held: each of them once, none that was up, and nothing
/// else. Afterwards the controller counts as gone since `now` and no pointer
/// button is held.
pub proof fn lemma_disconnect_event_releases_held(
    state: ControllerView,
    now: u64,
    button: MouseButton,
)
    ensures
        ({
            let event = DeviceEvent { id: state.gamepad_id, kind: EventKind::Disconnected };
            let actions = state.event_actions(event);
            let after = state.after_event(event, now);
            &&& actions.contains(PointerAction::ButtonUp(button)) <==> state.buttons.holds(button)
            &&& actions.no_duplicates()
            &&& forall|i: int| 0 <= i < actions.len() ==> actions[i] is ButtonUp
            &&& after.buttons == ButtonDownState::all_up()
            &&& !after.connection.connected
            &&& after.connection.connection_lost_at == Some(now)
        }),
{
    crate::pointer::lemma_release_is_exact(state.buttons, button);
}

/// A presence check that finds a connected controller gone lets go of exactly
/// the pointer buttons that were held: each of them once, none that was up, and
/// nothing else. Afterwards the controller counts as gone since `now` and no
/// pointer button is held. A check of a controller that already counts as gone
/// releases nothing.
pub proof fn lemma_lost_presence_releases_held(state: ControllerView, now: u64, button: MouseButton)
    ensures
        ({
            let actions = state.check_actions(false);
            let after = state.after_check(false, now);
            &&& state.connection.connected ==> {
                &&& actions.contains(PointerAction::ButtonUp(button)) <==> state.buttons.holds(
                    button,
                )
                &&& after.buttons == ButtonDownState::all_up()
                &&& after.connection.connection_lost_at == Some(now)
            }
            &&& !state.connection.connected ==> actions.len() == 0 && after.buttons
                == state.buttons
            &&& actions.no_duplicates()
            &&& forall|i: int| 0 <= i < actions.len() ==> actions[i] is ButtonUp
            &&& !after.connection.connected
        }),
{
    crate::pointer::lemma_release_is_exact(state.buttons, button);
}

/// A release of a controller button never lets go of a pointer button that is
/// not recorded as held, and lets go of a held one exactly when it is bound to
/// that controller button.
pub proof fn lemma_release_event_is_guarded(
    state: ControllerView,
    released: Button,
    now: u64,
    button: MouseButton,
)
    ensures
        ({
            let event = DeviceEvent {
                id: state.gamepad_id,
                kind: EventKind::ButtonReleased(released),
            };
            let actions = state.event_actions(event);
            let bound = released.name() == match button {
                MouseButton::Left => state.config.left_click_button,
                MouseButton::Right => state.config.right_click_button,
                MouseButton::Middle => state.config.middle_click_button,
            };
            &&& actions.contains(PointerAction::ButtonUp(button)) <==> (bound
                && state.buttons.holds(button))
            &&& state.after_event(event, now).buttons.holds(button) <==> (state.buttons.holds(
                button,
            ) && !bound)
        }),
{
    let event = DeviceEvent { id: state.gamepad_id, kind: EventKind::ButtonReleased(released) };
    let actions = state.event_actions(event);
    let name = released.name();
    let left = when(
        name == state.config.left_click_button && state.buttons.left,
        seq![PointerAction::ButtonUp(MouseButton::Left)],
    );
    let right = when(
        name == state.config.right_click_button && state.buttons.right,
        seq![PointerAction::ButtonUp(MouseButton::Right)],
    );
    let middle = when(
        name == state.config.middle_click_button && state.buttons.middle,
        seq![PointerAction::ButtonUp(MouseButton::Middle)],
    );
    assert(actions == left + right + middle);
    let wanted = PointerAction::ButtonUp(button);
    if actions.contains(wanted) {
    } else {
        match button {
            MouseButton::Left => {
                if left.len() > 0 {
                    assert(actions[0] == wanted);
                }
            },
            MouseButton::Right => {
                if right.len() > 0 {
                    assert(actions[left.len() as int] == wanted);
                }
            },
            MouseButton::Middle => {
                if middle.len() > 0 {
                    assert(actions[(left.len() + right.len()) as int] == wanted);
                }
            },
        }
    }
}

/// A reconnection probe reconnects a lost controller if and only if the probe
/// confirms the bound controller. On a confirmation the loss time is cleared
/// and the probe's time becomes the last activity; without one nothing changes.
pub proof fn lemma_reconnect_needs_confirmation(state: ControllerView, scan: DeviceScan, now: u64)
    requires
        !state.connection.connected,
    ensures
        ({
            let after = state.after_reconnect(scan.confirms(state.gamepad_id), now);
            &&& after.connection.connected <==> scan.confirms(state.gamepad_id)
            &&& scan.confirms(state.gamepad_id) ==> {
                &&& after.connection.connection_lost_at is None
                &&& after.connection.last_activity == now
                &&& after.wf()
            }
            &&& !scan.confirms(state.gamepad_id) ==> after == state
            &&& after.gamepad_id == state.gamepad_id
        }),
{
}

/// A presence check brings a lost controller back exactly when it finds the
/// controller present, and then clears the loss time.
pub proof fn lemma_presence_restores_connection(state: ControllerView, present: bool, now: u64)
    requires
        state.wf(),
        !state.connection.connected,
    ensures
        ({
            let after = state.after_check(present, now);
            &&& after.connection.connected <==> present
            &&& present ==> after.connection.connection_lost_at is None
                && after.connection.last_activity == now
            &&& !present ==> after.connection == state.connection
            &&& after.wf()
        }),
{
}

/// Replacing the settings puts the scroll stage back to rest, whatever state
/// the loop is in and whatever the new settings are, and changes nothing else.
pub proof fn lemma_new_config_resets_scroll(state: ControllerView, config: ConfigView)
    ensures
        state.with_config(config).scroll == ScrollState::zero(),
        state.with_config(config).config == config,
        state.with_config(config) == (ControllerView {
            config,
            scroll: ScrollState::zero(),
            ..state
        }),
{
}

/// No step of the loop breaks the rule that a loss time is recorded exactly
/// while the controller is gone.
pub proof fn lemma_steps_keep_wf(
    state: ControllerView,
    event: DeviceEvent,
    present: bool,
    confirmed: bool,
    config: ConfigView,
    now: u64,
)
    requires
        state.wf(),
    ensures
        ControllerView::started(state.gamepad_id, config, now).wf(),
        state.after_event(event, now).wf(),
        state.after_check(present, now).wf(),
        state.after_reconnect(confirmed, now).wf(),
        state.with_config(config).wf(),
{
}

/// Events of other controllers are discarded: they cause no action and change
/// nothing.
pub proof fn lemma_foreign_events_are_discarded(state: ControllerView, event: DeviceEvent, now: u64)
    requires
        event.id != state.gamepad_id,
    ensures
        state.event_actions(event).len() == 0,
        state.after_event(event, now) == state,
{
}

/// What the pointer device holds down after it carried out `actions`, if it
/// held `held` before: a press holds a button, a release lets it go, and the
/// other actions hold and release nothing.
pub open spec fn replay(held: ButtonDownState, actions: Seq<PointerAction>) -> ButtonDownState
    decreases actions.len(),
{
    if actions.len() == 0 {
        held
    } else {
        let before = replay(held, actions.drop_last());
        match actions.last() {
            PointerAction::ButtonDown(button) => before.with(button, true),
            PointerAction::ButtonUp(button) => before.with(button, false),
            _ => before,
        }
    }
}

/// Replaying two runs of actions one after the other is replaying their
/// concatenation.
pub proof fn lemma_replay_concat(
    held: ButtonDownState,
    first: Seq<PointerAction>,
    second: Seq<PointerAction>,
)
    ensures
        replay(held, first + second) == replay(replay(held, first), second),
    decreases second.len(),
{
    if second.len() == 0 {
        assert(first + second == first);
    } else {
        lemma_replay_concat(held, first, second.drop_last());
        assert((first + second).drop_last() == first + second.drop_last());
        assert((first + second).last() == second.last());
    }
}

/// Replaying at most one action.
proof fn lemma_replay_short(held: ButtonDownState, wanted: bool, action: PointerAction)
    ensures
        replay(held, when(wanted, seq![action])) == if !wanted {
            held
        } else {
            match action {
                PointerAction::ButtonDown(button) => held.with(button, true),
                PointerAction::ButtonUp(button) => held.with(button, false),
                _ => held,
            }
        },
{
    if wanted {
        let actions = seq![action];
        assert(actions.drop_last().len() == 0);
        assert(actions.last() == action);
        assert(replay(held, actions.drop_last()) == held);
    }
}

/// Whether the step for `event` plays a double click in `state`.
pub open spec fn plays_double_click(state: ControllerView, event: DeviceEvent) -> bool {
    event.id == state.gamepad_id && (event.kind matches EventKind::ButtonPressed(button)
        && button.name() == state.config.double_click_button)
}

/// The record of held pointer buttons follows the actions: what the loop
/// records as held after an event is what the pointer device holds after it
/// carried out the actions of that event, provided that it held what the loop
/// recorded before. A double click is the one exception, since it lets go of
/// the left button whatever the record says.
pub proof fn lemma_record_follows_actions(state: ControllerView, event: DeviceEvent, now: u64)
    requires
        !plays_double_click(state, event),
    ensures
        replay(state.buttons, state.event_actions(event)) == state.after_event(
            event,
            now,
        ).buttons,
{
    let held = state.buttons;
    let config = state.config;
    if event.id != state.gamepad_id {
    } else {
        match event.kind {
            EventKind::ButtonPressed(button) => {
                let name = button.name();
                let left = when(
                    name == config.left_click_button,
                    seq![PointerAction::ButtonDown(MouseButton::Left)],
                );
                let right = when(
                    name == config.right_click_button,
                    seq![PointerAction::ButtonDown(MouseButton::Right)],
                );
                let middle = when(
                    name == config.middle_click_button,
                    seq![PointerAction::ButtonDown(MouseButton::Middle)],
                );
                let none = when(name == config.double_click_button, double_click());
                assert(state.event_actions(event) == left + right + middle + none);
                assert(left + right + middle + none == left + right + middle);
                lemma_replay_concat(held, left + right, middle);
                lemma_replay_concat(held, left, right);
                lemma_replay_short(
                    held,
                    name == config.left_click_button,
                    PointerAction::ButtonDown(MouseButton::Left),
                );
                lemma_replay_short(
                    replay(held, left),
                    name == config.right_click_button,
                    PointerAction::ButtonDown(MouseButton::Right),
                );
                lemma_replay_short(
                    replay(held, left + right),
                    name == config.middle_click_button,
                    PointerAction::ButtonDown(MouseButton::Middle),
                );
            },
            EventKind::ButtonReleased(button) => {
                let name = button.name();
                let left = when(
                    name == config.left_click_button && held.left,
                    seq![PointerAction::ButtonUp(MouseButton::Left)],
                );
                let right = when(
                    name == config.right_click_button && held.right,
                    seq![PointerAction::ButtonUp(MouseButton::Right)],
                );
                let middle = when(
                    name == config.middle_click_button && held.middle,
                    seq![PointerAction::ButtonUp(MouseButton::Middle)],
                );
                assert(state.event_actions(event) == left + right + middle);
                lemma_replay_concat(held, left + right, middle);
                lemma_replay_concat(held, left, right);
                lemma_replay_short(
                    held,
                    name == config.left_click_button && held.left,
                    PointerAction::ButtonUp(MouseButton::Left),
                );
                lemma_replay_short(
                    replay(held, left),
                    name == config.right_click_button && held.right,
                    PointerAction::ButtonUp(MouseButton::Right),
                );
                lemma_replay_short(
                    replay(held, left + right),
                    name == config.middle_click_button && held.middle,
                    PointerAction::ButtonUp(MouseButton::Middle),
                );
            },
            EventKind::Disconnected => {
                lemma_release_all_replays_to_nothing(held);
            },
            EventKind::Other => {},
        }
    }
}

/// After the releases of every held button the pointer device holds nothing.
pub proof fn lemma_release_all_replays_to_nothing(held: ButtonDownState)
    ensures
        replay(held, held.release_actions()) == ButtonDownState::all_up(),
{
    let left = held.release_of(MouseButton::Left);
    let right = held.release_of(MouseButton::Right);
    let middle = held.release_of(MouseButton::Middle);
    assert(held.release_actions() == left + right + middle);
    lemma_replay_concat(held, left + right, middle);
    lemma_replay_concat(held, left, right);
    lemma_replay_short(held, held.left, PointerAction::ButtonUp(MouseButton::Left));
    lemma_replay_short(
        replay(held, left),
        held.right,
        PointerAction::ButtonUp(MouseButton::Right),
    );
    lemma_replay_short(
        replay(held, left + right),
        held.middle,
        PointerAction::ButtonUp(MouseButton::Middle),
    );
    assert(left == when(held.left, seq![PointerAction::ButtonUp(MouseButton::Left)]));
    assert(right == when(held.right, seq![PointerAction::ButtonUp(MouseButton::Right)]));
    assert(middle == when(held.middle, seq![PointerAction::ButtonUp(MouseButton::Middle)]));
}

/// Whether none of `events` plays a double click when they are handled one
/// after the other from `state`.
pub open spec fn without_double_click(
    state: ControllerView,
    events: Seq<DeviceEvent>,
    now: u64,
) -> bool
    decreases events.len(),
{
    events.len() == 0 || (without_double_click(state, events.drop_last(), now)
        && !plays_double_click(state.after_events(events.drop_last(), now), events.last()))
}

/// The record of held pointer buttons follows the actions over any run of
/// events that plays no double click: what the loop records as held in the end
/// is what the pointer device holds after it carried out all their actions in
/// order.
pub proof fn lemma_record_follows_all_actions(
    state: ControllerView,
    events: Seq<DeviceEvent>,
    now: u64,
)
    requires
        without_double_click(state, events, now),
    ensures
        replay(state.buttons, state.events_actions(events, now)) == state.after_events(
            events,
            now,
        ).buttons,
    decreases events.len(),
{
    if events.len() > 0 {
        let before = state.after_events(events.drop_last(), now);
        lemma_record_follows_all_actions(state, events.drop_last(), now);
        lemma_record_follows_actions(before, events.last(), now);
        lemma_replay_concat(
            state.buttons,
            state.events_actions(events.drop_last(), now),
            before.event_actions(events.last()),
        );
    }
}

} // verus!
