//! Controller of a hydraulically actuated cargo door: the sequence from
//! down-locked through unlocking and hydraulic control to up-locked and back.
//!
//! Durations are counted in nanoseconds, as `std::time::Duration` counts them.
use vstd::prelude::*;

verus! {

/// The largest duration `std::time::Duration` can hold, in nanoseconds.
pub const DURATION_MAX_NANOS: u128 = 18446744073709551615999999999u128;

/// Hydraulic valves request opening for this long when closing begins, so the
/// uplock frees without friction (200 ms).
pub const UP_CONTROL_TIME_BEFORE_DOWN_CONTROL_NANOS: u128 = 200000000u128;

/// Delay between the ground crew unlocking the door and hydraulic control (5 s).
pub const DELAY_UNLOCK_TO_HYDRAULIC_CONTROL_NANOS: u128 = 5000000000u128;

#[derive(Clone, Copy, Debug, PartialEq, Eq, Structural)]
pub enum DoorControlState {
    DownLocked,
    NoControl,
    HydControl,
    UpLocked,
}

/// Mode requested from the door's hydraulic actuator.
#[derive(Clone, Copy, Debug, PartialEq, Eq, Structural)]
pub enum LinearActuatorMode {
    ClosedValves,
    PositionControl,
}

/// Position requested from the door's actuator in position control: `Neutral`
/// is a ratio of 0 (before any hydraulic control), `Open` a ratio of 1, and
/// `Close` a ratio of -0.1, which drives the door fully down.
#[derive(Clone, Copy, Debug, PartialEq, Eq, Structural)]
pub enum DoorPositionRequest {
    Neutral,
    Open,
    Close,
}

/// The ground crew's open request is a ratio read from the simulation; the
/// controller uses whether it is above 0, above 0.5 and below 1.
#[derive(Clone, Copy, Debug)]
pub struct DoorOpenRequest {
    pub above_zero: bool,
    pub above_half: bool,
    pub below_full: bool,
}

impl DoorOpenRequest {
    /// Comparisons of one ratio: above a half is above zero, and at most
    /// zero is below one.
    pub open spec fn is_valid(self) -> bool {
        &&& self.above_half ==> self.above_zero
        &&& !self.above_zero ==> self.below_full
    }
}

/// What the controller reads from the door and its circuit: whether the door
/// is locked, whether it is more than 90 % open, and whether the yellow
/// circuit pressure is above 1000 psi.
#[derive(Clone, Copy, Debug)]
pub struct DoorReadings {
    pub is_locked: bool,
    pub position_above_90_percent: bool,
    pub pressure_above_1000_psi: bool,
}

#[derive(Clone, Copy, Debug)]
pub struct A320DoorController {
    pub control_state: DoorControlState,
    pub position_requested: DoorOpenRequest,
    pub duration_in_no_control: u128,
    pub duration_in_hyd_control: u128,
    pub should_close_valves: bool,
    pub control_position_request: DoorPositionRequest,
    pub should_unlock: bool,
}

/// The state that follows `state` for the given request, time spent without
/// control and door readings.
pub open spec fn next_control_state(
    state: DoorControlState,
    duration_in_no_control: u128,
    request: DoorOpenRequest,
    door: DoorReadings,
) -> DoorControlState {
    match state {
        DoorControlState::DownLocked => if request.above_zero {
            DoorControlState::NoControl
        } else {
            DoorControlState::DownLocked
        },
        DoorControlState::NoControl => if duration_in_no_control
            > DELAY_UNLOCK_TO_HYDRAULIC_CONTROL_NANOS {
            DoorControlState::HydControl
        } else {
            DoorControlState::NoControl
        },
        DoorControlState::HydControl => if door.is_locked {
            DoorControlState::DownLocked
        } else if door.position_above_90_percent && request.above_half {
            DoorControlState::UpLocked
        } else {
            DoorControlState::HydControl
        },
        DoorControlState::UpLocked => if request.below_full && door.pressure_above_1000_psi {
            DoorControlState::HydControl
        } else {
            DoorControlState::UpLocked
        },
    }
}

/// The door moves around one cycle: down-locked, unlocked without control,
/// hydraulic control, then either back to down-locked or up-locked, and from
/// up-locked back to hydraulic control. A state may also stay as it is.
pub open spec fn is_allowed_transition(from: DoorControlState, to: DoorControlState) -> bool {
    from == to || match from {
        DoorControlState::DownLocked => to == DoorControlState::NoControl,
        DoorControlState::NoControl => to == DoorControlState::HydControl,
        DoorControlState::HydControl => to == DoorControlState::DownLocked || to
            == DoorControlState::UpLocked,
        DoorControlState::UpLocked => to == DoorControlState::HydControl,
    }
}

/// Hydraulic pressure is needed in hydraulic control, and when up-locked with
/// a request to close.
pub open spec fn door_needs_pressure(state: DoorControlState, request: DoorOpenRequest) -> bool {
    (state == DoorControlState::UpLocked && request.below_full) || state
        == DoorControlState::HydControl
}

/// Unlocking is requested when the door leaves down-locked, and withdrawn
/// when hydraulic control starts or ends; otherwise it stays as it was.
pub open spec fn unlock_after_transition(
    from: DoorControlState,
    to: DoorControlState,
    should_unlock: bool,
) -> bool {
    if from == DoorControlState::DownLocked && to == DoorControlState::NoControl {
        true
    } else if from != to && (from == DoorControlState::NoControl || from
        == DoorControlState::HydControl) {
        false
    } else {
        should_unlock
    }
}

impl A320DoorController {
    /// The door lock is released exactly while the door is without control;
    /// each timer runs only in its own state.
    pub open spec fn wf(self) -> bool {
        &&& self.should_unlock == (self.control_state == DoorControlState::NoControl)
        &&& self.control_state != DoorControlState::NoControl ==> self.duration_in_no_control == 0
        &&& self.control_state != DoorControlState::HydControl ==> self.duration_in_hyd_control
            == 0
        &&& self.duration_in_no_control <= DURATION_MAX_NANOS
        &&& self.duration_in_hyd_control <= DURATION_MAX_NANOS
    }

    pub open spec fn spec_next_state(self, door: DoorReadings) -> DoorControlState {
        next_control_state(
            self.control_state,
            self.duration_in_no_control,
            self.position_requested,
            door,
        )
    }

    /// Whether an update of `delta_nanos` can count its time: no timer may go
    /// beyond what a `Duration` holds.
    pub open spec fn can_advance(self, door: DoorReadings, delta_nanos: u128) -> bool {
        &&& delta_nanos <= DURATION_MAX_NANOS
        &&& self.spec_next_state(door) == DoorControlState::NoControl
            ==> self.duration_in_no_control + delta_nanos <= DURATION_MAX_NANOS
        &&& self.spec_next_state(door) == DoorControlState::HydControl
            ==> self.duration_in_hyd_control + delta_nanos <= DURATION_MAX_NANOS
    }

    /// The controller after `update`: the next state, its timers counted, the
    /// lock action of the transition, and the valve and position requests of
    /// the new state (valves closed without control and when up-locked; in
    /// hydraulic control, valves open and the door driven up while opening is
    /// requested or during the first 200 ms, down otherwise; down-locked keeps
    /// what it had).
    pub open spec fn spec_after_update(self, delta_nanos: u128, door: DoorReadings) -> Self {
        let state = self.spec_next_state(door);
        let duration_in_hyd_control = if state == DoorControlState::HydControl {
            (self.duration_in_hyd_control + delta_nanos) as u128
        } else {
            0
        };
        Self {
            control_state: state,
            should_unlock: unlock_after_transition(self.control_state, state, self.should_unlock),
            duration_in_no_control: if state == DoorControlState::NoControl {
                (self.duration_in_no_control + delta_nanos) as u128
            } else {
                0
            },
            duration_in_hyd_control,
            should_close_valves: match state {
                DoorControlState::DownLocked => self.should_close_valves,
                DoorControlState::HydControl => false,
                _ => true,
            },
            control_position_request: if state == DoorControlState::HydControl {
                if self.position_requested.above_zero || duration_in_hyd_control
                    < UP_CONTROL_TIME_BEFORE_DOWN_CONTROL_NANOS {
                    DoorPositionRequest::Open
                } else {
                    DoorPositionRequest::Close
                }
            } else {
                self.control_position_request
            },
            ..self
        }
    }

    /// A door controller at start: down-locked, no open request, valves closed.
    pub open spec fn spec_new() -> Self {
        Self {
            control_state: DoorControlState::DownLocked,
            position_requested: DoorOpenRequest {
                above_zero: false,
                above_half: false,
                below_full: true,
            },
            duration_in_no_control: 0,
            duration_in_hyd_control: 0,
            should_close_valves: true,
            control_position_request: DoorPositionRequest::Neutral,
            should_unlock: false,
        }
    }

    pub fn new() -> (c: Self)
        ensures
            c == Self::spec_new(),
            c.wf(),
            c.control_state == DoorControlState::DownLocked,
            !c.position_requested.above_zero,
            !c.position_requested.above_half,
            c.position_requested.below_full,
            c.duration_in_no_control == 0,
            c.duration_in_hyd_control == 0,
            c.should_close_valves,
            c.control_position_request == DoorPositionRequest::Neutral,
            !c.should_unlock,
    {
        Self {
            control_state: DoorControlState::DownLocked,
            position_requested: DoorOpenRequest {
                above_zero: false,
                above_half: false,
                below_full: true,
            },
            duration_in_no_control: 0,
            duration_in_hyd_control: 0,
            should_close_valves: true,
            control_position_request: DoorPositionRequest::Neutral,
            should_unlock: false,
        }
    }

    /// One step of the controller: the next state, then its timers, then the
    /// actions of the new state.
    pub fn update(&mut self, delta_nanos: u128, door: &DoorReadings)
        requires
            old(self).wf(),
            old(self).can_advance(*door, delta_nanos),
        ensures
            final(self).wf(),
            *final(self) == old(self).spec_after_update(delta_nanos, *door),
            is_allowed_transition(old(self).control_state, final(self).control_state),
    {
        self.control_state = self.determine_control_state_and_lock_action(door);
        self.update_timers(delta_nanos);
        self.update_actions_from_state();
    }

    /// Counts the time spent in the no-control and hydraulic control states;
    /// the timer of any other state is reset.
    pub fn update_timers(&mut self, delta_nanos: u128)
        requires
            delta_nanos <= DURATION_MAX_NANOS,
            old(self).control_state == DoorControlState::NoControl
                ==> old(self).duration_in_no_control + delta_nanos <= DURATION_MAX_NANOS,
            old(self).control_state == DoorControlState::HydControl
                ==> old(self).duration_in_hyd_control + delta_nanos <= DURATION_MAX_NANOS,
        ensures
            *final(self) == (Self {
                duration_in_no_control: if old(self).control_state
                    == DoorControlState::NoControl {
                    (old(self).duration_in_no_control + delta_nanos) as u128
                } else {
                    0
                },
                duration_in_hyd_control: if old(self).control_state
                    == DoorControlState::HydControl {
                    (old(self).duration_in_hyd_control + delta_nanos) as u128
                } else {
                    0
                },
                ..*old(self)
            }),
    {
        if self.control_state == DoorControlState::NoControl {
            self.duration_in_no_control = self.duration_in_no_control + delta_nanos;
        } else {
            self.duration_in_no_control = 0;
        }

        if self.control_state == DoorControlState::HydControl {
            self.duration_in_hyd_control = self.duration_in_hyd_control + delta_nanos;
        } else {
            self.duration_in_hyd_control = 0;
        }
    }

    /// Valves close without control and when up-locked; in hydraulic control
    /// they open and the door is driven up while opening is requested or
    /// during the first 200 ms, and down otherwise.
    pub fn update_actions_from_state(&mut self)
        ensures
            *final(self) == (Self {
                should_close_valves: match old(self).control_state {
                    DoorControlState::DownLocked => old(self).should_close_valves,
                    DoorControlState::HydControl => false,
                    _ => true,
                },
                control_position_request: if old(self).control_state
                    == DoorControlState::HydControl {
                    if old(self).position_requested.above_zero || old(self).duration_in_hyd_control
                        < UP_CONTROL_TIME_BEFORE_DOWN_CONTROL_NANOS {
                        DoorPositionRequest::Open
                    } else {
                        DoorPositionRequest::Close
                    }
                } else {
                    old(self).control_position_request
                },
                ..*old(self)
            }),
    {
        match self.control_state {
            DoorControlState::DownLocked => {},
            DoorControlState::NoControl => {
                self.should_close_valves = true;
            },
            DoorControlState::HydControl => {
                self.should_close_valves = false;
                self.control_position_request = if self.position_requested.above_zero
                    || self.duration_in_hyd_control < UP_CONTROL_TIME_BEFORE_DOWN_CONTROL_NANOS {
                    DoorPositionRequest::Open
                } else {
                    DoorPositionRequest::Close
                }
            },
            DoorControlState::UpLocked => {
                self.should_close_valves = true;
            },
        }
    }

    /// Chooses the next state; unlocking is requested when leaving down-locked
    /// and withdrawn when hydraulic control starts or ends.
    pub fn determine_control_state_and_lock_action(&mut self, door: &DoorReadings) -> (state:
        DoorControlState)
        ensures
            state == old(self).spec_next_state(*door),
            *final(self) == (Self {
                should_unlock: unlock_after_transition(
                    old(self).control_state,
                    state,
                    old(self).should_unlock,
                ),
                ..*old(self)
            }),
    {
        let previous = self.control_state;
        let state = self.next_state(door);
        if previous == DoorControlState::DownLocked && state == DoorControlState::NoControl {
            self.should_unlock = true;
        } else if previous != state && (previous == DoorControlState::NoControl || previous
            == DoorControlState::HydControl) {
            self.should_unlock = false;
        }
        state
    }

    /// The state an update with these door readings moves to.
    pub fn next_state(&self, door: &DoorReadings) -> (state: DoorControlState)
        ensures
            state == self.spec_next_state(*door),
    {
        let state = self.control_state;
        if state == DoorControlState::DownLocked && self.position_requested.above_zero {
            DoorControlState::NoControl
        } else if state == DoorControlState::NoControl && self.duration_in_no_control
            > DELAY_UNLOCK_TO_HYDRAULIC_CONTROL_NANOS {
            DoorControlState::HydControl
        } else if state == DoorControlState::HydControl && door.is_locked {
            DoorControlState::DownLocked
        } else if state == DoorControlState::HydControl && door.position_above_90_percent
            && self.position_requested.above_half {
            DoorControlState::UpLocked
        } else if state == DoorControlState::UpLocked && self.position_requested.below_full
            && door.pressure_above_1000_psi {
            DoorControlState::HydControl
        } else {
            state
        }
    }

    /// Whether an update of `delta_nanos` with these door readings keeps the
    /// timers within what a `Duration` holds.
    pub fn can_advance_by(&self, door: &DoorReadings, delta_nanos: u128) -> (r: bool)
        requires
            self.wf(),
        ensures
            r == self.can_advance(*door, delta_nanos),
    {
        if delta_nanos > DURATION_MAX_NANOS {
            return false;
        }
        let state = self.next_state(door);
        if state == DoorControlState::NoControl {
            self.duration_in_no_control <= DURATION_MAX_NANOS - delta_nanos
        } else if state == DoorControlState::HydControl {
            self.duration_in_hyd_control <= DURATION_MAX_NANOS - delta_nanos
        } else {
            true
        }
    }

    /// Whether the yellow hydraulic circuit must be pressurised for this door.
    pub fn should_pressurise_hydraulics(&self) -> (r: bool)
        ensures
            r == door_needs_pressure(self.control_state, self.position_requested),
    {
        (self.control_state == DoorControlState::UpLocked && self.position_requested.below_full)
            || self.control_state == DoorControlState::HydControl
    }

    pub fn requested_mode(&self) -> (mode: LinearActuatorMode)
        ensures
            mode == if self.should_close_valves {
                LinearActuatorMode::ClosedValves
            } else {
                LinearActuatorMode::PositionControl
            },
    {
        if self.should_close_valves {
            LinearActuatorMode::ClosedValves
        } else {
            LinearActuatorMode::PositionControl
        }
    }

    pub fn requested_position(&self) -> (r: DoorPositionRequest)
        ensures
            r == self.control_position_request,
    {
        self.control_position_request
    }

    pub fn should_lock(&self) -> (r: bool)
        ensures
            r == !self.should_unlock,
    {
        !self.should_unlock
    }

    /// Takes the open request read from the simulation.
    pub fn read(&mut self, position_requested: DoorOpenRequest)
        ensures
            *final(self) == (Self { position_requested, ..*old(self) }),
    {
        self.position_requested = position_requested;
    }
}

/// A down-locked door starts unlocking only on an open request, and
/// hydraulic control starts only after more than 5 s without control.
pub proof fn lemma_door_sequence_guards(
    state: DoorControlState,
    duration_in_no_control: u128,
    request: DoorOpenRequest,
    door: DoorReadings,
)
    ensures
        state == DoorControlState::DownLocked && next_control_state(
            state,
            duration_in_no_control,
            request,
            door,
        ) == DoorControlState::NoControl ==> request.above_zero,
        state == DoorControlState::NoControl && next_control_state(
            state,
            duration_in_no_control,
            request,
            door,
        ) == DoorControlState::HydControl ==> duration_in_no_control
            > DELAY_UNLOCK_TO_HYDRAULIC_CONTROL_NANOS,
        is_allowed_transition(state, next_control_state(state, duration_in_no_control, request, door)),
{
}

/// A door in hydraulic control that reads locked returns to down-locked and
/// stops asking for pressure.
pub proof fn lemma_locked_door_leaves_hydraulic_control(
    duration_in_no_control: u128,
    request: DoorOpenRequest,
    door: DoorReadings,
)
    requires
        door.is_locked,
    ensures
        next_control_state(DoorControlState::HydControl, duration_in_no_control, request, door)
            == DoorControlState::DownLocked,
        !door_needs_pressure(DoorControlState::DownLocked, request),
{
}

/// A door reaches up-locked from hydraulic control only under an open
/// request; and a request to close an up-locked door asks for hydraulic
/// pressure.
pub proof fn lemma_open_request_consistency(
    duration_in_no_control: u128,
    request: DoorOpenRequest,
    door: DoorReadings,
)
    requires
        request.is_valid(),
    ensures
        next_control_state(DoorControlState::HydControl, duration_in_no_control, request, door)
            == DoorControlState::UpLocked ==> request.above_zero,
        !request.above_zero ==> door_needs_pressure(DoorControlState::UpLocked, request),
{
}

} // verus!
