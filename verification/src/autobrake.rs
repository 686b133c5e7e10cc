//! The autobrake state machine: arming, disarming, and the deceleration target
//! the deceleration governor is asked to hold.
use vstd::prelude::*;

use crate::readings::LgciuReadings;

verus! {

#[allow(non_camel_case_types)]
#[derive(Clone, Copy, Debug, PartialEq, Eq, Structural)]
pub enum AutobrakeMode {
    NONE,
    LOW,
    MED,
    MAX,
}

/// The deceleration target: `Zero` is the 0 m/s² a controller holds from
/// power up until its first update; after that the mode decides: `Off` is
/// +5 m/s² (no braking), `Low` and `Med` follow their time profiles from the
/// moment the governor engages, `Max` is -6 m/s².
#[derive(Clone, Copy, Debug, PartialEq, Eq, Structural)]
pub enum DecelerationTarget {
    Zero,
    Off,
    LowProfile,
    MedProfile,
    Max,
}

/// Brake pedal travel as the disarm logic sees it: whether each pedal is
/// pressed beyond 11 %, 53 % and 77 % of its travel.
#[derive(Clone, Copy, Debug)]
pub struct BrakePedalInputs {
    pub left_above_11_percent: bool,
    pub left_above_53_percent: bool,
    pub left_above_77_percent: bool,
    pub right_above_11_percent: bool,
    pub right_above_53_percent: bool,
    pub right_above_77_percent: bool,
}

impl BrakePedalInputs {
    /// Readings of real pedals: on each side, beyond 77 % is beyond 53 %,
    /// which is beyond 11 %.
    pub open spec fn is_valid(self) -> bool {
        &&& self.left_above_77_percent ==> self.left_above_53_percent
        &&& self.left_above_53_percent ==> self.left_above_11_percent
        &&& self.right_above_77_percent ==> self.right_above_53_percent
        &&& self.right_above_53_percent ==> self.right_above_11_percent
    }
}

/// What the autobrake reads at each update besides the arming permission:
/// the mode button pressed on the autobrake panel, the pedals, whether the
/// deceleration governor is engaged, and the two in-flight timers (the pulse
/// that disarms after 10 s in flight, and the latch that rejects MAX after
/// 10 s in flight).
#[derive(Clone, Copy, Debug)]
pub struct AutobrakeInputs {
    pub pressed_mode: Option<AutobrakeMode>,
    pub pedal_input: BrakePedalInputs,
    pub deceleration_governor_is_engaged: bool,
    pub disarm_after_time_in_flight: bool,
    pub reject_max_mode_after_time_in_flight: bool,
}

/// What the autobrake asks of its deceleration governor after an update.
#[derive(Clone, Copy, Debug)]
pub struct AutobrakeCommand {
    pub engage_deceleration_governor: bool,
    pub target: DecelerationTarget,
}

#[derive(Clone, Copy, Debug)]
pub struct A320AutobrakeController {
    pub mode: AutobrakeMode,
    pub target: DecelerationTarget,
    pub arming_is_allowed_by_bcu: bool,
    pub pedal_input: BrakePedalInputs,
    pub ground_spoilers_are_deployed: bool,
    pub last_ground_spoilers_are_deployed: bool,
    pub external_disarm_event: bool,
}

/// LOW and MED disarm on one pedal beyond 53 % or both beyond 11 %; MAX on one
/// pedal beyond 77 % or both beyond 53 %.
pub open spec fn pedal_disarms(mode: AutobrakeMode, pedal: BrakePedalInputs) -> bool {
    match mode {
        AutobrakeMode::NONE => false,
        AutobrakeMode::LOW | AutobrakeMode::MED => pedal.left_above_53_percent
            || pedal.right_above_53_percent || (pedal.left_above_11_percent
            && pedal.right_above_11_percent),
        AutobrakeMode::MAX => pedal.left_above_77_percent || pedal.right_above_77_percent || (
        pedal.left_above_53_percent && pedal.right_above_53_percent),
    }
}

/// The same pedal travel with the left and right pedals exchanged.
pub open spec fn mirrored(pedal: BrakePedalInputs) -> BrakePedalInputs {
    BrakePedalInputs {
        left_above_11_percent: pedal.right_above_11_percent,
        left_above_53_percent: pedal.right_above_53_percent,
        left_above_77_percent: pedal.right_above_77_percent,
        right_above_11_percent: pedal.left_above_11_percent,
        right_above_53_percent: pedal.left_above_53_percent,
        right_above_77_percent: pedal.left_above_77_percent,
    }
}

pub open spec fn target_of(mode: AutobrakeMode) -> DecelerationTarget {
    match mode {
        AutobrakeMode::NONE => DecelerationTarget::Off,
        AutobrakeMode::LOW => DecelerationTarget::LowProfile,
        AutobrakeMode::MED => DecelerationTarget::MedProfile,
        AutobrakeMode::MAX => DecelerationTarget::Max,
    }
}

/// Whether the landing gear control interface unit sees both main gears in the air.
pub open spec fn lgciu_in_flight(lgciu: LgciuReadings) -> bool {
    !lgciu.right_gear_compressed && !lgciu.left_gear_compressed
}

impl A320AutobrakeController {
    pub open spec fn spec_spoilers_retracted(self) -> bool {
        !self.ground_spoilers_are_deployed && self.last_ground_spoilers_are_deployed
    }

    pub open spec fn spec_should_disarm(self, governor_engaged: bool, disarm_after_time_in_flight: bool) -> bool {
        (governor_engaged && pedal_disarms(self.mode, self.pedal_input))
            || !self.arming_is_allowed_by_bcu || self.spec_spoilers_retracted()
            || disarm_after_time_in_flight || self.external_disarm_event
    }

    /// The mode after the panel is read: disarmed when any disarm condition
    /// holds; otherwise pressing the armed mode disarms, pressing another mode
    /// arms it (MAX only while not rejected), and no press keeps the mode.
    pub open spec fn spec_next_mode(
        self,
        pressed_mode: Option<AutobrakeMode>,
        governor_engaged: bool,
        disarm_after_time_in_flight: bool,
        reject_max_mode: bool,
    ) -> AutobrakeMode {
        if self.spec_should_disarm(governor_engaged, disarm_after_time_in_flight) {
            AutobrakeMode::NONE
        } else {
            match pressed_mode {
                Some(mode) => if self.mode == mode {
                    AutobrakeMode::NONE
                } else if mode != AutobrakeMode::MAX || !reject_max_mode {
                    mode
                } else {
                    self.mode
                },
                None => self.mode,
            }
        }
    }

    /// The controller as `update` leaves it: the arming permission and pedals
    /// taken, the next mode chosen and its target set.
    pub open spec fn spec_after_update(self, allow_arming: bool, inputs: AutobrakeInputs) -> Self {
        let c = Self {
            arming_is_allowed_by_bcu: allow_arming,
            pedal_input: inputs.pedal_input,
            ..self
        };
        let mode = c.spec_next_mode(
            inputs.pressed_mode,
            inputs.deceleration_governor_is_engaged,
            inputs.disarm_after_time_in_flight,
            inputs.reject_max_mode_after_time_in_flight,
        );
        Self { mode, target: target_of(mode), ..c }
    }

    /// The controller at power up: disarmed, arming not allowed, no pedal
    /// input, spoilers stowed, no disarm event.
    pub open spec fn spec_new() -> Self {
        A320AutobrakeController {
            mode: AutobrakeMode::NONE,
            target: DecelerationTarget::Zero,
            arming_is_allowed_by_bcu: false,
            pedal_input: BrakePedalInputs {
                left_above_11_percent: false,
                left_above_53_percent: false,
                left_above_77_percent: false,
                right_above_11_percent: false,
                right_above_53_percent: false,
                right_above_77_percent: false,
            },
            ground_spoilers_are_deployed: false,
            last_ground_spoilers_are_deployed: false,
            external_disarm_event: false,
        }
    }

    pub fn new() -> (c: Self)
        ensures
            c == Self::spec_new(),
            c.mode == AutobrakeMode::NONE,
            c.target == DecelerationTarget::Zero,
            !c.arming_is_allowed_by_bcu,
            !c.ground_spoilers_are_deployed,
            !c.last_ground_spoilers_are_deployed,
            !c.external_disarm_event,
            !c.pedal_input.left_above_11_percent,
            !c.pedal_input.right_above_11_percent,
            !c.pedal_input.left_above_53_percent,
            !c.pedal_input.right_above_53_percent,
            !c.pedal_input.left_above_77_percent,
            !c.pedal_input.right_above_77_percent,
    {
        A320AutobrakeController {
            mode: AutobrakeMode::NONE,
            target: DecelerationTarget::Zero,
            arming_is_allowed_by_bcu: false,
            pedal_input: BrakePedalInputs {
                left_above_11_percent: false,
                left_above_53_percent: false,
                left_above_77_percent: false,
                right_above_11_percent: false,
                right_above_53_percent: false,
                right_above_77_percent: false,
            },
            ground_spoilers_are_deployed: false,
            last_ground_spoilers_are_deployed: false,
            external_disarm_event: false,
        }
    }

    pub fn spoilers_retracted_during_this_update(&self) -> (r: bool)
        ensures
            r == self.spec_spoilers_retracted(),
    {
        !self.ground_spoilers_are_deployed && self.last_ground_spoilers_are_deployed
    }

    pub fn determine_mode(
        &self,
        pressed_mode: Option<AutobrakeMode>,
        governor_engaged: bool,
        disarm_after_time_in_flight: bool,
        reject_max_mode: bool,
    ) -> (mode: AutobrakeMode)
        ensures
            mode == self.spec_next_mode(
                pressed_mode,
                governor_engaged,
                disarm_after_time_in_flight,
                reject_max_mode,
            ),
    {
        if self.should_disarm(governor_engaged, disarm_after_time_in_flight) {
            AutobrakeMode::NONE
        } else {
            match pressed_mode {
                Some(mode) => {
                    if self.mode == mode {
                        AutobrakeMode::NONE
                    } else if mode != AutobrakeMode::MAX || !reject_max_mode {
                        mode
                    } else {
                        self.mode
                    }
                },
                None => self.mode,
            }
        }
    }

    /// The governor engages when armed, with ground spoilers deployed, and
    /// no disarm condition holds.
    pub fn should_engage_deceleration_governor(
        &self,
        governor_engaged: bool,
        disarm_after_time_in_flight: bool,
    ) -> (r: bool)
        ensures
            r == (self.mode != AutobrakeMode::NONE && self.ground_spoilers_are_deployed
                && !self.spec_should_disarm(governor_engaged, disarm_after_time_in_flight)),
    {
        self.is_armed() && self.ground_spoilers_are_deployed && !self.should_disarm(
            governor_engaged,
            disarm_after_time_in_flight,
        )
    }

    pub fn is_armed(&self) -> (r: bool)
        ensures
            r == (self.mode != AutobrakeMode::NONE),
    {
        self.mode != AutobrakeMode::NONE
    }

    /// The DECEL light: braking is demanded (governor engaged with a
    /// decelerating target) and, in LOW or MED, the governor is within 80 % of
    /// its target, or, in MAX, the aircraft decelerates at 2.7 m/s² or more.
    pub fn is_decelerating(
        &self,
        governor_engaged: bool,
        target_is_deceleration: bool,
        governor_on_target: bool,
        decelerating_at_or_above_max_mode_rate: bool,
    ) -> (r: bool)
        ensures
            r == match self.mode {
                AutobrakeMode::NONE => false,
                AutobrakeMode::LOW | AutobrakeMode::MED => governor_engaged
                    && target_is_deceleration && governor_on_target,
                AutobrakeMode::MAX => governor_engaged && target_is_deceleration
                    && decelerating_at_or_above_max_mode_rate,
            },
    {
        match self.mode {
            AutobrakeMode::NONE => false,
            AutobrakeMode::LOW | AutobrakeMode::MED => {
                Self::deceleration_demanded(governor_engaged, target_is_deceleration)
                    && governor_on_target
            },
            AutobrakeMode::MAX => {
                Self::deceleration_demanded(governor_engaged, target_is_deceleration)
                    && decelerating_at_or_above_max_mode_rate
            },
        }
    }

    /// Braking is demanded while the governor is engaged and the target is a
    /// deceleration (a negative acceleration).
    pub fn deceleration_demanded(governor_engaged: bool, target_is_deceleration: bool) -> (r: bool)
        ensures
            r == (governor_engaged && target_is_deceleration),
    {
        governor_engaged && target_is_deceleration
    }

    pub fn should_disarm_due_to_pedal_input(&self) -> (r: bool)
        ensures
            r == pedal_disarms(self.mode, self.pedal_input),
    {
        match self.mode {
            AutobrakeMode::NONE => false,
            AutobrakeMode::LOW | AutobrakeMode::MED => {
                self.pedal_input.left_above_53_percent || self.pedal_input.right_above_53_percent
                    || (self.pedal_input.left_above_11_percent
                    && self.pedal_input.right_above_11_percent)
            },
            AutobrakeMode::MAX => {
                self.pedal_input.left_above_77_percent || self.pedal_input.right_above_77_percent
                    || (self.pedal_input.left_above_53_percent
                    && self.pedal_input.right_above_53_percent)
            },
        }
    }

    /// Disarm on pedal input while braking, when the brake and steering
    /// computer forbids arming, when the ground spoilers retract, after 10 s in
    /// flight, or on an external disarm event.
    pub fn should_disarm(&self, governor_engaged: bool, disarm_after_time_in_flight: bool) -> (r:
        bool)
        ensures
            r == self.spec_should_disarm(governor_engaged, disarm_after_time_in_flight),
    {
        (governor_engaged && self.should_disarm_due_to_pedal_input())
            || !self.arming_is_allowed_by_bcu || self.spoilers_retracted_during_this_update()
            || disarm_after_time_in_flight || self.external_disarm_event
    }

    pub fn calculate_target(&self) -> (target: DecelerationTarget)
        ensures
            target == target_of(self.mode),
    {
        match self.mode {
            AutobrakeMode::NONE => DecelerationTarget::Off,
            AutobrakeMode::LOW => DecelerationTarget::LowProfile,
            AutobrakeMode::MED => DecelerationTarget::MedProfile,
            AutobrakeMode::MAX => DecelerationTarget::Max,
        }
    }

    /// Both landing gear control interface units see the aircraft in flight:
    /// this drives the two in-flight timers.
    pub fn in_flight(lgciu1: &LgciuReadings, lgciu2: &LgciuReadings) -> (r: bool)
        ensures
            r == (lgciu_in_flight(*lgciu1) && lgciu_in_flight(*lgciu2)),
    {
        let in_flight_lgciu1 = !lgciu1.right_gear_compressed && !lgciu1.left_gear_compressed;
        let in_flight_lgciu2 = !lgciu2.right_gear_compressed && !lgciu2.left_gear_compressed;

        in_flight_lgciu1 && in_flight_lgciu2
    }

    pub fn update_input_conditions(&mut self, allow_arming: bool, pedal_input: BrakePedalInputs)
        ensures
            *final(self) == (Self {
                arming_is_allowed_by_bcu: allow_arming,
                pedal_input,
                ..*old(self)
            }),
    {
        self.arming_is_allowed_by_bcu = allow_arming;
        self.pedal_input = pedal_input;
    }

    pub fn update(&mut self, allow_arming: bool, inputs: &AutobrakeInputs) -> (command:
        AutobrakeCommand)
        ensures
            *final(self) == old(self).spec_after_update(allow_arming, *inputs),
            command.target == target_of(final(self).mode),
            command.engage_deceleration_governor == (final(self).mode != AutobrakeMode::NONE
                && final(self).ground_spoilers_are_deployed && !final(self).spec_should_disarm(
                inputs.deceleration_governor_is_engaged,
                inputs.disarm_after_time_in_flight,
            )),
    {
        self.update_input_conditions(allow_arming, inputs.pedal_input);
        self.mode = self.determine_mode(
            inputs.pressed_mode,
            inputs.deceleration_governor_is_engaged,
            inputs.disarm_after_time_in_flight,
            inputs.reject_max_mode_after_time_in_flight,
        );

        let engage_deceleration_governor = self.should_engage_deceleration_governor(
            inputs.deceleration_governor_is_engaged,
            inputs.disarm_after_time_in_flight,
        );

        self.target = self.calculate_target();
        AutobrakeCommand { engage_deceleration_governor, target: self.target }
    }

    /// Takes the ground spoiler state, the external disarm event and the armed
    /// mode read from the simulation; the previous spoiler state is kept to
    /// detect a retraction.
    pub fn read(
        &mut self,
        ground_spoilers_are_deployed: bool,
        external_disarm_event: bool,
        armed_mode: AutobrakeMode,
    )
        ensures
            *final(self) == (Self {
                last_ground_spoilers_are_deployed: old(self).ground_spoilers_are_deployed,
                ground_spoilers_are_deployed,
                external_disarm_event,
                mode: armed_mode,
                ..*old(self)
            }),
    {
        self.last_ground_spoilers_are_deployed = self.ground_spoilers_are_deployed;
        self.ground_spoilers_are_deployed = ground_spoilers_are_deployed;
        self.external_disarm_event = external_disarm_event;

        self.mode = armed_mode;
    }

    pub fn mode(&self) -> (r: AutobrakeMode)
        ensures
            r == self.mode,
    {
        self.mode
    }
}

/// Whenever a disarm condition holds at an update, the autobrake ends it disarmed.
pub proof fn lemma_disarm_condition_disarms(
    c: A320AutobrakeController,
    allow_arming: bool,
    inputs: AutobrakeInputs,
)
    requires
        (A320AutobrakeController {
            arming_is_allowed_by_bcu: allow_arming,
            pedal_input: inputs.pedal_input,
            ..c
        }).spec_should_disarm(
            inputs.deceleration_governor_is_engaged,
            inputs.disarm_after_time_in_flight,
        ),
    ensures
        c.spec_after_update(allow_arming, inputs).mode == AutobrakeMode::NONE,
        c.spec_after_update(allow_arming, inputs).target == DecelerationTarget::Off,
{
}

/// Pressing the button of the armed mode disarms the autobrake.
pub proof fn lemma_pressing_armed_mode_disarms(
    c: A320AutobrakeController,
    allow_arming: bool,
    inputs: AutobrakeInputs,
)
    requires
        inputs.pressed_mode == Some(c.mode),
    ensures
        c.spec_after_update(allow_arming, inputs).mode == AutobrakeMode::NONE,
{
}

/// Once MAX is rejected after time in flight, an update never arms MAX unless
/// it was already armed.
pub proof fn lemma_max_not_armed_after_time_in_flight(
    c: A320AutobrakeController,
    allow_arming: bool,
    inputs: AutobrakeInputs,
)
    requires
        inputs.reject_max_mode_after_time_in_flight,
        c.mode != AutobrakeMode::MAX,
    ensures
        c.spec_after_update(allow_arming, inputs).mode != AutobrakeMode::MAX,
{
}

/// Without arming permission from the brake and steering computer the
/// autobrake is disarmed after any update.
pub proof fn lemma_no_arming_without_permission(c: A320AutobrakeController, inputs: AutobrakeInputs)
    ensures
        c.spec_after_update(false, inputs).mode == AutobrakeMode::NONE,
{
}

/// Pedal input that disarms MAX also disarms LOW and MED: their thresholds
/// are lower.
pub proof fn lemma_max_pedal_disarm_implies_low_med_disarm(pedal: BrakePedalInputs)
    requires
        pedal.is_valid(),
        pedal_disarms(AutobrakeMode::MAX, pedal),
    ensures
        pedal_disarms(AutobrakeMode::LOW, pedal),
        pedal_disarms(AutobrakeMode::MED, pedal),
{
}

/// The pedal disarm rule does not tell the pedals apart: exchanging the left
/// and right pedals never changes whether pedal input disarms.
pub proof fn lemma_pedal_disarm_symmetric(mode: AutobrakeMode, pedal: BrakePedalInputs)
    ensures
        pedal_disarms(mode, mirrored(pedal)) == pedal_disarms(mode, pedal),
{
}

/// With the deceleration governor engaged, an armed autobrake disarms (mode NONE,
/// target Off; `update` then releases the governor) in MAX when either pedal is beyond 77 % or
/// both are beyond 53 %, and in LOW or MED when either pedal is beyond 53 % or
/// both are beyond 11 %, whatever button is pressed.
pub proof fn lemma_pedal_thresholds_disarm(
    c: A320AutobrakeController,
    allow_arming: bool,
    inputs: AutobrakeInputs,
)
    requires
        inputs.deceleration_governor_is_engaged,
        c.mode != AutobrakeMode::NONE,
        c.mode == AutobrakeMode::MAX ==> (inputs.pedal_input.left_above_77_percent
            || inputs.pedal_input.right_above_77_percent
            || (inputs.pedal_input.left_above_53_percent
            && inputs.pedal_input.right_above_53_percent)),
        (c.mode == AutobrakeMode::LOW || c.mode == AutobrakeMode::MED) ==> (
        inputs.pedal_input.left_above_53_percent || inputs.pedal_input.right_above_53_percent
            || (inputs.pedal_input.left_above_11_percent
            && inputs.pedal_input.right_above_11_percent)),
    ensures
        c.spec_after_update(allow_arming, inputs).mode == AutobrakeMode::NONE,
        c.spec_after_update(allow_arming, inputs).target == DecelerationTarget::Off,
{
}

/// Each disarm event on its own leaves the autobrake disarmed after an
/// update: ground spoilers retracting during the update, the external disarm
/// event, or the disarm pulse after time in flight.
pub proof fn lemma_disarm_events(c: A320AutobrakeController, allow_arming: bool, inputs: AutobrakeInputs)
    requires
        (!c.ground_spoilers_are_deployed && c.last_ground_spoilers_are_deployed)
            || c.external_disarm_event || inputs.disarm_after_time_in_flight,
    ensures
        c.spec_after_update(allow_arming, inputs).mode == AutobrakeMode::NONE,
{
}

/// Arming from the panel: with arming allowed, the governor released and no
/// disarm event (no spoiler retraction, no external event, no disarm pulse),
/// pressing LOW or MED while another mode is armed arms it, pressing MAX arms
/// it unless MAX is rejected after time in flight, and no press keeps the
/// mode. The target then follows the mode: LOW and MED profiles, -6 m/s² for
/// MAX, Off when disarmed.
pub proof fn lemma_autobrake_arming(c: A320AutobrakeController, inputs: AutobrakeInputs)
    requires
        !inputs.deceleration_governor_is_engaged,
        !inputs.disarm_after_time_in_flight,
        !c.external_disarm_event,
        !(!c.ground_spoilers_are_deployed && c.last_ground_spoilers_are_deployed),
    ensures
        ({
            let after = c.spec_after_update(true, inputs);
            &&& inputs.pressed_mode == Some(AutobrakeMode::LOW) && c.mode != AutobrakeMode::LOW
                ==> after.mode == AutobrakeMode::LOW
            &&& inputs.pressed_mode == Some(AutobrakeMode::MED) && c.mode != AutobrakeMode::MED
                ==> after.mode == AutobrakeMode::MED
            &&& inputs.pressed_mode == Some(AutobrakeMode::MAX) && c.mode != AutobrakeMode::MAX
                && !inputs.reject_max_mode_after_time_in_flight ==> after.mode == AutobrakeMode::MAX
            &&& inputs.pressed_mode == Some(AutobrakeMode::MAX) && c.mode != AutobrakeMode::MAX
                && inputs.reject_max_mode_after_time_in_flight ==> after.mode == c.mode
            &&& inputs.pressed_mode == None::<AutobrakeMode> ==> after.mode == c.mode
            &&& after.mode == AutobrakeMode::NONE ==> after.target == DecelerationTarget::Off
            &&& after.mode == AutobrakeMode::LOW ==> after.target == DecelerationTarget::LowProfile
            &&& after.mode == AutobrakeMode::MED ==> after.target == DecelerationTarget::MedProfile
            &&& after.mode == AutobrakeMode::MAX ==> after.target == DecelerationTarget::Max
        }),
{
}

} // verus!
