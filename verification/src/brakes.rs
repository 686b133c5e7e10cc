//! Brake decisions of the brake and steering control unit: which circuit
//! (normal on green, alternate on yellow) brakes, from which demand, and
//! under which pressure limit; and when nose wheel steering is available.
use vstd::prelude::*;

use crate::autobrake::{A320AutobrakeController, AutobrakeCommand, AutobrakeInputs};
use crate::readings::{EngineReadings, LgciuReadings};

verus! {

/// Pressure limit of a brake circuit at power up.
pub const INITIAL_PRESSURE_LIMIT_PSI: u32 = 3000;

/// Nominal braking from the pedals is limited to 2538 psi.
pub const NOMINAL_BRAKE_PRESSURE_LIMIT_PSI: u32 = 2538;

/// Alternate braking limit with the parking brake set and no pilot braking.
pub const PARK_BRAKE_PRESSURE_LIMIT_PSI: u32 = 2103;

/// Alternate braking limit with anti-skid off.
pub const NO_ANTI_SKID_PRESSURE_LIMIT_PSI: u32 = 1160;

/// Where the brake demand of a circuit comes from, on both wheels alike.
/// `NoDemand` is a ratio of 0; `SpinStop` a ratio of 0.2, which stops the
/// wheels spinning after gear retraction; `Pilot` the pilot's pedal on each
/// side; `PilotOrAutobrake` the larger of the pilot's pedal and the autobrake
/// output on each side; `Full` a ratio of 1. Demands are kept within 0 and 1.
#[derive(Clone, Copy, Debug, PartialEq, Eq, Structural)]
pub enum BrakeDemandSource {
    NoDemand,
    SpinStop,
    Pilot,
    PilotOrAutobrake,
    Full,
}

/// Demand and pressure limit sent to one brake circuit.
#[derive(Clone, Copy, Debug)]
pub struct A320BrakeSystemOutputs {
    pub demand: BrakeDemandSource,
    pub pressure_limit_psi: u32,
}

impl A320BrakeSystemOutputs {
    pub open spec fn spec_new() -> Self {
        Self { demand: BrakeDemandSource::NoDemand, pressure_limit_psi: INITIAL_PRESSURE_LIMIT_PSI }
    }

    pub fn new() -> (o: Self)
        ensures
            o == Self::spec_new(),
            o.demand == BrakeDemandSource::NoDemand,
            o.pressure_limit_psi == INITIAL_PRESSURE_LIMIT_PSI,
    {
        Self { demand: BrakeDemandSource::NoDemand, pressure_limit_psi: INITIAL_PRESSURE_LIMIT_PSI }
    }

    pub fn set_pressure_limit(&mut self, pressure_limit_psi: u32)
        ensures
            *final(self) == (Self { pressure_limit_psi, ..*old(self) }),
    {
        self.pressure_limit_psi = pressure_limit_psi;
    }

    pub fn set_brake_demands(&mut self, demand: BrakeDemandSource)
        ensures
            *final(self) == (Self { demand, ..*old(self) }),
    {
        self.demand = demand;
    }

    pub fn set_no_demands(&mut self)
        ensures
            *final(self) == (Self { demand: BrakeDemandSource::NoDemand, ..*old(self) }),
    {
        self.demand = BrakeDemandSource::NoDemand;
    }

    pub fn set_max_demands(&mut self)
        ensures
            *final(self) == (Self { demand: BrakeDemandSource::Full, ..*old(self) }),
    {
        self.demand = BrakeDemandSource::Full;
    }

    pub fn demand(&self) -> (r: BrakeDemandSource)
        ensures
            r == self.demand,
    {
        self.demand
    }

    pub fn pressure_limit(&self) -> (r: u32)
        ensures
            r == self.pressure_limit_psi,
    {
        self.pressure_limit_psi
    }
}

/// Pressures and pedal positions as the brake logic compares them: green
/// circuit pressure against the 2176 psi / 1305 psi hysteresis, each pilot
/// pedal against the 0.2 detection threshold, whether a pilot pedal exceeds
/// its alternate demand by more than 0.2 (manual braking on yellow), and each
/// alternate brake pressure against the 507 psi parking brake emergency limit.
#[derive(Clone, Copy, Debug)]
pub struct BrakingReadings {
    pub green_pressure_above_altn_hyst_hi: bool,
    pub green_pressure_below_altn_hyst_lo: bool,
    pub left_pilot_input_below_detection: bool,
    pub right_pilot_input_below_detection: bool,
    pub yellow_manual_braking_input: bool,
    pub altn_left_pressure_below_park_emergency: bool,
    pub altn_right_pressure_below_park_emergency: bool,
}

impl BrakingReadings {
    /// Green pressure cannot be both above the high threshold (2176 psi) and
    /// below the low one (1305 psi).
    pub open spec fn is_valid(self) -> bool {
        !(self.green_pressure_above_altn_hyst_hi && self.green_pressure_below_altn_hyst_lo)
    }
}

#[derive(Clone, Copy, Debug)]
pub struct A320HydraulicBrakeSteerComputerUnit {
    pub autobrake_controller: A320AutobrakeController,
    pub parking_brake_demand: bool,
    pub is_gear_lever_down: bool,
    pub anti_skid_activated: bool,
    pub normal_brakes_available: bool,
    pub norm_brake_outputs: A320BrakeSystemOutputs,
    pub alternate_brake_outputs: A320BrakeSystemOutputs,
}

/// Normal braking becomes available above the high green pressure threshold
/// with no pilot braking, unavailable below the low threshold, and otherwise
/// keeps its state.
pub open spec fn next_normal_brakes_available(available: bool, readings: BrakingReadings) -> bool {
    if readings.green_pressure_above_altn_hyst_hi && (readings.left_pilot_input_below_detection
        && readings.right_pilot_input_below_detection) {
        true
    } else if readings.green_pressure_below_altn_hyst_lo {
        false
    } else {
        available
    }
}

/// The alternate circuit pressure limit.
pub open spec fn alternate_pressure_limit(
    parking_brake_demand: bool,
    anti_skid_activated: bool,
    yellow_manual_braking_input: bool,
) -> u32 {
    if parking_brake_demand {
        if !yellow_manual_braking_input {
            PARK_BRAKE_PRESSURE_LIMIT_PSI
        } else {
            NOMINAL_BRAKE_PRESSURE_LIMIT_PSI
        }
    } else if !anti_skid_activated {
        NO_ANTI_SKID_PRESSURE_LIMIT_PSI
    } else {
        NOMINAL_BRAKE_PRESSURE_LIMIT_PSI
    }
}

/// In flight with the gear lever up: no main gear compressed (external power
/// counted as ground) on either unit and the lever not down.
pub open spec fn in_flight_gear_lever_up(
    lgciu1: LgciuReadings,
    lgciu2: LgciuReadings,
    is_gear_lever_down: bool,
) -> bool {
    !(lgciu1.left_and_right_gear_compressed_ext_pwr_as_ground
        || lgciu2.left_and_right_gear_compressed_ext_pwr_as_ground || is_gear_lever_down)
}

/// Normal brake demand: in flight with the gear up, a light demand to stop
/// the wheels until the retraction delay has passed; on the ground or gear
/// down, pilot or autobrake when green brakes are usable, else none, except
/// that the pilot may brake on green when the parking brake is set and an
/// alternate brake pressure is below the emergency limit.
pub open spec fn norm_demand(
    u: A320HydraulicBrakeSteerComputerUnit,
    in_flight_gear_up: bool,
    autobrake_disabled_after_retraction: bool,
    readings: BrakingReadings,
) -> BrakeDemandSource {
    if in_flight_gear_up {
        if autobrake_disabled_after_retraction {
            BrakeDemandSource::NoDemand
        } else {
            BrakeDemandSource::SpinStop
        }
    } else if u.normal_brakes_available && u.anti_skid_activated && !u.parking_brake_demand {
        BrakeDemandSource::PilotOrAutobrake
    } else if u.parking_brake_demand && (readings.altn_left_pressure_below_park_emergency
        || readings.altn_right_pressure_below_park_emergency) {
        BrakeDemandSource::Pilot
    } else {
        BrakeDemandSource::NoDemand
    }
}

/// Alternate brake demand: none in flight with the gear up or when green
/// brakes are usable; full with the parking brake set; else the pilot's.
pub open spec fn altn_demand(
    u: A320HydraulicBrakeSteerComputerUnit,
    in_flight_gear_up: bool,
) -> BrakeDemandSource {
    if in_flight_gear_up {
        BrakeDemandSource::NoDemand
    } else if u.normal_brakes_available && u.anti_skid_activated && !u.parking_brake_demand {
        BrakeDemandSource::NoDemand
    } else if !u.parking_brake_demand {
        BrakeDemandSource::Pilot
    } else {
        BrakeDemandSource::Full
    }
}

/// Demands driven by the pilot's pedals.
pub open spec fn is_pilot_driven(demand: BrakeDemandSource) -> bool {
    demand == BrakeDemandSource::Pilot || demand == BrakeDemandSource::PilotOrAutobrake
}

impl A320HydraulicBrakeSteerComputerUnit {
    /// At power up: parking brake set, gear lever down, anti-skid on, normal
    /// braking not yet available, no brake demand.
    pub open spec fn spec_new() -> Self {
        Self {
            autobrake_controller: A320AutobrakeController::spec_new(),
            parking_brake_demand: true,
            is_gear_lever_down: true,
            anti_skid_activated: true,
            normal_brakes_available: false,
            norm_brake_outputs: A320BrakeSystemOutputs::spec_new(),
            alternate_brake_outputs: A320BrakeSystemOutputs::spec_new(),
        }
    }

    pub fn new() -> (u: Self)
        ensures
            u == Self::spec_new(),
            u.parking_brake_demand,
            u.is_gear_lever_down,
            u.anti_skid_activated,
            !u.normal_brakes_available,
            u.norm_brake_outputs.demand == BrakeDemandSource::NoDemand,
            u.alternate_brake_outputs.demand == BrakeDemandSource::NoDemand,
            u.norm_brake_outputs.pressure_limit_psi == INITIAL_PRESSURE_LIMIT_PSI,
            u.alternate_brake_outputs.pressure_limit_psi == INITIAL_PRESSURE_LIMIT_PSI,
            u.autobrake_controller == A320AutobrakeController::spec_new(),
    {
        Self {
            autobrake_controller: A320AutobrakeController::new(),
            parking_brake_demand: true,
            is_gear_lever_down: true,
            anti_skid_activated: true,
            normal_brakes_available: false,
            norm_brake_outputs: A320BrakeSystemOutputs::new(),
            alternate_brake_outputs: A320BrakeSystemOutputs::new(),
        }
    }

    /// Autobrake may arm only with anti-skid on and normal braking available.
    pub fn allow_autobrake_arming(&self) -> (r: bool)
        ensures
            r == (self.anti_skid_activated && self.normal_brakes_available),
    {
        self.anti_skid_activated && self.normal_brakes_available
    }

    pub fn update_normal_braking_availability(&mut self, readings: &BrakingReadings)
        ensures
            *final(self) == (Self {
                normal_brakes_available: next_normal_brakes_available(
                    old(self).normal_brakes_available,
                    *readings,
                ),
                ..*old(self)
            }),
    {
        if readings.green_pressure_above_altn_hyst_hi && (readings.left_pilot_input_below_detection
            && readings.right_pilot_input_below_detection) {
            self.normal_brakes_available = true;
        } else if readings.green_pressure_below_altn_hyst_lo {
            self.normal_brakes_available = false;
        }
    }

    pub fn update_brake_pressure_limitation(&mut self, yellow_manual_braking_input: bool)
        ensures
            *final(self) == (Self {
                norm_brake_outputs: A320BrakeSystemOutputs {
                    pressure_limit_psi: NOMINAL_BRAKE_PRESSURE_LIMIT_PSI,
                    ..old(self).norm_brake_outputs
                },
                alternate_brake_outputs: A320BrakeSystemOutputs {
                    pressure_limit_psi: alternate_pressure_limit(
                        old(self).parking_brake_demand,
                        old(self).anti_skid_activated,
                        yellow_manual_braking_input,
                    ),
                    ..old(self).alternate_brake_outputs
                },
                ..*old(self)
            }),
    {
        self.norm_brake_outputs.set_pressure_limit(NOMINAL_BRAKE_PRESSURE_LIMIT_PSI);

        let alternate_brake_pressure_limit = if self.parking_brake_demand {
            if !yellow_manual_braking_input {
                PARK_BRAKE_PRESSURE_LIMIT_PSI
            } else {
                NOMINAL_BRAKE_PRESSURE_LIMIT_PSI
            }
        } else if !self.anti_skid_activated {
            NO_ANTI_SKID_PRESSURE_LIMIT_PSI
        } else {
            NOMINAL_BRAKE_PRESSURE_LIMIT_PSI
        };

        self.alternate_brake_outputs.set_pressure_limit(alternate_brake_pressure_limit);
    }

    /// Gear retracting: not all gears down and locked, with the lever up. This
    /// feeds the delay after which autobrake demand stops in flight.
    pub fn gear_retracting(&self, lgciu1: &LgciuReadings) -> (r: bool)
        ensures
            r == (!lgciu1.all_down_and_locked && !self.is_gear_lever_down),
    {
        !lgciu1.all_down_and_locked && !self.is_gear_lever_down
    }

    /// The unit after `update`: normal braking availability, the pressure
    /// limits, the autobrake updated with arming allowed when anti-skid is on
    /// and normal braking available, and the demands of both circuits.
    pub open spec fn spec_after_update(
        self,
        readings: BrakingReadings,
        lgciu1: LgciuReadings,
        lgciu2: LgciuReadings,
        autobrake_inputs: AutobrakeInputs,
        autobrake_disabled_after_retraction: bool,
    ) -> Self {
        let available = next_normal_brakes_available(self.normal_brakes_available, readings);
        let u = Self { normal_brakes_available: available, ..self };
        let gear_up = in_flight_gear_lever_up(lgciu1, lgciu2, self.is_gear_lever_down);
        Self {
            normal_brakes_available: available,
            autobrake_controller: self.autobrake_controller.spec_after_update(
                self.anti_skid_activated && available,
                autobrake_inputs,
            ),
            norm_brake_outputs: A320BrakeSystemOutputs {
                demand: norm_demand(u, gear_up, autobrake_disabled_after_retraction, readings),
                pressure_limit_psi: NOMINAL_BRAKE_PRESSURE_LIMIT_PSI,
            },
            alternate_brake_outputs: A320BrakeSystemOutputs {
                demand: altn_demand(u, gear_up),
                pressure_limit_psi: alternate_pressure_limit(
                    self.parking_brake_demand,
                    self.anti_skid_activated,
                    readings.yellow_manual_braking_input,
                ),
            },
            ..self
        }
    }

    /// Updates brake availability, pressure limits, the autobrake and the
    /// brake demands. `autobrake_disabled_after_retraction` is whether the gear
    /// has been retracting for the retraction delay.
    pub fn update(
        &mut self,
        readings: &BrakingReadings,
        lgciu1: &LgciuReadings,
        lgciu2: &LgciuReadings,
        autobrake_inputs: &AutobrakeInputs,
        autobrake_disabled_after_retraction: bool,
    ) -> (command: AutobrakeCommand)
        ensures
            *final(self) == old(self).spec_after_update(
                *readings,
                *lgciu1,
                *lgciu2,
                *autobrake_inputs,
                autobrake_disabled_after_retraction,
            ),
            command.target == crate::autobrake::target_of(final(self).autobrake_controller.mode),
            command.engage_deceleration_governor == (final(self).autobrake_controller.mode
                != crate::autobrake::AutobrakeMode::NONE
                && final(self).autobrake_controller.ground_spoilers_are_deployed
                && !final(self).autobrake_controller.spec_should_disarm(
                autobrake_inputs.deceleration_governor_is_engaged,
                autobrake_inputs.disarm_after_time_in_flight,
            )),
    {
        self.update_normal_braking_availability(readings);
        self.update_brake_pressure_limitation(readings.yellow_manual_braking_input);

        let allow_arming = self.allow_autobrake_arming();
        let command = self.autobrake_controller.update(allow_arming, autobrake_inputs);

        let is_in_flight_gear_lever_up = !(lgciu1.left_and_right_gear_compressed_ext_pwr_as_ground
            || lgciu2.left_and_right_gear_compressed_ext_pwr_as_ground || self.is_gear_lever_down);

        if is_in_flight_gear_lever_up {
            if autobrake_disabled_after_retraction {
                self.norm_brake_outputs.set_no_demands();
            } else {
                // A light demand stops the spinning wheels.
                self.norm_brake_outputs.set_brake_demands(BrakeDemandSource::SpinStop);
            }
            self.alternate_brake_outputs.set_no_demands();
        } else {
            let green_used_for_brakes = self.normal_brakes_available && self.anti_skid_activated
                && !self.parking_brake_demand;

            if green_used_for_brakes {
                // The larger of pilot and autobrake demand lets the pilot override autobrake.
                self.norm_brake_outputs.set_brake_demands(BrakeDemandSource::PilotOrAutobrake);

                self.alternate_brake_outputs.set_no_demands();
            } else {
                self.norm_brake_outputs.set_no_demands();

                if !self.parking_brake_demand {
                    // Normal braking on the alternate circuit.
                    self.alternate_brake_outputs.set_brake_demands(BrakeDemandSource::Pilot);
                } else {
                    self.alternate_brake_outputs.set_max_demands();

                    // Parking brake set but yellow cannot hold: green may brake in emergency.
                    if readings.altn_left_pressure_below_park_emergency
                        || readings.altn_right_pressure_below_park_emergency {
                        self.norm_brake_outputs.set_brake_demands(BrakeDemandSource::Pilot);
                    }
                }
            }
        }
        command
    }

    /// Nose wheel steering is commanded only with an engine oil pressure
    /// normal, anti-skid on, and the nose gear compressed; otherwise the
    /// steering request is centred.
    pub fn steering_is_available(
        &self,
        engine1: &EngineReadings,
        engine2: &EngineReadings,
        lgciu1: &LgciuReadings,
    ) -> (r: bool)
        ensures
            r == (!(engine1.oil_pressure_is_low && engine2.oil_pressure_is_low)
                && self.anti_skid_activated && lgciu1.nose_gear_compressed),
    {
        let is_both_engine_low_oil_pressure = engine1.oil_pressure_is_low
            && engine2.oil_pressure_is_low;

        !is_both_engine_low_oil_pressure && self.anti_skid_activated && lgciu1.nose_gear_compressed
    }

    pub fn norm_controller(&self) -> (r: &A320BrakeSystemOutputs)
        ensures
            *r == self.norm_brake_outputs,
    {
        &self.norm_brake_outputs
    }

    pub fn alternate_controller(&self) -> (r: &A320BrakeSystemOutputs)
        ensures
            *r == self.alternate_brake_outputs,
    {
        &self.alternate_brake_outputs
    }

    /// Takes the parking brake lever, gear lever and anti-skid switch positions
    /// read from the simulation.
    pub fn read(&mut self, parking_brake_demand: bool, is_gear_lever_down: bool, anti_skid_activated: bool)
        ensures
            *final(self) == (Self {
                parking_brake_demand,
                is_gear_lever_down,
                anti_skid_activated,
                ..*old(self)
            }),
    {
        self.parking_brake_demand = parking_brake_demand;
        self.is_gear_lever_down = is_gear_lever_down;
        self.anti_skid_activated = anti_skid_activated;
    }
}

/// The pilot's pedals never drive the normal and alternate circuits together.
pub proof fn lemma_pilot_never_brakes_on_both_circuits(
    u: A320HydraulicBrakeSteerComputerUnit,
    in_flight_gear_up: bool,
    autobrake_disabled_after_retraction: bool,
    readings: BrakingReadings,
)
    ensures
        !(is_pilot_driven(norm_demand(u, in_flight_gear_up, autobrake_disabled_after_retraction, readings))
            && is_pilot_driven(altn_demand(u, in_flight_gear_up))),
{
}

/// In flight with the gear lever up the alternate circuit never brakes, and
/// the normal circuit never follows the pilot or the autobrake.
pub proof fn lemma_no_braking_demand_in_flight_gear_up(
    u: A320HydraulicBrakeSteerComputerUnit,
    autobrake_disabled_after_retraction: bool,
    readings: BrakingReadings,
)
    ensures
        altn_demand(u, true) == BrakeDemandSource::NoDemand,
        !is_pilot_driven(norm_demand(u, true, autobrake_disabled_after_retraction, readings)),
{
}

/// With the parking brake set on the ground, the alternate circuit applies
/// full braking.
pub proof fn lemma_parking_brake_applies_full_alternate_braking(u: A320HydraulicBrakeSteerComputerUnit)
    requires
        u.parking_brake_demand,
    ensures
        altn_demand(u, false) == BrakeDemandSource::Full,
{
}

/// Normal braking availability has hysteresis: between the two green pressure
/// thresholds it keeps its previous state.
pub proof fn lemma_normal_braking_hysteresis(available: bool, readings: BrakingReadings)
    requires
        !readings.green_pressure_above_altn_hyst_hi,
        !readings.green_pressure_below_altn_hyst_lo,
    ensures
        next_normal_brakes_available(available, readings) == available,
{
}

/// While green pressure is above the high threshold, normal braking is never
/// lost, and it becomes available once the pilot releases the pedals.
pub proof fn lemma_normal_braking_kept_with_green_pressure(available: bool, readings: BrakingReadings)
    requires
        readings.is_valid(),
        readings.green_pressure_above_altn_hyst_hi,
    ensures
        available ==> next_normal_brakes_available(available, readings),
        readings.left_pilot_input_below_detection && readings.right_pilot_input_below_detection
            ==> next_normal_brakes_available(available, readings),
{
}

/// Pressure limits after an update: the normal circuit is always limited to
/// the nominal 2538 psi. With the parking brake released, the alternate
/// circuit is limited to the nominal 2538 psi while anti-skid is on, and to
/// 1160 psi only while anti-skid is off; with the parking brake set it is
/// limited to 2103 psi, or to the nominal limit while the pilot brakes
/// manually on yellow.
pub proof fn lemma_brake_pressure_limits(
    u: A320HydraulicBrakeSteerComputerUnit,
    readings: BrakingReadings,
    lgciu1: LgciuReadings,
    lgciu2: LgciuReadings,
    autobrake_inputs: AutobrakeInputs,
    autobrake_disabled_after_retraction: bool,
)
    ensures
        u.spec_after_update(
            readings,
            lgciu1,
            lgciu2,
            autobrake_inputs,
            autobrake_disabled_after_retraction,
        ).norm_brake_outputs.pressure_limit_psi == NOMINAL_BRAKE_PRESSURE_LIMIT_PSI,
        !u.parking_brake_demand && u.anti_skid_activated ==> u.spec_after_update(
            readings,
            lgciu1,
            lgciu2,
            autobrake_inputs,
            autobrake_disabled_after_retraction,
        ).alternate_brake_outputs.pressure_limit_psi == NOMINAL_BRAKE_PRESSURE_LIMIT_PSI,
        !u.parking_brake_demand && !u.anti_skid_activated ==> u.spec_after_update(
            readings,
            lgciu1,
            lgciu2,
            autobrake_inputs,
            autobrake_disabled_after_retraction,
        ).alternate_brake_outputs.pressure_limit_psi == NO_ANTI_SKID_PRESSURE_LIMIT_PSI,
        u.parking_brake_demand && !readings.yellow_manual_braking_input ==> u.spec_after_update(
            readings,
            lgciu1,
            lgciu2,
            autobrake_inputs,
            autobrake_disabled_after_retraction,
        ).alternate_brake_outputs.pressure_limit_psi == PARK_BRAKE_PRESSURE_LIMIT_PSI,
        u.parking_brake_demand && readings.yellow_manual_braking_input ==> u.spec_after_update(
            readings,
            lgciu1,
            lgciu2,
            autobrake_inputs,
            autobrake_disabled_after_retraction,
        ).alternate_brake_outputs.pressure_limit_psi == NOMINAL_BRAKE_PRESSURE_LIMIT_PSI,
{
}

/// The anti-skid-off limit is the lowest alternate limit and is never set
/// while anti-skid is on; the limit only depends on the parking brake,
/// anti-skid and manual yellow braking.
pub proof fn lemma_no_anti_skid_limit_only_without_anti_skid(
    parking_brake_demand: bool,
    anti_skid_activated: bool,
    yellow_manual_braking_input: bool,
)
    ensures
        alternate_pressure_limit(parking_brake_demand, anti_skid_activated, yellow_manual_braking_input)
            == NO_ANTI_SKID_PRESSURE_LIMIT_PSI <==> (!parking_brake_demand && !anti_skid_activated),
        alternate_pressure_limit(parking_brake_demand, anti_skid_activated, yellow_manual_braking_input)
            >= NO_ANTI_SKID_PRESSURE_LIMIT_PSI,
        alternate_pressure_limit(parking_brake_demand, anti_skid_activated, yellow_manual_braking_input)
            <= NOMINAL_BRAKE_PRESSURE_LIMIT_PSI,
{
}

/// Brake demand routing after an update, on the ground or with the gear lever
/// down: with normal braking available, anti-skid on and the parking brake
/// released, the pilot and autobrake brake on the normal (green) circuit and
/// the alternate circuit has no demand; with the parking brake released but
/// green braking unusable, the pilot brakes on the alternate circuit and the
/// normal circuit has no demand; with the parking brake set the alternate
/// circuit brakes fully.
pub proof fn lemma_brake_demand_routing(
    u: A320HydraulicBrakeSteerComputerUnit,
    readings: BrakingReadings,
    lgciu1: LgciuReadings,
    lgciu2: LgciuReadings,
    autobrake_inputs: AutobrakeInputs,
    autobrake_disabled_after_retraction: bool,
)
    requires
        u.is_gear_lever_down || lgciu1.left_and_right_gear_compressed_ext_pwr_as_ground
            || lgciu2.left_and_right_gear_compressed_ext_pwr_as_ground,
    ensures
        ({
            let after = u.spec_after_update(
                readings,
                lgciu1,
                lgciu2,
                autobrake_inputs,
                autobrake_disabled_after_retraction,
            );
            let green_usable = after.normal_brakes_available && u.anti_skid_activated
                && !u.parking_brake_demand;
            &&& green_usable ==> after.norm_brake_outputs.demand
                == BrakeDemandSource::PilotOrAutobrake
            &&& green_usable ==> after.alternate_brake_outputs.demand
                == BrakeDemandSource::NoDemand
            &&& !u.parking_brake_demand && !green_usable ==> after.alternate_brake_outputs.demand
                == BrakeDemandSource::Pilot
            &&& !u.parking_brake_demand && !green_usable ==> after.norm_brake_outputs.demand
                == BrakeDemandSource::NoDemand
            &&& u.parking_brake_demand ==> after.alternate_brake_outputs.demand
                == BrakeDemandSource::Full
        }),
{
}

/// Normal braking availability after an update: lost when green pressure is
/// below the low threshold (and not above the high one), regained when green
/// pressure is above the high threshold with both pedals released; autobrake
/// arming is then allowed exactly when it is available and anti-skid is on.
pub proof fn lemma_normal_braking_availability(
    u: A320HydraulicBrakeSteerComputerUnit,
    readings: BrakingReadings,
    lgciu1: LgciuReadings,
    lgciu2: LgciuReadings,
    autobrake_inputs: AutobrakeInputs,
    autobrake_disabled_after_retraction: bool,
)
    ensures
        ({
            let after = u.spec_after_update(
                readings,
                lgciu1,
                lgciu2,
                autobrake_inputs,
                autobrake_disabled_after_retraction,
            );
            &&& readings.green_pressure_below_altn_hyst_lo
                && !readings.green_pressure_above_altn_hyst_hi ==> !after.normal_brakes_available
            &&& readings.green_pressure_above_altn_hyst_hi
                && readings.left_pilot_input_below_detection
                && readings.right_pilot_input_below_detection ==> after.normal_brakes_available
            &&& !after.normal_brakes_available ==> after.autobrake_controller.mode
                == crate::autobrake::AutobrakeMode::NONE
            &&& !u.anti_skid_activated ==> after.autobrake_controller.mode
                == crate::autobrake::AutobrakeMode::NONE
        }),
{
}

} // verus!
