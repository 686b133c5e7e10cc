//! The controllers of the A320 hydraulic system taken together, the faults
//! they report to the overhead panel, and the PTU ECAM memo and sound logic.
use vstd::prelude::*;

use crate::pump_control::{
    A320BlueElectricPumpController, A320EngineDrivenPumpController,
    A320HydraulicCircuitController, A320YellowElectricPumpController,
};
use crate::autobrake::{AutobrakeCommand, AutobrakeInputs};
use crate::brakes::{A320HydraulicBrakeSteerComputerUnit, BrakingReadings};
use crate::cargo_door::{door_needs_pressure, A320DoorController, DoorReadings};
use crate::overhead::A320HydraulicOverheadPanel;
use crate::ptu::A320PowerTransferUnitController;
use crate::rat::A320RamAirTurbineController;
use crate::readings::{EngineReadings, FireButtonReadings, LgciuReadings, ReservoirReadings};

verus! {

/// What the controllers read at each core hydraulic step: engines, landing
/// gear units, fire push buttons, reservoirs, the pressure switches of the
/// engine pump sections (green, yellow), of the blue pump section and of the
/// yellow system section, whether the towing pin is inserted, and the two
/// timed effects of a cargo door operation (PTU inhibited, yellow electric
/// pump running).
#[derive(Clone, Copy, Debug)]
pub struct CoreHydraulicReadings {
    pub engine1: EngineReadings,
    pub engine2: EngineReadings,
    pub lgciu1: LgciuReadings,
    pub lgciu2: LgciuReadings,
    pub engine_fire_push_buttons: FireButtonReadings,
    pub green_reservoir: ReservoirReadings,
    pub blue_reservoir: ReservoirReadings,
    pub yellow_reservoir: ReservoirReadings,
    pub green_pump_section_pressurised: bool,
    pub yellow_pump_section_pressurised: bool,
    pub blue_pump_section_pressurised: bool,
    pub yellow_system_section_pressurised: bool,
    pub nose_wheel_steering_pin_inserted: bool,
    pub ptu_inhibited_after_cargo_door_operation: bool,
    pub yellow_epump_running_after_cargo_door_operation: bool,
}

/// What the controllers read at each simulation frame: brake pressures and
/// pedals, landing gear units, the autobrake inputs, whether the gear has been
/// retracting for the autobrake retraction delay, the RAT triggers, the frame
/// duration in nanoseconds, and each cargo door.
#[derive(Clone, Copy, Debug)]
pub struct SimRateReadings {
    pub braking: BrakingReadings,
    pub lgciu1: LgciuReadings,
    pub lgciu2: LgciuReadings,
    pub autobrake: AutobrakeInputs,
    pub autobrake_disabled_after_retraction: bool,
    pub rat_and_emer_gen_man_on_is_pressed: bool,
    pub is_in_emergency_elec: bool,
    pub delta_nanos: u128,
    pub forward_cargo_door: DoorReadings,
    pub aft_cargo_door: DoorReadings,
}

/// Every controller of the A320 hydraulic system.
#[derive(Clone, Copy, Debug)]
pub struct A320HydraulicControllers {
    pub blue_circuit_controller: A320HydraulicCircuitController,
    pub green_circuit_controller: A320HydraulicCircuitController,
    pub yellow_circuit_controller: A320HydraulicCircuitController,
    pub engine_driven_pump_1_controller: A320EngineDrivenPumpController,
    pub engine_driven_pump_2_controller: A320EngineDrivenPumpController,
    pub blue_electric_pump_controller: A320BlueElectricPumpController,
    pub yellow_electric_pump_controller: A320YellowElectricPumpController,
    pub ram_air_turbine_controller: A320RamAirTurbineController,
    pub power_transfer_unit_controller: A320PowerTransferUnitController,
    pub brake_steer_computer: A320HydraulicBrakeSteerComputerUnit,
    pub forward_cargo_door_controller: A320DoorController,
    pub aft_cargo_door_controller: A320DoorController,
}

/// Whether the PTU memo is shown on ECAM, from the PTU enable command, the
/// yellow electric pump command, the green and yellow engine pump section
/// pressure switches and whether each system pressure exceeds 1450 psi.
pub open spec fn hyd_ptu_memo(
    ptu_enabled: bool,
    yellow_epump_on: bool,
    green_pump_section_pressurised: bool,
    yellow_pump_section_pressurised: bool,
    green_system_above_1450_psi: bool,
    yellow_system_above_1450_psi: bool,
) -> bool {
    &&& ptu_enabled
    &&& green_system_above_1450_psi || green_pump_section_pressurised
    &&& yellow_system_above_1450_psi || yellow_pump_section_pressurised
    &&& !green_pump_section_pressurised || (!yellow_pump_section_pressurised && !yellow_epump_on)
}

impl A320HydraulicControllers {
    pub open spec fn wf(self) -> bool {
        &&& self.blue_circuit_controller.wf()
        &&& self.green_circuit_controller.wf()
        &&& self.yellow_circuit_controller.wf()
        &&& self.engine_driven_pump_1_controller.wf()
        &&& self.engine_driven_pump_2_controller.wf()
        &&& self.blue_electric_pump_controller.wf()
        &&& self.yellow_electric_pump_controller.wf()
        &&& self.blue_circuit_controller.engine_number == None::<usize>
        &&& self.green_circuit_controller.engine_number == Some(1usize)
        &&& self.yellow_circuit_controller.engine_number == Some(2usize)
        &&& self.engine_driven_pump_1_controller.engine_number == 1
        &&& self.engine_driven_pump_2_controller.engine_number == 2
        &&& self.forward_cargo_door_controller.wf()
        &&& self.aft_cargo_door_controller.wf()
    }

    /// The controllers of an A320 at power up: the blue circuit has no engine
    /// pump, the green one is fed by engine 1 and the yellow one by engine 2.
    pub fn new() -> (c: Self)
        ensures
            c.wf(),
            c.blue_circuit_controller == A320HydraulicCircuitController::spec_new(None),
            c.green_circuit_controller == A320HydraulicCircuitController::spec_new(Some(1)),
            c.yellow_circuit_controller == A320HydraulicCircuitController::spec_new(Some(2)),
            c.engine_driven_pump_1_controller == A320EngineDrivenPumpController::spec_new(1),
            c.engine_driven_pump_2_controller == A320EngineDrivenPumpController::spec_new(2),
            c.blue_electric_pump_controller == A320BlueElectricPumpController::spec_new(),
            c.yellow_electric_pump_controller == A320YellowElectricPumpController::spec_new(),
            c.ram_air_turbine_controller == A320RamAirTurbineController::spec_new(),
            c.power_transfer_unit_controller == A320PowerTransferUnitController::spec_new(),
            c.brake_steer_computer == A320HydraulicBrakeSteerComputerUnit::spec_new(),
            c.forward_cargo_door_controller == A320DoorController::spec_new(),
            c.aft_cargo_door_controller == A320DoorController::spec_new(),
    {
        A320HydraulicControllers {
            blue_circuit_controller: A320HydraulicCircuitController::new(None),
            green_circuit_controller: A320HydraulicCircuitController::new(Some(1)),
            yellow_circuit_controller: A320HydraulicCircuitController::new(Some(2)),
            engine_driven_pump_1_controller: A320EngineDrivenPumpController::new(1),
            engine_driven_pump_2_controller: A320EngineDrivenPumpController::new(2),
            blue_electric_pump_controller: A320BlueElectricPumpController::new(),
            yellow_electric_pump_controller: A320YellowElectricPumpController::new(),
            ram_air_turbine_controller: A320RamAirTurbineController::new(),
            power_transfer_unit_controller: A320PowerTransferUnitController::new(),
            brake_steer_computer: A320HydraulicBrakeSteerComputerUnit::new(),
            forward_cargo_door_controller: A320DoorController::new(),
            aft_cargo_door_controller: A320DoorController::new(),
        }
    }

    /// A cargo door operation needs the yellow circuit pressurised: this starts
    /// the yellow electric pump and inhibits the PTU, each for a while after.
    pub fn cargo_door_operation_requested(&self) -> (r: bool)
        ensures
            r == (door_needs_pressure(
                self.forward_cargo_door_controller.control_state,
                self.forward_cargo_door_controller.position_requested,
            ) || door_needs_pressure(
                self.aft_cargo_door_controller.control_state,
                self.aft_cargo_door_controller.position_requested,
            )),
    {
        self.forward_cargo_door_controller.should_pressurise_hydraulics()
            || self.aft_cargo_door_controller.should_pressurise_hydraulics()
    }

    /// The controllers after a core hydraulic step: the PTU (left side green,
    /// right side yellow), both engine driven pumps, both electric pumps and the
    /// three fire shutoff valves.
    pub open spec fn spec_after_core_update(
        self,
        panel: A320HydraulicOverheadPanel,
        r: CoreHydraulicReadings,
    ) -> Self {
        Self {
            power_transfer_unit_controller: self.power_transfer_unit_controller.spec_after_update(
                panel,
                r.ptu_inhibited_after_cargo_door_operation,
                r.nose_wheel_steering_pin_inserted,
                r.lgciu2,
                r.green_reservoir,
                r.yellow_reservoir,
            ),
            engine_driven_pump_1_controller: self.engine_driven_pump_1_controller.spec_after_update(
                panel,
                r.engine_fire_push_buttons,
                r.engine1,
                r.green_pump_section_pressurised,
                r.lgciu1,
                r.green_reservoir,
            ),
            engine_driven_pump_2_controller: self.engine_driven_pump_2_controller.spec_after_update(
                panel,
                r.engine_fire_push_buttons,
                r.engine2,
                r.yellow_pump_section_pressurised,
                r.lgciu2,
                r.yellow_reservoir,
            ),
            blue_electric_pump_controller: self.blue_electric_pump_controller.spec_after_update(
                panel,
                r.blue_pump_section_pressurised,
                r.engine1,
                r.engine2,
                r.lgciu1,
                r.lgciu2,
                r.blue_reservoir,
            ),
            yellow_electric_pump_controller: self.yellow_electric_pump_controller.spec_after_update(
                panel,
                r.yellow_epump_running_after_cargo_door_operation,
                r.yellow_system_section_pressurised,
                r.yellow_reservoir,
            ),
            green_circuit_controller: self.green_circuit_controller.spec_after_update(
                r.engine_fire_push_buttons,
            ),
            yellow_circuit_controller: self.yellow_circuit_controller.spec_after_update(
                r.engine_fire_push_buttons,
            ),
            blue_circuit_controller: self.blue_circuit_controller.spec_after_update(
                r.engine_fire_push_buttons,
            ),
            ..self
        }
    }

    /// The controller decisions of a core hydraulic step, in the order the
    /// pumps and circuits they command are updated.
    pub fn update_core_controllers(
        &mut self,
        overhead_panel: &A320HydraulicOverheadPanel,
        readings: &CoreHydraulicReadings,
    )
        requires
            old(self).wf(),
        ensures
            final(self).wf(),
            *final(self) == old(self).spec_after_core_update(*overhead_panel, *readings),
    {
        self.power_transfer_unit_controller.update(
            overhead_panel,
            readings.ptu_inhibited_after_cargo_door_operation,
            readings.nose_wheel_steering_pin_inserted,
            &readings.lgciu2,
            &readings.green_reservoir,
            &readings.yellow_reservoir,
        );

        self.engine_driven_pump_1_controller.update(
            overhead_panel,
            &readings.engine_fire_push_buttons,
            &readings.engine1,
            readings.green_pump_section_pressurised,
            &readings.lgciu1,
            &readings.green_reservoir,
        );

        self.engine_driven_pump_2_controller.update(
            overhead_panel,
            &readings.engine_fire_push_buttons,
            &readings.engine2,
            readings.yellow_pump_section_pressurised,
            &readings.lgciu2,
            &readings.yellow_reservoir,
        );

        self.blue_electric_pump_controller.update(
            overhead_panel,
            readings.blue_pump_section_pressurised,
            &readings.engine1,
            &readings.engine2,
            &readings.lgciu1,
            &readings.lgciu2,
            &readings.blue_reservoir,
        );

        self.yellow_electric_pump_controller.update(
            overhead_panel,
            readings.yellow_epump_running_after_cargo_door_operation,
            readings.yellow_system_section_pressurised,
            &readings.yellow_reservoir,
        );

        self.green_circuit_controller.update(&readings.engine_fire_push_buttons);
        self.yellow_circuit_controller.update(&readings.engine_fire_push_buttons);
        self.blue_circuit_controller.update(&readings.engine_fire_push_buttons);
    }

    /// Whether a frame of `readings.delta_nanos` keeps both door timers within
    /// what a `Duration` holds.
    pub open spec fn can_advance_doors(self, r: SimRateReadings) -> bool {
        &&& self.forward_cargo_door_controller.can_advance(r.forward_cargo_door, r.delta_nanos)
        &&& self.aft_cargo_door_controller.can_advance(r.aft_cargo_door, r.delta_nanos)
    }

    /// Whether a frame of `readings.delta_nanos` keeps both door timers within
    /// what a `Duration` holds.
    pub fn can_advance_doors_by(&self, readings: &SimRateReadings) -> (r: bool)
        requires
            self.wf(),
        ensures
            r == self.can_advance_doors(*readings),
    {
        self.forward_cargo_door_controller.can_advance_by(
            &readings.forward_cargo_door,
            readings.delta_nanos,
        ) && self.aft_cargo_door_controller.can_advance_by(
            &readings.aft_cargo_door,
            readings.delta_nanos,
        )
    }

    /// The controllers after a simulation frame: brakes and autobrake, RAT and
    /// both cargo doors.
    pub open spec fn spec_after_sim_rate_update(
        self,
        panel: A320HydraulicOverheadPanel,
        r: SimRateReadings,
    ) -> Self {
        Self {
            brake_steer_computer: self.brake_steer_computer.spec_after_update(
                r.braking,
                r.lgciu1,
                r.lgciu2,
                r.autobrake,
                r.autobrake_disabled_after_retraction,
            ),
            ram_air_turbine_controller: self.ram_air_turbine_controller.spec_after_update(
                panel,
                r.rat_and_emer_gen_man_on_is_pressed,
                r.is_in_emergency_elec,
            ),
            forward_cargo_door_controller: self.forward_cargo_door_controller.spec_after_update(
                r.delta_nanos,
                r.forward_cargo_door,
            ),
            aft_cargo_door_controller: self.aft_cargo_door_controller.spec_after_update(
                r.delta_nanos,
                r.aft_cargo_door,
            ),
            ..self
        }
    }

    /// The controller decisions of a simulation frame; returns what the
    /// autobrake asks of its deceleration governor.
    pub fn update_sim_rate_controllers(
        &mut self,
        overhead_panel: &A320HydraulicOverheadPanel,
        readings: &SimRateReadings,
    ) -> (command: AutobrakeCommand)
        requires
            old(self).wf(),
            old(self).can_advance_doors(*readings),
        ensures
            final(self).wf(),
            *final(self) == old(self).spec_after_sim_rate_update(*overhead_panel, *readings),
            command.target == crate::autobrake::target_of(
                final(self).brake_steer_computer.autobrake_controller.mode,
            ),
            command.engage_deceleration_governor == (
            final(self).brake_steer_computer.autobrake_controller.mode
                != crate::autobrake::AutobrakeMode::NONE
                && final(self).brake_steer_computer.autobrake_controller.ground_spoilers_are_deployed
                && !final(self).brake_steer_computer.autobrake_controller.spec_should_disarm(
                readings.autobrake.deceleration_governor_is_engaged,
                readings.autobrake.disarm_after_time_in_flight,
            )),
    {
        let command = self.brake_steer_computer.update(
            &readings.braking,
            &readings.lgciu1,
            &readings.lgciu2,
            &readings.autobrake,
            readings.autobrake_disabled_after_retraction,
        );

        self.ram_air_turbine_controller.update(
            overhead_panel,
            readings.rat_and_emer_gen_man_on_is_pressed,
            readings.is_in_emergency_elec,
        );

        self.forward_cargo_door_controller.update(readings.delta_nanos, &readings.forward_cargo_door);
        self.aft_cargo_door_controller.update(readings.delta_nanos, &readings.aft_cargo_door);

        command
    }

    pub open spec fn spec_ptu_has_fault(self) -> bool {
        self.power_transfer_unit_controller.has_air_pressure_low_fault
            || self.power_transfer_unit_controller.has_low_level_fault
    }

    pub open spec fn spec_green_edp_has_fault(self) -> bool {
        self.engine_driven_pump_1_controller.has_pressure_low_fault
            || self.engine_driven_pump_1_controller.has_air_pressure_low_fault
            || self.engine_driven_pump_1_controller.has_low_level_fault
    }

    pub open spec fn spec_yellow_edp_has_fault(self) -> bool {
        self.engine_driven_pump_2_controller.has_pressure_low_fault
            || self.engine_driven_pump_2_controller.has_air_pressure_low_fault
            || self.engine_driven_pump_2_controller.has_low_level_fault
    }

    pub open spec fn spec_yellow_epump_has_fault(self) -> bool {
        self.yellow_electric_pump_controller.has_pressure_low_fault
            || self.yellow_electric_pump_controller.has_air_pressure_low_fault
            || self.yellow_electric_pump_controller.has_low_level_fault
    }

    pub open spec fn spec_blue_epump_has_fault(self) -> bool {
        self.blue_electric_pump_controller.has_pressure_low_fault
            || self.blue_electric_pump_controller.has_air_pressure_low_fault
            || self.blue_electric_pump_controller.has_low_level_fault
    }

    pub fn ptu_has_fault(&self) -> (r: bool)
        ensures
            r == self.spec_ptu_has_fault(),
    {
        self.power_transfer_unit_controller.has_air_pressure_low_fault()
            || self.power_transfer_unit_controller.has_low_level_fault()
    }

    pub fn green_edp_has_fault(&self) -> (r: bool)
        ensures
            r == self.spec_green_edp_has_fault(),
    {
        self.engine_driven_pump_1_controller.has_pressure_low_fault()
            || self.engine_driven_pump_1_controller.has_air_pressure_low_fault()
            || self.engine_driven_pump_1_controller.has_low_level_fault()
    }

    pub fn yellow_epump_has_fault(&self) -> (r: bool)
        ensures
            r == self.spec_yellow_epump_has_fault(),
    {
        self.yellow_electric_pump_controller.has_pressure_low_fault()
            || self.yellow_electric_pump_controller.has_air_pressure_low_fault()
            || self.yellow_electric_pump_controller.has_low_level_fault()
    }

    pub fn yellow_edp_has_fault(&self) -> (r: bool)
        ensures
            r == self.spec_yellow_edp_has_fault(),
    {
        self.engine_driven_pump_2_controller.has_pressure_low_fault()
            || self.engine_driven_pump_2_controller.has_air_pressure_low_fault()
            || self.engine_driven_pump_2_controller.has_low_level_fault()
    }

    pub fn blue_epump_has_fault(&self) -> (r: bool)
        ensures
            r == self.spec_blue_epump_has_fault(),
    {
        self.blue_electric_pump_controller.has_pressure_low_fault()
            || self.blue_electric_pump_controller.has_air_pressure_low_fault()
            || self.blue_electric_pump_controller.has_low_level_fault()
    }

    /// HYD PTU memo logic. The pump section arguments are the pressure switches
    /// of the green and yellow engine driven pump sections; the pressure
    /// arguments say whether each system pressure is above 1450 psi.
    pub fn should_show_hyd_ptu_message_on_ecam(
        &self,
        green_pump_section_pressurised: bool,
        yellow_pump_section_pressurised: bool,
        green_system_pressure_above_1450_psi: bool,
        yellow_system_pressure_above_1450_psi: bool,
    ) -> (r: bool)
        ensures
            r == hyd_ptu_memo(
                self.power_transfer_unit_controller.should_enable,
                self.yellow_electric_pump_controller.should_pressurise,
                green_pump_section_pressurised,
                yellow_pump_section_pressurised,
                green_system_pressure_above_1450_psi,
                yellow_system_pressure_above_1450_psi,
            ),
    {
        let ptu_valve_ctrol_off = !self.power_transfer_unit_controller.should_enable();
        let green_eng_pump_lo_pr = !green_pump_section_pressurised;

        let yellow_sys_lo_pr = !yellow_pump_section_pressurised;

        let yellow_sys_press_above_1450 = yellow_system_pressure_above_1450_psi;

        let green_sys_press_above_1450 = green_system_pressure_above_1450_psi;

        let green_sys_lo_pr = !green_pump_section_pressurised;

        let yellow_eng_pump_lo_pr = !yellow_pump_section_pressurised;

        let yellow_elec_pump_on = self.yellow_electric_pump_controller.should_pressurise();

        let yellow_pump_state = yellow_eng_pump_lo_pr && !yellow_elec_pump_on;

        let yellow_press_node = yellow_sys_press_above_1450 || !yellow_sys_lo_pr;
        let green_press_node = green_sys_press_above_1450 || !green_sys_lo_pr;

        let yellow_side_and = green_eng_pump_lo_pr && yellow_press_node && green_press_node;
        let green_side_and = yellow_press_node && green_press_node && yellow_pump_state;

        !ptu_valve_ctrol_off && (yellow_side_and || green_side_and)
    }
}

/// During the timed effect of a cargo door operation, a core step runs the
/// yellow electric pump whenever its control is powered, and disables a
/// powered PTU while the yellow pump button is in AUTO.
pub proof fn lemma_cargo_door_operation_uses_yellow_pump_not_ptu(
    c: A320HydraulicControllers,
    panel: A320HydraulicOverheadPanel,
    r: CoreHydraulicReadings,
)
    requires
        r.yellow_epump_running_after_cargo_door_operation,
        r.ptu_inhibited_after_cargo_door_operation,
    ensures
        c.yellow_electric_pump_controller.is_powered ==> c.spec_after_core_update(
            panel,
            r,
        ).yellow_electric_pump_controller.should_pressurise,
        c.power_transfer_unit_controller.is_powered && panel.yellow_epump_is_auto
            ==> !c.spec_after_core_update(panel, r).power_transfer_unit_controller.should_enable,
{
}

/// With their control buses unpowered, a core step leaves both engine driven
/// pumps and the PTU on, and both electric pumps off.
pub proof fn lemma_unpowered_controls_fail_safe(
    c: A320HydraulicControllers,
    panel: A320HydraulicOverheadPanel,
    r: CoreHydraulicReadings,
)
    requires
        !c.engine_driven_pump_1_controller.is_powered,
        !c.engine_driven_pump_2_controller.is_powered,
        !c.power_transfer_unit_controller.is_powered,
        !c.blue_electric_pump_controller.is_powered,
        !c.yellow_electric_pump_controller.is_powered,
    ensures
        ({
            let n = c.spec_after_core_update(panel, r);
            &&& n.engine_driven_pump_1_controller.should_pressurise
            &&& n.engine_driven_pump_2_controller.should_pressurise
            &&& n.power_transfer_unit_controller.should_enable
            &&& !n.blue_electric_pump_controller.should_pressurise
            &&& !n.yellow_electric_pump_controller.should_pressurise
        }),
{
}

/// The PTU memo is only shown while the PTU is enabled and at least one of the
/// green and yellow engine pump sections has lost pressure.
pub proof fn lemma_ptu_memo_needs_enabled_ptu_and_low_pump_pressure(
    ptu_enabled: bool,
    yellow_epump_on: bool,
    green_pump_section_pressurised: bool,
    yellow_pump_section_pressurised: bool,
    green_system_above_1450_psi: bool,
    yellow_system_above_1450_psi: bool,
)
    requires
        hyd_ptu_memo(
            ptu_enabled,
            yellow_epump_on,
            green_pump_section_pressurised,
            yellow_pump_section_pressurised,
            green_system_above_1450_psi,
            yellow_system_above_1450_psi,
        ),
    ensures
        ptu_enabled,
        !green_pump_section_pressurised || !yellow_pump_section_pressurised,
{
}

/// The PTU high pitch sound plays while the PTU turns in either direction with
/// more than 2700 psi between the green and yellow system pressures.
pub fn is_ptu_running_high_pitch_sound(
    is_active_left_to_right: bool,
    is_active_right_to_left: bool,
    pressure_difference_above_2700_psi: bool,
) -> (r: bool)
    ensures
        r == (pressure_difference_above_2700_psi && (is_active_left_to_right
            || is_active_right_to_left)),
{
    let is_ptu_rotating = is_active_left_to_right || is_active_right_to_left;

    pressure_difference_above_2700_psi && is_ptu_rotating
}

} // verus!
