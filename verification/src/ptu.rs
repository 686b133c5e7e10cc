//! Controller of the power transfer unit (PTU) between the green and yellow circuits.
use vstd::prelude::*;

use crate::overhead::A320HydraulicOverheadPanel;
use crate::readings::{LgciuReadings, ReservoirReadings};

verus! {

/// Enables or inhibits the PTU. The inhibition that follows a cargo door
/// operation is timed outside this controller and handed to it as
/// `inhibit_after_cargo_door_operation`.
#[derive(Clone, Copy, Debug)]
pub struct A320PowerTransferUnitController {
    pub is_powered: bool,
    pub should_enable: bool,
    pub parking_brake_lever_pos: bool,
    pub eng_1_master_on: bool,
    pub eng_2_master_on: bool,
    pub has_air_pressure_low_fault: bool,
    pub has_low_level_fault: bool,
}

/// The PTU is enabled when powered if its button is in AUTO, it is not
/// inhibited after a cargo door operation (with the yellow pump button in
/// AUTO), and one of: nose gear not compressed, both engine masters on, both
/// off, or parking brake released with no towing pin inserted.
pub open spec fn ptu_should_enable_if_powered(
    c: A320PowerTransferUnitController,
    panel: A320HydraulicOverheadPanel,
    inhibit_after_cargo_door_operation: bool,
    nose_wheel_steering_pin_inserted: bool,
    lgciu2: LgciuReadings,
) -> bool {
    let ptu_inhibited = inhibit_after_cargo_door_operation && panel.yellow_epump_is_auto;
    panel.ptu_is_auto && (!lgciu2.nose_gear_compressed || c.eng_1_master_on && c.eng_2_master_on
        || !c.eng_1_master_on && !c.eng_2_master_on || (!c.parking_brake_lever_pos
        && !nose_wheel_steering_pin_inserted)) && !ptu_inhibited
}

impl A320PowerTransferUnitController {
    /// At power up: unpowered, disabled, parking brake and engine masters
    /// released, no fault.
    pub open spec fn spec_new() -> Self {
        Self {
            is_powered: false,
            should_enable: false,
            parking_brake_lever_pos: false,
            eng_1_master_on: false,
            eng_2_master_on: false,
            has_air_pressure_low_fault: false,
            has_low_level_fault: false,
        }
    }

    pub fn new() -> (c: Self)
        ensures
            c == Self::spec_new(),
            !c.is_powered,
            !c.should_enable,
            !c.parking_brake_lever_pos,
            !c.eng_1_master_on,
            !c.eng_2_master_on,
            !c.has_air_pressure_low_fault,
            !c.has_low_level_fault,
    {
        Self {
            is_powered: false,
            should_enable: false,
            parking_brake_lever_pos: false,
            eng_1_master_on: false,
            eng_2_master_on: false,
            has_air_pressure_low_fault: false,
            has_low_level_fault: false,
        }
    }

    /// The controller after `update` with these readings.
    pub open spec fn spec_after_update(
        self,
        panel: A320HydraulicOverheadPanel,
        inhibit_after_cargo_door_operation: bool,
        nose_wheel_steering_pin_inserted: bool,
        lgciu2: LgciuReadings,
        reservoir_left_side: ReservoirReadings,
        reservoir_right_side: ReservoirReadings,
    ) -> Self {
        Self {
            should_enable: !self.is_powered || ptu_should_enable_if_powered(
                self,
                panel,
                inhibit_after_cargo_door_operation,
                nose_wheel_steering_pin_inserted,
                lgciu2,
            ),
            has_air_pressure_low_fault: (reservoir_left_side.is_low_air_pressure
                || reservoir_right_side.is_low_air_pressure) && panel.ptu_is_auto,
            has_low_level_fault: (reservoir_left_side.is_low_level
                || reservoir_right_side.is_low_level) && panel.ptu_is_auto,
            ..self
        }
    }

    /// Without power the PTU is always enabled.
    pub fn update(
        &mut self,
        overhead_panel: &A320HydraulicOverheadPanel,
        inhibit_after_cargo_door_operation: bool,
        nose_wheel_steering_pin_inserted: bool,
        lgciu2: &LgciuReadings,
        reservoir_left_side: &ReservoirReadings,
        reservoir_right_side: &ReservoirReadings,
    )
        ensures
            *final(self) == old(self).spec_after_update(
                *overhead_panel,
                inhibit_after_cargo_door_operation,
                nose_wheel_steering_pin_inserted,
                *lgciu2,
                *reservoir_left_side,
                *reservoir_right_side,
            ),
            !old(self).is_powered ==> final(self).should_enable,
    {
        let ptu_inhibited = inhibit_after_cargo_door_operation
            && overhead_panel.yellow_epump_push_button_is_auto();

        let should_enable_if_powered = overhead_panel.ptu_push_button_is_auto() && (
        !lgciu2.nose_gear_compressed || self.eng_1_master_on && self.eng_2_master_on
            || !self.eng_1_master_on && !self.eng_2_master_on || (!self.parking_brake_lever_pos
            && !nose_wheel_steering_pin_inserted)) && !ptu_inhibited;

        self.should_enable = !self.is_powered || should_enable_if_powered;

        self.update_low_air_pressure(reservoir_left_side, reservoir_right_side, overhead_panel);

        self.update_low_level(reservoir_left_side, reservoir_right_side, overhead_panel);
    }

    /// Low air pressure in either reservoir is a PTU fault while its button is in AUTO.
    pub fn update_low_air_pressure(
        &mut self,
        reservoir_left_side: &ReservoirReadings,
        reservoir_right_side: &ReservoirReadings,
        overhead_panel: &A320HydraulicOverheadPanel,
    )
        ensures
            *final(self) == (Self {
                has_air_pressure_low_fault: (reservoir_left_side.is_low_air_pressure
                    || reservoir_right_side.is_low_air_pressure) && overhead_panel.ptu_is_auto,
                ..*old(self)
            }),
    {
        self.has_air_pressure_low_fault = (reservoir_left_side.is_low_air_pressure
            || reservoir_right_side.is_low_air_pressure)
            && overhead_panel.ptu_push_button_is_auto();
    }

    /// Low level in either reservoir is a PTU fault while its button is in AUTO.
    pub fn update_low_level(
        &mut self,
        reservoir_left_side: &ReservoirReadings,
        reservoir_right_side: &ReservoirReadings,
        overhead_panel: &A320HydraulicOverheadPanel,
    )
        ensures
            *final(self) == (Self {
                has_low_level_fault: (reservoir_left_side.is_low_level
                    || reservoir_right_side.is_low_level) && overhead_panel.ptu_is_auto,
                ..*old(self)
            }),
    {
        self.has_low_level_fault = (reservoir_left_side.is_low_level
            || reservoir_right_side.is_low_level) && overhead_panel.ptu_push_button_is_auto();
    }

    pub fn has_air_pressure_low_fault(&self) -> (r: bool)
        ensures
            r == self.has_air_pressure_low_fault,
    {
        self.has_air_pressure_low_fault
    }

    pub fn has_low_level_fault(&self) -> (r: bool)
        ensures
            r == self.has_low_level_fault,
    {
        self.has_low_level_fault
    }

    pub fn should_enable(&self) -> (r: bool)
        ensures
            r == self.should_enable,
    {
        self.should_enable
    }

    /// Takes the parking brake lever position and the engine master switch
    /// states read from the simulation.
    pub fn read(&mut self, parking_brake_lever_pos: bool, eng_1_master_on: bool, eng_2_master_on: bool)
        ensures
            *final(self) == (Self {
                parking_brake_lever_pos,
                eng_1_master_on,
                eng_2_master_on,
                ..*old(self)
            }),
    {
        self.parking_brake_lever_pos = parking_brake_lever_pos;
        self.eng_1_master_on = eng_1_master_on;
        self.eng_2_master_on = eng_2_master_on;
    }

    /// `control_bus_powered`: whether the PTU control bus is powered.
    pub fn receive_power(&mut self, control_bus_powered: bool)
        ensures
            *final(self) == (Self { is_powered: control_bus_powered, ..*old(self) }),
    {
        self.is_powered = control_bus_powered;
    }
}

/// PTU enabling on a powered controller, with the button in AUTO and no
/// cargo door inhibition: both engine masters on, both off, or the nose gear
/// in the air enable it whatever the parking brake and towing pin. On the
/// ground with exactly one engine master on, the parking brake set or the
/// towing pin inserted inhibits it. The button OFF, or the cargo door
/// inhibition with the yellow pump button in AUTO, always inhibits it. The
/// two engine masters play symmetric roles.
pub proof fn lemma_ptu_enable_rules(
    c: A320PowerTransferUnitController,
    panel: A320HydraulicOverheadPanel,
    inhibit_after_cargo_door_operation: bool,
    nose_wheel_steering_pin_inserted: bool,
    lgciu2: LgciuReadings,
    reservoir_left_side: ReservoirReadings,
    reservoir_right_side: ReservoirReadings,
)
    requires
        c.is_powered,
    ensures
        ({
            let after = c.spec_after_update(
                panel,
                inhibit_after_cargo_door_operation,
                nose_wheel_steering_pin_inserted,
                lgciu2,
                reservoir_left_side,
                reservoir_right_side,
            );
            let free = panel.ptu_is_auto && !(inhibit_after_cargo_door_operation
                && panel.yellow_epump_is_auto);
            &&& free && c.eng_1_master_on && c.eng_2_master_on ==> after.should_enable
            &&& free && !c.eng_1_master_on && !c.eng_2_master_on ==> after.should_enable
            &&& free && !lgciu2.nose_gear_compressed ==> after.should_enable
            &&& free && !c.parking_brake_lever_pos && !nose_wheel_steering_pin_inserted
                ==> after.should_enable
            &&& lgciu2.nose_gear_compressed && c.eng_1_master_on != c.eng_2_master_on && (
            c.parking_brake_lever_pos || nose_wheel_steering_pin_inserted) ==> !after.should_enable
            &&& !panel.ptu_is_auto ==> !after.should_enable
            &&& inhibit_after_cargo_door_operation && panel.yellow_epump_is_auto
                ==> !after.should_enable
            &&& after.should_enable == (A320PowerTransferUnitController {
                eng_1_master_on: c.eng_2_master_on,
                eng_2_master_on: c.eng_1_master_on,
                ..c
            }).spec_after_update(
                panel,
                inhibit_after_cargo_door_operation,
                nose_wheel_steering_pin_inserted,
                lgciu2,
                reservoir_left_side,
                reservoir_right_side,
            ).should_enable
        }),
{
}

} // verus!
