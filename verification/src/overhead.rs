//! The hydraulic overhead panel: push button positions, fault lights, and the
//! rules that switch the blue pump override off.
use vstd::prelude::*;

use crate::hydraulic::A320HydraulicControllers;
use crate::readings::is_engine_number;

verus! {

/// Positions and fault lights of the hydraulic push buttons.
///
/// An auto/off push button is either in AUTO or OFF, so `is_off` is `!is_auto`
/// for the engine driven pump, blue electric pump and PTU buttons. The yellow
/// electric pump button is an auto/on button: it is ON when not in AUTO.
#[derive(Clone, Copy, Debug)]
pub struct A320HydraulicOverheadPanel {
    pub edp1_is_auto: bool,
    pub edp2_is_auto: bool,
    pub blue_epump_is_auto: bool,
    pub ptu_is_auto: bool,
    pub rat_man_on_is_pressed: bool,
    pub yellow_epump_is_auto: bool,
    pub blue_epump_override_is_on: bool,
    pub edp1_has_fault: bool,
    pub edp2_has_fault: bool,
    pub blue_epump_has_fault: bool,
    pub ptu_has_fault: bool,
    pub yellow_epump_has_fault: bool,
}

impl A320HydraulicOverheadPanel {
    pub open spec fn edp_auto(self, number: usize) -> bool {
        if number == 1 {
            self.edp1_is_auto
        } else {
            self.edp2_is_auto
        }
    }

    /// All auto/off and auto/on buttons start in AUTO, without fault; the RAT
    /// button is released and the blue pump override is off.
    pub fn new() -> (panel: Self)
        ensures
            panel.edp1_is_auto,
            panel.edp2_is_auto,
            panel.blue_epump_is_auto,
            panel.ptu_is_auto,
            panel.yellow_epump_is_auto,
            !panel.rat_man_on_is_pressed,
            !panel.blue_epump_override_is_on,
            !panel.edp1_has_fault,
            !panel.edp2_has_fault,
            !panel.blue_epump_has_fault,
            !panel.ptu_has_fault,
            !panel.yellow_epump_has_fault,
    {
        A320HydraulicOverheadPanel {
            edp1_is_auto: true,
            edp2_is_auto: true,
            blue_epump_is_auto: true,
            ptu_is_auto: true,
            rat_man_on_is_pressed: false,
            yellow_epump_is_auto: true,
            blue_epump_override_is_on: false,
            edp1_has_fault: false,
            edp2_has_fault: false,
            blue_epump_has_fault: false,
            ptu_has_fault: false,
            yellow_epump_has_fault: false,
        }
    }

    /// The blue pump override cannot stay on while the blue pump button is OFF.
    pub fn update_blue_override_state(&mut self)
        ensures
            final(self).blue_epump_override_is_on == (old(self).blue_epump_override_is_on
                && old(self).blue_epump_is_auto),
            *final(self) == (A320HydraulicOverheadPanel {
                blue_epump_override_is_on: final(self).blue_epump_override_is_on,
                ..*old(self)
            }),
    {
        if self.blue_epump_push_button_is_off() {
            self.blue_epump_override_is_on = false;
        }
    }

    /// Lights the fault of each button from the controllers' faults, then
    /// applies the blue override rule.
    pub fn update(&mut self, hyd: &A320HydraulicControllers)
        ensures
            final(self).edp1_has_fault == hyd.spec_green_edp_has_fault(),
            final(self).edp2_has_fault == hyd.spec_yellow_edp_has_fault(),
            final(self).blue_epump_has_fault == hyd.spec_blue_epump_has_fault(),
            final(self).yellow_epump_has_fault == hyd.spec_yellow_epump_has_fault(),
            final(self).ptu_has_fault == hyd.spec_ptu_has_fault(),
            final(self).blue_epump_override_is_on == (old(self).blue_epump_override_is_on
                && old(self).blue_epump_is_auto),
            final(self).edp1_is_auto == old(self).edp1_is_auto,
            final(self).edp2_is_auto == old(self).edp2_is_auto,
            final(self).blue_epump_is_auto == old(self).blue_epump_is_auto,
            final(self).ptu_is_auto == old(self).ptu_is_auto,
            final(self).yellow_epump_is_auto == old(self).yellow_epump_is_auto,
            final(self).rat_man_on_is_pressed == old(self).rat_man_on_is_pressed,
    {
        self.edp1_has_fault = hyd.green_edp_has_fault();
        self.edp2_has_fault = hyd.yellow_edp_has_fault();
        self.blue_epump_has_fault = hyd.blue_epump_has_fault();
        self.yellow_epump_has_fault = hyd.yellow_epump_has_fault();
        self.ptu_has_fault = hyd.ptu_has_fault();

        self.update_blue_override_state();
    }

    pub fn yellow_epump_push_button_is_auto(&self) -> (r: bool)
        ensures
            r == self.yellow_epump_is_auto,
    {
        self.yellow_epump_is_auto
    }

    /// The yellow electric pump button is ON whenever it is not in AUTO.
    pub fn yellow_epump_push_button_is_on(&self) -> (r: bool)
        ensures
            r == !self.yellow_epump_is_auto,
    {
        !self.yellow_epump_is_auto
    }

    pub fn ptu_push_button_is_auto(&self) -> (r: bool)
        ensures
            r == self.ptu_is_auto,
    {
        self.ptu_is_auto
    }

    /// Whether the pump button of engine `number` is in AUTO.
    pub fn edp_push_button_is_auto(&self, number: usize) -> (r: bool)
        requires
            is_engine_number(number),
        ensures
            r == self.edp_auto(number),
    {
        if number == 1 {
            self.edp1_is_auto
        } else {
            self.edp2_is_auto
        }
    }

    /// Whether the pump button of engine `number` is OFF.
    pub fn edp_push_button_is_off(&self, number: usize) -> (r: bool)
        requires
            is_engine_number(number),
        ensures
            r == !self.edp_auto(number),
    {
        if number == 1 {
            !self.edp1_is_auto
        } else {
            !self.edp2_is_auto
        }
    }

    pub fn blue_epump_push_button_is_auto(&self) -> (r: bool)
        ensures
            r == self.blue_epump_is_auto,
    {
        self.blue_epump_is_auto
    }

    pub fn blue_epump_override_push_button_is_on(&self) -> (r: bool)
        ensures
            r == self.blue_epump_override_is_on,
    {
        self.blue_epump_override_is_on
    }

    pub fn blue_epump_push_button_is_off(&self) -> (r: bool)
        ensures
            r == !self.blue_epump_is_auto,
    {
        !self.blue_epump_is_auto
    }

    pub fn rat_man_on_push_button_is_pressed(&self) -> (r: bool)
        ensures
            r == self.rat_man_on_is_pressed,
    {
        self.rat_man_on_is_pressed
    }

    /// The blue pump override turns off when its relay loses power: when the
    /// blue pump control bus or the blue pump supply bus is unpowered.
    pub fn receive_power(&mut self, blue_control_bus_powered: bool, blue_supply_bus_powered: bool)
        ensures
            final(self).blue_epump_override_is_on == (old(self).blue_epump_override_is_on
                && blue_control_bus_powered && blue_supply_bus_powered),
            *final(self) == (A320HydraulicOverheadPanel {
                blue_epump_override_is_on: final(self).blue_epump_override_is_on,
                ..*old(self)
            }),
    {
        if !blue_control_bus_powered || !blue_supply_bus_powered {
            self.blue_epump_override_is_on = false;
        }
    }
}

} // verus!
