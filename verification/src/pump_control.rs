//! Controllers of the hydraulic pumps and of the circuit fire shutoff valves:
//! when each pump is asked to pressurise, and which faults it reports.
use vstd::prelude::*;

use crate::overhead::A320HydraulicOverheadPanel;
use crate::readings::{
    is_engine_number, EngineReadings, FireButtonReadings, LgciuReadings, ReservoirReadings,
};

verus! {

/// Opens or closes the engine fire shutoff valve of a hydraulic circuit.
/// A circuit without an engine driven pump (`engine_number` is `None`) keeps
/// its valve open.
#[derive(Clone, Copy, Debug)]
pub struct A320HydraulicCircuitController {
    pub engine_number: Option<usize>,
    pub should_open_fire_shutoff_valve: bool,
}

impl A320HydraulicCircuitController {
    pub open spec fn wf(self) -> bool {
        self.engine_number matches Some(n) ==> is_engine_number(n)
    }

    /// The controller after `update`: the valve of an engine's circuit is open
    /// unless that engine's fire push button is released.
    pub open spec fn spec_after_update(self, fire: FireButtonReadings) -> Self {
        Self {
            should_open_fire_shutoff_valve: match self.engine_number {
                Some(n) => !fire.released(n),
                None => self.should_open_fire_shutoff_valve,
            },
            ..self
        }
    }

    pub open spec fn spec_new(engine_number: Option<usize>) -> Self {
        Self { engine_number, should_open_fire_shutoff_valve: true }
    }

    /// Any engine number is accepted here; `update` needs it to be 1 or 2.
    pub fn new(engine_number: Option<usize>) -> (c: Self)
        ensures
            c == Self::spec_new(engine_number),
            (engine_number matches Some(n) ==> is_engine_number(n)) ==> c.wf(),
            c.engine_number == engine_number,
            c.should_open_fire_shutoff_valve,
    {
        Self { engine_number, should_open_fire_shutoff_valve: true }
    }

    /// The valve of an engine's circuit closes when that engine's fire push
    /// button is released.
    pub fn update(&mut self, engine_fire_push_buttons: &FireButtonReadings)
        requires
            old(self).wf(),
        ensures
            final(self).wf(),
            *final(self) == old(self).spec_after_update(*engine_fire_push_buttons),
    {
        if let Some(eng_number) = self.engine_number {
            self.should_open_fire_shutoff_valve = !engine_fire_push_buttons.is_released(eng_number);
        }
    }

    /// One main pump per pump section on the A320: the pump index plays no role.
    pub fn should_open_fire_shutoff_valve(&self, _pump_index: usize) -> (r: bool)
        ensures
            r == self.should_open_fire_shutoff_valve,
    {
        self.should_open_fire_shutoff_valve
    }
}

/// Controller of an engine driven pump (engine 1: green, engine 2: yellow).
#[derive(Clone, Copy, Debug)]
pub struct A320EngineDrivenPumpController {
    pub is_powered: bool,
    pub engine_number: usize,
    pub should_pressurise: bool,
    pub has_pressure_low_fault: bool,
    pub has_air_pressure_low_fault: bool,
    pub has_low_level_fault: bool,
    pub is_pressure_low: bool,
}

/// What an engine driven pump controller should command when its solenoid is powered.
pub open spec fn edp_should_pressurise_if_powered(
    panel: A320HydraulicOverheadPanel,
    fire: FireButtonReadings,
    engine_number: usize,
) -> bool {
    panel.edp_auto(engine_number) && !fire.released(engine_number)
}

impl A320EngineDrivenPumpController {
    /// The engine number is 1 or 2, and a pressure low fault is only raised
    /// while the pump pressure is low.
    pub open spec fn wf(self) -> bool {
        &&& is_engine_number(self.engine_number)
        &&& self.has_pressure_low_fault ==> self.is_pressure_low
    }

    /// At power up the solenoid is unpowered, the pump pressurises and its
    /// pressure reads low.
    pub open spec fn spec_new(engine_number: usize) -> Self {
        Self {
            is_powered: false,
            engine_number,
            should_pressurise: true,
            has_pressure_low_fault: false,
            has_air_pressure_low_fault: false,
            has_low_level_fault: false,
            is_pressure_low: true,
        }
    }

    /// Any engine number is accepted here; `update` needs it to be 1 or 2.
    pub fn new(engine_number: usize) -> (c: Self)
        ensures
            c == Self::spec_new(engine_number),
            is_engine_number(engine_number) ==> c.wf(),
            c.engine_number == engine_number,
            !c.is_powered,
            c.should_pressurise,
            !c.has_pressure_low_fault,
            !c.has_air_pressure_low_fault,
            !c.has_low_level_fault,
            c.is_pressure_low,
    {
        Self {
            is_powered: false,
            engine_number,
            should_pressurise: true,
            has_pressure_low_fault: false,
            has_air_pressure_low_fault: false,
            has_low_level_fault: false,
            is_pressure_low: true,
        }
    }

    /// Pressure is low when the pump is asked to pressurise but its section
    /// pressure switch is not pressurised. The fault is inhibited on ground
    /// (both main gears compressed) while the engine oil pressure is low.
    pub fn update_low_pressure(
        &mut self,
        engine: &EngineReadings,
        section_pressure_switch_pressurised: bool,
        lgciu: &LgciuReadings,
    )
        requires
            old(self).wf(),
        ensures
            final(self).wf(),
            final(self).is_pressure_low == (old(self).should_pressurise
                && !section_pressure_switch_pressurised),
            final(self).has_pressure_low_fault == (final(self).is_pressure_low && (
                !engine.oil_pressure_is_low || !(lgciu.right_gear_compressed
                && lgciu.left_gear_compressed))),
            *final(self) == (Self {
                is_pressure_low: final(self).is_pressure_low,
                has_pressure_low_fault: final(self).has_pressure_low_fault,
                ..*old(self)
            }),
    {
        self.is_pressure_low = self.should_pressurise() && !section_pressure_switch_pressurised;

        self.has_pressure_low_fault = self.is_pressure_low && (!engine.oil_pressure_is_low
            || !(lgciu.right_gear_compressed && lgciu.left_gear_compressed));
    }

    /// Low reservoir air pressure is a fault of the pump while its button is in AUTO.
    pub fn update_low_air_pressure(
        &mut self,
        reservoir: &ReservoirReadings,
        overhead_panel: &A320HydraulicOverheadPanel,
    )
        requires
            old(self).wf(),
        ensures
            final(self).wf(),
            final(self).has_air_pressure_low_fault == (reservoir.is_low_air_pressure
                && overhead_panel.edp_auto(old(self).engine_number)),
            *final(self) == (Self {
                has_air_pressure_low_fault: final(self).has_air_pressure_low_fault,
                ..*old(self)
            }),
    {
        self.has_air_pressure_low_fault = reservoir.is_low_air_pressure
            && overhead_panel.edp_push_button_is_auto(self.engine_number);
    }

    /// Low reservoir level is a fault of the pump while its button is in AUTO.
    pub fn update_low_level(
        &mut self,
        reservoir: &ReservoirReadings,
        overhead_panel: &A320HydraulicOverheadPanel,
    )
        requires
            old(self).wf(),
        ensures
            final(self).wf(),
            final(self).has_low_level_fault == (reservoir.is_low_level && overhead_panel.edp_auto(
                old(self).engine_number,
            )),
            *final(self) == (Self {
                has_low_level_fault: final(self).has_low_level_fault,
                ..*old(self)
            }),
    {
        self.has_low_level_fault = reservoir.is_low_level
            && overhead_panel.edp_push_button_is_auto(self.engine_number);
    }

    /// The controller after `update` with these readings.
    pub open spec fn spec_after_update(
        self,
        panel: A320HydraulicOverheadPanel,
        fire: FireButtonReadings,
        engine: EngineReadings,
        section_pressure_switch_pressurised: bool,
        lgciu: LgciuReadings,
        reservoir: ReservoirReadings,
    ) -> Self {
        let should_pressurise = !self.is_powered || edp_should_pressurise_if_powered(
            panel,
            fire,
            self.engine_number,
        );
        let is_pressure_low = should_pressurise && !section_pressure_switch_pressurised;
        Self {
            should_pressurise,
            is_pressure_low,
            has_pressure_low_fault: is_pressure_low && (!engine.oil_pressure_is_low || !(
            lgciu.right_gear_compressed && lgciu.left_gear_compressed)),
            has_air_pressure_low_fault: reservoir.is_low_air_pressure && panel.edp_auto(
                self.engine_number,
            ),
            has_low_level_fault: reservoir.is_low_level && panel.edp_auto(self.engine_number),
            ..self
        }
    }

    /// The pump pressurises when its button is in AUTO and its engine fire
    /// button is not released; without power the solenoid valve leaves the
    /// pump pressurising.
    pub fn update(
        &mut self,
        overhead_panel: &A320HydraulicOverheadPanel,
        engine_fire_push_buttons: &FireButtonReadings,
        engine: &EngineReadings,
        section_pressure_switch_pressurised: bool,
        lgciu: &LgciuReadings,
        reservoir: &ReservoirReadings,
    )
        requires
            old(self).wf(),
        ensures
            final(self).wf(),
            *final(self) == old(self).spec_after_update(
                *overhead_panel,
                *engine_fire_push_buttons,
                *engine,
                section_pressure_switch_pressurised,
                *lgciu,
                *reservoir,
            ),
            !old(self).is_powered ==> final(self).should_pressurise,
    {
        let mut should_pressurise_if_powered = false;
        if overhead_panel.edp_push_button_is_auto(self.engine_number)
            && !engine_fire_push_buttons.is_released(self.engine_number) {
            should_pressurise_if_powered = true;
        } else if overhead_panel.edp_push_button_is_off(self.engine_number)
            || engine_fire_push_buttons.is_released(self.engine_number) {
            should_pressurise_if_powered = false;
        }
        // Inverted logic: without power the solenoid valve leaves the pump pressurising.

        self.should_pressurise = !self.is_powered || should_pressurise_if_powered;

        self.update_low_pressure(engine, section_pressure_switch_pressurised, lgciu);

        self.update_low_air_pressure(reservoir, overhead_panel);

        self.update_low_level(reservoir, overhead_panel);
    }

    pub fn has_pressure_low_fault(&self) -> (r: bool)
        ensures
            r == self.has_pressure_low_fault,
    {
        self.has_pressure_low_fault
    }

    pub fn has_air_pressure_low_fault(&self) -> (r: bool)
        ensures
            r == self.has_air_pressure_low_fault,
    {
        self.has_air_pressure_low_fault
    }

    pub fn has_low_level_fault(&self) -> (r: bool)
        ensures
            r == self.has_low_level_fault,
    {
        self.has_low_level_fault
    }

    pub fn is_pressure_low(&self) -> (r: bool)
        ensures
            r == self.is_pressure_low,
    {
        self.is_pressure_low
    }

    pub fn should_pressurise(&self) -> (r: bool)
        ensures
            r == self.should_pressurise,
    {
        self.should_pressurise
    }

    /// `control_bus_powered`: whether any of the buses that power the pump's
    /// solenoid is powered.
    pub fn receive_power(&mut self, control_bus_powered: bool)
        requires
            old(self).wf(),
        ensures
            final(self).wf(),
            *final(self) == (Self { is_powered: control_bus_powered, ..*old(self) }),
    {
        self.is_powered = control_bus_powered;
    }
}

/// Controller of the blue electric pump.
#[derive(Clone, Copy, Debug)]
pub struct A320BlueElectricPumpController {
    pub is_powered: bool,
    pub should_pressurise: bool,
    pub has_pressure_low_fault: bool,
    pub has_air_pressure_low_fault: bool,
    pub has_low_level_fault: bool,
    pub is_pressure_low: bool,
}

/// What the blue pump controller should command when powered: with its
/// button in AUTO, the pump runs in flight (nose gear not compressed), when an
/// engine runs above minimum idle, or when the override is on.
pub open spec fn blue_should_pressurise_if_powered(
    panel: A320HydraulicOverheadPanel,
    engine1: EngineReadings,
    engine2: EngineReadings,
    lgciu1: LgciuReadings,
) -> bool {
    panel.blue_epump_is_auto && (!lgciu1.nose_gear_compressed || engine1.is_above_minimum_idle
        || engine2.is_above_minimum_idle || panel.blue_epump_override_is_on)
}

/// The blue pump low pressure fault is inhibited while both engines have low
/// oil pressure and both units see both main gears compressed, unless the
/// override is on.
pub open spec fn blue_pressure_low_fault(
    is_pressure_low: bool,
    panel: A320HydraulicOverheadPanel,
    engine1: EngineReadings,
    engine2: EngineReadings,
    lgciu1: LgciuReadings,
    lgciu2: LgciuReadings,
) -> bool {
    is_pressure_low && (!(engine1.oil_pressure_is_low && engine2.oil_pressure_is_low) || (!(
    lgciu1.left_gear_compressed && lgciu1.right_gear_compressed) || !(lgciu2.left_gear_compressed
        && lgciu2.right_gear_compressed)) || panel.blue_epump_override_is_on)
}

impl A320BlueElectricPumpController {
    /// A pressure low fault is only raised while the pump pressure is low.
    pub open spec fn wf(self) -> bool {
        self.has_pressure_low_fault ==> self.is_pressure_low
    }

    /// At power up the control is unpowered, the pump does not run and its
    /// pressure reads low.
    pub open spec fn spec_new() -> Self {
        Self {
            is_powered: false,
            should_pressurise: false,
            has_pressure_low_fault: false,
            has_air_pressure_low_fault: false,
            has_low_level_fault: false,
            is_pressure_low: true,
        }
    }

    pub fn new() -> (c: Self)
        ensures
            c == Self::spec_new(),
            c.wf(),
            !c.is_powered,
            !c.should_pressurise,
            !c.has_pressure_low_fault,
            !c.has_air_pressure_low_fault,
            !c.has_low_level_fault,
            c.is_pressure_low,
    {
        Self {
            is_powered: false,
            should_pressurise: false,
            has_pressure_low_fault: false,
            has_air_pressure_low_fault: false,
            has_low_level_fault: false,
            is_pressure_low: true,
        }
    }

    /// The controller after `update` with these readings.
    pub open spec fn spec_after_update(
        self,
        panel: A320HydraulicOverheadPanel,
        section_pressure_switch_pressurised: bool,
        engine1: EngineReadings,
        engine2: EngineReadings,
        lgciu1: LgciuReadings,
        lgciu2: LgciuReadings,
        reservoir: ReservoirReadings,
    ) -> Self {
        let should_pressurise = self.is_powered && blue_should_pressurise_if_powered(
            panel,
            engine1,
            engine2,
            lgciu1,
        );
        let is_pressure_low = should_pressurise && !section_pressure_switch_pressurised;
        Self {
            should_pressurise,
            is_pressure_low,
            has_pressure_low_fault: blue_pressure_low_fault(
                is_pressure_low,
                panel,
                engine1,
                engine2,
                lgciu1,
                lgciu2,
            ),
            has_air_pressure_low_fault: reservoir.is_low_air_pressure && panel.blue_epump_is_auto,
            has_low_level_fault: reservoir.is_low_level && panel.blue_epump_is_auto,
            ..self
        }
    }

    /// The pump only runs when its control is powered.
    pub fn update(
        &mut self,
        overhead_panel: &A320HydraulicOverheadPanel,
        section_pressure_switch_pressurised: bool,
        engine1: &EngineReadings,
        engine2: &EngineReadings,
        lgciu1: &LgciuReadings,
        lgciu2: &LgciuReadings,
        reservoir: &ReservoirReadings,
    )
        requires
            old(self).wf(),
        ensures
            final(self).wf(),
            *final(self) == old(self).spec_after_update(
                *overhead_panel,
                section_pressure_switch_pressurised,
                *engine1,
                *engine2,
                *lgciu1,
                *lgciu2,
                *reservoir,
            ),
            !old(self).is_powered ==> !final(self).should_pressurise,
    {
        let mut should_pressurise_if_powered = false;
        if overhead_panel.blue_epump_push_button_is_auto() {
            if !lgciu1.nose_gear_compressed || engine1.is_above_minimum_idle
                || engine2.is_above_minimum_idle
                || overhead_panel.blue_epump_override_push_button_is_on() {
                should_pressurise_if_powered = true;
            } else {
                should_pressurise_if_powered = false;
            }
        } else if overhead_panel.blue_epump_push_button_is_off() {
            should_pressurise_if_powered = false;
        }
        self.should_pressurise = self.is_powered && should_pressurise_if_powered;

        self.update_low_pressure(
            overhead_panel,
            section_pressure_switch_pressurised,
            engine1,
            engine2,
            lgciu1,
            lgciu2,
        );

        self.update_low_air_pressure(reservoir, overhead_panel);

        self.update_low_level(reservoir, overhead_panel);
    }

    pub fn update_low_pressure(
        &mut self,
        overhead_panel: &A320HydraulicOverheadPanel,
        section_pressure_switch_pressurised: bool,
        engine1: &EngineReadings,
        engine2: &EngineReadings,
        lgciu1: &LgciuReadings,
        lgciu2: &LgciuReadings,
    )
        requires
            old(self).wf(),
        ensures
            final(self).wf(),
            final(self).is_pressure_low == (old(self).should_pressurise
                && !section_pressure_switch_pressurised),
            final(self).has_pressure_low_fault == blue_pressure_low_fault(
                final(self).is_pressure_low,
                *overhead_panel,
                *engine1,
                *engine2,
                *lgciu1,
                *lgciu2,
            ),
            *final(self) == (Self {
                is_pressure_low: final(self).is_pressure_low,
                has_pressure_low_fault: final(self).has_pressure_low_fault,
                ..*old(self)
            }),
    {
        let is_both_engine_low_oil_pressure = engine1.oil_pressure_is_low
            && engine2.oil_pressure_is_low;

        self.is_pressure_low = self.should_pressurise() && !section_pressure_switch_pressurised;

        self.has_pressure_low_fault = self.is_pressure_low && (!is_both_engine_low_oil_pressure
            || (!(lgciu1.left_gear_compressed && lgciu1.right_gear_compressed) || !(
        lgciu2.left_gear_compressed && lgciu2.right_gear_compressed))
            || overhead_panel.blue_epump_override_push_button_is_on());
    }

    /// Low reservoir air pressure is a fault unless the pump button is OFF.
    pub fn update_low_air_pressure(
        &mut self,
        reservoir: &ReservoirReadings,
        overhead_panel: &A320HydraulicOverheadPanel,
    )
        requires
            old(self).wf(),
        ensures
            final(self).wf(),
            *final(self) == (Self {
                has_air_pressure_low_fault: reservoir.is_low_air_pressure
                    && overhead_panel.blue_epump_is_auto,
                ..*old(self)
            }),
    {
        self.has_air_pressure_low_fault = reservoir.is_low_air_pressure
            && !overhead_panel.blue_epump_push_button_is_off();
    }

    /// Low reservoir level is a fault unless the pump button is OFF.
    pub fn update_low_level(
        &mut self,
        reservoir: &ReservoirReadings,
        overhead_panel: &A320HydraulicOverheadPanel,
    )
        requires
            old(self).wf(),
        ensures
            final(self).wf(),
            *final(self) == (Self {
                has_low_level_fault: reservoir.is_low_level && overhead_panel.blue_epump_is_auto,
                ..*old(self)
            }),
    {
        self.has_low_level_fault = reservoir.is_low_level
            && !overhead_panel.blue_epump_push_button_is_off();
    }

    pub fn has_pressure_low_fault(&self) -> (r: bool)
        ensures
            r == self.has_pressure_low_fault,
    {
        self.has_pressure_low_fault
    }

    pub fn has_air_pressure_low_fault(&self) -> (r: bool)
        ensures
            r == self.has_air_pressure_low_fault,
    {
        self.has_air_pressure_low_fault
    }

    pub fn has_low_level_fault(&self) -> (r: bool)
        ensures
            r == self.has_low_level_fault,
    {
        self.has_low_level_fault
    }

    pub fn is_pressure_low(&self) -> (r: bool)
        ensures
            r == self.is_pressure_low,
    {
        self.is_pressure_low
    }

    pub fn should_pressurise(&self) -> (r: bool)
        ensures
            r == self.should_pressurise,
    {
        self.should_pressurise
    }

    /// `control_bus_powered`: whether the pump's control bus is powered.
    pub fn receive_power(&mut self, control_bus_powered: bool)
        requires
            old(self).wf(),
        ensures
            final(self).wf(),
            *final(self) == (Self { is_powered: control_bus_powered, ..*old(self) }),
    {
        self.is_powered = control_bus_powered;
    }
}

/// Controller of the yellow electric pump. The pump also runs for some time
/// after a cargo door operation; that delay is timed outside this controller
/// and handed to it as `cargo_door_operation_active`.
#[derive(Clone, Copy, Debug)]
pub struct A320YellowElectricPumpController {
    pub is_powered: bool,
    pub should_pressurise: bool,
    pub has_pressure_low_fault: bool,
    pub has_air_pressure_low_fault: bool,
    pub has_low_level_fault: bool,
    pub is_pressure_low: bool,
}

impl A320YellowElectricPumpController {
    /// A pressure low fault is only raised while the pump pressure is low.
    pub open spec fn wf(self) -> bool {
        self.has_pressure_low_fault ==> self.is_pressure_low
    }

    /// At power up the control is unpowered, the pump does not run and its
    /// pressure reads low.
    pub open spec fn spec_new() -> Self {
        Self {
            is_powered: false,
            should_pressurise: false,
            has_pressure_low_fault: false,
            has_air_pressure_low_fault: false,
            has_low_level_fault: false,
            is_pressure_low: true,
        }
    }

    pub fn new() -> (c: Self)
        ensures
            c == Self::spec_new(),
            c.wf(),
            !c.is_powered,
            !c.should_pressurise,
            !c.has_pressure_low_fault,
            !c.has_air_pressure_low_fault,
            !c.has_low_level_fault,
            c.is_pressure_low,
    {
        Self {
            is_powered: false,
            should_pressurise: false,
            has_pressure_low_fault: false,
            has_air_pressure_low_fault: false,
            has_low_level_fault: false,
            is_pressure_low: true,
        }
    }

    /// The controller after `update` with these readings.
    pub open spec fn spec_after_update(
        self,
        panel: A320HydraulicOverheadPanel,
        cargo_door_operation_active: bool,
        section_pressure_switch_pressurised: bool,
        reservoir: ReservoirReadings,
    ) -> Self {
        let should_pressurise = (!panel.yellow_epump_is_auto || cargo_door_operation_active)
            && self.is_powered;
        let is_pressure_low = should_pressurise && !section_pressure_switch_pressurised;
        Self {
            should_pressurise,
            is_pressure_low,
            has_pressure_low_fault: is_pressure_low,
            has_air_pressure_low_fault: reservoir.is_low_air_pressure && !panel.yellow_epump_is_auto,
            has_low_level_fault: reservoir.is_low_level && !panel.yellow_epump_is_auto,
            ..self
        }
    }

    /// The pump runs when its control is powered and either its button is ON
    /// or a cargo door operation is active.
    pub fn update(
        &mut self,
        overhead_panel: &A320HydraulicOverheadPanel,
        cargo_door_operation_active: bool,
        section_pressure_switch_pressurised: bool,
        reservoir: &ReservoirReadings,
    )
        requires
            old(self).wf(),
        ensures
            final(self).wf(),
            *final(self) == old(self).spec_after_update(
                *overhead_panel,
                cargo_door_operation_active,
                section_pressure_switch_pressurised,
                *reservoir,
            ),
            !old(self).is_powered ==> !final(self).should_pressurise,
    {
        self.should_pressurise = (overhead_panel.yellow_epump_push_button_is_on()
            || cargo_door_operation_active) && self.is_powered;

        self.update_low_pressure(section_pressure_switch_pressurised);

        self.update_low_air_pressure(reservoir, overhead_panel);

        self.update_low_level(reservoir, overhead_panel);
    }

    pub fn update_low_pressure(&mut self, section_pressure_switch_pressurised: bool)
        requires
            old(self).wf(),
        ensures
            final(self).wf(),
            *final(self) == (Self {
                is_pressure_low: old(self).should_pressurise
                    && !section_pressure_switch_pressurised,
                has_pressure_low_fault: old(self).should_pressurise
                    && !section_pressure_switch_pressurised,
                ..*old(self)
            }),
    {
        self.is_pressure_low = self.should_pressurise() && !section_pressure_switch_pressurised;

        self.has_pressure_low_fault = self.is_pressure_low;
    }

    /// Low reservoir air pressure is a fault when the pump button is not in AUTO.
    pub fn update_low_air_pressure(
        &mut self,
        reservoir: &ReservoirReadings,
        overhead_panel: &A320HydraulicOverheadPanel,
    )
        requires
            old(self).wf(),
        ensures
            final(self).wf(),
            *final(self) == (Self {
                has_air_pressure_low_fault: reservoir.is_low_air_pressure
                    && !overhead_panel.yellow_epump_is_auto,
                ..*old(self)
            }),
    {
        self.has_air_pressure_low_fault = reservoir.is_low_air_pressure
            && !overhead_panel.yellow_epump_push_button_is_auto();
    }

    /// Low reservoir level is a fault when the pump button is not in AUTO.
    pub fn update_low_level(
        &mut self,
        reservoir: &ReservoirReadings,
        overhead_panel: &A320HydraulicOverheadPanel,
    )
        requires
            old(self).wf(),
        ensures
            final(self).wf(),
            *final(self) == (Self {
                has_low_level_fault: reservoir.is_low_level && !overhead_panel.yellow_epump_is_auto,
                ..*old(self)
            }),
    {
        self.has_low_level_fault = reservoir.is_low_level
            && !overhead_panel.yellow_epump_push_button_is_auto();
    }

    pub fn has_pressure_low_fault(&self) -> (r: bool)
        ensures
            r == self.has_pressure_low_fault,
    {
        self.has_pressure_low_fault
    }

    pub fn has_air_pressure_low_fault(&self) -> (r: bool)
        ensures
            r == self.has_air_pressure_low_fault,
    {
        self.has_air_pressure_low_fault
    }

    pub fn has_low_level_fault(&self) -> (r: bool)
        ensures
            r == self.has_low_level_fault,
    {
        self.has_low_level_fault
    }

    pub fn is_pressure_low(&self) -> (r: bool)
        ensures
            r == self.is_pressure_low,
    {
        self.is_pressure_low
    }

    pub fn should_pressurise(&self) -> (r: bool)
        ensures
            r == self.should_pressurise,
    {
        self.should_pressurise
    }

    /// The pump control is powered by its own bus, or, during a cargo door
    /// operation, by the ground/flight service bus.
    pub fn receive_power(
        &mut self,
        control_bus_powered: bool,
        cargo_door_operation_active: bool,
        cargo_door_operation_bus_powered: bool,
    )
        requires
            old(self).wf(),
        ensures
            final(self).wf(),
            *final(self) == (Self {
                is_powered: control_bus_powered || (cargo_door_operation_active
                    && cargo_door_operation_bus_powered),
                ..*old(self)
            }),
    {
        self.is_powered = control_bus_powered || (cargo_door_operation_active
            && cargo_door_operation_bus_powered);
    }
}

/// The blue electric pump: with its button OFF it is never commanded to
/// pressurise, whatever the engines, gear and override. With the button in
/// AUTO on a powered control it runs with the nose gear in the air, with
/// either engine above minimum idle, or with the override on, and otherwise
/// stays off.
pub proof fn lemma_blue_epump_rules(
    c: A320BlueElectricPumpController,
    panel: A320HydraulicOverheadPanel,
    section_pressure_switch_pressurised: bool,
    engine1: EngineReadings,
    engine2: EngineReadings,
    lgciu1: LgciuReadings,
    lgciu2: LgciuReadings,
    reservoir: ReservoirReadings,
)
    ensures
        ({
            let after = c.spec_after_update(
                panel,
                section_pressure_switch_pressurised,
                engine1,
                engine2,
                lgciu1,
                lgciu2,
                reservoir,
            );
            let wanted = !lgciu1.nose_gear_compressed || engine1.is_above_minimum_idle
                || engine2.is_above_minimum_idle || panel.blue_epump_override_is_on;
            &&& !panel.blue_epump_is_auto ==> !after.should_pressurise
            &&& !c.is_powered ==> !after.should_pressurise
            &&& c.is_powered && panel.blue_epump_is_auto && wanted ==> after.should_pressurise
            &&& !wanted ==> !after.should_pressurise
        }),
{
}

/// An engine driven pump on a powered solenoid is commanded to pressurise
/// exactly when its own engine's button (ENG 1 PUMP for engine 1, ENG 2 PUMP
/// for engine 2) is in AUTO and its own engine's fire push button is not
/// released. Its pressure low fault is raised when it is asked to pressurise,
/// its section is not pressurised and its engine runs (oil pressure normal)
/// or the aircraft is not on both main gears; it is never raised while its
/// section is pressurised, nor on the ground with the engine stopped.
pub proof fn lemma_edp_rules(
    c: A320EngineDrivenPumpController,
    panel: A320HydraulicOverheadPanel,
    fire: FireButtonReadings,
    engine: EngineReadings,
    section_pressure_switch_pressurised: bool,
    lgciu: LgciuReadings,
    reservoir: ReservoirReadings,
)
    requires
        c.wf(),
    ensures
        ({
            let after = c.spec_after_update(
                panel,
                fire,
                engine,
                section_pressure_switch_pressurised,
                lgciu,
                reservoir,
            );
            &&& c.is_powered && c.engine_number == 1 ==> (after.should_pressurise == (
            panel.edp1_is_auto && !fire.engine_1_released))
            &&& c.is_powered && c.engine_number == 2 ==> (after.should_pressurise == (
            panel.edp2_is_auto && !fire.engine_2_released))
            &&& after.should_pressurise && !section_pressure_switch_pressurised
                && !engine.oil_pressure_is_low ==> after.has_pressure_low_fault
            &&& after.should_pressurise && !section_pressure_switch_pressurised && !(
            lgciu.left_gear_compressed && lgciu.right_gear_compressed)
                ==> after.has_pressure_low_fault
            &&& section_pressure_switch_pressurised ==> !after.has_pressure_low_fault
            &&& engine.oil_pressure_is_low && lgciu.left_gear_compressed
                && lgciu.right_gear_compressed ==> !after.has_pressure_low_fault
        }),
{
}

/// The yellow electric pump on a powered control runs exactly when its
/// auto/on button is ON or a cargo door operation is active; unpowered it
/// never runs. Its pressure low fault is raised exactly when it runs and its
/// section is not pressurised.
pub proof fn lemma_yellow_epump_rules(
    c: A320YellowElectricPumpController,
    panel: A320HydraulicOverheadPanel,
    cargo_door_operation_active: bool,
    section_pressure_switch_pressurised: bool,
    reservoir: ReservoirReadings,
)
    ensures
        ({
            let after = c.spec_after_update(
                panel,
                cargo_door_operation_active,
                section_pressure_switch_pressurised,
                reservoir,
            );
            &&& c.is_powered ==> (after.should_pressurise == (!panel.yellow_epump_is_auto
                || cargo_door_operation_active))
            &&& !c.is_powered ==> !after.should_pressurise
            &&& after.has_pressure_low_fault == (after.should_pressurise
                && !section_pressure_switch_pressurised)
        }),
{
}

/// The blue pump pressure low fault: never while its section is pressurised;
/// inhibited on the ground (both units see both main gears compressed) with
/// both engines' oil pressure low and the override off; raised when the pump
/// is asked to run and its section is not pressurised while the override is
/// on or an engine runs.
pub proof fn lemma_blue_epump_fault_rules(
    c: A320BlueElectricPumpController,
    panel: A320HydraulicOverheadPanel,
    section_pressure_switch_pressurised: bool,
    engine1: EngineReadings,
    engine2: EngineReadings,
    lgciu1: LgciuReadings,
    lgciu2: LgciuReadings,
    reservoir: ReservoirReadings,
)
    ensures
        ({
            let after = c.spec_after_update(
                panel,
                section_pressure_switch_pressurised,
                engine1,
                engine2,
                lgciu1,
                lgciu2,
                reservoir,
            );
            &&& section_pressure_switch_pressurised ==> !after.has_pressure_low_fault
            &&& engine1.oil_pressure_is_low && engine2.oil_pressure_is_low
                && lgciu1.left_gear_compressed && lgciu1.right_gear_compressed
                && lgciu2.left_gear_compressed && lgciu2.right_gear_compressed
                && !panel.blue_epump_override_is_on ==> !after.has_pressure_low_fault
            &&& after.should_pressurise && !section_pressure_switch_pressurised && (
            panel.blue_epump_override_is_on || !engine1.oil_pressure_is_low
                || !engine2.oil_pressure_is_low) ==> after.has_pressure_low_fault
        }),
{
}

/// Each engine circuit's fire shutoff valve is open exactly when that
/// engine's fire push button is not released; the blue circuit, with no
/// engine pump, keeps its valve as it was.
pub proof fn lemma_fire_shutoff_valves(c: A320HydraulicCircuitController, fire: FireButtonReadings)
    ensures
        c.engine_number == Some(1usize) ==> c.spec_after_update(fire).should_open_fire_shutoff_valve
            == !fire.engine_1_released,
        c.engine_number == Some(2usize) ==> c.spec_after_update(fire).should_open_fire_shutoff_valve
            == !fire.engine_2_released,
        c.engine_number == None::<usize> ==> c.spec_after_update(fire).should_open_fire_shutoff_valve
            == c.should_open_fire_shutoff_valve,
{
}

} // verus!
