//! Controller of the ram air turbine (RAT) deployment solenoids.
use vstd::prelude::*;

use crate::overhead::A320HydraulicOverheadPanel;

verus! {

/// Two solenoids can deploy the RAT: solenoid 1 from the hydraulic panel RAT
/// MAN ON button, solenoid 2 from the emergency electrical state or the
/// emergency generator RAT MAN ON button. Each acts only while powered.
#[derive(Clone, Copy, Debug)]
pub struct A320RamAirTurbineController {
    pub is_solenoid_1_powered: bool,
    pub is_solenoid_2_powered: bool,
    pub should_deploy: bool,
}

impl A320RamAirTurbineController {
    pub open spec fn spec_new() -> Self {
        Self { is_solenoid_1_powered: false, is_solenoid_2_powered: false, should_deploy: false }
    }

    pub fn new() -> (c: Self)
        ensures
            c == Self::spec_new(),
            !c.is_solenoid_1_powered,
            !c.is_solenoid_2_powered,
            !c.should_deploy,
    {
        Self { is_solenoid_1_powered: false, is_solenoid_2_powered: false, should_deploy: false }
    }

    /// The controller after `update`: deployment is commanded through any
    /// powered solenoid whose trigger is active.
    pub open spec fn spec_after_update(
        self,
        panel: A320HydraulicOverheadPanel,
        rat_and_emer_gen_man_on_is_pressed: bool,
        is_in_emergency_elec: bool,
    ) -> Self {
        Self {
            should_deploy: (self.is_solenoid_1_powered && panel.rat_man_on_is_pressed) || (
            self.is_solenoid_2_powered && (is_in_emergency_elec
                || rat_and_emer_gen_man_on_is_pressed)),
            ..self
        }
    }

    pub fn update(
        &mut self,
        overhead_panel: &A320HydraulicOverheadPanel,
        rat_and_emer_gen_man_on_is_pressed: bool,
        is_in_emergency_elec: bool,
    )
        ensures
            *final(self) == old(self).spec_after_update(
                *overhead_panel,
                rat_and_emer_gen_man_on_is_pressed,
                is_in_emergency_elec,
            ),
            final(self).should_deploy ==> final(self).is_solenoid_1_powered
                || final(self).is_solenoid_2_powered,
    {
        let solenoid_1_should_trigger_deployment_if_powered =
            overhead_panel.rat_man_on_push_button_is_pressed();

        let solenoid_2_should_trigger_deployment_if_powered = is_in_emergency_elec
            || rat_and_emer_gen_man_on_is_pressed;

        self.should_deploy = (self.is_solenoid_1_powered
            && solenoid_1_should_trigger_deployment_if_powered) || (self.is_solenoid_2_powered
            && solenoid_2_should_trigger_deployment_if_powered);
    }

    pub fn should_deploy(&self) -> (r: bool)
        ensures
            r == self.should_deploy,
    {
        self.should_deploy
    }

    /// Whether the bus of each solenoid is powered.
    pub fn receive_power(&mut self, solenoid_1_bus_powered: bool, solenoid_2_bus_powered: bool)
        ensures
            *final(self) == (Self {
                is_solenoid_1_powered: solenoid_1_bus_powered,
                is_solenoid_2_powered: solenoid_2_bus_powered,
                ..*old(self)
            }),
    {
        self.is_solenoid_1_powered = solenoid_1_bus_powered;
        self.is_solenoid_2_powered = solenoid_2_bus_powered;
    }
}

/// RAT deployment: through a powered solenoid 1, the hydraulic panel RAT MAN
/// ON button deploys it; through a powered solenoid 2, either the emergency
/// electrical configuration or the EMER GEN RAT MAN ON button deploys it, each
/// on its own. Without a powered solenoid whose trigger is active, the RAT is
/// not deployed.
pub proof fn lemma_rat_deployment(
    c: A320RamAirTurbineController,
    panel: A320HydraulicOverheadPanel,
    rat_and_emer_gen_man_on_is_pressed: bool,
    is_in_emergency_elec: bool,
)
    ensures
        ({
            let after = c.spec_after_update(
                panel,
                rat_and_emer_gen_man_on_is_pressed,
                is_in_emergency_elec,
            );
            &&& c.is_solenoid_1_powered && panel.rat_man_on_is_pressed ==> after.should_deploy
            &&& c.is_solenoid_2_powered && rat_and_emer_gen_man_on_is_pressed ==> after.should_deploy
            &&& c.is_solenoid_2_powered && is_in_emergency_elec ==> after.should_deploy
            &&& !(c.is_solenoid_1_powered && panel.rat_man_on_is_pressed) && !(
            c.is_solenoid_2_powered && (rat_and_emer_gen_man_on_is_pressed
                || is_in_emergency_elec)) ==> !after.should_deploy
        }),
{
}

} // verus!
