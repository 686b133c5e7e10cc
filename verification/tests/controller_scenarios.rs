//! Controller scenarios of the A320 hydraulic system, step by step: each
//! `tick` powers the controllers from the bus states, reads the panel and
//! runs one core hydraulic step. Timed effects (cargo door operation, in-flight
//! timers, towing pin) are set as the outputs of their timers.
use a320_systems::autobrake::{AutobrakeInputs, AutobrakeMode, BrakePedalInputs};
use a320_systems::brakes::{
    A320HydraulicBrakeSteerComputerUnit, BrakeDemandSource, BrakingReadings,
};
use a320_systems::cargo_door::{
    DoorControlState, DoorOpenRequest, DoorReadings, DELAY_UNLOCK_TO_HYDRAULIC_CONTROL_NANOS,
};
use a320_systems::hydraulic::{A320HydraulicControllers, CoreHydraulicReadings, SimRateReadings};
use a320_systems::overhead::A320HydraulicOverheadPanel;
use a320_systems::readings::{
    EngineReadings, FireButtonReadings, LgciuReadings, ReservoirReadings,
};

const ONE_SECOND: u128 = 1_000_000_000;

fn engine_stopped() -> EngineReadings {
    EngineReadings { oil_pressure_is_low: true, is_above_minimum_idle: false }
}

fn engine_running() -> EngineReadings {
    EngineReadings { oil_pressure_is_low: false, is_above_minimum_idle: true }
}

fn gear(main_compressed: bool, nose_compressed: bool) -> LgciuReadings {
    LgciuReadings {
        left_gear_compressed: main_compressed,
        right_gear_compressed: main_compressed,
        nose_gear_compressed: nose_compressed,
        left_and_right_gear_compressed_ext_pwr_as_ground: main_compressed,
        all_down_and_locked: main_compressed,
    }
}

struct Buses {
    ac_1: bool,
    dc_2: bool,
    dc_ess: bool,
    dc_gnd_flt_service: bool,
    dc_hot_1: bool,
    dc_hot_2: bool,
}

struct TestBed {
    panel: A320HydraulicOverheadPanel,
    c: A320HydraulicControllers,
    r: CoreHydraulicReadings,
    buses: Buses,
    park_brake: bool,
    eng_1_master: bool,
    eng_2_master: bool,
}

impl TestBed {
    /// Cold and dark on the ground, engines off, parking brake set, every
    /// button in AUTO, every bus powered.
    fn cold_dark_on_ground() -> Self {
        let reservoir = ReservoirReadings { is_low_air_pressure: false, is_low_level: false };
        TestBed {
            panel: A320HydraulicOverheadPanel::new(),
            c: A320HydraulicControllers::new(),
            r: CoreHydraulicReadings {
                engine1: engine_stopped(),
                engine2: engine_stopped(),
                lgciu1: gear(true, true),
                lgciu2: gear(true, true),
                engine_fire_push_buttons: FireButtonReadings {
                    engine_1_released: false,
                    engine_2_released: false,
                },
                green_reservoir: reservoir,
                blue_reservoir: reservoir,
                yellow_reservoir: reservoir,
                green_pump_section_pressurised: false,
                yellow_pump_section_pressurised: false,
                blue_pump_section_pressurised: false,
                yellow_system_section_pressurised: false,
                nose_wheel_steering_pin_inserted: false,
                ptu_inhibited_after_cargo_door_operation: false,
                yellow_epump_running_after_cargo_door_operation: false,
            },
            buses: Buses {
                ac_1: true,
                dc_2: true,
                dc_ess: true,
                dc_gnd_flt_service: true,
                dc_hot_1: true,
                dc_hot_2: true,
            },
            park_brake: true,
            eng_1_master: false,
            eng_2_master: false,
        }
    }

    fn tick(mut self) -> Self {
        let b = &self.buses;
        self.c.engine_driven_pump_1_controller.receive_power(b.dc_ess);
        self.c.engine_driven_pump_2_controller.receive_power(b.dc_2 || b.dc_ess);
        self.c.blue_electric_pump_controller.receive_power(b.dc_ess);
        self.c.yellow_electric_pump_controller.receive_power(
            b.dc_2,
            self.r.yellow_epump_running_after_cargo_door_operation,
            b.dc_gnd_flt_service,
        );
        self.c.power_transfer_unit_controller.receive_power(b.dc_gnd_flt_service);
        self.c.ram_air_turbine_controller.receive_power(b.dc_hot_1, b.dc_hot_2);
        self.panel.receive_power(b.dc_ess, b.ac_1);

        self.c
            .power_transfer_unit_controller
            .read(self.park_brake, self.eng_1_master, self.eng_2_master);
        self.c.update_core_controllers(&self.panel, &self.r);
        self.panel.update(&self.c);
        self
    }

    fn start_eng1(mut self) -> Self {
        self.eng_1_master = true;
        self.r.engine1 = engine_running();
        self
    }

    fn start_eng2(mut self) -> Self {
        self.eng_2_master = true;
        self.r.engine2 = engine_running();
        self
    }

    fn stop_eng1(mut self) -> Self {
        self.eng_1_master = false;
        self.r.engine1 = engine_stopped();
        self
    }

    fn stop_eng2(mut self) -> Self {
        self.eng_2_master = false;
        self.r.engine2 = engine_stopped();
        self
    }

    /// Main gears compressed, nose gear lifted.
    fn rotates_on_runway(mut self) -> Self {
        self.r.lgciu1 = gear(true, false);
        self.r.lgciu2 = gear(true, false);
        self
    }

    fn set_park_brake(mut self, is_set: bool) -> Self {
        self.park_brake = is_set;
        self
    }

    fn set_ptu_state(mut self, is_auto: bool) -> Self {
        self.panel.ptu_is_auto = is_auto;
        self
    }

    fn set_yellow_e_pump(mut self, is_auto: bool) -> Self {
        self.panel.yellow_epump_is_auto = is_auto;
        self
    }

    fn set_green_ed_pump(mut self, is_auto: bool) -> Self {
        self.panel.edp1_is_auto = is_auto;
        self
    }

    fn set_yellow_ed_pump(mut self, is_auto: bool) -> Self {
        self.panel.edp2_is_auto = is_auto;
        self
    }

    fn set_eng1_fire_button(mut self, is_released: bool) -> Self {
        self.r.engine_fire_push_buttons.engine_1_released = is_released;
        self
    }

    fn set_eng2_fire_button(mut self, is_released: bool) -> Self {
        self.r.engine_fire_push_buttons.engine_2_released = is_released;
        self
    }

    /// A press of the momentary override button turns it on, the next one off.
    fn press_blue_epump_override_button_once(mut self) -> Self {
        self.panel.blue_epump_override_is_on = !self.panel.blue_epump_override_is_on;
        self
    }

    fn dc_ground_service_lost(mut self) -> Self {
        self.buses.dc_gnd_flt_service = false;
        self
    }

    fn dc_ground_service_avail(mut self) -> Self {
        self.buses.dc_gnd_flt_service = true;
        self
    }

    fn dc_bus_2_lost(mut self) -> Self {
        self.buses.dc_2 = false;
        self
    }

    fn dc_ess_lost(mut self) -> Self {
        self.buses.dc_ess = false;
        self
    }

    /// The towing pin is inserted during pushback, and for a while after.
    fn set_nose_wheel_steering_pin(mut self, inserted: bool) -> Self {
        self.r.nose_wheel_steering_pin_inserted = inserted;
        self
    }

    /// Output of the timer that inhibits the PTU after a cargo door operation.
    fn set_ptu_cargo_door_inhibit(mut self, active: bool) -> Self {
        self.r.ptu_inhibited_after_cargo_door_operation = active;
        self
    }

    fn is_ptu_enabled(&self) -> bool {
        self.c.power_transfer_unit_controller.should_enable()
    }

    fn is_blue_epump_controller_pressurising(&self) -> bool {
        self.c.blue_electric_pump_controller.should_pressurise()
    }

    fn is_yellow_epump_controller_pressurising(&self) -> bool {
        self.c.yellow_electric_pump_controller.should_pressurise()
    }

    fn is_edp1_green_pump_controller_pressurising(&self) -> bool {
        self.c.engine_driven_pump_1_controller.should_pressurise()
    }

    fn is_edp2_yellow_pump_controller_pressurising(&self) -> bool {
        self.c.engine_driven_pump_2_controller.should_pressurise()
    }

    /// Opens the forward cargo door and runs its controller for `nanos`.
    fn open_fwd_cargo_door_for(mut self, nanos: u128) -> Self {
        self.c.forward_cargo_door_controller.read(DoorOpenRequest {
            above_zero: true,
            above_half: true,
            below_full: false,
        });
        let door = DoorReadings {
            is_locked: false,
            position_above_90_percent: false,
            pressure_above_1000_psi: false,
        };
        let step: u128 = ONE_SECOND / 10;
        let mut elapsed: u128 = 0;
        while elapsed < nanos {
            self.c.forward_cargo_door_controller.update(step, &door);
            elapsed += step;
        }
        self
    }
}

fn test_bed() -> TestBed {
    TestBed::cold_dark_on_ground()
}

#[test]
fn ptu_inhibited_by_overhead_off_push_button() {
    let mut test_bed = test_bed().tick();

    // Enabled on cold start
    assert!(test_bed.is_ptu_enabled());

    // Ptu push button disables PTU accordingly
    test_bed = test_bed.set_ptu_state(false).tick();
    assert!(!test_bed.is_ptu_enabled());
    test_bed = test_bed.set_ptu_state(true).tick();
    assert!(test_bed.is_ptu_enabled());
}

#[test]
fn ptu_inhibited_on_ground_when_only_one_engine_on_and_park_brake_on() {
    let mut test_bed = test_bed().start_eng2().tick();

    assert!(!test_bed.is_ptu_enabled());

    test_bed = test_bed.set_park_brake(false).tick();
    assert!(test_bed.is_ptu_enabled());

    test_bed = test_bed.set_park_brake(true).tick();
    assert!(!test_bed.is_ptu_enabled());
}

#[test]
fn ptu_inhibited_on_ground_is_activated_when_center_gear_in_air() {
    let mut test_bed = test_bed().start_eng2().tick();

    assert!(!test_bed.is_ptu_enabled());

    test_bed = test_bed.rotates_on_runway().tick();
    assert!(test_bed.is_ptu_enabled());
}

#[test]
fn ptu_unpowered_cant_inhibit() {
    let mut test_bed = test_bed().tick();

    // Enabled on cold start
    assert!(test_bed.is_ptu_enabled());

    // Ptu push button disables PTU accordingly
    test_bed = test_bed.set_ptu_state(false).tick();
    assert!(!test_bed.is_ptu_enabled());

    // No power on closing valve : ptu become active
    test_bed = test_bed.dc_ground_service_lost().tick();
    assert!(test_bed.is_ptu_enabled());

    test_bed = test_bed.dc_ground_service_avail().tick();
    assert!(!test_bed.is_ptu_enabled());
}

#[test]
fn controller_blue_epump_activates_when_no_weight_on_center_wheel() {
    let mut test_bed = test_bed().tick();

    assert!(!test_bed.is_blue_epump_controller_pressurising());

    test_bed = test_bed.rotates_on_runway().tick();

    assert!(test_bed.is_blue_epump_controller_pressurising());
}

#[test]
fn controller_blue_epump_split_engine_states() {
    let mut test_bed = test_bed().tick();

    assert!(!test_bed.is_blue_epump_controller_pressurising());

    test_bed = test_bed.start_eng1().tick();

    assert!(test_bed.is_blue_epump_controller_pressurising());

    test_bed = test_bed.start_eng2().stop_eng1().tick();

    assert!(test_bed.is_blue_epump_controller_pressurising());
}

#[test]
fn controller_blue_epump_on_off_engines() {
    let mut test_bed = test_bed().start_eng1().start_eng2().tick();

    assert!(test_bed.is_blue_epump_controller_pressurising());

    test_bed = test_bed.stop_eng1().stop_eng2().tick();

    assert!(!test_bed.is_blue_epump_controller_pressurising());
}

#[test]
fn controller_blue_epump_override() {
    let mut test_bed = test_bed().press_blue_epump_override_button_once().tick();

    assert!(test_bed.is_blue_epump_controller_pressurising());

    test_bed = test_bed.press_blue_epump_override_button_once().tick();

    assert!(!test_bed.is_blue_epump_controller_pressurising());
}

#[test]
fn controller_blue_epump_override_without_power_shall_not_run_blue_pump() {
    let mut test_bed = test_bed().start_eng1().tick();

    assert!(test_bed.is_blue_epump_controller_pressurising());

    test_bed = test_bed.dc_ess_lost().tick();

    assert!(!test_bed.is_blue_epump_controller_pressurising());
}

#[test]
fn controller_yellow_epump_is_activated_by_overhead_button() {
    let mut test_bed = test_bed().tick();

    assert!(!test_bed.is_yellow_epump_controller_pressurising());

    test_bed = test_bed.set_yellow_e_pump(false).tick();

    assert!(test_bed.is_yellow_epump_controller_pressurising());

    test_bed = test_bed.set_yellow_e_pump(true).tick();

    assert!(!test_bed.is_yellow_epump_controller_pressurising());
}

#[test]
fn controller_yellow_epump_unpowered_cant_command_pump() {
    let mut test_bed = test_bed().set_yellow_e_pump(false).tick();

    assert!(test_bed.is_yellow_epump_controller_pressurising());

    test_bed = test_bed.dc_bus_2_lost().tick();

    assert!(!test_bed.is_yellow_epump_controller_pressurising());
}

#[test]
fn controller_yellow_epump_can_operate_from_cargo_door_without_main_control_power_bus() {
    let mut test_bed = test_bed().tick();

    // The door operation that starts the yellow pump timer is not requested.
    assert!(!test_bed.c.cargo_door_operation_requested());

    test_bed = test_bed
        .dc_ground_service_lost()
        .open_fwd_cargo_door_for(ONE_SECOND + DELAY_UNLOCK_TO_HYDRAULIC_CONTROL_NANOS);

    assert!(test_bed.c.cargo_door_operation_requested());
}

#[test]
fn controller_engine_driven_pump1_overhead_button_logic_with_eng_on() {
    let mut test_bed = test_bed().tick();

    assert!(test_bed.is_edp1_green_pump_controller_pressurising());

    test_bed = test_bed.start_eng1().tick();
    assert!(test_bed.is_edp1_green_pump_controller_pressurising());

    test_bed = test_bed.set_green_ed_pump(false).tick();
    assert!(!test_bed.is_edp1_green_pump_controller_pressurising());

    test_bed = test_bed.set_green_ed_pump(true).tick();
    assert!(test_bed.is_edp1_green_pump_controller_pressurising());
}

#[test]
fn controller_engine_driven_pump1_fire_overhead_released_stops_pump() {
    let mut test_bed = test_bed().start_eng1().start_eng2().tick();

    assert!(test_bed.is_edp1_green_pump_controller_pressurising());

    test_bed = test_bed.set_eng1_fire_button(true).tick();
    assert!(!test_bed.is_edp1_green_pump_controller_pressurising());
}

#[test]
fn controller_engine_driven_pump2_overhead_button_logic_with_eng_on() {
    let mut test_bed = test_bed().tick();

    assert!(test_bed.is_edp2_yellow_pump_controller_pressurising());

    test_bed = test_bed.start_eng2().tick();
    assert!(test_bed.is_edp2_yellow_pump_controller_pressurising());

    test_bed = test_bed.set_yellow_ed_pump(false).tick();
    assert!(!test_bed.is_edp2_yellow_pump_controller_pressurising());

    test_bed = test_bed.set_yellow_ed_pump(true).tick();
    assert!(test_bed.is_edp2_yellow_pump_controller_pressurising());
}

#[test]
fn controller_engine_driven_pump2_fire_overhead_released_stops_pump() {
    let mut test_bed = test_bed().start_eng1().start_eng2().tick();

    assert!(test_bed.is_edp2_yellow_pump_controller_pressurising());

    test_bed = test_bed.set_eng2_fire_button(true).tick();
    assert!(!test_bed.is_edp2_yellow_pump_controller_pressurising());
}

#[test]
fn controller_ptu_on_off_with_overhead_pushbutton() {
    let mut test_bed = test_bed().tick();

    assert!(test_bed.is_ptu_enabled());

    test_bed = test_bed.set_ptu_state(false).tick();

    assert!(!test_bed.is_ptu_enabled());

    test_bed = test_bed.set_ptu_state(true).tick();

    assert!(test_bed.is_ptu_enabled());
}

#[test]
fn controller_ptu_off_when_cargo_door_is_moved() {
    let mut test_bed = test_bed().tick();

    assert!(test_bed.is_ptu_enabled());

    test_bed = test_bed.open_fwd_cargo_door_for(ONE_SECOND + DELAY_UNLOCK_TO_HYDRAULIC_CONTROL_NANOS);
    let inhibit = test_bed.c.cargo_door_operation_requested();
    test_bed = test_bed.set_ptu_cargo_door_inhibit(inhibit).tick();

    assert!(!test_bed.is_ptu_enabled());

    // Once the inhibition timer has run out, the PTU is enabled again.
    test_bed = test_bed.set_ptu_cargo_door_inhibit(false).tick();

    assert!(test_bed.is_ptu_enabled());
}

#[test]
fn controller_ptu_disabled_when_tug_attached() {
    let mut test_bed = test_bed().tick();

    assert!(test_bed.is_ptu_enabled());

    test_bed = test_bed.start_eng1().set_park_brake(false).tick();

    assert!(test_bed.is_ptu_enabled());

    test_bed = test_bed.set_nose_wheel_steering_pin(true).tick();

    assert!(!test_bed.is_ptu_enabled());

    // The pin is removed some time after pushback ends.
    test_bed = test_bed.set_nose_wheel_steering_pin(false).tick();

    assert!(test_bed.is_ptu_enabled());
}

struct AutobrakeBed {
    bscu: A320HydraulicBrakeSteerComputerUnit,
    readings: BrakingReadings,
    lgciu: LgciuReadings,
    pedal: BrakePedalInputs,
    disarm_after_time_in_flight: bool,
    reject_max_mode_after_time_in_flight: bool,
    ground_spoilers_deployed: bool,
    governor_engaged: bool,
    retraction_delay_elapsed: bool,
}

impl AutobrakeBed {
    /// Green pressurised, anti-skid on, parking brake released.
    fn new(on_ground: bool) -> Self {
        let mut bscu = A320HydraulicBrakeSteerComputerUnit::new();
        bscu.read(false, on_ground, true);
        AutobrakeBed {
            bscu,
            readings: BrakingReadings {
                green_pressure_above_altn_hyst_hi: true,
                green_pressure_below_altn_hyst_lo: false,
                left_pilot_input_below_detection: true,
                right_pilot_input_below_detection: true,
                yellow_manual_braking_input: false,
                altn_left_pressure_below_park_emergency: false,
                altn_right_pressure_below_park_emergency: false,
            },
            lgciu: gear(on_ground, on_ground),
            pedal: BrakePedalInputs {
                left_above_11_percent: false,
                left_above_53_percent: false,
                left_above_77_percent: false,
                right_above_11_percent: false,
                right_above_53_percent: false,
                right_above_77_percent: false,
            },
            disarm_after_time_in_flight: false,
            reject_max_mode_after_time_in_flight: false,
            ground_spoilers_deployed: false,
            governor_engaged: false,
            retraction_delay_elapsed: false,
        }
    }

    /// One frame: the spoiler state and the armed mode are read back from the
    /// simulation, then the unit updates; the governor follows the command.
    fn tick(mut self, pressed_mode: Option<AutobrakeMode>) -> Self {
        let armed_mode = self.bscu.autobrake_controller.mode();
        self.bscu.autobrake_controller.read(self.ground_spoilers_deployed, false, armed_mode);
        let inputs = AutobrakeInputs {
            pressed_mode,
            pedal_input: self.pedal,
            deceleration_governor_is_engaged: self.governor_engaged,
            disarm_after_time_in_flight: self.disarm_after_time_in_flight,
            reject_max_mode_after_time_in_flight: self.reject_max_mode_after_time_in_flight,
        };
        let command = self.bscu.update(
            &self.readings,
            &self.lgciu,
            &self.lgciu,
            &inputs,
            self.retraction_delay_elapsed,
        );
        self.governor_engaged = command.engage_deceleration_governor;
        self
    }

    /// Pedal travel in percent on each side.
    fn set_brakes(mut self, left_percent: u32, right_percent: u32) -> Self {
        self.pedal = BrakePedalInputs {
            left_above_11_percent: left_percent > 11,
            left_above_53_percent: left_percent > 53,
            left_above_77_percent: left_percent > 77,
            right_above_11_percent: right_percent > 11,
            right_above_53_percent: right_percent > 53,
            right_above_77_percent: right_percent > 77,
        };
        self.readings.left_pilot_input_below_detection = left_percent <= 20;
        self.readings.right_pilot_input_below_detection = right_percent <= 20;
        self
    }

    fn set_spoilers(mut self, deployed: bool) -> Self {
        self.ground_spoilers_deployed = deployed;
        self
    }

    fn norm_demand(&self) -> BrakeDemandSource {
        self.bscu.norm_controller().demand()
    }

    fn alternate_demand(&self) -> BrakeDemandSource {
        self.bscu.alternate_controller().demand()
    }

    /// In flight for more than the 10 s timers: MAX rejected, the disarm
    /// pulse over.
    fn after_time_in_flight(mut self) -> Self {
        self.reject_max_mode_after_time_in_flight = true;
        self.disarm_after_time_in_flight = false;
        self
    }

    fn autobrake_mode(&self) -> AutobrakeMode {
        self.bscu.autobrake_controller.mode()
    }
}

#[test]
fn autobrakes_arms_in_flight_lo_or_med() {
    let mut test_bed = AutobrakeBed::new(false).after_time_in_flight().tick(None);

    assert!(test_bed.autobrake_mode() == AutobrakeMode::NONE);

    test_bed = test_bed.tick(Some(AutobrakeMode::LOW));

    assert!(test_bed.autobrake_mode() == AutobrakeMode::LOW);

    test_bed = test_bed.tick(Some(AutobrakeMode::MED));

    assert!(test_bed.autobrake_mode() == AutobrakeMode::MED);
}

#[test]
fn autobrakes_disarms_if_green_pressure_low() {
    let mut test_bed = AutobrakeBed::new(false).after_time_in_flight().tick(None);

    assert!(test_bed.autobrake_mode() == AutobrakeMode::NONE);

    test_bed = test_bed.tick(Some(AutobrakeMode::LOW));

    assert!(test_bed.autobrake_mode() == AutobrakeMode::LOW);

    // PTU off and engine 1 stopped: green pressure falls below the low threshold.
    test_bed.readings.green_pressure_above_altn_hyst_hi = false;
    test_bed.readings.green_pressure_below_altn_hyst_lo = true;
    test_bed = test_bed.tick(None);

    assert!(test_bed.autobrake_mode() == AutobrakeMode::NONE);
}

#[test]
fn autobrakes_disarms_if_askid_off() {
    let mut test_bed = AutobrakeBed::new(false).after_time_in_flight().tick(None);

    assert!(test_bed.autobrake_mode() == AutobrakeMode::NONE);

    test_bed = test_bed.tick(Some(AutobrakeMode::MED));

    assert!(test_bed.autobrake_mode() == AutobrakeMode::MED);

    test_bed.bscu.read(false, false, false);
    test_bed = test_bed.tick(None);

    assert!(test_bed.autobrake_mode() == AutobrakeMode::NONE);
}

#[test]
fn autobrakes_max_wont_arm_in_flight() {
    let mut test_bed = AutobrakeBed::new(false).after_time_in_flight().tick(None);

    assert!(test_bed.autobrake_mode() == AutobrakeMode::NONE);

    test_bed = test_bed.tick(Some(AutobrakeMode::MAX));

    assert!(test_bed.autobrake_mode() == AutobrakeMode::NONE);
}

#[test]
fn autobrakes_taxiing_wont_disarm_when_braking() {
    let mut test_bed = AutobrakeBed::new(true).tick(None);

    test_bed = test_bed.tick(Some(AutobrakeMode::MAX));

    assert!(test_bed.autobrake_mode() == AutobrakeMode::MAX);

    // Both pedals fully pressed.
    test_bed.pedal = BrakePedalInputs {
        left_above_11_percent: true,
        left_above_53_percent: true,
        left_above_77_percent: true,
        right_above_11_percent: true,
        right_above_53_percent: true,
        right_above_77_percent: true,
    };
    test_bed.readings.left_pilot_input_below_detection = false;
    test_bed.readings.right_pilot_input_below_detection = false;
    test_bed = test_bed.tick(None);

    assert!(test_bed.autobrake_mode() == AutobrakeMode::MAX);
}

#[test]
fn autobrakes_max_disarm_after_10s_in_flight() {
    let mut test_bed = AutobrakeBed::new(true).tick(None);

    test_bed = test_bed.tick(Some(AutobrakeMode::MAX));

    assert!(test_bed.autobrake_mode() == AutobrakeMode::MAX);

    // Six seconds in flight: the timers have not run out.
    test_bed.lgciu = gear(false, false);
    test_bed = test_bed.tick(None);

    assert!(test_bed.autobrake_mode() == AutobrakeMode::MAX);

    // Ten seconds in flight: the disarm pulse.
    test_bed.disarm_after_time_in_flight = true;
    test_bed.reject_max_mode_after_time_in_flight = true;
    test_bed = test_bed.tick(None);

    assert!(test_bed.autobrake_mode() == AutobrakeMode::NONE);
}

impl TestBed {
    /// The starter turns the engine at a few percent N2: master on, oil
    /// pressure still low.
    fn crank_eng1(mut self) -> Self {
        self.eng_1_master = true;
        self.r.engine1 = engine_stopped();
        self
    }

    fn in_flight(mut self) -> Self {
        self.r.lgciu1 = gear(false, false);
        self.r.lgciu2 = gear(false, false);
        self
    }

    fn set_green_pump_section_pressurised(mut self, pressurised: bool) -> Self {
        self.r.green_pump_section_pressurised = pressurised;
        self
    }

    fn set_yellow_pump_section_pressurised(mut self, pressurised: bool) -> Self {
        self.r.yellow_pump_section_pressurised = pressurised;
        self
    }

    fn set_blue_pump_section_pressurised(mut self, pressurised: bool) -> Self {
        self.r.blue_pump_section_pressurised = pressurised;
        self
    }

    fn air_press_low(mut self) -> Self {
        self.r.green_reservoir.is_low_air_pressure = true;
        self.r.blue_reservoir.is_low_air_pressure = true;
        self.r.yellow_reservoir.is_low_air_pressure = true;
        self
    }

    fn dc_ess_active(mut self) -> Self {
        self.buses.dc_ess = true;
        self
    }

    fn ac_bus_1_lost(mut self) -> Self {
        self.buses.ac_1 = false;
        self
    }

    fn blue_epump_override_is_on(&self) -> bool {
        self.panel.blue_epump_override_push_button_is_on()
    }

    /// One simulation frame of `step_nanos` with no door request, no
    /// braking, and the given electrical emergency state.
    fn sim_tick(mut self, step_nanos: u128, is_in_emergency_elec: bool) -> Self {
        let door = DoorReadings {
            is_locked: true,
            position_above_90_percent: false,
            pressure_above_1000_psi: false,
        };
        let readings = SimRateReadings {
            braking: BrakingReadings {
                green_pressure_above_altn_hyst_hi: false,
                green_pressure_below_altn_hyst_lo: true,
                left_pilot_input_below_detection: true,
                right_pilot_input_below_detection: true,
                yellow_manual_braking_input: false,
                altn_left_pressure_below_park_emergency: false,
                altn_right_pressure_below_park_emergency: false,
            },
            lgciu1: self.r.lgciu1,
            lgciu2: self.r.lgciu2,
            autobrake: AutobrakeInputs {
                pressed_mode: None,
                pedal_input: BrakePedalInputs {
                    left_above_11_percent: false,
                    left_above_53_percent: false,
                    left_above_77_percent: false,
                    right_above_11_percent: false,
                    right_above_53_percent: false,
                    right_above_77_percent: false,
                },
                deceleration_governor_is_engaged: false,
                disarm_after_time_in_flight: false,
                reject_max_mode_after_time_in_flight: false,
            },
            autobrake_disabled_after_retraction: false,
            rat_and_emer_gen_man_on_is_pressed: false,
            is_in_emergency_elec,
            delta_nanos: step_nanos,
            forward_cargo_door: door,
            aft_cargo_door: door,
        };
        assert!(self.c.can_advance_doors_by(&readings));
        self.c.update_sim_rate_controllers(&self.panel, &readings);
        self
    }

    fn rat_deploy_commanded(&self) -> bool {
        self.c.ram_air_turbine_controller.should_deploy()
    }

    fn is_cargo_fwd_door_controller_locked_down(&self) -> bool {
        self.c.forward_cargo_door_controller.control_state == DoorControlState::DownLocked
            && self.c.forward_cargo_door_controller.should_lock()
    }
}

#[test]
fn green_edp_fault_on_ground_eng_starting() {
    let mut test_bed = test_bed().tick();

    // EDP is commanded on even without engine running, and has no fault.
    assert!(test_bed.is_edp1_green_pump_controller_pressurising());
    assert!(!test_bed.c.green_edp_has_fault());

    // Engine 1 at 3 % N2.
    test_bed = test_bed.crank_eng1().tick();

    assert!(!test_bed.c.green_edp_has_fault());

    // Engine 1 at 80 % N2, green not yet pressurised.
    test_bed = test_bed.start_eng1().tick();

    assert!(test_bed.c.green_edp_has_fault());

    // Once pressurised, no fault.
    test_bed = test_bed.set_green_pump_section_pressurised(true).tick();

    assert!(!test_bed.c.green_edp_has_fault());
}

#[test]
fn blue_epump_fault_on_ground_using_override() {
    let mut test_bed = test_bed().tick();

    assert!(!test_bed.c.blue_epump_has_fault());

    // A press of the override button: pressed for one frame, released the next.
    test_bed = test_bed.press_blue_epump_override_button_once().tick().tick();
    assert!(test_bed.blue_epump_override_is_on());

    // The override bypasses the engines-off fault inhibit.
    assert!(test_bed.c.blue_epump_has_fault());

    // Once pressurised, no fault.
    test_bed = test_bed.set_blue_pump_section_pressurised(true).tick();

    assert!(!test_bed.c.blue_epump_has_fault());
}

#[test]
fn blue_epump_override_switches_to_off_when_losing_relay_power_and_stays_off() {
    let mut test_bed = test_bed().tick();

    test_bed = test_bed
        .press_blue_epump_override_button_once()
        .tick()
        .tick()
        .set_blue_pump_section_pressurised(true)
        .tick();
    assert!(test_bed.blue_epump_override_is_on());
    assert!(test_bed.is_blue_epump_controller_pressurising());

    // Losing the bus of the override latching relay switches it off.
    test_bed = test_bed.dc_ess_lost().tick();
    assert!(!test_bed.blue_epump_override_is_on());

    // It stays off when the bus comes back.
    test_bed = test_bed.dc_ess_active().tick();
    assert!(!test_bed.blue_epump_override_is_on());

    assert!(!test_bed.is_blue_epump_controller_pressurising());
}

#[test]
fn low_air_press_fault_causes_ptu_fault() {
    let mut test_bed = test_bed()
        .start_eng1()
        .start_eng2()
        .set_green_pump_section_pressurised(true)
        .set_yellow_pump_section_pressurised(true)
        .tick();

    assert!(!test_bed.c.ptu_has_fault());
    assert!(!test_bed.c.green_edp_has_fault());
    assert!(!test_bed.c.yellow_edp_has_fault());

    test_bed = test_bed.air_press_low().tick();

    assert!(test_bed.c.green_edp_has_fault());
    assert!(test_bed.c.yellow_edp_has_fault());
    assert!(test_bed.c.ptu_has_fault());
}

#[test]
fn rat_does_not_deploy_on_ground_at_eng_off() {
    let mut test_bed = test_bed()
        .start_eng1()
        .start_eng2()
        .tick()
        .sim_tick(ONE_SECOND, false);

    assert!(!test_bed.rat_deploy_commanded());

    // Both AC buses lost on the ground: the electrical system does not enter
    // its emergency configuration, and the RAT MAN ON button is released.
    test_bed = test_bed.ac_bus_1_lost().tick().sim_tick(ONE_SECOND, false);

    assert!(!test_bed.rat_deploy_commanded());
}

#[test]
fn rat_deploys_on_both_ac_lost() {
    let mut test_bed = test_bed()
        .in_flight()
        .start_eng1()
        .start_eng2()
        .tick()
        .sim_tick(ONE_SECOND, false);

    assert!(!test_bed.rat_deploy_commanded());

    // AC bus 1 lost only: no emergency electrical configuration.
    test_bed = test_bed.ac_bus_1_lost().tick().sim_tick(ONE_SECOND, false);

    assert!(!test_bed.rat_deploy_commanded());

    // All AC lost in flight: emergency electrical configuration.
    test_bed = test_bed.tick().sim_tick(ONE_SECOND, true);

    assert!(test_bed.rat_deploy_commanded());
}

#[test]
fn cargo_door_stays_closed_at_init() {
    let mut test_bed = test_bed().tick().sim_tick(ONE_SECOND / 10, false);

    assert!(test_bed.is_cargo_fwd_door_controller_locked_down());

    let mut elapsed: u128 = 0;
    while elapsed < 15 * ONE_SECOND {
        test_bed = test_bed.sim_tick(ONE_SECOND / 10, false);
        elapsed += ONE_SECOND / 10;
    }

    assert!(test_bed.is_cargo_fwd_door_controller_locked_down());
}

#[test]
fn cargo_door_unlocks_when_commanded() {
    let mut test_bed = test_bed().tick().sim_tick(ONE_SECOND / 10, false);

    assert!(test_bed.is_cargo_fwd_door_controller_locked_down());

    test_bed = test_bed.sim_tick(ONE_SECOND, false);

    assert!(test_bed.is_cargo_fwd_door_controller_locked_down());

    test_bed = test_bed.open_fwd_cargo_door_for(ONE_SECOND);

    assert!(!test_bed.is_cargo_fwd_door_controller_locked_down());
    assert!(!test_bed.c.forward_cargo_door_controller.should_lock());
}

/// Ground, engines running, parking brake released: autobrake can arm.
fn autobrake_bed_ready_on_ground() -> AutobrakeBed {
    AutobrakeBed::new(true).tick(None)
}

#[test]
fn autobrakes_disengage_on_spoiler_retract() {
    let mut test_bed = autobrake_bed_ready_on_ground();

    test_bed = test_bed.tick(Some(AutobrakeMode::MAX));

    assert!(test_bed.autobrake_mode() == AutobrakeMode::MAX);

    test_bed = test_bed.set_spoilers(true).tick(None).tick(None);

    assert!(test_bed.autobrake_mode() == AutobrakeMode::MAX);
    assert!(test_bed.governor_engaged);

    test_bed = test_bed.set_spoilers(false).tick(None);

    assert!(test_bed.autobrake_mode() == AutobrakeMode::NONE);
    assert!(!test_bed.governor_engaged);
}

#[test]
fn autobrakes_max_disengage_at_77_on_one_pedal_input() {
    let mut test_bed = autobrake_bed_ready_on_ground();

    test_bed = test_bed.tick(Some(AutobrakeMode::MAX));

    assert!(test_bed.autobrake_mode() == AutobrakeMode::MAX);

    test_bed = test_bed.set_spoilers(true).tick(None).tick(None);

    assert!(test_bed.autobrake_mode() == AutobrakeMode::MAX);
    assert!(test_bed.governor_engaged);
    assert!(test_bed.norm_demand() == BrakeDemandSource::PilotOrAutobrake);

    test_bed = test_bed.set_brakes(70, 0).tick(None).set_brakes(0, 0).tick(None);

    assert!(test_bed.autobrake_mode() == AutobrakeMode::MAX);
    assert!(test_bed.governor_engaged);

    test_bed = test_bed.set_brakes(78, 0).tick(None).set_brakes(0, 0).tick(None);

    assert!(test_bed.autobrake_mode() == AutobrakeMode::NONE);
    assert!(!test_bed.governor_engaged);
}

#[test]
fn autobrakes_med_disengage_at_11_on_both_pedal_input() {
    let mut test_bed = autobrake_bed_ready_on_ground();

    test_bed = test_bed.tick(Some(AutobrakeMode::MED));

    assert!(test_bed.autobrake_mode() == AutobrakeMode::MED);

    test_bed = test_bed.set_spoilers(true).tick(None).tick(None);

    assert!(test_bed.autobrake_mode() == AutobrakeMode::MED);
    assert!(test_bed.governor_engaged);

    test_bed = test_bed.set_brakes(0, 15).tick(None).set_brakes(0, 0).tick(None);

    assert!(test_bed.autobrake_mode() == AutobrakeMode::MED);
    assert!(test_bed.governor_engaged);

    test_bed = test_bed.set_brakes(15, 15).tick(None).set_brakes(0, 0).tick(None);

    assert!(test_bed.autobrake_mode() == AutobrakeMode::NONE);
    assert!(!test_bed.governor_engaged);
}

#[test]
fn brakes_inactive_in_flight() {
    // In flight with the gear up for longer than the retraction delay.
    let mut test_bed = AutobrakeBed::new(false);
    test_bed.retraction_delay_elapsed = true;
    test_bed = test_bed.set_brakes(0, 0).tick(None);

    assert!(test_bed.norm_demand() == BrakeDemandSource::NoDemand);
    assert!(test_bed.alternate_demand() == BrakeDemandSource::NoDemand);

    // Full pedals: still no action on the brakes.
    test_bed = test_bed.set_brakes(100, 100).tick(None);

    assert!(test_bed.norm_demand() == BrakeDemandSource::NoDemand);
    assert!(test_bed.alternate_demand() == BrakeDemandSource::NoDemand);
}

#[test]
fn brake_logic_green_backup_emergency() {
    let mut test_bed = AutobrakeBed::new(true);
    // Parking brake set, gear down, anti-skid on.
    test_bed.bscu.read(true, true, true);
    test_bed = test_bed.tick(None);

    // Braking with the parking brake on: yellow holds, no green braking.
    test_bed = test_bed.set_brakes(100, 100).tick(None);

    assert!(test_bed.norm_demand() == BrakeDemandSource::NoDemand);
    assert!(test_bed.alternate_demand() == BrakeDemandSource::Full);

    // The yellow accumulator is empty: green brakes as emergency backup.
    test_bed.readings.altn_left_pressure_below_park_emergency = true;
    test_bed.readings.altn_right_pressure_below_park_emergency = true;
    test_bed = test_bed.set_brakes(100, 100).tick(None);

    assert!(test_bed.norm_demand() == BrakeDemandSource::Pilot);
}
