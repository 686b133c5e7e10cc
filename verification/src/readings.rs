//! Plain snapshots of what the hydraulic control logic reads from the rest of
//! the aircraft: engines, landing gear control interface units, reservoirs and
//! the engine fire push buttons.
use vstd::prelude::*;

verus! {

/// What the hydraulic logic reads from one engine.
#[derive(Clone, Copy, Debug)]
pub struct EngineReadings {
    /// The engine oil pressure is below its low threshold.
    pub oil_pressure_is_low: bool,
    /// The engine runs above minimum idle.
    pub is_above_minimum_idle: bool,
}

/// What the hydraulic logic reads from one landing gear control interface unit.
///
/// The single gear flags are the readings taken without treating external power
/// as ground; `left_and_right_gear_compressed_ext_pwr_as_ground` is the combined
/// reading taken with external power treated as ground.
#[derive(Clone, Copy, Debug)]
pub struct LgciuReadings {
    pub left_gear_compressed: bool,
    pub right_gear_compressed: bool,
    pub nose_gear_compressed: bool,
    pub left_and_right_gear_compressed_ext_pwr_as_ground: bool,
    pub all_down_and_locked: bool,
}

/// What the hydraulic logic reads from one reservoir.
#[derive(Clone, Copy, Debug)]
pub struct ReservoirReadings {
    pub is_low_air_pressure: bool,
    pub is_low_level: bool,
}

/// State of the two engine fire push buttons (engine 1 and engine 2).
#[derive(Clone, Copy, Debug)]
pub struct FireButtonReadings {
    pub engine_1_released: bool,
    pub engine_2_released: bool,
}

/// The A320 has two engines, numbered 1 and 2.
pub open spec fn is_engine_number(number: usize) -> bool {
    number == 1 || number == 2
}

impl FireButtonReadings {
    pub open spec fn released(self, engine_number: usize) -> bool {
        if engine_number == 1 {
            self.engine_1_released
        } else {
            self.engine_2_released
        }
    }

    /// Whether the fire push button of the given engine is released.
    pub fn is_released(&self, engine_number: usize) -> (r: bool)
        requires
            is_engine_number(engine_number),
        ensures
            r == self.released(engine_number),
    {
        if engine_number == 1 {
            self.engine_1_released
        } else {
            self.engine_2_released
        }
    }
}

} // verus!
