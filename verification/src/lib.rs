//! Control logic of the A320 hydraulic system: pump, PTU and RAT controllers,
//! the overhead panel, brake and autobrake decisions, and the cargo door
//! controllers.
pub mod readings;
pub mod overhead;
pub mod pump_control;
pub mod ptu;
pub mod rat;
pub mod hydraulic;
pub mod cargo_door;
pub mod autobrake;
pub mod brakes;
