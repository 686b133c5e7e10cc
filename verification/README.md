# a320_systems

Control logic of the A320 hydraulic system, verified with Verus.

## Layout

- `src/` — the verified library:
  - `readings.rs`: what the controllers read from engines, landing gear
    control interface units, reservoirs and the engine fire push buttons;
  - `overhead.rs`: the hydraulic overhead panel (button positions, fault
    lights, the blue pump override);
  - `pump_control.rs`: engine driven pump, blue and yellow electric pump and
    fire shutoff valve controllers;
  - `ptu.rs`, `rat.rs`: power transfer unit and ram air turbine controllers;
  - `cargo_door.rs`: the cargo door control state machine;
  - `autobrake.rs`: autobrake arming, disarming and deceleration target;
  - `brakes.rs`: normal/alternate brake selection, demands and pressure
    limits, nose wheel steering availability;
  - `hydraulic.rs`: all controllers together, the two update steps (core
    hydraulics and simulation frame), faults, PTU memo and sound.
- `tests/` — tests of the library.
- `app/` — the simulation side: pumps, circuits, brakes, doors and actuators
  from the `systems` crate, `uom` quantities, and the floating point parts
  (pressures, ratios, steering angles, braking force) that feed the library.

## Conventions

Floating point quantities stay outside the library: where a controller
compares a pressure, a ratio or a position with a threshold, it receives the
result of that comparison as a named boolean (for example
`green_pressure_above_altn_hyst_hi`), and brake demands are returned as the
source of the demand (`BrakeDemandSource`). Durations are counted in
nanoseconds, as `std::time::Duration` counts them. Delays that the `systems`
crate times (logic gates, deceleration governor) are handed to the library as
their outputs.
