//! Skill, status and effect simulation core of a tick-based combat game.
//!
//! The crate turns completed skill casts into durable world effects
//! (timed status modifiers, autonomous projectiles and area triggers),
//! evolves those effects tick by tick, and drives two autonomous-entity
//! controllers (a falcon companion and a turret sentinel) from the same
//! simulation state.
//!
//! All quantities are fixed-point integers: simulation time is counted in
//! milliseconds, world coordinates and distances in milli-units
//! (1000 milli-units = 1 world unit), and interpolation factors in permille.

pub mod attr;
pub mod chars;
pub mod context;
pub mod falcon;
pub mod geom;
pub mod manifest;
pub mod registry;
pub mod skills;
pub mod status;
pub mod status_engine;
pub mod time;
pub mod turret;
