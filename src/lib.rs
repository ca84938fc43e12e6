//! Movement and collision core of a 2D platformer.
//!
//! - `tiles` and `merger`: a level's solid tiles, and their compaction into
//!   few rectangle colliders by a greedy cover, each rectangle a largest one
//!   inside the tiles still uncovered.
//! - `contact`, `motion`: the per-tick contact state machine of a kinematic
//!   body (ground, ceiling, walls, velocity clamps) and the integrator that
//!   moves it by one swept cast along its velocity.
//! - `kinematic`: the axis-separated integrator, which moves along x before
//!   y and reads slopes and ledges as well.
//! - `control`, `timers`: walking, jumping with coyote time and a cooldown,
//!   gravity and its immunity window after a jump.
//! - `sprite`, `layers`: hitboxes measured from sprite data, and the
//!   collider layers that casts see.
//!
//! All quantities are integers. Lengths are in sub-units, `contact::UNIT` of
//! them to a world unit; velocities in sub-units per second; durations in
//! microseconds. Casts go to a `contact::CastProvider`, the spatial query of
//! whatever physics world the body lives in.
pub mod contact;
pub mod control;
pub mod kinematic;
pub mod layers;
pub mod merger;
pub mod motion;
pub mod sprite;
pub mod tiles;
pub mod timers;
