//! The core of a small real-time 3D viewer, in integers throughout.
//!
//! Two subsystems make up the crate. The first keeps the books of a graphics
//! context: which shader and program objects are alive, which program is
//! bound, which viewport and clear colour were applied, and which operations
//! are queued for the driver. The second is an orbiting target camera that
//! integrates movement, rotation and zoom input over time.
//!
//! Every quantity is a fixed-point integer. Angles are microradians, factors
//! and orbit distances carry six decimal places ([`units::UNIT`] is one
//! whole), and world coordinates carry twelve, so that a distance times a
//! direction, and a velocity times a time step in microseconds, are exact
//! products.
//!
//! Axis convention: the world is right-handed with `+z` up. Yaw turns about
//! `z`, measured from `+y` towards `+x`; pitch is the polar angle from `+z`.

pub mod units;
pub mod trig;
pub mod camera;
pub mod render_gl;
pub mod events;
pub mod viewer;
