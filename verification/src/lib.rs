//! Core of a first-person scene viewer.
//!
//! A single player entity carries a position, a yaw/pitch/roll orientation
//! and two child cameras (a world-model camera with an adjustable field of
//! view, and a fixed view-model camera drawn on top of it). Once per frame a
//! host loop hands the controllers here an input snapshot and the elapsed
//! time, and they produce the next player state:
//!
//! * the orientation controller maps accumulated mouse motion to a new
//!   yaw/pitch, clamping pitch short of the poles;
//! * the field-of-view controller steps the world camera's angle within
//!   fixed bounds;
//! * the locomotion controller maps held direction keys to a translation,
//!   driving a shared charge-up speed accumulator;
//! * the spawn handler places a new object at the player's position on each
//!   click event.
//!
//! All state is kept in exact integer units (micro-units of distance,
//! microradians of angle, whole degrees of field of view, half-units of
//! speed), so every rule is stated and proved exactly. The host converts to
//! whatever representation its renderer wants.

pub mod fov;
pub mod input;
pub mod locomotion;
pub mod spawn;
pub mod math;
pub mod orientation;
pub mod player;
pub mod world;
