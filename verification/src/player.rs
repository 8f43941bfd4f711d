//! The player entity and its two child cameras.

use vstd::prelude::*;
use crate::math::{
    HALF_PI_MICRORAD, PI_MICRORAD, SENSITIVITY_LIMIT,
};

verus! {

/// Narrowest field of view the world camera may reach, in whole degrees.
pub const FOV_MIN_DEGREES: i32 = 20;

/// Widest field of view the world camera may reach, in whole degrees.
pub const FOV_MAX_DEGREES: i32 = 160;

/// How far one frame of a held adjustment key moves the field of view.
pub const FOV_STEP_DEGREES: i32 = 1;

/// The shared speed accumulator's floor: half a unit per second, kept in
/// half-units so the value is the integer 1.
pub const BASE_SPEED_HALF_UNITS: u64 = 1;

/// A point or translation in micro-units (one millionth of a world unit).
#[derive(Clone, Copy, PartialEq, Eq, Structural, Debug)]
pub struct Vec3Micro {
    pub x: i64,
    pub y: i64,
    pub z: i64,
}

/// Mouse gain per axis, in microradians of rotation per device count.
#[derive(Clone, Copy, PartialEq, Eq, Structural, Debug)]
pub struct CameraSensitivity {
    /// Gain applied to horizontal motion, turning it into yaw.
    pub yaw_gain: i64,
    /// Gain applied to vertical motion, turning it into pitch.
    pub pitch_gain: i64,
}

impl CameraSensitivity {
    /// Both gains are nonnegative and small enough that a frame's mouse
    /// motion times a gain fits comfortably in a machine word.
    pub open spec fn wf(self) -> bool {
        &&& 0 <= self.yaw_gain <= SENSITIVITY_LIMIT
        &&& 0 <= self.pitch_gain <= SENSITIVITY_LIMIT
    }
}

impl Default for CameraSensitivity {
    /// The stock gains: 0.003 radians per count of yaw and 0.002 radians
    /// per count of pitch.
    fn default() -> (s: CameraSensitivity)
        ensures
            s == (CameraSensitivity { yaw_gain: 3000, pitch_gain: 2000 }),
            s.wf(),
    {
        CameraSensitivity { yaw_gain: 3000, pitch_gain: 2000 }
    }
}

/// The world-model camera: the perspective view of the scene itself, the
/// one whose field of view the player may adjust.
#[derive(Clone, Copy, PartialEq, Eq, Structural, Debug)]
pub struct WorldModelCamera {
    /// Field of view in whole degrees; the host converts to radians.
    pub fov_degrees: i32,
    /// Position in the host's draw order; lower draws first.
    pub draw_order: u32,
    /// Render partition this camera draws; the scene's own layer.
    pub layer: u32,
}

impl WorldModelCamera {
    pub open spec fn wf(self) -> bool {
        FOV_MIN_DEGREES <= self.fov_degrees <= FOV_MAX_DEGREES
    }
}

/// The view-model camera: a fixed second camera compositing the
/// first-person foreground layer over the world camera's output.
#[derive(Clone, Copy, PartialEq, Eq, Structural, Debug)]
pub struct ViewModelCamera {
    /// Field of view in whole degrees; never adjusted after startup.
    pub fov_degrees: i32,
    /// Position in the host's draw order; lower draws first.
    pub draw_order: u32,
    /// Render partition this camera draws; the foreground layer.
    pub layer: u32,
}

/// The single controllable entity: position, orientation, input gains, the
/// shared locomotion speed accumulator, and the two child cameras that live
/// and die with it.
#[derive(Clone, Copy, PartialEq, Eq, Structural, Debug)]
pub struct Player {
    /// Where the player stands, in micro-units.
    pub position: Vec3Micro,
    /// Rotation about the world up-axis, applied first; principal range
    /// `[-PI_MICRORAD, PI_MICRORAD)`, in microradians.
    pub yaw: i64,
    /// Rotation about the local right-axis, applied second; microradians.
    pub pitch: i64,
    /// Rotation about the local forward-axis, applied last; microradians.
    /// The controllers never change it.
    pub roll: i64,
    /// Mouse gain per axis.
    pub sensitivity: CameraSensitivity,
    /// The shared charge-up speed accumulator, in half-units per second.
    pub speed_half_units: u64,
    /// Child camera rendering the scene.
    pub world_camera: WorldModelCamera,
    /// Child camera rendering the foreground layer on top.
    pub view_camera: ViewModelCamera,
}

impl Player {
    /// Well-formedness: angles in their principal ranges, gains bounded,
    /// the accumulator at or above its floor, the world camera's field of
    /// view in bounds, and the two cameras on distinct layers with the
    /// view-model camera drawing after the world-model camera.
    pub open spec fn wf(self) -> bool {
        &&& -PI_MICRORAD <= self.yaw < PI_MICRORAD
        &&& -HALF_PI_MICRORAD <= self.pitch <= HALF_PI_MICRORAD
        &&& -PI_MICRORAD <= self.roll <= PI_MICRORAD
        &&& self.sensitivity.wf()
        &&& self.speed_half_units >= BASE_SPEED_HALF_UNITS
        &&& self.world_camera.wf()
        &&& self.view_camera.layer != self.world_camera.layer
        &&& self.view_camera.draw_order > self.world_camera.draw_order
    }
}

} // verus!
