//! The scene state the controllers act on, and its startup shape.

use vstd::prelude::*;
use crate::fov::{change_fov, fov_updated};
use crate::input::InputSnapshot;
use crate::locomotion::{
    locomotion_frame, player_movement, FrameEffects, MAX_FRAME_MICROS,
    MAX_SPEED_HALF_UNITS, POSITION_LIMIT_MICRO,
};
use crate::math::{HALF_PI_MICRORAD, MOUSE_DELTA_LIMIT};
use crate::orientation::{move_camera, orientation_frame};
use crate::player::{
    CameraSensitivity, Player, Vec3Micro, ViewModelCamera, WorldModelCamera,
    BASE_SPEED_HALF_UNITS,
};

verus! {

/// Field of view the world-model camera starts with, in whole degrees.
pub const STARTUP_WORLD_FOV_DEGREES: i32 = 90;

/// Field of view the view-model camera keeps, in whole degrees.
pub const STARTUP_VIEW_FOV_DEGREES: i32 = 70;

/// Render partition of the scene itself.
pub const WORLD_LAYER: u32 = 0;

/// Render partition of the first-person foreground.
pub const VIEW_MODEL_LAYER: u32 = 1;

/// One object placed by the spawn handler: a fixed-size, fixed-material box
/// that keeps no tie to the player once created.
#[derive(Clone, Copy, PartialEq, Eq, Structural, Debug)]
pub struct SpawnedObject {
    /// Where the box was placed: the player's position at the time.
    pub position: Vec3Micro,
}

/// Everything the controllers read or write: the player (with its child
/// cameras), the objects spawned so far, and how many there have been.
///
/// An absent player is a valid, inert state: every controller then leaves
/// the world untouched.
#[derive(Clone, PartialEq, Eq, Debug)]
pub struct World {
    /// The single controllable entity, if it has been spawned.
    pub player: Option<Player>,
    /// The objects the spawn handler has placed, oldest first.
    pub spawned: Vec<SpawnedObject>,
    /// How many objects have been spawned over the session; grows by one
    /// with each spawn and never shrinks.
    pub spawn_count: u64,
}

impl World {
    /// Well-formedness: whenever a player is present, it is well-formed.
    pub open spec fn wf(self) -> bool {
        self.player matches Some(p) ==> p.wf()
    }

    /// A world before startup: no player, nothing spawned.
    pub fn new() -> (w: World)
        ensures
            w.player is None,
            w.spawned@ =~= Seq::<SpawnedObject>::empty(),
            w.spawn_count == 0,
            w.wf(),
    {
        World { player: None, spawned: Vec::new(), spawn_count: 0 }
    }
}

/// The player entity as startup creates it: standing one unit above the
/// origin looking straight down at it, stock sensitivity, the speed
/// accumulator at its floor, the world camera at 90 degrees on the scene
/// layer and the view-model camera at 70 degrees drawing after it on the
/// foreground layer.
pub open spec fn startup_player() -> Player {
    Player {
        position: Vec3Micro { x: 0, y: 1_000_000, z: 0 },
        yaw: 0,
        pitch: (-HALF_PI_MICRORAD) as i64,
        roll: 0,
        sensitivity: CameraSensitivity { yaw_gain: 3000, pitch_gain: 2000 },
        speed_half_units: BASE_SPEED_HALF_UNITS,
        world_camera: WorldModelCamera {
            fov_degrees: STARTUP_WORLD_FOV_DEGREES,
            draw_order: 0,
            layer: WORLD_LAYER,
        },
        view_camera: ViewModelCamera {
            fov_degrees: STARTUP_VIEW_FOV_DEGREES,
            draw_order: 1,
            layer: VIEW_MODEL_LAYER,
        },
    }
}

/// Puts the player and its two child cameras into the world, as the
/// startup pass does. Anything already spawned stays as it is.
pub fn spawn_view_model(w: &mut World)
    ensures
        final(w).player == Some(startup_player()),
        final(w).spawned == old(w).spawned,
        final(w).spawn_count == old(w).spawn_count,
        final(w).wf(),
{
    w.player = Some(Player {
        position: Vec3Micro { x: 0, y: 1_000_000, z: 0 },
        yaw: 0,
        pitch: -HALF_PI_MICRORAD,
        roll: 0,
        sensitivity: CameraSensitivity::default(),
        speed_half_units: BASE_SPEED_HALF_UNITS,
        world_camera: WorldModelCamera {
            fov_degrees: STARTUP_WORLD_FOV_DEGREES,
            draw_order: 0,
            layer: WORLD_LAYER,
        },
        view_camera: ViewModelCamera {
            fov_degrees: STARTUP_VIEW_FOV_DEGREES,
            draw_order: 1,
            layer: VIEW_MODEL_LAYER,
        },
    });
}

/// One whole frame of the three per-frame controllers, in their fixed
/// order: orientation, then field of view, then locomotion. Nothing
/// spawned changes; without a player nothing at all changes and the host
/// is asked for nothing.
pub open spec fn frame_advances(
    w0: World,
    w1: World,
    input: InputSnapshot,
    dt_micros: int,
    e: FrameEffects,
) -> bool {
    &&& w1.spawned == w0.spawned
    &&& w1.spawn_count == w0.spawn_count
    &&& match w0.player {
        None => w1 == w0 && e == FrameEffects::none_spec(),
        Some(p0) => w1.player matches Some(p3) && exists|pa: Player|
            #[trigger] orientation_frame(
                p0,
                pa,
                input.mouse_delta_x as int,
                input.mouse_delta_y as int,
            ) && exists|pb: Player|
            #[trigger] fov_updated(pa, pb, input.arrow_up_pressed, input.arrow_down_pressed)
                && locomotion_frame(pb, p3, input, dt_micros, e),
    }
}

/// One frame of the whole core, as the host loop calls it: the three
/// per-frame controllers in their fixed order, handing back what they ask
/// of the host. The spawn handler is not part of this: it runs on its own
/// events.
pub fn update_frame(w: &mut World, input: &InputSnapshot, dt_micros: u64) -> (e: FrameEffects)
    requires
        old(w).wf(),
        -MOUSE_DELTA_LIMIT <= input.mouse_delta_x <= MOUSE_DELTA_LIMIT,
        -MOUSE_DELTA_LIMIT <= input.mouse_delta_y <= MOUSE_DELTA_LIMIT,
        dt_micros <= MAX_FRAME_MICROS,
        old(w).player matches Some(p) ==> {
            &&& p.speed_half_units + 12 <= MAX_SPEED_HALF_UNITS
            &&& -POSITION_LIMIT_MICRO <= p.position.x <= POSITION_LIMIT_MICRO
            &&& -POSITION_LIMIT_MICRO <= p.position.y <= POSITION_LIMIT_MICRO
            &&& -POSITION_LIMIT_MICRO <= p.position.z <= POSITION_LIMIT_MICRO
        },
    ensures
        final(w).wf(),
        frame_advances(*old(w), *final(w), *input, dt_micros as int, e),
{
    let ghost w0 = *w;
    move_camera(w, input.mouse_delta_x, input.mouse_delta_y);
    let ghost wa = *w;
    change_fov(w, input.arrow_up_pressed, input.arrow_down_pressed);
    let ghost wb = *w;
    let e: FrameEffects = player_movement(w, input, dt_micros);
    proof {
        if w0.player is Some {
            let pa = wa.player.unwrap();
            let pb = wb.player.unwrap();
            assert(orientation_frame(
                w0.player.unwrap(),
                pa,
                input.mouse_delta_x as int,
                input.mouse_delta_y as int,
            ));
            assert(fov_updated(pa, pb, input.arrow_up_pressed, input.arrow_down_pressed)
                && locomotion_frame(pb, w.player.unwrap(), *input, dt_micros as int, e));
        }
    }
    e
}

} // verus!
