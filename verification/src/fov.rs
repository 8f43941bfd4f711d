//! The field-of-view controller: two held keys step the world camera.
//!
//! The binding is deliberately inverted: the arrow-up key narrows the view
//! and the arrow-down key widens it. Each held key moves the angle one
//! degree a frame — by design a per-frame step, not scaled by frame time —
//! and each key's step is clamped at its own bound, narrowing never below
//! the floor and widening never above the ceiling. Both keys held in one
//! frame apply both steps in that order.
//!
//! The cameras are the player's children, so an absent player means an
//! absent world camera and the controller leaves everything untouched.
//! The world camera's projection is perspective by construction — its
//! state is the angle itself — so the malformed-projection abort a host
//! with a looser camera type would need has nothing to check here.

use vstd::prelude::*;
use crate::player::{
    Player, WorldModelCamera, FOV_MAX_DEGREES, FOV_MIN_DEGREES, FOV_STEP_DEGREES,
};
use crate::world::World;

verus! {

/// The field of view after one frame: narrowed one step by the arrow-up
/// key but never below the floor, then widened one step by the arrow-down
/// key but never above the ceiling.
pub open spec fn fov_after_spec(fov: int, arrow_up: bool, arrow_down: bool) -> int {
    let narrowed = if arrow_up {
        if fov - FOV_STEP_DEGREES < FOV_MIN_DEGREES {
            FOV_MIN_DEGREES as int
        } else {
            fov - FOV_STEP_DEGREES
        }
    } else {
        fov
    };
    if arrow_down {
        if narrowed + FOV_STEP_DEGREES > FOV_MAX_DEGREES {
            FOV_MAX_DEGREES as int
        } else {
            narrowed + FOV_STEP_DEGREES
        }
    } else {
        narrowed
    }
}

/// The whole frame's effect on the player: the world camera's field of
/// view stepped within bounds, everything else untouched.
pub open spec fn fov_updated(p0: Player, p1: Player, arrow_up: bool, arrow_down: bool) -> bool {
    &&& p1.world_camera == (WorldModelCamera {
        fov_degrees: fov_after_spec(
            p0.world_camera.fov_degrees as int,
            arrow_up,
            arrow_down,
        ) as i32,
        draw_order: p0.world_camera.draw_order,
        layer: p0.world_camera.layer,
    })
    &&& p1.position == p0.position
    &&& p1.yaw == p0.yaw
    &&& p1.pitch == p0.pitch
    &&& p1.roll == p0.roll
    &&& p1.sensitivity == p0.sensitivity
    &&& p1.speed_half_units == p0.speed_half_units
    &&& p1.view_camera == p0.view_camera
}

/// One frame of the field-of-view controller.
///
/// Without a player (and so without the world camera it owns) the world is
/// left exactly as it stands. Otherwise the field of view steps as
/// `fov_after_spec` says and in particular never leaves its bounds.
pub fn change_fov(w: &mut World, arrow_up_pressed: bool, arrow_down_pressed: bool)
    requires
        old(w).wf(),
    ensures
        final(w).wf(),
        final(w).spawned == old(w).spawned,
        final(w).spawn_count == old(w).spawn_count,
        old(w).player is None ==> *final(w) == *old(w),
        old(w).player matches Some(p0) ==> (final(w).player matches Some(p1) && {
            &&& fov_updated(p0, p1, arrow_up_pressed, arrow_down_pressed)
            &&& FOV_MIN_DEGREES <= p1.world_camera.fov_degrees <= FOV_MAX_DEGREES
        }),
{
    let p0: Player = match w.player {
        Some(p) => p,
        None => {
            return ;
        },
    };
    let mut fov: i32 = p0.world_camera.fov_degrees;
    if arrow_up_pressed {
        fov = fov - FOV_STEP_DEGREES;
        if fov < FOV_MIN_DEGREES {
            fov = FOV_MIN_DEGREES;
        }
    }
    if arrow_down_pressed {
        fov = fov + FOV_STEP_DEGREES;
        if fov > FOV_MAX_DEGREES {
            fov = FOV_MAX_DEGREES;
        }
    }
    w.player = Some(Player {
        position: p0.position,
        yaw: p0.yaw,
        pitch: p0.pitch,
        roll: p0.roll,
        sensitivity: p0.sensitivity,
        speed_half_units: p0.speed_half_units,
        world_camera: WorldModelCamera {
            fov_degrees: fov,
            draw_order: p0.world_camera.draw_order,
            layer: p0.world_camera.layer,
        },
        view_camera: p0.view_camera,
    });
}

/// Law: a field of view inside its bounds stays inside them, whatever
/// combination of the two keys a frame holds.
pub proof fn lemma_fov_stays_bounded(fov: int, arrow_up: bool, arrow_down: bool)
    requires
        FOV_MIN_DEGREES <= fov <= FOV_MAX_DEGREES,
    ensures
        FOV_MIN_DEGREES <= fov_after_spec(fov, arrow_up, arrow_down) <= FOV_MAX_DEGREES,
{
}

/// Law: holding both keys in one frame leaves the field of view where it
/// was, anywhere strictly above the floor — the narrowing step and the
/// widening step cancel, each clamped on its own.
pub proof fn lemma_fov_both_keys_cancel(fov: int)
    requires
        FOV_MIN_DEGREES < fov <= FOV_MAX_DEGREES,
    ensures
        fov_after_spec(fov, true, true) == fov,
{
}

} // verus!
