//! The orientation controller: accumulated mouse motion becomes rotation.
//!
//! The player's rotation is kept decomposed as yaw about the world
//! up-axis, then pitch about the local right-axis, then roll about the
//! local forward-axis. A frame's mouse motion, scaled by the per-axis
//! sensitivity gains and negated, is added to yaw and pitch; yaw is free
//! and wraps through the principal range as the underlying rotation
//! representation would, pitch is clamped short of straight up and
//! straight down, and roll is never touched.
//!
//! A frame with no mouse motion changes nothing at all.

use vstd::prelude::*;
use vstd::arithmetic::div_mod::lemma_mod_bound;
use crate::math::{
    clamp_pitch, clamp_spec, wrap_angle, wrap_angle_spec, MOUSE_DELTA_LIMIT,
    PI_MICRORAD, PITCH_LIMIT_MICRORAD, SENSITIVITY_LIMIT, TAU_MICRORAD,
};
use crate::player::Player;
use crate::world::World;

verus! {

/// The whole frame's effect on the player: yaw turned against the
/// horizontal motion and wrapped, pitch turned against the vertical motion
/// and clamped, everything else untouched.
pub open spec fn orientation_updated(
    p0: Player,
    p1: Player,
    delta_x: int,
    delta_y: int,
) -> bool {
    &&& p1.yaw == wrap_angle_spec(p0.yaw - delta_x * p0.sensitivity.yaw_gain)
    &&& p1.pitch == clamp_spec(
        p0.pitch - delta_y * p0.sensitivity.pitch_gain,
        -PITCH_LIMIT_MICRORAD as int,
        PITCH_LIMIT_MICRORAD as int,
    )
    &&& p1.roll == p0.roll
    &&& p1.position == p0.position
    &&& p1.sensitivity == p0.sensitivity
    &&& p1.speed_half_units == p0.speed_half_units
    &&& p1.world_camera == p0.world_camera
    &&& p1.view_camera == p0.view_camera
}

/// A whole frame of the controller as seen from the player: a frame with
/// no mouse motion at all changes nothing — recomputing with a zero delta
/// would land on the same rotation anyway, save that an out-of-range
/// starting pitch would be pulled in, so the skip is the exact behaviour —
/// and any other frame turns the player as `orientation_updated` says.
pub open spec fn orientation_frame(
    p0: Player,
    p1: Player,
    delta_x: int,
    delta_y: int,
) -> bool {
    if delta_x == 0 && delta_y == 0 {
        p1 == p0
    } else {
        orientation_updated(p0, p1, delta_x, delta_y)
    }
}

/// One frame of the orientation controller.
///
/// Without a player, or with no mouse motion at all, the world is left
/// exactly as it stands. Otherwise the player turns as
/// `orientation_updated` says, and in particular comes out with its pitch
/// inside the clamped range whatever the motion was.
pub fn move_camera(w: &mut World, mouse_delta_x: i64, mouse_delta_y: i64)
    requires
        old(w).wf(),
        -MOUSE_DELTA_LIMIT <= mouse_delta_x <= MOUSE_DELTA_LIMIT,
        -MOUSE_DELTA_LIMIT <= mouse_delta_y <= MOUSE_DELTA_LIMIT,
    ensures
        final(w).wf(),
        final(w).spawned == old(w).spawned,
        final(w).spawn_count == old(w).spawn_count,
        old(w).player is None ==> *final(w) == *old(w),
        mouse_delta_x == 0 && mouse_delta_y == 0 ==> *final(w) == *old(w),
        old(w).player matches Some(p0) ==> (final(w).player matches Some(p1)
            && orientation_frame(p0, p1, mouse_delta_x as int, mouse_delta_y as int)),
        old(w).player matches Some(p0) ==> !(mouse_delta_x == 0 && mouse_delta_y == 0)
            ==> (final(w).player matches Some(p1) && {
            &&& orientation_updated(p0, p1, mouse_delta_x as int, mouse_delta_y as int)
            &&& -PITCH_LIMIT_MICRORAD <= p1.pitch <= PITCH_LIMIT_MICRORAD
        }),
{
    let p0: Player = match w.player {
        Some(p) => p,
        None => {
            return ;
        },
    };
    if mouse_delta_x == 0 && mouse_delta_y == 0 {
        return ;
    }

    assert(-100_000_000_000_000 <= mouse_delta_x * p0.sensitivity.yaw_gain
        <= 100_000_000_000_000) by (nonlinear_arith)
        requires
            -MOUSE_DELTA_LIMIT <= mouse_delta_x <= MOUSE_DELTA_LIMIT,
            0 <= p0.sensitivity.yaw_gain <= SENSITIVITY_LIMIT,
    ;
    assert(-100_000_000_000_000 <= mouse_delta_y * p0.sensitivity.pitch_gain
        <= 100_000_000_000_000) by (nonlinear_arith)
        requires
            -MOUSE_DELTA_LIMIT <= mouse_delta_y <= MOUSE_DELTA_LIMIT,
            0 <= p0.sensitivity.pitch_gain <= SENSITIVITY_LIMIT,
    ;
    let yaw_turn: i64 = mouse_delta_x * p0.sensitivity.yaw_gain;
    let pitch_turn: i64 = mouse_delta_y * p0.sensitivity.pitch_gain;
    let new_yaw: i64 = wrap_angle(p0.yaw - yaw_turn);
    let new_pitch: i64 = clamp_pitch(p0.pitch - pitch_turn);

    w.player = Some(Player {
        position: p0.position,
        yaw: new_yaw,
        pitch: new_pitch,
        roll: p0.roll,
        sensitivity: p0.sensitivity,
        speed_half_units: p0.speed_half_units,
        world_camera: p0.world_camera,
        view_camera: p0.view_camera,
    });
}

/// Law: however far the mouse moved, a turned player comes out with its
/// pitch inside the clamped range and its yaw in the principal range.
pub proof fn lemma_rotation_bounded(p0: Player, p1: Player, delta_x: int, delta_y: int)
    requires
        orientation_updated(p0, p1, delta_x, delta_y),
    ensures
        -PITCH_LIMIT_MICRORAD <= p1.pitch <= PITCH_LIMIT_MICRORAD,
        -PI_MICRORAD <= p1.yaw < PI_MICRORAD,
{
    lemma_mod_bound(
        p0.yaw - delta_x * p0.sensitivity.yaw_gain + PI_MICRORAD,
        TAU_MICRORAD as int,
    );
}

} // verus!
