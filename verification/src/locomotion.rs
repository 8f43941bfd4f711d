//! The locomotion controller: held direction keys become a translation.
//!
//! Six keys span the three axes. Every frame, each held key adds its unit
//! contribution to a direction vector and one whole unit per second to the
//! shared charge-up speed accumulator; the frame a key finishes being held,
//! the accumulator falls back to its half-unit floor, whatever else is
//! still down. The direction vector is normalised (a zero vector moves
//! nothing) and scaled by the accumulator and the frame time.
//!
//! Normalisation is exact over the model: a component is -1, 0 or 1, so the
//! vector's length is the square root of the number of active axes, and the
//! scale factor is a parts-per-million inverse square root constant.
//!
//! The controller also reports the two out-of-band requests the same keys
//! carry: the immediate-exit key, which preempts the whole frame, and the
//! cursor-grab button edge.

use vstd::prelude::*;
use vstd::arithmetic::div_mod::{
    lemma_div_by_self, lemma_div_is_ordered, lemma_div_multiples_vanish,
};
use crate::input::InputSnapshot;
use crate::player::{Player, Vec3Micro, BASE_SPEED_HALF_UNITS};
use crate::world::World;

verus! {

/// Largest accumulator value a frame accepts, in half-units (a million
/// units per second); only there so that a step's arithmetic fits the
/// machine words.
pub const MAX_SPEED_HALF_UNITS: u64 = 2_000_000;

/// Longest frame time accepted, in microseconds (four seconds).
pub const MAX_FRAME_MICROS: u64 = 4_000_000;

/// Positions the controller accepts, per axis, in micro-units; far beyond
/// any scene, and only there so that one more step cannot overflow.
pub const POSITION_LIMIT_MICRO: i64 = 4_000_000_000_000_000_000;

/// 1 / sqrt(1), in parts per million.
pub const INV_SQRT_1_PPM: u64 = 1_000_000;

/// 1 / sqrt(2), in parts per million (nearest integer).
pub const INV_SQRT_2_PPM: u64 = 707_107;

/// 1 / sqrt(3), in parts per million (nearest integer).
pub const INV_SQRT_3_PPM: u64 = 577_350;

/// Divisor folding the half-unit speed scale and the parts-per-million
/// normalisation scale into micro-units: 2 * 10^6.
pub const STEP_DIVISOR: u64 = 2_000_000;

/// What the controller asks of the host besides the state change.
#[derive(Clone, Copy, PartialEq, Eq, Structural, Debug)]
pub struct FrameEffects {
    /// Terminate the process at once, with no shutdown path.
    pub quit: bool,
    /// Hide the cursor and lock it to the window centre.
    pub grab_cursor: bool,
}

impl FrameEffects {
    /// A frame asking nothing of the host.
    pub open spec fn none_spec() -> FrameEffects {
        FrameEffects { quit: false, grab_cursor: false }
    }
}

/// The accumulator after one frame of `input`: back to the floor if some
/// direction key finished being held, otherwise charged by one unit
/// (two half-units) per held direction key.
pub open spec fn next_speed_spec(speed: int, input: InputSnapshot) -> int {
    if input.any_direction_release() {
        BASE_SPEED_HALF_UNITS as int
    } else {
        speed + 2 * input.held_direction_keys()
    }
}

/// The inverse square root of the number of active axes, in parts per
/// million; zero axes mean a zero direction vector and no movement at all.
pub open spec fn inv_sqrt_ppm_spec(axes: int) -> int {
    if axes == 1 {
        INV_SQRT_1_PPM as int
    } else if axes == 2 {
        INV_SQRT_2_PPM as int
    } else if axes == 3 {
        INV_SQRT_3_PPM as int
    } else {
        0
    }
}

/// How far a frame moves the player along each active axis, in
/// micro-units: speed (half-units per second) times frame time
/// (microseconds) times the normalisation factor (parts per million),
/// brought back to micro-units.
pub open spec fn step_magnitude_spec(speed: int, dt_micros: int, axes: int) -> int {
    (speed * dt_micros * inv_sqrt_ppm_spec(axes)) / (STEP_DIVISOR as int)
}

/// A frame's movement along one axis: the step magnitude, signed by the
/// axis's direction component.
pub open spec fn axis_step_spec(dir: int, magnitude: int) -> int {
    if dir == 1 {
        magnitude
    } else if dir == -1 {
        -magnitude
    } else {
        0
    }
}

/// The whole frame's effect on the player: the accumulator charged or
/// reset, the position advanced along the held directions, everything else
/// untouched.
pub open spec fn locomotion_updated(
    p0: Player,
    p1: Player,
    input: InputSnapshot,
    dt_micros: int,
) -> bool {
    let speed = next_speed_spec(p0.speed_half_units as int, input);
    let mag = step_magnitude_spec(speed, dt_micros, input.active_axes());
    &&& p1.speed_half_units == speed
    &&& p1.position.x == p0.position.x + axis_step_spec(input.dir_x(), mag)
    &&& p1.position.y == p0.position.y + axis_step_spec(input.dir_y(), mag)
    &&& p1.position.z == p0.position.z + axis_step_spec(input.dir_z(), mag)
    &&& p1.yaw == p0.yaw
    &&& p1.pitch == p0.pitch
    &&& p1.roll == p0.roll
    &&& p1.sensitivity == p0.sensitivity
    &&& p1.world_camera == p0.world_camera
    &&& p1.view_camera == p0.view_camera
}

/// A whole frame of the controller as seen from the player: the exit key
/// preempts everything, leaving the player as it stands and asking the
/// host to terminate; any other frame moves the player as
/// `locomotion_updated` says and passes the grab button edge through.
pub open spec fn locomotion_frame(
    p0: Player,
    p1: Player,
    input: InputSnapshot,
    dt_micros: int,
    e: FrameEffects,
) -> bool {
    if input.quit_pressed {
        &&& p1 == p0
        &&& e == (FrameEffects { quit: true, grab_cursor: false })
    } else {
        &&& locomotion_updated(p0, p1, input, dt_micros)
        &&& e == (FrameEffects { quit: false, grab_cursor: input.grab_just_pressed })
    }
}

/// The shared accumulator after one frame of `input`: reset to the floor
/// by a finished key, otherwise charged by each held key.
#[verifier::rlimit(60)]
fn charge_speed(speed0: u64, input: &InputSnapshot) -> (s: u64)
    requires
        BASE_SPEED_HALF_UNITS <= speed0,
        speed0 + 12 <= MAX_SPEED_HALF_UNITS,
    ensures
        s == next_speed_spec(speed0 as int, *input),
        BASE_SPEED_HALF_UNITS <= s <= MAX_SPEED_HALF_UNITS,
{
    let released: bool = (input.forward.just_released && !input.forward.pressed)
        || (input.back.just_released && !input.back.pressed)
        || (input.left.just_released && !input.left.pressed)
        || (input.right.just_released && !input.right.pressed)
        || (input.rise.just_released && !input.rise.pressed)
        || (input.descend.just_released && !input.descend.pressed);
    if released {
        BASE_SPEED_HALF_UNITS
    } else {
        let held: u64 = (if input.forward.pressed { 1u64 } else { 0u64 })
            + (if input.back.pressed { 1u64 } else { 0u64 })
            + (if input.left.pressed { 1u64 } else { 0u64 })
            + (if input.right.pressed { 1u64 } else { 0u64 })
            + (if input.rise.pressed { 1u64 } else { 0u64 })
            + (if input.descend.pressed { 1u64 } else { 0u64 });
        speed0 + 2 * held
    }
}

/// The direction vector of the held keys: one component per axis, each the
/// difference of its two keys, so always -1, 0 or 1.
fn direction_vector(input: &InputSnapshot) -> (d: (i64, i64, i64))
    ensures
        d.0 == input.dir_x(),
        d.1 == input.dir_y(),
        d.2 == input.dir_z(),
{
    let dir_x: i64 = (if input.right.pressed { 1i64 } else { 0i64 })
        - (if input.left.pressed { 1i64 } else { 0i64 });
    let dir_y: i64 = (if input.rise.pressed { 1i64 } else { 0i64 })
        - (if input.descend.pressed { 1i64 } else { 0i64 });
    let dir_z: i64 = (if input.back.pressed { 1i64 } else { 0i64 })
        - (if input.forward.pressed { 1i64 } else { 0i64 });
    (dir_x, dir_y, dir_z)
}

/// How far the frame moves the player along each active axis, in
/// micro-units.
fn step_length(speed: u64, dt_micros: u64, axes: u64) -> (m: u64)
    requires
        speed <= MAX_SPEED_HALF_UNITS,
        dt_micros <= MAX_FRAME_MICROS,
        axes <= 3,
    ensures
        m == step_magnitude_spec(speed as int, dt_micros as int, axes as int),
        m <= 4_000_000_000_000,
{
    let inv_sqrt: u64 = if axes == 1 {
        INV_SQRT_1_PPM
    } else if axes == 2 {
        INV_SQRT_2_PPM
    } else if axes == 3 {
        INV_SQRT_3_PPM
    } else {
        0u64
    };
    assert(speed * dt_micros <= 8_000_000_000_000) by (nonlinear_arith)
        requires
            speed <= MAX_SPEED_HALF_UNITS,
            dt_micros <= MAX_FRAME_MICROS,
    ;
    let scaled: u64 = speed * dt_micros;
    assert(scaled * inv_sqrt <= 8_000_000_000_000_000_000) by (nonlinear_arith)
        requires
            scaled <= 8_000_000_000_000,
            inv_sqrt <= 1_000_000,
    ;
    let spread: u64 = scaled * inv_sqrt;
    let magnitude: u64 = spread / STEP_DIVISOR;
    proof {
        lemma_div_is_ordered(
            spread as int,
            8_000_000_000_000_000_000,
            STEP_DIVISOR as int,
        );
        lemma_div_multiples_vanish(4_000_000_000_000, STEP_DIVISOR as int);
    }
    magnitude
}

/// One axis of the translation: the position advanced by the step, signed
/// by the axis's direction component.
fn apply_axis_step(pos: i64, dir: i64, step_len: u64) -> (r: i64)
    requires
        -POSITION_LIMIT_MICRO <= pos <= POSITION_LIMIT_MICRO,
        -1 <= dir <= 1,
        step_len <= 4_000_000_000_000,
    ensures
        r == pos + axis_step_spec(dir as int, step_len as int),
{
    if dir == 1 {
        pos + (step_len as i64)
    } else if dir == -1 {
        pos - (step_len as i64)
    } else {
        pos
    }
}

/// One frame of the locomotion controller.
///
/// Without a player the whole frame is a silent no-op, the exit key and
/// grab button included. With one, the exit key preempts everything: the
/// world is left as it stands and the host is asked to terminate at once.
/// Otherwise the accumulator and position advance as `locomotion_updated`
/// says, and the grab button edge is passed through to the host.
pub fn player_movement(w: &mut World, input: &InputSnapshot, dt_micros: u64) -> (e: FrameEffects)
    requires
        old(w).wf(),
        dt_micros <= MAX_FRAME_MICROS,
        old(w).player matches Some(p) ==> {
            &&& p.speed_half_units + 12 <= MAX_SPEED_HALF_UNITS
            &&& -POSITION_LIMIT_MICRO <= p.position.x <= POSITION_LIMIT_MICRO
            &&& -POSITION_LIMIT_MICRO <= p.position.y <= POSITION_LIMIT_MICRO
            &&& -POSITION_LIMIT_MICRO <= p.position.z <= POSITION_LIMIT_MICRO
        },
    ensures
        final(w).wf(),
        final(w).spawned == old(w).spawned,
        final(w).spawn_count == old(w).spawn_count,
        old(w).player is None ==> *final(w) == *old(w) && e == FrameEffects::none_spec(),
        old(w).player matches Some(p0) ==> (final(w).player matches Some(p1)
            && locomotion_frame(p0, p1, *input, dt_micros as int, e)),
        input.quit_pressed ==> *final(w) == *old(w),
{
    let p0: Player = match w.player {
        Some(p) => p,
        None => {
            return FrameEffects { quit: false, grab_cursor: false };
        },
    };
    if input.quit_pressed {
        return FrameEffects { quit: true, grab_cursor: false };
    }

    let speed: u64 = charge_speed(p0.speed_half_units, input);
    let dir: (i64, i64, i64) = direction_vector(input);
    let axes: u64 = (if dir.0 != 0 { 1u64 } else { 0u64 })
        + (if dir.1 != 0 { 1u64 } else { 0u64 })
        + (if dir.2 != 0 { 1u64 } else { 0u64 });
    assert(axes == input.active_axes());
    let step_len: u64 = step_length(speed, dt_micros, axes);
    let new_x: i64 = apply_axis_step(p0.position.x, dir.0, step_len);
    let new_y: i64 = apply_axis_step(p0.position.y, dir.1, step_len);
    let new_z: i64 = apply_axis_step(p0.position.z, dir.2, step_len);

    w.player = Some(Player {
        position: Vec3Micro { x: new_x, y: new_y, z: new_z },
        yaw: p0.yaw,
        pitch: p0.pitch,
        roll: p0.roll,
        sensitivity: p0.sensitivity,
        speed_half_units: speed,
        world_camera: p0.world_camera,
        view_camera: p0.view_camera,
    });
    FrameEffects { quit: false, grab_cursor: input.grab_just_pressed }
}

/// Law: the frame a direction key finishes being held, the shared
/// accumulator is exactly its half-unit floor again, whatever other keys
/// are still down that frame.
pub proof fn lemma_release_resets_speed(speed: int, input: InputSnapshot)
    requires
        input.any_direction_release(),
    ensures
        next_speed_spec(speed, input) == BASE_SPEED_HALF_UNITS,
{
}

/// A frame that holds the forward key alone and touches nothing else.
pub open spec fn forward_only_input() -> InputSnapshot {
    InputSnapshot {
        forward: crate::input::KeyState { pressed: true, just_released: false },
        ..InputSnapshot::idle_spec()
    }
}

/// The accumulator after `n` frames of holding only the forward key,
/// starting from `s0` half-units: two half-units more per frame.
pub open spec fn forward_hold_speed(s0: int, n: nat) -> int {
    s0 + 2 * n
}

/// The player's depth coordinate after `n` frames of holding only the
/// forward key at a fixed frame time, starting from `z0` micro-units with
/// the accumulator at `s0` half-units: each frame first charges the
/// accumulator, then steps toward negative z by the single-axis magnitude.
pub open spec fn forward_hold_z(z0: int, s0: int, dt_micros: int, n: nat) -> int
    decreases n,
{
    if n == 0 {
        z0
    } else {
        forward_hold_z(z0, s0, dt_micros, (n - 1) as nat)
            - step_magnitude_spec(forward_hold_speed(s0, n), dt_micros, 1)
    }
}

/// One forward-only frame of the controller carries a forward-hold run
/// from its `n`th state to its `n+1`st: the accumulator charges by one
/// unit and the player steps along negative z, the other axes untouched.
pub proof fn lemma_forward_frame_advances_run(
    p0: Player,
    p1: Player,
    s0: int,
    z0: int,
    dt_micros: int,
    n: nat,
)
    requires
        locomotion_updated(p0, p1, forward_only_input(), dt_micros),
        p0.speed_half_units == forward_hold_speed(s0, n),
        p0.position.z == forward_hold_z(z0, s0, dt_micros, n),
    ensures
        p1.speed_half_units == forward_hold_speed(s0, (n + 1) as nat),
        p1.position.z == forward_hold_z(z0, s0, dt_micros, (n + 1) as nat),
        p1.position.x == p0.position.x,
        p1.position.y == p0.position.y,
{
    let input = forward_only_input();
    assert(!input.any_direction_release());
    assert(input.held_direction_keys() == 1);
    assert(input.dir_x() == 0 && input.dir_y() == 0 && input.dir_z() == -1);
    assert(input.active_axes() == 1);
    assert(next_speed_spec(p0.speed_half_units as int, input)
        == p0.speed_half_units + 2);
    assert(forward_hold_z(z0, s0, dt_micros, (n + 1) as nat)
        == forward_hold_z(z0, s0, dt_micros, n)
            - step_magnitude_spec(forward_hold_speed(s0, (n + 1) as nat), dt_micros, 1));
}

/// Law: holding only the forward key charges the accumulator by exactly
/// one unit a frame and drives the depth coordinate strictly down every
/// frame — by at least a micro-unit a frame, so `n` frames sink the player
/// at least `n` micro-units.
pub proof fn lemma_forward_hold_descends(z0: int, s0: int, dt_micros: int, n: nat)
    requires
        s0 >= 1,
        dt_micros >= 1,
        n >= 1,
    ensures
        forward_hold_speed(s0, n) == s0 + 2 * n,
        forward_hold_z(z0, s0, dt_micros, n)
            < forward_hold_z(z0, s0, dt_micros, (n - 1) as nat),
        forward_hold_z(z0, s0, dt_micros, n) <= z0 - n,
    decreases n,
{
    let s = forward_hold_speed(s0, n);
    assert(s >= 3);
    assert(s * dt_micros >= 3) by (nonlinear_arith)
        requires
            s >= 3,
            dt_micros >= 1,
    ;
    assert(s * dt_micros * 1_000_000 >= 2_000_000);
    lemma_div_is_ordered(2_000_000, s * dt_micros * 1_000_000, 2_000_000);
    lemma_div_by_self(2_000_000);
    assert(step_magnitude_spec(s, dt_micros, 1) >= 1);
    if n > 1 {
        lemma_forward_hold_descends(z0, s0, dt_micros, (n - 1) as nat);
    }
}

} // verus!
