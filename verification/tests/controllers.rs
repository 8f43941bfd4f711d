//! The three per-frame controllers, each on exact integer expectations.

use first_person_core::fov::change_fov;
use first_person_core::input::{InputSnapshot, KeyState};
use first_person_core::locomotion::player_movement;
use first_person_core::orientation::move_camera;
use first_person_core::player::{
    CameraSensitivity, Player, Vec3Micro, ViewModelCamera, WorldModelCamera,
};
use first_person_core::world::World;

fn test_player() -> Player {
    Player {
        position: Vec3Micro { x: 0, y: 0, z: 0 },
        yaw: 0,
        pitch: 0,
        roll: 0,
        sensitivity: CameraSensitivity { yaw_gain: 3000, pitch_gain: 2000 },
        speed_half_units: 1,
        world_camera: WorldModelCamera { fov_degrees: 90, draw_order: 0, layer: 0 },
        view_camera: ViewModelCamera { fov_degrees: 70, draw_order: 1, layer: 1 },
    }
}

fn test_world(player: Player) -> World {
    World { player: Some(player), spawned: Vec::new(), spawn_count: 0 }
}

fn held() -> KeyState {
    KeyState { pressed: true, just_released: false }
}

fn finished() -> KeyState {
    KeyState { pressed: false, just_released: true }
}

#[test]
fn example_mouse_motion_turns_yaw() {
    // 100 counts right at a yaw gain of 0.003 rad per count turn the view
    // 0.3 rad (300 000 microradians) the other way.
    let mut w = test_world(test_player());
    move_camera(&mut w, 100, 0);
    let p = w.player.unwrap();
    assert_eq!(p.yaw, -300_000);
    assert_eq!(p.pitch, 0);
    assert_eq!(p.roll, 0);
}

#[test]
fn zero_mouse_delta_changes_nothing() {
    let mut p = test_player();
    p.yaw = 123_456;
    p.pitch = -78_910;
    let mut w = test_world(p);
    let before = w.clone();
    move_camera(&mut w, 0, 0);
    assert_eq!(w, before);
}

#[test]
fn pitch_clamps_short_of_straight_down() {
    let mut w = test_world(test_player());
    move_camera(&mut w, 0, 100_000_000);
    assert_eq!(w.player.unwrap().pitch, -1_560_796);
}

#[test]
fn pitch_clamps_short_of_straight_up() {
    let mut w = test_world(test_player());
    move_camera(&mut w, 0, -100_000_000);
    assert_eq!(w.player.unwrap().pitch, 1_560_796);
}

#[test]
fn yaw_wraps_through_the_principal_range() {
    // Two turns of +3 141 000 microradians pass the half-turn mark, and
    // the yaw comes back in from the other side.
    let mut w = test_world(test_player());
    move_camera(&mut w, -1047, 0);
    assert_eq!(w.player.unwrap().yaw, 3_141_000);
    move_camera(&mut w, -1047, 0);
    assert_eq!(w.player.unwrap().yaw, -1_186);
}

#[test]
fn mouse_motion_leaves_position_and_speed() {
    let mut p = test_player();
    p.position = Vec3Micro { x: 5, y: 6, z: 7 };
    p.speed_half_units = 9;
    let mut w = test_world(p);
    move_camera(&mut w, 40, -25);
    let after = w.player.unwrap();
    assert_eq!(after.position, Vec3Micro { x: 5, y: 6, z: 7 });
    assert_eq!(after.speed_half_units, 9);
}

#[test]
fn arrow_up_narrows_the_view() {
    let mut w = test_world(test_player());
    change_fov(&mut w, true, false);
    assert_eq!(w.player.unwrap().world_camera.fov_degrees, 89);
}

#[test]
fn arrow_down_widens_the_view() {
    let mut w = test_world(test_player());
    change_fov(&mut w, false, true);
    assert_eq!(w.player.unwrap().world_camera.fov_degrees, 91);
}

#[test]
fn fov_never_narrows_below_the_floor() {
    let mut p = test_player();
    p.world_camera.fov_degrees = 20;
    let mut w = test_world(p);
    change_fov(&mut w, true, false);
    assert_eq!(w.player.unwrap().world_camera.fov_degrees, 20);
}

#[test]
fn fov_never_widens_above_the_ceiling() {
    let mut p = test_player();
    p.world_camera.fov_degrees = 160;
    let mut w = test_world(p);
    change_fov(&mut w, false, true);
    assert_eq!(w.player.unwrap().world_camera.fov_degrees, 160);
}

#[test]
fn both_fov_keys_cancel_above_the_floor() {
    let mut w = test_world(test_player());
    change_fov(&mut w, true, true);
    assert_eq!(w.player.unwrap().world_camera.fov_degrees, 90);
    let mut p = test_player();
    p.world_camera.fov_degrees = 21;
    let mut w21 = test_world(p);
    change_fov(&mut w21, true, true);
    assert_eq!(w21.player.unwrap().world_camera.fov_degrees, 21);
}

#[test]
fn both_fov_keys_at_the_floor_step_up() {
    // At the floor the narrowing step is swallowed by its clamp while the
    // widening step still lands: the one place the two keys do not cancel.
    let mut p = test_player();
    p.world_camera.fov_degrees = 20;
    let mut w = test_world(p);
    change_fov(&mut w, true, true);
    assert_eq!(w.player.unwrap().world_camera.fov_degrees, 21);
}

#[test]
fn holding_forward_charges_and_descends() {
    // Two seconds a frame, forward only: the accumulator charges one unit
    // a frame from its half-unit floor, and depth falls by speed times
    // frame time, exactly.
    let mut w = test_world(test_player());
    let mut input = InputSnapshot::idle();
    input.forward = held();

    player_movement(&mut w, &input, 2_000_000);
    let p1 = w.player.unwrap();
    assert_eq!(p1.speed_half_units, 3); // 1.5 units per second
    assert_eq!(p1.position.z, -3_000_000); // 1.5 * 2 s

    player_movement(&mut w, &input, 2_000_000);
    let p2 = w.player.unwrap();
    assert_eq!(p2.speed_half_units, 5); // 0.5 + 2 * 1.0
    assert_eq!(p2.position.z, -8_000_000); // another 2.5 * 2 s
    assert_eq!(p2.position.x, 0);
    assert_eq!(p2.position.y, 0);
}

#[test]
fn release_resets_the_shared_accumulator() {
    // A finished key brings the accumulator back to exactly the half-unit
    // floor, though another key is still held.
    let mut p = test_player();
    p.speed_half_units = 7;
    let mut w = test_world(p);
    let mut input = InputSnapshot::idle();
    input.forward = held();
    input.back = finished();
    player_movement(&mut w, &input, 2_000_000);
    let after = w.player.unwrap();
    assert_eq!(after.speed_half_units, 1);
    assert_eq!(after.position.z, -1_000_000); // moved at the floor speed
}

#[test]
fn diagonal_movement_is_normalised() {
    let mut w = test_world(test_player());
    let mut input = InputSnapshot::idle();
    input.forward = held();
    input.right = held();
    player_movement(&mut w, &input, 2_000_000);
    let p = w.player.unwrap();
    assert_eq!(p.speed_half_units, 5);
    // 2.5 units/s * 2 s * (707107 / 1e6), in micro-units, rounded down.
    assert_eq!(p.position.x, 3_535_535);
    assert_eq!(p.position.z, -3_535_535);
    assert_eq!(p.position.y, 0);
}

#[test]
fn opposing_keys_cancel_but_still_charge() {
    let mut w = test_world(test_player());
    let mut input = InputSnapshot::idle();
    input.forward = held();
    input.back = held();
    player_movement(&mut w, &input, 2_000_000);
    let p = w.player.unwrap();
    assert_eq!(p.position, Vec3Micro { x: 0, y: 0, z: 0 });
    assert_eq!(p.speed_half_units, 5);
}

#[test]
fn zero_frame_time_still_charges() {
    let mut w = test_world(test_player());
    let mut input = InputSnapshot::idle();
    input.rise = held();
    player_movement(&mut w, &input, 0);
    let p = w.player.unwrap();
    assert_eq!(p.position, Vec3Micro { x: 0, y: 0, z: 0 });
    assert_eq!(p.speed_half_units, 3);
}

#[test]
fn quit_key_preempts_the_frame() {
    let mut w = test_world(test_player());
    let before = w.clone();
    let mut input = InputSnapshot::idle();
    input.forward = held();
    input.quit_pressed = true;
    input.grab_just_pressed = true;
    let e = player_movement(&mut w, &input, 2_000_000);
    assert!(e.quit);
    assert!(!e.grab_cursor);
    assert_eq!(w, before);
}

#[test]
fn grab_button_edge_is_passed_through() {
    let mut w = test_world(test_player());
    let mut input = InputSnapshot::idle();
    input.grab_just_pressed = true;
    let e = player_movement(&mut w, &input, 2_000_000);
    assert!(!e.quit);
    assert!(e.grab_cursor);
}
