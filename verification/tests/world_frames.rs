//! Startup, whole frames, the spawn handler, and the inert empty world.

use first_person_core::fov::change_fov;
use first_person_core::input::{InputSnapshot, KeyState};
use first_person_core::locomotion::player_movement;
use first_person_core::orientation::move_camera;
use first_person_core::player::Vec3Micro;
use first_person_core::spawn::spawn_cube;
use first_person_core::world::{spawn_view_model, update_frame, World};

#[test]
fn startup_places_the_player_and_cameras() {
    let mut w = World::new();
    assert!(w.player.is_none());
    assert_eq!(w.spawned.len(), 0);
    assert_eq!(w.spawn_count, 0);
    spawn_view_model(&mut w);
    let p = w.player.unwrap();
    assert_eq!(p.position, Vec3Micro { x: 0, y: 1_000_000, z: 0 });
    assert_eq!(p.yaw, 0);
    assert_eq!(p.pitch, -1_570_796); // looking straight down at the origin
    assert_eq!(p.roll, 0);
    assert_eq!(p.sensitivity.yaw_gain, 3000);
    assert_eq!(p.sensitivity.pitch_gain, 2000);
    assert_eq!(p.speed_half_units, 1);
    assert_eq!(p.world_camera.fov_degrees, 90);
    assert_eq!(p.world_camera.draw_order, 0);
    assert_eq!(p.world_camera.layer, 0);
    assert_eq!(p.view_camera.fov_degrees, 70);
    assert_eq!(p.view_camera.draw_order, 1);
    assert_eq!(p.view_camera.layer, 1);
}

#[test]
fn controllers_are_inert_without_a_player() {
    let mut w = World::new();
    let before = w.clone();

    move_camera(&mut w, 500, -200);
    assert_eq!(w, before);

    change_fov(&mut w, true, true);
    assert_eq!(w, before);

    let mut input = InputSnapshot::idle();
    input.forward = KeyState { pressed: true, just_released: false };
    input.quit_pressed = true;
    input.grab_just_pressed = true;
    let e = player_movement(&mut w, &input, 1_000_000);
    assert_eq!(w, before);
    assert!(!e.quit);
    assert!(!e.grab_cursor);

    let e2 = update_frame(&mut w, &input, 1_000_000);
    assert_eq!(w, before);
    assert!(!e2.quit);
    assert!(!e2.grab_cursor);

    spawn_cube(&mut w);
    assert_eq!(w, before);
}

#[test]
fn three_spawns_record_three_positions() {
    let mut w = World::new();
    spawn_view_model(&mut w);

    let first = Vec3Micro { x: 0, y: 1_000_000, z: 0 };
    spawn_cube(&mut w);

    let mut p = w.player.unwrap();
    let second = Vec3Micro { x: 2_500_000, y: 1_000_000, z: -4_000_000 };
    p.position = second;
    w.player = Some(p);
    spawn_cube(&mut w);

    let mut p = w.player.unwrap();
    let third = Vec3Micro { x: -1_000_000, y: 3_000_000, z: 7_000_000 };
    p.position = third;
    w.player = Some(p);
    spawn_cube(&mut w);

    assert_eq!(w.spawn_count, 3);
    assert_eq!(w.spawned.len(), 3);
    assert_eq!(w.spawned[0].position, first);
    assert_eq!(w.spawned[1].position, second);
    assert_eq!(w.spawned[2].position, third);
    // The player itself is untouched by spawning.
    assert_eq!(w.player.unwrap().position, third);
}

#[test]
fn a_full_frame_runs_all_three_controllers() {
    let mut w = World::new();
    spawn_view_model(&mut w);
    let mut input = InputSnapshot::idle();
    input.mouse_delta_x = 100;
    input.arrow_up_pressed = true;
    input.forward = KeyState { pressed: true, just_released: false };
    let e = update_frame(&mut w, &input, 2_000_000);
    assert!(!e.quit);
    assert!(!e.grab_cursor);
    let p = w.player.unwrap();
    // Orientation: 100 counts right turn yaw by -0.3 rad, and the first
    // nonzero motion pulls the out-of-range startup pitch into the clamp.
    assert_eq!(p.yaw, -300_000);
    assert_eq!(p.pitch, -1_560_796);
    // Field of view: the arrow-up key narrows one degree.
    assert_eq!(p.world_camera.fov_degrees, 89);
    // Locomotion: charged to 1.5 units/s, two seconds toward negative z.
    assert_eq!(p.speed_half_units, 3);
    assert_eq!(p.position, Vec3Micro { x: 0, y: 1_000_000, z: -3_000_000 });
    // Spawns only happen on their own events.
    assert_eq!(w.spawn_count, 0);
    assert_eq!(w.spawned.len(), 0);
}

#[test]
fn a_quit_frame_still_turns_and_zooms() {
    // The exit key preempts locomotion, but the orientation and
    // field-of-view controllers have already run when it is read.
    let mut w = World::new();
    spawn_view_model(&mut w);
    let mut input = InputSnapshot::idle();
    input.mouse_delta_x = 100;
    input.arrow_down_pressed = true;
    input.quit_pressed = true;
    let e = update_frame(&mut w, &input, 2_000_000);
    assert!(e.quit);
    assert!(!e.grab_cursor);
    let p = w.player.unwrap();
    assert_eq!(p.yaw, -300_000);
    assert_eq!(p.world_camera.fov_degrees, 91);
    assert_eq!(p.position, Vec3Micro { x: 0, y: 1_000_000, z: 0 });
    assert_eq!(p.speed_half_units, 1);
}
