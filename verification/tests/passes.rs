use ecs_arena::components::{Color, Location, Size, Velocity};
use ecs_arena::game::Game;
use ecs_arena::units::{MAX_COORD, MAX_DELTA_MILLIS, MAX_VELOCITY};
use ecs_arena::world::World;

/// One entity with everything the two passes read.
fn spawn_full(w: &mut World, x: i64, y: i64, vx: i64, vy: i64) -> usize {
    let id = w.create_entity();
    w.set_location(id, Location::new(x, y));
    w.set_size(id, Size::new(2_000_000));
    w.set_color(id, Color::new(500, 500, 500, 1000));
    w.set_velocity(id, Velocity::new(vx, vy));
    id
}

#[test]
fn move_adds_velocity_times_delta_componentwise() {
    let mut w = World::new();
    let a = spawn_full(&mut w, 1_000_000, 2_000_000, 3_000, -4_000);
    let b = spawn_full(&mut w, -5_000_000, 0, -1_000, 2_500);
    w.set_delta(100);
    assert!(w.check_move());
    w.move_update();
    let la = (*w.locations.get(a)).unwrap();
    assert_eq!((la.x, la.y), (1_000_000 + 3_000 * 100, 2_000_000 - 4_000 * 100));
    let lb = (*w.locations.get(b)).unwrap();
    assert_eq!((lb.x, lb.y), (-5_000_000 - 1_000 * 100, 2_500 * 100));
}

#[test]
fn entities_without_velocity_do_not_move() {
    let mut w = World::new();
    let id = w.create_entity();
    w.set_location(id, Location::new(7, 9));
    w.set_delta(1000);
    assert!(w.check_move());
    w.move_update();
    let l = (*w.locations.get(id)).unwrap();
    assert_eq!((l.x, l.y), (7, 9));
    // No mover, so the camera stays where it was.
    assert_eq!((w.camera.x, w.camera.y), (0, 0));
}

#[test]
fn camera_follows_the_last_mover() {
    let mut w = World::new();
    spawn_full(&mut w, 0, 0, 1_000, 1_000);
    spawn_full(&mut w, 10_000_000, 20_000_000, 2_000, 3_000);
    w.set_delta(10);
    assert!(w.check_move());
    w.move_update();
    // The second mover ends at (10_020_000, 20_030_000); the camera centers
    // a 1024 x 768 unit viewport on it.
    assert_eq!(w.camera.x, 10_020_000 - 512_000_000);
    assert_eq!(w.camera.y, 20_030_000 - 384_000_000);
}

#[test]
fn scenario_one_frame_at_sixteen_millis() {
    // dt = 0.016 s; the mobile entity starts at (500, 500) units with
    // velocity (10, 1) units per second.
    let mut g = Game::new();
    let moved = g.update(16);
    assert!(moved);
    let id = g.entities_count - 1;
    let loc = (*g.world.locations.get(id)).unwrap();
    // (500.16, 500.016) units, exactly, in micro-units.
    assert_eq!((loc.x, loc.y), (500_160_000, 500_016_000));
    // Camera origin (500.16 - 512, 500.016 - 384) = (-11.84, 116.016).
    assert_eq!(g.world.camera.x, -11_840_000);
    assert_eq!(g.world.camera.y, 116_016_000);
}

#[test]
fn oversized_delta_blocks_the_move_pass() {
    let mut w = World::new();
    spawn_full(&mut w, 0, 0, 1, 1);
    w.set_delta(MAX_DELTA_MILLIS + 1);
    assert!(!w.check_move());
}

#[test]
fn mover_leaving_the_model_blocks_the_move_pass() {
    let mut g = Game::new();
    let id = g.entities_count - 1;
    g.world.set_location(id, Location::new(MAX_COORD, MAX_COORD));
    g.world.set_velocity(id, Velocity::new(MAX_VELOCITY, 0));
    let moved = g.update(16);
    assert!(!moved);
    // Nothing moved and the camera stayed.
    let loc = (*g.world.locations.get(id)).unwrap();
    assert_eq!((loc.x, loc.y), (MAX_COORD, MAX_COORD));
    assert_eq!((g.world.camera.x, g.world.camera.y), (0, 0));
    // The frame time was still stored.
    assert_eq!(g.world.delta.millis, 16);
}

#[test]
fn detached_velocity_stops_an_entity() {
    let mut w = World::new();
    let id = spawn_full(&mut w, 1_000, 1_000, 5_000, 5_000);
    w.clear_velocity(id);
    w.set_delta(100);
    assert!(w.check_move());
    w.move_update();
    let l = (*w.locations.get(id)).unwrap();
    assert_eq!((l.x, l.y), (1_000, 1_000));
}

#[test]
fn draw_culls_against_the_half_open_viewport() {
    let mut w = World::new();
    // Camera starts at the origin with a 1024 x 768 unit viewport.
    let near_x = spawn_full(&mut w, 0, 1_000_000, 0, 0);
    let _far_x = spawn_full(&mut w, 1_024_000_000, 1_000_000, 0, 0);
    let just_in_x = spawn_full(&mut w, 1_023_999_999, 1_000_000, 0, 0);
    let _far_y = spawn_full(&mut w, 1_000_000, 768_000_000, 0, 0);
    let just_in_y = spawn_full(&mut w, 1_000_000, 767_999_999, 0, 0);
    let _outside = spawn_full(&mut w, -1, 1_000_000, 0, 0);
    let cmds = w.draw_pass();
    assert_eq!(cmds.len(), 3);
    assert_eq!(cmds[0].x, 0);
    assert_eq!(cmds[0].y, 1_000_000);
    assert_eq!(cmds[1].x, 1_023_999_999);
    assert_eq!(cmds[2].y, 767_999_999);
    let _ = (near_x, just_in_x, just_in_y);
}

#[test]
fn draw_skips_entities_missing_a_component() {
    let mut w = World::new();
    // Location only: never drawn, even inside the viewport.
    let id = w.create_entity();
    w.set_location(id, Location::new(1, 1));
    // Location and size, no color.
    let id = w.create_entity();
    w.set_location(id, Location::new(2, 2));
    w.set_size(id, Size::new(1));
    // Fully drawable.
    spawn_full(&mut w, 3, 3, 0, 0);
    let cmds = w.draw_pass();
    assert_eq!(cmds.len(), 1);
    assert_eq!((cmds[0].x, cmds[0].y), (3, 3));
}

#[test]
fn draw_emits_camera_local_coordinates_radius_and_color() {
    let mut w = World::new();
    let id = w.create_entity();
    w.set_location(id, Location::new(10_000_000, 20_000_000));
    w.set_size(id, Size::new(4_000_000));
    w.set_color(id, Color::new(1000, 0, 250, 750));
    spawn_full(&mut w, 30_000_000, 40_000_000, 1_000, 0);
    w.set_delta(0);
    assert!(w.check_move());
    w.move_update();
    // The camera now centers on the mover at (30, 40) units.
    let cmds = w.draw_pass();
    assert_eq!(cmds.len(), 2);
    assert_eq!(cmds[0].x, 10_000_000 - (30_000_000 - 512_000_000));
    assert_eq!(cmds[0].y, 20_000_000 - (40_000_000 - 384_000_000));
    assert_eq!(cmds[0].radius, 4_000_000);
    let c = cmds[0].color;
    assert_eq!((c.red, c.green, c.blue, c.alpha), (1000, 0, 250, 750));
    // The mover sits exactly at the viewport's center.
    assert_eq!((cmds[1].x, cmds[1].y), (512_000_000, 384_000_000));
}

#[test]
fn draw_twice_without_a_move_is_identical() {
    let g = Game::new();
    let first = g.draw();
    let second = g.draw();
    assert_eq!(first.len(), second.len());
    assert_eq!(first, second);
}

#[test]
fn fresh_scene_draws_the_visible_grid_and_the_mobile_entity() {
    // With the camera at the origin, the decorative entities inside the
    // 1024 x 768 viewport are at x in {25, ..., 1000} (40 columns) and
    // y in {25, ..., 750} (30 rows); the mobile entity at (500, 500) is
    // inside too.
    let g = Game::new();
    let cmds = g.draw();
    assert_eq!(cmds.len(), 40 * 30 + 1);
}

#[test]
fn draw_after_a_move_still_counts_only_the_viewport() {
    let mut g = Game::new();
    assert!(g.update(16));
    let first = g.draw();
    let second = g.draw();
    assert_eq!(first.len(), second.len());
    assert_eq!(first, second);
}

#[test]
fn two_frames_accumulate_displacement() {
    let mut g = Game::new();
    assert!(g.update(16));
    assert!(g.update(16));
    let id = g.entities_count - 1;
    let loc = (*g.world.locations.get(id)).unwrap();
    assert_eq!((loc.x, loc.y), (500_320_000, 500_032_000));
    assert_eq!(g.world.camera.x, 500_320_000 - 512_000_000);
    assert_eq!(g.world.camera.y, 500_032_000 - 384_000_000);
}

#[test]
fn camera_following_a_distant_mover_culls_the_rest() {
    let mut w = World::new();
    // A static, fully drawable entity near the origin.
    let id = w.create_entity();
    w.set_location(id, Location::new(1_000_000, 1_000_000));
    w.set_size(id, Size::new(1_000_000));
    w.set_color(id, Color::new(1000, 1000, 1000, 1000));
    // A mover far away; the camera ends centered on it.
    spawn_full(&mut w, 100_000_000_000, 100_000_000_000, 0, 0);
    w.set_delta(16);
    assert!(w.check_move());
    w.move_update();
    let cmds = w.draw_pass();
    assert_eq!(cmds.len(), 1);
    assert_eq!((cmds[0].x, cmds[0].y), (512_000_000, 384_000_000));
}
